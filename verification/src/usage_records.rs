//! The records that close a prescription group: the usage, what
//! supplements it, and what to mind for the group.

use vstd::prelude::*;
use std::str::FromStr;
use crate::codes::{
    lemma_dosage_form_round_trip, lemma_record_creator_round_trip,
    lemma_usage_code_type_round_trip, DosageForm, RecordCreator, UsageCodeType,
};
use crate::error::{framed, invalid_record_line, outcome, Error, ErrorView};
use crate::number::{decimal, decimal_string, small_code};
use crate::record::{
    all_lines, comma, digits_within, has_tag, is_digits_within, is_field_text, is_one_digit,
    is_optional_field_text, is_some_digits, is_version_line, join_fields, lemma_code_text,
    lemma_fields_are_field_text, lemma_number_round_trip, lemma_record_line, line_tag, number_of,
    one_digit, optional, optional_code, optional_text, read_number, read_optional_dosage_form,
    read_optional_number, read_optional_text, read_optional_usage_code_type, some_digits,
    write_optional_text, LineModel, Record,
};
use crate::text::{all_digits, fields_of, is_all_digits, is_break, is_line, join, split_fields};

verus! {

/// How the drugs of a group are taken (用法レコード).
#[derive(Debug, Clone, PartialEq, Eq)]
pub struct UsageRecord {
    /// RP番号
    pub rp_number: u32,
    /// 用法名称
    pub name: String,
    /// 調剤数量
    pub quantity: Option<u32>,
    /// 調剤単位
    pub unit: Option<String>,
    /// 剤型コード
    pub dosage_form: Option<DosageForm>,
    /// 用法コード種別
    pub usage_code_type: Option<UsageCodeType>,
    /// 用法コード
    pub usage_code: Option<String>,
    /// レコード作成者
    pub created_by: RecordCreator,
}

/// The model of a [`UsageRecord`]: its fields, the texts as sequences of
/// characters.
pub struct UsageRecordView {
    pub rp_number: u32,
    pub name: Seq<char>,
    pub quantity: Option<u32>,
    pub unit: Option<Seq<char>>,
    pub dosage_form: Option<DosageForm>,
    pub usage_code_type: Option<UsageCodeType>,
    pub usage_code: Option<Seq<char>>,
    pub created_by: RecordCreator,
}

impl View for UsageRecord {
    type V = UsageRecordView;

    open spec fn view(&self) -> UsageRecordView {
        UsageRecordView {
            rp_number: self.rp_number,
            name: self.name@,
            quantity: self.quantity,
            unit: self.unit.deep_view(),
            dosage_form: self.dosage_form,
            usage_code_type: self.usage_code_type,
            usage_code: self.usage_code.deep_view(),
            created_by: self.created_by,
        }
    }
}

impl DeepView for UsageRecord {
    type V = UsageRecordView;

    open spec fn deep_view(&self) -> UsageRecordView {
        self@
    }
}

impl UsageRecordView {
    /// The fields of the record's line, the tag first.
    pub open spec fn fields(self) -> Seq<Seq<char>> {
        seq![
            decimal(301),
            decimal(self.rp_number as nat),
            self.name,
            match self.quantity {
                Some(n) => decimal(n as nat),
                None => Seq::empty(),
            },
            optional_code(self.unit),
            match self.dosage_form {
                Some(v) => v.code(),
                None => Seq::empty(),
            },
            match self.usage_code_type {
                Some(v) => v.code(),
                None => Seq::empty(),
            },
            optional_code(self.usage_code),
            self.created_by.code(),
        ]
    }

    /// The record's line: the fields with commas between them.
    pub open spec fn line(self) -> Seq<char> {
        join(self.fields(), comma())
    }

    /// Whether the record's line reads back as the record: its texts can
    /// stand in a field and a text that may be missing is not empty.
    pub open spec fn is_encodable(self) -> bool {
        &&& is_field_text(self.name)
        &&& is_optional_field_text(self.unit)
        &&& is_optional_field_text(self.usage_code)
    }
}

impl LineModel for UsageRecordView {
    open spec fn lines(self) -> Seq<Seq<char>> {
        seq![self.line()]
    }
}

impl UsageRecord {
    /// A record of the given fields.
    pub fn new(
        rp_number: u32,
        name: String,
        quantity: Option<u32>,
        unit: Option<String>,
        dosage_form: Option<DosageForm>,
        usage_code_type: Option<UsageCodeType>,
        usage_code: Option<String>,
        created_by: RecordCreator,
    ) -> (r: Self)
        ensures
            r == (UsageRecord {
                rp_number,
                name,
                quantity,
                unit,
                dosage_form,
                usage_code_type,
                usage_code,
                created_by,
            }),
    {
        UsageRecord {
            rp_number,
            name,
            quantity,
            unit,
            dosage_form,
            usage_code_type,
            usage_code,
            created_by,
        }
    }

    /// Whether fields have the shape of this record's line: their number,
    /// the tag, and the class of each field that has one.
    pub open spec fn shape(f: Seq<Seq<char>>) -> bool {
        &&& f.len() == 9
        &&& small_code(f[0]) == Some(301nat)
        &&& some_digits(f[1])
        &&& all_digits(f[3])
        &&& all_digits(f[5])
        &&& digits_within(f[6], 0, 1)
        &&& one_digit(f[8])
    }

    /// The model of the defaults.
    pub open spec fn default_view() -> UsageRecordView {
        UsageRecordView {
            rp_number: 1,
            name: Seq::empty(),
            quantity: None,
            unit: None,
            dosage_form: None,
            usage_code_type: None,
            usage_code: None,
            created_by: RecordCreator::Unknown,
        }
    }

    /// What reading the line `s` gives. A line that has not the shape of
    /// the record is refused as a whole; then the fields are read from left
    /// to right, and the first that fails gives the error.
    pub open spec fn spec_from_str(s: Seq<char>) -> Result<UsageRecordView, ErrorView> {
        let f = fields_of(s);
        if !Self::shape(f) {
            Err(invalid_record_line("Cannot convert str to UsageRecord, got \""@ + s + "\""@))
        } else {
            let rp_number = number_of(f[1]);
            let quantity = optional(f[3], number_of(f[3]));
            let dosage_form = optional(f[5], DosageForm::spec_from_str(f[5]));
            let usage_code_type = optional(f[6], UsageCodeType::spec_from_str(f[6]));
            let created_by = RecordCreator::spec_from_str(f[8]);
            if rp_number is Err {
                Err(rp_number->Err_0)
            } else if quantity is Err {
                Err(quantity->Err_0)
            } else if dosage_form is Err {
                Err(dosage_form->Err_0)
            } else if usage_code_type is Err {
                Err(usage_code_type->Err_0)
            } else if created_by is Err {
                Err(created_by->Err_0)
            } else {
                Ok(
                    UsageRecordView {
                        rp_number: rp_number->Ok_0,
                        name: f[2],
                        quantity: quantity->Ok_0,
                        unit: optional_text(f[4]),
                        dosage_form: dosage_form->Ok_0,
                        usage_code_type: usage_code_type->Ok_0,
                        usage_code: optional_text(f[7]),
                        created_by: created_by->Ok_0,
                    },
                )
            }
        }
    }

    /// The record's line.
    pub fn to_code(&self) -> (r: String)
        ensures
            r@ == self@.line(),
    {
        let mut parts: Vec<String> = Vec::new();
        parts.push(decimal_string(301));
        parts.push(decimal_string(self.rp_number as u64));
        parts.push(self.name.clone());
        let quantity = match self.quantity {
            Some(n) => decimal_string(n as u64),
            None => String::new(),
        };
        parts.push(quantity);
        parts.push(write_optional_text(&self.unit));
        let dosage_form = match self.dosage_form {
            Some(v) => v.to_code(),
            None => String::new(),
        };
        parts.push(dosage_form);
        let usage_code_type = match self.usage_code_type {
            Some(v) => v.to_code(),
            None => String::new(),
        };
        parts.push(usage_code_type);
        parts.push(write_optional_text(&self.usage_code));
        parts.push(self.created_by.to_code());
        assert(parts.deep_view() =~= self@.fields());
        join_fields(&parts)
    }
}

impl Record for UsageRecord {
    open spec fn tag() -> u32 {
        301
    }

    open spec fn field_count() -> u32 {
        8
    }

    fn record_number(&self) -> (n: u32) {
        301
    }

    fn cols(&self) -> (n: u32) {
        8
    }
}

impl Default for UsageRecord {
    fn default() -> (r: Self)
        ensures
            r@ == Self::default_view(),
    {
        UsageRecord {
            rp_number: 1,
            name: String::new(),
            quantity: None,
            unit: None,
            dosage_form: None,
            usage_code_type: None,
            usage_code: None,
            created_by: RecordCreator::Unknown,
        }
    }
}

impl FromStr for UsageRecord {
    type Err = Error;

    /// Reads the record from its line.
    fn from_str(s: &str) -> (r: Result<Self, Self::Err>)
        ensures
            outcome(r) == Self::spec_from_str(s@),
    {
        let f = split_fields(s);
        if !(f.len() == 9
            && has_tag(f[0].as_str(), 301)
            && is_some_digits(f[1].as_str())
            && is_all_digits(f[3].as_str())
            && is_all_digits(f[5].as_str())
            && is_digits_within(f[6].as_str(), 0, 1)
            && is_one_digit(f[8].as_str())) {
            return Err(
                Error::InvalidRecordLine(
                    framed("Cannot convert str to UsageRecord, got \"", s, "\""),
                ),
            );
        }
        let rp_number = match read_number(f[1].as_str()) {
            Ok(v) => v,
            Err(e) => return Err(e),
        };
        let quantity = match read_optional_number(f[3].as_str()) {
            Ok(v) => v,
            Err(e) => return Err(e),
        };
        let dosage_form = match read_optional_dosage_form(f[5].as_str()) {
            Ok(v) => v,
            Err(e) => return Err(e),
        };
        let usage_code_type = match read_optional_usage_code_type(f[6].as_str()) {
            Ok(v) => v,
            Err(e) => return Err(e),
        };
        let created_by = match RecordCreator::from_str(f[8].as_str()) {
            Ok(v) => v,
            Err(e) => return Err(e),
        };
        Ok(
            UsageRecord {
                rp_number,
                name: f[2].clone(),
                quantity,
                unit: read_optional_text(&f[4]),
                dosage_form,
                usage_code_type,
                usage_code: read_optional_text(&f[7]),
                created_by,
            },
        )
    }
}

/// The line of a record that can be written reads back as the record. It
/// is one line that begins with the tag 301.
pub proof fn lemma_usage_record_round_trip(v: UsageRecordView)
    requires
        v.is_encodable(),
    ensures
        UsageRecord::spec_from_str(v.line()) == Ok::<UsageRecordView, ErrorView>(v),
        line_tag(v.line()) == Some(301nat),
        is_line(v.line()),
        !is_version_line(v.line()),
{
    let f = v.fields();
    lemma_code_text(301);
    lemma_number_round_trip(v.rp_number);
    if v.quantity is Some {
        lemma_number_round_trip(v.quantity.unwrap());
    }
    if v.dosage_form is Some {
        lemma_dosage_form_round_trip(v.dosage_form.unwrap());
        lemma_code_text(v.dosage_form.unwrap().number());
    }
    if v.usage_code_type is Some {
        lemma_usage_code_type_round_trip(v.usage_code_type.unwrap());
        lemma_code_text(v.usage_code_type.unwrap().number());
    }
    lemma_record_creator_round_trip(v.created_by);
    lemma_code_text(v.created_by.number());
    assert(f.len() == 9);
    assert forall|i: int| 0 <= i < f.len() implies is_field_text(#[trigger] f[i]) by {}
    lemma_record_line(f, 301);
}

/// The line of the default record reads back as the default record.
pub proof fn lemma_usage_record_default_round_trip()
    ensures
        UsageRecord::spec_from_str(UsageRecord::default_view().line()) == Ok::<
            UsageRecordView,
            ErrorView,
        >(UsageRecord::default_view()),
{
    lemma_usage_record_round_trip(UsageRecord::default_view());
}

/// A supplement to a usage (用法補足レコード).
#[derive(Debug, Clone, PartialEq, Eq)]
pub struct UsageSupplementaryRecord {
    /// RP番号
    pub rp_number: u32,
    /// 用法補足情報
    pub content: String,
    /// レコード作成者
    pub created_by: RecordCreator,
}

/// The model of a [`UsageSupplementaryRecord`]: its fields, the texts as sequences of
/// characters.
pub struct UsageSupplementaryRecordView {
    pub rp_number: u32,
    pub content: Seq<char>,
    pub created_by: RecordCreator,
}

impl View for UsageSupplementaryRecord {
    type V = UsageSupplementaryRecordView;

    open spec fn view(&self) -> UsageSupplementaryRecordView {
        UsageSupplementaryRecordView {
            rp_number: self.rp_number,
            content: self.content@,
            created_by: self.created_by,
        }
    }
}

impl DeepView for UsageSupplementaryRecord {
    type V = UsageSupplementaryRecordView;

    open spec fn deep_view(&self) -> UsageSupplementaryRecordView {
        self@
    }
}

impl UsageSupplementaryRecordView {
    /// The fields of the record's line, the tag first.
    pub open spec fn fields(self) -> Seq<Seq<char>> {
        seq![
            decimal(311),
            decimal(self.rp_number as nat),
            self.content,
            self.created_by.code(),
        ]
    }

    /// The record's line: the fields with commas between them.
    pub open spec fn line(self) -> Seq<char> {
        join(self.fields(), comma())
    }

    /// Whether the record's line reads back as the record: its texts can
    /// stand in a field.
    pub open spec fn is_encodable(self) -> bool {
        &&& is_field_text(self.content)
    }
}

impl LineModel for UsageSupplementaryRecordView {
    open spec fn lines(self) -> Seq<Seq<char>> {
        seq![self.line()]
    }
}

impl UsageSupplementaryRecord {
    /// A record of the given fields.
    pub fn new(
        rp_number: u32,
        content: String,
        created_by: RecordCreator,
    ) -> (r: Self)
        ensures
            r == (UsageSupplementaryRecord { rp_number, content, created_by }),
    {
        UsageSupplementaryRecord { rp_number, content, created_by }
    }

    /// Whether fields have the shape of this record's line: their number,
    /// the tag, and the class of each field that has one.
    pub open spec fn shape(f: Seq<Seq<char>>) -> bool {
        &&& f.len() == 4
        &&& small_code(f[0]) == Some(311nat)
        &&& some_digits(f[1])
        &&& one_digit(f[3])
    }

    /// The model of the defaults.
    pub open spec fn default_view() -> UsageSupplementaryRecordView {
        UsageSupplementaryRecordView {
            rp_number: 1,
            content: Seq::empty(),
            created_by: RecordCreator::Unknown,
        }
    }

    /// What reading the line `s` gives. A line that has not the shape of
    /// the record is refused as a whole; then the fields are read from left
    /// to right, and the first that fails gives the error.
    pub open spec fn spec_from_str(s: Seq<char>) -> Result<
        UsageSupplementaryRecordView,
        ErrorView,
    > {
        let f = fields_of(s);
        if !Self::shape(f) {
            Err(
                invalid_record_line(
                    "Cannot convert str to UsageSupplementaryRecord, got \""@ + s + "\""@,
                ),
            )
        } else {
            let rp_number = number_of(f[1]);
            let created_by = RecordCreator::spec_from_str(f[3]);
            if rp_number is Err {
                Err(rp_number->Err_0)
            } else if created_by is Err {
                Err(created_by->Err_0)
            } else {
                Ok(
                    UsageSupplementaryRecordView {
                        rp_number: rp_number->Ok_0,
                        content: f[2],
                        created_by: created_by->Ok_0,
                    },
                )
            }
        }
    }

    /// The record's line.
    pub fn to_code(&self) -> (r: String)
        ensures
            r@ == self@.line(),
    {
        let mut parts: Vec<String> = Vec::new();
        parts.push(decimal_string(311));
        parts.push(decimal_string(self.rp_number as u64));
        parts.push(self.content.clone());
        parts.push(self.created_by.to_code());
        assert(parts.deep_view() =~= self@.fields());
        join_fields(&parts)
    }

    /// Appends the lines of `records` to `out`.
    pub fn push_lines(out: &mut Vec<String>, records: &Vec<UsageSupplementaryRecord>)
        ensures
            final(out).deep_view() == old(out).deep_view() + all_lines(records.deep_view()),
    {
        let mut i: usize = 0;
        assert(records.deep_view().take(0) =~= Seq::empty());
        assert(out.deep_view() =~= old(out).deep_view() + Seq::<Seq<char>>::empty());
        while i < records.len()
            invariant
                i <= records.len(),
                out.deep_view() == old(out).deep_view() + all_lines(
                    records.deep_view().take(i as int),
                ),
            decreases records.len() - i,
        {
            let ghost before = out.deep_view();
            let ghost done = records.deep_view().take(i as int);
            let ghost next = records.deep_view().take(i + 1);
            out.push(records[i].to_code());
            proof {
                assert(next.drop_last() =~= done);
                assert(next.last() == records[i as int]@);
                assert(out.deep_view() =~= before.push(records[i as int]@.line()));
                assert(before.push(records[i as int]@.line()) =~= old(out).deep_view() + (all_lines(
                    done,
                ) + seq![records[i as int]@.line()]));
            }
            i += 1;
        }
        assert(records.deep_view().take(records.len() as int) =~= records.deep_view());
    }
}

impl Record for UsageSupplementaryRecord {
    open spec fn tag() -> u32 {
        311
    }

    open spec fn field_count() -> u32 {
        3
    }

    fn record_number(&self) -> (n: u32) {
        311
    }

    fn cols(&self) -> (n: u32) {
        3
    }
}

impl Default for UsageSupplementaryRecord {
    fn default() -> (r: Self)
        ensures
            r@ == Self::default_view(),
    {
        UsageSupplementaryRecord {
            rp_number: 1,
            content: String::new(),
            created_by: RecordCreator::Unknown,
        }
    }
}

impl FromStr for UsageSupplementaryRecord {
    type Err = Error;

    /// Reads the record from its line.
    fn from_str(s: &str) -> (r: Result<Self, Self::Err>)
        ensures
            outcome(r) == Self::spec_from_str(s@),
    {
        let f = split_fields(s);
        if !(f.len() == 4
            && has_tag(f[0].as_str(), 311)
            && is_some_digits(f[1].as_str())
            && is_one_digit(f[3].as_str())) {
            return Err(
                Error::InvalidRecordLine(
                    framed("Cannot convert str to UsageSupplementaryRecord, got \"", s, "\""),
                ),
            );
        }
        let rp_number = match read_number(f[1].as_str()) {
            Ok(v) => v,
            Err(e) => return Err(e),
        };
        let created_by = match RecordCreator::from_str(f[3].as_str()) {
            Ok(v) => v,
            Err(e) => return Err(e),
        };
        Ok(
            UsageSupplementaryRecord {
                rp_number,
                content: f[2].clone(),
                created_by,
            },
        )
    }
}

/// The line of a record that can be written reads back as the record. It
/// is one line that begins with the tag 311.
pub proof fn lemma_usage_supplementary_record_round_trip(v: UsageSupplementaryRecordView)
    requires
        v.is_encodable(),
    ensures
        UsageSupplementaryRecord::spec_from_str(v.line()) == Ok::<
            UsageSupplementaryRecordView,
            ErrorView,
        >(v),
        line_tag(v.line()) == Some(311nat),
        is_line(v.line()),
        !is_version_line(v.line()),
{
    let f = v.fields();
    lemma_code_text(311);
    lemma_number_round_trip(v.rp_number);
    lemma_record_creator_round_trip(v.created_by);
    lemma_code_text(v.created_by.number());
    assert(f.len() == 4);
    assert forall|i: int| 0 <= i < f.len() implies is_field_text(#[trigger] f[i]) by {}
    lemma_record_line(f, 311);
}

/// The line of the default record reads back as the default record.
pub proof fn lemma_usage_supplementary_record_default_round_trip()
    ensures
        UsageSupplementaryRecord::spec_from_str(UsageSupplementaryRecord::default_view().line()) == Ok::<
            UsageSupplementaryRecordView,
            ErrorView,
        >(UsageSupplementaryRecord::default_view()),
{
    lemma_usage_supplementary_record_round_trip(UsageSupplementaryRecord::default_view());
}

/// What to mind for a prescription group (処方服用注意レコード).
#[derive(Debug, Clone, PartialEq, Eq)]
pub struct RpNoticeRecord {
    /// RP番号
    pub rp_number: u32,
    /// 内容
    pub content: String,
    /// レコード作成者
    pub created_by: RecordCreator,
}

/// The model of a [`RpNoticeRecord`]: its fields, the texts as sequences of
/// characters.
pub struct RpNoticeRecordView {
    pub rp_number: u32,
    pub content: Seq<char>,
    pub created_by: RecordCreator,
}

impl View for RpNoticeRecord {
    type V = RpNoticeRecordView;

    open spec fn view(&self) -> RpNoticeRecordView {
        RpNoticeRecordView {
            rp_number: self.rp_number,
            content: self.content@,
            created_by: self.created_by,
        }
    }
}

impl DeepView for RpNoticeRecord {
    type V = RpNoticeRecordView;

    open spec fn deep_view(&self) -> RpNoticeRecordView {
        self@
    }
}

impl RpNoticeRecordView {
    /// The fields of the record's line, the tag first.
    pub open spec fn fields(self) -> Seq<Seq<char>> {
        seq![
            decimal(391),
            decimal(self.rp_number as nat),
            self.content,
            self.created_by.code(),
        ]
    }

    /// The record's line: the fields with commas between them.
    pub open spec fn line(self) -> Seq<char> {
        join(self.fields(), comma())
    }

    /// Whether the record's line reads back as the record: its texts can
    /// stand in a field.
    pub open spec fn is_encodable(self) -> bool {
        &&& is_field_text(self.content)
    }
}

impl LineModel for RpNoticeRecordView {
    open spec fn lines(self) -> Seq<Seq<char>> {
        seq![self.line()]
    }
}

impl RpNoticeRecord {
    /// A record of the given fields.
    pub fn new(
        rp_number: u32,
        content: String,
        created_by: RecordCreator,
    ) -> (r: Self)
        ensures
            r == (RpNoticeRecord { rp_number, content, created_by }),
    {
        RpNoticeRecord { rp_number, content, created_by }
    }

    /// Whether fields have the shape of this record's line: their number,
    /// the tag, and the class of each field that has one.
    pub open spec fn shape(f: Seq<Seq<char>>) -> bool {
        &&& f.len() == 4
        &&& small_code(f[0]) == Some(391nat)
        &&& some_digits(f[1])
        &&& one_digit(f[3])
    }

    /// The model of the defaults.
    pub open spec fn default_view() -> RpNoticeRecordView {
        RpNoticeRecordView {
            rp_number: 1,
            content: Seq::empty(),
            created_by: RecordCreator::Unknown,
        }
    }

    /// What reading the line `s` gives. A line that has not the shape of
    /// the record is refused as a whole; then the fields are read from left
    /// to right, and the first that fails gives the error.
    pub open spec fn spec_from_str(s: Seq<char>) -> Result<RpNoticeRecordView, ErrorView> {
        let f = fields_of(s);
        if !Self::shape(f) {
            Err(invalid_record_line("Cannot convert str to RpNoticeRecord, got \""@ + s + "\""@))
        } else {
            let rp_number = number_of(f[1]);
            let created_by = RecordCreator::spec_from_str(f[3]);
            if rp_number is Err {
                Err(rp_number->Err_0)
            } else if created_by is Err {
                Err(created_by->Err_0)
            } else {
                Ok(
                    RpNoticeRecordView {
                        rp_number: rp_number->Ok_0,
                        content: f[2],
                        created_by: created_by->Ok_0,
                    },
                )
            }
        }
    }

    /// The record's line.
    pub fn to_code(&self) -> (r: String)
        ensures
            r@ == self@.line(),
    {
        let mut parts: Vec<String> = Vec::new();
        parts.push(decimal_string(391));
        parts.push(decimal_string(self.rp_number as u64));
        parts.push(self.content.clone());
        parts.push(self.created_by.to_code());
        assert(parts.deep_view() =~= self@.fields());
        join_fields(&parts)
    }

    /// Appends the lines of `records` to `out`.
    pub fn push_lines(out: &mut Vec<String>, records: &Vec<RpNoticeRecord>)
        ensures
            final(out).deep_view() == old(out).deep_view() + all_lines(records.deep_view()),
    {
        let mut i: usize = 0;
        assert(records.deep_view().take(0) =~= Seq::empty());
        assert(out.deep_view() =~= old(out).deep_view() + Seq::<Seq<char>>::empty());
        while i < records.len()
            invariant
                i <= records.len(),
                out.deep_view() == old(out).deep_view() + all_lines(
                    records.deep_view().take(i as int),
                ),
            decreases records.len() - i,
        {
            let ghost before = out.deep_view();
            let ghost done = records.deep_view().take(i as int);
            let ghost next = records.deep_view().take(i + 1);
            out.push(records[i].to_code());
            proof {
                assert(next.drop_last() =~= done);
                assert(next.last() == records[i as int]@);
                assert(out.deep_view() =~= before.push(records[i as int]@.line()));
                assert(before.push(records[i as int]@.line()) =~= old(out).deep_view() + (all_lines(
                    done,
                ) + seq![records[i as int]@.line()]));
            }
            i += 1;
        }
        assert(records.deep_view().take(records.len() as int) =~= records.deep_view());
    }
}

impl Record for RpNoticeRecord {
    open spec fn tag() -> u32 {
        391
    }

    open spec fn field_count() -> u32 {
        3
    }

    fn record_number(&self) -> (n: u32) {
        391
    }

    fn cols(&self) -> (n: u32) {
        3
    }
}

impl Default for RpNoticeRecord {
    fn default() -> (r: Self)
        ensures
            r@ == Self::default_view(),
    {
        RpNoticeRecord {
            rp_number: 1,
            content: String::new(),
            created_by: RecordCreator::Unknown,
        }
    }
}

impl FromStr for RpNoticeRecord {
    type Err = Error;

    /// Reads the record from its line.
    fn from_str(s: &str) -> (r: Result<Self, Self::Err>)
        ensures
            outcome(r) == Self::spec_from_str(s@),
    {
        let f = split_fields(s);
        if !(f.len() == 4
            && has_tag(f[0].as_str(), 391)
            && is_some_digits(f[1].as_str())
            && is_one_digit(f[3].as_str())) {
            return Err(
                Error::InvalidRecordLine(
                    framed("Cannot convert str to RpNoticeRecord, got \"", s, "\""),
                ),
            );
        }
        let rp_number = match read_number(f[1].as_str()) {
            Ok(v) => v,
            Err(e) => return Err(e),
        };
        let created_by = match RecordCreator::from_str(f[3].as_str()) {
            Ok(v) => v,
            Err(e) => return Err(e),
        };
        Ok(
            RpNoticeRecord {
                rp_number,
                content: f[2].clone(),
                created_by,
            },
        )
    }
}

/// The line of a record that can be written reads back as the record. It
/// is one line that begins with the tag 391.
pub proof fn lemma_rp_notice_record_round_trip(v: RpNoticeRecordView)
    requires
        v.is_encodable(),
    ensures
        RpNoticeRecord::spec_from_str(v.line()) == Ok::<RpNoticeRecordView, ErrorView>(v),
        line_tag(v.line()) == Some(391nat),
        is_line(v.line()),
        !is_version_line(v.line()),
{
    let f = v.fields();
    lemma_code_text(391);
    lemma_number_round_trip(v.rp_number);
    lemma_record_creator_round_trip(v.created_by);
    lemma_code_text(v.created_by.number());
    assert(f.len() == 4);
    assert forall|i: int| 0 <= i < f.len() implies is_field_text(#[trigger] f[i]) by {}
    lemma_record_line(f, 391);
}

/// The line of the default record reads back as the default record.
pub proof fn lemma_rp_notice_record_default_round_trip()
    ensures
        RpNoticeRecord::spec_from_str(RpNoticeRecord::default_view().line()) == Ok::<
            RpNoticeRecordView,
            ErrorView,
        >(RpNoticeRecord::default_view()),
{
    lemma_rp_notice_record_round_trip(RpNoticeRecord::default_view());
}

/// A record that was read from a line can be written.
pub proof fn lemma_usage_record_read_is_encodable(s: Seq<char>)
    requires
        forall|i: int| 0 <= i < s.len() ==> !is_break(#[trigger] s[i]),
        UsageRecord::spec_from_str(s) is Ok,
    ensures
        (UsageRecord::spec_from_str(s)->Ok_0).is_encodable(),
{
    let f = fields_of(s);
    lemma_fields_are_field_text(s);
}

/// A record that was read from a line can be written.
pub proof fn lemma_usage_supplementary_record_read_is_encodable(s: Seq<char>)
    requires
        forall|i: int| 0 <= i < s.len() ==> !is_break(#[trigger] s[i]),
        UsageSupplementaryRecord::spec_from_str(s) is Ok,
    ensures
        (UsageSupplementaryRecord::spec_from_str(s)->Ok_0).is_encodable(),
{
    let f = fields_of(s);
    lemma_fields_are_field_text(s);
}

/// A record that was read from a line can be written.
pub proof fn lemma_rp_notice_record_read_is_encodable(s: Seq<char>)
    requires
        forall|i: int| 0 <= i < s.len() ==> !is_break(#[trigger] s[i]),
        RpNoticeRecord::spec_from_str(s) is Ok,
    ensures
        (RpNoticeRecord::spec_from_str(s)->Ok_0).is_encodable(),
{
    let f = fields_of(s);
    lemma_fields_are_field_text(s);
}

} // verus!
