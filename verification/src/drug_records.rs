//! The records of one drug: the drug, what supplements it, and what to
//! mind when taking it.

use vstd::prelude::*;
use std::str::FromStr;
use crate::codes::{
    lemma_drug_code_type_round_trip, lemma_record_creator_round_trip, DrugCodeType, RecordCreator,
};
use crate::error::{framed, invalid_record_line, outcome, Error, ErrorView};
use crate::number::{decimal, decimal_string, small_code};
use crate::record::{
    all_lines, comma, digits_within, has_tag, is_digits_within, is_field_text, is_one_digit,
    is_optional_field_text, is_some_digits, is_version_line, join_fields, lemma_code_text,
    lemma_fields_are_field_text, lemma_number_round_trip, lemma_record_line, line_tag, number_of,
    one_digit, optional_code, optional_text, read_number, read_optional_text, some_digits,
    write_optional_text, LineModel, Record,
};
use crate::text::{fields_of, is_break, is_line, join, split_fields};

verus! {

/// A drug (薬品レコード).
#[derive(Debug, Clone, PartialEq, Eq)]
pub struct DrugRecord {
    /// RP番号
    pub rp_number: u32,
    /// 薬品名称
    pub name: String,
    /// 用量
    pub dosage: String,
    /// 単位名
    pub unit: String,
    /// 薬品コード種別
    pub drug_code_type: DrugCodeType,
    /// 薬品コード
    pub drug_code: Option<String>,
    /// レコード作成者
    pub created_by: RecordCreator,
}

/// The model of a [`DrugRecord`]: its fields, the texts as sequences of
/// characters.
pub struct DrugRecordView {
    pub rp_number: u32,
    pub name: Seq<char>,
    pub dosage: Seq<char>,
    pub unit: Seq<char>,
    pub drug_code_type: DrugCodeType,
    pub drug_code: Option<Seq<char>>,
    pub created_by: RecordCreator,
}

impl View for DrugRecord {
    type V = DrugRecordView;

    open spec fn view(&self) -> DrugRecordView {
        DrugRecordView {
            rp_number: self.rp_number,
            name: self.name@,
            dosage: self.dosage@,
            unit: self.unit@,
            drug_code_type: self.drug_code_type,
            drug_code: self.drug_code.deep_view(),
            created_by: self.created_by,
        }
    }
}

impl DeepView for DrugRecord {
    type V = DrugRecordView;

    open spec fn deep_view(&self) -> DrugRecordView {
        self@
    }
}

impl DrugRecordView {
    /// The fields of the record's line, the tag first.
    pub open spec fn fields(self) -> Seq<Seq<char>> {
        seq![
            decimal(201),
            decimal(self.rp_number as nat),
            self.name,
            self.dosage,
            self.unit,
            self.drug_code_type.code(),
            optional_code(self.drug_code),
            self.created_by.code(),
        ]
    }

    /// The record's line: the fields with commas between them.
    pub open spec fn line(self) -> Seq<char> {
        join(self.fields(), comma())
    }

    /// Whether the record's line reads back as the record: its texts can
    /// stand in a field and a text that may be missing is not empty.
    pub open spec fn is_encodable(self) -> bool {
        &&& is_field_text(self.name)
        &&& is_field_text(self.dosage)
        &&& is_field_text(self.unit)
        &&& is_optional_field_text(self.drug_code)
    }
}

impl LineModel for DrugRecordView {
    open spec fn lines(self) -> Seq<Seq<char>> {
        seq![self.line()]
    }
}

impl DrugRecord {
    /// A record of the given fields.
    pub fn new(
        rp_number: u32,
        name: String,
        dosage: String,
        unit: String,
        drug_code_type: DrugCodeType,
        drug_code: Option<String>,
        created_by: RecordCreator,
    ) -> (r: Self)
        ensures
            r == (DrugRecord {
                rp_number,
                name,
                dosage,
                unit,
                drug_code_type,
                drug_code,
                created_by,
            }),
    {
        DrugRecord { rp_number, name, dosage, unit, drug_code_type, drug_code, created_by }
    }

    /// Whether fields have the shape of this record's line: their number,
    /// the tag, and the class of each field that has one.
    pub open spec fn shape(f: Seq<Seq<char>>) -> bool {
        &&& f.len() == 8
        &&& small_code(f[0]) == Some(201nat)
        &&& some_digits(f[1])
        &&& digits_within(f[5], 0, 1)
        &&& one_digit(f[7])
    }

    /// The model of the defaults.
    pub open spec fn default_view() -> DrugRecordView {
        DrugRecordView {
            rp_number: 1,
            name: Seq::empty(),
            dosage: Seq::empty(),
            unit: Seq::empty(),
            drug_code_type: DrugCodeType::NoCode,
            drug_code: None,
            created_by: RecordCreator::Unknown,
        }
    }

    /// What reading the line `s` gives. A line that has not the shape of
    /// the record is refused as a whole; then the fields are read from left
    /// to right, and the first that fails gives the error.
    pub open spec fn spec_from_str(s: Seq<char>) -> Result<DrugRecordView, ErrorView> {
        let f = fields_of(s);
        if !Self::shape(f) {
            Err(invalid_record_line("Cannot convert str to DrugRecord, got \""@ + s + "\""@))
        } else {
            let rp_number = number_of(f[1]);
            let drug_code_type = DrugCodeType::spec_from_str(f[5]);
            let created_by = RecordCreator::spec_from_str(f[7]);
            if rp_number is Err {
                Err(rp_number->Err_0)
            } else if drug_code_type is Err {
                Err(drug_code_type->Err_0)
            } else if created_by is Err {
                Err(created_by->Err_0)
            } else {
                Ok(
                    DrugRecordView {
                        rp_number: rp_number->Ok_0,
                        name: f[2],
                        dosage: f[3],
                        unit: f[4],
                        drug_code_type: drug_code_type->Ok_0,
                        drug_code: optional_text(f[6]),
                        created_by: created_by->Ok_0,
                    },
                )
            }
        }
    }

    /// The record's line.
    pub fn to_code(&self) -> (r: String)
        ensures
            r@ == self@.line(),
    {
        let mut parts: Vec<String> = Vec::new();
        parts.push(decimal_string(201));
        parts.push(decimal_string(self.rp_number as u64));
        parts.push(self.name.clone());
        parts.push(self.dosage.clone());
        parts.push(self.unit.clone());
        parts.push(self.drug_code_type.to_code());
        parts.push(write_optional_text(&self.drug_code));
        parts.push(self.created_by.to_code());
        assert(parts.deep_view() =~= self@.fields());
        join_fields(&parts)
    }
}

impl Record for DrugRecord {
    open spec fn tag() -> u32 {
        201
    }

    open spec fn field_count() -> u32 {
        7
    }

    fn record_number(&self) -> (n: u32) {
        201
    }

    fn cols(&self) -> (n: u32) {
        7
    }
}

impl Default for DrugRecord {
    fn default() -> (r: Self)
        ensures
            r@ == Self::default_view(),
    {
        DrugRecord {
            rp_number: 1,
            name: String::new(),
            dosage: String::new(),
            unit: String::new(),
            drug_code_type: DrugCodeType::NoCode,
            drug_code: None,
            created_by: RecordCreator::Unknown,
        }
    }
}

impl FromStr for DrugRecord {
    type Err = Error;

    /// Reads the record from its line.
    fn from_str(s: &str) -> (r: Result<Self, Self::Err>)
        ensures
            outcome(r) == Self::spec_from_str(s@),
    {
        let f = split_fields(s);
        if !(f.len() == 8
            && has_tag(f[0].as_str(), 201)
            && is_some_digits(f[1].as_str())
            && is_digits_within(f[5].as_str(), 0, 1)
            && is_one_digit(f[7].as_str())) {
            return Err(
                Error::InvalidRecordLine(
                    framed("Cannot convert str to DrugRecord, got \"", s, "\""),
                ),
            );
        }
        let rp_number = match read_number(f[1].as_str()) {
            Ok(v) => v,
            Err(e) => return Err(e),
        };
        let drug_code_type = match DrugCodeType::from_str(f[5].as_str()) {
            Ok(v) => v,
            Err(e) => return Err(e),
        };
        let created_by = match RecordCreator::from_str(f[7].as_str()) {
            Ok(v) => v,
            Err(e) => return Err(e),
        };
        Ok(
            DrugRecord {
                rp_number,
                name: f[2].clone(),
                dosage: f[3].clone(),
                unit: f[4].clone(),
                drug_code_type,
                drug_code: read_optional_text(&f[6]),
                created_by,
            },
        )
    }
}

/// The line of a record that can be written reads back as the record. It
/// is one line that begins with the tag 201.
pub proof fn lemma_drug_record_round_trip(v: DrugRecordView)
    requires
        v.is_encodable(),
    ensures
        DrugRecord::spec_from_str(v.line()) == Ok::<DrugRecordView, ErrorView>(v),
        line_tag(v.line()) == Some(201nat),
        is_line(v.line()),
        !is_version_line(v.line()),
{
    let f = v.fields();
    lemma_code_text(201);
    lemma_number_round_trip(v.rp_number);
    lemma_drug_code_type_round_trip(v.drug_code_type);
    lemma_code_text(v.drug_code_type.number());
    lemma_record_creator_round_trip(v.created_by);
    lemma_code_text(v.created_by.number());
    assert(f.len() == 8);
    assert forall|i: int| 0 <= i < f.len() implies is_field_text(#[trigger] f[i]) by {}
    lemma_record_line(f, 201);
}

/// The line of the default record reads back as the default record.
pub proof fn lemma_drug_record_default_round_trip()
    ensures
        DrugRecord::spec_from_str(DrugRecord::default_view().line()) == Ok::<
            DrugRecordView,
            ErrorView,
        >(DrugRecord::default_view()),
{
    lemma_drug_record_round_trip(DrugRecord::default_view());
}

/// A supplement to a drug (薬品補足レコード).
#[derive(Debug, Clone, PartialEq, Eq)]
pub struct DrugSupplementaryRecord {
    /// RP番号
    pub rp_number: u32,
    /// 薬品補足情報
    pub content: String,
    /// レコード作成者
    pub created_by: RecordCreator,
}

/// The model of a [`DrugSupplementaryRecord`]: its fields, the texts as sequences of
/// characters.
pub struct DrugSupplementaryRecordView {
    pub rp_number: u32,
    pub content: Seq<char>,
    pub created_by: RecordCreator,
}

impl View for DrugSupplementaryRecord {
    type V = DrugSupplementaryRecordView;

    open spec fn view(&self) -> DrugSupplementaryRecordView {
        DrugSupplementaryRecordView {
            rp_number: self.rp_number,
            content: self.content@,
            created_by: self.created_by,
        }
    }
}

impl DeepView for DrugSupplementaryRecord {
    type V = DrugSupplementaryRecordView;

    open spec fn deep_view(&self) -> DrugSupplementaryRecordView {
        self@
    }
}

impl DrugSupplementaryRecordView {
    /// The fields of the record's line, the tag first.
    pub open spec fn fields(self) -> Seq<Seq<char>> {
        seq![
            decimal(281),
            decimal(self.rp_number as nat),
            self.content,
            self.created_by.code(),
        ]
    }

    /// The record's line: the fields with commas between them.
    pub open spec fn line(self) -> Seq<char> {
        join(self.fields(), comma())
    }

    /// Whether the record's line reads back as the record: its texts can
    /// stand in a field.
    pub open spec fn is_encodable(self) -> bool {
        &&& is_field_text(self.content)
    }
}

impl LineModel for DrugSupplementaryRecordView {
    open spec fn lines(self) -> Seq<Seq<char>> {
        seq![self.line()]
    }
}

impl DrugSupplementaryRecord {
    /// A record of the given fields.
    pub fn new(
        rp_number: u32,
        content: String,
        created_by: RecordCreator,
    ) -> (r: Self)
        ensures
            r == (DrugSupplementaryRecord { rp_number, content, created_by }),
    {
        DrugSupplementaryRecord { rp_number, content, created_by }
    }

    /// Whether fields have the shape of this record's line: their number,
    /// the tag, and the class of each field that has one.
    pub open spec fn shape(f: Seq<Seq<char>>) -> bool {
        &&& f.len() == 4
        &&& small_code(f[0]) == Some(281nat)
        &&& some_digits(f[1])
        &&& one_digit(f[3])
    }

    /// The model of the defaults.
    pub open spec fn default_view() -> DrugSupplementaryRecordView {
        DrugSupplementaryRecordView {
            rp_number: 1,
            content: Seq::empty(),
            created_by: RecordCreator::Unknown,
        }
    }

    /// What reading the line `s` gives. A line that has not the shape of
    /// the record is refused as a whole; then the fields are read from left
    /// to right, and the first that fails gives the error.
    pub open spec fn spec_from_str(s: Seq<char>) -> Result<DrugSupplementaryRecordView, ErrorView> {
        let f = fields_of(s);
        if !Self::shape(f) {
            Err(
                invalid_record_line(
                    "Cannot convert str to DrugSupplementaryRecord, got \""@ + s + "\""@,
                ),
            )
        } else {
            let rp_number = number_of(f[1]);
            let created_by = RecordCreator::spec_from_str(f[3]);
            if rp_number is Err {
                Err(rp_number->Err_0)
            } else if created_by is Err {
                Err(created_by->Err_0)
            } else {
                Ok(
                    DrugSupplementaryRecordView {
                        rp_number: rp_number->Ok_0,
                        content: f[2],
                        created_by: created_by->Ok_0,
                    },
                )
            }
        }
    }

    /// The record's line.
    pub fn to_code(&self) -> (r: String)
        ensures
            r@ == self@.line(),
    {
        let mut parts: Vec<String> = Vec::new();
        parts.push(decimal_string(281));
        parts.push(decimal_string(self.rp_number as u64));
        parts.push(self.content.clone());
        parts.push(self.created_by.to_code());
        assert(parts.deep_view() =~= self@.fields());
        join_fields(&parts)
    }

    /// Appends the lines of `records` to `out`.
    pub fn push_lines(out: &mut Vec<String>, records: &Vec<DrugSupplementaryRecord>)
        ensures
            final(out).deep_view() == old(out).deep_view() + all_lines(records.deep_view()),
    {
        let mut i: usize = 0;
        assert(records.deep_view().take(0) =~= Seq::empty());
        assert(out.deep_view() =~= old(out).deep_view() + Seq::<Seq<char>>::empty());
        while i < records.len()
            invariant
                i <= records.len(),
                out.deep_view() == old(out).deep_view() + all_lines(
                    records.deep_view().take(i as int),
                ),
            decreases records.len() - i,
        {
            let ghost before = out.deep_view();
            let ghost done = records.deep_view().take(i as int);
            let ghost next = records.deep_view().take(i + 1);
            out.push(records[i].to_code());
            proof {
                assert(next.drop_last() =~= done);
                assert(next.last() == records[i as int]@);
                assert(out.deep_view() =~= before.push(records[i as int]@.line()));
                assert(before.push(records[i as int]@.line()) =~= old(out).deep_view() + (all_lines(
                    done,
                ) + seq![records[i as int]@.line()]));
            }
            i += 1;
        }
        assert(records.deep_view().take(records.len() as int) =~= records.deep_view());
    }
}

impl Record for DrugSupplementaryRecord {
    open spec fn tag() -> u32 {
        281
    }

    open spec fn field_count() -> u32 {
        3
    }

    fn record_number(&self) -> (n: u32) {
        281
    }

    fn cols(&self) -> (n: u32) {
        3
    }
}

impl Default for DrugSupplementaryRecord {
    fn default() -> (r: Self)
        ensures
            r@ == Self::default_view(),
    {
        DrugSupplementaryRecord {
            rp_number: 1,
            content: String::new(),
            created_by: RecordCreator::Unknown,
        }
    }
}

impl FromStr for DrugSupplementaryRecord {
    type Err = Error;

    /// Reads the record from its line.
    fn from_str(s: &str) -> (r: Result<Self, Self::Err>)
        ensures
            outcome(r) == Self::spec_from_str(s@),
    {
        let f = split_fields(s);
        if !(f.len() == 4
            && has_tag(f[0].as_str(), 281)
            && is_some_digits(f[1].as_str())
            && is_one_digit(f[3].as_str())) {
            return Err(
                Error::InvalidRecordLine(
                    framed("Cannot convert str to DrugSupplementaryRecord, got \"", s, "\""),
                ),
            );
        }
        let rp_number = match read_number(f[1].as_str()) {
            Ok(v) => v,
            Err(e) => return Err(e),
        };
        let created_by = match RecordCreator::from_str(f[3].as_str()) {
            Ok(v) => v,
            Err(e) => return Err(e),
        };
        Ok(
            DrugSupplementaryRecord {
                rp_number,
                content: f[2].clone(),
                created_by,
            },
        )
    }
}

/// The line of a record that can be written reads back as the record. It
/// is one line that begins with the tag 281.
pub proof fn lemma_drug_supplementary_record_round_trip(v: DrugSupplementaryRecordView)
    requires
        v.is_encodable(),
    ensures
        DrugSupplementaryRecord::spec_from_str(v.line()) == Ok::<
            DrugSupplementaryRecordView,
            ErrorView,
        >(v),
        line_tag(v.line()) == Some(281nat),
        is_line(v.line()),
        !is_version_line(v.line()),
{
    let f = v.fields();
    lemma_code_text(281);
    lemma_number_round_trip(v.rp_number);
    lemma_record_creator_round_trip(v.created_by);
    lemma_code_text(v.created_by.number());
    assert(f.len() == 4);
    assert forall|i: int| 0 <= i < f.len() implies is_field_text(#[trigger] f[i]) by {}
    lemma_record_line(f, 281);
}

/// The line of the default record reads back as the default record.
pub proof fn lemma_drug_supplementary_record_default_round_trip()
    ensures
        DrugSupplementaryRecord::spec_from_str(DrugSupplementaryRecord::default_view().line()) == Ok::<
            DrugSupplementaryRecordView,
            ErrorView,
        >(DrugSupplementaryRecord::default_view()),
{
    lemma_drug_supplementary_record_round_trip(DrugSupplementaryRecord::default_view());
}

/// What to mind when taking a drug (薬品服用注意レコード).
#[derive(Debug, Clone, PartialEq, Eq)]
pub struct DrugNoticeRecord {
    /// RP番号
    pub rp_number: u32,
    /// 内容
    pub content: String,
    /// レコード作成者
    pub created_by: RecordCreator,
}

/// The model of a [`DrugNoticeRecord`]: its fields, the texts as sequences of
/// characters.
pub struct DrugNoticeRecordView {
    pub rp_number: u32,
    pub content: Seq<char>,
    pub created_by: RecordCreator,
}

impl View for DrugNoticeRecord {
    type V = DrugNoticeRecordView;

    open spec fn view(&self) -> DrugNoticeRecordView {
        DrugNoticeRecordView {
            rp_number: self.rp_number,
            content: self.content@,
            created_by: self.created_by,
        }
    }
}

impl DeepView for DrugNoticeRecord {
    type V = DrugNoticeRecordView;

    open spec fn deep_view(&self) -> DrugNoticeRecordView {
        self@
    }
}

impl DrugNoticeRecordView {
    /// The fields of the record's line, the tag first.
    pub open spec fn fields(self) -> Seq<Seq<char>> {
        seq![
            decimal(291),
            decimal(self.rp_number as nat),
            self.content,
            self.created_by.code(),
        ]
    }

    /// The record's line: the fields with commas between them.
    pub open spec fn line(self) -> Seq<char> {
        join(self.fields(), comma())
    }

    /// Whether the record's line reads back as the record: its texts can
    /// stand in a field.
    pub open spec fn is_encodable(self) -> bool {
        &&& is_field_text(self.content)
    }
}

impl LineModel for DrugNoticeRecordView {
    open spec fn lines(self) -> Seq<Seq<char>> {
        seq![self.line()]
    }
}

impl DrugNoticeRecord {
    /// A record of the given fields.
    pub fn new(
        rp_number: u32,
        content: String,
        created_by: RecordCreator,
    ) -> (r: Self)
        ensures
            r == (DrugNoticeRecord { rp_number, content, created_by }),
    {
        DrugNoticeRecord { rp_number, content, created_by }
    }

    /// Whether fields have the shape of this record's line: their number,
    /// the tag, and the class of each field that has one.
    pub open spec fn shape(f: Seq<Seq<char>>) -> bool {
        &&& f.len() == 4
        &&& small_code(f[0]) == Some(291nat)
        &&& some_digits(f[1])
        &&& one_digit(f[3])
    }

    /// The model of the defaults.
    pub open spec fn default_view() -> DrugNoticeRecordView {
        DrugNoticeRecordView {
            rp_number: 1,
            content: Seq::empty(),
            created_by: RecordCreator::Unknown,
        }
    }

    /// What reading the line `s` gives. A line that has not the shape of
    /// the record is refused as a whole; then the fields are read from left
    /// to right, and the first that fails gives the error.
    pub open spec fn spec_from_str(s: Seq<char>) -> Result<DrugNoticeRecordView, ErrorView> {
        let f = fields_of(s);
        if !Self::shape(f) {
            Err(invalid_record_line("Cannot convert str to DrugNoticeRecord, got \""@ + s + "\""@))
        } else {
            let rp_number = number_of(f[1]);
            let created_by = RecordCreator::spec_from_str(f[3]);
            if rp_number is Err {
                Err(rp_number->Err_0)
            } else if created_by is Err {
                Err(created_by->Err_0)
            } else {
                Ok(
                    DrugNoticeRecordView {
                        rp_number: rp_number->Ok_0,
                        content: f[2],
                        created_by: created_by->Ok_0,
                    },
                )
            }
        }
    }

    /// The record's line.
    pub fn to_code(&self) -> (r: String)
        ensures
            r@ == self@.line(),
    {
        let mut parts: Vec<String> = Vec::new();
        parts.push(decimal_string(291));
        parts.push(decimal_string(self.rp_number as u64));
        parts.push(self.content.clone());
        parts.push(self.created_by.to_code());
        assert(parts.deep_view() =~= self@.fields());
        join_fields(&parts)
    }

    /// Appends the lines of `records` to `out`.
    pub fn push_lines(out: &mut Vec<String>, records: &Vec<DrugNoticeRecord>)
        ensures
            final(out).deep_view() == old(out).deep_view() + all_lines(records.deep_view()),
    {
        let mut i: usize = 0;
        assert(records.deep_view().take(0) =~= Seq::empty());
        assert(out.deep_view() =~= old(out).deep_view() + Seq::<Seq<char>>::empty());
        while i < records.len()
            invariant
                i <= records.len(),
                out.deep_view() == old(out).deep_view() + all_lines(
                    records.deep_view().take(i as int),
                ),
            decreases records.len() - i,
        {
            let ghost before = out.deep_view();
            let ghost done = records.deep_view().take(i as int);
            let ghost next = records.deep_view().take(i + 1);
            out.push(records[i].to_code());
            proof {
                assert(next.drop_last() =~= done);
                assert(next.last() == records[i as int]@);
                assert(out.deep_view() =~= before.push(records[i as int]@.line()));
                assert(before.push(records[i as int]@.line()) =~= old(out).deep_view() + (all_lines(
                    done,
                ) + seq![records[i as int]@.line()]));
            }
            i += 1;
        }
        assert(records.deep_view().take(records.len() as int) =~= records.deep_view());
    }
}

impl Record for DrugNoticeRecord {
    open spec fn tag() -> u32 {
        291
    }

    open spec fn field_count() -> u32 {
        3
    }

    fn record_number(&self) -> (n: u32) {
        291
    }

    fn cols(&self) -> (n: u32) {
        3
    }
}

impl Default for DrugNoticeRecord {
    fn default() -> (r: Self)
        ensures
            r@ == Self::default_view(),
    {
        DrugNoticeRecord {
            rp_number: 1,
            content: String::new(),
            created_by: RecordCreator::Unknown,
        }
    }
}

impl FromStr for DrugNoticeRecord {
    type Err = Error;

    /// Reads the record from its line.
    fn from_str(s: &str) -> (r: Result<Self, Self::Err>)
        ensures
            outcome(r) == Self::spec_from_str(s@),
    {
        let f = split_fields(s);
        if !(f.len() == 4
            && has_tag(f[0].as_str(), 291)
            && is_some_digits(f[1].as_str())
            && is_one_digit(f[3].as_str())) {
            return Err(
                Error::InvalidRecordLine(
                    framed("Cannot convert str to DrugNoticeRecord, got \"", s, "\""),
                ),
            );
        }
        let rp_number = match read_number(f[1].as_str()) {
            Ok(v) => v,
            Err(e) => return Err(e),
        };
        let created_by = match RecordCreator::from_str(f[3].as_str()) {
            Ok(v) => v,
            Err(e) => return Err(e),
        };
        Ok(
            DrugNoticeRecord {
                rp_number,
                content: f[2].clone(),
                created_by,
            },
        )
    }
}

/// The line of a record that can be written reads back as the record. It
/// is one line that begins with the tag 291.
pub proof fn lemma_drug_notice_record_round_trip(v: DrugNoticeRecordView)
    requires
        v.is_encodable(),
    ensures
        DrugNoticeRecord::spec_from_str(v.line()) == Ok::<DrugNoticeRecordView, ErrorView>(v),
        line_tag(v.line()) == Some(291nat),
        is_line(v.line()),
        !is_version_line(v.line()),
{
    let f = v.fields();
    lemma_code_text(291);
    lemma_number_round_trip(v.rp_number);
    lemma_record_creator_round_trip(v.created_by);
    lemma_code_text(v.created_by.number());
    assert(f.len() == 4);
    assert forall|i: int| 0 <= i < f.len() implies is_field_text(#[trigger] f[i]) by {}
    lemma_record_line(f, 291);
}

/// The line of the default record reads back as the default record.
pub proof fn lemma_drug_notice_record_default_round_trip()
    ensures
        DrugNoticeRecord::spec_from_str(DrugNoticeRecord::default_view().line()) == Ok::<
            DrugNoticeRecordView,
            ErrorView,
        >(DrugNoticeRecord::default_view()),
{
    lemma_drug_notice_record_round_trip(DrugNoticeRecord::default_view());
}

/// A record that was read from a line can be written.
pub proof fn lemma_drug_record_read_is_encodable(s: Seq<char>)
    requires
        forall|i: int| 0 <= i < s.len() ==> !is_break(#[trigger] s[i]),
        DrugRecord::spec_from_str(s) is Ok,
    ensures
        (DrugRecord::spec_from_str(s)->Ok_0).is_encodable(),
{
    let f = fields_of(s);
    lemma_fields_are_field_text(s);
}

/// A record that was read from a line can be written.
pub proof fn lemma_drug_supplementary_record_read_is_encodable(s: Seq<char>)
    requires
        forall|i: int| 0 <= i < s.len() ==> !is_break(#[trigger] s[i]),
        DrugSupplementaryRecord::spec_from_str(s) is Ok,
    ensures
        (DrugSupplementaryRecord::spec_from_str(s)->Ok_0).is_encodable(),
{
    let f = fields_of(s);
    lemma_fields_are_field_text(s);
}

/// A record that was read from a line can be written.
pub proof fn lemma_drug_notice_record_read_is_encodable(s: Seq<char>)
    requires
        forall|i: int| 0 <= i < s.len() ==> !is_break(#[trigger] s[i]),
        DrugNoticeRecord::spec_from_str(s) is Ok,
    ensures
        (DrugNoticeRecord::spec_from_str(s)->Ok_0).is_encodable(),
{
    let f = fields_of(s);
    lemma_fields_are_field_text(s);
}

} // verus!
