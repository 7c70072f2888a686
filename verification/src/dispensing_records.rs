//! The records that open a dispensing: its date, the pharmacy and the
//! pharmacist, the institution that prescribed and the physician.

use vstd::prelude::*;
use std::str::FromStr;
use crate::codes::{
    lemma_fee_table_round_trip, lemma_record_creator_round_trip, FeeTable, RecordCreator,
};
use crate::date::{lemma_read_date_fits, Date};
use crate::error::{framed, invalid_record_line, outcome, Error, ErrorView};
use crate::number::{decimal, decimal_string, small_code};
use crate::prefecture::{lemma_prefecture_round_trip, Prefecture};
use crate::record::{
    comma, date_of, date_shaped, digits_within, has_tag, is_date_shaped, is_digits_within,
    is_field_text, is_one_digit, is_optional_field_text, is_version_line, join_fields,
    lemma_code_text, lemma_date_field, lemma_digits_are_field_text, lemma_fields_are_field_text,
    lemma_record_line, line_tag, one_digit, optional, optional_code, optional_text,
    read_optional_fee_table, read_optional_prefecture, read_optional_text, write_optional_text,
    LineModel, Record,
};
use crate::text::{fields_of, is_break, is_line, join, split_fields};

verus! {

/// The date of a dispensing (調剤等年月日レコード).
#[derive(Debug, Clone, Copy, PartialEq, Eq)]
pub struct DateRecord {
    /// 調剤等年月日
    pub created_at: Date,
    /// レコード作成者
    pub created_by: RecordCreator,
}

/// The model of a [`DateRecord`]: its fields, the texts as sequences of
/// characters.
pub struct DateRecordView {
    pub created_at: Date,
    pub created_by: RecordCreator,
}

impl View for DateRecord {
    type V = DateRecordView;

    open spec fn view(&self) -> DateRecordView {
        DateRecordView {
            created_at: self.created_at,
            created_by: self.created_by,
        }
    }
}

impl DeepView for DateRecord {
    type V = DateRecordView;

    open spec fn deep_view(&self) -> DateRecordView {
        self@
    }
}

impl DateRecordView {
    /// The fields of the record's line, the tag first.
    pub open spec fn fields(self) -> Seq<Seq<char>> {
        seq![
            decimal(5),
            self.created_at.code(),
            self.created_by.code(),
        ]
    }

    /// The record's line: the fields with commas between them.
    pub open spec fn line(self) -> Seq<char> {
        join(self.fields(), comma())
    }

    /// Whether the record's line reads back as the record: its texts can
    /// stand in a field and its dates fit their codes.
    pub open spec fn is_encodable(self) -> bool {
        &&& self.created_at.fits_code()
    }
}

impl LineModel for DateRecordView {
    open spec fn lines(self) -> Seq<Seq<char>> {
        seq![self.line()]
    }
}

impl DateRecord {
    /// A record of the given fields.
    pub fn new(
        created_at: Date,
        created_by: RecordCreator,
    ) -> (r: Self)
        ensures
            r == (DateRecord { created_at, created_by }),
    {
        DateRecord { created_at, created_by }
    }

    /// Whether fields have the shape of this record's line: their number,
    /// the tag, and the class of each field that has one.
    pub open spec fn shape(f: Seq<Seq<char>>) -> bool {
        &&& f.len() == 3
        &&& small_code(f[0]) == Some(5nat)
        &&& date_shaped(f[1])
        &&& one_digit(f[2])
    }

    /// The model of the defaults.
    pub open spec fn default_view() -> DateRecordView {
        DateRecordView {
            created_at: Date::Seireki { year: 1970, month: 1, day: 1 },
            created_by: RecordCreator::Unknown,
        }
    }

    /// What reading the line `s` gives. A line that has not the shape of
    /// the record is refused as a whole; then the fields are read from left
    /// to right, and the first that fails gives the error.
    pub open spec fn spec_from_str(s: Seq<char>) -> Result<DateRecordView, ErrorView> {
        let f = fields_of(s);
        if !Self::shape(f) {
            Err(invalid_record_line("Cannot convert str to DateRecord, got \""@ + s + "\""@))
        } else {
            let created_at = date_of(f[1]);
            let created_by = RecordCreator::spec_from_str(f[2]);
            if created_at is Err {
                Err(created_at->Err_0)
            } else if created_by is Err {
                Err(created_by->Err_0)
            } else {
                Ok(
                    DateRecordView {
                        created_at: created_at->Ok_0,
                        created_by: created_by->Ok_0,
                    },
                )
            }
        }
    }

    /// The record's line.
    pub fn to_code(&self) -> (r: String)
        ensures
            r@ == self@.line(),
    {
        let mut parts: Vec<String> = Vec::new();
        parts.push(decimal_string(5));
        parts.push(self.created_at.to_code());
        parts.push(self.created_by.to_code());
        assert(parts.deep_view() =~= self@.fields());
        join_fields(&parts)
    }
}

impl Record for DateRecord {
    open spec fn tag() -> u32 {
        5
    }

    open spec fn field_count() -> u32 {
        2
    }

    fn record_number(&self) -> (n: u32) {
        5
    }

    fn cols(&self) -> (n: u32) {
        2
    }
}

impl Default for DateRecord {
    fn default() -> (r: Self)
        ensures
            r@ == Self::default_view(),
    {
        DateRecord {
            created_at: Date::Seireki { year: 1970, month: 1, day: 1 },
            created_by: RecordCreator::Unknown,
        }
    }
}

impl FromStr for DateRecord {
    type Err = Error;

    /// Reads the record from its line.
    fn from_str(s: &str) -> (r: Result<Self, Self::Err>)
        ensures
            outcome(r) == Self::spec_from_str(s@),
    {
        let f = split_fields(s);
        if !(f.len() == 3
            && has_tag(f[0].as_str(), 5)
            && is_date_shaped(f[1].as_str())
            && is_one_digit(f[2].as_str())) {
            return Err(
                Error::InvalidRecordLine(
                    framed("Cannot convert str to DateRecord, got \"", s, "\""),
                ),
            );
        }
        let created_at = match Date::from_str(f[1].as_str()) {
            Ok(v) => v,
            Err(e) => return Err(e),
        };
        let created_by = match RecordCreator::from_str(f[2].as_str()) {
            Ok(v) => v,
            Err(e) => return Err(e),
        };
        Ok(
            DateRecord {
                created_at,
                created_by,
            },
        )
    }
}

/// The line of a record that can be written reads back as the record. It
/// is one line that begins with the tag 5.
pub proof fn lemma_date_record_round_trip(v: DateRecordView)
    requires
        v.is_encodable(),
    ensures
        DateRecord::spec_from_str(v.line()) == Ok::<DateRecordView, ErrorView>(v),
        line_tag(v.line()) == Some(5nat),
        is_line(v.line()),
        !is_version_line(v.line()),
{
    let f = v.fields();
    lemma_code_text(5);
    lemma_date_field(v.created_at);
    lemma_record_creator_round_trip(v.created_by);
    lemma_code_text(v.created_by.number());
    assert(f.len() == 3);
    assert forall|i: int| 0 <= i < f.len() implies is_field_text(#[trigger] f[i]) by {}
    lemma_record_line(f, 5);
}

/// The line of the default record reads back as the default record.
pub proof fn lemma_date_record_default_round_trip()
    ensures
        DateRecord::spec_from_str(DateRecord::default_view().line()) == Ok::<
            DateRecordView,
            ErrorView,
        >(DateRecord::default_view()),
{
    lemma_date_record_round_trip(DateRecord::default_view());
}

/// The pharmacy that dispensed (調剤－医療機関等レコード).
#[derive(Debug, Clone, PartialEq, Eq)]
pub struct PharmacyRecord {
    /// 医療機関等名称
    pub name: String,
    /// 医療機関等都道府県
    pub prefecture: Option<Prefecture>,
    /// 医療機関等点数表
    pub fee_table: Option<FeeTable>,
    /// 医療機関等コード
    pub institution_code: Option<String>,
    /// 医療機関等郵便番号
    pub zip_code: Option<String>,
    /// 医療機関等住所
    pub address: Option<String>,
    /// 医療機関等電話番号
    pub telephone: Option<String>,
    /// レコード作成者
    pub created_by: RecordCreator,
}

/// The model of a [`PharmacyRecord`]: its fields, the texts as sequences of
/// characters.
pub struct PharmacyRecordView {
    pub name: Seq<char>,
    pub prefecture: Option<Prefecture>,
    pub fee_table: Option<FeeTable>,
    pub institution_code: Option<Seq<char>>,
    pub zip_code: Option<Seq<char>>,
    pub address: Option<Seq<char>>,
    pub telephone: Option<Seq<char>>,
    pub created_by: RecordCreator,
}

impl View for PharmacyRecord {
    type V = PharmacyRecordView;

    open spec fn view(&self) -> PharmacyRecordView {
        PharmacyRecordView {
            name: self.name@,
            prefecture: self.prefecture,
            fee_table: self.fee_table,
            institution_code: self.institution_code.deep_view(),
            zip_code: self.zip_code.deep_view(),
            address: self.address.deep_view(),
            telephone: self.telephone.deep_view(),
            created_by: self.created_by,
        }
    }
}

impl DeepView for PharmacyRecord {
    type V = PharmacyRecordView;

    open spec fn deep_view(&self) -> PharmacyRecordView {
        self@
    }
}

impl PharmacyRecordView {
    /// The fields of the record's line, the tag first.
    pub open spec fn fields(self) -> Seq<Seq<char>> {
        seq![
            decimal(11),
            self.name,
            match self.prefecture {
                Some(v) => v.code(),
                None => Seq::empty(),
            },
            match self.fee_table {
                Some(v) => v.code(),
                None => Seq::empty(),
            },
            optional_code(self.institution_code),
            optional_code(self.zip_code),
            optional_code(self.address),
            optional_code(self.telephone),
            self.created_by.code(),
        ]
    }

    /// The record's line: the fields with commas between them.
    pub open spec fn line(self) -> Seq<char> {
        join(self.fields(), comma())
    }

    /// Whether the record's line reads back as the record: its texts can
    /// stand in a field and a text that may be missing is not empty.
    pub open spec fn is_encodable(self) -> bool {
        &&& is_field_text(self.name)
        &&& is_optional_field_text(self.institution_code)
        &&& is_optional_field_text(self.zip_code)
        &&& is_optional_field_text(self.address)
        &&& is_optional_field_text(self.telephone)
    }
}

impl LineModel for PharmacyRecordView {
    open spec fn lines(self) -> Seq<Seq<char>> {
        seq![self.line()]
    }
}

impl PharmacyRecord {
    /// A record of the given fields.
    pub fn new(
        name: String,
        prefecture: Option<Prefecture>,
        fee_table: Option<FeeTable>,
        institution_code: Option<String>,
        zip_code: Option<String>,
        address: Option<String>,
        telephone: Option<String>,
        created_by: RecordCreator,
    ) -> (r: Self)
        ensures
            r == (PharmacyRecord {
                name,
                prefecture,
                fee_table,
                institution_code,
                zip_code,
                address,
                telephone,
                created_by,
            }),
    {
        PharmacyRecord {
            name,
            prefecture,
            fee_table,
            institution_code,
            zip_code,
            address,
            telephone,
            created_by,
        }
    }

    /// Whether fields have the shape of this record's line: their number,
    /// the tag, and the class of each field that has one.
    pub open spec fn shape(f: Seq<Seq<char>>) -> bool {
        &&& f.len() == 9
        &&& small_code(f[0]) == Some(11nat)
        &&& digits_within(f[2], 0, 2)
        &&& digits_within(f[3], 0, 1)
        &&& one_digit(f[8])
    }

    /// The model of the defaults.
    pub open spec fn default_view() -> PharmacyRecordView {
        PharmacyRecordView {
            name: Seq::empty(),
            prefecture: None,
            fee_table: None,
            institution_code: None,
            zip_code: None,
            address: None,
            telephone: None,
            created_by: RecordCreator::Unknown,
        }
    }

    /// What reading the line `s` gives. A line that has not the shape of
    /// the record is refused as a whole; then the fields are read from left
    /// to right, and the first that fails gives the error.
    pub open spec fn spec_from_str(s: Seq<char>) -> Result<PharmacyRecordView, ErrorView> {
        let f = fields_of(s);
        if !Self::shape(f) {
            Err(invalid_record_line("Cannot convert str to PharmacyRecord, got \""@ + s + "\""@))
        } else {
            let prefecture = optional(f[2], Prefecture::spec_from_str(f[2]));
            let fee_table = optional(f[3], FeeTable::spec_from_str(f[3]));
            let created_by = RecordCreator::spec_from_str(f[8]);
            if prefecture is Err {
                Err(prefecture->Err_0)
            } else if fee_table is Err {
                Err(fee_table->Err_0)
            } else if created_by is Err {
                Err(created_by->Err_0)
            } else {
                Ok(
                    PharmacyRecordView {
                        name: f[1],
                        prefecture: prefecture->Ok_0,
                        fee_table: fee_table->Ok_0,
                        institution_code: optional_text(f[4]),
                        zip_code: optional_text(f[5]),
                        address: optional_text(f[6]),
                        telephone: optional_text(f[7]),
                        created_by: created_by->Ok_0,
                    },
                )
            }
        }
    }

    /// The record's line.
    pub fn to_code(&self) -> (r: String)
        ensures
            r@ == self@.line(),
    {
        let mut parts: Vec<String> = Vec::new();
        parts.push(decimal_string(11));
        parts.push(self.name.clone());
        let prefecture = match self.prefecture {
            Some(v) => v.to_code(),
            None => String::new(),
        };
        parts.push(prefecture);
        let fee_table = match self.fee_table {
            Some(v) => v.to_code(),
            None => String::new(),
        };
        parts.push(fee_table);
        parts.push(write_optional_text(&self.institution_code));
        parts.push(write_optional_text(&self.zip_code));
        parts.push(write_optional_text(&self.address));
        parts.push(write_optional_text(&self.telephone));
        parts.push(self.created_by.to_code());
        assert(parts.deep_view() =~= self@.fields());
        join_fields(&parts)
    }
}

impl Record for PharmacyRecord {
    open spec fn tag() -> u32 {
        11
    }

    open spec fn field_count() -> u32 {
        8
    }

    fn record_number(&self) -> (n: u32) {
        11
    }

    fn cols(&self) -> (n: u32) {
        8
    }
}

impl Default for PharmacyRecord {
    fn default() -> (r: Self)
        ensures
            r@ == Self::default_view(),
    {
        PharmacyRecord {
            name: String::new(),
            prefecture: None,
            fee_table: None,
            institution_code: None,
            zip_code: None,
            address: None,
            telephone: None,
            created_by: RecordCreator::Unknown,
        }
    }
}

impl FromStr for PharmacyRecord {
    type Err = Error;

    /// Reads the record from its line.
    fn from_str(s: &str) -> (r: Result<Self, Self::Err>)
        ensures
            outcome(r) == Self::spec_from_str(s@),
    {
        let f = split_fields(s);
        if !(f.len() == 9
            && has_tag(f[0].as_str(), 11)
            && is_digits_within(f[2].as_str(), 0, 2)
            && is_digits_within(f[3].as_str(), 0, 1)
            && is_one_digit(f[8].as_str())) {
            return Err(
                Error::InvalidRecordLine(
                    framed("Cannot convert str to PharmacyRecord, got \"", s, "\""),
                ),
            );
        }
        let prefecture = match read_optional_prefecture(f[2].as_str()) {
            Ok(v) => v,
            Err(e) => return Err(e),
        };
        let fee_table = match read_optional_fee_table(f[3].as_str()) {
            Ok(v) => v,
            Err(e) => return Err(e),
        };
        let created_by = match RecordCreator::from_str(f[8].as_str()) {
            Ok(v) => v,
            Err(e) => return Err(e),
        };
        Ok(
            PharmacyRecord {
                name: f[1].clone(),
                prefecture,
                fee_table,
                institution_code: read_optional_text(&f[4]),
                zip_code: read_optional_text(&f[5]),
                address: read_optional_text(&f[6]),
                telephone: read_optional_text(&f[7]),
                created_by,
            },
        )
    }
}

/// The line of a record that can be written reads back as the record. It
/// is one line that begins with the tag 11.
pub proof fn lemma_pharmacy_record_round_trip(v: PharmacyRecordView)
    requires
        v.is_encodable(),
    ensures
        PharmacyRecord::spec_from_str(v.line()) == Ok::<PharmacyRecordView, ErrorView>(v),
        line_tag(v.line()) == Some(11nat),
        is_line(v.line()),
        !is_version_line(v.line()),
{
    let f = v.fields();
    lemma_code_text(11);
    if v.prefecture is Some {
        lemma_prefecture_round_trip(v.prefecture.unwrap());
        lemma_digits_are_field_text(v.prefecture.unwrap().code());
    }
    if v.fee_table is Some {
        lemma_fee_table_round_trip(v.fee_table.unwrap());
        lemma_code_text(v.fee_table.unwrap().number());
    }
    lemma_record_creator_round_trip(v.created_by);
    lemma_code_text(v.created_by.number());
    assert(f.len() == 9);
    assert forall|i: int| 0 <= i < f.len() implies is_field_text(#[trigger] f[i]) by {}
    lemma_record_line(f, 11);
}

/// The line of the default record reads back as the default record.
pub proof fn lemma_pharmacy_record_default_round_trip()
    ensures
        PharmacyRecord::spec_from_str(PharmacyRecord::default_view().line()) == Ok::<
            PharmacyRecordView,
            ErrorView,
        >(PharmacyRecord::default_view()),
{
    lemma_pharmacy_record_round_trip(PharmacyRecord::default_view());
}

/// The pharmacist who dispensed (調剤－医師・薬剤師レコード).
#[derive(Debug, Clone, PartialEq, Eq)]
pub struct PharmacistRecord {
    /// 医師・薬剤師氏名
    pub name: String,
    /// 医師・薬剤師連絡先
    pub contact_information: Option<String>,
    /// レコード作成者
    pub created_by: RecordCreator,
}

/// The model of a [`PharmacistRecord`]: its fields, the texts as sequences of
/// characters.
pub struct PharmacistRecordView {
    pub name: Seq<char>,
    pub contact_information: Option<Seq<char>>,
    pub created_by: RecordCreator,
}

impl View for PharmacistRecord {
    type V = PharmacistRecordView;

    open spec fn view(&self) -> PharmacistRecordView {
        PharmacistRecordView {
            name: self.name@,
            contact_information: self.contact_information.deep_view(),
            created_by: self.created_by,
        }
    }
}

impl DeepView for PharmacistRecord {
    type V = PharmacistRecordView;

    open spec fn deep_view(&self) -> PharmacistRecordView {
        self@
    }
}

impl PharmacistRecordView {
    /// The fields of the record's line, the tag first.
    pub open spec fn fields(self) -> Seq<Seq<char>> {
        seq![
            decimal(15),
            self.name,
            optional_code(self.contact_information),
            self.created_by.code(),
        ]
    }

    /// The record's line: the fields with commas between them.
    pub open spec fn line(self) -> Seq<char> {
        join(self.fields(), comma())
    }

    /// Whether the record's line reads back as the record: its texts can
    /// stand in a field and a text that may be missing is not empty.
    pub open spec fn is_encodable(self) -> bool {
        &&& is_field_text(self.name)
        &&& is_optional_field_text(self.contact_information)
    }
}

impl LineModel for PharmacistRecordView {
    open spec fn lines(self) -> Seq<Seq<char>> {
        seq![self.line()]
    }
}

impl PharmacistRecord {
    /// A record of the given fields.
    pub fn new(
        name: String,
        contact_information: Option<String>,
        created_by: RecordCreator,
    ) -> (r: Self)
        ensures
            r == (PharmacistRecord { name, contact_information, created_by }),
    {
        PharmacistRecord { name, contact_information, created_by }
    }

    /// Whether fields have the shape of this record's line: their number,
    /// the tag, and the class of each field that has one.
    pub open spec fn shape(f: Seq<Seq<char>>) -> bool {
        &&& f.len() == 4
        &&& small_code(f[0]) == Some(15nat)
        &&& one_digit(f[3])
    }

    /// The model of the defaults.
    pub open spec fn default_view() -> PharmacistRecordView {
        PharmacistRecordView {
            name: Seq::empty(),
            contact_information: None,
            created_by: RecordCreator::Unknown,
        }
    }

    /// What reading the line `s` gives. A line that has not the shape of
    /// the record is refused as a whole; then the fields are read from left
    /// to right, and the first that fails gives the error.
    pub open spec fn spec_from_str(s: Seq<char>) -> Result<PharmacistRecordView, ErrorView> {
        let f = fields_of(s);
        if !Self::shape(f) {
            Err(invalid_record_line("Cannot convert str to PharmacistRecord, got \""@ + s + "\""@))
        } else {
            let created_by = RecordCreator::spec_from_str(f[3]);
            if created_by is Err {
                Err(created_by->Err_0)
            } else {
                Ok(
                    PharmacistRecordView {
                        name: f[1],
                        contact_information: optional_text(f[2]),
                        created_by: created_by->Ok_0,
                    },
                )
            }
        }
    }

    /// The record's line.
    pub fn to_code(&self) -> (r: String)
        ensures
            r@ == self@.line(),
    {
        let mut parts: Vec<String> = Vec::new();
        parts.push(decimal_string(15));
        parts.push(self.name.clone());
        parts.push(write_optional_text(&self.contact_information));
        parts.push(self.created_by.to_code());
        assert(parts.deep_view() =~= self@.fields());
        join_fields(&parts)
    }
}

impl Record for PharmacistRecord {
    open spec fn tag() -> u32 {
        15
    }

    open spec fn field_count() -> u32 {
        3
    }

    fn record_number(&self) -> (n: u32) {
        15
    }

    fn cols(&self) -> (n: u32) {
        3
    }
}

impl Default for PharmacistRecord {
    fn default() -> (r: Self)
        ensures
            r@ == Self::default_view(),
    {
        PharmacistRecord {
            name: String::new(),
            contact_information: None,
            created_by: RecordCreator::Unknown,
        }
    }
}

impl FromStr for PharmacistRecord {
    type Err = Error;

    /// Reads the record from its line.
    fn from_str(s: &str) -> (r: Result<Self, Self::Err>)
        ensures
            outcome(r) == Self::spec_from_str(s@),
    {
        let f = split_fields(s);
        if !(f.len() == 4
            && has_tag(f[0].as_str(), 15)
            && is_one_digit(f[3].as_str())) {
            return Err(
                Error::InvalidRecordLine(
                    framed("Cannot convert str to PharmacistRecord, got \"", s, "\""),
                ),
            );
        }
        let created_by = match RecordCreator::from_str(f[3].as_str()) {
            Ok(v) => v,
            Err(e) => return Err(e),
        };
        Ok(
            PharmacistRecord {
                name: f[1].clone(),
                contact_information: read_optional_text(&f[2]),
                created_by,
            },
        )
    }
}

/// The line of a record that can be written reads back as the record. It
/// is one line that begins with the tag 15.
pub proof fn lemma_pharmacist_record_round_trip(v: PharmacistRecordView)
    requires
        v.is_encodable(),
    ensures
        PharmacistRecord::spec_from_str(v.line()) == Ok::<PharmacistRecordView, ErrorView>(v),
        line_tag(v.line()) == Some(15nat),
        is_line(v.line()),
        !is_version_line(v.line()),
{
    let f = v.fields();
    lemma_code_text(15);
    lemma_record_creator_round_trip(v.created_by);
    lemma_code_text(v.created_by.number());
    assert(f.len() == 4);
    assert forall|i: int| 0 <= i < f.len() implies is_field_text(#[trigger] f[i]) by {}
    lemma_record_line(f, 15);
}

/// The line of the default record reads back as the default record.
pub proof fn lemma_pharmacist_record_default_round_trip()
    ensures
        PharmacistRecord::spec_from_str(PharmacistRecord::default_view().line()) == Ok::<
            PharmacistRecordView,
            ErrorView,
        >(PharmacistRecord::default_view()),
{
    lemma_pharmacist_record_round_trip(PharmacistRecord::default_view());
}

/// The institution that prescribed (処方－医療機関レコード).
#[derive(Debug, Clone, PartialEq, Eq)]
pub struct MedicalInstitutionRecord {
    /// 医療機関名称
    pub name: String,
    /// 医療機関都道府県
    pub prefecture: Option<Prefecture>,
    /// 医療機関点数表
    pub fee_table: Option<FeeTable>,
    /// 医療機関コード
    pub institution_code: Option<String>,
    /// レコード作成者
    pub created_by: RecordCreator,
}

/// The model of a [`MedicalInstitutionRecord`]: its fields, the texts as sequences of
/// characters.
pub struct MedicalInstitutionRecordView {
    pub name: Seq<char>,
    pub prefecture: Option<Prefecture>,
    pub fee_table: Option<FeeTable>,
    pub institution_code: Option<Seq<char>>,
    pub created_by: RecordCreator,
}

impl View for MedicalInstitutionRecord {
    type V = MedicalInstitutionRecordView;

    open spec fn view(&self) -> MedicalInstitutionRecordView {
        MedicalInstitutionRecordView {
            name: self.name@,
            prefecture: self.prefecture,
            fee_table: self.fee_table,
            institution_code: self.institution_code.deep_view(),
            created_by: self.created_by,
        }
    }
}

impl DeepView for MedicalInstitutionRecord {
    type V = MedicalInstitutionRecordView;

    open spec fn deep_view(&self) -> MedicalInstitutionRecordView {
        self@
    }
}

impl MedicalInstitutionRecordView {
    /// The fields of the record's line, the tag first.
    pub open spec fn fields(self) -> Seq<Seq<char>> {
        seq![
            decimal(51),
            self.name,
            match self.prefecture {
                Some(v) => v.code(),
                None => Seq::empty(),
            },
            match self.fee_table {
                Some(v) => v.code(),
                None => Seq::empty(),
            },
            optional_code(self.institution_code),
            self.created_by.code(),
        ]
    }

    /// The record's line: the fields with commas between them.
    pub open spec fn line(self) -> Seq<char> {
        join(self.fields(), comma())
    }

    /// Whether the record's line reads back as the record: its texts can
    /// stand in a field and a text that may be missing is not empty.
    pub open spec fn is_encodable(self) -> bool {
        &&& is_field_text(self.name)
        &&& is_optional_field_text(self.institution_code)
    }
}

impl LineModel for MedicalInstitutionRecordView {
    open spec fn lines(self) -> Seq<Seq<char>> {
        seq![self.line()]
    }
}

impl MedicalInstitutionRecord {
    /// A record of the given fields.
    pub fn new(
        name: String,
        prefecture: Option<Prefecture>,
        fee_table: Option<FeeTable>,
        institution_code: Option<String>,
        created_by: RecordCreator,
    ) -> (r: Self)
        ensures
            r == (MedicalInstitutionRecord {
                name,
                prefecture,
                fee_table,
                institution_code,
                created_by,
            }),
    {
        MedicalInstitutionRecord { name, prefecture, fee_table, institution_code, created_by }
    }

    /// Whether fields have the shape of this record's line: their number,
    /// the tag, and the class of each field that has one.
    pub open spec fn shape(f: Seq<Seq<char>>) -> bool {
        &&& f.len() == 6
        &&& small_code(f[0]) == Some(51nat)
        &&& digits_within(f[2], 0, 2)
        &&& digits_within(f[3], 0, 1)
        &&& one_digit(f[5])
    }

    /// The model of the defaults.
    pub open spec fn default_view() -> MedicalInstitutionRecordView {
        MedicalInstitutionRecordView {
            name: Seq::empty(),
            prefecture: None,
            fee_table: None,
            institution_code: None,
            created_by: RecordCreator::Unknown,
        }
    }

    /// What reading the line `s` gives. A line that has not the shape of
    /// the record is refused as a whole; then the fields are read from left
    /// to right, and the first that fails gives the error.
    pub open spec fn spec_from_str(s: Seq<char>) -> Result<
        MedicalInstitutionRecordView,
        ErrorView,
    > {
        let f = fields_of(s);
        if !Self::shape(f) {
            Err(
                invalid_record_line(
                    "Cannot convert str to MedicalInstitutionRecord, got \""@ + s + "\""@,
                ),
            )
        } else {
            let prefecture = optional(f[2], Prefecture::spec_from_str(f[2]));
            let fee_table = optional(f[3], FeeTable::spec_from_str(f[3]));
            let created_by = RecordCreator::spec_from_str(f[5]);
            if prefecture is Err {
                Err(prefecture->Err_0)
            } else if fee_table is Err {
                Err(fee_table->Err_0)
            } else if created_by is Err {
                Err(created_by->Err_0)
            } else {
                Ok(
                    MedicalInstitutionRecordView {
                        name: f[1],
                        prefecture: prefecture->Ok_0,
                        fee_table: fee_table->Ok_0,
                        institution_code: optional_text(f[4]),
                        created_by: created_by->Ok_0,
                    },
                )
            }
        }
    }

    /// The record's line.
    pub fn to_code(&self) -> (r: String)
        ensures
            r@ == self@.line(),
    {
        let mut parts: Vec<String> = Vec::new();
        parts.push(decimal_string(51));
        parts.push(self.name.clone());
        let prefecture = match self.prefecture {
            Some(v) => v.to_code(),
            None => String::new(),
        };
        parts.push(prefecture);
        let fee_table = match self.fee_table {
            Some(v) => v.to_code(),
            None => String::new(),
        };
        parts.push(fee_table);
        parts.push(write_optional_text(&self.institution_code));
        parts.push(self.created_by.to_code());
        assert(parts.deep_view() =~= self@.fields());
        join_fields(&parts)
    }
}

impl Record for MedicalInstitutionRecord {
    open spec fn tag() -> u32 {
        51
    }

    open spec fn field_count() -> u32 {
        5
    }

    fn record_number(&self) -> (n: u32) {
        51
    }

    fn cols(&self) -> (n: u32) {
        5
    }
}

impl Default for MedicalInstitutionRecord {
    fn default() -> (r: Self)
        ensures
            r@ == Self::default_view(),
    {
        MedicalInstitutionRecord {
            name: String::new(),
            prefecture: None,
            fee_table: None,
            institution_code: None,
            created_by: RecordCreator::Unknown,
        }
    }
}

impl FromStr for MedicalInstitutionRecord {
    type Err = Error;

    /// Reads the record from its line.
    fn from_str(s: &str) -> (r: Result<Self, Self::Err>)
        ensures
            outcome(r) == Self::spec_from_str(s@),
    {
        let f = split_fields(s);
        if !(f.len() == 6
            && has_tag(f[0].as_str(), 51)
            && is_digits_within(f[2].as_str(), 0, 2)
            && is_digits_within(f[3].as_str(), 0, 1)
            && is_one_digit(f[5].as_str())) {
            return Err(
                Error::InvalidRecordLine(
                    framed("Cannot convert str to MedicalInstitutionRecord, got \"", s, "\""),
                ),
            );
        }
        let prefecture = match read_optional_prefecture(f[2].as_str()) {
            Ok(v) => v,
            Err(e) => return Err(e),
        };
        let fee_table = match read_optional_fee_table(f[3].as_str()) {
            Ok(v) => v,
            Err(e) => return Err(e),
        };
        let created_by = match RecordCreator::from_str(f[5].as_str()) {
            Ok(v) => v,
            Err(e) => return Err(e),
        };
        Ok(
            MedicalInstitutionRecord {
                name: f[1].clone(),
                prefecture,
                fee_table,
                institution_code: read_optional_text(&f[4]),
                created_by,
            },
        )
    }
}

/// The line of a record that can be written reads back as the record. It
/// is one line that begins with the tag 51.
pub proof fn lemma_medical_institution_record_round_trip(v: MedicalInstitutionRecordView)
    requires
        v.is_encodable(),
    ensures
        MedicalInstitutionRecord::spec_from_str(v.line()) == Ok::<
            MedicalInstitutionRecordView,
            ErrorView,
        >(v),
        line_tag(v.line()) == Some(51nat),
        is_line(v.line()),
        !is_version_line(v.line()),
{
    let f = v.fields();
    lemma_code_text(51);
    if v.prefecture is Some {
        lemma_prefecture_round_trip(v.prefecture.unwrap());
        lemma_digits_are_field_text(v.prefecture.unwrap().code());
    }
    if v.fee_table is Some {
        lemma_fee_table_round_trip(v.fee_table.unwrap());
        lemma_code_text(v.fee_table.unwrap().number());
    }
    lemma_record_creator_round_trip(v.created_by);
    lemma_code_text(v.created_by.number());
    assert(f.len() == 6);
    assert forall|i: int| 0 <= i < f.len() implies is_field_text(#[trigger] f[i]) by {}
    lemma_record_line(f, 51);
}

/// The line of the default record reads back as the default record.
pub proof fn lemma_medical_institution_record_default_round_trip()
    ensures
        MedicalInstitutionRecord::spec_from_str(MedicalInstitutionRecord::default_view().line()) == Ok::<
            MedicalInstitutionRecordView,
            ErrorView,
        >(MedicalInstitutionRecord::default_view()),
{
    lemma_medical_institution_record_round_trip(MedicalInstitutionRecord::default_view());
}

/// The physician who prescribed (処方－医師レコード).
#[derive(Debug, Clone, PartialEq, Eq)]
pub struct PhysicianRecord {
    /// 医師氏名
    pub name: String,
    /// 診療科名
    pub specialty: Option<String>,
    /// レコード作成者
    pub created_by: RecordCreator,
}

/// The model of a [`PhysicianRecord`]: its fields, the texts as sequences of
/// characters.
pub struct PhysicianRecordView {
    pub name: Seq<char>,
    pub specialty: Option<Seq<char>>,
    pub created_by: RecordCreator,
}

impl View for PhysicianRecord {
    type V = PhysicianRecordView;

    open spec fn view(&self) -> PhysicianRecordView {
        PhysicianRecordView {
            name: self.name@,
            specialty: self.specialty.deep_view(),
            created_by: self.created_by,
        }
    }
}

impl DeepView for PhysicianRecord {
    type V = PhysicianRecordView;

    open spec fn deep_view(&self) -> PhysicianRecordView {
        self@
    }
}

impl PhysicianRecordView {
    /// The fields of the record's line, the tag first.
    pub open spec fn fields(self) -> Seq<Seq<char>> {
        seq![
            decimal(55),
            self.name,
            optional_code(self.specialty),
            self.created_by.code(),
        ]
    }

    /// The record's line: the fields with commas between them.
    pub open spec fn line(self) -> Seq<char> {
        join(self.fields(), comma())
    }

    /// Whether the record's line reads back as the record: its texts can
    /// stand in a field and a text that may be missing is not empty.
    pub open spec fn is_encodable(self) -> bool {
        &&& is_field_text(self.name)
        &&& is_optional_field_text(self.specialty)
    }
}

impl LineModel for PhysicianRecordView {
    open spec fn lines(self) -> Seq<Seq<char>> {
        seq![self.line()]
    }
}

impl PhysicianRecord {
    /// A record of the given fields.
    pub fn new(
        name: String,
        specialty: Option<String>,
        created_by: RecordCreator,
    ) -> (r: Self)
        ensures
            r == (PhysicianRecord { name, specialty, created_by }),
    {
        PhysicianRecord { name, specialty, created_by }
    }

    /// Whether fields have the shape of this record's line: their number,
    /// the tag, and the class of each field that has one.
    pub open spec fn shape(f: Seq<Seq<char>>) -> bool {
        &&& f.len() == 4
        &&& small_code(f[0]) == Some(55nat)
        &&& one_digit(f[3])
    }

    /// The model of the defaults.
    pub open spec fn default_view() -> PhysicianRecordView {
        PhysicianRecordView {
            name: Seq::empty(),
            specialty: None,
            created_by: RecordCreator::Unknown,
        }
    }

    /// What reading the line `s` gives. A line that has not the shape of
    /// the record is refused as a whole; then the fields are read from left
    /// to right, and the first that fails gives the error.
    pub open spec fn spec_from_str(s: Seq<char>) -> Result<PhysicianRecordView, ErrorView> {
        let f = fields_of(s);
        if !Self::shape(f) {
            Err(invalid_record_line("Cannot convert str to PhysicianRecord, got \""@ + s + "\""@))
        } else {
            let created_by = RecordCreator::spec_from_str(f[3]);
            if created_by is Err {
                Err(created_by->Err_0)
            } else {
                Ok(
                    PhysicianRecordView {
                        name: f[1],
                        specialty: optional_text(f[2]),
                        created_by: created_by->Ok_0,
                    },
                )
            }
        }
    }

    /// The record's line.
    pub fn to_code(&self) -> (r: String)
        ensures
            r@ == self@.line(),
    {
        let mut parts: Vec<String> = Vec::new();
        parts.push(decimal_string(55));
        parts.push(self.name.clone());
        parts.push(write_optional_text(&self.specialty));
        parts.push(self.created_by.to_code());
        assert(parts.deep_view() =~= self@.fields());
        join_fields(&parts)
    }
}

impl Record for PhysicianRecord {
    open spec fn tag() -> u32 {
        55
    }

    open spec fn field_count() -> u32 {
        3
    }

    fn record_number(&self) -> (n: u32) {
        55
    }

    fn cols(&self) -> (n: u32) {
        3
    }
}

impl Default for PhysicianRecord {
    fn default() -> (r: Self)
        ensures
            r@ == Self::default_view(),
    {
        PhysicianRecord {
            name: String::new(),
            specialty: None,
            created_by: RecordCreator::Unknown,
        }
    }
}

impl FromStr for PhysicianRecord {
    type Err = Error;

    /// Reads the record from its line.
    fn from_str(s: &str) -> (r: Result<Self, Self::Err>)
        ensures
            outcome(r) == Self::spec_from_str(s@),
    {
        let f = split_fields(s);
        if !(f.len() == 4
            && has_tag(f[0].as_str(), 55)
            && is_one_digit(f[3].as_str())) {
            return Err(
                Error::InvalidRecordLine(
                    framed("Cannot convert str to PhysicianRecord, got \"", s, "\""),
                ),
            );
        }
        let created_by = match RecordCreator::from_str(f[3].as_str()) {
            Ok(v) => v,
            Err(e) => return Err(e),
        };
        Ok(
            PhysicianRecord {
                name: f[1].clone(),
                specialty: read_optional_text(&f[2]),
                created_by,
            },
        )
    }
}

/// The line of a record that can be written reads back as the record. It
/// is one line that begins with the tag 55.
pub proof fn lemma_physician_record_round_trip(v: PhysicianRecordView)
    requires
        v.is_encodable(),
    ensures
        PhysicianRecord::spec_from_str(v.line()) == Ok::<PhysicianRecordView, ErrorView>(v),
        line_tag(v.line()) == Some(55nat),
        is_line(v.line()),
        !is_version_line(v.line()),
{
    let f = v.fields();
    lemma_code_text(55);
    lemma_record_creator_round_trip(v.created_by);
    lemma_code_text(v.created_by.number());
    assert(f.len() == 4);
    assert forall|i: int| 0 <= i < f.len() implies is_field_text(#[trigger] f[i]) by {}
    lemma_record_line(f, 55);
}

/// The line of the default record reads back as the default record.
pub proof fn lemma_physician_record_default_round_trip()
    ensures
        PhysicianRecord::spec_from_str(PhysicianRecord::default_view().line()) == Ok::<
            PhysicianRecordView,
            ErrorView,
        >(PhysicianRecord::default_view()),
{
    lemma_physician_record_round_trip(PhysicianRecord::default_view());
}

/// A record that was read from a line can be written.
pub proof fn lemma_date_record_read_is_encodable(s: Seq<char>)
    requires
        forall|i: int| 0 <= i < s.len() ==> !is_break(#[trigger] s[i]),
        DateRecord::spec_from_str(s) is Ok,
    ensures
        (DateRecord::spec_from_str(s)->Ok_0).is_encodable(),
{
    let f = fields_of(s);
    lemma_fields_are_field_text(s);
    lemma_read_date_fits(f[1]);
}

/// A record that was read from a line can be written.
pub proof fn lemma_pharmacy_record_read_is_encodable(s: Seq<char>)
    requires
        forall|i: int| 0 <= i < s.len() ==> !is_break(#[trigger] s[i]),
        PharmacyRecord::spec_from_str(s) is Ok,
    ensures
        (PharmacyRecord::spec_from_str(s)->Ok_0).is_encodable(),
{
    let f = fields_of(s);
    lemma_fields_are_field_text(s);
}

/// A record that was read from a line can be written.
pub proof fn lemma_pharmacist_record_read_is_encodable(s: Seq<char>)
    requires
        forall|i: int| 0 <= i < s.len() ==> !is_break(#[trigger] s[i]),
        PharmacistRecord::spec_from_str(s) is Ok,
    ensures
        (PharmacistRecord::spec_from_str(s)->Ok_0).is_encodable(),
{
    let f = fields_of(s);
    lemma_fields_are_field_text(s);
}

/// A record that was read from a line can be written.
pub proof fn lemma_medical_institution_record_read_is_encodable(s: Seq<char>)
    requires
        forall|i: int| 0 <= i < s.len() ==> !is_break(#[trigger] s[i]),
        MedicalInstitutionRecord::spec_from_str(s) is Ok,
    ensures
        (MedicalInstitutionRecord::spec_from_str(s)->Ok_0).is_encodable(),
{
    let f = fields_of(s);
    lemma_fields_are_field_text(s);
}

/// A record that was read from a line can be written.
pub proof fn lemma_physician_record_read_is_encodable(s: Seq<char>)
    requires
        forall|i: int| 0 <= i < s.len() ==> !is_break(#[trigger] s[i]),
        PhysicianRecord::spec_from_str(s) is Ok,
    ensures
        (PhysicianRecord::spec_from_str(s)->Ok_0).is_encodable(),
{
    let f = fields_of(s);
    lemma_fields_are_field_text(s);
}

} // verus!
