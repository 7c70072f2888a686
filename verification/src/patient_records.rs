//! The records about the patient: who they are, what is special about
//! them, what they took without a prescription, and memos.

use vstd::prelude::*;
use std::str::FromStr;
use crate::codes::{
    lemma_gender_round_trip, lemma_record_creator_round_trip,
    lemma_special_patient_note_category_round_trip, Gender, RecordCreator,
    SpecialPatientNoteCategory,
};
use crate::date::{lemma_read_date_fits, Date};
use crate::error::{framed, invalid_record_line, outcome, Error, ErrorView};
use crate::number::{decimal, decimal_string, small_code};
use crate::record::{
    all_lines, comma, date_of, date_shaped, has_tag, is_date_shaped, is_field_text, is_one_digit,
    is_optional_date_shaped, is_optional_field_text, is_optional_weight_shaped, is_version_line,
    join_fields, lemma_code_text, lemma_date_field, lemma_fields_are_field_text,
    lemma_record_line, lemma_weight_is_field_text, line_tag, one_digit, optional, optional_code,
    optional_date_shaped, optional_text, optional_weight_shaped, read_optional_date,
    read_optional_text, weight_shaped, write_optional_text, LineModel, Record,
};
use crate::text::{fields_of, is_break, is_line, join, split_fields};

verus! {

/// The patient (患者情報レコード).
#[derive(Debug, Clone, PartialEq, Eq)]
pub struct PatientRecord {
    /// 患者氏名
    pub name: String,
    /// 患者性別
    pub gender: Gender,
    /// 患者生年月日
    pub day_of_birth: Date,
    /// 患者郵便番号
    pub zip_code: Option<String>,
    /// 患者住所
    pub address: Option<String>,
    /// 患者電話番号
    pub telephone: Option<String>,
    /// 緊急連絡先
    pub emergency_contact_information: Option<String>,
    /// 血液型
    pub blood_type: Option<String>,
    /// 体重, as the decimal text of the file
    pub body_weight: Option<String>,
    /// 患者氏名カナ
    pub name_in_kana: Option<String>,
}

/// The model of a [`PatientRecord`]: its fields, the texts as sequences of
/// characters.
pub struct PatientRecordView {
    pub name: Seq<char>,
    pub gender: Gender,
    pub day_of_birth: Date,
    pub zip_code: Option<Seq<char>>,
    pub address: Option<Seq<char>>,
    pub telephone: Option<Seq<char>>,
    pub emergency_contact_information: Option<Seq<char>>,
    pub blood_type: Option<Seq<char>>,
    pub body_weight: Option<Seq<char>>,
    pub name_in_kana: Option<Seq<char>>,
}

impl View for PatientRecord {
    type V = PatientRecordView;

    open spec fn view(&self) -> PatientRecordView {
        PatientRecordView {
            name: self.name@,
            gender: self.gender,
            day_of_birth: self.day_of_birth,
            zip_code: self.zip_code.deep_view(),
            address: self.address.deep_view(),
            telephone: self.telephone.deep_view(),
            emergency_contact_information: self.emergency_contact_information.deep_view(),
            blood_type: self.blood_type.deep_view(),
            body_weight: self.body_weight.deep_view(),
            name_in_kana: self.name_in_kana.deep_view(),
        }
    }
}

impl DeepView for PatientRecord {
    type V = PatientRecordView;

    open spec fn deep_view(&self) -> PatientRecordView {
        self@
    }
}

impl PatientRecordView {
    /// The fields of the record's line, the tag first.
    pub open spec fn fields(self) -> Seq<Seq<char>> {
        seq![
            decimal(1),
            self.name,
            self.gender.code(),
            self.day_of_birth.code(),
            optional_code(self.zip_code),
            optional_code(self.address),
            optional_code(self.telephone),
            optional_code(self.emergency_contact_information),
            optional_code(self.blood_type),
            optional_code(self.body_weight),
            optional_code(self.name_in_kana),
        ]
    }

    /// The record's line: the fields with commas between them.
    pub open spec fn line(self) -> Seq<char> {
        join(self.fields(), comma())
    }

    /// Whether the record's line reads back as the record: its texts can
    /// stand in a field, a text that may be missing is not empty, the weight
    /// has the shape of one and its dates fit their codes.
    pub open spec fn is_encodable(self) -> bool {
        &&& is_field_text(self.name)
        &&& self.day_of_birth.fits_code()
        &&& is_optional_field_text(self.zip_code)
        &&& is_optional_field_text(self.address)
        &&& is_optional_field_text(self.telephone)
        &&& is_optional_field_text(self.emergency_contact_information)
        &&& is_optional_field_text(self.blood_type)
        &&& (self.body_weight matches Some(w) ==> weight_shaped(w))
        &&& is_optional_field_text(self.name_in_kana)
    }
}

impl LineModel for PatientRecordView {
    open spec fn lines(self) -> Seq<Seq<char>> {
        seq![self.line()]
    }
}

impl PatientRecord {
    /// A record of the given fields.
    pub fn new(
        name: String,
        gender: Gender,
        day_of_birth: Date,
        zip_code: Option<String>,
        address: Option<String>,
        telephone: Option<String>,
        emergency_contact_information: Option<String>,
        blood_type: Option<String>,
        body_weight: Option<String>,
        name_in_kana: Option<String>,
    ) -> (r: Self)
        ensures
            r == (PatientRecord {
                name,
                gender,
                day_of_birth,
                zip_code,
                address,
                telephone,
                emergency_contact_information,
                blood_type,
                body_weight,
                name_in_kana,
            }),
    {
        PatientRecord {
            name,
            gender,
            day_of_birth,
            zip_code,
            address,
            telephone,
            emergency_contact_information,
            blood_type,
            body_weight,
            name_in_kana,
        }
    }

    /// Whether fields have the shape of this record's line: their number,
    /// the tag, and the class of each field that has one.
    pub open spec fn shape(f: Seq<Seq<char>>) -> bool {
        &&& f.len() == 11
        &&& small_code(f[0]) == Some(1nat)
        &&& one_digit(f[2])
        &&& date_shaped(f[3])
        &&& optional_weight_shaped(f[9])
    }

    /// The model of the defaults.
    pub open spec fn default_view() -> PatientRecordView {
        PatientRecordView {
            name: Seq::empty(),
            gender: Gender::Male,
            day_of_birth: Date::Seireki { year: 1970, month: 1, day: 1 },
            zip_code: None,
            address: None,
            telephone: None,
            emergency_contact_information: None,
            blood_type: None,
            body_weight: None,
            name_in_kana: None,
        }
    }

    /// What reading the line `s` gives. A line that has not the shape of
    /// the record is refused as a whole; then the fields are read from left
    /// to right, and the first that fails gives the error.
    pub open spec fn spec_from_str(s: Seq<char>) -> Result<PatientRecordView, ErrorView> {
        let f = fields_of(s);
        if !Self::shape(f) {
            Err(invalid_record_line("Cannot convert str to PatientRecord, got \""@ + s + "\""@))
        } else {
            let gender = Gender::spec_from_str(f[2]);
            let day_of_birth = date_of(f[3]);
            if gender is Err {
                Err(gender->Err_0)
            } else if day_of_birth is Err {
                Err(day_of_birth->Err_0)
            } else {
                Ok(
                    PatientRecordView {
                        name: f[1],
                        gender: gender->Ok_0,
                        day_of_birth: day_of_birth->Ok_0,
                        zip_code: optional_text(f[4]),
                        address: optional_text(f[5]),
                        telephone: optional_text(f[6]),
                        emergency_contact_information: optional_text(f[7]),
                        blood_type: optional_text(f[8]),
                        body_weight: optional_text(f[9]),
                        name_in_kana: optional_text(f[10]),
                    },
                )
            }
        }
    }

    /// The record's line.
    pub fn to_code(&self) -> (r: String)
        ensures
            r@ == self@.line(),
    {
        let mut parts: Vec<String> = Vec::new();
        parts.push(decimal_string(1));
        parts.push(self.name.clone());
        parts.push(self.gender.to_code());
        parts.push(self.day_of_birth.to_code());
        parts.push(write_optional_text(&self.zip_code));
        parts.push(write_optional_text(&self.address));
        parts.push(write_optional_text(&self.telephone));
        parts.push(write_optional_text(&self.emergency_contact_information));
        parts.push(write_optional_text(&self.blood_type));
        parts.push(write_optional_text(&self.body_weight));
        parts.push(write_optional_text(&self.name_in_kana));
        assert(parts.deep_view() =~= self@.fields());
        join_fields(&parts)
    }
}

impl Record for PatientRecord {
    open spec fn tag() -> u32 {
        1
    }

    open spec fn field_count() -> u32 {
        10
    }

    fn record_number(&self) -> (n: u32) {
        1
    }

    fn cols(&self) -> (n: u32) {
        10
    }
}

impl Default for PatientRecord {
    fn default() -> (r: Self)
        ensures
            r@ == Self::default_view(),
    {
        PatientRecord {
            name: String::new(),
            gender: Gender::Male,
            day_of_birth: Date::Seireki { year: 1970, month: 1, day: 1 },
            zip_code: None,
            address: None,
            telephone: None,
            emergency_contact_information: None,
            blood_type: None,
            body_weight: None,
            name_in_kana: None,
        }
    }
}

impl FromStr for PatientRecord {
    type Err = Error;

    /// Reads the record from its line.
    fn from_str(s: &str) -> (r: Result<Self, Self::Err>)
        ensures
            outcome(r) == Self::spec_from_str(s@),
    {
        let f = split_fields(s);
        if !(f.len() == 11
            && has_tag(f[0].as_str(), 1)
            && is_one_digit(f[2].as_str())
            && is_date_shaped(f[3].as_str())
            && is_optional_weight_shaped(f[9].as_str())) {
            return Err(
                Error::InvalidRecordLine(
                    framed("Cannot convert str to PatientRecord, got \"", s, "\""),
                ),
            );
        }
        let gender = match Gender::from_str(f[2].as_str()) {
            Ok(v) => v,
            Err(e) => return Err(e),
        };
        let day_of_birth = match Date::from_str(f[3].as_str()) {
            Ok(v) => v,
            Err(e) => return Err(e),
        };
        Ok(
            PatientRecord {
                name: f[1].clone(),
                gender,
                day_of_birth,
                zip_code: read_optional_text(&f[4]),
                address: read_optional_text(&f[5]),
                telephone: read_optional_text(&f[6]),
                emergency_contact_information: read_optional_text(&f[7]),
                blood_type: read_optional_text(&f[8]),
                body_weight: read_optional_text(&f[9]),
                name_in_kana: read_optional_text(&f[10]),
            },
        )
    }
}

/// The line of a record that can be written reads back as the record. It
/// is one line that begins with the tag 1.
pub proof fn lemma_patient_record_round_trip(v: PatientRecordView)
    requires
        v.is_encodable(),
    ensures
        PatientRecord::spec_from_str(v.line()) == Ok::<PatientRecordView, ErrorView>(v),
        line_tag(v.line()) == Some(1nat),
        is_line(v.line()),
        !is_version_line(v.line()),
{
    let f = v.fields();
    lemma_code_text(1);
    lemma_gender_round_trip(v.gender);
    lemma_code_text(v.gender.number());
    lemma_date_field(v.day_of_birth);
    if v.body_weight is Some {
        lemma_weight_is_field_text(v.body_weight.unwrap());
    }
    assert(f.len() == 11);
    assert forall|i: int| 0 <= i < f.len() implies is_field_text(#[trigger] f[i]) by {}
    lemma_record_line(f, 1);
}

/// The line of the default record reads back as the default record.
pub proof fn lemma_patient_record_default_round_trip()
    ensures
        PatientRecord::spec_from_str(PatientRecord::default_view().line()) == Ok::<
            PatientRecordView,
            ErrorView,
        >(PatientRecord::default_view()),
{
    lemma_patient_record_round_trip(PatientRecord::default_view());
}

/// A special note on the patient (患者特記レコード).
#[derive(Debug, Clone, PartialEq, Eq)]
pub struct SpecialPatientNoteRecord {
    /// 患者特記種別
    pub category: SpecialPatientNoteCategory,
    /// 患者特記内容
    pub content: String,
    /// レコード作成者
    pub created_by: RecordCreator,
}

/// The model of a [`SpecialPatientNoteRecord`]: its fields, the texts as sequences of
/// characters.
pub struct SpecialPatientNoteRecordView {
    pub category: SpecialPatientNoteCategory,
    pub content: Seq<char>,
    pub created_by: RecordCreator,
}

impl View for SpecialPatientNoteRecord {
    type V = SpecialPatientNoteRecordView;

    open spec fn view(&self) -> SpecialPatientNoteRecordView {
        SpecialPatientNoteRecordView {
            category: self.category,
            content: self.content@,
            created_by: self.created_by,
        }
    }
}

impl DeepView for SpecialPatientNoteRecord {
    type V = SpecialPatientNoteRecordView;

    open spec fn deep_view(&self) -> SpecialPatientNoteRecordView {
        self@
    }
}

impl SpecialPatientNoteRecordView {
    /// The fields of the record's line, the tag first.
    pub open spec fn fields(self) -> Seq<Seq<char>> {
        seq![
            decimal(2),
            self.category.code(),
            self.content,
            self.created_by.code(),
        ]
    }

    /// The record's line: the fields with commas between them.
    pub open spec fn line(self) -> Seq<char> {
        join(self.fields(), comma())
    }

    /// Whether the record's line reads back as the record: its texts can
    /// stand in a field.
    pub open spec fn is_encodable(self) -> bool {
        &&& is_field_text(self.content)
    }
}

impl LineModel for SpecialPatientNoteRecordView {
    open spec fn lines(self) -> Seq<Seq<char>> {
        seq![self.line()]
    }
}

impl SpecialPatientNoteRecord {
    /// A record of the given fields.
    pub fn new(
        category: SpecialPatientNoteCategory,
        content: String,
        created_by: RecordCreator,
    ) -> (r: Self)
        ensures
            r == (SpecialPatientNoteRecord { category, content, created_by }),
    {
        SpecialPatientNoteRecord { category, content, created_by }
    }

    /// Whether fields have the shape of this record's line: their number,
    /// the tag, and the class of each field that has one.
    pub open spec fn shape(f: Seq<Seq<char>>) -> bool {
        &&& f.len() == 4
        &&& small_code(f[0]) == Some(2nat)
        &&& one_digit(f[1])
        &&& one_digit(f[3])
    }

    /// The model of the defaults.
    pub open spec fn default_view() -> SpecialPatientNoteRecordView {
        SpecialPatientNoteRecordView {
            category: SpecialPatientNoteCategory::Other,
            content: Seq::empty(),
            created_by: RecordCreator::Unknown,
        }
    }

    /// What reading the line `s` gives. A line that has not the shape of
    /// the record is refused as a whole; then the fields are read from left
    /// to right, and the first that fails gives the error.
    pub open spec fn spec_from_str(s: Seq<char>) -> Result<
        SpecialPatientNoteRecordView,
        ErrorView,
    > {
        let f = fields_of(s);
        if !Self::shape(f) {
            Err(
                invalid_record_line(
                    "Cannot convert str to SpecialPatientNoteRecord, got \""@ + s + "\""@,
                ),
            )
        } else {
            let category = SpecialPatientNoteCategory::spec_from_str(f[1]);
            let created_by = RecordCreator::spec_from_str(f[3]);
            if category is Err {
                Err(category->Err_0)
            } else if created_by is Err {
                Err(created_by->Err_0)
            } else {
                Ok(
                    SpecialPatientNoteRecordView {
                        category: category->Ok_0,
                        content: f[2],
                        created_by: created_by->Ok_0,
                    },
                )
            }
        }
    }

    /// The record's line.
    pub fn to_code(&self) -> (r: String)
        ensures
            r@ == self@.line(),
    {
        let mut parts: Vec<String> = Vec::new();
        parts.push(decimal_string(2));
        parts.push(self.category.to_code());
        parts.push(self.content.clone());
        parts.push(self.created_by.to_code());
        assert(parts.deep_view() =~= self@.fields());
        join_fields(&parts)
    }

    /// Appends the lines of `records` to `out`.
    pub fn push_lines(out: &mut Vec<String>, records: &Vec<SpecialPatientNoteRecord>)
        ensures
            final(out).deep_view() == old(out).deep_view() + all_lines(records.deep_view()),
    {
        let mut i: usize = 0;
        assert(records.deep_view().take(0) =~= Seq::empty());
        assert(out.deep_view() =~= old(out).deep_view() + Seq::<Seq<char>>::empty());
        while i < records.len()
            invariant
                i <= records.len(),
                out.deep_view() == old(out).deep_view() + all_lines(
                    records.deep_view().take(i as int),
                ),
            decreases records.len() - i,
        {
            let ghost before = out.deep_view();
            let ghost done = records.deep_view().take(i as int);
            let ghost next = records.deep_view().take(i + 1);
            out.push(records[i].to_code());
            proof {
                assert(next.drop_last() =~= done);
                assert(next.last() == records[i as int]@);
                assert(out.deep_view() =~= before.push(records[i as int]@.line()));
                assert(before.push(records[i as int]@.line()) =~= old(out).deep_view() + (all_lines(
                    done,
                ) + seq![records[i as int]@.line()]));
            }
            i += 1;
        }
        assert(records.deep_view().take(records.len() as int) =~= records.deep_view());
    }
}

impl Record for SpecialPatientNoteRecord {
    open spec fn tag() -> u32 {
        2
    }

    open spec fn field_count() -> u32 {
        3
    }

    fn record_number(&self) -> (n: u32) {
        2
    }

    fn cols(&self) -> (n: u32) {
        3
    }
}

impl Default for SpecialPatientNoteRecord {
    fn default() -> (r: Self)
        ensures
            r@ == Self::default_view(),
    {
        SpecialPatientNoteRecord {
            category: SpecialPatientNoteCategory::Other,
            content: String::new(),
            created_by: RecordCreator::Unknown,
        }
    }
}

impl FromStr for SpecialPatientNoteRecord {
    type Err = Error;

    /// Reads the record from its line.
    fn from_str(s: &str) -> (r: Result<Self, Self::Err>)
        ensures
            outcome(r) == Self::spec_from_str(s@),
    {
        let f = split_fields(s);
        if !(f.len() == 4
            && has_tag(f[0].as_str(), 2)
            && is_one_digit(f[1].as_str())
            && is_one_digit(f[3].as_str())) {
            return Err(
                Error::InvalidRecordLine(
                    framed("Cannot convert str to SpecialPatientNoteRecord, got \"", s, "\""),
                ),
            );
        }
        let category = match SpecialPatientNoteCategory::from_str(f[1].as_str()) {
            Ok(v) => v,
            Err(e) => return Err(e),
        };
        let created_by = match RecordCreator::from_str(f[3].as_str()) {
            Ok(v) => v,
            Err(e) => return Err(e),
        };
        Ok(
            SpecialPatientNoteRecord {
                category,
                content: f[2].clone(),
                created_by,
            },
        )
    }
}

/// The line of a record that can be written reads back as the record. It
/// is one line that begins with the tag 2.
pub proof fn lemma_special_patient_note_record_round_trip(v: SpecialPatientNoteRecordView)
    requires
        v.is_encodable(),
    ensures
        SpecialPatientNoteRecord::spec_from_str(v.line()) == Ok::<
            SpecialPatientNoteRecordView,
            ErrorView,
        >(v),
        line_tag(v.line()) == Some(2nat),
        is_line(v.line()),
        !is_version_line(v.line()),
{
    let f = v.fields();
    lemma_code_text(2);
    lemma_special_patient_note_category_round_trip(v.category);
    lemma_code_text(v.category.number());
    lemma_record_creator_round_trip(v.created_by);
    lemma_code_text(v.created_by.number());
    assert(f.len() == 4);
    assert forall|i: int| 0 <= i < f.len() implies is_field_text(#[trigger] f[i]) by {}
    lemma_record_line(f, 2);
}

/// The line of the default record reads back as the default record.
pub proof fn lemma_special_patient_note_record_default_round_trip()
    ensures
        SpecialPatientNoteRecord::spec_from_str(SpecialPatientNoteRecord::default_view().line()) == Ok::<
            SpecialPatientNoteRecordView,
            ErrorView,
        >(SpecialPatientNoteRecord::default_view()),
{
    lemma_special_patient_note_record_round_trip(SpecialPatientNoteRecord::default_view());
}

/// A drug taken without a prescription (一般用医薬品服用レコード).
#[derive(Debug, Clone, PartialEq, Eq)]
pub struct OtcDrugRecord {
    /// 薬品名称
    pub drug_name: String,
    /// 服用開始年月日
    pub start_date: Option<Date>,
    /// 服用終了年月日
    pub end_date: Option<Date>,
    /// レコード作成者
    pub created_by: RecordCreator,
}

/// The model of a [`OtcDrugRecord`]: its fields, the texts as sequences of
/// characters.
pub struct OtcDrugRecordView {
    pub drug_name: Seq<char>,
    pub start_date: Option<Date>,
    pub end_date: Option<Date>,
    pub created_by: RecordCreator,
}

impl View for OtcDrugRecord {
    type V = OtcDrugRecordView;

    open spec fn view(&self) -> OtcDrugRecordView {
        OtcDrugRecordView {
            drug_name: self.drug_name@,
            start_date: self.start_date,
            end_date: self.end_date,
            created_by: self.created_by,
        }
    }
}

impl DeepView for OtcDrugRecord {
    type V = OtcDrugRecordView;

    open spec fn deep_view(&self) -> OtcDrugRecordView {
        self@
    }
}

impl OtcDrugRecordView {
    /// The fields of the record's line, the tag first.
    pub open spec fn fields(self) -> Seq<Seq<char>> {
        seq![
            decimal(3),
            self.drug_name,
            match self.start_date {
                Some(d) => d.code(),
                None => Seq::empty(),
            },
            match self.end_date {
                Some(d) => d.code(),
                None => Seq::empty(),
            },
            self.created_by.code(),
        ]
    }

    /// The record's line: the fields with commas between them.
    pub open spec fn line(self) -> Seq<char> {
        join(self.fields(), comma())
    }

    /// Whether the record's line reads back as the record: its texts can
    /// stand in a field and its dates fit their codes.
    pub open spec fn is_encodable(self) -> bool {
        &&& is_field_text(self.drug_name)
        &&& (self.start_date matches Some(d) ==> d.fits_code())
        &&& (self.end_date matches Some(d) ==> d.fits_code())
    }
}

impl LineModel for OtcDrugRecordView {
    open spec fn lines(self) -> Seq<Seq<char>> {
        seq![self.line()]
    }
}

impl OtcDrugRecord {
    /// A record of the given fields.
    pub fn new(
        drug_name: String,
        start_date: Option<Date>,
        end_date: Option<Date>,
        created_by: RecordCreator,
    ) -> (r: Self)
        ensures
            r == (OtcDrugRecord { drug_name, start_date, end_date, created_by }),
    {
        OtcDrugRecord { drug_name, start_date, end_date, created_by }
    }

    /// Whether fields have the shape of this record's line: their number,
    /// the tag, and the class of each field that has one.
    pub open spec fn shape(f: Seq<Seq<char>>) -> bool {
        &&& f.len() == 5
        &&& small_code(f[0]) == Some(3nat)
        &&& optional_date_shaped(f[2])
        &&& optional_date_shaped(f[3])
        &&& one_digit(f[4])
    }

    /// The model of the defaults.
    pub open spec fn default_view() -> OtcDrugRecordView {
        OtcDrugRecordView {
            drug_name: Seq::empty(),
            start_date: None,
            end_date: None,
            created_by: RecordCreator::Unknown,
        }
    }

    /// What reading the line `s` gives. A line that has not the shape of
    /// the record is refused as a whole; then the fields are read from left
    /// to right, and the first that fails gives the error.
    pub open spec fn spec_from_str(s: Seq<char>) -> Result<OtcDrugRecordView, ErrorView> {
        let f = fields_of(s);
        if !Self::shape(f) {
            Err(invalid_record_line("Cannot convert str to OtcDrugRecord, got \""@ + s + "\""@))
        } else {
            let start_date = optional(f[2], date_of(f[2]));
            let end_date = optional(f[3], date_of(f[3]));
            let created_by = RecordCreator::spec_from_str(f[4]);
            if start_date is Err {
                Err(start_date->Err_0)
            } else if end_date is Err {
                Err(end_date->Err_0)
            } else if created_by is Err {
                Err(created_by->Err_0)
            } else {
                Ok(
                    OtcDrugRecordView {
                        drug_name: f[1],
                        start_date: start_date->Ok_0,
                        end_date: end_date->Ok_0,
                        created_by: created_by->Ok_0,
                    },
                )
            }
        }
    }

    /// The record's line.
    pub fn to_code(&self) -> (r: String)
        ensures
            r@ == self@.line(),
    {
        let mut parts: Vec<String> = Vec::new();
        parts.push(decimal_string(3));
        parts.push(self.drug_name.clone());
        let start_date = match self.start_date {
            Some(d) => d.to_code(),
            None => String::new(),
        };
        parts.push(start_date);
        let end_date = match self.end_date {
            Some(d) => d.to_code(),
            None => String::new(),
        };
        parts.push(end_date);
        parts.push(self.created_by.to_code());
        assert(parts.deep_view() =~= self@.fields());
        join_fields(&parts)
    }

    /// Appends the lines of `records` to `out`.
    pub fn push_lines(out: &mut Vec<String>, records: &Vec<OtcDrugRecord>)
        ensures
            final(out).deep_view() == old(out).deep_view() + all_lines(records.deep_view()),
    {
        let mut i: usize = 0;
        assert(records.deep_view().take(0) =~= Seq::empty());
        assert(out.deep_view() =~= old(out).deep_view() + Seq::<Seq<char>>::empty());
        while i < records.len()
            invariant
                i <= records.len(),
                out.deep_view() == old(out).deep_view() + all_lines(
                    records.deep_view().take(i as int),
                ),
            decreases records.len() - i,
        {
            let ghost before = out.deep_view();
            let ghost done = records.deep_view().take(i as int);
            let ghost next = records.deep_view().take(i + 1);
            out.push(records[i].to_code());
            proof {
                assert(next.drop_last() =~= done);
                assert(next.last() == records[i as int]@);
                assert(out.deep_view() =~= before.push(records[i as int]@.line()));
                assert(before.push(records[i as int]@.line()) =~= old(out).deep_view() + (all_lines(
                    done,
                ) + seq![records[i as int]@.line()]));
            }
            i += 1;
        }
        assert(records.deep_view().take(records.len() as int) =~= records.deep_view());
    }
}

impl Record for OtcDrugRecord {
    open spec fn tag() -> u32 {
        3
    }

    open spec fn field_count() -> u32 {
        4
    }

    fn record_number(&self) -> (n: u32) {
        3
    }

    fn cols(&self) -> (n: u32) {
        4
    }
}

impl Default for OtcDrugRecord {
    fn default() -> (r: Self)
        ensures
            r@ == Self::default_view(),
    {
        OtcDrugRecord {
            drug_name: String::new(),
            start_date: None,
            end_date: None,
            created_by: RecordCreator::Unknown,
        }
    }
}

impl FromStr for OtcDrugRecord {
    type Err = Error;

    /// Reads the record from its line.
    fn from_str(s: &str) -> (r: Result<Self, Self::Err>)
        ensures
            outcome(r) == Self::spec_from_str(s@),
    {
        let f = split_fields(s);
        if !(f.len() == 5
            && has_tag(f[0].as_str(), 3)
            && is_optional_date_shaped(f[2].as_str())
            && is_optional_date_shaped(f[3].as_str())
            && is_one_digit(f[4].as_str())) {
            return Err(
                Error::InvalidRecordLine(
                    framed("Cannot convert str to OtcDrugRecord, got \"", s, "\""),
                ),
            );
        }
        let start_date = match read_optional_date(f[2].as_str()) {
            Ok(v) => v,
            Err(e) => return Err(e),
        };
        let end_date = match read_optional_date(f[3].as_str()) {
            Ok(v) => v,
            Err(e) => return Err(e),
        };
        let created_by = match RecordCreator::from_str(f[4].as_str()) {
            Ok(v) => v,
            Err(e) => return Err(e),
        };
        Ok(
            OtcDrugRecord {
                drug_name: f[1].clone(),
                start_date,
                end_date,
                created_by,
            },
        )
    }
}

/// The line of a record that can be written reads back as the record. It
/// is one line that begins with the tag 3.
pub proof fn lemma_otc_drug_record_round_trip(v: OtcDrugRecordView)
    requires
        v.is_encodable(),
    ensures
        OtcDrugRecord::spec_from_str(v.line()) == Ok::<OtcDrugRecordView, ErrorView>(v),
        line_tag(v.line()) == Some(3nat),
        is_line(v.line()),
        !is_version_line(v.line()),
{
    let f = v.fields();
    lemma_code_text(3);
    if v.start_date is Some {
        lemma_date_field(v.start_date.unwrap());
    }
    if v.end_date is Some {
        lemma_date_field(v.end_date.unwrap());
    }
    lemma_record_creator_round_trip(v.created_by);
    lemma_code_text(v.created_by.number());
    assert(f.len() == 5);
    assert forall|i: int| 0 <= i < f.len() implies is_field_text(#[trigger] f[i]) by {}
    lemma_record_line(f, 3);
}

/// The line of the default record reads back as the default record.
pub proof fn lemma_otc_drug_record_default_round_trip()
    ensures
        OtcDrugRecord::spec_from_str(OtcDrugRecord::default_view().line()) == Ok::<
            OtcDrugRecordView,
            ErrorView,
        >(OtcDrugRecord::default_view()),
{
    lemma_otc_drug_record_round_trip(OtcDrugRecord::default_view());
}

/// A memo in the notebook (手帳メモレコード).
#[derive(Debug, Clone, PartialEq, Eq)]
pub struct MemoRecord {
    /// 手帳メモ情報
    pub content: String,
    /// メモ入力年月日
    pub created_at: Option<Date>,
    /// レコード作成者
    pub created_by: RecordCreator,
}

/// The model of a [`MemoRecord`]: its fields, the texts as sequences of
/// characters.
pub struct MemoRecordView {
    pub content: Seq<char>,
    pub created_at: Option<Date>,
    pub created_by: RecordCreator,
}

impl View for MemoRecord {
    type V = MemoRecordView;

    open spec fn view(&self) -> MemoRecordView {
        MemoRecordView {
            content: self.content@,
            created_at: self.created_at,
            created_by: self.created_by,
        }
    }
}

impl DeepView for MemoRecord {
    type V = MemoRecordView;

    open spec fn deep_view(&self) -> MemoRecordView {
        self@
    }
}

impl MemoRecordView {
    /// The fields of the record's line, the tag first.
    pub open spec fn fields(self) -> Seq<Seq<char>> {
        seq![
            decimal(4),
            self.content,
            match self.created_at {
                Some(d) => d.code(),
                None => Seq::empty(),
            },
            self.created_by.code(),
        ]
    }

    /// The record's line: the fields with commas between them.
    pub open spec fn line(self) -> Seq<char> {
        join(self.fields(), comma())
    }

    /// Whether the record's line reads back as the record: its texts can
    /// stand in a field and its dates fit their codes.
    pub open spec fn is_encodable(self) -> bool {
        &&& is_field_text(self.content)
        &&& (self.created_at matches Some(d) ==> d.fits_code())
    }
}

impl LineModel for MemoRecordView {
    open spec fn lines(self) -> Seq<Seq<char>> {
        seq![self.line()]
    }
}

impl MemoRecord {
    /// A record of the given fields.
    pub fn new(
        content: String,
        created_at: Option<Date>,
        created_by: RecordCreator,
    ) -> (r: Self)
        ensures
            r == (MemoRecord { content, created_at, created_by }),
    {
        MemoRecord { content, created_at, created_by }
    }

    /// Whether fields have the shape of this record's line: their number,
    /// the tag, and the class of each field that has one.
    pub open spec fn shape(f: Seq<Seq<char>>) -> bool {
        &&& f.len() == 4
        &&& small_code(f[0]) == Some(4nat)
        &&& optional_date_shaped(f[2])
        &&& one_digit(f[3])
    }

    /// The model of the defaults.
    pub open spec fn default_view() -> MemoRecordView {
        MemoRecordView {
            content: Seq::empty(),
            created_at: None,
            created_by: RecordCreator::Unknown,
        }
    }

    /// What reading the line `s` gives. A line that has not the shape of
    /// the record is refused as a whole; then the fields are read from left
    /// to right, and the first that fails gives the error.
    pub open spec fn spec_from_str(s: Seq<char>) -> Result<MemoRecordView, ErrorView> {
        let f = fields_of(s);
        if !Self::shape(f) {
            Err(invalid_record_line("Cannot convert str to MemoRecord, got \""@ + s + "\""@))
        } else {
            let created_at = optional(f[2], date_of(f[2]));
            let created_by = RecordCreator::spec_from_str(f[3]);
            if created_at is Err {
                Err(created_at->Err_0)
            } else if created_by is Err {
                Err(created_by->Err_0)
            } else {
                Ok(
                    MemoRecordView {
                        content: f[1],
                        created_at: created_at->Ok_0,
                        created_by: created_by->Ok_0,
                    },
                )
            }
        }
    }

    /// The record's line.
    pub fn to_code(&self) -> (r: String)
        ensures
            r@ == self@.line(),
    {
        let mut parts: Vec<String> = Vec::new();
        parts.push(decimal_string(4));
        parts.push(self.content.clone());
        let created_at = match self.created_at {
            Some(d) => d.to_code(),
            None => String::new(),
        };
        parts.push(created_at);
        parts.push(self.created_by.to_code());
        assert(parts.deep_view() =~= self@.fields());
        join_fields(&parts)
    }

    /// Appends the lines of `records` to `out`.
    pub fn push_lines(out: &mut Vec<String>, records: &Vec<MemoRecord>)
        ensures
            final(out).deep_view() == old(out).deep_view() + all_lines(records.deep_view()),
    {
        let mut i: usize = 0;
        assert(records.deep_view().take(0) =~= Seq::empty());
        assert(out.deep_view() =~= old(out).deep_view() + Seq::<Seq<char>>::empty());
        while i < records.len()
            invariant
                i <= records.len(),
                out.deep_view() == old(out).deep_view() + all_lines(
                    records.deep_view().take(i as int),
                ),
            decreases records.len() - i,
        {
            let ghost before = out.deep_view();
            let ghost done = records.deep_view().take(i as int);
            let ghost next = records.deep_view().take(i + 1);
            out.push(records[i].to_code());
            proof {
                assert(next.drop_last() =~= done);
                assert(next.last() == records[i as int]@);
                assert(out.deep_view() =~= before.push(records[i as int]@.line()));
                assert(before.push(records[i as int]@.line()) =~= old(out).deep_view() + (all_lines(
                    done,
                ) + seq![records[i as int]@.line()]));
            }
            i += 1;
        }
        assert(records.deep_view().take(records.len() as int) =~= records.deep_view());
    }
}

impl Record for MemoRecord {
    open spec fn tag() -> u32 {
        4
    }

    open spec fn field_count() -> u32 {
        3
    }

    fn record_number(&self) -> (n: u32) {
        4
    }

    fn cols(&self) -> (n: u32) {
        3
    }
}

impl Default for MemoRecord {
    fn default() -> (r: Self)
        ensures
            r@ == Self::default_view(),
    {
        MemoRecord {
            content: String::new(),
            created_at: None,
            created_by: RecordCreator::Unknown,
        }
    }
}

impl FromStr for MemoRecord {
    type Err = Error;

    /// Reads the record from its line.
    fn from_str(s: &str) -> (r: Result<Self, Self::Err>)
        ensures
            outcome(r) == Self::spec_from_str(s@),
    {
        let f = split_fields(s);
        if !(f.len() == 4
            && has_tag(f[0].as_str(), 4)
            && is_optional_date_shaped(f[2].as_str())
            && is_one_digit(f[3].as_str())) {
            return Err(
                Error::InvalidRecordLine(
                    framed("Cannot convert str to MemoRecord, got \"", s, "\""),
                ),
            );
        }
        let created_at = match read_optional_date(f[2].as_str()) {
            Ok(v) => v,
            Err(e) => return Err(e),
        };
        let created_by = match RecordCreator::from_str(f[3].as_str()) {
            Ok(v) => v,
            Err(e) => return Err(e),
        };
        Ok(
            MemoRecord {
                content: f[1].clone(),
                created_at,
                created_by,
            },
        )
    }
}

/// The line of a record that can be written reads back as the record. It
/// is one line that begins with the tag 4.
pub proof fn lemma_memo_record_round_trip(v: MemoRecordView)
    requires
        v.is_encodable(),
    ensures
        MemoRecord::spec_from_str(v.line()) == Ok::<MemoRecordView, ErrorView>(v),
        line_tag(v.line()) == Some(4nat),
        is_line(v.line()),
        !is_version_line(v.line()),
{
    let f = v.fields();
    lemma_code_text(4);
    if v.created_at is Some {
        lemma_date_field(v.created_at.unwrap());
    }
    lemma_record_creator_round_trip(v.created_by);
    lemma_code_text(v.created_by.number());
    assert(f.len() == 4);
    assert forall|i: int| 0 <= i < f.len() implies is_field_text(#[trigger] f[i]) by {}
    lemma_record_line(f, 4);
}

/// The line of the default record reads back as the default record.
pub proof fn lemma_memo_record_default_round_trip()
    ensures
        MemoRecord::spec_from_str(MemoRecord::default_view().line()) == Ok::<
            MemoRecordView,
            ErrorView,
        >(MemoRecord::default_view()),
{
    lemma_memo_record_round_trip(MemoRecord::default_view());
}

/// A record that was read from a line can be written.
pub proof fn lemma_patient_record_read_is_encodable(s: Seq<char>)
    requires
        forall|i: int| 0 <= i < s.len() ==> !is_break(#[trigger] s[i]),
        PatientRecord::spec_from_str(s) is Ok,
    ensures
        (PatientRecord::spec_from_str(s)->Ok_0).is_encodable(),
{
    let f = fields_of(s);
    lemma_fields_are_field_text(s);
    lemma_read_date_fits(f[3]);
}

/// A record that was read from a line can be written.
pub proof fn lemma_special_patient_note_record_read_is_encodable(s: Seq<char>)
    requires
        forall|i: int| 0 <= i < s.len() ==> !is_break(#[trigger] s[i]),
        SpecialPatientNoteRecord::spec_from_str(s) is Ok,
    ensures
        (SpecialPatientNoteRecord::spec_from_str(s)->Ok_0).is_encodable(),
{
    let f = fields_of(s);
    lemma_fields_are_field_text(s);
}

/// A record that was read from a line can be written.
pub proof fn lemma_otc_drug_record_read_is_encodable(s: Seq<char>)
    requires
        forall|i: int| 0 <= i < s.len() ==> !is_break(#[trigger] s[i]),
        OtcDrugRecord::spec_from_str(s) is Ok,
    ensures
        (OtcDrugRecord::spec_from_str(s)->Ok_0).is_encodable(),
{
    let f = fields_of(s);
    lemma_fields_are_field_text(s);
    if f[2].len() > 0 {
        lemma_read_date_fits(f[2]);
    }
    if f[3].len() > 0 {
        lemma_read_date_fits(f[3]);
    }
}

/// A record that was read from a line can be written.
pub proof fn lemma_memo_record_read_is_encodable(s: Seq<char>)
    requires
        forall|i: int| 0 <= i < s.len() ==> !is_break(#[trigger] s[i]),
        MemoRecord::spec_from_str(s) is Ok,
    ensures
        (MemoRecord::spec_from_str(s)->Ok_0).is_encodable(),
{
    let f = fields_of(s);
    lemma_fields_are_field_text(s);
    if f[2].len() > 0 {
        lemma_read_date_fits(f[2]);
    }
}

} // verus!
