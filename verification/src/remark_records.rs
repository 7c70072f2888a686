//! The records that close a dispensing or a notebook: notices,
//! information from the institution, notes, what the patient wrote, and
//! the family pharmacist.

use vstd::prelude::*;
use std::str::FromStr;
use crate::codes::{
    lemma_provided_information_type_round_trip, lemma_record_creator_round_trip,
    ProvidedInformationType, RecordCreator,
};
use crate::date::{lemma_read_date_fits, Date};
use crate::error::{framed, invalid_record_line, outcome, Error, ErrorView};
use crate::number::{decimal, decimal_string, small_code};
use crate::record::{
    all_lines, comma, date_of, digits_within, has_tag, is_digits_within, is_field_text,
    is_one_digit, is_optional_date_shaped, is_version_line, join_fields, lemma_code_text,
    lemma_date_field, lemma_fields_are_field_text, lemma_record_line, line_tag, one_digit,
    optional, optional_date_shaped, read_optional_date, LineModel, Record,
};
use crate::text::{fields_of, is_break, is_line, join, split_fields};

verus! {

/// What to mind for a dispensing (服用注意レコード).
#[derive(Debug, Clone, PartialEq, Eq)]
pub struct NoticeRecord {
    /// 内容
    pub content: String,
    /// レコード作成者
    pub created_by: RecordCreator,
}

/// The model of a [`NoticeRecord`]: its fields, the texts as sequences of
/// characters.
pub struct NoticeRecordView {
    pub content: Seq<char>,
    pub created_by: RecordCreator,
}

impl View for NoticeRecord {
    type V = NoticeRecordView;

    open spec fn view(&self) -> NoticeRecordView {
        NoticeRecordView {
            content: self.content@,
            created_by: self.created_by,
        }
    }
}

impl DeepView for NoticeRecord {
    type V = NoticeRecordView;

    open spec fn deep_view(&self) -> NoticeRecordView {
        self@
    }
}

impl NoticeRecordView {
    /// The fields of the record's line, the tag first.
    pub open spec fn fields(self) -> Seq<Seq<char>> {
        seq![
            decimal(401),
            self.content,
            self.created_by.code(),
        ]
    }

    /// The record's line: the fields with commas between them.
    pub open spec fn line(self) -> Seq<char> {
        join(self.fields(), comma())
    }

    /// Whether the record's line reads back as the record: its texts can
    /// stand in a field.
    pub open spec fn is_encodable(self) -> bool {
        &&& is_field_text(self.content)
    }
}

impl LineModel for NoticeRecordView {
    open spec fn lines(self) -> Seq<Seq<char>> {
        seq![self.line()]
    }
}

impl NoticeRecord {
    /// A record of the given fields.
    pub fn new(
        content: String,
        created_by: RecordCreator,
    ) -> (r: Self)
        ensures
            r == (NoticeRecord { content, created_by }),
    {
        NoticeRecord { content, created_by }
    }

    /// Whether fields have the shape of this record's line: their number,
    /// the tag, and the class of each field that has one.
    pub open spec fn shape(f: Seq<Seq<char>>) -> bool {
        &&& f.len() == 3
        &&& small_code(f[0]) == Some(401nat)
        &&& one_digit(f[2])
    }

    /// The model of the defaults.
    pub open spec fn default_view() -> NoticeRecordView {
        NoticeRecordView {
            content: Seq::empty(),
            created_by: RecordCreator::Unknown,
        }
    }

    /// What reading the line `s` gives. A line that has not the shape of
    /// the record is refused as a whole; then the fields are read from left
    /// to right, and the first that fails gives the error.
    pub open spec fn spec_from_str(s: Seq<char>) -> Result<NoticeRecordView, ErrorView> {
        let f = fields_of(s);
        if !Self::shape(f) {
            Err(invalid_record_line("Cannot convert str to NoticeRecord, got \""@ + s + "\""@))
        } else {
            let created_by = RecordCreator::spec_from_str(f[2]);
            if created_by is Err {
                Err(created_by->Err_0)
            } else {
                Ok(
                    NoticeRecordView {
                        content: f[1],
                        created_by: created_by->Ok_0,
                    },
                )
            }
        }
    }

    /// The record's line.
    pub fn to_code(&self) -> (r: String)
        ensures
            r@ == self@.line(),
    {
        let mut parts: Vec<String> = Vec::new();
        parts.push(decimal_string(401));
        parts.push(self.content.clone());
        parts.push(self.created_by.to_code());
        assert(parts.deep_view() =~= self@.fields());
        join_fields(&parts)
    }
}

impl Record for NoticeRecord {
    open spec fn tag() -> u32 {
        401
    }

    open spec fn field_count() -> u32 {
        2
    }

    fn record_number(&self) -> (n: u32) {
        401
    }

    fn cols(&self) -> (n: u32) {
        2
    }
}

impl Default for NoticeRecord {
    fn default() -> (r: Self)
        ensures
            r@ == Self::default_view(),
    {
        NoticeRecord {
            content: String::new(),
            created_by: RecordCreator::Unknown,
        }
    }
}

impl FromStr for NoticeRecord {
    type Err = Error;

    /// Reads the record from its line.
    fn from_str(s: &str) -> (r: Result<Self, Self::Err>)
        ensures
            outcome(r) == Self::spec_from_str(s@),
    {
        let f = split_fields(s);
        if !(f.len() == 3
            && has_tag(f[0].as_str(), 401)
            && is_one_digit(f[2].as_str())) {
            return Err(
                Error::InvalidRecordLine(
                    framed("Cannot convert str to NoticeRecord, got \"", s, "\""),
                ),
            );
        }
        let created_by = match RecordCreator::from_str(f[2].as_str()) {
            Ok(v) => v,
            Err(e) => return Err(e),
        };
        Ok(
            NoticeRecord {
                content: f[1].clone(),
                created_by,
            },
        )
    }
}

/// The line of a record that can be written reads back as the record. It
/// is one line that begins with the tag 401.
pub proof fn lemma_notice_record_round_trip(v: NoticeRecordView)
    requires
        v.is_encodable(),
    ensures
        NoticeRecord::spec_from_str(v.line()) == Ok::<NoticeRecordView, ErrorView>(v),
        line_tag(v.line()) == Some(401nat),
        is_line(v.line()),
        !is_version_line(v.line()),
{
    let f = v.fields();
    lemma_code_text(401);
    lemma_record_creator_round_trip(v.created_by);
    lemma_code_text(v.created_by.number());
    assert(f.len() == 3);
    assert forall|i: int| 0 <= i < f.len() implies is_field_text(#[trigger] f[i]) by {}
    lemma_record_line(f, 401);
}

/// The line of the default record reads back as the default record.
pub proof fn lemma_notice_record_default_round_trip()
    ensures
        NoticeRecord::spec_from_str(NoticeRecord::default_view().line()) == Ok::<
            NoticeRecordView,
            ErrorView,
        >(NoticeRecord::default_view()),
{
    lemma_notice_record_round_trip(NoticeRecord::default_view());
}

/// Information that the institution provides (医療機関等提供情報レコード).
#[derive(Debug, Clone, PartialEq, Eq)]
pub struct InformationProvisionRecord {
    /// 内容
    pub content: String,
    /// 提供情報種別
    pub information_type: ProvidedInformationType,
    /// レコード作成者
    pub created_by: RecordCreator,
}

/// The model of a [`InformationProvisionRecord`]: its fields, the texts as sequences of
/// characters.
pub struct InformationProvisionRecordView {
    pub content: Seq<char>,
    pub information_type: ProvidedInformationType,
    pub created_by: RecordCreator,
}

impl View for InformationProvisionRecord {
    type V = InformationProvisionRecordView;

    open spec fn view(&self) -> InformationProvisionRecordView {
        InformationProvisionRecordView {
            content: self.content@,
            information_type: self.information_type,
            created_by: self.created_by,
        }
    }
}

impl DeepView for InformationProvisionRecord {
    type V = InformationProvisionRecordView;

    open spec fn deep_view(&self) -> InformationProvisionRecordView {
        self@
    }
}

impl InformationProvisionRecordView {
    /// The fields of the record's line, the tag first.
    pub open spec fn fields(self) -> Seq<Seq<char>> {
        seq![
            decimal(411),
            self.content,
            self.information_type.code(),
            self.created_by.code(),
        ]
    }

    /// The record's line: the fields with commas between them.
    pub open spec fn line(self) -> Seq<char> {
        join(self.fields(), comma())
    }

    /// Whether the record's line reads back as the record: its texts can
    /// stand in a field.
    pub open spec fn is_encodable(self) -> bool {
        &&& is_field_text(self.content)
    }
}

impl LineModel for InformationProvisionRecordView {
    open spec fn lines(self) -> Seq<Seq<char>> {
        seq![self.line()]
    }
}

impl InformationProvisionRecord {
    /// A record of the given fields.
    pub fn new(
        content: String,
        information_type: ProvidedInformationType,
        created_by: RecordCreator,
    ) -> (r: Self)
        ensures
            r == (InformationProvisionRecord { content, information_type, created_by }),
    {
        InformationProvisionRecord { content, information_type, created_by }
    }

    /// Whether fields have the shape of this record's line: their number,
    /// the tag, and the class of each field that has one.
    pub open spec fn shape(f: Seq<Seq<char>>) -> bool {
        &&& f.len() == 4
        &&& small_code(f[0]) == Some(411nat)
        &&& digits_within(f[2], 1, 2)
        &&& one_digit(f[3])
    }

    /// The model of the defaults.
    pub open spec fn default_view() -> InformationProvisionRecordView {
        InformationProvisionRecordView {
            content: Seq::empty(),
            information_type: ProvidedInformationType::Other,
            created_by: RecordCreator::Unknown,
        }
    }

    /// What reading the line `s` gives. A line that has not the shape of
    /// the record is refused as a whole; then the fields are read from left
    /// to right, and the first that fails gives the error.
    pub open spec fn spec_from_str(s: Seq<char>) -> Result<
        InformationProvisionRecordView,
        ErrorView,
    > {
        let f = fields_of(s);
        if !Self::shape(f) {
            Err(
                invalid_record_line(
                    "Cannot convert str to InformationProvisionRecord, got \""@ + s + "\""@,
                ),
            )
        } else {
            let information_type = ProvidedInformationType::spec_from_str(f[2]);
            let created_by = RecordCreator::spec_from_str(f[3]);
            if information_type is Err {
                Err(information_type->Err_0)
            } else if created_by is Err {
                Err(created_by->Err_0)
            } else {
                Ok(
                    InformationProvisionRecordView {
                        content: f[1],
                        information_type: information_type->Ok_0,
                        created_by: created_by->Ok_0,
                    },
                )
            }
        }
    }

    /// The record's line.
    pub fn to_code(&self) -> (r: String)
        ensures
            r@ == self@.line(),
    {
        let mut parts: Vec<String> = Vec::new();
        parts.push(decimal_string(411));
        parts.push(self.content.clone());
        parts.push(self.information_type.to_code());
        parts.push(self.created_by.to_code());
        assert(parts.deep_view() =~= self@.fields());
        join_fields(&parts)
    }
}

impl Record for InformationProvisionRecord {
    open spec fn tag() -> u32 {
        411
    }

    open spec fn field_count() -> u32 {
        3
    }

    fn record_number(&self) -> (n: u32) {
        411
    }

    fn cols(&self) -> (n: u32) {
        3
    }
}

impl Default for InformationProvisionRecord {
    fn default() -> (r: Self)
        ensures
            r@ == Self::default_view(),
    {
        InformationProvisionRecord {
            content: String::new(),
            information_type: ProvidedInformationType::Other,
            created_by: RecordCreator::Unknown,
        }
    }
}

impl FromStr for InformationProvisionRecord {
    type Err = Error;

    /// Reads the record from its line.
    fn from_str(s: &str) -> (r: Result<Self, Self::Err>)
        ensures
            outcome(r) == Self::spec_from_str(s@),
    {
        let f = split_fields(s);
        if !(f.len() == 4
            && has_tag(f[0].as_str(), 411)
            && is_digits_within(f[2].as_str(), 1, 2)
            && is_one_digit(f[3].as_str())) {
            return Err(
                Error::InvalidRecordLine(
                    framed("Cannot convert str to InformationProvisionRecord, got \"", s, "\""),
                ),
            );
        }
        let information_type = match ProvidedInformationType::from_str(f[2].as_str()) {
            Ok(v) => v,
            Err(e) => return Err(e),
        };
        let created_by = match RecordCreator::from_str(f[3].as_str()) {
            Ok(v) => v,
            Err(e) => return Err(e),
        };
        Ok(
            InformationProvisionRecord {
                content: f[1].clone(),
                information_type,
                created_by,
            },
        )
    }
}

/// The line of a record that can be written reads back as the record. It
/// is one line that begins with the tag 411.
pub proof fn lemma_information_provision_record_round_trip(v: InformationProvisionRecordView)
    requires
        v.is_encodable(),
    ensures
        InformationProvisionRecord::spec_from_str(v.line()) == Ok::<
            InformationProvisionRecordView,
            ErrorView,
        >(v),
        line_tag(v.line()) == Some(411nat),
        is_line(v.line()),
        !is_version_line(v.line()),
{
    let f = v.fields();
    lemma_code_text(411);
    lemma_provided_information_type_round_trip(v.information_type);
    lemma_code_text(v.information_type.number());
    lemma_record_creator_round_trip(v.created_by);
    lemma_code_text(v.created_by.number());
    assert(f.len() == 4);
    assert forall|i: int| 0 <= i < f.len() implies is_field_text(#[trigger] f[i]) by {}
    lemma_record_line(f, 411);
}

/// The line of the default record reads back as the default record.
pub proof fn lemma_information_provision_record_default_round_trip()
    ensures
        InformationProvisionRecord::spec_from_str(InformationProvisionRecord::default_view().line()) == Ok::<
            InformationProvisionRecordView,
            ErrorView,
        >(InformationProvisionRecord::default_view()),
{
    lemma_information_provision_record_round_trip(InformationProvisionRecord::default_view());
}

/// A note on a dispensing (備考レコード).
#[derive(Debug, Clone, PartialEq, Eq)]
pub struct NoteRecord {
    /// 備考情報
    pub content: String,
    /// レコード作成者
    pub created_by: RecordCreator,
}

/// The model of a [`NoteRecord`]: its fields, the texts as sequences of
/// characters.
pub struct NoteRecordView {
    pub content: Seq<char>,
    pub created_by: RecordCreator,
}

impl View for NoteRecord {
    type V = NoteRecordView;

    open spec fn view(&self) -> NoteRecordView {
        NoteRecordView {
            content: self.content@,
            created_by: self.created_by,
        }
    }
}

impl DeepView for NoteRecord {
    type V = NoteRecordView;

    open spec fn deep_view(&self) -> NoteRecordView {
        self@
    }
}

impl NoteRecordView {
    /// The fields of the record's line, the tag first.
    pub open spec fn fields(self) -> Seq<Seq<char>> {
        seq![
            decimal(501),
            self.content,
            self.created_by.code(),
        ]
    }

    /// The record's line: the fields with commas between them.
    pub open spec fn line(self) -> Seq<char> {
        join(self.fields(), comma())
    }

    /// Whether the record's line reads back as the record: its texts can
    /// stand in a field.
    pub open spec fn is_encodable(self) -> bool {
        &&& is_field_text(self.content)
    }
}

impl LineModel for NoteRecordView {
    open spec fn lines(self) -> Seq<Seq<char>> {
        seq![self.line()]
    }
}

impl NoteRecord {
    /// A record of the given fields.
    pub fn new(
        content: String,
        created_by: RecordCreator,
    ) -> (r: Self)
        ensures
            r == (NoteRecord { content, created_by }),
    {
        NoteRecord { content, created_by }
    }

    /// Whether fields have the shape of this record's line: their number,
    /// the tag, and the class of each field that has one.
    pub open spec fn shape(f: Seq<Seq<char>>) -> bool {
        &&& f.len() == 3
        &&& small_code(f[0]) == Some(501nat)
        &&& one_digit(f[2])
    }

    /// The model of the defaults.
    pub open spec fn default_view() -> NoteRecordView {
        NoteRecordView {
            content: Seq::empty(),
            created_by: RecordCreator::Unknown,
        }
    }

    /// What reading the line `s` gives. A line that has not the shape of
    /// the record is refused as a whole; then the fields are read from left
    /// to right, and the first that fails gives the error.
    pub open spec fn spec_from_str(s: Seq<char>) -> Result<NoteRecordView, ErrorView> {
        let f = fields_of(s);
        if !Self::shape(f) {
            Err(invalid_record_line("Cannot convert str to NoteRecord, got \""@ + s + "\""@))
        } else {
            let created_by = RecordCreator::spec_from_str(f[2]);
            if created_by is Err {
                Err(created_by->Err_0)
            } else {
                Ok(
                    NoteRecordView {
                        content: f[1],
                        created_by: created_by->Ok_0,
                    },
                )
            }
        }
    }

    /// The record's line.
    pub fn to_code(&self) -> (r: String)
        ensures
            r@ == self@.line(),
    {
        let mut parts: Vec<String> = Vec::new();
        parts.push(decimal_string(501));
        parts.push(self.content.clone());
        parts.push(self.created_by.to_code());
        assert(parts.deep_view() =~= self@.fields());
        join_fields(&parts)
    }
}

impl Record for NoteRecord {
    open spec fn tag() -> u32 {
        501
    }

    open spec fn field_count() -> u32 {
        2
    }

    fn record_number(&self) -> (n: u32) {
        501
    }

    fn cols(&self) -> (n: u32) {
        2
    }
}

impl Default for NoteRecord {
    fn default() -> (r: Self)
        ensures
            r@ == Self::default_view(),
    {
        NoteRecord {
            content: String::new(),
            created_by: RecordCreator::Unknown,
        }
    }
}

impl FromStr for NoteRecord {
    type Err = Error;

    /// Reads the record from its line.
    fn from_str(s: &str) -> (r: Result<Self, Self::Err>)
        ensures
            outcome(r) == Self::spec_from_str(s@),
    {
        let f = split_fields(s);
        if !(f.len() == 3
            && has_tag(f[0].as_str(), 501)
            && is_one_digit(f[2].as_str())) {
            return Err(
                Error::InvalidRecordLine(
                    framed("Cannot convert str to NoteRecord, got \"", s, "\""),
                ),
            );
        }
        let created_by = match RecordCreator::from_str(f[2].as_str()) {
            Ok(v) => v,
            Err(e) => return Err(e),
        };
        Ok(
            NoteRecord {
                content: f[1].clone(),
                created_by,
            },
        )
    }
}

/// The line of a record that can be written reads back as the record. It
/// is one line that begins with the tag 501.
pub proof fn lemma_note_record_round_trip(v: NoteRecordView)
    requires
        v.is_encodable(),
    ensures
        NoteRecord::spec_from_str(v.line()) == Ok::<NoteRecordView, ErrorView>(v),
        line_tag(v.line()) == Some(501nat),
        is_line(v.line()),
        !is_version_line(v.line()),
{
    let f = v.fields();
    lemma_code_text(501);
    lemma_record_creator_round_trip(v.created_by);
    lemma_code_text(v.created_by.number());
    assert(f.len() == 3);
    assert forall|i: int| 0 <= i < f.len() implies is_field_text(#[trigger] f[i]) by {}
    lemma_record_line(f, 501);
}

/// The line of the default record reads back as the default record.
pub proof fn lemma_note_record_default_round_trip()
    ensures
        NoteRecord::spec_from_str(NoteRecord::default_view().line()) == Ok::<
            NoteRecordView,
            ErrorView,
        >(NoteRecord::default_view()),
{
    lemma_note_record_round_trip(NoteRecord::default_view());
}

/// What the patient wrote (患者等記入レコード).
#[derive(Debug, Clone, PartialEq, Eq)]
pub struct FromPatientRecord {
    /// 患者等記入情報
    pub content: String,
    /// 入力年月日
    pub created_at: Option<Date>,
}

/// The model of a [`FromPatientRecord`]: its fields, the texts as sequences of
/// characters.
pub struct FromPatientRecordView {
    pub content: Seq<char>,
    pub created_at: Option<Date>,
}

impl View for FromPatientRecord {
    type V = FromPatientRecordView;

    open spec fn view(&self) -> FromPatientRecordView {
        FromPatientRecordView {
            content: self.content@,
            created_at: self.created_at,
        }
    }
}

impl DeepView for FromPatientRecord {
    type V = FromPatientRecordView;

    open spec fn deep_view(&self) -> FromPatientRecordView {
        self@
    }
}

impl FromPatientRecordView {
    /// The fields of the record's line, the tag first.
    pub open spec fn fields(self) -> Seq<Seq<char>> {
        seq![
            decimal(601),
            self.content,
            match self.created_at {
                Some(d) => d.code(),
                None => Seq::empty(),
            },
        ]
    }

    /// The record's line: the fields with commas between them.
    pub open spec fn line(self) -> Seq<char> {
        join(self.fields(), comma())
    }

    /// Whether the record's line reads back as the record: its texts can
    /// stand in a field and its dates fit their codes.
    pub open spec fn is_encodable(self) -> bool {
        &&& is_field_text(self.content)
        &&& (self.created_at matches Some(d) ==> d.fits_code())
    }
}

impl LineModel for FromPatientRecordView {
    open spec fn lines(self) -> Seq<Seq<char>> {
        seq![self.line()]
    }
}

impl FromPatientRecord {
    /// A record of the given fields.
    pub fn new(
        content: String,
        created_at: Option<Date>,
    ) -> (r: Self)
        ensures
            r == (FromPatientRecord { content, created_at }),
    {
        FromPatientRecord { content, created_at }
    }

    /// Whether fields have the shape of this record's line: their number,
    /// the tag, and the class of each field that has one.
    pub open spec fn shape(f: Seq<Seq<char>>) -> bool {
        &&& f.len() == 3
        &&& small_code(f[0]) == Some(601nat)
        &&& optional_date_shaped(f[2])
    }

    /// The model of the defaults.
    pub open spec fn default_view() -> FromPatientRecordView {
        FromPatientRecordView {
            content: Seq::empty(),
            created_at: None,
        }
    }

    /// What reading the line `s` gives. A line that has not the shape of
    /// the record is refused as a whole; then the fields are read from left
    /// to right, and the first that fails gives the error.
    pub open spec fn spec_from_str(s: Seq<char>) -> Result<FromPatientRecordView, ErrorView> {
        let f = fields_of(s);
        if !Self::shape(f) {
            Err(invalid_record_line("Cannot convert str to FromPatientRecord, got \""@ + s + "\""@))
        } else {
            let created_at = optional(f[2], date_of(f[2]));
            if created_at is Err {
                Err(created_at->Err_0)
            } else {
                Ok(
                    FromPatientRecordView {
                        content: f[1],
                        created_at: created_at->Ok_0,
                    },
                )
            }
        }
    }

    /// The record's line.
    pub fn to_code(&self) -> (r: String)
        ensures
            r@ == self@.line(),
    {
        let mut parts: Vec<String> = Vec::new();
        parts.push(decimal_string(601));
        parts.push(self.content.clone());
        let created_at = match self.created_at {
            Some(d) => d.to_code(),
            None => String::new(),
        };
        parts.push(created_at);
        assert(parts.deep_view() =~= self@.fields());
        join_fields(&parts)
    }
}

impl Record for FromPatientRecord {
    open spec fn tag() -> u32 {
        601
    }

    open spec fn field_count() -> u32 {
        2
    }

    fn record_number(&self) -> (n: u32) {
        601
    }

    fn cols(&self) -> (n: u32) {
        2
    }
}

impl Default for FromPatientRecord {
    fn default() -> (r: Self)
        ensures
            r@ == Self::default_view(),
    {
        FromPatientRecord {
            content: String::new(),
            created_at: None,
        }
    }
}

impl FromStr for FromPatientRecord {
    type Err = Error;

    /// Reads the record from its line.
    fn from_str(s: &str) -> (r: Result<Self, Self::Err>)
        ensures
            outcome(r) == Self::spec_from_str(s@),
    {
        let f = split_fields(s);
        if !(f.len() == 3
            && has_tag(f[0].as_str(), 601)
            && is_optional_date_shaped(f[2].as_str())) {
            return Err(
                Error::InvalidRecordLine(
                    framed("Cannot convert str to FromPatientRecord, got \"", s, "\""),
                ),
            );
        }
        let created_at = match read_optional_date(f[2].as_str()) {
            Ok(v) => v,
            Err(e) => return Err(e),
        };
        Ok(
            FromPatientRecord {
                content: f[1].clone(),
                created_at,
            },
        )
    }
}

/// The line of a record that can be written reads back as the record. It
/// is one line that begins with the tag 601.
pub proof fn lemma_from_patient_record_round_trip(v: FromPatientRecordView)
    requires
        v.is_encodable(),
    ensures
        FromPatientRecord::spec_from_str(v.line()) == Ok::<FromPatientRecordView, ErrorView>(v),
        line_tag(v.line()) == Some(601nat),
        is_line(v.line()),
        !is_version_line(v.line()),
{
    let f = v.fields();
    lemma_code_text(601);
    if v.created_at is Some {
        lemma_date_field(v.created_at.unwrap());
    }
    assert(f.len() == 3);
    assert forall|i: int| 0 <= i < f.len() implies is_field_text(#[trigger] f[i]) by {}
    lemma_record_line(f, 601);
}

/// The line of the default record reads back as the default record.
pub proof fn lemma_from_patient_record_default_round_trip()
    ensures
        FromPatientRecord::spec_from_str(FromPatientRecord::default_view().line()) == Ok::<
            FromPatientRecordView,
            ErrorView,
        >(FromPatientRecord::default_view()),
{
    lemma_from_patient_record_round_trip(FromPatientRecord::default_view());
}

/// The family pharmacist (かかりつけ薬剤師レコード).
#[derive(Debug, Clone, PartialEq, Eq)]
pub struct FamilyPharmacistRecord {
    /// かかりつけ薬剤師氏名
    pub name: String,
    /// 勤務先薬局名称
    pub pharmacy_name: String,
    /// 連絡先
    pub contact_information: String,
    /// 担当開始年月日
    pub start_date: Option<Date>,
    /// 担当終了年月日
    pub end_date: Option<Date>,
    /// レコード作成者
    pub created_by: RecordCreator,
}

/// The model of a [`FamilyPharmacistRecord`]: its fields, the texts as sequences of
/// characters.
pub struct FamilyPharmacistRecordView {
    pub name: Seq<char>,
    pub pharmacy_name: Seq<char>,
    pub contact_information: Seq<char>,
    pub start_date: Option<Date>,
    pub end_date: Option<Date>,
    pub created_by: RecordCreator,
}

impl View for FamilyPharmacistRecord {
    type V = FamilyPharmacistRecordView;

    open spec fn view(&self) -> FamilyPharmacistRecordView {
        FamilyPharmacistRecordView {
            name: self.name@,
            pharmacy_name: self.pharmacy_name@,
            contact_information: self.contact_information@,
            start_date: self.start_date,
            end_date: self.end_date,
            created_by: self.created_by,
        }
    }
}

impl DeepView for FamilyPharmacistRecord {
    type V = FamilyPharmacistRecordView;

    open spec fn deep_view(&self) -> FamilyPharmacistRecordView {
        self@
    }
}

impl FamilyPharmacistRecordView {
    /// The fields of the record's line, the tag first.
    pub open spec fn fields(self) -> Seq<Seq<char>> {
        seq![
            decimal(701),
            self.name,
            self.pharmacy_name,
            self.contact_information,
            match self.start_date {
                Some(d) => d.code(),
                None => Seq::empty(),
            },
            match self.end_date {
                Some(d) => d.code(),
                None => Seq::empty(),
            },
            self.created_by.code(),
        ]
    }

    /// The record's line: the fields with commas between them.
    pub open spec fn line(self) -> Seq<char> {
        join(self.fields(), comma())
    }

    /// Whether the record's line reads back as the record: its texts can
    /// stand in a field and its dates fit their codes.
    pub open spec fn is_encodable(self) -> bool {
        &&& is_field_text(self.name)
        &&& is_field_text(self.pharmacy_name)
        &&& is_field_text(self.contact_information)
        &&& (self.start_date matches Some(d) ==> d.fits_code())
        &&& (self.end_date matches Some(d) ==> d.fits_code())
    }
}

impl LineModel for FamilyPharmacistRecordView {
    open spec fn lines(self) -> Seq<Seq<char>> {
        seq![self.line()]
    }
}

impl FamilyPharmacistRecord {
    /// A record of the given fields.
    pub fn new(
        name: String,
        pharmacy_name: String,
        contact_information: String,
        start_date: Option<Date>,
        end_date: Option<Date>,
        created_by: RecordCreator,
    ) -> (r: Self)
        ensures
            r == (FamilyPharmacistRecord {
                name,
                pharmacy_name,
                contact_information,
                start_date,
                end_date,
                created_by,
            }),
    {
        FamilyPharmacistRecord {
            name,
            pharmacy_name,
            contact_information,
            start_date,
            end_date,
            created_by,
        }
    }

    /// Whether fields have the shape of this record's line: their number,
    /// the tag, and the class of each field that has one.
    pub open spec fn shape(f: Seq<Seq<char>>) -> bool {
        &&& f.len() == 7
        &&& small_code(f[0]) == Some(701nat)
        &&& optional_date_shaped(f[4])
        &&& optional_date_shaped(f[5])
        &&& one_digit(f[6])
    }

    /// The model of the defaults.
    pub open spec fn default_view() -> FamilyPharmacistRecordView {
        FamilyPharmacistRecordView {
            name: Seq::empty(),
            pharmacy_name: Seq::empty(),
            contact_information: Seq::empty(),
            start_date: None,
            end_date: None,
            created_by: RecordCreator::Unknown,
        }
    }

    /// What reading the line `s` gives. A line that has not the shape of
    /// the record is refused as a whole; then the fields are read from left
    /// to right, and the first that fails gives the error.
    pub open spec fn spec_from_str(s: Seq<char>) -> Result<FamilyPharmacistRecordView, ErrorView> {
        let f = fields_of(s);
        if !Self::shape(f) {
            Err(
                invalid_record_line(
                    "Cannot convert str to FamilyPharmacistRecord, got \""@ + s + "\""@,
                ),
            )
        } else {
            let start_date = optional(f[4], date_of(f[4]));
            let end_date = optional(f[5], date_of(f[5]));
            let created_by = RecordCreator::spec_from_str(f[6]);
            if start_date is Err {
                Err(start_date->Err_0)
            } else if end_date is Err {
                Err(end_date->Err_0)
            } else if created_by is Err {
                Err(created_by->Err_0)
            } else {
                Ok(
                    FamilyPharmacistRecordView {
                        name: f[1],
                        pharmacy_name: f[2],
                        contact_information: f[3],
                        start_date: start_date->Ok_0,
                        end_date: end_date->Ok_0,
                        created_by: created_by->Ok_0,
                    },
                )
            }
        }
    }

    /// The record's line.
    pub fn to_code(&self) -> (r: String)
        ensures
            r@ == self@.line(),
    {
        let mut parts: Vec<String> = Vec::new();
        parts.push(decimal_string(701));
        parts.push(self.name.clone());
        parts.push(self.pharmacy_name.clone());
        parts.push(self.contact_information.clone());
        let start_date = match self.start_date {
            Some(d) => d.to_code(),
            None => String::new(),
        };
        parts.push(start_date);
        let end_date = match self.end_date {
            Some(d) => d.to_code(),
            None => String::new(),
        };
        parts.push(end_date);
        parts.push(self.created_by.to_code());
        assert(parts.deep_view() =~= self@.fields());
        join_fields(&parts)
    }

    /// Appends the lines of `records` to `out`.
    pub fn push_lines(out: &mut Vec<String>, records: &Vec<FamilyPharmacistRecord>)
        ensures
            final(out).deep_view() == old(out).deep_view() + all_lines(records.deep_view()),
    {
        let mut i: usize = 0;
        assert(records.deep_view().take(0) =~= Seq::empty());
        assert(out.deep_view() =~= old(out).deep_view() + Seq::<Seq<char>>::empty());
        while i < records.len()
            invariant
                i <= records.len(),
                out.deep_view() == old(out).deep_view() + all_lines(
                    records.deep_view().take(i as int),
                ),
            decreases records.len() - i,
        {
            let ghost before = out.deep_view();
            let ghost done = records.deep_view().take(i as int);
            let ghost next = records.deep_view().take(i + 1);
            out.push(records[i].to_code());
            proof {
                assert(next.drop_last() =~= done);
                assert(next.last() == records[i as int]@);
                assert(out.deep_view() =~= before.push(records[i as int]@.line()));
                assert(before.push(records[i as int]@.line()) =~= old(out).deep_view() + (all_lines(
                    done,
                ) + seq![records[i as int]@.line()]));
            }
            i += 1;
        }
        assert(records.deep_view().take(records.len() as int) =~= records.deep_view());
    }
}

impl Record for FamilyPharmacistRecord {
    open spec fn tag() -> u32 {
        701
    }

    open spec fn field_count() -> u32 {
        6
    }

    fn record_number(&self) -> (n: u32) {
        701
    }

    fn cols(&self) -> (n: u32) {
        6
    }
}

impl Default for FamilyPharmacistRecord {
    fn default() -> (r: Self)
        ensures
            r@ == Self::default_view(),
    {
        FamilyPharmacistRecord {
            name: String::new(),
            pharmacy_name: String::new(),
            contact_information: String::new(),
            start_date: None,
            end_date: None,
            created_by: RecordCreator::Unknown,
        }
    }
}

impl FromStr for FamilyPharmacistRecord {
    type Err = Error;

    /// Reads the record from its line.
    fn from_str(s: &str) -> (r: Result<Self, Self::Err>)
        ensures
            outcome(r) == Self::spec_from_str(s@),
    {
        let f = split_fields(s);
        if !(f.len() == 7
            && has_tag(f[0].as_str(), 701)
            && is_optional_date_shaped(f[4].as_str())
            && is_optional_date_shaped(f[5].as_str())
            && is_one_digit(f[6].as_str())) {
            return Err(
                Error::InvalidRecordLine(
                    framed("Cannot convert str to FamilyPharmacistRecord, got \"", s, "\""),
                ),
            );
        }
        let start_date = match read_optional_date(f[4].as_str()) {
            Ok(v) => v,
            Err(e) => return Err(e),
        };
        let end_date = match read_optional_date(f[5].as_str()) {
            Ok(v) => v,
            Err(e) => return Err(e),
        };
        let created_by = match RecordCreator::from_str(f[6].as_str()) {
            Ok(v) => v,
            Err(e) => return Err(e),
        };
        Ok(
            FamilyPharmacistRecord {
                name: f[1].clone(),
                pharmacy_name: f[2].clone(),
                contact_information: f[3].clone(),
                start_date,
                end_date,
                created_by,
            },
        )
    }
}

/// The line of a record that can be written reads back as the record. It
/// is one line that begins with the tag 701.
pub proof fn lemma_family_pharmacist_record_round_trip(v: FamilyPharmacistRecordView)
    requires
        v.is_encodable(),
    ensures
        FamilyPharmacistRecord::spec_from_str(v.line()) == Ok::<
            FamilyPharmacistRecordView,
            ErrorView,
        >(v),
        line_tag(v.line()) == Some(701nat),
        is_line(v.line()),
        !is_version_line(v.line()),
{
    let f = v.fields();
    lemma_code_text(701);
    if v.start_date is Some {
        lemma_date_field(v.start_date.unwrap());
    }
    if v.end_date is Some {
        lemma_date_field(v.end_date.unwrap());
    }
    lemma_record_creator_round_trip(v.created_by);
    lemma_code_text(v.created_by.number());
    assert(f.len() == 7);
    assert forall|i: int| 0 <= i < f.len() implies is_field_text(#[trigger] f[i]) by {}
    lemma_record_line(f, 701);
}

/// The line of the default record reads back as the default record.
pub proof fn lemma_family_pharmacist_record_default_round_trip()
    ensures
        FamilyPharmacistRecord::spec_from_str(FamilyPharmacistRecord::default_view().line()) == Ok::<
            FamilyPharmacistRecordView,
            ErrorView,
        >(FamilyPharmacistRecord::default_view()),
{
    lemma_family_pharmacist_record_round_trip(FamilyPharmacistRecord::default_view());
}

/// A record that was read from a line can be written.
pub proof fn lemma_notice_record_read_is_encodable(s: Seq<char>)
    requires
        forall|i: int| 0 <= i < s.len() ==> !is_break(#[trigger] s[i]),
        NoticeRecord::spec_from_str(s) is Ok,
    ensures
        (NoticeRecord::spec_from_str(s)->Ok_0).is_encodable(),
{
    let f = fields_of(s);
    lemma_fields_are_field_text(s);
}

/// A record that was read from a line can be written.
pub proof fn lemma_information_provision_record_read_is_encodable(s: Seq<char>)
    requires
        forall|i: int| 0 <= i < s.len() ==> !is_break(#[trigger] s[i]),
        InformationProvisionRecord::spec_from_str(s) is Ok,
    ensures
        (InformationProvisionRecord::spec_from_str(s)->Ok_0).is_encodable(),
{
    let f = fields_of(s);
    lemma_fields_are_field_text(s);
}

/// A record that was read from a line can be written.
pub proof fn lemma_note_record_read_is_encodable(s: Seq<char>)
    requires
        forall|i: int| 0 <= i < s.len() ==> !is_break(#[trigger] s[i]),
        NoteRecord::spec_from_str(s) is Ok,
    ensures
        (NoteRecord::spec_from_str(s)->Ok_0).is_encodable(),
{
    let f = fields_of(s);
    lemma_fields_are_field_text(s);
}

/// A record that was read from a line can be written.
pub proof fn lemma_from_patient_record_read_is_encodable(s: Seq<char>)
    requires
        forall|i: int| 0 <= i < s.len() ==> !is_break(#[trigger] s[i]),
        FromPatientRecord::spec_from_str(s) is Ok,
    ensures
        (FromPatientRecord::spec_from_str(s)->Ok_0).is_encodable(),
{
    let f = fields_of(s);
    lemma_fields_are_field_text(s);
    if f[2].len() > 0 {
        lemma_read_date_fits(f[2]);
    }
}

/// A record that was read from a line can be written.
pub proof fn lemma_family_pharmacist_record_read_is_encodable(s: Seq<char>)
    requires
        forall|i: int| 0 <= i < s.len() ==> !is_break(#[trigger] s[i]),
        FamilyPharmacistRecord::spec_from_str(s) is Ok,
    ensures
        (FamilyPharmacistRecord::spec_from_str(s)->Ok_0).is_encodable(),
{
    let f = fields_of(s);
    lemma_fields_are_field_text(s);
    if f[4].len() > 0 {
        lemma_read_date_fits(f[4]);
    }
    if f[5].len() > 0 {
        lemma_read_date_fits(f[5]);
    }
}

} // verus!
