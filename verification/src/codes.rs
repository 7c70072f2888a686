//! The numbered code tables of the format. Each value has a number that
//! stands for it in a file, a label for a reader, and names by which it can
//! be given.

use vstd::prelude::*;
use vstd::std_specs::convert::TryFromSpecImpl;
use std::str::FromStr;
use crate::error::{framed, invalid_argument, plain_outcome, Error, ErrorView};
use crate::number::{
    all_ascii_digits, decimal, decimal_string, lemma_decimal_round_trip, read_small_code,
    small_code,
};

verus! {

/// Whether `s` is what a code table writes: one to three digits, without a
/// comma or a line break among them.
pub open spec fn is_code_text(s: Seq<char>) -> bool {
    1 <= s.len() <= 3 && all_ascii_digits(s)
}

/// The medical fee table that an institution bills under.
#[derive(Debug, Clone, Copy, PartialEq, Eq, Hash, Structural)]
pub enum FeeTable {
    /// 医科, written `1`.
    Medicine,
    /// 歯科, written `3`.
    Dentistry,
    /// 調剤, written `4`.
    Pharmacy,
}

impl FeeTable {
    /// The number that stands for this value in a file.
    pub open spec fn number(self) -> nat {
        match self {
            FeeTable::Medicine => 1,
            FeeTable::Dentistry => 3,
            FeeTable::Pharmacy => 4,
        }
    }

    /// The value that the number `n` stands for, if there is one.
    pub open spec fn from_number(n: nat) -> Option<FeeTable> {
        if n == 1 {
            Some(FeeTable::Medicine)
        } else if n == 3 {
            Some(FeeTable::Dentistry)
        } else if n == 4 {
            Some(FeeTable::Pharmacy)
        } else {
            None
        }
    }

    /// The code in a file: the number in decimal.
    pub open spec fn code(self) -> Seq<char> {
        decimal(self.number())
    }

    /// The label for a reader.
    pub open spec fn label(self) -> Seq<char> {
        match self {
            FeeTable::Medicine => "医科"@,
            FeeTable::Dentistry => "歯科"@,
            FeeTable::Pharmacy => "調剤"@,
        }
    }

    /// The value that the name `s` stands for, if there is one.
    pub open spec fn from_name(s: Seq<char>) -> Option<FeeTable> {
        if s == "医科"@ {
            Some(FeeTable::Medicine)
        } else if s == "歯科"@ {
            Some(FeeTable::Dentistry)
        } else if s == "調剤"@ {
            Some(FeeTable::Pharmacy)
        } else {
            None
        }
    }

    /// What reading the text `s` gives. A short code is looked up by its
    /// number, any other text by name; what is in neither table is refused.
    pub open spec fn spec_from_str(s: Seq<char>) -> Result<FeeTable, ErrorView> {
        let found = match small_code(s) {
            Some(n) => Self::from_number(n),
            None => Self::from_name(s),
        };
        match found {
            Some(v) => Ok(v),
            None => Err(invalid_argument("Cannot convert str to FeeTable, got \""@ + s + "\""@)),
        }
    }

    /// What reading the number `n` gives.
    pub open spec fn spec_try_from(n: u32) -> Result<FeeTable, ErrorView> {
        match Self::from_number(n as nat) {
            Some(v) => Ok(v),
            None => Err(
                invalid_argument(
                    "Cannot convert u32 to FeeTable, got \""@ + decimal(n as nat) + "\""@,
                ),
            ),
        }
    }

    /// The number that stands for this value in a file.
    pub fn as_number(&self) -> (n: u32)
        ensures
            n == self.number(),
    {
        match self {
            FeeTable::Medicine => 1,
            FeeTable::Dentistry => 3,
            FeeTable::Pharmacy => 4,
        }
    }

    /// The code in a file.
    pub fn to_code(&self) -> (r: String)
        ensures
            r@ == self.code(),
    {
        decimal_string(self.as_number() as u64)
    }

    /// The label for a reader.
    pub fn to_string(&self) -> (r: String)
        ensures
            r@ == self.label(),
    {
        match self {
            FeeTable::Medicine => "医科".to_owned(),
            FeeTable::Dentistry => "歯科".to_owned(),
            FeeTable::Pharmacy => "調剤".to_owned(),
        }
    }

    fn of_number(n: u32) -> (r: Option<FeeTable>)
        ensures
            r == Self::from_number(n as nat),
    {
        if n == 1 {
            Some(FeeTable::Medicine)
        } else if n == 3 {
            Some(FeeTable::Dentistry)
        } else if n == 4 {
            Some(FeeTable::Pharmacy)
        } else {
            None
        }
    }

    fn of_name(s: &str) -> (r: Option<FeeTable>)
        ensures
            r == Self::from_name(s@),
    {
        if s.eq("医科") {
            Some(FeeTable::Medicine)
        } else if s.eq("歯科") {
            Some(FeeTable::Dentistry)
        } else if s.eq("調剤") {
            Some(FeeTable::Pharmacy)
        } else {
            None
        }
    }
}

impl FromStr for FeeTable {
    type Err = Error;

    /// Reads a fee table from its code or from one of its names.
    fn from_str(s: &str) -> (r: Result<Self, Self::Err>)
        ensures
            plain_outcome(r) == Self::spec_from_str(s@),
    {
        let found = match read_small_code(s) {
            Some(n) => Self::of_number(n),
            None => Self::of_name(s),
        };
        match found {
            Some(v) => Ok(v),
            None => Err(
                Error::InvalidArgument(framed("Cannot convert str to FeeTable, got \"", s, "\"")),
            ),
        }
    }
}

impl TryFromSpecImpl<u32> for FeeTable {
    /// The contract of `try_from` stands on the method: an error holds its
    /// message as text, which only has a value through its view.
    open spec fn obeys_try_from_spec() -> bool {
        false
    }

    open spec fn try_from_spec(n: u32) -> Result<Self, Error> {
        arbitrary()
    }
}

impl TryFrom<u32> for FeeTable {
    type Error = Error;

    /// Reads a fee table from its number.
    fn try_from(n: u32) -> (r: Result<Self, Error>)
        ensures
            plain_outcome(r) == Self::spec_try_from(n),
    {
        match Self::of_number(n) {
            Some(v) => Ok(v),
            None => {
                let digits = decimal_string(n as u64);
                Err(
                    Error::InvalidArgument(
                        framed("Cannot convert u32 to FeeTable, got \"", digits.as_str(), "\""),
                    ),
                )
            },
        }
    }
}

/// A fee table written as its code reads back as itself, and so does its
/// number.
pub proof fn lemma_fee_table_round_trip(v: FeeTable)
    ensures
        FeeTable::spec_from_str(v.code()) == Ok::<FeeTable, ErrorView>(v),
        FeeTable::spec_try_from(v.number() as u32) == Ok::<FeeTable, ErrorView>(v),
        is_code_text(v.code()),
{
    lemma_decimal_round_trip(v.number());
}

/// The dosage form of a prescription.
#[derive(Debug, Clone, Copy, PartialEq, Eq, Hash, Structural)]
pub enum DosageForm {
    /// 内服, written `1`.
    OralAdministration,
    /// 内滴, written `2`.
    Drop,
    /// 頓服, written `3`.
    Potion,
    /// 注射, written `4`.
    Injection,
    /// 外用, written `5`.
    ExternalUse,
    /// 浸煎, written `6`.
    Infusodecoction,
    /// 湯, written `7`.
    Decoction,
    /// 材料, written `9`.
    Material,
    /// その他, written `10`.
    Other,
}

impl DosageForm {
    /// The number that stands for this value in a file.
    pub open spec fn number(self) -> nat {
        match self {
            DosageForm::OralAdministration => 1,
            DosageForm::Drop => 2,
            DosageForm::Potion => 3,
            DosageForm::Injection => 4,
            DosageForm::ExternalUse => 5,
            DosageForm::Infusodecoction => 6,
            DosageForm::Decoction => 7,
            DosageForm::Material => 9,
            DosageForm::Other => 10,
        }
    }

    /// The value that the number `n` stands for, if there is one.
    pub open spec fn from_number(n: nat) -> Option<DosageForm> {
        if n == 1 {
            Some(DosageForm::OralAdministration)
        } else if n == 2 {
            Some(DosageForm::Drop)
        } else if n == 3 {
            Some(DosageForm::Potion)
        } else if n == 4 {
            Some(DosageForm::Injection)
        } else if n == 5 {
            Some(DosageForm::ExternalUse)
        } else if n == 6 {
            Some(DosageForm::Infusodecoction)
        } else if n == 7 {
            Some(DosageForm::Decoction)
        } else if n == 9 {
            Some(DosageForm::Material)
        } else if n == 10 {
            Some(DosageForm::Other)
        } else {
            None
        }
    }

    /// The code in a file: the number in decimal.
    pub open spec fn code(self) -> Seq<char> {
        decimal(self.number())
    }

    /// The label for a reader.
    pub open spec fn label(self) -> Seq<char> {
        match self {
            DosageForm::OralAdministration => "内服"@,
            DosageForm::Drop => "内滴"@,
            DosageForm::Potion => "頓服"@,
            DosageForm::Injection => "注射"@,
            DosageForm::ExternalUse => "外用"@,
            DosageForm::Infusodecoction => "浸煎"@,
            DosageForm::Decoction => "湯"@,
            DosageForm::Material => "材料"@,
            DosageForm::Other => "その他"@,
        }
    }

    /// The value that the name `s` stands for, if there is one.
    pub open spec fn from_name(s: Seq<char>) -> Option<DosageForm> {
        if s == "内服"@ {
            Some(DosageForm::OralAdministration)
        } else if s == "内滴"@ {
            Some(DosageForm::Drop)
        } else if s == "頓服"@ {
            Some(DosageForm::Potion)
        } else if s == "注射"@ {
            Some(DosageForm::Injection)
        } else if s == "外用"@ {
            Some(DosageForm::ExternalUse)
        } else if s == "浸煎"@ {
            Some(DosageForm::Infusodecoction)
        } else if s == "湯"@ {
            Some(DosageForm::Decoction)
        } else if s == "材料"@ {
            Some(DosageForm::Material)
        } else if s == "その他"@ {
            Some(DosageForm::Other)
        } else {
            None
        }
    }

    /// What reading the text `s` gives. A short code is looked up by its
    /// number, any other text by name; what is in neither table is refused.
    pub open spec fn spec_from_str(s: Seq<char>) -> Result<DosageForm, ErrorView> {
        let found = match small_code(s) {
            Some(n) => Self::from_number(n),
            None => Self::from_name(s),
        };
        match found {
            Some(v) => Ok(v),
            None => Err(invalid_argument("Cannot convert str to DosageForm, got \""@ + s + "\""@)),
        }
    }

    /// What reading the number `n` gives.
    pub open spec fn spec_try_from(n: u32) -> Result<DosageForm, ErrorView> {
        match Self::from_number(n as nat) {
            Some(v) => Ok(v),
            None => Err(
                invalid_argument(
                    "Cannot convert u32 to DosageForm, got \""@ + decimal(n as nat) + "\""@,
                ),
            ),
        }
    }

    /// The number that stands for this value in a file.
    pub fn as_number(&self) -> (n: u32)
        ensures
            n == self.number(),
    {
        match self {
            DosageForm::OralAdministration => 1,
            DosageForm::Drop => 2,
            DosageForm::Potion => 3,
            DosageForm::Injection => 4,
            DosageForm::ExternalUse => 5,
            DosageForm::Infusodecoction => 6,
            DosageForm::Decoction => 7,
            DosageForm::Material => 9,
            DosageForm::Other => 10,
        }
    }

    /// The code in a file.
    pub fn to_code(&self) -> (r: String)
        ensures
            r@ == self.code(),
    {
        decimal_string(self.as_number() as u64)
    }

    /// The label for a reader.
    pub fn to_string(&self) -> (r: String)
        ensures
            r@ == self.label(),
    {
        match self {
            DosageForm::OralAdministration => "内服".to_owned(),
            DosageForm::Drop => "内滴".to_owned(),
            DosageForm::Potion => "頓服".to_owned(),
            DosageForm::Injection => "注射".to_owned(),
            DosageForm::ExternalUse => "外用".to_owned(),
            DosageForm::Infusodecoction => "浸煎".to_owned(),
            DosageForm::Decoction => "湯".to_owned(),
            DosageForm::Material => "材料".to_owned(),
            DosageForm::Other => "その他".to_owned(),
        }
    }

    fn of_number(n: u32) -> (r: Option<DosageForm>)
        ensures
            r == Self::from_number(n as nat),
    {
        if n == 1 {
            Some(DosageForm::OralAdministration)
        } else if n == 2 {
            Some(DosageForm::Drop)
        } else if n == 3 {
            Some(DosageForm::Potion)
        } else if n == 4 {
            Some(DosageForm::Injection)
        } else if n == 5 {
            Some(DosageForm::ExternalUse)
        } else if n == 6 {
            Some(DosageForm::Infusodecoction)
        } else if n == 7 {
            Some(DosageForm::Decoction)
        } else if n == 9 {
            Some(DosageForm::Material)
        } else if n == 10 {
            Some(DosageForm::Other)
        } else {
            None
        }
    }

    fn of_name(s: &str) -> (r: Option<DosageForm>)
        ensures
            r == Self::from_name(s@),
    {
        if s.eq("内服") {
            Some(DosageForm::OralAdministration)
        } else if s.eq("内滴") {
            Some(DosageForm::Drop)
        } else if s.eq("頓服") {
            Some(DosageForm::Potion)
        } else if s.eq("注射") {
            Some(DosageForm::Injection)
        } else if s.eq("外用") {
            Some(DosageForm::ExternalUse)
        } else if s.eq("浸煎") {
            Some(DosageForm::Infusodecoction)
        } else if s.eq("湯") {
            Some(DosageForm::Decoction)
        } else if s.eq("材料") {
            Some(DosageForm::Material)
        } else if s.eq("その他") {
            Some(DosageForm::Other)
        } else {
            None
        }
    }
}

impl FromStr for DosageForm {
    type Err = Error;

    /// Reads a dosage form from its code or from one of its names.
    fn from_str(s: &str) -> (r: Result<Self, Self::Err>)
        ensures
            plain_outcome(r) == Self::spec_from_str(s@),
    {
        let found = match read_small_code(s) {
            Some(n) => Self::of_number(n),
            None => Self::of_name(s),
        };
        match found {
            Some(v) => Ok(v),
            None => Err(
                Error::InvalidArgument(framed("Cannot convert str to DosageForm, got \"", s, "\"")),
            ),
        }
    }
}

impl TryFromSpecImpl<u32> for DosageForm {
    /// The contract of `try_from` stands on the method: an error holds its
    /// message as text, which only has a value through its view.
    open spec fn obeys_try_from_spec() -> bool {
        false
    }

    open spec fn try_from_spec(n: u32) -> Result<Self, Error> {
        arbitrary()
    }
}

impl TryFrom<u32> for DosageForm {
    type Error = Error;

    /// Reads a dosage form from its number.
    fn try_from(n: u32) -> (r: Result<Self, Error>)
        ensures
            plain_outcome(r) == Self::spec_try_from(n),
    {
        match Self::of_number(n) {
            Some(v) => Ok(v),
            None => {
                let digits = decimal_string(n as u64);
                Err(
                    Error::InvalidArgument(
                        framed("Cannot convert u32 to DosageForm, got \"", digits.as_str(), "\""),
                    ),
                )
            },
        }
    }
}

/// A dosage form written as its code reads back as itself, and so does its
/// number.
pub proof fn lemma_dosage_form_round_trip(v: DosageForm)
    ensures
        DosageForm::spec_from_str(v.code()) == Ok::<DosageForm, ErrorView>(v),
        DosageForm::spec_try_from(v.number() as u32) == Ok::<DosageForm, ErrorView>(v),
        is_code_text(v.code()),
{
    lemma_decimal_round_trip(v.number());
}

/// Who wrote a record.
#[derive(Debug, Clone, Copy, PartialEq, Eq, Hash, Structural)]
pub enum RecordCreator {
    /// 医療関係者, written `1`.
    MedicalExpert,
    /// 患者等, written `2`.
    Patient,
    /// その他, written `8`.
    Other,
    /// 不明, written `9`.
    Unknown,
}

impl RecordCreator {
    /// The number that stands for this value in a file.
    pub open spec fn number(self) -> nat {
        match self {
            RecordCreator::MedicalExpert => 1,
            RecordCreator::Patient => 2,
            RecordCreator::Other => 8,
            RecordCreator::Unknown => 9,
        }
    }

    /// The value that the number `n` stands for, if there is one.
    pub open spec fn from_number(n: nat) -> Option<RecordCreator> {
        if n == 1 {
            Some(RecordCreator::MedicalExpert)
        } else if n == 2 {
            Some(RecordCreator::Patient)
        } else if n == 8 {
            Some(RecordCreator::Other)
        } else if n == 9 {
            Some(RecordCreator::Unknown)
        } else {
            None
        }
    }

    /// The code in a file: the number in decimal.
    pub open spec fn code(self) -> Seq<char> {
        decimal(self.number())
    }

    /// The label for a reader.
    pub open spec fn label(self) -> Seq<char> {
        match self {
            RecordCreator::MedicalExpert => "医療関係者"@,
            RecordCreator::Patient => "患者等"@,
            RecordCreator::Other => "その他"@,
            RecordCreator::Unknown => "不明"@,
        }
    }

    /// The value that the name `s` stands for, if there is one.
    pub open spec fn from_name(s: Seq<char>) -> Option<RecordCreator> {
        if s == "医療関係者"@ {
            Some(RecordCreator::MedicalExpert)
        } else if s == "患者等"@ || s == "患者など"@ || s == "患者"@ {
            Some(RecordCreator::Patient)
        } else if s == "その他"@ {
            Some(RecordCreator::Other)
        } else if s == "不明"@ {
            Some(RecordCreator::Unknown)
        } else {
            None
        }
    }

    /// What reading the text `s` gives. A short code is looked up by its
    /// number, any other text by name; what is in neither table is refused.
    pub open spec fn spec_from_str(s: Seq<char>) -> Result<RecordCreator, ErrorView> {
        let found = match small_code(s) {
            Some(n) => Self::from_number(n),
            None => Self::from_name(s),
        };
        match found {
            Some(v) => Ok(v),
            None => Err(
                invalid_argument("Cannot convert str to RecordCreator, got \""@ + s + "\""@),
            ),
        }
    }

    /// What reading the number `n` gives.
    pub open spec fn spec_try_from(n: u32) -> Result<RecordCreator, ErrorView> {
        match Self::from_number(n as nat) {
            Some(v) => Ok(v),
            None => Err(
                invalid_argument(
                    "Cannot convert u32 to RecordCreator, got \""@ + decimal(n as nat) + "\""@,
                ),
            ),
        }
    }

    /// The number that stands for this value in a file.
    pub fn as_number(&self) -> (n: u32)
        ensures
            n == self.number(),
    {
        match self {
            RecordCreator::MedicalExpert => 1,
            RecordCreator::Patient => 2,
            RecordCreator::Other => 8,
            RecordCreator::Unknown => 9,
        }
    }

    /// The code in a file.
    pub fn to_code(&self) -> (r: String)
        ensures
            r@ == self.code(),
    {
        decimal_string(self.as_number() as u64)
    }

    /// The label for a reader.
    pub fn to_string(&self) -> (r: String)
        ensures
            r@ == self.label(),
    {
        match self {
            RecordCreator::MedicalExpert => "医療関係者".to_owned(),
            RecordCreator::Patient => "患者等".to_owned(),
            RecordCreator::Other => "その他".to_owned(),
            RecordCreator::Unknown => "不明".to_owned(),
        }
    }

    fn of_number(n: u32) -> (r: Option<RecordCreator>)
        ensures
            r == Self::from_number(n as nat),
    {
        if n == 1 {
            Some(RecordCreator::MedicalExpert)
        } else if n == 2 {
            Some(RecordCreator::Patient)
        } else if n == 8 {
            Some(RecordCreator::Other)
        } else if n == 9 {
            Some(RecordCreator::Unknown)
        } else {
            None
        }
    }

    fn of_name(s: &str) -> (r: Option<RecordCreator>)
        ensures
            r == Self::from_name(s@),
    {
        if s.eq("医療関係者") {
            Some(RecordCreator::MedicalExpert)
        } else if s.eq("患者等") || s.eq("患者など") || s.eq("患者") {
            Some(RecordCreator::Patient)
        } else if s.eq("その他") {
            Some(RecordCreator::Other)
        } else if s.eq("不明") {
            Some(RecordCreator::Unknown)
        } else {
            None
        }
    }
}

impl FromStr for RecordCreator {
    type Err = Error;

    /// Reads a record creator from its code or from one of its names.
    fn from_str(s: &str) -> (r: Result<Self, Self::Err>)
        ensures
            plain_outcome(r) == Self::spec_from_str(s@),
    {
        let found = match read_small_code(s) {
            Some(n) => Self::of_number(n),
            None => Self::of_name(s),
        };
        match found {
            Some(v) => Ok(v),
            None => Err(
                Error::InvalidArgument(
                    framed("Cannot convert str to RecordCreator, got \"", s, "\""),
                ),
            ),
        }
    }
}

impl TryFromSpecImpl<u32> for RecordCreator {
    /// The contract of `try_from` stands on the method: an error holds its
    /// message as text, which only has a value through its view.
    open spec fn obeys_try_from_spec() -> bool {
        false
    }

    open spec fn try_from_spec(n: u32) -> Result<Self, Error> {
        arbitrary()
    }
}

impl TryFrom<u32> for RecordCreator {
    type Error = Error;

    /// Reads a record creator from its number.
    fn try_from(n: u32) -> (r: Result<Self, Error>)
        ensures
            plain_outcome(r) == Self::spec_try_from(n),
    {
        match Self::of_number(n) {
            Some(v) => Ok(v),
            None => {
                let digits = decimal_string(n as u64);
                Err(
                    Error::InvalidArgument(
                        framed(
                            "Cannot convert u32 to RecordCreator, got \"", digits.as_str(), "\"",
                        ),
                    ),
                )
            },
        }
    }
}

/// A record creator written as its code reads back as itself, and so does its
/// number.
pub proof fn lemma_record_creator_round_trip(v: RecordCreator)
    ensures
        RecordCreator::spec_from_str(v.code()) == Ok::<RecordCreator, ErrorView>(v),
        RecordCreator::spec_try_from(v.number() as u32) == Ok::<RecordCreator, ErrorView>(v),
        is_code_text(v.code()),
{
    lemma_decimal_round_trip(v.number());
}

/// The direction in which a notebook file travels.
#[derive(Debug, Clone, Copy, PartialEq, Eq, Hash, Structural)]
pub enum OutputCategory {
    /// 医療機関・薬局から患者等に情報を提供する場合, written `1`.
    ToPatient,
    /// 患者等から医療機関・薬局に情報を提供する場合, written `2`.
    FromPatient,
}

impl OutputCategory {
    /// The number that stands for this value in a file.
    pub open spec fn number(self) -> nat {
        match self {
            OutputCategory::ToPatient => 1,
            OutputCategory::FromPatient => 2,
        }
    }

    /// The value that the number `n` stands for, if there is one.
    pub open spec fn from_number(n: nat) -> Option<OutputCategory> {
        if n == 1 {
            Some(OutputCategory::ToPatient)
        } else if n == 2 {
            Some(OutputCategory::FromPatient)
        } else {
            None
        }
    }

    /// The code in a file: the number in decimal.
    pub open spec fn code(self) -> Seq<char> {
        decimal(self.number())
    }

    /// The label for a reader.
    pub open spec fn label(self) -> Seq<char> {
        match self {
            OutputCategory::ToPatient => "医療機関・薬局から患者等に情報を提供する場合"@,
            OutputCategory::FromPatient => "患者等から医療機関・薬局に情報を提供する場合"@,
        }
    }

    /// The value that the name `s` stands for, if there is one.
    pub open spec fn from_name(s: Seq<char>) -> Option<OutputCategory> {
        None
    }

    /// What reading the text `s` gives. A short code is looked up by its
    /// number, any other text by name; what is in neither table is refused.
    pub open spec fn spec_from_str(s: Seq<char>) -> Result<OutputCategory, ErrorView> {
        let found = match small_code(s) {
            Some(n) => Self::from_number(n),
            None => Self::from_name(s),
        };
        match found {
            Some(v) => Ok(v),
            None => Err(
                invalid_argument("Cannot convert str to OutputCategory, got \""@ + s + "\""@),
            ),
        }
    }

    /// What reading the number `n` gives.
    pub open spec fn spec_try_from(n: u32) -> Result<OutputCategory, ErrorView> {
        match Self::from_number(n as nat) {
            Some(v) => Ok(v),
            None => Err(
                invalid_argument(
                    "Cannot convert u32 to OutputCategory, got \""@ + decimal(n as nat) + "\""@,
                ),
            ),
        }
    }

    /// The number that stands for this value in a file.
    pub fn as_number(&self) -> (n: u32)
        ensures
            n == self.number(),
    {
        match self {
            OutputCategory::ToPatient => 1,
            OutputCategory::FromPatient => 2,
        }
    }

    /// The code in a file.
    pub fn to_code(&self) -> (r: String)
        ensures
            r@ == self.code(),
    {
        decimal_string(self.as_number() as u64)
    }

    /// The label for a reader.
    pub fn to_string(&self) -> (r: String)
        ensures
            r@ == self.label(),
    {
        match self {
            OutputCategory::ToPatient => "医療機関・薬局から患者等に情報を提供する場合".to_owned(),
            OutputCategory::FromPatient => "患者等から医療機関・薬局に情報を提供する場合".to_owned(),
        }
    }

    fn of_number(n: u32) -> (r: Option<OutputCategory>)
        ensures
            r == Self::from_number(n as nat),
    {
        if n == 1 {
            Some(OutputCategory::ToPatient)
        } else if n == 2 {
            Some(OutputCategory::FromPatient)
        } else {
            None
        }
    }

    fn of_name(s: &str) -> (r: Option<OutputCategory>)
        ensures
            r == Self::from_name(s@),
    {
        None
    }
}

impl FromStr for OutputCategory {
    type Err = Error;

    /// Reads a output category from its code or from one of its names.
    fn from_str(s: &str) -> (r: Result<Self, Self::Err>)
        ensures
            plain_outcome(r) == Self::spec_from_str(s@),
    {
        let found = match read_small_code(s) {
            Some(n) => Self::of_number(n),
            None => Self::of_name(s),
        };
        match found {
            Some(v) => Ok(v),
            None => Err(
                Error::InvalidArgument(
                    framed("Cannot convert str to OutputCategory, got \"", s, "\""),
                ),
            ),
        }
    }
}

impl TryFromSpecImpl<u32> for OutputCategory {
    /// The contract of `try_from` stands on the method: an error holds its
    /// message as text, which only has a value through its view.
    open spec fn obeys_try_from_spec() -> bool {
        false
    }

    open spec fn try_from_spec(n: u32) -> Result<Self, Error> {
        arbitrary()
    }
}

impl TryFrom<u32> for OutputCategory {
    type Error = Error;

    /// Reads a output category from its number.
    fn try_from(n: u32) -> (r: Result<Self, Error>)
        ensures
            plain_outcome(r) == Self::spec_try_from(n),
    {
        match Self::of_number(n) {
            Some(v) => Ok(v),
            None => {
                let digits = decimal_string(n as u64);
                Err(
                    Error::InvalidArgument(
                        framed(
                            "Cannot convert u32 to OutputCategory, got \"", digits.as_str(), "\"",
                        ),
                    ),
                )
            },
        }
    }
}

/// A output category written as its code reads back as itself, and so does its
/// number.
pub proof fn lemma_output_category_round_trip(v: OutputCategory)
    ensures
        OutputCategory::spec_from_str(v.code()) == Ok::<OutputCategory, ErrorView>(v),
        OutputCategory::spec_try_from(v.number() as u32) == Ok::<OutputCategory, ErrorView>(v),
        is_code_text(v.code()),
{
    lemma_decimal_round_trip(v.number());
}

/// The gender of a patient.
#[derive(Debug, Clone, Copy, PartialEq, Eq, Hash, Structural)]
pub enum Gender {
    /// 男性, written `1`.
    Male,
    /// 女性, written `2`.
    Female,
}

impl Gender {
    /// The number that stands for this value in a file.
    pub open spec fn number(self) -> nat {
        match self {
            Gender::Male => 1,
            Gender::Female => 2,
        }
    }

    /// The value that the number `n` stands for, if there is one.
    pub open spec fn from_number(n: nat) -> Option<Gender> {
        if n == 1 {
            Some(Gender::Male)
        } else if n == 2 {
            Some(Gender::Female)
        } else {
            None
        }
    }

    /// The code in a file: the number in decimal.
    pub open spec fn code(self) -> Seq<char> {
        decimal(self.number())
    }

    /// The label for a reader.
    pub open spec fn label(self) -> Seq<char> {
        match self {
            Gender::Male => "男性"@,
            Gender::Female => "女性"@,
        }
    }

    /// The value that the name `s` stands for, if there is one.
    pub open spec fn from_name(s: Seq<char>) -> Option<Gender> {
        if s == "男"@ || s == "男性"@ || s == "male"@ {
            Some(Gender::Male)
        } else if s == "女"@ || s == "女性"@ || s == "female"@ {
            Some(Gender::Female)
        } else {
            None
        }
    }

    /// What reading the text `s` gives. A short code is looked up by its
    /// number, any other text by name; what is in neither table is refused.
    pub open spec fn spec_from_str(s: Seq<char>) -> Result<Gender, ErrorView> {
        let found = match small_code(s) {
            Some(n) => Self::from_number(n),
            None => Self::from_name(s),
        };
        match found {
            Some(v) => Ok(v),
            None => Err(invalid_argument("Cannot convert str to Gender, got \""@ + s + "\""@)),
        }
    }

    /// What reading the number `n` gives.
    pub open spec fn spec_try_from(n: u32) -> Result<Gender, ErrorView> {
        match Self::from_number(n as nat) {
            Some(v) => Ok(v),
            None => Err(
                invalid_argument(
                    "Cannot convert u32 to Gender, got \""@ + decimal(n as nat) + "\""@,
                ),
            ),
        }
    }

    /// The number that stands for this value in a file.
    pub fn as_number(&self) -> (n: u32)
        ensures
            n == self.number(),
    {
        match self {
            Gender::Male => 1,
            Gender::Female => 2,
        }
    }

    /// The code in a file.
    pub fn to_code(&self) -> (r: String)
        ensures
            r@ == self.code(),
    {
        decimal_string(self.as_number() as u64)
    }

    /// The label for a reader.
    pub fn to_string(&self) -> (r: String)
        ensures
            r@ == self.label(),
    {
        match self {
            Gender::Male => "男性".to_owned(),
            Gender::Female => "女性".to_owned(),
        }
    }

    fn of_number(n: u32) -> (r: Option<Gender>)
        ensures
            r == Self::from_number(n as nat),
    {
        if n == 1 {
            Some(Gender::Male)
        } else if n == 2 {
            Some(Gender::Female)
        } else {
            None
        }
    }

    fn of_name(s: &str) -> (r: Option<Gender>)
        ensures
            r == Self::from_name(s@),
    {
        if s.eq("男") || s.eq("男性") || s.eq("male") {
            Some(Gender::Male)
        } else if s.eq("女") || s.eq("女性") || s.eq("female") {
            Some(Gender::Female)
        } else {
            None
        }
    }
}

impl FromStr for Gender {
    type Err = Error;

    /// Reads a gender from its code or from one of its names.
    fn from_str(s: &str) -> (r: Result<Self, Self::Err>)
        ensures
            plain_outcome(r) == Self::spec_from_str(s@),
    {
        let found = match read_small_code(s) {
            Some(n) => Self::of_number(n),
            None => Self::of_name(s),
        };
        match found {
            Some(v) => Ok(v),
            None => Err(
                Error::InvalidArgument(framed("Cannot convert str to Gender, got \"", s, "\"")),
            ),
        }
    }
}

impl TryFromSpecImpl<u32> for Gender {
    /// The contract of `try_from` stands on the method: an error holds its
    /// message as text, which only has a value through its view.
    open spec fn obeys_try_from_spec() -> bool {
        false
    }

    open spec fn try_from_spec(n: u32) -> Result<Self, Error> {
        arbitrary()
    }
}

impl TryFrom<u32> for Gender {
    type Error = Error;

    /// Reads a gender from its number.
    fn try_from(n: u32) -> (r: Result<Self, Error>)
        ensures
            plain_outcome(r) == Self::spec_try_from(n),
    {
        match Self::of_number(n) {
            Some(v) => Ok(v),
            None => {
                let digits = decimal_string(n as u64);
                Err(
                    Error::InvalidArgument(
                        framed("Cannot convert u32 to Gender, got \"", digits.as_str(), "\""),
                    ),
                )
            },
        }
    }
}

/// A gender written as its code reads back as itself, and so does its
/// number.
pub proof fn lemma_gender_round_trip(v: Gender)
    ensures
        Gender::spec_from_str(v.code()) == Ok::<Gender, ErrorView>(v),
        Gender::spec_try_from(v.number() as u32) == Ok::<Gender, ErrorView>(v),
        is_code_text(v.code()),
{
    lemma_decimal_round_trip(v.number());
}

/// The kind of a special note on a patient.
#[derive(Debug, Clone, Copy, PartialEq, Eq, Hash, Structural)]
pub enum SpecialPatientNoteCategory {
    /// アレルギー歴, written `1`.
    Allergy,
    /// 副作用歴, written `2`.
    AdverseEvent,
    /// 既往歴, written `3`.
    PastHistory,
    /// その他, written `9`.
    Other,
}

impl SpecialPatientNoteCategory {
    /// The number that stands for this value in a file.
    pub open spec fn number(self) -> nat {
        match self {
            SpecialPatientNoteCategory::Allergy => 1,
            SpecialPatientNoteCategory::AdverseEvent => 2,
            SpecialPatientNoteCategory::PastHistory => 3,
            SpecialPatientNoteCategory::Other => 9,
        }
    }

    /// The value that the number `n` stands for, if there is one.
    pub open spec fn from_number(n: nat) -> Option<SpecialPatientNoteCategory> {
        if n == 1 {
            Some(SpecialPatientNoteCategory::Allergy)
        } else if n == 2 {
            Some(SpecialPatientNoteCategory::AdverseEvent)
        } else if n == 3 {
            Some(SpecialPatientNoteCategory::PastHistory)
        } else if n == 9 {
            Some(SpecialPatientNoteCategory::Other)
        } else {
            None
        }
    }

    /// The code in a file: the number in decimal.
    pub open spec fn code(self) -> Seq<char> {
        decimal(self.number())
    }

    /// The label for a reader.
    pub open spec fn label(self) -> Seq<char> {
        match self {
            SpecialPatientNoteCategory::Allergy => "アレルギー歴"@,
            SpecialPatientNoteCategory::AdverseEvent => "副作用歴"@,
            SpecialPatientNoteCategory::PastHistory => "既往歴"@,
            SpecialPatientNoteCategory::Other => "その他"@,
        }
    }

    /// The value that the name `s` stands for, if there is one.
    pub open spec fn from_name(s: Seq<char>) -> Option<SpecialPatientNoteCategory> {
        if s == "アレルギー歴"@ || s == "アレルギー"@ || s == "allergy"@ {
            Some(SpecialPatientNoteCategory::Allergy)
        } else if s == "副作用歴"@ || s == "副作用"@ || s == "adverse event"@ {
            Some(SpecialPatientNoteCategory::AdverseEvent)
        } else if s == "既往歴"@ || s == "既往"@ || s == "past history"@ {
            Some(SpecialPatientNoteCategory::PastHistory)
        } else if s == "その他"@ || s == "other"@ {
            Some(SpecialPatientNoteCategory::Other)
        } else {
            None
        }
    }

    /// What reading the text `s` gives. A short code is looked up by its
    /// number, any other text by name; what is in neither table is refused.
    pub open spec fn spec_from_str(s: Seq<char>) -> Result<SpecialPatientNoteCategory, ErrorView> {
        let found = match small_code(s) {
            Some(n) => Self::from_number(n),
            None => Self::from_name(s),
        };
        match found {
            Some(v) => Ok(v),
            None => Err(
                invalid_argument(
                    "Cannot convert str to SpecialPatientNoteCategory, got \""@ + s + "\""@,
                ),
            ),
        }
    }

    /// What reading the number `n` gives.
    pub open spec fn spec_try_from(n: u32) -> Result<SpecialPatientNoteCategory, ErrorView> {
        match Self::from_number(n as nat) {
            Some(v) => Ok(v),
            None => Err(
                invalid_argument(
                    "Cannot convert u32 to SpecialPatientNoteCategory, got \""@ + decimal(n as nat)
                        + "\""@,
                ),
            ),
        }
    }

    /// The number that stands for this value in a file.
    pub fn as_number(&self) -> (n: u32)
        ensures
            n == self.number(),
    {
        match self {
            SpecialPatientNoteCategory::Allergy => 1,
            SpecialPatientNoteCategory::AdverseEvent => 2,
            SpecialPatientNoteCategory::PastHistory => 3,
            SpecialPatientNoteCategory::Other => 9,
        }
    }

    /// The code in a file.
    pub fn to_code(&self) -> (r: String)
        ensures
            r@ == self.code(),
    {
        decimal_string(self.as_number() as u64)
    }

    /// The label for a reader.
    pub fn to_string(&self) -> (r: String)
        ensures
            r@ == self.label(),
    {
        match self {
            SpecialPatientNoteCategory::Allergy => "アレルギー歴".to_owned(),
            SpecialPatientNoteCategory::AdverseEvent => "副作用歴".to_owned(),
            SpecialPatientNoteCategory::PastHistory => "既往歴".to_owned(),
            SpecialPatientNoteCategory::Other => "その他".to_owned(),
        }
    }

    fn of_number(n: u32) -> (r: Option<SpecialPatientNoteCategory>)
        ensures
            r == Self::from_number(n as nat),
    {
        if n == 1 {
            Some(SpecialPatientNoteCategory::Allergy)
        } else if n == 2 {
            Some(SpecialPatientNoteCategory::AdverseEvent)
        } else if n == 3 {
            Some(SpecialPatientNoteCategory::PastHistory)
        } else if n == 9 {
            Some(SpecialPatientNoteCategory::Other)
        } else {
            None
        }
    }

    fn of_name(s: &str) -> (r: Option<SpecialPatientNoteCategory>)
        ensures
            r == Self::from_name(s@),
    {
        if s.eq("アレルギー歴") || s.eq("アレルギー") || s.eq("allergy") {
            Some(SpecialPatientNoteCategory::Allergy)
        } else if s.eq("副作用歴") || s.eq("副作用") || s.eq("adverse event") {
            Some(SpecialPatientNoteCategory::AdverseEvent)
        } else if s.eq("既往歴") || s.eq("既往") || s.eq("past history") {
            Some(SpecialPatientNoteCategory::PastHistory)
        } else if s.eq("その他") || s.eq("other") {
            Some(SpecialPatientNoteCategory::Other)
        } else {
            None
        }
    }
}

impl FromStr for SpecialPatientNoteCategory {
    type Err = Error;

    /// Reads a note category from its code or from one of its names.
    fn from_str(s: &str) -> (r: Result<Self, Self::Err>)
        ensures
            plain_outcome(r) == Self::spec_from_str(s@),
    {
        let found = match read_small_code(s) {
            Some(n) => Self::of_number(n),
            None => Self::of_name(s),
        };
        match found {
            Some(v) => Ok(v),
            None => Err(
                Error::InvalidArgument(
                    framed("Cannot convert str to SpecialPatientNoteCategory, got \"", s, "\""),
                ),
            ),
        }
    }
}

impl TryFromSpecImpl<u32> for SpecialPatientNoteCategory {
    /// The contract of `try_from` stands on the method: an error holds its
    /// message as text, which only has a value through its view.
    open spec fn obeys_try_from_spec() -> bool {
        false
    }

    open spec fn try_from_spec(n: u32) -> Result<Self, Error> {
        arbitrary()
    }
}

impl TryFrom<u32> for SpecialPatientNoteCategory {
    type Error = Error;

    /// Reads a note category from its number.
    fn try_from(n: u32) -> (r: Result<Self, Error>)
        ensures
            plain_outcome(r) == Self::spec_try_from(n),
    {
        match Self::of_number(n) {
            Some(v) => Ok(v),
            None => {
                let digits = decimal_string(n as u64);
                Err(
                    Error::InvalidArgument(
                        framed(
                            "Cannot convert u32 to SpecialPatientNoteCategory, got \"",
                            digits.as_str(),
                            "\"",
                        ),
                    ),
                )
            },
        }
    }
}

/// A note category written as its code reads back as itself, and so does its
/// number.
pub proof fn lemma_special_patient_note_category_round_trip(v: SpecialPatientNoteCategory)
    ensures
        SpecialPatientNoteCategory::spec_from_str(v.code()) == Ok::<
            SpecialPatientNoteCategory,
            ErrorView,
        >(v),
        SpecialPatientNoteCategory::spec_try_from(v.number() as u32) == Ok::<
            SpecialPatientNoteCategory,
            ErrorView,
        >(v),
        is_code_text(v.code()),
{
    lemma_decimal_round_trip(v.number());
}

/// The code system of a drug code.
#[derive(Debug, Clone, Copy, PartialEq, Eq, Hash, Structural)]
pub enum DrugCodeType {
    /// コードなし, written `1`.
    NoCode,
    /// レセプト電算コード, written `2`.
    Receipt,
    /// 厚労省コード, written `3`.
    Mhlw,
    /// YJコード, written `4`.
    Yj,
    /// HOTコード, written `6`.
    Hot,
}

impl DrugCodeType {
    /// The number that stands for this value in a file.
    pub open spec fn number(self) -> nat {
        match self {
            DrugCodeType::NoCode => 1,
            DrugCodeType::Receipt => 2,
            DrugCodeType::Mhlw => 3,
            DrugCodeType::Yj => 4,
            DrugCodeType::Hot => 6,
        }
    }

    /// The value that the number `n` stands for, if there is one.
    pub open spec fn from_number(n: nat) -> Option<DrugCodeType> {
        if n == 1 {
            Some(DrugCodeType::NoCode)
        } else if n == 2 {
            Some(DrugCodeType::Receipt)
        } else if n == 3 {
            Some(DrugCodeType::Mhlw)
        } else if n == 4 {
            Some(DrugCodeType::Yj)
        } else if n == 6 {
            Some(DrugCodeType::Hot)
        } else {
            None
        }
    }

    /// The code in a file: the number in decimal.
    pub open spec fn code(self) -> Seq<char> {
        decimal(self.number())
    }

    /// The label for a reader.
    pub open spec fn label(self) -> Seq<char> {
        match self {
            DrugCodeType::NoCode => "コードなし"@,
            DrugCodeType::Receipt => "レセプト電算コード"@,
            DrugCodeType::Mhlw => "厚労省コード"@,
            DrugCodeType::Yj => "YJコード"@,
            DrugCodeType::Hot => "HOTコード"@,
        }
    }

    /// The value that the name `s` stands for, if there is one.
    pub open spec fn from_name(s: Seq<char>) -> Option<DrugCodeType> {
        if s == "コードなし"@ || s == "none"@ {
            Some(DrugCodeType::NoCode)
        } else if s == "レセプト電算コード"@ || s == "レセプト"@ || s == "receipt"@ {
            Some(DrugCodeType::Receipt)
        } else if s == "厚労省コード"@ || s == "厚生労働省コード"@ || s == "厚労省"@ || s == "厚生労働省"@
            || s == "MHLW"@ {
            Some(DrugCodeType::Mhlw)
        } else if s == "YJコード"@ || s == "YJ"@ {
            Some(DrugCodeType::Yj)
        } else if s == "HOTコード"@ || s == "HOT"@ {
            Some(DrugCodeType::Hot)
        } else {
            None
        }
    }

    /// What reading the text `s` gives. A short code is looked up by its
    /// number, any other text by name; what is in neither table is refused.
    pub open spec fn spec_from_str(s: Seq<char>) -> Result<DrugCodeType, ErrorView> {
        let found = match small_code(s) {
            Some(n) => Self::from_number(n),
            None => Self::from_name(s),
        };
        match found {
            Some(v) => Ok(v),
            None => Err(
                invalid_argument("Cannot convert str to DrugCodeType, got \""@ + s + "\""@),
            ),
        }
    }

    /// What reading the number `n` gives.
    pub open spec fn spec_try_from(n: u32) -> Result<DrugCodeType, ErrorView> {
        match Self::from_number(n as nat) {
            Some(v) => Ok(v),
            None => Err(
                invalid_argument(
                    "Cannot convert u32 to DrugCodeType, got \""@ + decimal(n as nat) + "\""@,
                ),
            ),
        }
    }

    /// The number that stands for this value in a file.
    pub fn as_number(&self) -> (n: u32)
        ensures
            n == self.number(),
    {
        match self {
            DrugCodeType::NoCode => 1,
            DrugCodeType::Receipt => 2,
            DrugCodeType::Mhlw => 3,
            DrugCodeType::Yj => 4,
            DrugCodeType::Hot => 6,
        }
    }

    /// The code in a file.
    pub fn to_code(&self) -> (r: String)
        ensures
            r@ == self.code(),
    {
        decimal_string(self.as_number() as u64)
    }

    /// The label for a reader.
    pub fn to_string(&self) -> (r: String)
        ensures
            r@ == self.label(),
    {
        match self {
            DrugCodeType::NoCode => "コードなし".to_owned(),
            DrugCodeType::Receipt => "レセプト電算コード".to_owned(),
            DrugCodeType::Mhlw => "厚労省コード".to_owned(),
            DrugCodeType::Yj => "YJコード".to_owned(),
            DrugCodeType::Hot => "HOTコード".to_owned(),
        }
    }

    fn of_number(n: u32) -> (r: Option<DrugCodeType>)
        ensures
            r == Self::from_number(n as nat),
    {
        if n == 1 {
            Some(DrugCodeType::NoCode)
        } else if n == 2 {
            Some(DrugCodeType::Receipt)
        } else if n == 3 {
            Some(DrugCodeType::Mhlw)
        } else if n == 4 {
            Some(DrugCodeType::Yj)
        } else if n == 6 {
            Some(DrugCodeType::Hot)
        } else {
            None
        }
    }

    fn of_name(s: &str) -> (r: Option<DrugCodeType>)
        ensures
            r == Self::from_name(s@),
    {
        if s.eq("コードなし") || s.eq("none") {
            Some(DrugCodeType::NoCode)
        } else if s.eq("レセプト電算コード") || s.eq("レセプト") || s.eq("receipt") {
            Some(DrugCodeType::Receipt)
        } else if s.eq("厚労省コード") || s.eq("厚生労働省コード") || s.eq("厚労省") || s.eq("厚生労働省") || s.eq(
            "MHLW",
        ) {
            Some(DrugCodeType::Mhlw)
        } else if s.eq("YJコード") || s.eq("YJ") {
            Some(DrugCodeType::Yj)
        } else if s.eq("HOTコード") || s.eq("HOT") {
            Some(DrugCodeType::Hot)
        } else {
            None
        }
    }
}

impl FromStr for DrugCodeType {
    type Err = Error;

    /// Reads a drug code type from its code or from one of its names.
    fn from_str(s: &str) -> (r: Result<Self, Self::Err>)
        ensures
            plain_outcome(r) == Self::spec_from_str(s@),
    {
        let found = match read_small_code(s) {
            Some(n) => Self::of_number(n),
            None => Self::of_name(s),
        };
        match found {
            Some(v) => Ok(v),
            None => Err(
                Error::InvalidArgument(
                    framed("Cannot convert str to DrugCodeType, got \"", s, "\""),
                ),
            ),
        }
    }
}

impl TryFromSpecImpl<u32> for DrugCodeType {
    /// The contract of `try_from` stands on the method: an error holds its
    /// message as text, which only has a value through its view.
    open spec fn obeys_try_from_spec() -> bool {
        false
    }

    open spec fn try_from_spec(n: u32) -> Result<Self, Error> {
        arbitrary()
    }
}

impl TryFrom<u32> for DrugCodeType {
    type Error = Error;

    /// Reads a drug code type from its number.
    fn try_from(n: u32) -> (r: Result<Self, Error>)
        ensures
            plain_outcome(r) == Self::spec_try_from(n),
    {
        match Self::of_number(n) {
            Some(v) => Ok(v),
            None => {
                let digits = decimal_string(n as u64);
                Err(
                    Error::InvalidArgument(
                        framed("Cannot convert u32 to DrugCodeType, got \"", digits.as_str(), "\""),
                    ),
                )
            },
        }
    }
}

/// A drug code type written as its code reads back as itself, and so does its
/// number.
pub proof fn lemma_drug_code_type_round_trip(v: DrugCodeType)
    ensures
        DrugCodeType::spec_from_str(v.code()) == Ok::<DrugCodeType, ErrorView>(v),
        DrugCodeType::spec_try_from(v.number() as u32) == Ok::<DrugCodeType, ErrorView>(v),
        is_code_text(v.code()),
{
    lemma_decimal_round_trip(v.number());
}

/// The code system of a usage code.
#[derive(Debug, Clone, Copy, PartialEq, Eq, Hash, Structural)]
pub enum UsageCodeType {
    /// コードなし, written `1`.
    NoCode,
    /// JAMI用法コード, written `2`.
    Jami,
}

impl UsageCodeType {
    /// The number that stands for this value in a file.
    pub open spec fn number(self) -> nat {
        match self {
            UsageCodeType::NoCode => 1,
            UsageCodeType::Jami => 2,
        }
    }

    /// The value that the number `n` stands for, if there is one.
    pub open spec fn from_number(n: nat) -> Option<UsageCodeType> {
        if n == 1 {
            Some(UsageCodeType::NoCode)
        } else if n == 2 {
            Some(UsageCodeType::Jami)
        } else {
            None
        }
    }

    /// The code in a file: the number in decimal.
    pub open spec fn code(self) -> Seq<char> {
        decimal(self.number())
    }

    /// The label for a reader.
    pub open spec fn label(self) -> Seq<char> {
        match self {
            UsageCodeType::NoCode => "コードなし"@,
            UsageCodeType::Jami => "JAMI用法コード"@,
        }
    }

    /// The value that the name `s` stands for, if there is one.
    pub open spec fn from_name(s: Seq<char>) -> Option<UsageCodeType> {
        if s == "コードなし"@ || s == "none"@ {
            Some(UsageCodeType::NoCode)
        } else if s == "JAMI用法コード"@ || s == "JAMIコード"@ || s == "JAMI"@ {
            Some(UsageCodeType::Jami)
        } else {
            None
        }
    }

    /// What reading the text `s` gives. A short code is looked up by its
    /// number, any other text by name; what is in neither table is refused.
    pub open spec fn spec_from_str(s: Seq<char>) -> Result<UsageCodeType, ErrorView> {
        let found = match small_code(s) {
            Some(n) => Self::from_number(n),
            None => Self::from_name(s),
        };
        match found {
            Some(v) => Ok(v),
            None => Err(
                invalid_argument("Cannot convert str to UsageCodeType, got \""@ + s + "\""@),
            ),
        }
    }

    /// What reading the number `n` gives.
    pub open spec fn spec_try_from(n: u32) -> Result<UsageCodeType, ErrorView> {
        match Self::from_number(n as nat) {
            Some(v) => Ok(v),
            None => Err(
                invalid_argument(
                    "Cannot convert u32 to UsageCodeType, got \""@ + decimal(n as nat) + "\""@,
                ),
            ),
        }
    }

    /// The number that stands for this value in a file.
    pub fn as_number(&self) -> (n: u32)
        ensures
            n == self.number(),
    {
        match self {
            UsageCodeType::NoCode => 1,
            UsageCodeType::Jami => 2,
        }
    }

    /// The code in a file.
    pub fn to_code(&self) -> (r: String)
        ensures
            r@ == self.code(),
    {
        decimal_string(self.as_number() as u64)
    }

    /// The label for a reader.
    pub fn to_string(&self) -> (r: String)
        ensures
            r@ == self.label(),
    {
        match self {
            UsageCodeType::NoCode => "コードなし".to_owned(),
            UsageCodeType::Jami => "JAMI用法コード".to_owned(),
        }
    }

    fn of_number(n: u32) -> (r: Option<UsageCodeType>)
        ensures
            r == Self::from_number(n as nat),
    {
        if n == 1 {
            Some(UsageCodeType::NoCode)
        } else if n == 2 {
            Some(UsageCodeType::Jami)
        } else {
            None
        }
    }

    fn of_name(s: &str) -> (r: Option<UsageCodeType>)
        ensures
            r == Self::from_name(s@),
    {
        if s.eq("コードなし") || s.eq("none") {
            Some(UsageCodeType::NoCode)
        } else if s.eq("JAMI用法コード") || s.eq("JAMIコード") || s.eq("JAMI") {
            Some(UsageCodeType::Jami)
        } else {
            None
        }
    }
}

impl FromStr for UsageCodeType {
    type Err = Error;

    /// Reads a usage code type from its code or from one of its names.
    fn from_str(s: &str) -> (r: Result<Self, Self::Err>)
        ensures
            plain_outcome(r) == Self::spec_from_str(s@),
    {
        let found = match read_small_code(s) {
            Some(n) => Self::of_number(n),
            None => Self::of_name(s),
        };
        match found {
            Some(v) => Ok(v),
            None => Err(
                Error::InvalidArgument(
                    framed("Cannot convert str to UsageCodeType, got \"", s, "\""),
                ),
            ),
        }
    }
}

impl TryFromSpecImpl<u32> for UsageCodeType {
    /// The contract of `try_from` stands on the method: an error holds its
    /// message as text, which only has a value through its view.
    open spec fn obeys_try_from_spec() -> bool {
        false
    }

    open spec fn try_from_spec(n: u32) -> Result<Self, Error> {
        arbitrary()
    }
}

impl TryFrom<u32> for UsageCodeType {
    type Error = Error;

    /// Reads a usage code type from its number.
    fn try_from(n: u32) -> (r: Result<Self, Error>)
        ensures
            plain_outcome(r) == Self::spec_try_from(n),
    {
        match Self::of_number(n) {
            Some(v) => Ok(v),
            None => {
                let digits = decimal_string(n as u64);
                Err(
                    Error::InvalidArgument(
                        framed(
                            "Cannot convert u32 to UsageCodeType, got \"", digits.as_str(), "\"",
                        ),
                    ),
                )
            },
        }
    }
}

/// A usage code type written as its code reads back as itself, and so does its
/// number.
pub proof fn lemma_usage_code_type_round_trip(v: UsageCodeType)
    ensures
        UsageCodeType::spec_from_str(v.code()) == Ok::<UsageCodeType, ErrorView>(v),
        UsageCodeType::spec_try_from(v.number() as u32) == Ok::<UsageCodeType, ErrorView>(v),
        is_code_text(v.code()),
{
    lemma_decimal_round_trip(v.number());
}

/// The kind of information that an institution provides.
#[derive(Debug, Clone, Copy, PartialEq, Eq, Hash, Structural)]
pub enum ProvidedInformationType {
    /// 入院中に副作用が発現した薬剤に関する情報, written `30`.
    AdverseEventInHospital,
    /// 退院後の療養を担う保険医療機関での投薬又は保険薬局での調剤に必要な服薬の状況及び投薬上の工夫に関する情報, written `31`.
    PostDischargeCare,
    /// その他, written `99`.
    Other,
}

impl ProvidedInformationType {
    /// The number that stands for this value in a file.
    pub open spec fn number(self) -> nat {
        match self {
            ProvidedInformationType::AdverseEventInHospital => 30,
            ProvidedInformationType::PostDischargeCare => 31,
            ProvidedInformationType::Other => 99,
        }
    }

    /// The value that the number `n` stands for, if there is one.
    pub open spec fn from_number(n: nat) -> Option<ProvidedInformationType> {
        if n == 30 {
            Some(ProvidedInformationType::AdverseEventInHospital)
        } else if n == 31 {
            Some(ProvidedInformationType::PostDischargeCare)
        } else if n == 99 {
            Some(ProvidedInformationType::Other)
        } else {
            None
        }
    }

    /// The code in a file: the number in decimal.
    pub open spec fn code(self) -> Seq<char> {
        decimal(self.number())
    }

    /// The label for a reader.
    pub open spec fn label(self) -> Seq<char> {
        match self {
            ProvidedInformationType::AdverseEventInHospital => "入院中に副作用が発現した薬剤に関する情報"@,
            ProvidedInformationType::PostDischargeCare => "退院後の療養を担う保険医療機関での投薬又は保険薬局での調剤に必要な服薬の状況及び投薬上の工夫に関する情報"@,
            ProvidedInformationType::Other => "その他"@,
        }
    }

    /// The value that the name `s` stands for, if there is one.
    pub open spec fn from_name(s: Seq<char>) -> Option<ProvidedInformationType> {
        None
    }

    /// What reading the text `s` gives. A short code is looked up by its
    /// number, any other text by name; what is in neither table is refused.
    pub open spec fn spec_from_str(s: Seq<char>) -> Result<ProvidedInformationType, ErrorView> {
        let found = match small_code(s) {
            Some(n) => Self::from_number(n),
            None => Self::from_name(s),
        };
        match found {
            Some(v) => Ok(v),
            None => Err(
                invalid_argument(
                    "Cannot convert str to ProvidedInformationType, got \""@ + s + "\""@,
                ),
            ),
        }
    }

    /// What reading the number `n` gives.
    pub open spec fn spec_try_from(n: u32) -> Result<ProvidedInformationType, ErrorView> {
        match Self::from_number(n as nat) {
            Some(v) => Ok(v),
            None => Err(
                invalid_argument(
                    "Cannot convert u32 to ProvidedInformationType, got \""@ + decimal(n as nat)
                        + "\""@,
                ),
            ),
        }
    }

    /// The number that stands for this value in a file.
    pub fn as_number(&self) -> (n: u32)
        ensures
            n == self.number(),
    {
        match self {
            ProvidedInformationType::AdverseEventInHospital => 30,
            ProvidedInformationType::PostDischargeCare => 31,
            ProvidedInformationType::Other => 99,
        }
    }

    /// The code in a file.
    pub fn to_code(&self) -> (r: String)
        ensures
            r@ == self.code(),
    {
        decimal_string(self.as_number() as u64)
    }

    /// The label for a reader.
    pub fn to_string(&self) -> (r: String)
        ensures
            r@ == self.label(),
    {
        match self {
            ProvidedInformationType::AdverseEventInHospital => "入院中に副作用が発現した薬剤に関する情報".to_owned(),
            ProvidedInformationType::PostDischargeCare => "退院後の療養を担う保険医療機関での投薬又は保険薬局での調剤に必要な服薬の状況及び投薬上の工夫に関する情報".to_owned(
            ),
            ProvidedInformationType::Other => "その他".to_owned(),
        }
    }

    fn of_number(n: u32) -> (r: Option<ProvidedInformationType>)
        ensures
            r == Self::from_number(n as nat),
    {
        if n == 30 {
            Some(ProvidedInformationType::AdverseEventInHospital)
        } else if n == 31 {
            Some(ProvidedInformationType::PostDischargeCare)
        } else if n == 99 {
            Some(ProvidedInformationType::Other)
        } else {
            None
        }
    }

    fn of_name(s: &str) -> (r: Option<ProvidedInformationType>)
        ensures
            r == Self::from_name(s@),
    {
        None
    }
}

impl FromStr for ProvidedInformationType {
    type Err = Error;

    /// Reads a information type from its code or from one of its names.
    fn from_str(s: &str) -> (r: Result<Self, Self::Err>)
        ensures
            plain_outcome(r) == Self::spec_from_str(s@),
    {
        let found = match read_small_code(s) {
            Some(n) => Self::of_number(n),
            None => Self::of_name(s),
        };
        match found {
            Some(v) => Ok(v),
            None => Err(
                Error::InvalidArgument(
                    framed("Cannot convert str to ProvidedInformationType, got \"", s, "\""),
                ),
            ),
        }
    }
}

impl TryFromSpecImpl<u32> for ProvidedInformationType {
    /// The contract of `try_from` stands on the method: an error holds its
    /// message as text, which only has a value through its view.
    open spec fn obeys_try_from_spec() -> bool {
        false
    }

    open spec fn try_from_spec(n: u32) -> Result<Self, Error> {
        arbitrary()
    }
}

impl TryFrom<u32> for ProvidedInformationType {
    type Error = Error;

    /// Reads a information type from its number.
    fn try_from(n: u32) -> (r: Result<Self, Error>)
        ensures
            plain_outcome(r) == Self::spec_try_from(n),
    {
        match Self::of_number(n) {
            Some(v) => Ok(v),
            None => {
                let digits = decimal_string(n as u64);
                Err(
                    Error::InvalidArgument(
                        framed(
                            "Cannot convert u32 to ProvidedInformationType, got \"",
                            digits.as_str(),
                            "\"",
                        ),
                    ),
                )
            },
        }
    }
}

/// A information type written as its code reads back as itself, and so does its
/// number.
pub proof fn lemma_provided_information_type_round_trip(v: ProvidedInformationType)
    ensures
        ProvidedInformationType::spec_from_str(v.code()) == Ok::<
            ProvidedInformationType,
            ErrorView,
        >(v),
        ProvidedInformationType::spec_try_from(v.number() as u32) == Ok::<
            ProvidedInformationType,
            ErrorView,
        >(v),
        is_code_text(v.code()),
{
    lemma_decimal_round_trip(v.number());
}
} // verus!
