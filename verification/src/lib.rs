//! Reading and writing the JAHIS electronic medicine notebook format.
//!
//! A notebook is a stream of comma-separated record lines. The modules below
//! go from the characters up: text and numbers, the value domains, the record
//! lines, and the blocks that group them. What holds of reading and writing
//! together is stated and proved in `laws`.

pub mod codes;
pub mod date;
pub mod dispensing_block;
pub mod dispensing_records;
pub mod drug_block;
pub mod drug_records;
pub mod error;
pub mod gengo;
pub mod laws;
pub mod notebook;
pub mod number;
pub mod patient_records;
pub mod prefecture;
pub mod prescription_block;
pub mod record;
pub mod remark_records;
pub mod rp_block;
pub mod text;
pub mod usage_records;
pub mod version;

pub use codes::{
    DosageForm, DrugCodeType, FeeTable, Gender, OutputCategory, ProvidedInformationType,
    RecordCreator, SpecialPatientNoteCategory, UsageCodeType,
};
pub use date::Date;
pub use dispensing_block::DispensingInformationBlock;
pub use dispensing_records::{
    DateRecord, MedicalInstitutionRecord, PharmacistRecord, PharmacyRecord, PhysicianRecord,
};
pub use drug_block::DrugBlock;
pub use drug_records::{DrugNoticeRecord, DrugRecord, DrugSupplementaryRecord};
pub use error::{Error, ErrorKind};
pub use gengo::{Era, GengoYear};
pub use notebook::MedicineNotebook;
pub use patient_records::{MemoRecord, OtcDrugRecord, PatientRecord, SpecialPatientNoteRecord};
pub use prefecture::Prefecture;
pub use prescription_block::PrescriptionBlock;
pub use record::Record;
pub use remark_records::{
    FamilyPharmacistRecord, FromPatientRecord, InformationProvisionRecord, NoteRecord,
    NoticeRecord,
};
pub use rp_block::RpBlock;
pub use usage_records::{RpNoticeRecord, UsageRecord, UsageSupplementaryRecord};
pub use version::VersionRecord;
