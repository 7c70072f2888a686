use jahis::codes::{
    DrugCodeType, Gender, OutputCategory, ProvidedInformationType, RecordCreator,
    SpecialPatientNoteCategory,
};
use jahis::date::Date;
use jahis::dispensing_records::{
    DateRecord, MedicalInstitutionRecord, PharmacistRecord, PharmacyRecord, PhysicianRecord,
};
use jahis::drug_records::{DrugNoticeRecord, DrugRecord, DrugSupplementaryRecord};
use jahis::error::Error;
use jahis::gengo::GengoYear;
use jahis::patient_records::{MemoRecord, OtcDrugRecord, PatientRecord, SpecialPatientNoteRecord};
use jahis::prefecture::Prefecture;
use jahis::record::Record;
use jahis::remark_records::{
    FamilyPharmacistRecord, FromPatientRecord, InformationProvisionRecord, NoteRecord,
    NoticeRecord,
};
use jahis::usage_records::{RpNoticeRecord, UsageRecord, UsageSupplementaryRecord};
use jahis::version::VersionRecord;
use std::str::FromStr;

#[test]
fn version_record_line() {
    let v = VersionRecord::from_str("JAHISTC06,1").unwrap();
    assert_eq!(v, VersionRecord::new(6, OutputCategory::ToPatient));
    assert_eq!(v.to_code(), "JAHISTC06,1");
    assert_eq!(VersionRecord::default().to_code(), "JAHISTC06,1");
    assert_eq!(VersionRecord::new(12, OutputCategory::FromPatient).to_code(), "JAHISTC12,2");
    assert!(matches!(VersionRecord::from_str("JAHISTC6,1"), Err(Error::InvalidRecordLine(_))));
    assert!(matches!(VersionRecord::from_str("JAHISTC06,3"), Err(Error::InvalidArgument(_))));
    assert!(matches!(VersionRecord::from_str("JAHISTD06,1"), Err(Error::InvalidRecordLine(_))));
}

#[test]
fn patient_record_line() {
    let line = "1,山田太郎,1,19800101,,,,,,,";
    let p = PatientRecord::from_str(line).unwrap();
    assert_eq!(p.name, "山田太郎");
    assert_eq!(p.gender, Gender::Male);
    assert_eq!(p.day_of_birth, Date::Seireki { year: 1980, month: 1, day: 1 });
    assert_eq!(p.zip_code, None);
    assert_eq!(p.address, None);
    assert_eq!(p.telephone, None);
    assert_eq!(p.emergency_contact_information, None);
    assert_eq!(p.blood_type, None);
    assert_eq!(p.body_weight, None);
    assert_eq!(p.name_in_kana, None);
    assert_eq!(p.to_code(), line);
    assert_eq!(p.record_number(), 1);
    assert_eq!(p.cols(), 10);
}

#[test]
fn patient_record_with_everything() {
    let line = "1,山田花子,2,S550303,100-0001,東京都千代田区,03-0000-0000,090-0000-0000,A,52.5,ヤマダハナコ";
    let p = PatientRecord::from_str(line).unwrap();
    assert_eq!(p.gender, Gender::Female);
    assert_eq!(
        p.day_of_birth,
        Date::Wareki { gengo_year: GengoYear::Showa(55), month: 3, day: 3 }
    );
    assert_eq!(p.body_weight, Some("52.5".to_string()));
    assert_eq!(p.name_in_kana, Some("ヤマダハナコ".to_string()));
    assert_eq!(p.to_code(), line);
}

#[test]
fn patient_body_weight_shapes() {
    for w in ["60", "60.", "60.25", ".5"] {
        let line = format!("1,a,1,19800101,,,,,,{},", w);
        let p = PatientRecord::from_str(&line).unwrap();
        assert_eq!(p.body_weight, Some(w.to_string()));
        assert_eq!(p.body_weight.as_ref().unwrap().parse::<f32>().is_ok(), true);
    }
    for w in [".", "1.2.3", "6o", "-1", "１"] {
        let line = format!("1,a,1,19800101,,,,,,{},", w);
        assert!(matches!(PatientRecord::from_str(&line), Err(Error::InvalidRecordLine(_))));
    }
}

#[test]
fn record_line_with_wrong_tag_or_shape() {
    assert!(matches!(NoteRecord::from_str("401,x,1"), Err(Error::InvalidRecordLine(_))));
    assert!(matches!(NoteRecord::from_str("501,x"), Err(Error::InvalidRecordLine(_))));
    assert!(matches!(NoteRecord::from_str("501,x,1,"), Err(Error::InvalidRecordLine(_))));
    assert!(matches!(NoteRecord::from_str("0501,x,1"), Err(Error::InvalidRecordLine(_))));
    assert!(matches!(NoteRecord::from_str(""), Err(Error::InvalidRecordLine(_))));
    assert_eq!(
        NoteRecord::from_str("501,x,1"),
        Ok(NoteRecord::new("x".to_string(), RecordCreator::MedicalExpert))
    );
}

#[test]
fn child_errors_come_back_unchanged() {
    assert!(matches!(NoteRecord::from_str("501,x,5"), Err(Error::InvalidArgument(_))));
    assert!(matches!(DateRecord::from_str("5,X010203,1"), Err(Error::InvalidArgument(_))));
    assert!(matches!(
        DrugSupplementaryRecord::from_str("281,99999999999,x,1"),
        Err(Error::ParseIntError(_))
    ));
    assert!(matches!(DrugRecord::from_str("201,1,a,b,c,,,1"), Err(Error::InvalidArgument(_))));
}

#[test]
fn digit_class_reaches_beyond_ascii() {
    // A full-width digit is a digit to the line's shape, but no number.
    assert!(matches!(
        DrugSupplementaryRecord::from_str("281,１,x,1"),
        Err(Error::ParseIntError(_))
    ));
    // A kanji numeral is no digit at all.
    assert!(matches!(
        DrugSupplementaryRecord::from_str("281,一,x,1"),
        Err(Error::InvalidRecordLine(_))
    ));
    assert!(matches!(
        DrugSupplementaryRecord::from_str("281,a,x,1"),
        Err(Error::InvalidRecordLine(_))
    ));
}

#[test]
fn word_class_reaches_beyond_ascii() {
    // A kanji is a word character: the line has the shape, the date is refused.
    assert!(matches!(DateRecord::from_str("5,令010203,1"), Err(Error::InvalidArgument(_))));
    // A punctuation mark is none: the line is refused.
    assert!(matches!(DateRecord::from_str("5,。010203,1"), Err(Error::InvalidRecordLine(_))));
    assert!(matches!(DateRecord::from_str("5,-010203,1"), Err(Error::InvalidRecordLine(_))));
    assert!(matches!(DateRecord::from_str("5,_010203,1"), Err(Error::InvalidArgument(_))));
}

#[test]
fn from_patient_record_date_is_optional_by_itself() {
    let r = FromPatientRecord::from_str("601,,20200101").unwrap();
    assert_eq!(r.content, "");
    assert_eq!(r.created_at, Some(Date::Seireki { year: 2020, month: 1, day: 1 }));
    let r = FromPatientRecord::from_str("601,memo,").unwrap();
    assert_eq!(r.content, "memo");
    assert_eq!(r.created_at, None);
    assert_eq!(r.to_code(), "601,memo,");
}

#[test]
fn default_records_round_trip() {
    assert_eq!(PatientRecord::default().to_code(), "1,,1,19700101,,,,,,,");
    assert_eq!(PatientRecord::from_str("1,,1,19700101,,,,,,,"), Ok(PatientRecord::default()));
    assert_eq!(SpecialPatientNoteRecord::default().to_code(), "2,9,,9");
    assert_eq!(
        SpecialPatientNoteRecord::from_str("2,9,,9"),
        Ok(SpecialPatientNoteRecord::default())
    );
    assert_eq!(OtcDrugRecord::default().to_code(), "3,,,,9");
    assert_eq!(OtcDrugRecord::from_str("3,,,,9"), Ok(OtcDrugRecord::default()));
    assert_eq!(MemoRecord::default().to_code(), "4,,,9");
    assert_eq!(MemoRecord::from_str("4,,,9"), Ok(MemoRecord::default()));
    assert_eq!(DateRecord::default().to_code(), "5,19700101,9");
    assert_eq!(DateRecord::from_str("5,19700101,9"), Ok(DateRecord::default()));
    assert_eq!(PharmacyRecord::default().to_code(), "11,,,,,,,,9");
    assert_eq!(PharmacyRecord::from_str("11,,,,,,,,9"), Ok(PharmacyRecord::default()));
    assert_eq!(PharmacistRecord::default().to_code(), "15,,,9");
    assert_eq!(PharmacistRecord::from_str("15,,,9"), Ok(PharmacistRecord::default()));
    assert_eq!(MedicalInstitutionRecord::default().to_code(), "51,,,,,9");
    assert_eq!(
        MedicalInstitutionRecord::from_str("51,,,,,9"),
        Ok(MedicalInstitutionRecord::default())
    );
    assert_eq!(PhysicianRecord::default().to_code(), "55,,,9");
    assert_eq!(PhysicianRecord::from_str("55,,,9"), Ok(PhysicianRecord::default()));
    assert_eq!(DrugRecord::default().to_code(), "201,1,,,,1,,9");
    assert_eq!(DrugRecord::from_str("201,1,,,,1,,9"), Ok(DrugRecord::default()));
    assert_eq!(DrugSupplementaryRecord::default().to_code(), "281,1,,9");
    assert_eq!(
        DrugSupplementaryRecord::from_str("281,1,,9"),
        Ok(DrugSupplementaryRecord::default())
    );
    assert_eq!(DrugNoticeRecord::default().to_code(), "291,1,,9");
    assert_eq!(DrugNoticeRecord::from_str("291,1,,9"), Ok(DrugNoticeRecord::default()));
    assert_eq!(UsageRecord::default().to_code(), "301,1,,,,,,,9");
    assert_eq!(UsageRecord::from_str("301,1,,,,,,,9"), Ok(UsageRecord::default()));
    assert_eq!(UsageSupplementaryRecord::default().to_code(), "311,1,,9");
    assert_eq!(
        UsageSupplementaryRecord::from_str("311,1,,9"),
        Ok(UsageSupplementaryRecord::default())
    );
    assert_eq!(RpNoticeRecord::default().to_code(), "391,1,,9");
    assert_eq!(RpNoticeRecord::from_str("391,1,,9"), Ok(RpNoticeRecord::default()));
    assert_eq!(NoticeRecord::default().to_code(), "401,,9");
    assert_eq!(NoticeRecord::from_str("401,,9"), Ok(NoticeRecord::default()));
    assert_eq!(InformationProvisionRecord::default().to_code(), "411,,99,9");
    assert_eq!(
        InformationProvisionRecord::from_str("411,,99,9"),
        Ok(InformationProvisionRecord::default())
    );
    assert_eq!(NoteRecord::default().to_code(), "501,,9");
    assert_eq!(NoteRecord::from_str("501,,9"), Ok(NoteRecord::default()));
    assert_eq!(FromPatientRecord::default().to_code(), "601,,");
    assert_eq!(FromPatientRecord::from_str("601,,"), Ok(FromPatientRecord::default()));
    assert_eq!(FamilyPharmacistRecord::default().to_code(), "701,,,,,,9");
    assert_eq!(
        FamilyPharmacistRecord::from_str("701,,,,,,9"),
        Ok(FamilyPharmacistRecord::default())
    );
}

#[test]
fn record_numbers_and_field_counts() {
    assert_eq!(
        (SpecialPatientNoteRecord::default().record_number(), SpecialPatientNoteRecord::default().cols()),
        (2, 3)
    );
    assert_eq!((OtcDrugRecord::default().record_number(), OtcDrugRecord::default().cols()), (3, 4));
    assert_eq!((MemoRecord::default().record_number(), MemoRecord::default().cols()), (4, 3));
    assert_eq!((DateRecord::default().record_number(), DateRecord::default().cols()), (5, 2));
    assert_eq!(
        (PharmacyRecord::default().record_number(), PharmacyRecord::default().cols()),
        (11, 8)
    );
    assert_eq!(
        (PharmacistRecord::default().record_number(), PharmacistRecord::default().cols()),
        (15, 3)
    );
    assert_eq!(
        (MedicalInstitutionRecord::default().record_number(), MedicalInstitutionRecord::default().cols()),
        (51, 5)
    );
    assert_eq!(
        (PhysicianRecord::default().record_number(), PhysicianRecord::default().cols()),
        (55, 3)
    );
    assert_eq!((DrugRecord::default().record_number(), DrugRecord::default().cols()), (201, 7));
    assert_eq!(
        (DrugSupplementaryRecord::default().record_number(), DrugSupplementaryRecord::default().cols()),
        (281, 3)
    );
    assert_eq!(
        (DrugNoticeRecord::default().record_number(), DrugNoticeRecord::default().cols()),
        (291, 3)
    );
    assert_eq!((UsageRecord::default().record_number(), UsageRecord::default().cols()), (301, 8));
    assert_eq!(
        (UsageSupplementaryRecord::default().record_number(), UsageSupplementaryRecord::default().cols()),
        (311, 3)
    );
    assert_eq!(
        (RpNoticeRecord::default().record_number(), RpNoticeRecord::default().cols()),
        (391, 3)
    );
    assert_eq!((NoticeRecord::default().record_number(), NoticeRecord::default().cols()), (401, 2));
    assert_eq!(
        (InformationProvisionRecord::default().record_number(), InformationProvisionRecord::default().cols()),
        (411, 3)
    );
    assert_eq!((NoteRecord::default().record_number(), NoteRecord::default().cols()), (501, 2));
    assert_eq!(
        (FromPatientRecord::default().record_number(), FromPatientRecord::default().cols()),
        (601, 2)
    );
    assert_eq!(
        (FamilyPharmacistRecord::default().record_number(), FamilyPharmacistRecord::default().cols()),
        (701, 6)
    );
}

#[test]
fn pharmacy_and_usage_lines() {
    let line = "11,薬局A,13,4,,,,,1";
    let p = PharmacyRecord::from_str(line).unwrap();
    assert_eq!(p.name, "薬局A");
    assert_eq!(p.prefecture, Some(Prefecture::Tokyo));
    assert_eq!(p.fee_table, Some(jahis::codes::FeeTable::Pharmacy));
    assert_eq!(p.created_by, RecordCreator::MedicalExpert);
    assert_eq!(p.to_code(), line);
    // A prefecture is written in two digits, and read so.
    assert!(matches!(PharmacyRecord::from_str("11,薬局A,1,4,,,,,1"), Err(Error::InvalidArgument(_))));
    assert!(matches!(
        PharmacyRecord::from_str("11,薬局A,013,4,,,,,1"),
        Err(Error::InvalidRecordLine(_))
    ));

    let line = "301,1,1日1回,1,回,1,,,1";
    let u = UsageRecord::from_str(line).unwrap();
    assert_eq!(u.rp_number, 1);
    assert_eq!(u.name, "1日1回");
    assert_eq!(u.quantity, Some(1));
    assert_eq!(u.unit, Some("回".to_string()));
    assert_eq!(u.dosage_form, Some(jahis::codes::DosageForm::OralAdministration));
    assert_eq!(u.usage_code_type, None);
    assert_eq!(u.to_code(), line);
    assert_eq!(
        UsageRecord::from_str("301,1,x,,,10,2,c,1").unwrap().dosage_form,
        Some(jahis::codes::DosageForm::Other)
    );

    let d = DrugRecord::from_str("201,1,薬X,1,錠,1,,1").unwrap();
    assert_eq!(d.drug_code_type, DrugCodeType::NoCode);
    assert_eq!(d.drug_code, None);
    assert_eq!(d.to_code(), "201,1,薬X,1,錠,1,,1");
    // Leading zeros of a number are read and not written back.
    assert_eq!(DrugRecord::from_str("201,007,薬X,1,錠,1,,1").unwrap().to_code(), "201,7,薬X,1,錠,1,,1");

    let i = InformationProvisionRecord::from_str("411,text,30,1").unwrap();
    assert_eq!(i.information_type, ProvidedInformationType::AdverseEventInHospital);
    let n = SpecialPatientNoteRecord::from_str("2,1,卵,2").unwrap();
    assert_eq!(n.category, SpecialPatientNoteCategory::Allergy);
    assert_eq!(n.created_by, RecordCreator::Patient);
}
