use jahis::codes::RecordCreator;
use jahis::date::Date;
use jahis::dispensing_block::DispensingInformationBlock;
use jahis::drug_block::DrugBlock;
use jahis::error::Error;
use jahis::gengo::GengoYear;
use jahis::notebook::MedicineNotebook;
use jahis::prescription_block::PrescriptionBlock;
use jahis::rp_block::RpBlock;
use jahis::text::split_lines;
use std::str::FromStr;

const DATE: &str = "5,R010501,1";
const PHARMACY: &str = "11,薬局A,13,4,,,,,1";
const DRUG: &str = "201,1,薬X,1,錠,1,,1";
const USAGE: &str = "301,1,1日1回,1,回,1,,,1";

fn text(lines: &[&str]) -> String {
    lines.join("\r\n")
}

#[test]
fn lines_are_split_on_every_line_break() {
    assert_eq!(split_lines("a\r\nb\nc\rd"), vec!["a", "b", "c", "d"]);
    assert_eq!(split_lines("\r\n\r\na\n\n\nb\r"), vec!["a", "b"]);
    assert_eq!(split_lines(""), Vec::<String>::new());
}

#[test]
fn minimal_notebook() {
    let input = "JAHISTC06,1\r\n1,山田太郎,1,19800101,,,,,,,\r\n";
    let n = MedicineNotebook::from_str(input).unwrap();
    assert_eq!(n.version.number, 6);
    assert_eq!(n.version.output_category, jahis::codes::OutputCategory::ToPatient);
    assert_eq!(n.patient.name, "山田太郎");
    assert_eq!(n.patient.gender, jahis::codes::Gender::Male);
    assert_eq!(n.patient.day_of_birth, Date::Seireki { year: 1980, month: 1, day: 1 });
    assert_eq!(n.patient.body_weight, None);
    assert!(n.dispensing_information.is_empty());
    assert!(n.special_patient_notes.is_empty());
    assert!(n.family_pharmacist.is_empty());
    assert_eq!(n.to_code(), "JAHISTC06,1\r\n1,山田太郎,1,19800101,,,,,,,");
}

#[test]
fn full_dispensing_block_round_trip() {
    let input = text(&[DATE, PHARMACY, DRUG, USAGE]);
    let b = DispensingInformationBlock::from_str(&input).unwrap();
    assert_eq!(
        b.date.created_at,
        Date::Wareki { gengo_year: GengoYear::Reiwa(1), month: 5, day: 1 }
    );
    assert_eq!(b.date.created_by, RecordCreator::MedicalExpert);
    assert_eq!(b.pharmacy.name, "薬局A");
    assert_eq!(b.prescriptions.len(), 1);
    assert_eq!(b.prescriptions[0].physician, None);
    assert_eq!(b.prescriptions[0].rps.len(), 1);
    assert_eq!(b.prescriptions[0].rps[0].drugs.len(), 1);
    assert_eq!(b.prescriptions[0].rps[0].drugs[0].drug.name, "薬X");
    assert_eq!(b.prescriptions[0].rps[0].usage.name, "1日1回");
    assert_eq!(b.to_code(), input);
    assert_eq!(DispensingInformationBlock::from_str(&b.to_code()), Ok(b));
}

#[test]
fn ordering_violation() {
    let swapped = text(&[PHARMACY, DATE]);
    assert!(matches!(
        DispensingInformationBlock::from_str(&swapped),
        Err(Error::GotUnexpectedRecordLine(_))
    ));
    let twice = text(&[DATE, PHARMACY, PHARMACY]);
    assert!(matches!(
        DispensingInformationBlock::from_str(&twice),
        Err(Error::GotUnexpectedRecordLine(_))
    ));
    let late = text(&[DATE, PHARMACY, "401,注意,1", DRUG, USAGE]);
    assert!(matches!(
        DispensingInformationBlock::from_str(&late),
        Err(Error::GotUnexpectedRecordLine(_))
    ));
    let back = text(&[DATE, PHARMACY, "501,備考,1", "401,注意,1"]);
    assert!(matches!(
        DispensingInformationBlock::from_str(&back),
        Err(Error::GotUnexpectedRecordLine(_))
    ));
    let unknown = text(&[DATE, PHARMACY, "999,x"]);
    assert!(matches!(
        DispensingInformationBlock::from_str(&unknown),
        Err(Error::GotUnexpectedRecordLine(_))
    ));
}

#[test]
fn missing_required_record() {
    assert!(matches!(
        DispensingInformationBlock::from_str(PHARMACY),
        Err(Error::MissingRequiredRecord(_))
    ));
    assert!(matches!(
        DispensingInformationBlock::from_str(DATE),
        Err(Error::MissingRequiredRecord(_))
    ));
    assert!(matches!(
        MedicineNotebook::from_str("JAHISTC06,1\r\n"),
        Err(Error::MissingRequiredRecord(_))
    ));
    assert!(matches!(
        MedicineNotebook::from_str("1,山田太郎,1,19800101,,,,,,,"),
        Err(Error::MissingRequiredRecord(_))
    ));
    assert!(matches!(MedicineNotebook::from_str(""), Err(Error::MissingRequiredRecord(_))));
    assert!(matches!(DrugBlock::from_str(""), Err(Error::MissingRequiredRecord(_))));
    assert!(matches!(RpBlock::from_str(DRUG), Err(Error::MissingRequiredRecord(_))));
    assert!(matches!(RpBlock::from_str(""), Err(Error::MissingRequiredRecord(_))));
}

#[test]
fn drug_block_lines() {
    let input = text(&[DRUG, "281,1,補足,1", "291,1,注意,1", "281,1,補足2,1"]);
    let b = DrugBlock::from_str(&input).unwrap();
    assert_eq!(b.drug_supplementary.len(), 2);
    assert_eq!(b.drug_notice.len(), 1);
    // Supplements are written before notices.
    assert_eq!(b.to_code(), text(&[DRUG, "281,1,補足,1", "281,1,補足2,1", "291,1,注意,1"]));
    assert!(matches!(
        DrugBlock::from_str("281,1,補足,1"),
        Err(Error::GotUnexpectedRecordLine(_))
    ));
    assert!(matches!(
        DrugBlock::from_str(&text(&[DRUG, DRUG])),
        Err(Error::GotUnexpectedRecordLine(_))
    ));
    assert!(matches!(
        DrugBlock::from_str(&text(&[DRUG, USAGE])),
        Err(Error::GotUnexpectedRecordLine(_))
    ));
    assert!(matches!(DrugBlock::from_str("201,x"), Err(Error::InvalidRecordLine(_))));
}

#[test]
fn rp_block_lines() {
    let input = text(&[DRUG, "281,1,補足,1", "201,1,薬Y,2,錠,1,,1", USAGE, "311,1,食後,1", "391,1,注意,1"]);
    let b = RpBlock::from_str(&input).unwrap();
    assert_eq!(b.drugs.len(), 2);
    assert_eq!(b.drugs[0].drug_supplementary.len(), 1);
    assert_eq!(b.drugs[1].drug.name, "薬Y");
    assert_eq!(b.usage_supplementary.len(), 1);
    assert_eq!(b.rp_notice.len(), 1);
    assert_eq!(b.to_code(), input);
    assert!(matches!(RpBlock::from_str(USAGE), Err(Error::GotUnexpectedRecordLine(_))));
    assert!(matches!(
        RpBlock::from_str("281,1,補足,1"),
        Err(Error::GotUnexpectedRecordLine(_))
    ));
    assert!(matches!(
        RpBlock::from_str(&text(&[DRUG, USAGE, DRUG])),
        Err(Error::GotUnexpectedRecordLine(_))
    ));
    assert!(matches!(
        RpBlock::from_str(&text(&[DRUG, "311,1,食後,1"])),
        Err(Error::GotUnexpectedRecordLine(_))
    ));
    // The lines of a drug are read when the next drug or the usage ends them.
    assert!(matches!(
        RpBlock::from_str(&text(&["201,bad", "777,x"])),
        Err(Error::GotUnexpectedRecordLine(_))
    ));
    assert!(matches!(
        RpBlock::from_str(&text(&["201,bad", USAGE])),
        Err(Error::InvalidRecordLine(_))
    ));
}

#[test]
fn prescription_block_lines() {
    let input = text(&["55,医師A,内科,1", DRUG, USAGE, "201,2,薬Y,2,錠,1,,1", "301,2,1日2回,,,,,,1"]);
    let b = PrescriptionBlock::from_str(&input).unwrap();
    assert_eq!(b.physician.as_ref().unwrap().name, "医師A");
    assert_eq!(b.rps.len(), 2);
    assert_eq!(b.rps[1].usage.rp_number, 2);
    assert_eq!(b.to_code(), input);
    assert_eq!(PrescriptionBlock::from_str(""), Ok(PrescriptionBlock::default()));
    assert_eq!(PrescriptionBlock::default().to_code(), "");
    assert!(matches!(
        PrescriptionBlock::from_str(&text(&[DRUG, USAGE, "55,医師A,内科,1"])),
        Err(Error::GotUnexpectedRecordLine(_))
    ));
    assert!(matches!(
        PrescriptionBlock::from_str(&text(&["55,医師A,内科,1", "55,医師B,内科,1"])),
        Err(Error::GotUnexpectedRecordLine(_))
    ));
    assert!(matches!(
        PrescriptionBlock::from_str(&text(&[DRUG])),
        Err(Error::MissingRequiredRecord(_))
    ));
}

#[test]
fn dispensing_block_with_everything() {
    let lines = [
        DATE,
        PHARMACY,
        "15,薬剤師B,03-1111-2222,1",
        "51,病院C,13,1,1234567,1",
        "55,医師A,内科,1",
        DRUG,
        USAGE,
        "55,医師D,,1",
        "201,2,薬Y,2,錠,1,,1",
        "291,2,眠気,1",
        "301,2,1日2回,,,,,,1",
        "401,注意,1",
        "411,情報,31,1",
        "501,備考,1",
        "601,患者記入,20190502",
    ];
    let input = text(&lines);
    let b = DispensingInformationBlock::from_str(&input).unwrap();
    assert_eq!(b.prescriptions.len(), 2);
    assert_eq!(b.prescriptions[1].physician.as_ref().unwrap().name, "医師D");
    assert_eq!(b.prescriptions[1].rps[0].drugs[0].drug_notice.len(), 1);
    assert!(b.pharmacist.is_some() && b.medical_institute.is_some());
    assert!(b.notice.is_some() && b.information_provision.is_some());
    assert!(b.note.is_some() && b.from_patient.is_some());
    assert_eq!(b.to_code(), input);
    // Blank lines and other line ends are read, and not written.
    let loose = lines.join("\n\n") + "\r";
    assert_eq!(DispensingInformationBlock::from_str(&loose).unwrap().to_code(), input);
}

#[test]
fn notebook_with_everything() {
    let lines = [
        "JAHISTC06,1",
        "1,山田太郎,1,19800101,,,,,,60.5,",
        "2,1,卵,1",
        "2,9,その他,2",
        "3,市販薬,20190101,,2",
        "4,メモ,,2",
        DATE,
        PHARMACY,
        DRUG,
        USAGE,
        "5,R010601,1",
        PHARMACY,
        "501,備考,1",
        "701,薬剤師E,薬局A,03-0000-0000,20190101,,1",
    ];
    let input = text(&lines);
    let n = MedicineNotebook::from_str(&input).unwrap();
    assert_eq!(n.special_patient_notes.len(), 2);
    assert_eq!(n.otc_drugs.len(), 1);
    assert_eq!(n.memos.len(), 1);
    assert_eq!(n.dispensing_information.len(), 2);
    assert_eq!(n.dispensing_information[0].prescriptions.len(), 1);
    assert_eq!(n.dispensing_information[1].prescriptions.len(), 0);
    assert_eq!(n.family_pharmacist.len(), 1);
    assert_eq!(n.to_code(), input);
    assert_eq!(MedicineNotebook::from_str(&n.to_code()), Ok(n));
}

#[test]
fn notebook_ordering() {
    let version = "JAHISTC06,1";
    let patient = "1,山田太郎,1,19800101,,,,,,,";
    for lines in [
        vec![patient, version],
        vec![version, version, patient],
        vec![version, patient, patient],
        vec![version, patient, "3,市販薬,,,2", "2,1,卵,1"],
        vec![version, patient, DATE, PHARMACY, "4,メモ,,2"],
        vec![version, patient, "701,薬剤師E,薬局A,03,,,1", DATE, PHARMACY],
        vec![version, "2,1,卵,1", patient],
        vec![version, patient, "9,x"],
        vec![version, patient, "abc"],
    ] {
        assert!(
            matches!(
                MedicineNotebook::from_str(&text(&lines)),
                Err(Error::GotUnexpectedRecordLine(_))
            ),
            "{:?}",
            lines
        );
    }
    // What a dispensing lacks is found when it ends.
    assert!(matches!(
        MedicineNotebook::from_str(&text(&[version, patient, PHARMACY])),
        Err(Error::MissingRequiredRecord(_))
    ));
    assert!(matches!(
        MedicineNotebook::from_str(&text(&[version, patient, PHARMACY, DATE, PHARMACY])),
        Err(Error::MissingRequiredRecord(_))
    ));
}

#[test]
fn default_blocks() {
    assert_eq!(DrugBlock::default().to_code(), "201,1,,,,1,,9");
    assert_eq!(RpBlock::default().to_code(), "301,1,,,,,,,9");
    assert_eq!(DispensingInformationBlock::default().to_code(), "5,19700101,9\r\n11,,,,,,,,9");
    assert_eq!(MedicineNotebook::default().to_code(), "JAHISTC06,1\r\n1,,1,19700101,,,,,,,");
    assert_eq!(
        MedicineNotebook::from_str(&MedicineNotebook::default().to_code()),
        Ok(MedicineNotebook::default())
    );
}

#[test]
fn what_is_read_is_written_in_one_way() {
    // Leading zeros, blank lines and bare line ends are read; what is written
    // has none of them, and reads back as the same notebook.
    let loose = "\nJAHISTC06,1\r1,山田太郎,1,19800101,,,,,,060.0,\n\n5,R010501,1\n11,薬局A,13,4,,,,,1\n\
                 201,001,薬X,1,錠,1,,1\n301,01,1日1回,007,回,1,,,1\n";
    let n = MedicineNotebook::from_str(loose).unwrap();
    let written = n.to_code();
    assert_eq!(
        written,
        text(&[
            "JAHISTC06,1",
            "1,山田太郎,1,19800101,,,,,,060.0,",
            "5,R010501,1",
            "11,薬局A,13,4,,,,,1",
            "201,1,薬X,1,錠,1,,1",
            "301,1,1日1回,7,回,1,,,1",
        ])
    );
    let again = MedicineNotebook::from_str(&written).unwrap();
    assert_eq!(again, n);
    assert_eq!(again.to_code(), written);
}

#[test]
fn blocks_are_read_from_a_range_of_lines() {
    let lines: Vec<String> = [DATE, PHARMACY, DRUG, "281,1,補足,1", USAGE, "501,備考,1"]
        .iter()
        .map(|l| l.to_string())
        .collect();
    let drug = DrugBlock::from_lines(&lines, 2, 4).unwrap();
    assert_eq!(drug.lines(), lines[2..4].to_vec());
    let rp = RpBlock::from_lines(&lines, 2, 5).unwrap();
    assert_eq!(rp.drugs, vec![drug]);
    assert_eq!(rp.lines(), lines[2..5].to_vec());
    let prescription = PrescriptionBlock::from_lines(&lines, 2, 5).unwrap();
    assert_eq!(prescription.rps, vec![rp]);
    assert_eq!(PrescriptionBlock::from_lines(&lines, 3, 3), Ok(PrescriptionBlock::default()));
    let dispensing = DispensingInformationBlock::from_lines(&lines, 0, 6).unwrap();
    assert_eq!(dispensing.prescriptions, vec![prescription]);
    assert_eq!(dispensing.lines(), lines);
    let mut out = vec!["x".to_string()];
    dispensing.push_lines(&mut out);
    assert_eq!(out[0], "x");
    assert_eq!(out[1..].to_vec(), lines);
    assert!(matches!(
        DispensingInformationBlock::from_lines(&lines, 1, 6),
        Err(Error::MissingRequiredRecord(_))
    ));
    assert!(matches!(
        MedicineNotebook::from_lines(&lines, 0, 6),
        Err(Error::MissingRequiredRecord(_))
    ));
}
