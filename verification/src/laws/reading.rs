//! What is read from lines can be written: every record in it has texts
//! that stand in a field, and every block in it has what tells it from its
//! neighbours. So what is read, written and read again is what was read.

use vstd::prelude::*;
use crate::dispensing_block::{dispensing_section, DispensingInformationBlock, DispensingScan};
use crate::dispensing_records::{
    lemma_date_record_read_is_encodable, lemma_medical_institution_record_read_is_encodable,
    lemma_pharmacist_record_read_is_encodable, lemma_pharmacy_record_read_is_encodable,
    lemma_physician_record_read_is_encodable,
};
use crate::drug_block::{DrugBlock, DrugScan};
use crate::drug_records::{
    lemma_drug_notice_record_read_is_encodable, lemma_drug_record_read_is_encodable,
    lemma_drug_supplementary_record_read_is_encodable,
};
use crate::error::ErrorView;
use crate::laws::dispensing_block::are_separable;
use crate::laws::notebook::lemma_notebook_round_trip;
use crate::notebook::{MedicineNotebook, MedicineNotebookView, NotebookScan};
use crate::patient_records::{
    lemma_memo_record_read_is_encodable, lemma_otc_drug_record_read_is_encodable,
    lemma_patient_record_read_is_encodable, lemma_special_patient_note_record_read_is_encodable,
};
use crate::prescription_block::{PrescriptionBlock, PrescriptionScan};
use crate::record::{are_lines, line_tag, LineModel};
use crate::remark_records::{
    lemma_family_pharmacist_record_read_is_encodable,
    lemma_from_patient_record_read_is_encodable,
    lemma_information_provision_record_read_is_encodable, lemma_note_record_read_is_encodable,
    lemma_notice_record_read_is_encodable,
};
use crate::rp_block::{RpBlock, RpScan};
use crate::text::{is_line, lemma_lines_of_are_lines, lines_of};
use crate::usage_records::{
    lemma_rp_notice_record_read_is_encodable, lemma_usage_record_read_is_encodable,
    lemma_usage_supplementary_record_read_is_encodable,
};
use crate::version::lemma_version_record_read_is_encodable;

verus! {

/// Lines with one more line behind them are lines.
proof fn lemma_push_line(lines: Seq<Seq<char>>, line: Seq<char>)
    requires
        are_lines(lines),
        is_line(line),
    ensures
        are_lines(lines.push(line)),
        are_lines(seq![line]),
{
    assert forall|i: int| 0 <= i < lines.push(line).len() implies is_line(
        #[trigger] lines.push(line)[i],
    ) by {
        if i < lines.len() {
            assert(lines.push(line)[i] == lines[i]);
        }
    }
}

/// All but the last of some lines are lines, and so is the last.
proof fn lemma_drop_last_line(lines: Seq<Seq<char>>)
    requires
        are_lines(lines),
        lines.len() >= 1,
    ensures
        are_lines(lines.drop_last()),
        is_line(lines.last()),
{
    assert forall|i: int| 0 <= i < lines.drop_last().len() implies is_line(
        #[trigger] lines.drop_last()[i],
    ) by {
        assert(lines.drop_last()[i] == lines[i]);
    }
}

/// Whether every record that was read of a drug block can be written.
pub open spec fn drug_scan_is_sound(st: DrugScan) -> bool {
    &&& st.drug matches Some(r) ==> r.is_encodable()
    &&& forall|i: int|
        0 <= i < st.drug_supplementary.len() ==> (
        #[trigger] st.drug_supplementary[i]).is_encodable()
    &&& forall|i: int|
        0 <= i < st.drug_notice.len() ==> (#[trigger] st.drug_notice[i]).is_encodable()
}

/// Reading lines of a drug block keeps what was read writable.
pub proof fn lemma_drug_scan_is_sound(lines: Seq<Seq<char>>)
    requires
        are_lines(lines),
        DrugBlock::scan(lines) is Ok,
    ensures
        drug_scan_is_sound(DrugBlock::scan(lines)->Ok_0),
    decreases lines.len(),
{
    if lines.len() > 0 {
        lemma_drop_last_line(lines);
        lemma_drug_scan_is_sound(lines.drop_last());
        let st = DrugBlock::scan(lines.drop_last())->Ok_0;
        let line = lines.last();
        let next = DrugBlock::scan(lines)->Ok_0;
        reveal(DrugBlock::step);
        if st.drug is None {
            lemma_drug_record_read_is_encodable(line);
        } else if line_tag(line) == Some(281nat) {
            lemma_drug_supplementary_record_read_is_encodable(line);
            assert forall|i: int| 0 <= i < next.drug_supplementary.len() implies (
            #[trigger] next.drug_supplementary[i]).is_encodable() by {
                if i < st.drug_supplementary.len() {
                    assert(next.drug_supplementary[i] == st.drug_supplementary[i]);
                }
            }
        } else {
            lemma_drug_notice_record_read_is_encodable(line);
            assert forall|i: int| 0 <= i < next.drug_notice.len() implies (
            #[trigger] next.drug_notice[i]).is_encodable() by {
                if i < st.drug_notice.len() {
                    assert(next.drug_notice[i] == st.drug_notice[i]);
                }
            }
        }
    }
}

/// A drug block that was read from lines can be written.
pub proof fn lemma_drug_block_read_is_encodable(lines: Seq<Seq<char>>)
    requires
        are_lines(lines),
        DrugBlock::spec_from_lines(lines) is Ok,
    ensures
        (DrugBlock::spec_from_lines(lines)->Ok_0).is_encodable(),
{
    lemma_drug_scan_is_sound(lines);
}

/// Whether every record and drug block that was read of a prescription
/// group can be written, the lines that are pending are lines, and a group
/// whose usage was read has a drug.
pub open spec fn rp_scan_is_sound(st: RpScan) -> bool {
    &&& forall|i: int| 0 <= i < st.drugs.len() ==> (#[trigger] st.drugs[i]).is_encodable()
    &&& are_lines(st.pending)
    &&& st.usage matches Some(r) ==> r.is_encodable() && st.drugs.len() >= 1
    &&& forall|i: int|
        0 <= i < st.usage_supplementary.len() ==> (
        #[trigger] st.usage_supplementary[i]).is_encodable()
    &&& forall|i: int| 0 <= i < st.rp_notice.len() ==> (#[trigger] st.rp_notice[i]).is_encodable()
}

/// Reading the pending lines of a drug block keeps the drug blocks
/// writable.
proof fn lemma_rp_flush_is_sound(st: RpScan)
    requires
        rp_scan_is_sound(st),
        RpBlock::flush(st) is Ok,
    ensures
        forall|i: int|
            0 <= i < (RpBlock::flush(st)->Ok_0).len() ==> (
            #[trigger] (RpBlock::flush(st)->Ok_0)[i]).is_encodable(),
        st.pending.len() > 0 ==> (RpBlock::flush(st)->Ok_0).len() >= 1,
{
    let drugs = RpBlock::flush(st)->Ok_0;
    if st.pending.len() > 0 {
        lemma_drug_block_read_is_encodable(st.pending);
        assert forall|i: int| 0 <= i < drugs.len() implies (#[trigger] drugs[i]).is_encodable() by {
            if i < st.drugs.len() {
                assert(drugs[i] == st.drugs[i]);
            }
        }
    }
}

/// Reading lines of a prescription group keeps what was read writable.
pub proof fn lemma_rp_scan_is_sound(lines: Seq<Seq<char>>)
    requires
        are_lines(lines),
        RpBlock::scan(lines) is Ok,
    ensures
        rp_scan_is_sound(RpBlock::scan(lines)->Ok_0),
    decreases lines.len(),
{
    if lines.len() > 0 {
        lemma_drop_last_line(lines);
        lemma_rp_scan_is_sound(lines.drop_last());
        let st = RpBlock::scan(lines.drop_last())->Ok_0;
        let line = lines.last();
        let next = RpBlock::scan(lines)->Ok_0;
        let tag = line_tag(line);
        reveal(RpBlock::step);
        lemma_push_line(st.pending, line);
        if st.usage is None {
            if tag == Some(201nat) {
                lemma_rp_flush_is_sound(st);
            } else if tag == Some(301nat) {
                lemma_rp_flush_is_sound(st);
                lemma_usage_record_read_is_encodable(line);
            }
        } else if tag == Some(311nat) {
            lemma_usage_supplementary_record_read_is_encodable(line);
            assert forall|i: int| 0 <= i < next.usage_supplementary.len() implies (
            #[trigger] next.usage_supplementary[i]).is_encodable() by {
                if i < st.usage_supplementary.len() {
                    assert(next.usage_supplementary[i] == st.usage_supplementary[i]);
                }
            }
        } else {
            lemma_rp_notice_record_read_is_encodable(line);
            assert forall|i: int| 0 <= i < next.rp_notice.len() implies (
            #[trigger] next.rp_notice[i]).is_encodable() by {
                if i < st.rp_notice.len() {
                    assert(next.rp_notice[i] == st.rp_notice[i]);
                }
            }
        }
    }
}

/// A prescription group that was read from lines can be written.
pub proof fn lemma_rp_block_read_is_encodable(lines: Seq<Seq<char>>)
    requires
        are_lines(lines),
        RpBlock::spec_from_lines(lines) is Ok,
    ensures
        (RpBlock::spec_from_lines(lines)->Ok_0).is_encodable(),
{
    lemma_rp_scan_is_sound(lines);
}

/// Whether the physician and every group that was read of a prescription
/// can be written and the lines that are pending are lines.
pub open spec fn prescription_scan_is_sound(st: PrescriptionScan) -> bool {
    &&& st.physician matches Some(r) ==> r.is_encodable()
    &&& forall|i: int| 0 <= i < st.rps.len() ==> (#[trigger] st.rps[i]).is_encodable()
    &&& are_lines(st.pending)
}

/// Reading the pending lines of a group keeps the groups writable.
proof fn lemma_prescription_flush_is_sound(st: PrescriptionScan)
    requires
        prescription_scan_is_sound(st),
        PrescriptionBlock::flush(st) is Ok,
    ensures
        forall|i: int|
            0 <= i < (PrescriptionBlock::flush(st)->Ok_0).len() ==> (
            #[trigger] (PrescriptionBlock::flush(st)->Ok_0)[i]).is_encodable(),
        st.pending.len() > 0 ==> (PrescriptionBlock::flush(st)->Ok_0).len() >= 1,
{
    let rps = PrescriptionBlock::flush(st)->Ok_0;
    if st.pending.len() > 0 {
        lemma_rp_block_read_is_encodable(st.pending);
        assert forall|i: int| 0 <= i < rps.len() implies (#[trigger] rps[i]).is_encodable() by {
            if i < st.rps.len() {
                assert(rps[i] == st.rps[i]);
            }
        }
    }
}

/// Reading lines of a prescription keeps what was read writable. Once a
/// line is read, there is a physician, a group or a pending line; and where
/// the first line is that of a physician, there is a physician.
pub proof fn lemma_prescription_scan_is_sound(lines: Seq<Seq<char>>)
    requires
        are_lines(lines),
        PrescriptionBlock::scan(lines) is Ok,
    ensures
        prescription_scan_is_sound(PrescriptionBlock::scan(lines)->Ok_0),
        lines.len() >= 1 ==> ({
            let st = PrescriptionBlock::scan(lines)->Ok_0;
            st.physician is Some || st.rps.len() >= 1 || st.pending.len() >= 1
        }),
        lines.len() >= 1 && line_tag(lines[0]) == Some(55nat) ==> (PrescriptionBlock::scan(
            lines,
        )->Ok_0).physician is Some,
    decreases lines.len(),
{
    if lines.len() > 0 {
        lemma_drop_last_line(lines);
        lemma_prescription_scan_is_sound(lines.drop_last());
        let st = PrescriptionBlock::scan(lines.drop_last())->Ok_0;
        let line = lines.last();
        let tag = line_tag(line);
        reveal(PrescriptionBlock::step);
        lemma_push_line(st.pending, line);
        if tag == Some(55nat) {
            lemma_physician_record_read_is_encodable(line);
        } else if tag == Some(201nat) && st.usage_seen {
            lemma_prescription_flush_is_sound(st);
        }
        if lines.len() >= 2 {
            assert(lines.drop_last()[0] == lines[0]);
        }
    }
}

/// A prescription that was read from lines can be written. It has a line
/// if it was read from one, and it names its physician if the first line
/// was that of a physician.
pub proof fn lemma_prescription_block_read_is_encodable(lines: Seq<Seq<char>>)
    requires
        are_lines(lines),
        PrescriptionBlock::spec_from_lines(lines) is Ok,
    ensures
        (PrescriptionBlock::spec_from_lines(lines)->Ok_0).is_encodable(),
        lines.len() >= 1 ==> (PrescriptionBlock::spec_from_lines(lines)->Ok_0).lines().len() >= 1,
        lines.len() >= 1 && line_tag(lines[0]) == Some(55nat) ==> (
        PrescriptionBlock::spec_from_lines(lines)->Ok_0).physician is Some,
{
    lemma_prescription_scan_is_sound(lines);
    let st = PrescriptionBlock::scan(lines)->Ok_0;
    lemma_prescription_flush_is_sound(st);
    let v = PrescriptionBlock::spec_from_lines(lines)->Ok_0;
    if lines.len() >= 1 && v.physician is None {
        assert(v.rps.len() >= 1);
        assert(v.rps.last().lines().len() >= 1);
    }
}

/// Whether every record and prescription that was read of a dispensing can
/// be written, the prescriptions can be told apart, the lines that are
/// pending are lines, and those lines begin with the line of a physician
/// where a prescription was read before them.
pub open spec fn dispensing_scan_is_sound(st: DispensingScan) -> bool {
    &&& st.date matches Some(r) ==> r.is_encodable()
    &&& st.pharmacy matches Some(r) ==> r.is_encodable()
    &&& st.pharmacist matches Some(r) ==> r.is_encodable()
    &&& st.medical_institute matches Some(r) ==> r.is_encodable()
    &&& are_separable(st.prescriptions)
    &&& are_lines(st.pending)
    &&& st.prescriptions.len() >= 1 ==> st.pending.len() >= 1 && line_tag(st.pending[0]) == Some(
        55nat,
    )
    &&& st.notice matches Some(r) ==> r.is_encodable()
    &&& st.information_provision matches Some(r) ==> r.is_encodable()
    &&& st.note matches Some(r) ==> r.is_encodable()
    &&& st.from_patient matches Some(r) ==> r.is_encodable()
}

/// Reading the pending lines of a prescription keeps the prescriptions
/// writable and apart.
proof fn lemma_dispensing_flush_is_sound(st: DispensingScan)
    requires
        dispensing_scan_is_sound(st),
        DispensingInformationBlock::flush(st) is Ok,
    ensures
        are_separable(DispensingInformationBlock::flush(st)->Ok_0),
{
    let all = DispensingInformationBlock::flush(st)->Ok_0;
    if st.pending.len() > 0 {
        lemma_prescription_block_read_is_encodable(st.pending);
        assert forall|i: int| 0 <= i < all.len() implies (#[trigger] all[i]).is_encodable()
            && all[i].lines().len() > 0 by {
            if i < st.prescriptions.len() {
                assert(all[i] == st.prescriptions[i]);
            }
        }
        assert forall|i: int| 1 <= i < all.len() implies (#[trigger] all[i]).physician is Some by {
            if i < st.prescriptions.len() {
                assert(all[i] == st.prescriptions[i]);
            }
        }
    }
}

/// Reading a line of a record that may come once keeps what was read
/// writable.
proof fn lemma_dispensing_single_is_sound(st: DispensingScan, tag: nat, line: Seq<char>)
    requires
        dispensing_scan_is_sound(st),
        is_line(line),
        dispensing_section(tag) == Some(tag),
        tag != 55,
        DispensingInformationBlock::step_single(st, tag, line) is Ok,
    ensures
        dispensing_scan_is_sound(DispensingInformationBlock::step_single(st, tag, line)->Ok_0),
{
    if tag == 5 {
        lemma_date_record_read_is_encodable(line);
    } else if tag == 11 {
        lemma_pharmacy_record_read_is_encodable(line);
    } else if tag == 15 {
        lemma_pharmacist_record_read_is_encodable(line);
    } else if tag == 51 {
        lemma_medical_institution_record_read_is_encodable(line);
    } else if tag == 401 {
        lemma_notice_record_read_is_encodable(line);
    } else if tag == 411 {
        lemma_information_provision_record_read_is_encodable(line);
    } else if tag == 501 {
        lemma_note_record_read_is_encodable(line);
    } else {
        lemma_from_patient_record_read_is_encodable(line);
    }
}

/// Reading lines of a dispensing keeps what was read writable.
pub proof fn lemma_dispensing_scan_is_sound(lines: Seq<Seq<char>>)
    requires
        are_lines(lines),
        DispensingInformationBlock::scan(lines) is Ok,
    ensures
        dispensing_scan_is_sound(DispensingInformationBlock::scan(lines)->Ok_0),
    decreases lines.len(),
{
    if lines.len() == 0 {
        assert(are_separable(DispensingInformationBlock::start().prescriptions));
    } else {
        lemma_drop_last_line(lines);
        lemma_dispensing_scan_is_sound(lines.drop_last());
        let st = DispensingInformationBlock::scan(lines.drop_last())->Ok_0;
        let line = lines.last();
        let tag = line_tag(line)->Some_0;
        reveal(DispensingInformationBlock::step);
        lemma_push_line(st.pending, line);
        if dispensing_section(tag) == Some(55nat) {
            if tag == 55 {
                lemma_dispensing_flush_is_sound(st);
            } else {
                if st.prescriptions.len() >= 1 {
                    assert(st.pending.push(line)[0] == st.pending[0]);
                }
            }
        } else {
            lemma_dispensing_single_is_sound(st, tag, line);
        }
    }
}

/// A dispensing that was read from lines can be written.
pub proof fn lemma_dispensing_block_read_is_encodable(lines: Seq<Seq<char>>)
    requires
        are_lines(lines),
        DispensingInformationBlock::spec_from_lines(lines) is Ok,
    ensures
        (DispensingInformationBlock::spec_from_lines(lines)->Ok_0).is_encodable(),
{
    lemma_dispensing_scan_is_sound(lines);
    let st = DispensingInformationBlock::scan(lines)->Ok_0;
    lemma_dispensing_flush_is_sound(st);
}

/// Whether every record and dispensing that was read of a notebook can be
/// written and the lines that are pending are lines.
pub open spec fn notebook_scan_is_sound(st: NotebookScan) -> bool {
    &&& st.version matches Some(r) ==> r.is_encodable()
    &&& st.patient matches Some(r) ==> r.is_encodable()
    &&& forall|i: int|
        0 <= i < st.special_patient_notes.len() ==> (
        #[trigger] st.special_patient_notes[i]).is_encodable()
    &&& forall|i: int| 0 <= i < st.otc_drugs.len() ==> (#[trigger] st.otc_drugs[i]).is_encodable()
    &&& forall|i: int| 0 <= i < st.memos.len() ==> (#[trigger] st.memos[i]).is_encodable()
    &&& forall|i: int|
        0 <= i < st.dispensing_information.len() ==> (
        #[trigger] st.dispensing_information[i]).is_encodable()
    &&& are_lines(st.pending)
    &&& forall|i: int|
        0 <= i < st.family_pharmacist.len() ==> (
        #[trigger] st.family_pharmacist[i]).is_encodable()
}

/// Reading the pending lines of a dispensing keeps the dispensings
/// writable.
proof fn lemma_notebook_flush_is_sound(st: NotebookScan)
    requires
        notebook_scan_is_sound(st),
        MedicineNotebook::flush(st) is Ok,
    ensures
        forall|i: int|
            0 <= i < (MedicineNotebook::flush(st)->Ok_0).len() ==> (
            #[trigger] (MedicineNotebook::flush(st)->Ok_0)[i]).is_encodable(),
{
    let all = MedicineNotebook::flush(st)->Ok_0;
    if st.pending.len() > 0 {
        lemma_dispensing_block_read_is_encodable(st.pending);
        assert forall|i: int| 0 <= i < all.len() implies (#[trigger] all[i]).is_encodable() by {
            if i < st.dispensing_information.len() {
                assert(all[i] == st.dispensing_information[i]);
            }
        }
    }
}

/// Reading a line of a record of a notebook keeps what was read writable.
proof fn lemma_notebook_record_is_sound(st: NotebookScan, tag: nat, line: Seq<char>)
    requires
        notebook_scan_is_sound(st),
        is_line(line),
        tag == 1 || tag == 2 || tag == 3 || tag == 4 || tag == 701,
        MedicineNotebook::step_record(st, tag, line) is Ok,
    ensures
        notebook_scan_is_sound(MedicineNotebook::step_record(st, tag, line)->Ok_0),
{
    let next = MedicineNotebook::step_record(st, tag, line)->Ok_0;
    if tag == 1 {
        lemma_patient_record_read_is_encodable(line);
    } else if tag == 2 {
        lemma_special_patient_note_record_read_is_encodable(line);
        assert forall|i: int| 0 <= i < next.special_patient_notes.len() implies (
        #[trigger] next.special_patient_notes[i]).is_encodable() by {
            if i < st.special_patient_notes.len() {
                assert(next.special_patient_notes[i] == st.special_patient_notes[i]);
            }
        }
    } else if tag == 3 {
        lemma_otc_drug_record_read_is_encodable(line);
        assert forall|i: int| 0 <= i < next.otc_drugs.len() implies (
        #[trigger] next.otc_drugs[i]).is_encodable() by {
            if i < st.otc_drugs.len() {
                assert(next.otc_drugs[i] == st.otc_drugs[i]);
            }
        }
    } else if tag == 4 {
        lemma_memo_record_read_is_encodable(line);
        assert forall|i: int| 0 <= i < next.memos.len() implies (
        #[trigger] next.memos[i]).is_encodable() by {
            if i < st.memos.len() {
                assert(next.memos[i] == st.memos[i]);
            }
        }
    } else {
        lemma_family_pharmacist_record_read_is_encodable(line);
        assert forall|i: int| 0 <= i < next.family_pharmacist.len() implies (
        #[trigger] next.family_pharmacist[i]).is_encodable() by {
            if i < st.family_pharmacist.len() {
                assert(next.family_pharmacist[i] == st.family_pharmacist[i]);
            }
        }
    }
}

/// Reading lines of a notebook keeps what was read writable.
pub proof fn lemma_notebook_scan_is_sound(lines: Seq<Seq<char>>)
    requires
        are_lines(lines),
        MedicineNotebook::scan(lines) is Ok,
    ensures
        notebook_scan_is_sound(MedicineNotebook::scan(lines)->Ok_0),
    decreases lines.len(),
{
    if lines.len() > 0 {
        lemma_drop_last_line(lines);
        lemma_notebook_scan_is_sound(lines.drop_last());
        let st = MedicineNotebook::scan(lines.drop_last())->Ok_0;
        let line = lines.last();
        reveal(MedicineNotebook::step);
        lemma_push_line(st.pending, line);
        if crate::record::is_version_line(line) {
            lemma_version_record_read_is_encodable(line);
        } else {
            let tag = line_tag(line)->Some_0;
            if crate::notebook::notebook_section(tag) == Some(5nat) {
                if tag == 5 {
                    lemma_notebook_flush_is_sound(st);
                }
            } else {
                lemma_notebook_record_is_sound(st, tag, line);
            }
        }
    }
}

/// A notebook that was read from lines can be written.
pub proof fn lemma_notebook_read_is_encodable(lines: Seq<Seq<char>>)
    requires
        are_lines(lines),
        MedicineNotebook::spec_from_lines(lines) is Ok,
    ensures
        (MedicineNotebook::spec_from_lines(lines)->Ok_0).is_encodable(),
{
    lemma_notebook_scan_is_sound(lines);
    let st = MedicineNotebook::scan(lines)->Ok_0;
    lemma_notebook_flush_is_sound(st);
}

/// Whatever text a notebook is read from, the notebook can be written, and
/// what is written reads back as the same notebook: reading and writing
/// take any text that can be read to one that they leave as it is.
pub proof fn lemma_notebook_read_write_read(text: Seq<char>)
    requires
        MedicineNotebook::spec_from_str(text) is Ok,
    ensures
        ({
            let v = MedicineNotebook::spec_from_str(text)->Ok_0;
            &&& v.is_encodable()
            &&& MedicineNotebook::spec_from_str(v.text()) == Ok::<MedicineNotebookView, ErrorView>(v)
        }),
{
    lemma_lines_of_are_lines(text);
    lemma_notebook_read_is_encodable(lines_of(text));
    lemma_notebook_round_trip(MedicineNotebook::spec_from_str(text)->Ok_0);
}

} // verus!
