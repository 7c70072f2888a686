//! A dispensing that is written reads back as itself.

use vstd::prelude::*;
use crate::dispensing_block::{
    DispensingInformationBlock, DispensingInformationBlockView, DispensingScan,
};
use crate::dispensing_records::{
    lemma_date_record_round_trip, lemma_medical_institution_record_round_trip,
    lemma_pharmacist_record_round_trip, lemma_pharmacy_record_round_trip, DateRecordView,
    MedicalInstitutionRecordView, PharmacistRecordView, PharmacyRecordView,
};
use crate::error::ErrorView;
use crate::laws::prescription_block::{
    lemma_prescription_block_lines, lemma_prescription_block_round_trip,
};
use crate::prescription_block::PrescriptionBlockView;
use crate::record::{
    all_lines, are_lines, lemma_tags_all_are_lines, lemma_tags_all_concat, line_tag,
    optional_lines, LineModel, TagSet,
};
use crate::remark_records::{
    lemma_from_patient_record_round_trip, lemma_information_provision_record_round_trip,
    lemma_note_record_round_trip, lemma_notice_record_round_trip, FromPatientRecordView,
    InformationProvisionRecordView, NoteRecordView, NoticeRecordView,
};
use crate::text::lemma_lines_of_join;

verus! {

/// Where the sections before it have not been left behind, the line of
/// the date, if there is one, is read and kept.
pub proof fn lemma_read_date(st: DispensingScan, r: Option<DateRecordView>)
    requires
        st.watermark < 5,
        r matches Some(x) ==> x.is_encodable(),
    ensures
        DispensingInformationBlock::scan_from(st, optional_lines(r)) == Ok::<
            DispensingScan,
            ErrorView,
        >(
            match r {
                Some(x) => DispensingScan { date: Some(x), watermark: 5, ..st },
                None => st,
            },
        ),
{
    if r is Some {
        let x = r->Some_0;
        lemma_date_record_round_trip(x);
        let lines = optional_lines(r);
        reveal(DispensingInformationBlock::step);
        assert(lines.drop_last() =~= Seq::<Seq<char>>::empty());
        assert(DispensingInformationBlock::scan_from(st, lines.drop_last()) == Ok::<
            DispensingScan,
            ErrorView,
        >(st));
        assert(lines.last() == x.line());
    }
}

/// Where the sections before it have not been left behind, the line of
/// the pharmacy, if there is one, is read and kept.
pub proof fn lemma_read_pharmacy(st: DispensingScan, r: Option<PharmacyRecordView>)
    requires
        st.watermark < 11,
        r matches Some(x) ==> x.is_encodable(),
    ensures
        DispensingInformationBlock::scan_from(st, optional_lines(r)) == Ok::<
            DispensingScan,
            ErrorView,
        >(
            match r {
                Some(x) => DispensingScan { pharmacy: Some(x), watermark: 11, ..st },
                None => st,
            },
        ),
{
    if r is Some {
        let x = r->Some_0;
        lemma_pharmacy_record_round_trip(x);
        let lines = optional_lines(r);
        reveal(DispensingInformationBlock::step);
        assert(lines.drop_last() =~= Seq::<Seq<char>>::empty());
        assert(DispensingInformationBlock::scan_from(st, lines.drop_last()) == Ok::<
            DispensingScan,
            ErrorView,
        >(st));
        assert(lines.last() == x.line());
    }
}

/// Where the sections before it have not been left behind, the line of
/// the pharmacist, if there is one, is read and kept.
pub proof fn lemma_read_pharmacist(st: DispensingScan, r: Option<PharmacistRecordView>)
    requires
        st.watermark < 15,
        r matches Some(x) ==> x.is_encodable(),
    ensures
        DispensingInformationBlock::scan_from(st, optional_lines(r)) == Ok::<
            DispensingScan,
            ErrorView,
        >(
            match r {
                Some(x) => DispensingScan { pharmacist: Some(x), watermark: 15, ..st },
                None => st,
            },
        ),
{
    if r is Some {
        let x = r->Some_0;
        lemma_pharmacist_record_round_trip(x);
        let lines = optional_lines(r);
        reveal(DispensingInformationBlock::step);
        assert(lines.drop_last() =~= Seq::<Seq<char>>::empty());
        assert(DispensingInformationBlock::scan_from(st, lines.drop_last()) == Ok::<
            DispensingScan,
            ErrorView,
        >(st));
        assert(lines.last() == x.line());
    }
}

/// Where the sections before it have not been left behind, the line of
/// the institution, if there is one, is read and kept.
pub proof fn lemma_read_medical_institute(
    st: DispensingScan,
    r: Option<MedicalInstitutionRecordView>,
)
    requires
        st.watermark < 51,
        r matches Some(x) ==> x.is_encodable(),
    ensures
        DispensingInformationBlock::scan_from(st, optional_lines(r)) == Ok::<
            DispensingScan,
            ErrorView,
        >(
            match r {
                Some(x) => DispensingScan { medical_institute: Some(x), watermark: 51, ..st },
                None => st,
            },
        ),
{
    if r is Some {
        let x = r->Some_0;
        lemma_medical_institution_record_round_trip(x);
        let lines = optional_lines(r);
        reveal(DispensingInformationBlock::step);
        assert(lines.drop_last() =~= Seq::<Seq<char>>::empty());
        assert(DispensingInformationBlock::scan_from(st, lines.drop_last()) == Ok::<
            DispensingScan,
            ErrorView,
        >(st));
        assert(lines.last() == x.line());
    }
}

/// Where the sections before it have not been left behind, the line of
/// the notice, if there is one, is read and kept.
pub proof fn lemma_read_notice(st: DispensingScan, r: Option<NoticeRecordView>)
    requires
        st.watermark < 401,
        r matches Some(x) ==> x.is_encodable(),
    ensures
        DispensingInformationBlock::scan_from(st, optional_lines(r)) == Ok::<
            DispensingScan,
            ErrorView,
        >(
            match r {
                Some(x) => DispensingScan { notice: Some(x), watermark: 401, ..st },
                None => st,
            },
        ),
{
    if r is Some {
        let x = r->Some_0;
        lemma_notice_record_round_trip(x);
        let lines = optional_lines(r);
        reveal(DispensingInformationBlock::step);
        assert(lines.drop_last() =~= Seq::<Seq<char>>::empty());
        assert(DispensingInformationBlock::scan_from(st, lines.drop_last()) == Ok::<
            DispensingScan,
            ErrorView,
        >(st));
        assert(lines.last() == x.line());
    }
}

/// Where the sections before it have not been left behind, the line of
/// the information, if there is one, is read and kept.
pub proof fn lemma_read_information_provision(
    st: DispensingScan,
    r: Option<InformationProvisionRecordView>,
)
    requires
        st.watermark < 411,
        r matches Some(x) ==> x.is_encodable(),
    ensures
        DispensingInformationBlock::scan_from(st, optional_lines(r)) == Ok::<
            DispensingScan,
            ErrorView,
        >(
            match r {
                Some(x) => DispensingScan { information_provision: Some(x), watermark: 411, ..st },
                None => st,
            },
        ),
{
    if r is Some {
        let x = r->Some_0;
        lemma_information_provision_record_round_trip(x);
        let lines = optional_lines(r);
        reveal(DispensingInformationBlock::step);
        assert(lines.drop_last() =~= Seq::<Seq<char>>::empty());
        assert(DispensingInformationBlock::scan_from(st, lines.drop_last()) == Ok::<
            DispensingScan,
            ErrorView,
        >(st));
        assert(lines.last() == x.line());
    }
}

/// Where the sections before it have not been left behind, the line of
/// the note, if there is one, is read and kept.
pub proof fn lemma_read_note(st: DispensingScan, r: Option<NoteRecordView>)
    requires
        st.watermark < 501,
        r matches Some(x) ==> x.is_encodable(),
    ensures
        DispensingInformationBlock::scan_from(st, optional_lines(r)) == Ok::<
            DispensingScan,
            ErrorView,
        >(
            match r {
                Some(x) => DispensingScan { note: Some(x), watermark: 501, ..st },
                None => st,
            },
        ),
{
    if r is Some {
        let x = r->Some_0;
        lemma_note_record_round_trip(x);
        let lines = optional_lines(r);
        reveal(DispensingInformationBlock::step);
        assert(lines.drop_last() =~= Seq::<Seq<char>>::empty());
        assert(DispensingInformationBlock::scan_from(st, lines.drop_last()) == Ok::<
            DispensingScan,
            ErrorView,
        >(st));
        assert(lines.last() == x.line());
    }
}

/// Where the sections before it have not been left behind, the line of
/// what the patient wrote, if there is one, is read and kept.
pub proof fn lemma_read_from_patient(st: DispensingScan, r: Option<FromPatientRecordView>)
    requires
        st.watermark < 601,
        r matches Some(x) ==> x.is_encodable(),
    ensures
        DispensingInformationBlock::scan_from(st, optional_lines(r)) == Ok::<
            DispensingScan,
            ErrorView,
        >(
            match r {
                Some(x) => DispensingScan { from_patient: Some(x), watermark: 601, ..st },
                None => st,
            },
        ),
{
    if r is Some {
        let x = r->Some_0;
        lemma_from_patient_record_round_trip(x);
        let lines = optional_lines(r);
        reveal(DispensingInformationBlock::step);
        assert(lines.drop_last() =~= Seq::<Seq<char>>::empty());
        assert(DispensingInformationBlock::scan_from(st, lines.drop_last()) == Ok::<
            DispensingScan,
            ErrorView,
        >(st));
        assert(lines.last() == x.line());
    }
}

/// While the prescriptions have not been left behind, lines with the tags
/// 201 to 391 go to the prescription that is being read.
pub proof fn lemma_read_rp_lines(st: DispensingScan, lines: Seq<Seq<char>>)
    requires
        st.watermark <= 55,
        TagSet::Rp.tags_all(lines),
    ensures
        DispensingInformationBlock::scan_from(st, lines) == Ok::<DispensingScan, ErrorView>(
            if lines.len() == 0 {
                st
            } else {
                DispensingScan { pending: st.pending + lines, watermark: 55, ..st }
            },
        ),
    decreases lines.len(),
{
    if lines.len() > 0 {
        let init = lines.drop_last();
        assert forall|i: int| 0 <= i < init.len() implies TagSet::Rp.tags(
            #[trigger] init[i],
        ) by {
            assert(init[i] == lines[i]);
        }
        lemma_read_rp_lines(st, init);
        assert(TagSet::Rp.tags(lines[lines.len() - 1]));
        reveal(DispensingInformationBlock::step);
        if init.len() == 0 {
            assert(st.pending.push(lines.last()) =~= st.pending + lines);
        } else {
            assert((st.pending + init).push(lines.last()) =~= st.pending + lines);
        }
    }
}

/// Whether the lines that are pending are none or the lines of the
/// prescription `last`.
pub open spec fn pending_is(pending: Seq<Seq<char>>, last: Option<PrescriptionBlockView>) -> bool {
    match last {
        Some(block) => block.is_encodable() && pending == block.lines() && pending.len() > 0,
        None => pending.len() == 0,
    }
}

/// The prescriptions that were read, with the one that is pending.
pub open spec fn with_pending(
    prescriptions: Seq<PrescriptionBlockView>,
    last: Option<PrescriptionBlockView>,
) -> Seq<PrescriptionBlockView> {
    match last {
        Some(block) => prescriptions.push(block),
        None => prescriptions,
    }
}

/// The lines of a prescription end the prescription that was begun, which
/// it takes the line of a physician to do, and become the lines that are
/// pending.
pub proof fn lemma_read_prescription_block(
    st: DispensingScan,
    last: Option<PrescriptionBlockView>,
    block: PrescriptionBlockView,
)
    requires
        st.watermark <= 55,
        pending_is(st.pending, last),
        block.is_encodable(),
        block.lines().len() > 0,
        last is Some ==> block.physician is Some,
    ensures
        DispensingInformationBlock::scan_from(st, block.lines()) == Ok::<
            DispensingScan,
            ErrorView,
        >(
            DispensingScan {
                prescriptions: with_pending(st.prescriptions, last),
                pending: block.lines(),
                watermark: 55,
                ..st
            },
        ),
{
    lemma_prescription_block_lines(block);
    if last is Some {
        lemma_prescription_block_lines(last->Some_0);
        lemma_prescription_block_round_trip(last->Some_0);
    }
    let head = block.physician_lines();
    let rps = all_lines(block.rps);
    if block.physician is Some {
        let st1 = DispensingScan {
            prescriptions: with_pending(st.prescriptions, last),
            pending: head,
            watermark: 55,
            ..st
        };
        assert(DispensingInformationBlock::scan_from(st, head) == Ok::<DispensingScan, ErrorView>(
            st1,
        )) by {
            reveal(DispensingInformationBlock::step);
            assert(head.drop_last() =~= Seq::<Seq<char>>::empty());
            assert(DispensingInformationBlock::scan_from(st, head.drop_last()) == Ok::<
                DispensingScan,
                ErrorView,
            >(st));
        }
        lemma_read_rp_lines(st1, rps);
        DispensingInformationBlock::lemma_scan_from_concat(st, head, rps);
        if rps.len() == 0 {
            assert(head + rps =~= head);
        }
    } else {
        assert(head + rps =~= rps);
        lemma_read_rp_lines(st, rps);
        assert(st.pending + rps =~= rps);
    }
}

/// Whether prescriptions can stand one after the other in a dispensing and
/// be told apart: each can be written and has a line, and each but the
/// first names its physician.
pub open spec fn are_separable(blocks: Seq<PrescriptionBlockView>) -> bool {
    &&& forall|i: int| 0 <= i < blocks.len() ==> (#[trigger] blocks[i]).is_encodable()
    &&& forall|i: int| 0 <= i < blocks.len() ==> (#[trigger] blocks[i]).lines().len() > 0
    &&& forall|i: int| 1 <= i < blocks.len() ==> (#[trigger] blocks[i]).physician is Some
}

/// The lines of prescriptions that can be written are lines with the tags
/// 55 and 201 to 391.
pub proof fn lemma_prescription_blocks_lines(blocks: Seq<PrescriptionBlockView>)
    requires
        forall|i: int| 0 <= i < blocks.len() ==> (#[trigger] blocks[i]).is_encodable(),
    ensures
        TagSet::Prescription.tags_all(all_lines(blocks)),
    decreases blocks.len(),
{
    if blocks.len() > 0 {
        let init = blocks.drop_last();
        assert forall|i: int| 0 <= i < init.len() implies (#[trigger] init[i]).is_encodable() by {
            assert(init[i] == blocks[i]);
        }
        lemma_prescription_blocks_lines(init);
        lemma_prescription_block_lines(blocks.last());
        lemma_tags_all_concat(TagSet::Prescription, all_lines(init), blocks.last().lines());
    }
}

/// Reading the lines of prescriptions leaves all but the last of them read
/// and the lines of the last pending.
pub proof fn lemma_read_prescription_blocks(st: DispensingScan, blocks: Seq<PrescriptionBlockView>)
    requires
        st.watermark <= 55,
        st.pending.len() == 0,
        blocks.len() >= 1,
        are_separable(blocks),
    ensures
        DispensingInformationBlock::scan_from(st, all_lines(blocks)) == Ok::<
            DispensingScan,
            ErrorView,
        >(
            DispensingScan {
                prescriptions: st.prescriptions + blocks.drop_last(),
                pending: blocks.last().lines(),
                watermark: 55,
                ..st
            },
        ),
    decreases blocks.len(),
{
    let init = blocks.drop_last();
    let last = blocks.last();
    assert(are_separable(init)) by {
        assert forall|i: int| 0 <= i < init.len() implies (#[trigger] init[i]).is_encodable()
            && init[i].lines().len() > 0 by {
            assert(init[i] == blocks[i]);
        }
        assert forall|i: int| 1 <= i < init.len() implies (#[trigger] init[i]).physician
            is Some by {
            assert(init[i] == blocks[i]);
        }
    }
    DispensingInformationBlock::lemma_scan_from_concat(st, all_lines(init), last.lines());
    if init.len() == 0 {
        assert(all_lines(init) =~= Seq::<Seq<char>>::empty());
        lemma_read_prescription_block(st, None, last);
        assert(st.prescriptions + init =~= st.prescriptions);
    } else {
        lemma_read_prescription_blocks(st, init);
        let mid = DispensingScan {
            prescriptions: st.prescriptions + init.drop_last(),
            pending: init.last().lines(),
            watermark: 55,
            ..st
        };
        assert(blocks[blocks.len() - 1].physician is Some);
        lemma_read_prescription_block(mid, Some(init.last()), last);
        assert((st.prescriptions + init.drop_last()).push(init.last()) =~= st.prescriptions
            + init);
    }
}

impl DispensingInformationBlockView {
    /// What has been read when the lines before the prescriptions are.
    pub open spec fn head_state(self) -> DispensingScan {
        DispensingScan {
            date: Some(self.date),
            pharmacy: Some(self.pharmacy),
            pharmacist: self.pharmacist,
            medical_institute: self.medical_institute,
            watermark: if self.medical_institute is Some {
                51
            } else if self.pharmacist is Some {
                15
            } else {
                11
            },
            ..DispensingInformationBlock::start()
        }
    }

    /// What has been read when the lines of the prescriptions are too.
    pub open spec fn body_state(self) -> DispensingScan {
        if self.prescriptions.len() == 0 {
            self.head_state()
        } else {
            DispensingScan {
                prescriptions: self.prescriptions.drop_last(),
                pending: self.prescriptions.last().lines(),
                watermark: 55,
                ..self.head_state()
            }
        }
    }

    /// What has been read when all lines are.
    pub open spec fn tail_state(self) -> DispensingScan {
        DispensingScan {
            notice: self.notice,
            information_provision: self.information_provision,
            note: self.note,
            from_patient: self.from_patient,
            watermark: if self.from_patient is Some {
                601
            } else if self.note is Some {
                501
            } else if self.information_provision is Some {
                411
            } else if self.notice is Some {
                401
            } else {
                self.body_state().watermark
            },
            ..self.body_state()
        }
    }
}

/// Reading the lines before the prescriptions.
pub proof fn lemma_read_head(v: DispensingInformationBlockView)
    requires
        v.is_encodable(),
    ensures
        DispensingInformationBlock::scan_from(DispensingInformationBlock::start(), v.head_lines())
            == Ok::<DispensingScan, ErrorView>(v.head_state()),
{
    let start = DispensingInformationBlock::start();
    let a = optional_lines(Some(v.date));
    let b = optional_lines(Some(v.pharmacy));
    let c = optional_lines(v.pharmacist);
    let d = optional_lines(v.medical_institute);
    lemma_read_date(start, Some(v.date));
    let st1 = DispensingScan { date: Some(v.date), watermark: 5, ..start };
    lemma_read_pharmacy(st1, Some(v.pharmacy));
    let st2 = DispensingScan { pharmacy: Some(v.pharmacy), watermark: 11, ..st1 };
    lemma_read_pharmacist(st2, v.pharmacist);
    let st3 = match v.pharmacist {
        Some(x) => DispensingScan { pharmacist: Some(x), watermark: 15, ..st2 },
        None => st2,
    };
    lemma_read_medical_institute(st3, v.medical_institute);
    DispensingInformationBlock::lemma_scan_from_concat(start, a, b);
    DispensingInformationBlock::lemma_scan_from_concat(start, a + b, c);
    DispensingInformationBlock::lemma_scan_from_concat(start, a + b + c, d);
    assert(v.head_lines() =~= a + b + c + d);
}

/// Reading the lines of the prescriptions after the lines before them.
pub proof fn lemma_read_body(v: DispensingInformationBlockView)
    requires
        v.is_encodable(),
    ensures
        DispensingInformationBlock::scan_from(v.head_state(), all_lines(v.prescriptions)) == Ok::<
            DispensingScan,
            ErrorView,
        >(v.body_state()),
{
    if v.prescriptions.len() > 0 {
        assert(are_separable(v.prescriptions));
        lemma_read_prescription_blocks(v.head_state(), v.prescriptions);
        assert(v.head_state().prescriptions + v.prescriptions.drop_last()
            =~= v.prescriptions.drop_last());
    }
}

/// Reading the lines after the prescriptions.
pub proof fn lemma_read_tail(v: DispensingInformationBlockView)
    requires
        v.is_encodable(),
    ensures
        DispensingInformationBlock::scan_from(v.body_state(), v.tail_lines()) == Ok::<
            DispensingScan,
            ErrorView,
        >(v.tail_state()),
{
    let st = v.body_state();
    let a = optional_lines(v.notice);
    let b = optional_lines(v.information_provision);
    let c = optional_lines(v.note);
    let d = optional_lines(v.from_patient);
    lemma_read_notice(st, v.notice);
    let st1 = match v.notice {
        Some(x) => DispensingScan { notice: Some(x), watermark: 401, ..st },
        None => st,
    };
    lemma_read_information_provision(st1, v.information_provision);
    let st2 = match v.information_provision {
        Some(x) => DispensingScan { information_provision: Some(x), watermark: 411, ..st1 },
        None => st1,
    };
    lemma_read_note(st2, v.note);
    let st3 = match v.note {
        Some(x) => DispensingScan { note: Some(x), watermark: 501, ..st2 },
        None => st2,
    };
    lemma_read_from_patient(st3, v.from_patient);
    DispensingInformationBlock::lemma_scan_from_concat(st, a, b);
    DispensingInformationBlock::lemma_scan_from_concat(st, a + b, c);
    DispensingInformationBlock::lemma_scan_from_concat(st, a + b + c, d);
    assert(v.tail_lines() =~= a + b + c + d);
}

/// Reading all lines of a dispensing.
pub proof fn lemma_read_all(v: DispensingInformationBlockView)
    requires
        v.is_encodable(),
    ensures
        DispensingInformationBlock::scan(v.lines()) == Ok::<DispensingScan, ErrorView>(
            v.tail_state(),
        ),
{
    let start = DispensingInformationBlock::start();
    let head = v.head_lines();
    let body = all_lines(v.prescriptions);
    let tail = v.tail_lines();
    lemma_read_head(v);
    lemma_read_body(v);
    lemma_read_tail(v);
    DispensingInformationBlock::lemma_scan_from_concat(start, head, body);
    DispensingInformationBlock::lemma_scan_from_concat(start, head + body, tail);
}

/// The lines before the prescriptions: the line of the date, with the tag
/// 5, and after it lines with other tags of a dispensing.
pub proof fn lemma_head_lines(v: DispensingInformationBlockView)
    requires
        v.is_encodable(),
    ensures
        v.head_lines().len() >= 2,
        line_tag(v.head_lines()[0]) == Some(5nat),
        crate::text::is_line(v.head_lines()[0]),
        !crate::record::is_version_line(v.head_lines()[0]),
        TagSet::DispensingRest.tags_all(v.head_lines().skip(1)),
{
    let set = TagSet::DispensingRest;
    let first = v.date.line();
    assert(line_tag(first) == Some(5nat) && crate::text::is_line(first)
        && !crate::record::is_version_line(first)) by {
        lemma_date_record_round_trip(v.date);
    }
    let b = seq![v.pharmacy.line()];
    assert(set.tags_all(b)) by {
        lemma_pharmacy_record_round_trip(v.pharmacy);
    }
    let c = optional_lines(v.pharmacist);
    assert(set.tags_all(c)) by {
        if v.pharmacist is Some {
            lemma_pharmacist_record_round_trip(v.pharmacist->Some_0);
        }
    }
    let d = optional_lines(v.medical_institute);
    assert(set.tags_all(d)) by {
        if v.medical_institute is Some {
            lemma_medical_institution_record_round_trip(v.medical_institute->Some_0);
        }
    }
    lemma_tags_all_concat(set, b, c);
    lemma_tags_all_concat(set, b + c, d);
    assert(v.head_lines().skip(1) =~= b + c + d);
    assert(v.head_lines()[0] == first);
}

/// The lines after the prescriptions are lines with tags of a dispensing
/// other than 5.
pub proof fn lemma_tail_lines(v: DispensingInformationBlockView)
    requires
        v.is_encodable(),
    ensures
        TagSet::DispensingRest.tags_all(v.tail_lines()),
{
    let set = TagSet::DispensingRest;
    let e = optional_lines(v.notice);
    assert(set.tags_all(e)) by {
        if v.notice is Some {
            lemma_notice_record_round_trip(v.notice->Some_0);
        }
    }
    let f = optional_lines(v.information_provision);
    assert(set.tags_all(f)) by {
        if v.information_provision is Some {
            lemma_information_provision_record_round_trip(v.information_provision->Some_0);
        }
    }
    let g = optional_lines(v.note);
    assert(set.tags_all(g)) by {
        if v.note is Some {
            lemma_note_record_round_trip(v.note->Some_0);
        }
    }
    let h = optional_lines(v.from_patient);
    assert(set.tags_all(h)) by {
        if v.from_patient is Some {
            lemma_from_patient_record_round_trip(v.from_patient->Some_0);
        }
    }
    lemma_tags_all_concat(set, e, f);
    lemma_tags_all_concat(set, e + f, g);
    lemma_tags_all_concat(set, e + f + g, h);
}

/// The lines of the prescriptions of a dispensing are lines with tags of a
/// dispensing other than 5.
pub proof fn lemma_body_lines(v: DispensingInformationBlockView)
    requires
        v.is_encodable(),
    ensures
        TagSet::DispensingRest.tags_all(all_lines(v.prescriptions)),
{
    let body = all_lines(v.prescriptions);
    lemma_prescription_blocks_lines(v.prescriptions);
    assert forall|i: int| 0 <= i < body.len() implies TagSet::DispensingRest.tags(
        #[trigger] body[i],
    ) by {
        assert(TagSet::Prescription.tags(body[i]));
    }
}

/// The lines of a dispensing that can be written: the line of the date,
/// with the tag 5, and after it lines with the other tags of a dispensing.
pub proof fn lemma_dispensing_block_lines(v: DispensingInformationBlockView)
    requires
        v.is_encodable(),
    ensures
        v.lines().len() >= 2,
        line_tag(v.lines()[0]) == Some(5nat),
        crate::text::is_line(v.lines()[0]),
        !crate::record::is_version_line(v.lines()[0]),
        TagSet::DispensingRest.tags_all(v.lines().skip(1)),
        are_lines(v.lines()),
{
    let set = TagSet::DispensingRest;
    let head = v.head_lines();
    let body = all_lines(v.prescriptions);
    let tail = v.tail_lines();
    lemma_head_lines(v);
    lemma_body_lines(v);
    lemma_tail_lines(v);
    lemma_tags_all_concat(set, head.skip(1), body);
    lemma_tags_all_concat(set, head.skip(1) + body, tail);
    let rest = head.skip(1) + body + tail;
    assert(v.lines().skip(1) =~= rest);
    assert(v.lines()[0] == head[0]);
    lemma_tags_all_are_lines(set, rest);
    assert forall|i: int| 0 <= i < v.lines().len() implies crate::text::is_line(
        #[trigger] v.lines()[i],
    ) by {
        if i > 0 {
            assert(v.lines()[i] == rest[i - 1]);
        }
    }
}

/// A dispensing that can be written reads back from its lines, and from its
/// text, as itself.
pub proof fn lemma_dispensing_block_round_trip(v: DispensingInformationBlockView)
    requires
        v.is_encodable(),
    ensures
        DispensingInformationBlock::spec_from_lines(v.lines()) == Ok::<
            DispensingInformationBlockView,
            ErrorView,
        >(v),
        DispensingInformationBlock::spec_from_str(v.text()) == Ok::<
            DispensingInformationBlockView,
            ErrorView,
        >(v),
{
    lemma_read_all(v);
    assert(DispensingInformationBlock::finish(v.tail_state()) == Ok::<
        DispensingInformationBlockView,
        ErrorView,
    >(v)) by {
        if v.prescriptions.len() > 0 {
            let last = v.prescriptions.last();
            lemma_prescription_block_round_trip(last);
            assert(v.prescriptions.drop_last().push(last) =~= v.prescriptions);
        } else {
            assert(v.tail_state().prescriptions =~= v.prescriptions);
        }
    }
    assert(DispensingInformationBlock::spec_from_str(v.text())
        == DispensingInformationBlock::spec_from_lines(v.lines())) by {
        lemma_dispensing_block_lines(v);
        lemma_lines_of_join(v.lines());
    }
}

} // verus!
