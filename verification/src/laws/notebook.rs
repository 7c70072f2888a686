//! A notebook that is written reads back as itself.

use vstd::prelude::*;
use crate::dispensing_block::DispensingInformationBlockView;
use crate::error::ErrorView;
use crate::laws::dispensing_block::{
    lemma_dispensing_block_lines, lemma_dispensing_block_round_trip,
};
use crate::notebook::{MedicineNotebook, MedicineNotebookView, NotebookScan};
use crate::patient_records::{
    lemma_memo_record_round_trip, lemma_otc_drug_record_round_trip,
    lemma_patient_record_round_trip, lemma_special_patient_note_record_round_trip,
    MemoRecordView, OtcDrugRecordView, SpecialPatientNoteRecordView,
};
use crate::record::{all_lines, are_lines, LineModel, TagSet};
use crate::remark_records::{lemma_family_pharmacist_record_round_trip, FamilyPharmacistRecordView};
use crate::text::{is_line, lemma_lines_of_join};
use crate::version::lemma_version_record_round_trip;

verus! {

/// Where the sections after theirs have not been begun, the lines of
/// special notes are read and added to what was read.
pub proof fn lemma_read_special_patient_notes(
    st: NotebookScan,
    records: Seq<SpecialPatientNoteRecordView>,
)
    requires
        st.watermark <= 2,
        forall|i: int| 0 <= i < records.len() ==> (#[trigger] records[i]).is_encodable(),
    ensures
        MedicineNotebook::scan_from(st, all_lines(records)) == Ok::<NotebookScan, ErrorView>(
            if records.len() == 0 {
                st
            } else {
                NotebookScan {
                    special_patient_notes: st.special_patient_notes + records,
                    watermark: 2,
                    ..st
                }
            },
        ),
        are_lines(all_lines(records)),
    decreases records.len(),
{
    if records.len() > 0 {
        let init = records.drop_last();
        let last = records.last();
        assert forall|i: int| 0 <= i < init.len() implies (#[trigger] init[i]).is_encodable() by {
            assert(init[i] == records[i]);
        }
        lemma_read_special_patient_notes(st, init);
        lemma_special_patient_note_record_round_trip(last);
        let lines = all_lines(records);
        assert(lines.drop_last() =~= all_lines(init));
        assert(lines.last() == last.line());
        reveal(MedicineNotebook::step);
        if init.len() == 0 {
            assert(st.special_patient_notes.push(last) =~= st.special_patient_notes + records);
        } else {
            let read = st.special_patient_notes + init;
            assert(read.push(last) =~= st.special_patient_notes + records);
        }
        assert forall|i: int| 0 <= i < lines.len() implies is_line(#[trigger] lines[i]) by {
            if i < lines.len() - 1 {
                assert(lines[i] == all_lines(init)[i]);
            }
        }
    }
}

/// Where the sections after theirs have not been begun, the lines of
/// drugs taken without a prescription are read and added to what was read.
pub proof fn lemma_read_otc_drugs(st: NotebookScan, records: Seq<OtcDrugRecordView>)
    requires
        st.watermark <= 3,
        forall|i: int| 0 <= i < records.len() ==> (#[trigger] records[i]).is_encodable(),
    ensures
        MedicineNotebook::scan_from(st, all_lines(records)) == Ok::<NotebookScan, ErrorView>(
            if records.len() == 0 {
                st
            } else {
                NotebookScan { otc_drugs: st.otc_drugs + records, watermark: 3, ..st }
            },
        ),
        are_lines(all_lines(records)),
    decreases records.len(),
{
    if records.len() > 0 {
        let init = records.drop_last();
        let last = records.last();
        assert forall|i: int| 0 <= i < init.len() implies (#[trigger] init[i]).is_encodable() by {
            assert(init[i] == records[i]);
        }
        lemma_read_otc_drugs(st, init);
        lemma_otc_drug_record_round_trip(last);
        let lines = all_lines(records);
        assert(lines.drop_last() =~= all_lines(init));
        assert(lines.last() == last.line());
        reveal(MedicineNotebook::step);
        if init.len() == 0 {
            assert(st.otc_drugs.push(last) =~= st.otc_drugs + records);
        } else {
            assert((st.otc_drugs + init).push(last) =~= st.otc_drugs + records);
        }
        assert forall|i: int| 0 <= i < lines.len() implies is_line(#[trigger] lines[i]) by {
            if i < lines.len() - 1 {
                assert(lines[i] == all_lines(init)[i]);
            }
        }
    }
}

/// Where the sections after theirs have not been begun, the lines of
/// memos are read and added to what was read.
pub proof fn lemma_read_memos(st: NotebookScan, records: Seq<MemoRecordView>)
    requires
        st.watermark <= 4,
        forall|i: int| 0 <= i < records.len() ==> (#[trigger] records[i]).is_encodable(),
    ensures
        MedicineNotebook::scan_from(st, all_lines(records)) == Ok::<NotebookScan, ErrorView>(
            if records.len() == 0 {
                st
            } else {
                NotebookScan { memos: st.memos + records, watermark: 4, ..st }
            },
        ),
        are_lines(all_lines(records)),
    decreases records.len(),
{
    if records.len() > 0 {
        let init = records.drop_last();
        let last = records.last();
        assert forall|i: int| 0 <= i < init.len() implies (#[trigger] init[i]).is_encodable() by {
            assert(init[i] == records[i]);
        }
        lemma_read_memos(st, init);
        lemma_memo_record_round_trip(last);
        let lines = all_lines(records);
        assert(lines.drop_last() =~= all_lines(init));
        assert(lines.last() == last.line());
        reveal(MedicineNotebook::step);
        if init.len() == 0 {
            assert(st.memos.push(last) =~= st.memos + records);
        } else {
            assert((st.memos + init).push(last) =~= st.memos + records);
        }
        assert forall|i: int| 0 <= i < lines.len() implies is_line(#[trigger] lines[i]) by {
            if i < lines.len() - 1 {
                assert(lines[i] == all_lines(init)[i]);
            }
        }
    }
}

/// Where the sections after theirs have not been begun, the lines of
/// family pharmacists are read and added to what was read.
pub proof fn lemma_read_family_pharmacist(
    st: NotebookScan,
    records: Seq<FamilyPharmacistRecordView>,
)
    requires
        st.watermark <= 701,
        forall|i: int| 0 <= i < records.len() ==> (#[trigger] records[i]).is_encodable(),
    ensures
        MedicineNotebook::scan_from(st, all_lines(records)) == Ok::<NotebookScan, ErrorView>(
            if records.len() == 0 {
                st
            } else {
                NotebookScan {
                    family_pharmacist: st.family_pharmacist + records,
                    watermark: 701,
                    ..st
                }
            },
        ),
        are_lines(all_lines(records)),
    decreases records.len(),
{
    if records.len() > 0 {
        let init = records.drop_last();
        let last = records.last();
        assert forall|i: int| 0 <= i < init.len() implies (#[trigger] init[i]).is_encodable() by {
            assert(init[i] == records[i]);
        }
        lemma_read_family_pharmacist(st, init);
        lemma_family_pharmacist_record_round_trip(last);
        let lines = all_lines(records);
        assert(lines.drop_last() =~= all_lines(init));
        assert(lines.last() == last.line());
        reveal(MedicineNotebook::step);
        if init.len() == 0 {
            assert(st.family_pharmacist.push(last) =~= st.family_pharmacist + records);
        } else {
            assert((st.family_pharmacist + init).push(last) =~= st.family_pharmacist + records);
        }
        assert forall|i: int| 0 <= i < lines.len() implies is_line(#[trigger] lines[i]) by {
            if i < lines.len() - 1 {
                assert(lines[i] == all_lines(init)[i]);
            }
        }
    }
}

/// While the dispensings have not been left behind, lines with the tags
/// of a dispensing other than 5 go to the dispensing that is being read.
pub proof fn lemma_read_dispensing_rest(st: NotebookScan, lines: Seq<Seq<char>>)
    requires
        st.watermark <= 5,
        TagSet::DispensingRest.tags_all(lines),
    ensures
        MedicineNotebook::scan_from(st, lines) == Ok::<NotebookScan, ErrorView>(
            if lines.len() == 0 {
                st
            } else {
                NotebookScan { pending: st.pending + lines, watermark: 5, ..st }
            },
        ),
    decreases lines.len(),
{
    if lines.len() > 0 {
        let init = lines.drop_last();
        assert forall|i: int| 0 <= i < init.len() implies TagSet::DispensingRest.tags(
            #[trigger] init[i],
        ) by {
            assert(init[i] == lines[i]);
        }
        lemma_read_dispensing_rest(st, init);
        assert(TagSet::DispensingRest.tags(lines[lines.len() - 1]));
        reveal(MedicineNotebook::step);
        if init.len() == 0 {
            assert(st.pending.push(lines.last()) =~= st.pending + lines);
        } else {
            assert((st.pending + init).push(lines.last()) =~= st.pending + lines);
        }
    }
}

/// Whether the lines that are pending are none or the lines of the
/// dispensing `last`.
pub open spec fn pending_is(
    pending: Seq<Seq<char>>,
    last: Option<DispensingInformationBlockView>,
) -> bool {
    match last {
        Some(block) => block.is_encodable() && pending == block.lines(),
        None => pending.len() == 0,
    }
}

/// The dispensings that were read, with the one that is pending.
pub open spec fn with_pending(
    blocks: Seq<DispensingInformationBlockView>,
    last: Option<DispensingInformationBlockView>,
) -> Seq<DispensingInformationBlockView> {
    match last {
        Some(block) => blocks.push(block),
        None => blocks,
    }
}

/// The lines of a dispensing end the dispensing that was begun and become
/// the lines that are pending.
pub proof fn lemma_read_dispensing_block(
    st: NotebookScan,
    last: Option<DispensingInformationBlockView>,
    block: DispensingInformationBlockView,
)
    requires
        st.watermark <= 5,
        pending_is(st.pending, last),
        block.is_encodable(),
    ensures
        MedicineNotebook::scan_from(st, block.lines()) == Ok::<NotebookScan, ErrorView>(
            NotebookScan {
                dispensing_information: with_pending(st.dispensing_information, last),
                pending: block.lines(),
                watermark: 5,
                ..st
            },
        ),
{
    lemma_dispensing_block_lines(block);
    if last is Some {
        lemma_dispensing_block_lines(last->Some_0);
        lemma_dispensing_block_round_trip(last->Some_0);
    }
    let lines = block.lines();
    let first = seq![lines[0]];
    let rest = lines.skip(1);
    assert(lines =~= first + rest);
    let st1 = NotebookScan {
        dispensing_information: with_pending(st.dispensing_information, last),
        pending: first,
        watermark: 5,
        ..st
    };
    assert(MedicineNotebook::scan_from(st, first) == Ok::<NotebookScan, ErrorView>(st1)) by {
        reveal(MedicineNotebook::step);
        assert(first.drop_last() =~= Seq::<Seq<char>>::empty());
        assert(MedicineNotebook::scan_from(st, first.drop_last()) == Ok::<
            NotebookScan,
            ErrorView,
        >(st));
    }
    lemma_read_dispensing_rest(st1, rest);
    MedicineNotebook::lemma_scan_from_concat(st, first, rest);
    assert(rest.len() > 0);
}

/// The lines of dispensings that can be written are lines.
pub proof fn lemma_dispensing_blocks_lines(blocks: Seq<DispensingInformationBlockView>)
    requires
        forall|i: int| 0 <= i < blocks.len() ==> (#[trigger] blocks[i]).is_encodable(),
    ensures
        are_lines(all_lines(blocks)),
    decreases blocks.len(),
{
    if blocks.len() > 0 {
        let init = blocks.drop_last();
        assert forall|i: int| 0 <= i < init.len() implies (#[trigger] init[i]).is_encodable() by {
            assert(init[i] == blocks[i]);
        }
        lemma_dispensing_blocks_lines(init);
        lemma_dispensing_block_lines(blocks.last());
        let lines = all_lines(blocks);
        assert forall|i: int| 0 <= i < lines.len() implies is_line(#[trigger] lines[i]) by {
            if i < all_lines(init).len() {
                assert(lines[i] == all_lines(init)[i]);
            } else {
                assert(lines[i] == blocks.last().lines()[i - all_lines(init).len()]);
            }
        }
    }
}

/// Reading the lines of dispensings leaves all but the last of them read
/// and the lines of the last pending.
pub proof fn lemma_read_dispensing_blocks(
    st: NotebookScan,
    blocks: Seq<DispensingInformationBlockView>,
)
    requires
        st.watermark <= 5,
        st.pending.len() == 0,
        blocks.len() >= 1,
        forall|i: int| 0 <= i < blocks.len() ==> (#[trigger] blocks[i]).is_encodable(),
    ensures
        MedicineNotebook::scan_from(st, all_lines(blocks)) == Ok::<NotebookScan, ErrorView>(
            NotebookScan {
                dispensing_information: st.dispensing_information + blocks.drop_last(),
                pending: blocks.last().lines(),
                watermark: 5,
                ..st
            },
        ),
    decreases blocks.len(),
{
    let init = blocks.drop_last();
    let last = blocks.last();
    assert forall|i: int| 0 <= i < init.len() implies (#[trigger] init[i]).is_encodable() by {
        assert(init[i] == blocks[i]);
    }
    MedicineNotebook::lemma_scan_from_concat(st, all_lines(init), last.lines());
    if init.len() == 0 {
        assert(all_lines(init) =~= Seq::<Seq<char>>::empty());
        lemma_read_dispensing_block(st, None, last);
        assert(st.dispensing_information + init =~= st.dispensing_information);
    } else {
        lemma_read_dispensing_blocks(st, init);
        let mid = NotebookScan {
            dispensing_information: st.dispensing_information + init.drop_last(),
            pending: init.last().lines(),
            watermark: 5,
            ..st
        };
        lemma_read_dispensing_block(mid, Some(init.last()), last);
        assert((st.dispensing_information + init.drop_last()).push(init.last())
            =~= st.dispensing_information + init);
    }
}

impl MedicineNotebookView {
    /// What has been read when the version and the patient are.
    pub open spec fn opened_state(self) -> NotebookScan {
        NotebookScan {
            version: Some(self.version),
            patient: Some(self.patient),
            watermark: 1,
            ..MedicineNotebook::start()
        }
    }

    /// What has been read when the lines before the dispensings are.
    pub open spec fn head_state(self) -> NotebookScan {
        NotebookScan {
            special_patient_notes: self.special_patient_notes,
            otc_drugs: self.otc_drugs,
            memos: self.memos,
            watermark: if self.memos.len() > 0 {
                4
            } else if self.otc_drugs.len() > 0 {
                3
            } else if self.special_patient_notes.len() > 0 {
                2
            } else {
                1
            },
            ..self.opened_state()
        }
    }

    /// What has been read when the lines of the dispensings are too.
    pub open spec fn body_state(self) -> NotebookScan {
        if self.dispensing_information.len() == 0 {
            self.head_state()
        } else {
            NotebookScan {
                dispensing_information: self.dispensing_information.drop_last(),
                pending: self.dispensing_information.last().lines(),
                watermark: 5,
                ..self.head_state()
            }
        }
    }

    /// What has been read when all lines are.
    pub open spec fn tail_state(self) -> NotebookScan {
        if self.family_pharmacist.len() == 0 {
            self.body_state()
        } else {
            NotebookScan {
                family_pharmacist: self.family_pharmacist,
                watermark: 701,
                ..self.body_state()
            }
        }
    }
}

/// Reading the lines of the version and of the patient.
pub proof fn lemma_read_opening(v: MedicineNotebookView)
    requires
        v.is_encodable(),
    ensures
        MedicineNotebook::scan_from(
            MedicineNotebook::start(),
            seq![v.version.line(), v.patient.line()],
        ) == Ok::<NotebookScan, ErrorView>(v.opened_state()),
        is_line(v.version.line()),
        is_line(v.patient.line()),
{
    let start = MedicineNotebook::start();
    let one = seq![v.version.line()];
    let two = seq![v.version.line(), v.patient.line()];
    lemma_version_record_round_trip(v.version);
    lemma_patient_record_round_trip(v.patient);
    reveal(MedicineNotebook::step);
    let st1 = NotebookScan { version: Some(v.version), ..start };
    assert(one.drop_last() =~= Seq::<Seq<char>>::empty());
    assert(MedicineNotebook::scan_from(start, one.drop_last()) == Ok::<NotebookScan, ErrorView>(
        start,
    ));
    assert(MedicineNotebook::scan_from(start, one) == Ok::<NotebookScan, ErrorView>(st1));
    assert(two.drop_last() =~= one);
}

/// Reading the lines before the dispensings.
pub proof fn lemma_read_head(v: MedicineNotebookView)
    requires
        v.is_encodable(),
    ensures
        MedicineNotebook::scan_from(MedicineNotebook::start(), v.head_lines()) == Ok::<
            NotebookScan,
            ErrorView,
        >(v.head_state()),
        are_lines(v.head_lines()),
{
    let start = MedicineNotebook::start();
    let a = seq![v.version.line(), v.patient.line()];
    let b = all_lines(v.special_patient_notes);
    let c = all_lines(v.otc_drugs);
    let d = all_lines(v.memos);
    lemma_read_opening(v);
    let st1 = v.opened_state();
    lemma_read_special_patient_notes(st1, v.special_patient_notes);
    let st2 = if v.special_patient_notes.len() == 0 {
        st1
    } else {
        NotebookScan {
            special_patient_notes: st1.special_patient_notes + v.special_patient_notes,
            watermark: 2,
            ..st1
        }
    };
    lemma_read_otc_drugs(st2, v.otc_drugs);
    let st3 = if v.otc_drugs.len() == 0 {
        st2
    } else {
        NotebookScan { otc_drugs: st2.otc_drugs + v.otc_drugs, watermark: 3, ..st2 }
    };
    lemma_read_memos(st3, v.memos);
    MedicineNotebook::lemma_scan_from_concat(start, a, b);
    MedicineNotebook::lemma_scan_from_concat(start, a + b, c);
    MedicineNotebook::lemma_scan_from_concat(start, a + b + c, d);
    assert(v.head_lines() =~= a + b + c + d);
    assert(st1.special_patient_notes + v.special_patient_notes =~= v.special_patient_notes);
    assert(st2.otc_drugs + v.otc_drugs =~= v.otc_drugs);
    assert(st3.memos + v.memos =~= v.memos);
    assert(v.special_patient_notes.len() == 0 ==> v.special_patient_notes =~= Seq::empty());
    assert(v.otc_drugs.len() == 0 ==> v.otc_drugs =~= Seq::empty());
    assert(v.memos.len() == 0 ==> v.memos =~= Seq::empty());
    let head = v.head_lines();
    assert forall|i: int| 0 <= i < head.len() implies is_line(#[trigger] head[i]) by {
        if i < 2 {
            assert(head[i] == a[i]);
        } else if i < 2 + b.len() {
            assert(head[i] == b[i - 2]);
        } else if i < 2 + b.len() + c.len() {
            assert(head[i] == c[i - 2 - b.len()]);
        } else {
            assert(head[i] == d[i - 2 - b.len() - c.len()]);
        }
    }
}

/// Reading the lines of the dispensings after the lines before them.
pub proof fn lemma_read_body(v: MedicineNotebookView)
    requires
        v.is_encodable(),
    ensures
        MedicineNotebook::scan_from(v.head_state(), all_lines(v.dispensing_information)) == Ok::<
            NotebookScan,
            ErrorView,
        >(v.body_state()),
        are_lines(all_lines(v.dispensing_information)),
{
    lemma_dispensing_blocks_lines(v.dispensing_information);
    if v.dispensing_information.len() > 0 {
        lemma_read_dispensing_blocks(v.head_state(), v.dispensing_information);
        assert(v.head_state().dispensing_information + v.dispensing_information.drop_last()
            =~= v.dispensing_information.drop_last());
    }
}

/// Reading the lines of the family pharmacists after the dispensings.
pub proof fn lemma_read_tail(v: MedicineNotebookView)
    requires
        v.is_encodable(),
    ensures
        MedicineNotebook::scan_from(v.body_state(), all_lines(v.family_pharmacist)) == Ok::<
            NotebookScan,
            ErrorView,
        >(v.tail_state()),
        are_lines(all_lines(v.family_pharmacist)),
{
    lemma_read_family_pharmacist(v.body_state(), v.family_pharmacist);
    assert(v.body_state().family_pharmacist + v.family_pharmacist =~= v.family_pharmacist);
}

/// Reading all lines of a notebook.
pub proof fn lemma_read_all(v: MedicineNotebookView)
    requires
        v.is_encodable(),
    ensures
        MedicineNotebook::scan(v.lines()) == Ok::<NotebookScan, ErrorView>(v.tail_state()),
        are_lines(v.lines()),
{
    let start = MedicineNotebook::start();
    let head = v.head_lines();
    let body = all_lines(v.dispensing_information);
    let tail = all_lines(v.family_pharmacist);
    lemma_read_head(v);
    lemma_read_body(v);
    lemma_read_tail(v);
    MedicineNotebook::lemma_scan_from_concat(start, head, body);
    MedicineNotebook::lemma_scan_from_concat(start, head + body, tail);
    let lines = v.lines();
    assert forall|i: int| 0 <= i < lines.len() implies is_line(#[trigger] lines[i]) by {
        if i < head.len() {
            assert(lines[i] == head[i]);
        } else if i < head.len() + body.len() {
            assert(lines[i] == body[i - head.len()]);
        } else {
            assert(lines[i] == tail[i - head.len() - body.len()]);
        }
    }
}

/// A notebook that can be written reads back from its lines, and from its
/// text, as itself.
pub proof fn lemma_notebook_round_trip(v: MedicineNotebookView)
    requires
        v.is_encodable(),
    ensures
        MedicineNotebook::spec_from_lines(v.lines()) == Ok::<MedicineNotebookView, ErrorView>(v),
        MedicineNotebook::spec_from_str(v.text()) == Ok::<MedicineNotebookView, ErrorView>(v),
{
    lemma_read_all(v);
    assert(MedicineNotebook::finish(v.tail_state()) == Ok::<MedicineNotebookView, ErrorView>(
        v,
    )) by {
        if v.dispensing_information.len() > 0 {
            let last = v.dispensing_information.last();
            lemma_dispensing_block_lines(last);
            lemma_dispensing_block_round_trip(last);
            assert(v.dispensing_information.drop_last().push(last) =~= v.dispensing_information);
        } else {
            assert(v.tail_state().dispensing_information =~= v.dispensing_information);
        }
        assert(v.family_pharmacist.len() == 0 ==> v.family_pharmacist =~= Seq::empty());
    }
    lemma_lines_of_join(v.lines());
}

/// The text of a notebook that can be written is what is written of what
/// is read from it: such texts are the ones that reading and writing leave
/// as they are.
pub proof fn lemma_notebook_text_is_kept(v: MedicineNotebookView)
    requires
        v.is_encodable(),
    ensures
        MedicineNotebook::spec_from_str(v.text()) matches Ok(back) && back.text() == v.text(),
{
    lemma_notebook_round_trip(v);
}

} // verus!
