//! A drug block that is written reads back as itself.

use vstd::prelude::*;
use crate::drug_block::{DrugBlock, DrugBlockView, DrugScan};
use crate::drug_records::{
    lemma_drug_notice_record_round_trip, lemma_drug_record_round_trip,
    lemma_drug_supplementary_record_round_trip, DrugNoticeRecordView,
    DrugSupplementaryRecordView,
};
use crate::error::ErrorView;
use crate::record::{
    all_lines, are_lines, lemma_tags_all_are_lines, lemma_tags_all_concat, line_tag, LineModel,
    TagSet,
};
use crate::text::lemma_lines_of_join;

verus! {

/// The lines of supplements are lines with the tag 281, and reading them
/// after the drug adds the supplements to what was read.
pub proof fn lemma_read_drug_supplements(st: DrugScan, records: Seq<DrugSupplementaryRecordView>)
    requires
        st.drug is Some,
        forall|i: int| 0 <= i < records.len() ==> (#[trigger] records[i]).is_encodable(),
    ensures
        DrugBlock::scan_from(st, all_lines(records)) == Ok::<DrugScan, ErrorView>(
            DrugScan { drug_supplementary: st.drug_supplementary + records, ..st },
        ),
        TagSet::DrugDetail.tags_all(all_lines(records)),
    decreases records.len(),
{
    if records.len() == 0 {
        assert(st.drug_supplementary + records =~= st.drug_supplementary);
    } else {
        let init = records.drop_last();
        let last = records.last();
        assert forall|i: int| 0 <= i < init.len() implies (#[trigger] init[i]).is_encodable() by {
            assert(init[i] == records[i]);
        }
        lemma_read_drug_supplements(st, init);
        lemma_drug_supplementary_record_round_trip(last);
        let lines = all_lines(records);
        assert(lines.drop_last() =~= all_lines(init));
        assert(lines.last() == last.line());
        reveal(DrugBlock::step);
        assert((st.drug_supplementary + init).push(last) =~= st.drug_supplementary + records);
        assert(TagSet::DrugDetail.tags_all(seq![last.line()]));
        lemma_tags_all_concat(TagSet::DrugDetail, all_lines(init), seq![last.line()]);
    }
}

/// The lines of notices are lines with the tag 291, and reading them after
/// the drug adds the notices to what was read.
pub proof fn lemma_read_drug_notices(st: DrugScan, records: Seq<DrugNoticeRecordView>)
    requires
        st.drug is Some,
        forall|i: int| 0 <= i < records.len() ==> (#[trigger] records[i]).is_encodable(),
    ensures
        DrugBlock::scan_from(st, all_lines(records)) == Ok::<DrugScan, ErrorView>(
            DrugScan { drug_notice: st.drug_notice + records, ..st },
        ),
        TagSet::DrugDetail.tags_all(all_lines(records)),
    decreases records.len(),
{
    if records.len() == 0 {
        assert(st.drug_notice + records =~= st.drug_notice);
    } else {
        let init = records.drop_last();
        let last = records.last();
        assert forall|i: int| 0 <= i < init.len() implies (#[trigger] init[i]).is_encodable() by {
            assert(init[i] == records[i]);
        }
        lemma_read_drug_notices(st, init);
        lemma_drug_notice_record_round_trip(last);
        let lines = all_lines(records);
        assert(lines.drop_last() =~= all_lines(init));
        assert(lines.last() == last.line());
        reveal(DrugBlock::step);
        assert((st.drug_notice + init).push(last) =~= st.drug_notice + records);
        assert(TagSet::DrugDetail.tags_all(seq![last.line()]));
        lemma_tags_all_concat(TagSet::DrugDetail, all_lines(init), seq![last.line()]);
    }
}

/// The lines of a drug block that can be written: the line of the drug,
/// with the tag 201, and after it lines with the tags 281 and 291.
pub proof fn lemma_drug_block_lines(v: DrugBlockView)
    requires
        v.is_encodable(),
    ensures
        v.lines().len() >= 1,
        v.lines()[0] == v.drug.line(),
        line_tag(v.lines()[0]) == Some(201nat),
        TagSet::Drug.tags(v.lines()[0]),
        TagSet::DrugDetail.tags_all(v.lines().skip(1)),
        TagSet::Drug.tags_all(v.lines()),
        are_lines(v.lines()),
{
    let start = DrugBlock::start();
    let st = DrugScan { drug: Some(v.drug), ..start };
    lemma_drug_record_round_trip(v.drug);
    lemma_read_drug_supplements(st, v.drug_supplementary);
    lemma_read_drug_notices(st, v.drug_notice);
    let rest = all_lines(v.drug_supplementary) + all_lines(v.drug_notice);
    lemma_tags_all_concat(
        TagSet::DrugDetail,
        all_lines(v.drug_supplementary),
        all_lines(v.drug_notice),
    );
    assert(v.lines().skip(1) =~= rest);
    assert forall|i: int| 0 <= i < v.lines().len() implies TagSet::Drug.tags(
        #[trigger] v.lines()[i],
    ) by {
        if i > 0 {
            assert(v.lines()[i] == rest[i - 1]);
            assert(TagSet::DrugDetail.tags(rest[i - 1]));
        }
    }
    lemma_tags_all_are_lines(TagSet::Drug, v.lines());
}

/// A drug block that can be written reads back from its lines, and from
/// its text, as itself.
pub proof fn lemma_drug_block_round_trip(v: DrugBlockView)
    requires
        v.is_encodable(),
    ensures
        DrugBlock::spec_from_lines(v.lines()) == Ok::<DrugBlockView, ErrorView>(v),
        DrugBlock::spec_from_str(v.text()) == Ok::<DrugBlockView, ErrorView>(v),
{
    let start = DrugBlock::start();
    let first = seq![v.drug.line()];
    let supplements = all_lines(v.drug_supplementary);
    let notices = all_lines(v.drug_notice);
    lemma_drug_record_round_trip(v.drug);
    let st1 = DrugScan { drug: Some(v.drug), ..start };
    assert(DrugBlock::scan_from(start, first) == Ok::<DrugScan, ErrorView>(st1)) by {
        reveal(DrugBlock::step);
        assert(first.drop_last() =~= Seq::<Seq<char>>::empty());
        assert(DrugBlock::scan_from(start, first.drop_last()) == Ok::<DrugScan, ErrorView>(start));
    }
    lemma_read_drug_supplements(st1, v.drug_supplementary);
    let st2 = DrugScan { drug_supplementary: st1.drug_supplementary + v.drug_supplementary, ..st1 };
    lemma_read_drug_notices(st2, v.drug_notice);
    let st3 = DrugScan { drug_notice: st2.drug_notice + v.drug_notice, ..st2 };
    DrugBlock::lemma_scan_from_concat(start, first, supplements);
    DrugBlock::lemma_scan_from_concat(start, first + supplements, notices);
    assert(st3.drug_supplementary =~= v.drug_supplementary);
    assert(st3.drug_notice =~= v.drug_notice);
    lemma_drug_block_lines(v);
    lemma_lines_of_join(v.lines());
}

} // verus!
