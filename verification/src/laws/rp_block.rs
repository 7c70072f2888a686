//! A prescription group that is written reads back as itself.

use vstd::prelude::*;
use crate::drug_block::DrugBlockView;
use crate::error::ErrorView;
use crate::laws::drug_block::{lemma_drug_block_lines, lemma_drug_block_round_trip};
use crate::record::{
    all_lines, are_lines, lemma_tags_all_are_lines, lemma_tags_all_concat, line_tag, LineModel,
    TagSet,
};
use crate::rp_block::{RpBlock, RpBlockView, RpScan};
use crate::text::lemma_lines_of_join;
use crate::usage_records::{
    lemma_rp_notice_record_round_trip, lemma_usage_record_round_trip,
    lemma_usage_supplementary_record_round_trip, RpNoticeRecordView,
    UsageSupplementaryRecordView,
};

verus! {

/// Before the usage, lines with the tags 281 and 291 go to the drug block
/// that was begun.
pub proof fn lemma_read_drug_details(st: RpScan, lines: Seq<Seq<char>>)
    requires
        st.usage is None,
        st.pending.len() > 0,
        TagSet::DrugDetail.tags_all(lines),
    ensures
        RpBlock::scan_from(st, lines) == Ok::<RpScan, ErrorView>(
            RpScan { pending: st.pending + lines, ..st },
        ),
    decreases lines.len(),
{
    if lines.len() == 0 {
        assert(st.pending + lines =~= st.pending);
    } else {
        let init = lines.drop_last();
        assert forall|i: int| 0 <= i < init.len() implies TagSet::DrugDetail.tags(
            #[trigger] init[i],
        ) by {
            assert(init[i] == lines[i]);
        }
        lemma_read_drug_details(st, init);
        assert(TagSet::DrugDetail.tags(lines[lines.len() - 1]));
        reveal(RpBlock::step);
        assert((st.pending + init).push(lines.last()) =~= st.pending + lines);
    }
}

/// Whether the lines that are pending are none or the lines of the drug
/// block `last`.
pub open spec fn pending_is(pending: Seq<Seq<char>>, last: Option<DrugBlockView>) -> bool {
    match last {
        Some(block) => block.is_encodable() && pending == block.lines(),
        None => pending.len() == 0,
    }
}

/// The drug blocks that were read, with the one that is pending.
pub open spec fn with_pending(drugs: Seq<DrugBlockView>, last: Option<DrugBlockView>) -> Seq<
    DrugBlockView,
> {
    match last {
        Some(block) => drugs.push(block),
        None => drugs,
    }
}

/// Before the usage, the lines of a drug block end the block that was
/// begun and become the lines that are pending.
pub proof fn lemma_read_drug_block(st: RpScan, last: Option<DrugBlockView>, block: DrugBlockView)
    requires
        st.usage is None,
        pending_is(st.pending, last),
        block.is_encodable(),
    ensures
        RpBlock::scan_from(st, block.lines()) == Ok::<RpScan, ErrorView>(
            RpScan { drugs: with_pending(st.drugs, last), pending: block.lines(), ..st },
        ),
{
    lemma_drug_block_lines(block);
    if last is Some {
        lemma_drug_block_lines(last->Some_0);
        lemma_drug_block_round_trip(last->Some_0);
    }
    let lines = block.lines();
    let first = seq![lines[0]];
    let rest = lines.skip(1);
    assert(lines =~= first + rest);
    let st1 = RpScan { drugs: with_pending(st.drugs, last), pending: first, ..st };
    assert(RpBlock::scan_from(st, first) == Ok::<RpScan, ErrorView>(st1)) by {
        reveal(RpBlock::step);
        assert(first.drop_last() =~= Seq::<Seq<char>>::empty());
        assert(RpBlock::scan_from(st, first.drop_last()) == Ok::<RpScan, ErrorView>(st));
    }
    lemma_read_drug_details(st1, rest);
    RpBlock::lemma_scan_from_concat(st, first, rest);
}

/// The lines of drug blocks that can be written are lines with the tags
/// 201, 281 and 291, and the first of them has the tag 201.
pub proof fn lemma_drug_blocks_lines(blocks: Seq<DrugBlockView>)
    requires
        forall|i: int| 0 <= i < blocks.len() ==> (#[trigger] blocks[i]).is_encodable(),
    ensures
        TagSet::Drug.tags_all(all_lines(blocks)),
        blocks.len() >= 1 ==> all_lines(blocks).len() >= 1 && line_tag(all_lines(blocks)[0])
            == Some(201nat),
    decreases blocks.len(),
{
    if blocks.len() > 0 {
        let init = blocks.drop_last();
        assert forall|i: int| 0 <= i < init.len() implies (#[trigger] init[i]).is_encodable() by {
            assert(init[i] == blocks[i]);
        }
        lemma_drug_blocks_lines(init);
        lemma_drug_block_lines(blocks.last());
        lemma_tags_all_concat(TagSet::Drug, all_lines(init), blocks.last().lines());
        if init.len() == 0 {
            assert(all_lines(blocks) =~= blocks.last().lines());
        } else {
            assert(all_lines(blocks)[0] == all_lines(init)[0]);
        }
    }
}

/// Before the usage, reading the lines of drug blocks leaves all but the
/// last of them read and the lines of the last pending.
pub proof fn lemma_read_drug_blocks(st: RpScan, blocks: Seq<DrugBlockView>)
    requires
        st.usage is None,
        st.pending.len() == 0,
        blocks.len() >= 1,
        forall|i: int| 0 <= i < blocks.len() ==> (#[trigger] blocks[i]).is_encodable(),
    ensures
        RpBlock::scan_from(st, all_lines(blocks)) == Ok::<RpScan, ErrorView>(
            RpScan { drugs: st.drugs + blocks.drop_last(), pending: blocks.last().lines(), ..st },
        ),
    decreases blocks.len(),
{
    let init = blocks.drop_last();
    let last = blocks.last();
    assert forall|i: int| 0 <= i < init.len() implies (#[trigger] init[i]).is_encodable() by {
        assert(init[i] == blocks[i]);
    }
    RpBlock::lemma_scan_from_concat(st, all_lines(init), last.lines());
    if init.len() == 0 {
        assert(all_lines(init) =~= Seq::<Seq<char>>::empty());
        lemma_read_drug_block(st, None, last);
        assert(st.drugs + init =~= st.drugs);
    } else {
        lemma_read_drug_blocks(st, init);
        let mid = RpScan {
            drugs: st.drugs + init.drop_last(),
            pending: init.last().lines(),
            ..st
        };
        lemma_read_drug_block(mid, Some(init.last()), last);
        assert((st.drugs + init.drop_last()).push(init.last()) =~= st.drugs + init);
    }
}

/// After the usage, reading the lines of its supplements adds them to what
/// was read.
pub proof fn lemma_read_usage_supplements(st: RpScan, records: Seq<UsageSupplementaryRecordView>)
    requires
        st.usage is Some,
        forall|i: int| 0 <= i < records.len() ==> (#[trigger] records[i]).is_encodable(),
    ensures
        RpBlock::scan_from(st, all_lines(records)) == Ok::<RpScan, ErrorView>(
            RpScan { usage_supplementary: st.usage_supplementary + records, ..st },
        ),
        TagSet::UsageDetail.tags_all(all_lines(records)),
    decreases records.len(),
{
    if records.len() == 0 {
        assert(st.usage_supplementary + records =~= st.usage_supplementary);
    } else {
        let init = records.drop_last();
        let last = records.last();
        assert forall|i: int| 0 <= i < init.len() implies (#[trigger] init[i]).is_encodable() by {
            assert(init[i] == records[i]);
        }
        lemma_read_usage_supplements(st, init);
        lemma_usage_supplementary_record_round_trip(last);
        let lines = all_lines(records);
        assert(lines.drop_last() =~= all_lines(init));
        assert(lines.last() == last.line());
        reveal(RpBlock::step);
        assert((st.usage_supplementary + init).push(last) =~= st.usage_supplementary + records);
        assert(TagSet::UsageDetail.tags_all(seq![last.line()]));
        lemma_tags_all_concat(TagSet::UsageDetail, all_lines(init), seq![last.line()]);
    }
}

/// After the usage, reading the lines of the notices of the group adds them
/// to what was read.
pub proof fn lemma_read_rp_notices(st: RpScan, records: Seq<RpNoticeRecordView>)
    requires
        st.usage is Some,
        forall|i: int| 0 <= i < records.len() ==> (#[trigger] records[i]).is_encodable(),
    ensures
        RpBlock::scan_from(st, all_lines(records)) == Ok::<RpScan, ErrorView>(
            RpScan { rp_notice: st.rp_notice + records, ..st },
        ),
        TagSet::UsageDetail.tags_all(all_lines(records)),
    decreases records.len(),
{
    if records.len() == 0 {
        assert(st.rp_notice + records =~= st.rp_notice);
    } else {
        let init = records.drop_last();
        let last = records.last();
        assert forall|i: int| 0 <= i < init.len() implies (#[trigger] init[i]).is_encodable() by {
            assert(init[i] == records[i]);
        }
        lemma_read_rp_notices(st, init);
        lemma_rp_notice_record_round_trip(last);
        let lines = all_lines(records);
        assert(lines.drop_last() =~= all_lines(init));
        assert(lines.last() == last.line());
        reveal(RpBlock::step);
        assert((st.rp_notice + init).push(last) =~= st.rp_notice + records);
        assert(TagSet::UsageDetail.tags_all(seq![last.line()]));
        lemma_tags_all_concat(TagSet::UsageDetail, all_lines(init), seq![last.line()]);
    }
}

impl RpBlockView {
    /// The lines of the drugs.
    pub open spec fn drug_lines(self) -> Seq<Seq<char>> {
        all_lines(self.drugs)
    }

    /// The lines that follow the usage.
    pub open spec fn detail_lines(self) -> Seq<Seq<char>> {
        all_lines(self.usage_supplementary) + all_lines(self.rp_notice)
    }
}

/// The lines of a prescription group that can be written: the lines of the
/// drugs, which begin with the tag 201 and go on with 201, 281 and 291; the
/// line of the usage, with the tag 301; and lines with the tags 311 and
/// 391.
pub proof fn lemma_rp_block_lines(v: RpBlockView)
    requires
        v.is_encodable(),
    ensures
        v.lines() == v.drug_lines() + seq![v.usage.line()] + v.detail_lines(),
        v.drug_lines().len() >= 1,
        line_tag(v.drug_lines()[0]) == Some(201nat),
        TagSet::Drug.tags_all(v.drug_lines()),
        line_tag(v.usage.line()) == Some(301nat),
        TagSet::Rp.tags(v.usage.line()),
        TagSet::UsageDetail.tags_all(v.detail_lines()),
        TagSet::Rp.tags_all(v.lines()),
        are_lines(v.lines()),
{
    lemma_drug_blocks_lines(v.drugs);
    lemma_usage_record_round_trip(v.usage);
    let st = RpScan { usage: Some(v.usage), ..RpBlock::start() };
    lemma_read_usage_supplements(st, v.usage_supplementary);
    lemma_read_rp_notices(st, v.rp_notice);
    lemma_tags_all_concat(
        TagSet::UsageDetail,
        all_lines(v.usage_supplementary),
        all_lines(v.rp_notice),
    );
    let drugs = v.drug_lines();
    let detail = v.detail_lines();
    assert(v.lines() =~= drugs + seq![v.usage.line()] + detail);
    assert forall|i: int| 0 <= i < v.lines().len() implies TagSet::Rp.tags(
        #[trigger] v.lines()[i],
    ) by {
        if i < drugs.len() {
            assert(v.lines()[i] == drugs[i]);
            assert(TagSet::Drug.tags(drugs[i]));
        } else if i > drugs.len() {
            assert(v.lines()[i] == detail[i - drugs.len() - 1]);
            assert(TagSet::UsageDetail.tags(detail[i - drugs.len() - 1]));
        }
    }
    lemma_tags_all_are_lines(TagSet::Rp, v.lines());
}

/// A prescription group that can be written reads back from its lines, and
/// from its text, as itself.
pub proof fn lemma_rp_block_round_trip(v: RpBlockView)
    requires
        v.is_encodable(),
    ensures
        RpBlock::spec_from_lines(v.lines()) == Ok::<RpBlockView, ErrorView>(v),
        RpBlock::spec_from_str(v.text()) == Ok::<RpBlockView, ErrorView>(v),
{
    let start = RpBlock::start();
    let drugs = all_lines(v.drugs);
    let usage = seq![v.usage.line()];
    let supplements = all_lines(v.usage_supplementary);
    let notices = all_lines(v.rp_notice);
    lemma_rp_block_lines(v);
    lemma_read_drug_blocks(start, v.drugs);
    let st1 = RpScan {
        drugs: start.drugs + v.drugs.drop_last(),
        pending: v.drugs.last().lines(),
        ..start
    };
    lemma_drug_block_lines(v.drugs.last());
    lemma_drug_block_round_trip(v.drugs.last());
    lemma_usage_record_round_trip(v.usage);
    let st2 = RpScan { drugs: v.drugs, pending: Seq::empty(), usage: Some(v.usage), ..st1 };
    assert(RpBlock::scan_from(st1, usage) == Ok::<RpScan, ErrorView>(st2)) by {
        reveal(RpBlock::step);
        assert(usage.drop_last() =~= Seq::<Seq<char>>::empty());
        assert(RpBlock::scan_from(st1, usage.drop_last()) == Ok::<RpScan, ErrorView>(st1));
        assert((start.drugs + v.drugs.drop_last()).push(v.drugs.last()) =~= v.drugs);
    }
    lemma_read_usage_supplements(st2, v.usage_supplementary);
    let st3 = RpScan {
        usage_supplementary: st2.usage_supplementary + v.usage_supplementary,
        ..st2
    };
    lemma_read_rp_notices(st3, v.rp_notice);
    let st4 = RpScan { rp_notice: st3.rp_notice + v.rp_notice, ..st3 };
    RpBlock::lemma_scan_from_concat(start, drugs, usage);
    RpBlock::lemma_scan_from_concat(start, drugs + usage, supplements);
    RpBlock::lemma_scan_from_concat(start, drugs + usage + supplements, notices);
    assert(v.lines() =~= drugs + usage + supplements + notices);
    assert(st4.usage_supplementary =~= v.usage_supplementary);
    assert(st4.rp_notice =~= v.rp_notice);
    lemma_lines_of_join(v.lines());
}

} // verus!
