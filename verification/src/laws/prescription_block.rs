//! A prescription that is written reads back as itself.

use vstd::prelude::*;
use crate::dispensing_records::lemma_physician_record_round_trip;
use crate::error::ErrorView;
use crate::laws::rp_block::{lemma_rp_block_lines, lemma_rp_block_round_trip};
use crate::prescription_block::{PrescriptionBlock, PrescriptionBlockView, PrescriptionScan};
use crate::record::{
    all_lines, are_lines, lemma_tags_all_are_lines, lemma_tags_all_concat, line_tag, LineModel,
    TagSet,
};
use crate::rp_block::RpBlockView;
use crate::text::lemma_lines_of_join;

verus! {

/// Until the usage of a group, lines with the tags 201, 281 and 291 go to
/// the group that is being read.
pub proof fn lemma_read_drug_lines(st: PrescriptionScan, lines: Seq<Seq<char>>)
    requires
        !st.usage_seen,
        TagSet::Drug.tags_all(lines),
    ensures
        PrescriptionBlock::scan_from(st, lines) == Ok::<PrescriptionScan, ErrorView>(
            PrescriptionScan { pending: st.pending + lines, ..st },
        ),
    decreases lines.len(),
{
    if lines.len() == 0 {
        assert(st.pending + lines =~= st.pending);
    } else {
        let init = lines.drop_last();
        assert forall|i: int| 0 <= i < init.len() implies TagSet::Drug.tags(
            #[trigger] init[i],
        ) by {
            assert(init[i] == lines[i]);
        }
        lemma_read_drug_lines(st, init);
        assert(TagSet::Drug.tags(lines[lines.len() - 1]));
        reveal(PrescriptionBlock::step);
        assert((st.pending + init).push(lines.last()) =~= st.pending + lines);
    }
}

/// Lines with the tags 311 and 391 go to the group that is being read.
pub proof fn lemma_read_usage_details(st: PrescriptionScan, lines: Seq<Seq<char>>)
    requires
        TagSet::UsageDetail.tags_all(lines),
    ensures
        PrescriptionBlock::scan_from(st, lines) == Ok::<PrescriptionScan, ErrorView>(
            PrescriptionScan { pending: st.pending + lines, ..st },
        ),
    decreases lines.len(),
{
    if lines.len() == 0 {
        assert(st.pending + lines =~= st.pending);
    } else {
        let init = lines.drop_last();
        assert forall|i: int| 0 <= i < init.len() implies TagSet::UsageDetail.tags(
            #[trigger] init[i],
        ) by {
            assert(init[i] == lines[i]);
        }
        lemma_read_usage_details(st, init);
        assert(TagSet::UsageDetail.tags(lines[lines.len() - 1]));
        reveal(PrescriptionBlock::step);
        assert((st.pending + init).push(lines.last()) =~= st.pending + lines);
    }
}

/// Whether what is pending is nothing, with no usage seen, or the lines of
/// the group `last`, whose usage was seen.
pub open spec fn pending_is(st: PrescriptionScan, last: Option<RpBlockView>) -> bool {
    match last {
        Some(block) => block.is_encodable() && st.pending == block.lines() && st.usage_seen,
        None => st.pending.len() == 0 && !st.usage_seen,
    }
}

/// The groups that were read, with the one that is pending.
pub open spec fn with_pending(rps: Seq<RpBlockView>, last: Option<RpBlockView>) -> Seq<
    RpBlockView,
> {
    match last {
        Some(block) => rps.push(block),
        None => rps,
    }
}

/// The lines of a group end the group that was begun and become the lines
/// that are pending.
pub proof fn lemma_read_rp_block(
    st: PrescriptionScan,
    last: Option<RpBlockView>,
    block: RpBlockView,
)
    requires
        pending_is(st, last),
        block.is_encodable(),
    ensures
        PrescriptionBlock::scan_from(st, block.lines()) == Ok::<PrescriptionScan, ErrorView>(
            PrescriptionScan {
                rps: with_pending(st.rps, last),
                pending: block.lines(),
                usage_seen: true,
                ..st
            },
        ),
{
    lemma_rp_block_lines(block);
    if last is Some {
        lemma_rp_block_lines(last->Some_0);
        lemma_rp_block_round_trip(last->Some_0);
    }
    let drugs = block.drug_lines();
    let first = seq![drugs[0]];
    let rest = drugs.skip(1);
    let usage = seq![block.usage.line()];
    let detail = block.detail_lines();
    assert(drugs =~= first + rest);
    assert(TagSet::Drug.tags(drugs[0]));
    assert forall|i: int| 0 <= i < rest.len() implies TagSet::Drug.tags(#[trigger] rest[i]) by {
        assert(rest[i] == drugs[i + 1]);
    }
    let st1 = PrescriptionScan {
        rps: with_pending(st.rps, last),
        pending: first,
        usage_seen: false,
        ..st
    };
    assert(PrescriptionBlock::scan_from(st, first) == Ok::<PrescriptionScan, ErrorView>(st1)) by {
        reveal(PrescriptionBlock::step);
        assert(first.drop_last() =~= Seq::<Seq<char>>::empty());
        assert(PrescriptionBlock::scan_from(st, first.drop_last()) == Ok::<
            PrescriptionScan,
            ErrorView,
        >(st));
        if last is None {
            assert(st.pending.push(drugs[0]) =~= first);
        }
    }
    lemma_read_drug_lines(st1, rest);
    let st2 = PrescriptionScan { pending: drugs, ..st1 };
    let st3 = PrescriptionScan { pending: drugs + usage, usage_seen: true, ..st2 };
    assert(PrescriptionBlock::scan_from(st2, usage) == Ok::<PrescriptionScan, ErrorView>(st3)) by {
        reveal(PrescriptionBlock::step);
        assert(usage.drop_last() =~= Seq::<Seq<char>>::empty());
        assert(PrescriptionBlock::scan_from(st2, usage.drop_last()) == Ok::<
            PrescriptionScan,
            ErrorView,
        >(st2));
        assert(drugs.push(block.usage.line()) =~= drugs + usage);
    }
    lemma_read_usage_details(st3, detail);
    PrescriptionBlock::lemma_scan_from_concat(st, first, rest);
    PrescriptionBlock::lemma_scan_from_concat(st, first + rest, usage);
    PrescriptionBlock::lemma_scan_from_concat(st, first + rest + usage, detail);
    assert(block.lines() =~= first + rest + usage + detail);
}

/// The lines of groups that can be written are lines with the tags 201 to
/// 391.
pub proof fn lemma_rp_blocks_lines(blocks: Seq<RpBlockView>)
    requires
        forall|i: int| 0 <= i < blocks.len() ==> (#[trigger] blocks[i]).is_encodable(),
    ensures
        TagSet::Rp.tags_all(all_lines(blocks)),
        blocks.len() >= 1 ==> all_lines(blocks).len() >= 1,
    decreases blocks.len(),
{
    if blocks.len() > 0 {
        let init = blocks.drop_last();
        assert forall|i: int| 0 <= i < init.len() implies (#[trigger] init[i]).is_encodable() by {
            assert(init[i] == blocks[i]);
        }
        lemma_rp_blocks_lines(init);
        lemma_rp_block_lines(blocks.last());
        lemma_tags_all_concat(TagSet::Rp, all_lines(init), blocks.last().lines());
    }
}

/// Reading the lines of groups leaves all but the last of them read and the
/// lines of the last pending.
pub proof fn lemma_read_rp_blocks(st: PrescriptionScan, blocks: Seq<RpBlockView>)
    requires
        st.pending.len() == 0,
        !st.usage_seen,
        blocks.len() >= 1,
        forall|i: int| 0 <= i < blocks.len() ==> (#[trigger] blocks[i]).is_encodable(),
    ensures
        PrescriptionBlock::scan_from(st, all_lines(blocks)) == Ok::<PrescriptionScan, ErrorView>(
            PrescriptionScan {
                rps: st.rps + blocks.drop_last(),
                pending: blocks.last().lines(),
                usage_seen: true,
                ..st
            },
        ),
    decreases blocks.len(),
{
    let init = blocks.drop_last();
    let last = blocks.last();
    assert forall|i: int| 0 <= i < init.len() implies (#[trigger] init[i]).is_encodable() by {
        assert(init[i] == blocks[i]);
    }
    PrescriptionBlock::lemma_scan_from_concat(st, all_lines(init), last.lines());
    if init.len() == 0 {
        assert(all_lines(init) =~= Seq::<Seq<char>>::empty());
        lemma_read_rp_block(st, None, last);
        assert(st.rps + init =~= st.rps);
    } else {
        lemma_read_rp_blocks(st, init);
        let mid = PrescriptionScan {
            rps: st.rps + init.drop_last(),
            pending: init.last().lines(),
            usage_seen: true,
            ..st
        };
        lemma_read_rp_block(mid, Some(init.last()), last);
        assert((st.rps + init.drop_last()).push(init.last()) =~= st.rps + init);
    }
}

impl PrescriptionBlockView {
    /// The line of the physician, if there is one.
    pub open spec fn physician_lines(self) -> Seq<Seq<char>> {
        match self.physician {
            Some(p) => seq![p.line()],
            None => Seq::empty(),
        }
    }
}

/// The lines of a prescription that can be written: the line of the
/// physician, with the tag 55, if there is one, and lines with the tags 201
/// to 391.
pub proof fn lemma_prescription_block_lines(v: PrescriptionBlockView)
    requires
        v.is_encodable(),
    ensures
        v.lines() == v.physician_lines() + all_lines(v.rps),
        v.physician matches Some(p) ==> line_tag(p.line()) == Some(55nat)
            && TagSet::Prescription.tags(p.line()),
        TagSet::Rp.tags_all(all_lines(v.rps)),
        TagSet::Prescription.tags_all(v.lines()),
        are_lines(v.lines()),
{
    lemma_rp_blocks_lines(v.rps);
    let rps = all_lines(v.rps);
    if v.physician is Some {
        lemma_physician_record_round_trip(v.physician->Some_0);
    }
    let head = v.physician_lines();
    assert(v.lines() =~= head + rps);
    assert forall|i: int| 0 <= i < v.lines().len() implies TagSet::Prescription.tags(
        #[trigger] v.lines()[i],
    ) by {
        if i >= head.len() {
            assert(v.lines()[i] == rps[i - head.len()]);
            assert(TagSet::Rp.tags(rps[i - head.len()]));
        }
    }
    lemma_tags_all_are_lines(TagSet::Prescription, v.lines());
}

/// A prescription that can be written reads back from its lines, and from
/// its text, as itself.
pub proof fn lemma_prescription_block_round_trip(v: PrescriptionBlockView)
    requires
        v.is_encodable(),
    ensures
        PrescriptionBlock::spec_from_lines(v.lines()) == Ok::<PrescriptionBlockView, ErrorView>(v),
        PrescriptionBlock::spec_from_str(v.text()) == Ok::<PrescriptionBlockView, ErrorView>(v),
{
    let start = PrescriptionBlock::start();
    let head = v.physician_lines();
    let rps = all_lines(v.rps);
    lemma_prescription_block_lines(v);
    let st1 = PrescriptionScan { physician: v.physician, ..start };
    assert(PrescriptionBlock::scan_from(start, head) == Ok::<PrescriptionScan, ErrorView>(st1)) by {
        if v.physician is Some {
            lemma_physician_record_round_trip(v.physician->Some_0);
            reveal(PrescriptionBlock::step);
            assert(head.drop_last() =~= Seq::<Seq<char>>::empty());
            assert(PrescriptionBlock::scan_from(start, head.drop_last()) == Ok::<
                PrescriptionScan,
                ErrorView,
            >(start));
        }
    }
    PrescriptionBlock::lemma_scan_from_concat(start, head, rps);
    if v.rps.len() == 0 {
        assert(rps =~= Seq::<Seq<char>>::empty());
        assert(st1.rps =~= v.rps);
    } else {
        lemma_read_rp_blocks(st1, v.rps);
        lemma_rp_block_lines(v.rps.last());
        lemma_rp_block_round_trip(v.rps.last());
        assert((st1.rps + v.rps.drop_last()).push(v.rps.last()) =~= v.rps);
    }
    lemma_lines_of_join(v.lines());
}

} // verus!
