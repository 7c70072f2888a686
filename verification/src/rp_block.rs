//! The block of a prescription group: one or more drugs, then how they are
//! taken, what supplements that, and what to mind for the group.

use vstd::prelude::*;
use std::str::FromStr;
use crate::drug_block::{DrugBlock, DrugBlockView};
use crate::error::{
    framed, missing_required_record, outcome, unexpected_record_line, Error, ErrorView,
};
use crate::record::{all_lines, crlf, join_lines, line_tag, read_line_tag, LineModel};
use crate::text::{join, lines_of, split_lines};
use crate::usage_records::{
    RpNoticeRecord, RpNoticeRecordView, UsageRecord, UsageRecordView, UsageSupplementaryRecord,
    UsageSupplementaryRecordView,
};

verus! {

/// A prescription group: drugs that are taken in one way.
#[derive(Debug, Clone, PartialEq, Eq)]
pub struct RpBlock {
    /// 薬品情報
    pub drugs: Vec<DrugBlock>,
    /// 用法レコード
    pub usage: UsageRecord,
    /// 用法補足レコード
    pub usage_supplementary: Vec<UsageSupplementaryRecord>,
    /// 処方服用注意レコード
    pub rp_notice: Vec<RpNoticeRecord>,
}

/// The model of an [`RpBlock`].
pub struct RpBlockView {
    pub drugs: Seq<DrugBlockView>,
    pub usage: UsageRecordView,
    pub usage_supplementary: Seq<UsageSupplementaryRecordView>,
    pub rp_notice: Seq<RpNoticeRecordView>,
}

impl View for RpBlock {
    type V = RpBlockView;

    open spec fn view(&self) -> RpBlockView {
        RpBlockView {
            drugs: self.drugs.deep_view(),
            usage: self.usage@,
            usage_supplementary: self.usage_supplementary.deep_view(),
            rp_notice: self.rp_notice.deep_view(),
        }
    }
}

impl DeepView for RpBlock {
    type V = RpBlockView;

    open spec fn deep_view(&self) -> RpBlockView {
        self@
    }
}

impl LineModel for RpBlockView {
    open spec fn lines(self) -> Seq<Seq<char>> {
        all_lines(self.drugs) + seq![self.usage.line()] + all_lines(self.usage_supplementary)
            + all_lines(self.rp_notice)
    }
}

impl RpBlockView {
    /// The text of the block: its lines with `\r\n` between them.
    pub open spec fn text(self) -> Seq<char> {
        join(self.lines(), crlf())
    }

    /// Whether the block's lines read back as the block: it holds a drug,
    /// and each of its drugs and records can be written.
    pub open spec fn is_encodable(self) -> bool {
        &&& self.drugs.len() >= 1
        &&& forall|i: int| 0 <= i < self.drugs.len() ==> (#[trigger] self.drugs[i]).is_encodable()
        &&& self.usage.is_encodable()
        &&& forall|i: int|
            0 <= i < self.usage_supplementary.len() ==> (
            #[trigger] self.usage_supplementary[i]).is_encodable()
        &&& forall|i: int|
            0 <= i < self.rp_notice.len() ==> (#[trigger] self.rp_notice[i]).is_encodable()
    }
}

/// What has been read of a prescription group. The lines of the drug that
/// is being read are kept until the next drug or the usage ends them.
pub struct RpScan {
    pub drugs: Seq<DrugBlockView>,
    pub pending: Seq<Seq<char>>,
    pub usage: Option<UsageRecordView>,
    pub usage_supplementary: Seq<UsageSupplementaryRecordView>,
    pub rp_notice: Seq<RpNoticeRecordView>,
}

impl RpBlock {
    /// Before the first line.
    pub open spec fn start() -> RpScan {
        RpScan {
            drugs: Seq::empty(),
            pending: Seq::empty(),
            usage: None,
            usage_supplementary: Seq::empty(),
            rp_notice: Seq::empty(),
        }
    }

    /// The drugs read so far with the one whose lines are pending, if any.
    pub open spec fn flush(st: RpScan) -> Result<Seq<DrugBlockView>, ErrorView> {
        if st.pending.len() > 0 {
            match DrugBlock::spec_from_lines(st.pending) {
                Ok(block) => Ok(st.drugs.push(block)),
                Err(e) => Err(e),
            }
        } else {
            Ok(st.drugs)
        }
    }

    /// What one more line does. Until the usage, a drug line begins a drug
    /// block and ends the one before it, and supplements and notices of a
    /// drug go to the block that was begun; the usage ends the last block.
    /// After the usage come its supplements and the notices of the group.
    #[verifier::opaque]
    pub open spec fn step(st: RpScan, line: Seq<char>) -> Result<RpScan, ErrorView> {
        let tag = line_tag(line);
        if st.usage is None {
            if tag == Some(201nat) {
                match Self::flush(st) {
                    Ok(drugs) => Ok(RpScan { drugs, pending: seq![line], ..st }),
                    Err(e) => Err(e),
                }
            } else if tag == Some(281nat) || tag == Some(291nat) {
                if st.pending.len() == 0 {
                    Err(
                        unexpected_record_line(
                            "201 DrugRecord line must exist before \""@ + line + "\""@,
                        ),
                    )
                } else {
                    Ok(RpScan { pending: st.pending.push(line), ..st })
                }
            } else if tag == Some(301nat) {
                if st.pending.len() == 0 {
                    Err(
                        unexpected_record_line(
                            "DrugBlock must exist before UsageRecord \""@ + line + "\""@,
                        ),
                    )
                } else {
                    match Self::flush(st) {
                        Ok(drugs) => match UsageRecord::spec_from_str(line) {
                            Ok(usage) => Ok(
                                RpScan { drugs, pending: Seq::empty(), usage: Some(usage), ..st },
                            ),
                            Err(e) => Err(e),
                        },
                        Err(e) => Err(e),
                    }
                }
            } else {
                Err(
                    unexpected_record_line(
                        "Expected DrugBlock or 301 UsageRecord, got \""@ + line + "\"."@,
                    ),
                )
            }
        } else {
            if tag == Some(311nat) {
                match UsageSupplementaryRecord::spec_from_str(line) {
                    Ok(r) => Ok(
                        RpScan { usage_supplementary: st.usage_supplementary.push(r), ..st },
                    ),
                    Err(e) => Err(e),
                }
            } else if tag == Some(391nat) {
                match RpNoticeRecord::spec_from_str(line) {
                    Ok(r) => Ok(RpScan { rp_notice: st.rp_notice.push(r), ..st }),
                    Err(e) => Err(e),
                }
            } else {
                Err(
                    unexpected_record_line("Expected 311 or 391 record, got \""@ + line + "\"."@),
                )
            }
        }
    }

    /// What reading `lines` from the first to the last does to `st`.
    pub open spec fn scan_from(st: RpScan, lines: Seq<Seq<char>>) -> Result<RpScan, ErrorView>
        decreases lines.len(),
    {
        if lines.len() == 0 {
            Ok(st)
        } else {
            match Self::scan_from(st, lines.drop_last()) {
                Ok(st) => Self::step(st, lines.last()),
                Err(e) => Err(e),
            }
        }
    }

    /// What reading `lines` from the first to the last does.
    pub open spec fn scan(lines: Seq<Seq<char>>) -> Result<RpScan, ErrorView> {
        Self::scan_from(Self::start(), lines)
    }

    /// The block that was read, which must hold a drug and the usage.
    pub open spec fn finish(st: RpScan) -> Result<RpBlockView, ErrorView> {
        match st.usage {
            Some(usage) => Ok(
                RpBlockView {
                    drugs: st.drugs,
                    usage,
                    usage_supplementary: st.usage_supplementary,
                    rp_notice: st.rp_notice,
                },
            ),
            None => if st.pending.len() == 0 {
                Err(missing_required_record("DrugBlock is required."@))
            } else {
                Err(missing_required_record("UsageRecord is required."@))
            },
        }
    }

    /// What reading the block from `lines` gives.
    pub open spec fn spec_from_lines(lines: Seq<Seq<char>>) -> Result<RpBlockView, ErrorView> {
        match Self::scan(lines) {
            Ok(st) => Self::finish(st),
            Err(e) => Err(e),
        }
    }

    /// What reading the block from `text` gives.
    pub open spec fn spec_from_str(text: Seq<char>) -> Result<RpBlockView, ErrorView> {
        Self::spec_from_lines(lines_of(text))
    }

    /// The model of the defaults.
    pub open spec fn default_view() -> RpBlockView {
        RpBlockView {
            drugs: Seq::empty(),
            usage: UsageRecord::default_view(),
            usage_supplementary: Seq::empty(),
            rp_notice: Seq::empty(),
        }
    }

    /// Once reading has failed, more lines do not change the failure.
    pub proof fn lemma_scan_fails_on(lines: Seq<Seq<char>>, k: int)
        requires
            0 <= k <= lines.len(),
            Self::scan(lines.take(k)) is Err,
        ensures
            Self::scan(lines) == Self::scan(lines.take(k)),
        decreases lines.len() - k,
    {
        if k < lines.len() {
            assert(lines.take(k + 1).drop_last() =~= lines.take(k));
            Self::lemma_scan_fails_on(lines, k + 1);
        } else {
            assert(lines.take(k) =~= lines);
        }
    }

    /// Reading lines in two parts is reading the first part and going on
    /// with the second.
    pub proof fn lemma_scan_from_concat(st: RpScan, a: Seq<Seq<char>>, b: Seq<Seq<char>>)
        ensures
            Self::scan_from(st, a + b) == match Self::scan_from(st, a) {
                Ok(mid) => Self::scan_from(mid, b),
                Err(e) => Err(e),
            },
        decreases b.len(),
    {
        if b.len() == 0 {
            assert(a + b =~= a);
        } else {
            assert((a + b).drop_last() =~= a + b.drop_last());
            Self::lemma_scan_from_concat(st, a, b.drop_last());
        }
    }

    /// Appends the lines of the block to `out`.
    pub fn push_lines(&self, out: &mut Vec<String>)
        ensures
            final(out).deep_view() == old(out).deep_view() + self@.lines(),
    {
        DrugBlock::push_all_lines(out, &self.drugs);
        let ghost drugs = out.deep_view();
        out.push(self.usage.to_code());
        assert(out.deep_view() =~= drugs + seq![self.usage@.line()]);
        UsageSupplementaryRecord::push_lines(out, &self.usage_supplementary);
        RpNoticeRecord::push_lines(out, &self.rp_notice);
        assert(out.deep_view() =~= old(out).deep_view() + self@.lines());
    }

    /// Appends the lines of `blocks` to `out`.
    pub fn push_all_lines(out: &mut Vec<String>, blocks: &Vec<RpBlock>)
        ensures
            final(out).deep_view() == old(out).deep_view() + all_lines(blocks.deep_view()),
    {
        let mut i: usize = 0;
        assert(blocks.deep_view().take(0) =~= Seq::empty());
        assert(out.deep_view() =~= old(out).deep_view() + Seq::<Seq<char>>::empty());
        while i < blocks.len()
            invariant
                i <= blocks.len(),
                out.deep_view() == old(out).deep_view() + all_lines(
                    blocks.deep_view().take(i as int),
                ),
            decreases blocks.len() - i,
        {
            let ghost done = blocks.deep_view().take(i as int);
            let ghost next = blocks.deep_view().take(i + 1);
            blocks[i].push_lines(out);
            proof {
                assert(next.drop_last() =~= done);
                assert(next.last() == blocks[i as int]@);
                assert(out.deep_view() =~= old(out).deep_view() + (all_lines(done)
                    + blocks[i as int]@.lines()));
            }
            i += 1;
        }
        assert(blocks.deep_view().take(blocks.len() as int) =~= blocks.deep_view());
    }

    /// The lines of the block.
    pub fn lines(&self) -> (r: Vec<String>)
        ensures
            r.deep_view() == self@.lines(),
    {
        let mut out: Vec<String> = Vec::new();
        self.push_lines(&mut out);
        assert(out.deep_view() =~= self@.lines());
        out
    }

    /// The text of the block.
    pub fn to_code(&self) -> (r: String)
        ensures
            r@ == self@.text(),
    {
        let lines = self.lines();
        join_lines(&lines)
    }

    /// Reads the block from the lines `lines[from..to]`.
    pub fn from_lines(lines: &Vec<String>, from: usize, to: usize) -> (r: Result<RpBlock, Error>)
        requires
            from <= to <= lines.len(),
        ensures
            outcome(r) == Self::spec_from_lines(
                lines.deep_view().subrange(from as int, to as int),
            ),
    {
        let ghost all = lines.deep_view().subrange(from as int, to as int);
        let mut reader = RpReader::new(from);
        let mut i: usize = from;
        assert(all.take(0) =~= Seq::empty());
        assert(lines.deep_view().subrange(from as int, from as int) =~= Seq::empty());
        while i < to
            invariant
                from <= i <= to <= lines.len(),
                all == lines.deep_view().subrange(from as int, to as int),
                reader.wf(from as int, i as int),
                Self::scan(all.take(i - from)) == Ok::<RpScan, ErrorView>(
                    reader.model(lines.deep_view(), i as int),
                ),
            decreases to - i,
        {
            proof {
                assert(all.take(i - from + 1).drop_last() =~= all.take(i - from));
                assert(all.take(i - from + 1).last() == lines[i as int]@);
            }
            if let Some(e) = reader.advance(lines, from, i) {
                proof {
                    Self::lemma_scan_fails_on(all, i - from + 1);
                }
                return Err(e);
            }
            i += 1;
        }
        assert(all.take(to - from) =~= all);
        reader.finish(lines, to)
    }
}

/// What has been read of a prescription group, while it is read. The lines
/// of the drug that is being read are `lines[pending..i]`, where `i` is the
/// line that comes next.
struct RpReader {
    drugs: Vec<DrugBlock>,
    pending: usize,
    usage: Option<UsageRecord>,
    usage_supplementary: Vec<UsageSupplementaryRecord>,
    rp_notice: Vec<RpNoticeRecord>,
}

impl RpReader {
    spec fn wf(&self, from: int, next: int) -> bool {
        &&& from <= self.pending <= next
        &&& self.usage is Some ==> self.pending == next
    }

    spec fn model(&self, lines: Seq<Seq<char>>, next: int) -> RpScan {
        RpScan {
            drugs: self.drugs.deep_view(),
            pending: lines.subrange(self.pending as int, next),
            usage: self.usage.deep_view(),
            usage_supplementary: self.usage_supplementary.deep_view(),
            rp_notice: self.rp_notice.deep_view(),
        }
    }

    fn new(from: usize) -> (r: RpReader)
        ensures
            r.wf(from as int, from as int),
            forall|lines: Seq<Seq<char>>|
                lines.subrange(from as int, from as int) =~= Seq::<Seq<char>>::empty() ==> r.model(
                    lines,
                    from as int,
                ) == RpBlock::start(),
    {
        let r = RpReader {
            drugs: Vec::new(),
            pending: from,
            usage: None,
            usage_supplementary: Vec::new(),
            rp_notice: Vec::new(),
        };
        assert(r.drugs.deep_view() =~= Seq::empty());
        assert(r.usage_supplementary.deep_view() =~= Seq::empty());
        assert(r.rp_notice.deep_view() =~= Seq::empty());
        r
    }

    /// Reads the pending lines as a drug block.
    fn flush(&mut self, lines: &Vec<String>, i: usize) -> (r: Option<Error>)
        requires
            old(self).pending <= i <= lines.len(),
        ensures
            final(self).pending == old(self).pending,
            final(self).usage == old(self).usage,
            final(self).usage_supplementary == old(self).usage_supplementary,
            final(self).rp_notice == old(self).rp_notice,
            match r {
                None => RpBlock::flush(old(self).model(lines.deep_view(), i as int)) == Ok::<
                    Seq<DrugBlockView>,
                    ErrorView,
                >(final(self).drugs.deep_view()),
                Some(e) => RpBlock::flush(old(self).model(lines.deep_view(), i as int)) == Err::<
                    Seq<DrugBlockView>,
                    ErrorView,
                >(e@),
            },
    {
        if self.pending < i {
            match DrugBlock::from_lines(lines, self.pending, i) {
                Ok(block) => {
                    let ghost before = self.drugs.deep_view();
                    self.drugs.push(block);
                    assert(self.drugs.deep_view() =~= before.push(block@));
                    None
                },
                Err(e) => Some(e),
            }
        } else {
            None
        }
    }

    /// Reads the line `lines[i]`.
    fn advance(&mut self, lines: &Vec<String>, from: usize, i: usize) -> (r: Option<Error>)
        requires
            i < lines.len(),
            old(self).wf(from as int, i as int),
        ensures
            match r {
                None => final(self).wf(from as int, i + 1) && RpBlock::step(
                    old(self).model(lines.deep_view(), i as int),
                    lines[i as int]@,
                ) == Ok::<RpScan, ErrorView>(final(self).model(lines.deep_view(), i + 1)),
                Some(e) => RpBlock::step(
                    old(self).model(lines.deep_view(), i as int),
                    lines[i as int]@,
                ) == Err::<RpScan, ErrorView>(e@),
            },
    {
        reveal(RpBlock::step);
        let line = lines[i].as_str();
        let tag = read_line_tag(line);
        let ghost all = lines.deep_view();
        let ghost st = self.model(all, i as int);
        proof {
            assert(all.subrange(self.pending as int, i + 1) =~= st.pending.push(line@));
            assert(all.subrange(i as int, i + 1) =~= seq![line@]);
            assert(all.subrange(i + 1, i + 1) =~= Seq::empty());
        }
        if self.usage.is_none() {
            match tag {
                Some(201) => {
                    let r = self.flush(lines, i);
                    if r.is_none() {
                        self.pending = i;
                    }
                    r
                },
                Some(281) | Some(291) => {
                    if self.pending == i {
                        Some(
                            Error::GotUnexpectedRecordLine(
                                framed("201 DrugRecord line must exist before \"", line, "\""),
                            ),
                        )
                    } else {
                        None
                    }
                },
                Some(301) => {
                    if self.pending == i {
                        Some(
                            Error::GotUnexpectedRecordLine(
                                framed("DrugBlock must exist before UsageRecord \"", line, "\""),
                            ),
                        )
                    } else {
                        match self.flush(lines, i) {
                            Some(e) => Some(e),
                            None => match UsageRecord::from_str(line) {
                                Ok(r) => {
                                    self.usage = Some(r);
                                    self.pending = i + 1;
                                    None
                                },
                                Err(e) => Some(e),
                            },
                        }
                    }
                },
                _ => Some(
                    Error::GotUnexpectedRecordLine(
                        framed("Expected DrugBlock or 301 UsageRecord, got \"", line, "\"."),
                    ),
                ),
            }
        } else {
            assert(st.pending =~= Seq::empty());
            match tag {
                Some(311) => match UsageSupplementaryRecord::from_str(line) {
                    Ok(r) => {
                        let ghost before = self.usage_supplementary.deep_view();
                        self.usage_supplementary.push(r);
                        assert(self.usage_supplementary.deep_view() =~= before.push(r@));
                        self.pending = i + 1;
                        None
                    },
                    Err(e) => Some(e),
                },
                Some(391) => match RpNoticeRecord::from_str(line) {
                    Ok(r) => {
                        let ghost before = self.rp_notice.deep_view();
                        self.rp_notice.push(r);
                        assert(self.rp_notice.deep_view() =~= before.push(r@));
                        self.pending = i + 1;
                        None
                    },
                    Err(e) => Some(e),
                },
                _ => Some(
                    Error::GotUnexpectedRecordLine(
                        framed("Expected 311 or 391 record, got \"", line, "\"."),
                    ),
                ),
            }
        }
    }

    /// The block that was read.
    fn finish(self, lines: &Vec<String>, to: usize) -> (r: Result<RpBlock, Error>)
        requires
            self.pending <= to <= lines.len(),
        ensures
            outcome(r) == RpBlock::finish(self.model(lines.deep_view(), to as int)),
    {
        let pending = self.pending;
        match self.usage {
            Some(usage) => Ok(
                RpBlock {
                    drugs: self.drugs,
                    usage,
                    usage_supplementary: self.usage_supplementary,
                    rp_notice: self.rp_notice,
                },
            ),
            None => if pending == to {
                Err(Error::MissingRequiredRecord("DrugBlock is required.".to_owned()))
            } else {
                Err(Error::MissingRequiredRecord("UsageRecord is required.".to_owned()))
            },
        }
    }
}

impl Default for RpBlock {
    fn default() -> (r: Self)
        ensures
            r@ == Self::default_view(),
    {
        let r = RpBlock {
            drugs: Vec::new(),
            usage: UsageRecord::default(),
            usage_supplementary: Vec::new(),
            rp_notice: Vec::new(),
        };
        assert(r.drugs.deep_view() =~= Seq::empty());
        assert(r.usage_supplementary.deep_view() =~= Seq::empty());
        assert(r.rp_notice.deep_view() =~= Seq::empty());
        r
    }
}

impl FromStr for RpBlock {
    type Err = Error;

    /// Reads the block from its text.
    fn from_str(s: &str) -> (r: Result<Self, Self::Err>)
        ensures
            outcome(r) == Self::spec_from_str(s@),
    {
        let lines = split_lines(s);
        assert(lines.deep_view().subrange(0, lines.len() as int) =~= lines.deep_view());
        RpBlock::from_lines(&lines, 0, lines.len())
    }
}

} // verus!
