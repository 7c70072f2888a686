//! The block of a prescription: the physician, if known, and the
//! prescription groups.

use vstd::prelude::*;
use std::str::FromStr;
use crate::dispensing_records::{PhysicianRecord, PhysicianRecordView};
use crate::error::{framed, outcome, unexpected_record_line, Error, ErrorView};
use crate::record::{all_lines, crlf, join_lines, line_tag, read_line_tag, LineModel};
use crate::rp_block::{RpBlock, RpBlockView};
use crate::text::{join, lines_of, split_lines};

verus! {

/// A prescription: who prescribed, and what.
#[derive(Debug, Clone, PartialEq, Eq)]
pub struct PrescriptionBlock {
    /// 処方－医師レコード
    pub physician: Option<PhysicianRecord>,
    /// RP情報
    pub rps: Vec<RpBlock>,
}

/// The model of a [`PrescriptionBlock`].
pub struct PrescriptionBlockView {
    pub physician: Option<PhysicianRecordView>,
    pub rps: Seq<RpBlockView>,
}

impl View for PrescriptionBlock {
    type V = PrescriptionBlockView;

    open spec fn view(&self) -> PrescriptionBlockView {
        PrescriptionBlockView { physician: self.physician.deep_view(), rps: self.rps.deep_view() }
    }
}

impl DeepView for PrescriptionBlock {
    type V = PrescriptionBlockView;

    open spec fn deep_view(&self) -> PrescriptionBlockView {
        self@
    }
}

impl LineModel for PrescriptionBlockView {
    open spec fn lines(self) -> Seq<Seq<char>> {
        (match self.physician {
            Some(p) => seq![p.line()],
            None => Seq::empty(),
        }) + all_lines(self.rps)
    }
}

impl PrescriptionBlockView {
    /// The text of the block: its lines with `\r\n` between them.
    pub open spec fn text(self) -> Seq<char> {
        join(self.lines(), crlf())
    }

    /// Whether the block's lines read back as the block: the physician and
    /// each of the groups can be written.
    pub open spec fn is_encodable(self) -> bool {
        &&& self.physician matches Some(p) ==> p.is_encodable()
        &&& forall|i: int| 0 <= i < self.rps.len() ==> (#[trigger] self.rps[i]).is_encodable()
    }
}

/// What has been read of a prescription. The lines of the group that is
/// being read are kept until the next group begins.
pub struct PrescriptionScan {
    pub physician: Option<PhysicianRecordView>,
    pub rps: Seq<RpBlockView>,
    pub pending: Seq<Seq<char>>,
    pub usage_seen: bool,
}

/// Whether `tag` is the tag of a record of a prescription group.
pub open spec fn is_rp_tag(tag: nat) -> bool {
    tag == 201 || tag == 281 || tag == 291 || tag == 301 || tag == 311 || tag == 391
}

impl PrescriptionBlock {
    /// Before the first line.
    pub open spec fn start() -> PrescriptionScan {
        PrescriptionScan {
            physician: None,
            rps: Seq::empty(),
            pending: Seq::empty(),
            usage_seen: false,
        }
    }

    /// The groups read so far with the one whose lines are pending, if any.
    pub open spec fn flush(st: PrescriptionScan) -> Result<Seq<RpBlockView>, ErrorView> {
        if st.pending.len() > 0 {
            match RpBlock::spec_from_lines(st.pending) {
                Ok(block) => Ok(st.rps.push(block)),
                Err(e) => Err(e),
            }
        } else {
            Ok(st.rps)
        }
    }

    /// What one more line does. The physician may come once, before
    /// anything else. Every other line goes to the group that is being read;
    /// a drug line after the usage of that group ends it and begins the next.
    #[verifier::opaque]
    pub open spec fn step(st: PrescriptionScan, line: Seq<char>) -> Result<
        PrescriptionScan,
        ErrorView,
    > {
        let tag = line_tag(line);
        if tag == Some(55nat) {
            if st.physician is Some {
                Err(
                    unexpected_record_line(
                        "Multiple PhysicianRecord lines are not allowed: \""@ + line + "\""@,
                    ),
                )
            } else if st.rps.len() > 0 || st.pending.len() > 0 {
                Err(
                    unexpected_record_line(
                        "PhysicianRecord must exist before RpBlock: \""@ + line + "\""@,
                    ),
                )
            } else {
                match PhysicianRecord::spec_from_str(line) {
                    Ok(p) => Ok(PrescriptionScan { physician: Some(p), ..st }),
                    Err(e) => Err(e),
                }
            }
        } else if tag == Some(201nat) && st.usage_seen {
            match Self::flush(st) {
                Ok(rps) => Ok(
                    PrescriptionScan { rps, pending: seq![line], usage_seen: false, ..st },
                ),
                Err(e) => Err(e),
            }
        } else if tag is Some && is_rp_tag(tag->Some_0) {
            Ok(
                PrescriptionScan {
                    pending: st.pending.push(line),
                    usage_seen: st.usage_seen || tag == Some(301nat),
                    ..st
                },
            )
        } else {
            Err(
                unexpected_record_line(
                    "Expected 55 record or RpBlock, got \""@ + line + "\"."@,
                ),
            )
        }
    }

    /// What reading `lines` from the first to the last does to `st`.
    pub open spec fn scan_from(st: PrescriptionScan, lines: Seq<Seq<char>>) -> Result<
        PrescriptionScan,
        ErrorView,
    >
        decreases lines.len(),
    {
        if lines.len() == 0 {
            Ok(st)
        } else {
            match Self::scan_from(st, lines.drop_last()) {
                Ok(st) => Self::step(st, lines.last()),
                Err(e) => Err(e),
            }
        }
    }

    /// What reading `lines` from the first to the last does.
    pub open spec fn scan(lines: Seq<Seq<char>>) -> Result<PrescriptionScan, ErrorView> {
        Self::scan_from(Self::start(), lines)
    }

    /// The block that was read, once the last group is read too.
    pub open spec fn finish(st: PrescriptionScan) -> Result<PrescriptionBlockView, ErrorView> {
        match Self::flush(st) {
            Ok(rps) => Ok(PrescriptionBlockView { physician: st.physician, rps }),
            Err(e) => Err(e),
        }
    }

    /// What reading the block from `lines` gives.
    pub open spec fn spec_from_lines(lines: Seq<Seq<char>>) -> Result<
        PrescriptionBlockView,
        ErrorView,
    > {
        match Self::scan(lines) {
            Ok(st) => Self::finish(st),
            Err(e) => Err(e),
        }
    }

    /// What reading the block from `text` gives.
    pub open spec fn spec_from_str(text: Seq<char>) -> Result<PrescriptionBlockView, ErrorView> {
        Self::spec_from_lines(lines_of(text))
    }

    /// The model of the defaults.
    pub open spec fn default_view() -> PrescriptionBlockView {
        PrescriptionBlockView { physician: None, rps: Seq::empty() }
    }

    /// Once reading has failed, more lines do not change the failure.
    pub proof fn lemma_scan_fails_on(lines: Seq<Seq<char>>, k: int)
        requires
            0 <= k <= lines.len(),
            Self::scan(lines.take(k)) is Err,
        ensures
            Self::scan(lines) == Self::scan(lines.take(k)),
        decreases lines.len() - k,
    {
        if k < lines.len() {
            assert(lines.take(k + 1).drop_last() =~= lines.take(k));
            Self::lemma_scan_fails_on(lines, k + 1);
        } else {
            assert(lines.take(k) =~= lines);
        }
    }

    /// Reading lines in two parts is reading the first part and going on
    /// with the second.
    pub proof fn lemma_scan_from_concat(st: PrescriptionScan, a: Seq<Seq<char>>, b: Seq<Seq<char>>)
        ensures
            Self::scan_from(st, a + b) == match Self::scan_from(st, a) {
                Ok(mid) => Self::scan_from(mid, b),
                Err(e) => Err(e),
            },
        decreases b.len(),
    {
        if b.len() == 0 {
            assert(a + b =~= a);
        } else {
            assert((a + b).drop_last() =~= a + b.drop_last());
            Self::lemma_scan_from_concat(st, a, b.drop_last());
        }
    }

    /// Appends the lines of the block to `out`.
    pub fn push_lines(&self, out: &mut Vec<String>)
        ensures
            final(out).deep_view() == old(out).deep_view() + self@.lines(),
    {
        match &self.physician {
            Some(p) => {
                out.push(p.to_code());
                assert(out.deep_view() =~= old(out).deep_view() + seq![p@.line()]);
            },
            None => {
                assert(out.deep_view() =~= old(out).deep_view() + Seq::<Seq<char>>::empty());
            },
        }
        RpBlock::push_all_lines(out, &self.rps);
        assert(out.deep_view() =~= old(out).deep_view() + self@.lines());
    }

    /// Appends the lines of `blocks` to `out`.
    pub fn push_all_lines(out: &mut Vec<String>, blocks: &Vec<PrescriptionBlock>)
        ensures
            final(out).deep_view() == old(out).deep_view() + all_lines(blocks.deep_view()),
    {
        let mut i: usize = 0;
        assert(blocks.deep_view().take(0) =~= Seq::empty());
        assert(out.deep_view() =~= old(out).deep_view() + Seq::<Seq<char>>::empty());
        while i < blocks.len()
            invariant
                i <= blocks.len(),
                out.deep_view() == old(out).deep_view() + all_lines(
                    blocks.deep_view().take(i as int),
                ),
            decreases blocks.len() - i,
        {
            let ghost done = blocks.deep_view().take(i as int);
            let ghost next = blocks.deep_view().take(i + 1);
            blocks[i].push_lines(out);
            proof {
                assert(next.drop_last() =~= done);
                assert(next.last() == blocks[i as int]@);
                assert(out.deep_view() =~= old(out).deep_view() + (all_lines(done)
                    + blocks[i as int]@.lines()));
            }
            i += 1;
        }
        assert(blocks.deep_view().take(blocks.len() as int) =~= blocks.deep_view());
    }

    /// The lines of the block.
    pub fn lines(&self) -> (r: Vec<String>)
        ensures
            r.deep_view() == self@.lines(),
    {
        let mut out: Vec<String> = Vec::new();
        self.push_lines(&mut out);
        assert(out.deep_view() =~= self@.lines());
        out
    }

    /// The text of the block.
    pub fn to_code(&self) -> (r: String)
        ensures
            r@ == self@.text(),
    {
        let lines = self.lines();
        join_lines(&lines)
    }

    /// Reads the block from the lines `lines[from..to]`.
    pub fn from_lines(lines: &Vec<String>, from: usize, to: usize) -> (r: Result<
        PrescriptionBlock,
        Error,
    >)
        requires
            from <= to <= lines.len(),
        ensures
            outcome(r) == Self::spec_from_lines(
                lines.deep_view().subrange(from as int, to as int),
            ),
    {
        let ghost all = lines.deep_view().subrange(from as int, to as int);
        let mut reader = PrescriptionReader::new(from);
        let mut i: usize = from;
        assert(all.take(0) =~= Seq::empty());
        assert(lines.deep_view().subrange(from as int, from as int) =~= Seq::empty());
        while i < to
            invariant
                from <= i <= to <= lines.len(),
                all == lines.deep_view().subrange(from as int, to as int),
                reader.wf(from as int, i as int),
                Self::scan(all.take(i - from)) == Ok::<PrescriptionScan, ErrorView>(
                    reader.model(lines.deep_view(), i as int),
                ),
            decreases to - i,
        {
            proof {
                assert(all.take(i - from + 1).drop_last() =~= all.take(i - from));
                assert(all.take(i - from + 1).last() == lines[i as int]@);
            }
            if let Some(e) = reader.advance(lines, from, i) {
                proof {
                    Self::lemma_scan_fails_on(all, i - from + 1);
                }
                return Err(e);
            }
            i += 1;
        }
        assert(all.take(to - from) =~= all);
        reader.finish(lines, from, to)
    }
}

/// What has been read of a prescription, while it is read. The lines of the
/// group that is being read are `lines[pending..i]`, where `i` is the line
/// that comes next.
struct PrescriptionReader {
    physician: Option<PhysicianRecord>,
    rps: Vec<RpBlock>,
    pending: usize,
    usage_seen: bool,
}

impl PrescriptionReader {
    spec fn wf(&self, from: int, next: int) -> bool {
        from <= self.pending <= next
    }

    spec fn model(&self, lines: Seq<Seq<char>>, next: int) -> PrescriptionScan {
        PrescriptionScan {
            physician: self.physician.deep_view(),
            rps: self.rps.deep_view(),
            pending: lines.subrange(self.pending as int, next),
            usage_seen: self.usage_seen,
        }
    }

    fn new(from: usize) -> (r: PrescriptionReader)
        ensures
            r.wf(from as int, from as int),
            forall|lines: Seq<Seq<char>>|
                lines.subrange(from as int, from as int) =~= Seq::<Seq<char>>::empty() ==> r.model(
                    lines,
                    from as int,
                ) == PrescriptionBlock::start(),
    {
        let r = PrescriptionReader {
            physician: None,
            rps: Vec::new(),
            pending: from,
            usage_seen: false,
        };
        assert(r.rps.deep_view() =~= Seq::empty());
        r
    }

    /// Reads the pending lines as a prescription group.
    fn flush(&mut self, lines: &Vec<String>, i: usize) -> (r: Option<Error>)
        requires
            old(self).pending <= i <= lines.len(),
        ensures
            final(self).pending == old(self).pending,
            final(self).physician == old(self).physician,
            final(self).usage_seen == old(self).usage_seen,
            match r {
                None => PrescriptionBlock::flush(old(self).model(lines.deep_view(), i as int))
                    == Ok::<Seq<RpBlockView>, ErrorView>(final(self).rps.deep_view()),
                Some(e) => PrescriptionBlock::flush(old(self).model(lines.deep_view(), i as int))
                    == Err::<Seq<RpBlockView>, ErrorView>(e@),
            },
    {
        if self.pending < i {
            match RpBlock::from_lines(lines, self.pending, i) {
                Ok(block) => {
                    let ghost before = self.rps.deep_view();
                    self.rps.push(block);
                    assert(self.rps.deep_view() =~= before.push(block@));
                    None
                },
                Err(e) => Some(e),
            }
        } else {
            None
        }
    }

    /// Reads the line `lines[i]`.
    fn advance(&mut self, lines: &Vec<String>, from: usize, i: usize) -> (r: Option<Error>)
        requires
            i < lines.len(),
            old(self).wf(from as int, i as int),
        ensures
            match r {
                None => final(self).wf(from as int, i + 1) && PrescriptionBlock::step(
                    old(self).model(lines.deep_view(), i as int),
                    lines[i as int]@,
                ) == Ok::<PrescriptionScan, ErrorView>(
                    final(self).model(lines.deep_view(), i + 1),
                ),
                Some(e) => PrescriptionBlock::step(
                    old(self).model(lines.deep_view(), i as int),
                    lines[i as int]@,
                ) == Err::<PrescriptionScan, ErrorView>(e@),
            },
    {
        reveal(PrescriptionBlock::step);
        let line = lines[i].as_str();
        let tag = read_line_tag(line);
        let ghost all = lines.deep_view();
        let ghost st = self.model(all, i as int);
        proof {
            assert(all.subrange(self.pending as int, i + 1) =~= st.pending.push(line@));
            assert(all.subrange(i as int, i + 1) =~= seq![line@]);
            assert(all.subrange(i + 1, i + 1) =~= Seq::empty());
        }
        match tag {
            Some(55) => {
                if self.physician.is_some() {
                    Some(
                        Error::GotUnexpectedRecordLine(
                            framed(
                                "Multiple PhysicianRecord lines are not allowed: \"", line, "\"",
                            ),
                        ),
                    )
                } else if self.rps.len() > 0 || self.pending < i {
                    Some(
                        Error::GotUnexpectedRecordLine(
                            framed("PhysicianRecord must exist before RpBlock: \"", line, "\""),
                        ),
                    )
                } else {
                    assert(st.pending =~= Seq::empty());
                    match PhysicianRecord::from_str(line) {
                        Ok(p) => {
                            self.physician = Some(p);
                            self.pending = i + 1;
                            None
                        },
                        Err(e) => Some(e),
                    }
                }
            },
            Some(201) => {
                if self.usage_seen {
                    let r = self.flush(lines, i);
                    if r.is_none() {
                        self.pending = i;
                        self.usage_seen = false;
                    }
                    r
                } else {
                    None
                }
            },
            Some(301) => {
                self.usage_seen = true;
                None
            },
            Some(281) | Some(291) | Some(311) | Some(391) => None,
            _ => Some(
                Error::GotUnexpectedRecordLine(
                    framed("Expected 55 record or RpBlock, got \"", line, "\"."),
                ),
            ),
        }
    }

    /// The block that was read.
    fn finish(self, lines: &Vec<String>, from: usize, to: usize) -> (r: Result<
        PrescriptionBlock,
        Error,
    >)
        requires
            self.pending <= to <= lines.len(),
        ensures
            outcome(r) == PrescriptionBlock::finish(self.model(lines.deep_view(), to as int)),
    {
        let mut reader = self;
        match reader.flush(lines, to) {
            Some(e) => Err(e),
            None => Ok(PrescriptionBlock { physician: reader.physician, rps: reader.rps }),
        }
    }
}

impl Default for PrescriptionBlock {
    fn default() -> (r: Self)
        ensures
            r@ == Self::default_view(),
    {
        let r = PrescriptionBlock { physician: None, rps: Vec::new() };
        assert(r.rps.deep_view() =~= Seq::empty());
        r
    }
}

impl FromStr for PrescriptionBlock {
    type Err = Error;

    /// Reads the block from its text.
    fn from_str(s: &str) -> (r: Result<Self, Self::Err>)
        ensures
            outcome(r) == Self::spec_from_str(s@),
    {
        let lines = split_lines(s);
        assert(lines.deep_view().subrange(0, lines.len() as int) =~= lines.deep_view());
        PrescriptionBlock::from_lines(&lines, 0, lines.len())
    }
}

} // verus!
