//! The block of one drug: the drug, then what supplements it and what to
//! mind when taking it.

use vstd::prelude::*;
use std::str::FromStr;
use crate::drug_records::{
    DrugNoticeRecord, DrugNoticeRecordView, DrugRecord, DrugRecordView, DrugSupplementaryRecord,
    DrugSupplementaryRecordView,
};
use crate::error::{
    framed, missing_required_record, outcome, unexpected_record_line, Error, ErrorView,
};
use crate::record::{all_lines, crlf, join_lines, line_tag, read_line_tag, LineModel};
use crate::text::{join, lines_of, split_lines};

verus! {

/// One drug with its supplements and notices.
#[derive(Debug, Clone, PartialEq, Eq)]
pub struct DrugBlock {
    /// 薬品レコード
    pub drug: DrugRecord,
    /// 薬品補足レコード
    pub drug_supplementary: Vec<DrugSupplementaryRecord>,
    /// 薬品服用注意レコード
    pub drug_notice: Vec<DrugNoticeRecord>,
}

/// The model of a [`DrugBlock`].
pub struct DrugBlockView {
    pub drug: DrugRecordView,
    pub drug_supplementary: Seq<DrugSupplementaryRecordView>,
    pub drug_notice: Seq<DrugNoticeRecordView>,
}

impl View for DrugBlock {
    type V = DrugBlockView;

    open spec fn view(&self) -> DrugBlockView {
        DrugBlockView {
            drug: self.drug@,
            drug_supplementary: self.drug_supplementary.deep_view(),
            drug_notice: self.drug_notice.deep_view(),
        }
    }
}

impl DeepView for DrugBlock {
    type V = DrugBlockView;

    open spec fn deep_view(&self) -> DrugBlockView {
        self@
    }
}

impl LineModel for DrugBlockView {
    open spec fn lines(self) -> Seq<Seq<char>> {
        seq![self.drug.line()] + all_lines(self.drug_supplementary) + all_lines(self.drug_notice)
    }
}

impl DrugBlockView {
    /// The text of the block: its lines with `\r\n` between them.
    pub open spec fn text(self) -> Seq<char> {
        join(self.lines(), crlf())
    }

    /// Whether the block's lines read back as the block: each of its
    /// records can be written.
    pub open spec fn is_encodable(self) -> bool {
        &&& self.drug.is_encodable()
        &&& forall|i: int|
            0 <= i < self.drug_supplementary.len() ==> (
            #[trigger] self.drug_supplementary[i]).is_encodable()
        &&& forall|i: int|
            0 <= i < self.drug_notice.len() ==> (#[trigger] self.drug_notice[i]).is_encodable()
    }
}

/// What has been read of a drug block.
pub struct DrugScan {
    pub drug: Option<DrugRecordView>,
    pub drug_supplementary: Seq<DrugSupplementaryRecordView>,
    pub drug_notice: Seq<DrugNoticeRecordView>,
}

impl DrugBlock {
    /// Before the first line.
    pub open spec fn start() -> DrugScan {
        DrugScan { drug: None, drug_supplementary: Seq::empty(), drug_notice: Seq::empty() }
    }

    /// What one more line does. The first line must be the drug; after it
    /// come supplements and notices, and nothing else.
    #[verifier::opaque]
    pub open spec fn step(st: DrugScan, line: Seq<char>) -> Result<DrugScan, ErrorView> {
        let tag = line_tag(line);
        if st.drug is None {
            if tag == Some(201nat) {
                match DrugRecord::spec_from_str(line) {
                    Ok(drug) => Ok(DrugScan { drug: Some(drug), ..st }),
                    Err(e) => Err(e),
                }
            } else {
                Err(unexpected_record_line("Expected 201 DrugRecord, got \""@ + line + "\"."@))
            }
        } else {
            if tag == Some(281nat) {
                match DrugSupplementaryRecord::spec_from_str(line) {
                    Ok(r) => Ok(
                        DrugScan { drug_supplementary: st.drug_supplementary.push(r), ..st },
                    ),
                    Err(e) => Err(e),
                }
            } else if tag == Some(291nat) {
                match DrugNoticeRecord::spec_from_str(line) {
                    Ok(r) => Ok(DrugScan { drug_notice: st.drug_notice.push(r), ..st }),
                    Err(e) => Err(e),
                }
            } else {
                Err(
                    unexpected_record_line("Expected 281 or 291 record, got \""@ + line + "\"."@),
                )
            }
        }
    }

    /// What reading `lines` from the first to the last does to `st`.
    pub open spec fn scan_from(st: DrugScan, lines: Seq<Seq<char>>) -> Result<DrugScan, ErrorView>
        decreases lines.len(),
    {
        if lines.len() == 0 {
            Ok(st)
        } else {
            match Self::scan_from(st, lines.drop_last()) {
                Ok(st) => Self::step(st, lines.last()),
                Err(e) => Err(e),
            }
        }
    }

    /// What reading `lines` from the first to the last does.
    pub open spec fn scan(lines: Seq<Seq<char>>) -> Result<DrugScan, ErrorView> {
        Self::scan_from(Self::start(), lines)
    }

    /// The block that was read, which must hold a drug.
    pub open spec fn finish(st: DrugScan) -> Result<DrugBlockView, ErrorView> {
        match st.drug {
            Some(drug) => Ok(
                DrugBlockView {
                    drug,
                    drug_supplementary: st.drug_supplementary,
                    drug_notice: st.drug_notice,
                },
            ),
            None => Err(missing_required_record("DrugRecord is required."@)),
        }
    }

    /// What reading the block from `lines` gives.
    pub open spec fn spec_from_lines(lines: Seq<Seq<char>>) -> Result<DrugBlockView, ErrorView> {
        match Self::scan(lines) {
            Ok(st) => Self::finish(st),
            Err(e) => Err(e),
        }
    }

    /// What reading the block from `text` gives.
    pub open spec fn spec_from_str(text: Seq<char>) -> Result<DrugBlockView, ErrorView> {
        Self::spec_from_lines(lines_of(text))
    }

    /// The model of the defaults.
    pub open spec fn default_view() -> DrugBlockView {
        DrugBlockView {
            drug: DrugRecord::default_view(),
            drug_supplementary: Seq::empty(),
            drug_notice: Seq::empty(),
        }
    }

    /// Once reading has failed, more lines do not change the failure.
    pub proof fn lemma_scan_fails_on(lines: Seq<Seq<char>>, k: int)
        requires
            0 <= k <= lines.len(),
            Self::scan(lines.take(k)) is Err,
        ensures
            Self::scan(lines) == Self::scan(lines.take(k)),
        decreases lines.len() - k,
    {
        if k < lines.len() {
            assert(lines.take(k + 1).drop_last() =~= lines.take(k));
            Self::lemma_scan_fails_on(lines, k + 1);
        } else {
            assert(lines.take(k) =~= lines);
        }
    }

    /// Reading lines in two parts is reading the first part and going on
    /// with the second.
    pub proof fn lemma_scan_from_concat(st: DrugScan, a: Seq<Seq<char>>, b: Seq<Seq<char>>)
        ensures
            Self::scan_from(st, a + b) == match Self::scan_from(st, a) {
                Ok(mid) => Self::scan_from(mid, b),
                Err(e) => Err(e),
            },
        decreases b.len(),
    {
        if b.len() == 0 {
            assert(a + b =~= a);
        } else {
            assert((a + b).drop_last() =~= a + b.drop_last());
            Self::lemma_scan_from_concat(st, a, b.drop_last());
        }
    }

    /// Appends the lines of the block to `out`.
    pub fn push_lines(&self, out: &mut Vec<String>)
        ensures
            final(out).deep_view() == old(out).deep_view() + self@.lines(),
    {
        out.push(self.drug.to_code());
        assert(out.deep_view() =~= old(out).deep_view() + seq![self.drug@.line()]);
        DrugSupplementaryRecord::push_lines(out, &self.drug_supplementary);
        DrugNoticeRecord::push_lines(out, &self.drug_notice);
        assert(out.deep_view() =~= old(out).deep_view() + self@.lines());
    }

    /// Appends the lines of `blocks` to `out`.
    pub fn push_all_lines(out: &mut Vec<String>, blocks: &Vec<DrugBlock>)
        ensures
            final(out).deep_view() == old(out).deep_view() + all_lines(blocks.deep_view()),
    {
        let mut i: usize = 0;
        assert(blocks.deep_view().take(0) =~= Seq::empty());
        assert(out.deep_view() =~= old(out).deep_view() + Seq::<Seq<char>>::empty());
        while i < blocks.len()
            invariant
                i <= blocks.len(),
                out.deep_view() == old(out).deep_view() + all_lines(
                    blocks.deep_view().take(i as int),
                ),
            decreases blocks.len() - i,
        {
            let ghost before = out.deep_view();
            let ghost done = blocks.deep_view().take(i as int);
            let ghost next = blocks.deep_view().take(i + 1);
            blocks[i].push_lines(out);
            proof {
                assert(next.drop_last() =~= done);
                assert(next.last() == blocks[i as int]@);
                assert(out.deep_view() =~= old(out).deep_view() + (all_lines(done)
                    + blocks[i as int]@.lines()));
            }
            i += 1;
        }
        assert(blocks.deep_view().take(blocks.len() as int) =~= blocks.deep_view());
    }

    /// The lines of the block.
    pub fn lines(&self) -> (r: Vec<String>)
        ensures
            r.deep_view() == self@.lines(),
    {
        let mut out: Vec<String> = Vec::new();
        self.push_lines(&mut out);
        assert(out.deep_view() =~= self@.lines());
        out
    }

    /// The text of the block.
    pub fn to_code(&self) -> (r: String)
        ensures
            r@ == self@.text(),
    {
        let lines = self.lines();
        join_lines(&lines)
    }

    /// Reads the block from the lines `lines[from..to]`.
    pub fn from_lines(lines: &Vec<String>, from: usize, to: usize) -> (r: Result<DrugBlock, Error>)
        requires
            from <= to <= lines.len(),
        ensures
            outcome(r) == Self::spec_from_lines(
                lines.deep_view().subrange(from as int, to as int),
            ),
    {
        let ghost all = lines.deep_view().subrange(from as int, to as int);
        let mut drug: Option<DrugRecord> = None;
        let mut drug_supplementary: Vec<DrugSupplementaryRecord> = Vec::new();
        let mut drug_notice: Vec<DrugNoticeRecord> = Vec::new();
        let mut i: usize = from;
        assert(all.take(0) =~= Seq::empty());
        assert(drug_supplementary.deep_view() =~= Seq::empty());
        assert(drug_notice.deep_view() =~= Seq::empty());
        while i < to
            invariant
                from <= i <= to <= lines.len(),
                all == lines.deep_view().subrange(from as int, to as int),
                Self::scan(all.take(i - from)) == Ok::<DrugScan, ErrorView>(
                    DrugScan {
                        drug: drug.deep_view(),
                        drug_supplementary: drug_supplementary.deep_view(),
                        drug_notice: drug_notice.deep_view(),
                    },
                ),
            decreases to - i,
        {
            let line = lines[i].as_str();
            let tag = read_line_tag(line);
            let ghost st = Self::scan(all.take(i - from))->Ok_0;
            proof {
                reveal(DrugBlock::step);
                assert(all.take(i - from + 1).drop_last() =~= all.take(i - from));
                assert(all.take(i - from + 1).last() == line@);
                assert(Self::scan(all.take(i - from + 1)) == Self::step(st, line@));
            }
            let failure: Option<Error> = if drug.is_none() {
                match tag {
                    Some(201) => match DrugRecord::from_str(line) {
                        Ok(r) => {
                            drug = Some(r);
                            None
                        },
                        Err(e) => Some(e),
                    },
                    _ => Some(
                        Error::GotUnexpectedRecordLine(
                            framed("Expected 201 DrugRecord, got \"", line, "\"."),
                        ),
                    ),
                }
            } else {
                match tag {
                    Some(281) => match DrugSupplementaryRecord::from_str(line) {
                        Ok(r) => {
                            let ghost before = drug_supplementary.deep_view();
                            drug_supplementary.push(r);
                            assert(drug_supplementary.deep_view() =~= before.push(r@));
                            None
                        },
                        Err(e) => Some(e),
                    },
                    Some(291) => match DrugNoticeRecord::from_str(line) {
                        Ok(r) => {
                            let ghost before = drug_notice.deep_view();
                            drug_notice.push(r);
                            assert(drug_notice.deep_view() =~= before.push(r@));
                            None
                        },
                        Err(e) => Some(e),
                    },
                    _ => Some(
                        Error::GotUnexpectedRecordLine(
                            framed("Expected 281 or 291 record, got \"", line, "\"."),
                        ),
                    ),
                }
            };
            if let Some(e) = failure {
                proof {
                    assert(Self::step(st, line@) == Err::<DrugScan, ErrorView>(e@));
                    Self::lemma_scan_fails_on(all, i - from + 1);
                }
                return Err(e);
            }
            i += 1;
        }
        assert(all.take(to - from) =~= all);
        match drug {
            Some(drug) => Ok(DrugBlock { drug, drug_supplementary, drug_notice }),
            None => Err(Error::MissingRequiredRecord("DrugRecord is required.".to_owned())),
        }
    }
}

impl Default for DrugBlock {
    fn default() -> (r: Self)
        ensures
            r@ == Self::default_view(),
    {
        let r = DrugBlock {
            drug: DrugRecord::default(),
            drug_supplementary: Vec::new(),
            drug_notice: Vec::new(),
        };
        assert(r.drug_supplementary.deep_view() =~= Seq::empty());
        assert(r.drug_notice.deep_view() =~= Seq::empty());
        r
    }
}

impl FromStr for DrugBlock {
    type Err = Error;

    /// Reads the block from its text.
    fn from_str(s: &str) -> (r: Result<Self, Self::Err>)
        ensures
            outcome(r) == Self::spec_from_str(s@),
    {
        let lines = split_lines(s);
        assert(lines.deep_view().subrange(0, lines.len() as int) =~= lines.deep_view());
        DrugBlock::from_lines(&lines, 0, lines.len())
    }
}

} // verus!
