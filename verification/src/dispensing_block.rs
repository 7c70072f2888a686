//! The block of one dispensing: when and where, by whom and for whom, the
//! prescriptions, and the remarks that close it.

use vstd::prelude::*;
use std::str::FromStr;
use crate::dispensing_records::{
    DateRecord, DateRecordView, MedicalInstitutionRecord, MedicalInstitutionRecordView,
    PharmacistRecord, PharmacistRecordView, PharmacyRecord, PharmacyRecordView,
};
use crate::error::{
    framed, missing_required_record, outcome, unexpected_record_line, Error, ErrorView,
};
use crate::prescription_block::{is_rp_tag, PrescriptionBlock, PrescriptionBlockView};
use crate::record::{
    all_lines, crlf, join_lines, line_tag, optional_lines, read_line_tag, LineModel,
};
use crate::remark_records::{
    FromPatientRecord, FromPatientRecordView, InformationProvisionRecord,
    InformationProvisionRecordView, NoteRecord, NoteRecordView, NoticeRecord, NoticeRecordView,
};
use crate::text::{join, lines_of, split_lines};

verus! {

/// One dispensing of drugs by a pharmacy.
#[derive(Debug, Clone, PartialEq, Eq)]
pub struct DispensingInformationBlock {
    /// 調剤等年月日レコード
    pub date: DateRecord,
    /// 調剤－医療機関等レコード
    pub pharmacy: PharmacyRecord,
    /// 調剤－医師・薬剤師レコード
    pub pharmacist: Option<PharmacistRecord>,
    /// 処方－医療機関レコード
    pub medical_institute: Option<MedicalInstitutionRecord>,
    /// 処方
    pub prescriptions: Vec<PrescriptionBlock>,
    /// 服用注意レコード
    pub notice: Option<NoticeRecord>,
    /// 医療機関等提供情報レコード
    pub information_provision: Option<InformationProvisionRecord>,
    /// 備考レコード
    pub note: Option<NoteRecord>,
    /// 患者等記入レコード
    pub from_patient: Option<FromPatientRecord>,
}

/// The model of a [`DispensingInformationBlock`].
pub struct DispensingInformationBlockView {
    pub date: DateRecordView,
    pub pharmacy: PharmacyRecordView,
    pub pharmacist: Option<PharmacistRecordView>,
    pub medical_institute: Option<MedicalInstitutionRecordView>,
    pub prescriptions: Seq<PrescriptionBlockView>,
    pub notice: Option<NoticeRecordView>,
    pub information_provision: Option<InformationProvisionRecordView>,
    pub note: Option<NoteRecordView>,
    pub from_patient: Option<FromPatientRecordView>,
}

impl View for DispensingInformationBlock {
    type V = DispensingInformationBlockView;

    open spec fn view(&self) -> DispensingInformationBlockView {
        DispensingInformationBlockView {
            date: self.date@,
            pharmacy: self.pharmacy@,
            pharmacist: self.pharmacist.deep_view(),
            medical_institute: self.medical_institute.deep_view(),
            prescriptions: self.prescriptions.deep_view(),
            notice: self.notice.deep_view(),
            information_provision: self.information_provision.deep_view(),
            note: self.note.deep_view(),
            from_patient: self.from_patient.deep_view(),
        }
    }
}

impl DeepView for DispensingInformationBlock {
    type V = DispensingInformationBlockView;

    open spec fn deep_view(&self) -> DispensingInformationBlockView {
        self@
    }
}

impl DispensingInformationBlockView {
    /// The lines that come before the prescriptions.
    pub open spec fn head_lines(self) -> Seq<Seq<char>> {
        seq![self.date.line(), self.pharmacy.line()] + optional_lines(self.pharmacist)
            + optional_lines(self.medical_institute)
    }

    /// The lines that come after the prescriptions.
    pub open spec fn tail_lines(self) -> Seq<Seq<char>> {
        optional_lines(self.notice) + optional_lines(self.information_provision) + optional_lines(
            self.note,
        ) + optional_lines(self.from_patient)
    }

    /// The text of the block: its lines with `\r\n` between them.
    pub open spec fn text(self) -> Seq<char> {
        join(self.lines(), crlf())
    }

    /// Whether the block's lines read back as the block: each of its
    /// records and prescriptions can be written, no prescription is empty,
    /// and every prescription but the first names its physician, whose line
    /// is what tells one prescription from the next.
    pub open spec fn is_encodable(self) -> bool {
        &&& self.date.is_encodable()
        &&& self.pharmacy.is_encodable()
        &&& self.pharmacist matches Some(r) ==> r.is_encodable()
        &&& self.medical_institute matches Some(r) ==> r.is_encodable()
        &&& forall|i: int|
            0 <= i < self.prescriptions.len() ==> (#[trigger] self.prescriptions[i]).is_encodable()
        &&& forall|i: int|
            0 <= i < self.prescriptions.len() ==> (#[trigger] self.prescriptions[i]).lines().len()
                > 0
        &&& forall|i: int|
            1 <= i < self.prescriptions.len() ==> (
            #[trigger] self.prescriptions[i]).physician is Some
        &&& self.notice matches Some(r) ==> r.is_encodable()
        &&& self.information_provision matches Some(r) ==> r.is_encodable()
        &&& self.note matches Some(r) ==> r.is_encodable()
        &&& self.from_patient matches Some(r) ==> r.is_encodable()
    }
}

impl LineModel for DispensingInformationBlockView {
    open spec fn lines(self) -> Seq<Seq<char>> {
        self.head_lines() + all_lines(self.prescriptions) + self.tail_lines()
    }
}

/// What has been read of a dispensing. The lines of the prescription that
/// is being read are kept until the next prescription begins or the block
/// ends. `watermark` is the section of the last line read.
pub struct DispensingScan {
    pub date: Option<DateRecordView>,
    pub pharmacy: Option<PharmacyRecordView>,
    pub pharmacist: Option<PharmacistRecordView>,
    pub medical_institute: Option<MedicalInstitutionRecordView>,
    pub prescriptions: Seq<PrescriptionBlockView>,
    pub pending: Seq<Seq<char>>,
    pub notice: Option<NoticeRecordView>,
    pub information_provision: Option<InformationProvisionRecordView>,
    pub note: Option<NoteRecordView>,
    pub from_patient: Option<FromPatientRecordView>,
    pub watermark: nat,
}

/// The section of a dispensing that a record with the tag `tag` belongs to.
/// A section is named by its first tag; the records of the prescriptions
/// make up one section, and the sections come in the order of their names.
pub open spec fn dispensing_section(tag: nat) -> Option<nat> {
    if tag == 5 || tag == 11 || tag == 15 || tag == 51 || tag == 401 || tag == 411 || tag == 501
        || tag == 601 {
        Some(tag)
    } else if tag == 55 || is_rp_tag(tag) {
        Some(55)
    } else {
        None
    }
}

impl DispensingInformationBlock {
    /// Before the first line.
    pub open spec fn start() -> DispensingScan {
        DispensingScan {
            date: None,
            pharmacy: None,
            pharmacist: None,
            medical_institute: None,
            prescriptions: Seq::empty(),
            pending: Seq::empty(),
            notice: None,
            information_provision: None,
            note: None,
            from_patient: None,
            watermark: 0,
        }
    }

    /// The prescriptions read so far with the one whose lines are pending,
    /// if any.
    pub open spec fn flush(st: DispensingScan) -> Result<Seq<PrescriptionBlockView>, ErrorView> {
        if st.pending.len() > 0 {
            match PrescriptionBlock::spec_from_lines(st.pending) {
                Ok(block) => Ok(st.prescriptions.push(block)),
                Err(e) => Err(e),
            }
        } else {
            Ok(st.prescriptions)
        }
    }

    /// What a line of a prescription does: it goes to the prescription that
    /// is being read, and the line of a physician ends that one and begins
    /// the next.
    pub open spec fn step_prescription(st: DispensingScan, tag: nat, line: Seq<char>) -> Result<
        DispensingScan,
        ErrorView,
    > {
        if tag == 55 {
            match Self::flush(st) {
                Ok(prescriptions) => Ok(
                    DispensingScan { prescriptions, pending: seq![line], watermark: 55, ..st },
                ),
                Err(e) => Err(e),
            }
        } else {
            Ok(DispensingScan { pending: st.pending.push(line), watermark: 55, ..st })
        }
    }

    /// What the line of a record that may come once does: the record is
    /// read and kept.
    pub open spec fn step_single(st: DispensingScan, tag: nat, line: Seq<char>) -> Result<
        DispensingScan,
        ErrorView,
    > {
        if tag == 5 {
            match DateRecord::spec_from_str(line) {
                Ok(r) => Ok(DispensingScan { date: Some(r), watermark: tag, ..st }),
                Err(e) => Err(e),
            }
        } else if tag == 11 {
            match PharmacyRecord::spec_from_str(line) {
                Ok(r) => Ok(DispensingScan { pharmacy: Some(r), watermark: tag, ..st }),
                Err(e) => Err(e),
            }
        } else if tag == 15 {
            match PharmacistRecord::spec_from_str(line) {
                Ok(r) => Ok(DispensingScan { pharmacist: Some(r), watermark: tag, ..st }),
                Err(e) => Err(e),
            }
        } else if tag == 51 {
            match MedicalInstitutionRecord::spec_from_str(line) {
                Ok(r) => Ok(DispensingScan { medical_institute: Some(r), watermark: tag, ..st }),
                Err(e) => Err(e),
            }
        } else if tag == 401 {
            match NoticeRecord::spec_from_str(line) {
                Ok(r) => Ok(DispensingScan { notice: Some(r), watermark: tag, ..st }),
                Err(e) => Err(e),
            }
        } else if tag == 411 {
            match InformationProvisionRecord::spec_from_str(line) {
                Ok(r) => Ok(
                    DispensingScan { information_provision: Some(r), watermark: tag, ..st },
                ),
                Err(e) => Err(e),
            }
        } else if tag == 501 {
            match NoteRecord::spec_from_str(line) {
                Ok(r) => Ok(DispensingScan { note: Some(r), watermark: tag, ..st }),
                Err(e) => Err(e),
            }
        } else {
            match FromPatientRecord::spec_from_str(line) {
                Ok(r) => Ok(DispensingScan { from_patient: Some(r), watermark: tag, ..st }),
                Err(e) => Err(e),
            }
        }
    }

    /// What one more line does. Its tag gives its section. The sections
    /// only advance: a line of a section that has been left is refused, and
    /// so is a second line of a section that holds one record. The section
    /// of the prescriptions may go on.
    #[verifier::opaque]
    pub open spec fn step(st: DispensingScan, line: Seq<char>) -> Result<
        DispensingScan,
        ErrorView,
    > {
        let section = match line_tag(line) {
            Some(tag) => dispensing_section(tag),
            None => None,
        };
        match section {
            None => Err(
                unexpected_record_line(
                    "Expected record line of DispensingInformationBlock, got \""@ + line + "\"."@,
                ),
            ),
            Some(section) => if section == 55 {
                if st.watermark > 55 {
                    Err(
                        unexpected_record_line(
                            "Unexpected PrescriptionBlock here: \""@ + line + "\""@,
                        ),
                    )
                } else {
                    Self::step_prescription(st, line_tag(line)->Some_0, line)
                }
            } else {
                if st.watermark >= section {
                    Err(unexpected_record_line("Unexpected record here: \""@ + line + "\""@))
                } else {
                    Self::step_single(st, section, line)
                }
            },
        }
    }

    /// What reading `lines` from the first to the last does to `st`.
    pub open spec fn scan_from(st: DispensingScan, lines: Seq<Seq<char>>) -> Result<
        DispensingScan,
        ErrorView,
    >
        decreases lines.len(),
    {
        if lines.len() == 0 {
            Ok(st)
        } else {
            match Self::scan_from(st, lines.drop_last()) {
                Ok(st) => Self::step(st, lines.last()),
                Err(e) => Err(e),
            }
        }
    }

    /// What reading `lines` from the first to the last does.
    pub open spec fn scan(lines: Seq<Seq<char>>) -> Result<DispensingScan, ErrorView> {
        Self::scan_from(Self::start(), lines)
    }

    /// The block that was read, once the last prescription is read too. It
    /// must hold the date and the pharmacy.
    pub open spec fn finish(st: DispensingScan) -> Result<
        DispensingInformationBlockView,
        ErrorView,
    > {
        match Self::flush(st) {
            Err(e) => Err(e),
            Ok(prescriptions) => if st.date is None {
                Err(missing_required_record("DateRecord is required."@))
            } else if st.pharmacy is None {
                Err(missing_required_record("PharmacyRecord is required."@))
            } else {
                Ok(
                    DispensingInformationBlockView {
                        date: st.date->Some_0,
                        pharmacy: st.pharmacy->Some_0,
                        pharmacist: st.pharmacist,
                        medical_institute: st.medical_institute,
                        prescriptions,
                        notice: st.notice,
                        information_provision: st.information_provision,
                        note: st.note,
                        from_patient: st.from_patient,
                    },
                )
            },
        }
    }

    /// What reading the block from `lines` gives.
    pub open spec fn spec_from_lines(lines: Seq<Seq<char>>) -> Result<
        DispensingInformationBlockView,
        ErrorView,
    > {
        match Self::scan(lines) {
            Ok(st) => Self::finish(st),
            Err(e) => Err(e),
        }
    }

    /// What reading the block from `text` gives.
    pub open spec fn spec_from_str(text: Seq<char>) -> Result<
        DispensingInformationBlockView,
        ErrorView,
    > {
        Self::spec_from_lines(lines_of(text))
    }

    /// The model of the defaults.
    pub open spec fn default_view() -> DispensingInformationBlockView {
        DispensingInformationBlockView {
            date: DateRecord::default_view(),
            pharmacy: PharmacyRecord::default_view(),
            pharmacist: None,
            medical_institute: None,
            prescriptions: Seq::empty(),
            notice: None,
            information_provision: None,
            note: None,
            from_patient: None,
        }
    }

    /// Once reading has failed, more lines do not change the failure.
    pub proof fn lemma_scan_fails_on(lines: Seq<Seq<char>>, k: int)
        requires
            0 <= k <= lines.len(),
            Self::scan(lines.take(k)) is Err,
        ensures
            Self::scan(lines) == Self::scan(lines.take(k)),
        decreases lines.len() - k,
    {
        if k < lines.len() {
            assert(lines.take(k + 1).drop_last() =~= lines.take(k));
            Self::lemma_scan_fails_on(lines, k + 1);
        } else {
            assert(lines.take(k) =~= lines);
        }
    }

    /// Reading lines in two parts is reading the first part and going on
    /// with the second.
    pub proof fn lemma_scan_from_concat(st: DispensingScan, a: Seq<Seq<char>>, b: Seq<Seq<char>>)
        ensures
            Self::scan_from(st, a + b) == match Self::scan_from(st, a) {
                Ok(mid) => Self::scan_from(mid, b),
                Err(e) => Err(e),
            },
        decreases b.len(),
    {
        if b.len() == 0 {
            assert(a + b =~= a);
        } else {
            assert((a + b).drop_last() =~= a + b.drop_last());
            Self::lemma_scan_from_concat(st, a, b.drop_last());
        }
    }

    fn push_head_lines(&self, out: &mut Vec<String>)
        ensures
            final(out).deep_view() == old(out).deep_view() + self@.head_lines(),
    {
        out.push(self.date.to_code());
        out.push(self.pharmacy.to_code());
        let ghost two = out.deep_view();
        assert(two =~= old(out).deep_view() + seq![self.date@.line(), self.pharmacy@.line()]);
        match &self.pharmacist {
            Some(r) => {
                out.push(r.to_code());
                assert(out.deep_view() =~= two + optional_lines(self@.pharmacist));
            },
            None => {
                assert(out.deep_view() =~= two + optional_lines(self@.pharmacist));
            },
        }
        let ghost three = out.deep_view();
        match &self.medical_institute {
            Some(r) => {
                out.push(r.to_code());
                assert(out.deep_view() =~= three + optional_lines(self@.medical_institute));
            },
            None => {
                assert(out.deep_view() =~= three + optional_lines(self@.medical_institute));
            },
        }
        assert(out.deep_view() =~= old(out).deep_view() + self@.head_lines());
    }

    fn push_tail_lines(&self, out: &mut Vec<String>)
        ensures
            final(out).deep_view() == old(out).deep_view() + self@.tail_lines(),
    {
        match &self.notice {
            Some(r) => {
                out.push(r.to_code());
                assert(out.deep_view() =~= old(out).deep_view() + optional_lines(self@.notice));
            },
            None => {
                assert(out.deep_view() =~= old(out).deep_view() + optional_lines(self@.notice));
            },
        }
        let ghost one = out.deep_view();
        match &self.information_provision {
            Some(r) => {
                out.push(r.to_code());
                assert(out.deep_view() =~= one + optional_lines(self@.information_provision));
            },
            None => {
                assert(out.deep_view() =~= one + optional_lines(self@.information_provision));
            },
        }
        let ghost two = out.deep_view();
        match &self.note {
            Some(r) => {
                out.push(r.to_code());
                assert(out.deep_view() =~= two + optional_lines(self@.note));
            },
            None => {
                assert(out.deep_view() =~= two + optional_lines(self@.note));
            },
        }
        let ghost three = out.deep_view();
        match &self.from_patient {
            Some(r) => {
                out.push(r.to_code());
                assert(out.deep_view() =~= three + optional_lines(self@.from_patient));
            },
            None => {
                assert(out.deep_view() =~= three + optional_lines(self@.from_patient));
            },
        }
        assert(out.deep_view() =~= old(out).deep_view() + self@.tail_lines());
    }

    /// Appends the lines of the block to `out`.
    pub fn push_lines(&self, out: &mut Vec<String>)
        ensures
            final(out).deep_view() == old(out).deep_view() + self@.lines(),
    {
        self.push_head_lines(out);
        PrescriptionBlock::push_all_lines(out, &self.prescriptions);
        self.push_tail_lines(out);
        assert(out.deep_view() =~= old(out).deep_view() + self@.lines());
    }

    /// Appends the lines of `blocks` to `out`.
    pub fn push_all_lines(out: &mut Vec<String>, blocks: &Vec<DispensingInformationBlock>)
        ensures
            final(out).deep_view() == old(out).deep_view() + all_lines(blocks.deep_view()),
    {
        let mut i: usize = 0;
        assert(blocks.deep_view().take(0) =~= Seq::empty());
        assert(out.deep_view() =~= old(out).deep_view() + Seq::<Seq<char>>::empty());
        while i < blocks.len()
            invariant
                i <= blocks.len(),
                out.deep_view() == old(out).deep_view() + all_lines(
                    blocks.deep_view().take(i as int),
                ),
            decreases blocks.len() - i,
        {
            let ghost done = blocks.deep_view().take(i as int);
            let ghost next = blocks.deep_view().take(i + 1);
            blocks[i].push_lines(out);
            proof {
                assert(next.drop_last() =~= done);
                assert(next.last() == blocks[i as int]@);
                assert(out.deep_view() =~= old(out).deep_view() + (all_lines(done)
                    + blocks[i as int]@.lines()));
            }
            i += 1;
        }
        assert(blocks.deep_view().take(blocks.len() as int) =~= blocks.deep_view());
    }

    /// The lines of the block.
    pub fn lines(&self) -> (r: Vec<String>)
        ensures
            r.deep_view() == self@.lines(),
    {
        let mut out: Vec<String> = Vec::new();
        self.push_lines(&mut out);
        assert(out.deep_view() =~= self@.lines());
        out
    }

    /// The text of the block.
    pub fn to_code(&self) -> (r: String)
        ensures
            r@ == self@.text(),
    {
        let lines = self.lines();
        join_lines(&lines)
    }

    /// Reads the block from the lines `lines[from..to]`.
    pub fn from_lines(lines: &Vec<String>, from: usize, to: usize) -> (r: Result<
        DispensingInformationBlock,
        Error,
    >)
        requires
            from <= to <= lines.len(),
        ensures
            outcome(r) == Self::spec_from_lines(
                lines.deep_view().subrange(from as int, to as int),
            ),
    {
        let ghost all = lines.deep_view().subrange(from as int, to as int);
        let mut reader = DispensingReader::new(from);
        let mut i: usize = from;
        assert(all.take(0) =~= Seq::empty());
        assert(lines.deep_view().subrange(from as int, from as int) =~= Seq::empty());
        while i < to
            invariant
                from <= i <= to <= lines.len(),
                all == lines.deep_view().subrange(from as int, to as int),
                reader.wf(from as int, i as int),
                Self::scan(all.take(i - from)) == Ok::<DispensingScan, ErrorView>(
                    reader.model(lines.deep_view()),
                ),
            decreases to - i,
        {
            proof {
                assert(all.take(i - from + 1).drop_last() =~= all.take(i - from));
                assert(all.take(i - from + 1).last() == lines[i as int]@);
            }
            if let Some(e) = reader.advance(lines, from, i) {
                proof {
                    Self::lemma_scan_fails_on(all, i - from + 1);
                }
                return Err(e);
            }
            i += 1;
        }
        assert(all.take(to - from) =~= all);
        reader.finish(lines, from, to)
    }
}

/// What has been read of a dispensing, while it is read. The lines of the
/// prescription that is being read are `lines[pending..pending_end]`.
struct DispensingReader {
    date: Option<DateRecord>,
    pharmacy: Option<PharmacyRecord>,
    pharmacist: Option<PharmacistRecord>,
    medical_institute: Option<MedicalInstitutionRecord>,
    prescriptions: Vec<PrescriptionBlock>,
    pending: usize,
    pending_end: usize,
    notice: Option<NoticeRecord>,
    information_provision: Option<InformationProvisionRecord>,
    note: Option<NoteRecord>,
    from_patient: Option<FromPatientRecord>,
    watermark: u32,
}

impl DispensingReader {
    spec fn wf(&self, from: int, next: int) -> bool {
        &&& from <= self.pending <= self.pending_end <= next
        &&& self.watermark <= 55 ==> self.pending_end == next
        &&& self.watermark < 55 ==> self.pending == next
    }

    spec fn model(&self, lines: Seq<Seq<char>>) -> DispensingScan {
        DispensingScan {
            date: self.date.deep_view(),
            pharmacy: self.pharmacy.deep_view(),
            pharmacist: self.pharmacist.deep_view(),
            medical_institute: self.medical_institute.deep_view(),
            prescriptions: self.prescriptions.deep_view(),
            pending: lines.subrange(self.pending as int, self.pending_end as int),
            notice: self.notice.deep_view(),
            information_provision: self.information_provision.deep_view(),
            note: self.note.deep_view(),
            from_patient: self.from_patient.deep_view(),
            watermark: self.watermark as nat,
        }
    }

    fn new(from: usize) -> (r: DispensingReader)
        ensures
            r.wf(from as int, from as int),
            forall|lines: Seq<Seq<char>>|
                lines.subrange(from as int, from as int) =~= Seq::<Seq<char>>::empty() ==> r.model(
                    lines,
                ) == DispensingInformationBlock::start(),
    {
        let r = DispensingReader {
            date: None,
            pharmacy: None,
            pharmacist: None,
            medical_institute: None,
            prescriptions: Vec::new(),
            pending: from,
            pending_end: from,
            notice: None,
            information_provision: None,
            note: None,
            from_patient: None,
            watermark: 0,
        };
        assert(r.prescriptions.deep_view() =~= Seq::empty());
        r
    }

    /// Reads the pending lines as a prescription.
    fn flush(&mut self, lines: &Vec<String>) -> (r: Option<Error>)
        requires
            old(self).pending <= old(self).pending_end <= lines.len(),
        ensures
            final(self).date == old(self).date,
            final(self).pharmacy == old(self).pharmacy,
            final(self).pharmacist == old(self).pharmacist,
            final(self).medical_institute == old(self).medical_institute,
            final(self).pending == old(self).pending,
            final(self).pending_end == old(self).pending_end,
            final(self).notice == old(self).notice,
            final(self).information_provision == old(self).information_provision,
            final(self).note == old(self).note,
            final(self).from_patient == old(self).from_patient,
            final(self).watermark == old(self).watermark,
            match r {
                None => DispensingInformationBlock::flush(old(self).model(lines.deep_view()))
                    == Ok::<Seq<PrescriptionBlockView>, ErrorView>(
                    final(self).prescriptions.deep_view(),
                ),
                Some(e) => DispensingInformationBlock::flush(old(self).model(lines.deep_view()))
                    == Err::<Seq<PrescriptionBlockView>, ErrorView>(e@),
            },
    {
        if self.pending < self.pending_end {
            match PrescriptionBlock::from_lines(lines, self.pending, self.pending_end) {
                Ok(block) => {
                    let ghost before = self.prescriptions.deep_view();
                    self.prescriptions.push(block);
                    assert(self.prescriptions.deep_view() =~= before.push(block@));
                    None
                },
                Err(e) => Some(e),
            }
        } else {
            None
        }
    }

    /// Reads the line `lines[i]` of a prescription.
    fn advance_prescription(&mut self, lines: &Vec<String>, from: usize, i: usize, tag: u32) -> (r:
        Option<Error>)
        requires
            i < lines.len(),
            old(self).wf(from as int, i as int),
            old(self).watermark <= 55,
            tag == 55 || is_rp_tag(tag as nat),
        ensures
            match r {
                None => final(self).wf(from as int, i + 1)
                    && DispensingInformationBlock::step_prescription(
                    old(self).model(lines.deep_view()),
                    tag as nat,
                    lines[i as int]@,
                ) == Ok::<DispensingScan, ErrorView>(final(self).model(lines.deep_view())),
                Some(e) => DispensingInformationBlock::step_prescription(
                    old(self).model(lines.deep_view()),
                    tag as nat,
                    lines[i as int]@,
                ) == Err::<DispensingScan, ErrorView>(e@),
            },
    {
        let ghost all = lines.deep_view();
        let ghost st = self.model(all);
        proof {
            assert(all.subrange(self.pending as int, i + 1) =~= st.pending.push(lines[i as int]@));
            assert(all.subrange(i as int, i + 1) =~= seq![lines[i as int]@]);
        }
        if tag == 55 {
            let r = self.flush(lines);
            if r.is_none() {
                self.pending = i;
                self.pending_end = i + 1;
                self.watermark = 55;
            }
            r
        } else {
            self.pending_end = i + 1;
            self.watermark = 55;
            None
        }
    }

    /// Reads the line `lines[i]` of a record that may come once.
    fn advance_single(&mut self, lines: &Vec<String>, from: usize, i: usize, tag: u32) -> (r:
        Option<Error>)
        requires
            i < lines.len(),
            old(self).wf(from as int, i as int),
            old(self).watermark < tag,
            dispensing_section(tag as nat) == Some(tag as nat),
            tag != 55,
        ensures
            match r {
                None => final(self).wf(from as int, i + 1)
                    && DispensingInformationBlock::step_single(
                    old(self).model(lines.deep_view()),
                    tag as nat,
                    lines[i as int]@,
                ) == Ok::<DispensingScan, ErrorView>(final(self).model(lines.deep_view())),
                Some(e) => DispensingInformationBlock::step_single(
                    old(self).model(lines.deep_view()),
                    tag as nat,
                    lines[i as int]@,
                ) == Err::<DispensingScan, ErrorView>(e@),
            },
    {
        let line = lines[i].as_str();
        let ghost all = lines.deep_view();
        proof {
            if self.watermark < 55 {
                assert(all.subrange(i as int, i as int) =~= all.subrange(i + 1, i + 1));
            }
        }
        let r = if tag == 5 {
            match DateRecord::from_str(line) {
                Ok(r) => {
                    self.date = Some(r);
                    None
                },
                Err(e) => Some(e),
            }
        } else if tag == 11 {
            match PharmacyRecord::from_str(line) {
                Ok(r) => {
                    self.pharmacy = Some(r);
                    None
                },
                Err(e) => Some(e),
            }
        } else if tag == 15 {
            match PharmacistRecord::from_str(line) {
                Ok(r) => {
                    self.pharmacist = Some(r);
                    None
                },
                Err(e) => Some(e),
            }
        } else if tag == 51 {
            match MedicalInstitutionRecord::from_str(line) {
                Ok(r) => {
                    self.medical_institute = Some(r);
                    None
                },
                Err(e) => Some(e),
            }
        } else if tag == 401 {
            match NoticeRecord::from_str(line) {
                Ok(r) => {
                    self.notice = Some(r);
                    None
                },
                Err(e) => Some(e),
            }
        } else if tag == 411 {
            match InformationProvisionRecord::from_str(line) {
                Ok(r) => {
                    self.information_provision = Some(r);
                    None
                },
                Err(e) => Some(e),
            }
        } else if tag == 501 {
            match NoteRecord::from_str(line) {
                Ok(r) => {
                    self.note = Some(r);
                    None
                },
                Err(e) => Some(e),
            }
        } else {
            match FromPatientRecord::from_str(line) {
                Ok(r) => {
                    self.from_patient = Some(r);
                    None
                },
                Err(e) => Some(e),
            }
        };
        if r.is_none() {
            if self.watermark < 55 {
                self.pending = i + 1;
                self.pending_end = i + 1;
            }
            self.watermark = tag;
        }
        r
    }

    /// Reads the line `lines[i]`.
    fn advance(&mut self, lines: &Vec<String>, from: usize, i: usize) -> (r: Option<Error>)
        requires
            i < lines.len(),
            old(self).wf(from as int, i as int),
        ensures
            match r {
                None => final(self).wf(from as int, i + 1) && DispensingInformationBlock::step(
                    old(self).model(lines.deep_view()),
                    lines[i as int]@,
                ) == Ok::<DispensingScan, ErrorView>(final(self).model(lines.deep_view())),
                Some(e) => DispensingInformationBlock::step(
                    old(self).model(lines.deep_view()),
                    lines[i as int]@,
                ) == Err::<DispensingScan, ErrorView>(e@),
            },
    {
        reveal(DispensingInformationBlock::step);
        let line = lines[i].as_str();
        let tag = read_line_tag(line);
        let section: Option<u32> = match tag {
            Some(tag) => if tag == 5 || tag == 11 || tag == 15 || tag == 51 || tag == 401 || tag
                == 411 || tag == 501 || tag == 601 {
                Some(tag)
            } else if tag == 55 || tag == 201 || tag == 281 || tag == 291 || tag == 301 || tag
                == 311 || tag == 391 {
                Some(55)
            } else {
                None
            },
            None => None,
        };
        match section {
            None => Some(
                Error::GotUnexpectedRecordLine(
                    framed(
                        "Expected record line of DispensingInformationBlock, got \"",
                        line,
                        "\".",
                    ),
                ),
            ),
            Some(section) => {
                if section == 55 {
                    if self.watermark > 55 {
                        Some(
                            Error::GotUnexpectedRecordLine(
                                framed("Unexpected PrescriptionBlock here: \"", line, "\""),
                            ),
                        )
                    } else {
                        match tag {
                            Some(tag) => self.advance_prescription(lines, from, i, tag),
                            None => vstd::pervasive::unreached(),
                        }
                    }
                } else if self.watermark >= section {
                    Some(
                        Error::GotUnexpectedRecordLine(
                            framed("Unexpected record here: \"", line, "\""),
                        ),
                    )
                } else {
                    self.advance_single(lines, from, i, section)
                }
            },
        }
    }

    /// The block that was read.
    fn finish(self, lines: &Vec<String>, from: usize, to: usize) -> (r: Result<
        DispensingInformationBlock,
        Error,
    >)
        requires
            self.wf(from as int, to as int),
            to <= lines.len(),
        ensures
            outcome(r) == DispensingInformationBlock::finish(self.model(lines.deep_view())),
    {
        let mut reader = self;
        match reader.flush(lines) {
            Some(e) => Err(e),
            None => match reader.date {
                None => Err(Error::MissingRequiredRecord("DateRecord is required.".to_owned())),
                Some(date) => match reader.pharmacy {
                    None => Err(
                        Error::MissingRequiredRecord("PharmacyRecord is required.".to_owned()),
                    ),
                    Some(pharmacy) => Ok(
                        DispensingInformationBlock {
                            date,
                            pharmacy,
                            pharmacist: reader.pharmacist,
                            medical_institute: reader.medical_institute,
                            prescriptions: reader.prescriptions,
                            notice: reader.notice,
                            information_provision: reader.information_provision,
                            note: reader.note,
                            from_patient: reader.from_patient,
                        },
                    ),
                },
            },
        }
    }
}

impl Default for DispensingInformationBlock {
    fn default() -> (r: Self)
        ensures
            r@ == Self::default_view(),
    {
        let r = DispensingInformationBlock {
            date: DateRecord::default(),
            pharmacy: PharmacyRecord::default(),
            pharmacist: None,
            medical_institute: None,
            prescriptions: Vec::new(),
            notice: None,
            information_provision: None,
            note: None,
            from_patient: None,
        };
        assert(r.prescriptions.deep_view() =~= Seq::empty());
        r
    }
}

impl FromStr for DispensingInformationBlock {
    type Err = Error;

    /// Reads the block from its text.
    fn from_str(s: &str) -> (r: Result<Self, Self::Err>)
        ensures
            outcome(r) == Self::spec_from_str(s@),
    {
        let lines = split_lines(s);
        assert(lines.deep_view().subrange(0, lines.len() as int) =~= lines.deep_view());
        DispensingInformationBlock::from_lines(&lines, 0, lines.len())
    }
}

} // verus!
