//! The notebook: the version, the patient, what is noted about the patient,
//! the dispensings, and the family pharmacists.

use vstd::prelude::*;
use std::str::FromStr;
use crate::dispensing_block::{
    dispensing_section, DispensingInformationBlock, DispensingInformationBlockView,
};
use crate::error::{
    framed, missing_required_record, outcome, unexpected_record_line, Error, ErrorView,
};
use crate::patient_records::{
    MemoRecord, MemoRecordView, OtcDrugRecord, OtcDrugRecordView, PatientRecord,
    PatientRecordView, SpecialPatientNoteRecord, SpecialPatientNoteRecordView,
};
use crate::record::{
    all_lines, crlf, is_version_line, join_lines, line_tag, read_line_tag, read_version_mark,
    LineModel,
};
use crate::remark_records::{FamilyPharmacistRecord, FamilyPharmacistRecordView};
use crate::text::{join, lines_of, split_lines};
use crate::version::{VersionRecord, VersionRecordView};

verus! {

/// A medicine notebook (お薬手帳): the medication history of one patient.
#[derive(Debug, Clone, PartialEq, Eq)]
pub struct MedicineNotebook {
    /// バージョンレコード
    pub version: VersionRecord,
    /// 患者情報レコード
    pub patient: PatientRecord,
    /// 患者特記レコード
    pub special_patient_notes: Vec<SpecialPatientNoteRecord>,
    /// 一般用医薬品服用レコード
    pub otc_drugs: Vec<OtcDrugRecord>,
    /// 手帳メモレコード
    pub memos: Vec<MemoRecord>,
    /// 調剤情報
    pub dispensing_information: Vec<DispensingInformationBlock>,
    /// かかりつけ薬剤師レコード
    pub family_pharmacist: Vec<FamilyPharmacistRecord>,
}

/// The model of a [`MedicineNotebook`].
pub struct MedicineNotebookView {
    pub version: VersionRecordView,
    pub patient: PatientRecordView,
    pub special_patient_notes: Seq<SpecialPatientNoteRecordView>,
    pub otc_drugs: Seq<OtcDrugRecordView>,
    pub memos: Seq<MemoRecordView>,
    pub dispensing_information: Seq<DispensingInformationBlockView>,
    pub family_pharmacist: Seq<FamilyPharmacistRecordView>,
}

impl View for MedicineNotebook {
    type V = MedicineNotebookView;

    open spec fn view(&self) -> MedicineNotebookView {
        MedicineNotebookView {
            version: self.version@,
            patient: self.patient@,
            special_patient_notes: self.special_patient_notes.deep_view(),
            otc_drugs: self.otc_drugs.deep_view(),
            memos: self.memos.deep_view(),
            dispensing_information: self.dispensing_information.deep_view(),
            family_pharmacist: self.family_pharmacist.deep_view(),
        }
    }
}

impl DeepView for MedicineNotebook {
    type V = MedicineNotebookView;

    open spec fn deep_view(&self) -> MedicineNotebookView {
        self@
    }
}

impl MedicineNotebookView {
    /// The lines that come before the dispensings.
    pub open spec fn head_lines(self) -> Seq<Seq<char>> {
        seq![self.version.line(), self.patient.line()] + all_lines(self.special_patient_notes)
            + all_lines(self.otc_drugs) + all_lines(self.memos)
    }

    /// The text of the notebook: its lines with `\r\n` between them.
    pub open spec fn text(self) -> Seq<char> {
        join(self.lines(), crlf())
    }

    /// Whether the notebook's text reads back as the notebook: each of its
    /// records and dispensings can be written.
    pub open spec fn is_encodable(self) -> bool {
        &&& self.version.is_encodable()
        &&& self.patient.is_encodable()
        &&& forall|i: int|
            0 <= i < self.special_patient_notes.len() ==> (
            #[trigger] self.special_patient_notes[i]).is_encodable()
        &&& forall|i: int|
            0 <= i < self.otc_drugs.len() ==> (#[trigger] self.otc_drugs[i]).is_encodable()
        &&& forall|i: int| 0 <= i < self.memos.len() ==> (#[trigger] self.memos[i]).is_encodable()
        &&& forall|i: int|
            0 <= i < self.dispensing_information.len() ==> (
            #[trigger] self.dispensing_information[i]).is_encodable()
        &&& forall|i: int|
            0 <= i < self.family_pharmacist.len() ==> (
            #[trigger] self.family_pharmacist[i]).is_encodable()
    }
}

impl LineModel for MedicineNotebookView {
    open spec fn lines(self) -> Seq<Seq<char>> {
        self.head_lines() + all_lines(self.dispensing_information) + all_lines(
            self.family_pharmacist,
        )
    }
}

/// What has been read of a notebook. The lines of the dispensing that is
/// being read are kept until the next dispensing begins or the notebook
/// ends. `watermark` is the section of the last line read.
pub struct NotebookScan {
    pub version: Option<VersionRecordView>,
    pub patient: Option<PatientRecordView>,
    pub special_patient_notes: Seq<SpecialPatientNoteRecordView>,
    pub otc_drugs: Seq<OtcDrugRecordView>,
    pub memos: Seq<MemoRecordView>,
    pub dispensing_information: Seq<DispensingInformationBlockView>,
    pub pending: Seq<Seq<char>>,
    pub family_pharmacist: Seq<FamilyPharmacistRecordView>,
    pub watermark: nat,
}

/// The section of a notebook that a record with the tag `tag` belongs to.
/// A section is named by its first tag; the records of the dispensings make
/// up one section, and the sections come in the order of their names. The
/// version line comes before all of them.
pub open spec fn notebook_section(tag: nat) -> Option<nat> {
    if tag == 1 || tag == 2 || tag == 3 || tag == 4 || tag == 701 {
        Some(tag)
    } else if dispensing_section(tag) is Some {
        Some(5)
    } else {
        None
    }
}

impl MedicineNotebook {
    /// Before the first line.
    pub open spec fn start() -> NotebookScan {
        NotebookScan {
            version: None,
            patient: None,
            special_patient_notes: Seq::empty(),
            otc_drugs: Seq::empty(),
            memos: Seq::empty(),
            dispensing_information: Seq::empty(),
            pending: Seq::empty(),
            family_pharmacist: Seq::empty(),
            watermark: 0,
        }
    }

    /// The dispensings read so far with the one whose lines are pending, if
    /// any.
    pub open spec fn flush(st: NotebookScan) -> Result<
        Seq<DispensingInformationBlockView>,
        ErrorView,
    > {
        if st.pending.len() > 0 {
            match DispensingInformationBlock::spec_from_lines(st.pending) {
                Ok(block) => Ok(st.dispensing_information.push(block)),
                Err(e) => Err(e),
            }
        } else {
            Ok(st.dispensing_information)
        }
    }

    /// What a line of a dispensing does: it goes to the dispensing that is
    /// being read, and the line of a date ends that one and begins the next.
    pub open spec fn step_dispensing(st: NotebookScan, tag: nat, line: Seq<char>) -> Result<
        NotebookScan,
        ErrorView,
    > {
        if tag == 5 {
            match Self::flush(st) {
                Ok(dispensing_information) => Ok(
                    NotebookScan {
                        dispensing_information,
                        pending: seq![line],
                        watermark: 5,
                        ..st
                    },
                ),
                Err(e) => Err(e),
            }
        } else {
            Ok(NotebookScan { pending: st.pending.push(line), watermark: 5, ..st })
        }
    }

    /// What the line of a record of one of the other sections does: the
    /// record is read and kept.
    pub open spec fn step_record(st: NotebookScan, tag: nat, line: Seq<char>) -> Result<
        NotebookScan,
        ErrorView,
    > {
        if tag == 1 {
            match PatientRecord::spec_from_str(line) {
                Ok(r) => Ok(NotebookScan { patient: Some(r), watermark: tag, ..st }),
                Err(e) => Err(e),
            }
        } else if tag == 2 {
            match SpecialPatientNoteRecord::spec_from_str(line) {
                Ok(r) => Ok(
                    NotebookScan {
                        special_patient_notes: st.special_patient_notes.push(r),
                        watermark: tag,
                        ..st
                    },
                ),
                Err(e) => Err(e),
            }
        } else if tag == 3 {
            match OtcDrugRecord::spec_from_str(line) {
                Ok(r) => Ok(NotebookScan { otc_drugs: st.otc_drugs.push(r), watermark: tag, ..st }),
                Err(e) => Err(e),
            }
        } else if tag == 4 {
            match MemoRecord::spec_from_str(line) {
                Ok(r) => Ok(NotebookScan { memos: st.memos.push(r), watermark: tag, ..st }),
                Err(e) => Err(e),
            }
        } else {
            match FamilyPharmacistRecord::spec_from_str(line) {
                Ok(r) => Ok(
                    NotebookScan {
                        family_pharmacist: st.family_pharmacist.push(r),
                        watermark: tag,
                        ..st
                    },
                ),
                Err(e) => Err(e),
            }
        }
    }

    /// What one more line does. The version line must be the first line
    /// and come once. The tag of any other line gives its section, and the
    /// sections only advance: a line of a section that has been left is
    /// refused, and so is a second patient line.
    #[verifier::opaque]
    pub open spec fn step(st: NotebookScan, line: Seq<char>) -> Result<NotebookScan, ErrorView> {
        if is_version_line(line) {
            if st.watermark == 0 && st.version is None {
                match VersionRecord::spec_from_str(line) {
                    Ok(r) => Ok(NotebookScan { version: Some(r), ..st }),
                    Err(e) => Err(e),
                }
            } else {
                Err(unexpected_record_line("Unexpected VersionRecord here: \""@ + line + "\""@))
            }
        } else {
            let section = match line_tag(line) {
                Some(tag) => notebook_section(tag),
                None => None,
            };
            match section {
                None => Err(
                    unexpected_record_line("Expected valid record line, got \""@ + line + "\"."@),
                ),
                Some(section) => if st.watermark > section || (section == 1 && st.watermark
                    == 1) {
                    Err(unexpected_record_line("Unexpected record here: \""@ + line + "\""@))
                } else if section == 5 {
                    Self::step_dispensing(st, line_tag(line)->Some_0, line)
                } else {
                    Self::step_record(st, section, line)
                },
            }
        }
    }

    /// What reading `lines` from the first to the last does to `st`.
    pub open spec fn scan_from(st: NotebookScan, lines: Seq<Seq<char>>) -> Result<
        NotebookScan,
        ErrorView,
    >
        decreases lines.len(),
    {
        if lines.len() == 0 {
            Ok(st)
        } else {
            match Self::scan_from(st, lines.drop_last()) {
                Ok(st) => Self::step(st, lines.last()),
                Err(e) => Err(e),
            }
        }
    }

    /// What reading `lines` from the first to the last does.
    pub open spec fn scan(lines: Seq<Seq<char>>) -> Result<NotebookScan, ErrorView> {
        Self::scan_from(Self::start(), lines)
    }

    /// The notebook that was read, once the last dispensing is read too. It
    /// must hold the version and the patient.
    pub open spec fn finish(st: NotebookScan) -> Result<MedicineNotebookView, ErrorView> {
        match Self::flush(st) {
            Err(e) => Err(e),
            Ok(dispensing_information) => if st.version is None {
                Err(missing_required_record("VersionRecord is required."@))
            } else if st.patient is None {
                Err(missing_required_record("PatientRecord is required."@))
            } else {
                Ok(
                    MedicineNotebookView {
                        version: st.version->Some_0,
                        patient: st.patient->Some_0,
                        special_patient_notes: st.special_patient_notes,
                        otc_drugs: st.otc_drugs,
                        memos: st.memos,
                        dispensing_information,
                        family_pharmacist: st.family_pharmacist,
                    },
                )
            },
        }
    }

    /// What reading the notebook from `lines` gives.
    pub open spec fn spec_from_lines(lines: Seq<Seq<char>>) -> Result<
        MedicineNotebookView,
        ErrorView,
    > {
        match Self::scan(lines) {
            Ok(st) => Self::finish(st),
            Err(e) => Err(e),
        }
    }

    /// What reading the notebook from `text` gives.
    pub open spec fn spec_from_str(text: Seq<char>) -> Result<MedicineNotebookView, ErrorView> {
        Self::spec_from_lines(lines_of(text))
    }

    /// The model of the defaults.
    pub open spec fn default_view() -> MedicineNotebookView {
        MedicineNotebookView {
            version: VersionRecord::default_view(),
            patient: PatientRecord::default_view(),
            special_patient_notes: Seq::empty(),
            otc_drugs: Seq::empty(),
            memos: Seq::empty(),
            dispensing_information: Seq::empty(),
            family_pharmacist: Seq::empty(),
        }
    }

    /// Once reading has failed, more lines do not change the failure.
    pub proof fn lemma_scan_fails_on(lines: Seq<Seq<char>>, k: int)
        requires
            0 <= k <= lines.len(),
            Self::scan(lines.take(k)) is Err,
        ensures
            Self::scan(lines) == Self::scan(lines.take(k)),
        decreases lines.len() - k,
    {
        if k < lines.len() {
            assert(lines.take(k + 1).drop_last() =~= lines.take(k));
            Self::lemma_scan_fails_on(lines, k + 1);
        } else {
            assert(lines.take(k) =~= lines);
        }
    }

    /// Reading lines in two parts is reading the first part and going on
    /// with the second.
    pub proof fn lemma_scan_from_concat(st: NotebookScan, a: Seq<Seq<char>>, b: Seq<Seq<char>>)
        ensures
            Self::scan_from(st, a + b) == match Self::scan_from(st, a) {
                Ok(mid) => Self::scan_from(mid, b),
                Err(e) => Err(e),
            },
        decreases b.len(),
    {
        if b.len() == 0 {
            assert(a + b =~= a);
        } else {
            assert((a + b).drop_last() =~= a + b.drop_last());
            Self::lemma_scan_from_concat(st, a, b.drop_last());
        }
    }

    fn push_head_lines(&self, out: &mut Vec<String>)
        ensures
            final(out).deep_view() == old(out).deep_view() + self@.head_lines(),
    {
        out.push(self.version.to_code());
        out.push(self.patient.to_code());
        assert(out.deep_view() =~= old(out).deep_view() + seq![
            self.version@.line(),
            self.patient@.line(),
        ]);
        SpecialPatientNoteRecord::push_lines(out, &self.special_patient_notes);
        OtcDrugRecord::push_lines(out, &self.otc_drugs);
        MemoRecord::push_lines(out, &self.memos);
        assert(out.deep_view() =~= old(out).deep_view() + self@.head_lines());
    }

    /// Appends the lines of the notebook to `out`.
    pub fn push_lines(&self, out: &mut Vec<String>)
        ensures
            final(out).deep_view() == old(out).deep_view() + self@.lines(),
    {
        self.push_head_lines(out);
        DispensingInformationBlock::push_all_lines(out, &self.dispensing_information);
        FamilyPharmacistRecord::push_lines(out, &self.family_pharmacist);
        assert(out.deep_view() =~= old(out).deep_view() + self@.lines());
    }

    /// The lines of the notebook.
    pub fn lines(&self) -> (r: Vec<String>)
        ensures
            r.deep_view() == self@.lines(),
    {
        let mut out: Vec<String> = Vec::new();
        self.push_lines(&mut out);
        assert(out.deep_view() =~= self@.lines());
        out
    }

    /// The text of the notebook.
    pub fn to_code(&self) -> (r: String)
        ensures
            r@ == self@.text(),
    {
        let lines = self.lines();
        join_lines(&lines)
    }

    /// Reads the notebook from the lines `lines[from..to]`.
    pub fn from_lines(lines: &Vec<String>, from: usize, to: usize) -> (r: Result<
        MedicineNotebook,
        Error,
    >)
        requires
            from <= to <= lines.len(),
        ensures
            outcome(r) == Self::spec_from_lines(
                lines.deep_view().subrange(from as int, to as int),
            ),
    {
        let ghost all = lines.deep_view().subrange(from as int, to as int);
        let mut reader = NotebookReader::new(from);
        let mut i: usize = from;
        assert(all.take(0) =~= Seq::empty());
        assert(lines.deep_view().subrange(from as int, from as int) =~= Seq::empty());
        while i < to
            invariant
                from <= i <= to <= lines.len(),
                all == lines.deep_view().subrange(from as int, to as int),
                reader.wf(from as int, i as int),
                Self::scan(all.take(i - from)) == Ok::<NotebookScan, ErrorView>(
                    reader.model(lines.deep_view()),
                ),
            decreases to - i,
        {
            proof {
                assert(all.take(i - from + 1).drop_last() =~= all.take(i - from));
                assert(all.take(i - from + 1).last() == lines[i as int]@);
            }
            if let Some(e) = reader.advance(lines, from, i) {
                proof {
                    Self::lemma_scan_fails_on(all, i - from + 1);
                }
                return Err(e);
            }
            i += 1;
        }
        assert(all.take(to - from) =~= all);
        reader.finish(lines, from, to)
    }
}

/// What has been read of a notebook, while it is read. The lines of the
/// dispensing that is being read are `lines[pending..pending_end]`.
struct NotebookReader {
    version: Option<VersionRecord>,
    patient: Option<PatientRecord>,
    special_patient_notes: Vec<SpecialPatientNoteRecord>,
    otc_drugs: Vec<OtcDrugRecord>,
    memos: Vec<MemoRecord>,
    dispensing_information: Vec<DispensingInformationBlock>,
    pending: usize,
    pending_end: usize,
    family_pharmacist: Vec<FamilyPharmacistRecord>,
    watermark: u32,
}

impl NotebookReader {
    spec fn wf(&self, from: int, next: int) -> bool {
        &&& from <= self.pending <= self.pending_end <= next
        &&& self.watermark <= 5 ==> self.pending_end == next
        &&& self.watermark < 5 ==> self.pending == next
    }

    spec fn model(&self, lines: Seq<Seq<char>>) -> NotebookScan {
        NotebookScan {
            version: self.version.deep_view(),
            patient: self.patient.deep_view(),
            special_patient_notes: self.special_patient_notes.deep_view(),
            otc_drugs: self.otc_drugs.deep_view(),
            memos: self.memos.deep_view(),
            dispensing_information: self.dispensing_information.deep_view(),
            pending: lines.subrange(self.pending as int, self.pending_end as int),
            family_pharmacist: self.family_pharmacist.deep_view(),
            watermark: self.watermark as nat,
        }
    }

    fn new(from: usize) -> (r: NotebookReader)
        ensures
            r.wf(from as int, from as int),
            forall|lines: Seq<Seq<char>>|
                lines.subrange(from as int, from as int) =~= Seq::<Seq<char>>::empty() ==> r.model(
                    lines,
                ) == MedicineNotebook::start(),
    {
        let r = NotebookReader {
            version: None,
            patient: None,
            special_patient_notes: Vec::new(),
            otc_drugs: Vec::new(),
            memos: Vec::new(),
            dispensing_information: Vec::new(),
            pending: from,
            pending_end: from,
            family_pharmacist: Vec::new(),
            watermark: 0,
        };
        assert(r.special_patient_notes.deep_view() =~= Seq::empty());
        assert(r.otc_drugs.deep_view() =~= Seq::empty());
        assert(r.memos.deep_view() =~= Seq::empty());
        assert(r.dispensing_information.deep_view() =~= Seq::empty());
        assert(r.family_pharmacist.deep_view() =~= Seq::empty());
        r
    }

    /// Reads the pending lines as a dispensing.
    fn flush(&mut self, lines: &Vec<String>) -> (r: Option<Error>)
        requires
            old(self).pending <= old(self).pending_end <= lines.len(),
        ensures
            final(self).version == old(self).version,
            final(self).patient == old(self).patient,
            final(self).special_patient_notes == old(self).special_patient_notes,
            final(self).otc_drugs == old(self).otc_drugs,
            final(self).memos == old(self).memos,
            final(self).pending == old(self).pending,
            final(self).pending_end == old(self).pending_end,
            final(self).family_pharmacist == old(self).family_pharmacist,
            final(self).watermark == old(self).watermark,
            match r {
                None => MedicineNotebook::flush(old(self).model(lines.deep_view())) == Ok::<
                    Seq<DispensingInformationBlockView>,
                    ErrorView,
                >(final(self).dispensing_information.deep_view()),
                Some(e) => MedicineNotebook::flush(old(self).model(lines.deep_view())) == Err::<
                    Seq<DispensingInformationBlockView>,
                    ErrorView,
                >(e@),
            },
    {
        if self.pending < self.pending_end {
            match DispensingInformationBlock::from_lines(lines, self.pending, self.pending_end) {
                Ok(block) => {
                    let ghost before = self.dispensing_information.deep_view();
                    self.dispensing_information.push(block);
                    assert(self.dispensing_information.deep_view() =~= before.push(block@));
                    None
                },
                Err(e) => Some(e),
            }
        } else {
            None
        }
    }

    /// Reads the line `lines[i]` of a dispensing.
    fn advance_dispensing(&mut self, lines: &Vec<String>, from: usize, i: usize, tag: u32) -> (r:
        Option<Error>)
        requires
            i < lines.len(),
            old(self).wf(from as int, i as int),
            old(self).watermark <= 5,
        ensures
            match r {
                None => final(self).wf(from as int, i + 1) && MedicineNotebook::step_dispensing(
                    old(self).model(lines.deep_view()),
                    tag as nat,
                    lines[i as int]@,
                ) == Ok::<NotebookScan, ErrorView>(final(self).model(lines.deep_view())),
                Some(e) => MedicineNotebook::step_dispensing(
                    old(self).model(lines.deep_view()),
                    tag as nat,
                    lines[i as int]@,
                ) == Err::<NotebookScan, ErrorView>(e@),
            },
    {
        let ghost all = lines.deep_view();
        let ghost st = self.model(all);
        proof {
            assert(all.subrange(self.pending as int, i + 1) =~= st.pending.push(lines[i as int]@));
            assert(all.subrange(i as int, i + 1) =~= seq![lines[i as int]@]);
        }
        if tag == 5 {
            let r = self.flush(lines);
            if r.is_none() {
                self.pending = i;
                self.pending_end = i + 1;
                self.watermark = 5;
            }
            r
        } else {
            self.pending_end = i + 1;
            self.watermark = 5;
            None
        }
    }

    /// Reads the line `lines[i]` of a record of another section.
    fn advance_record(&mut self, lines: &Vec<String>, from: usize, i: usize, tag: u32) -> (r:
        Option<Error>)
        requires
            i < lines.len(),
            old(self).wf(from as int, i as int),
            old(self).watermark <= tag,
            tag == 1 || tag == 2 || tag == 3 || tag == 4 || tag == 701,
        ensures
            match r {
                None => final(self).wf(from as int, i + 1) && MedicineNotebook::step_record(
                    old(self).model(lines.deep_view()),
                    tag as nat,
                    lines[i as int]@,
                ) == Ok::<NotebookScan, ErrorView>(final(self).model(lines.deep_view())),
                Some(e) => MedicineNotebook::step_record(
                    old(self).model(lines.deep_view()),
                    tag as nat,
                    lines[i as int]@,
                ) == Err::<NotebookScan, ErrorView>(e@),
            },
    {
        let line = lines[i].as_str();
        let ghost all = lines.deep_view();
        proof {
            if self.watermark < 5 {
                assert(all.subrange(i as int, i as int) =~= all.subrange(i + 1, i + 1));
            }
        }
        let r = if tag == 1 {
            match PatientRecord::from_str(line) {
                Ok(r) => {
                    self.patient = Some(r);
                    None
                },
                Err(e) => Some(e),
            }
        } else if tag == 2 {
            match SpecialPatientNoteRecord::from_str(line) {
                Ok(r) => {
                    let ghost before = self.special_patient_notes.deep_view();
                    self.special_patient_notes.push(r);
                    assert(self.special_patient_notes.deep_view() =~= before.push(r@));
                    None
                },
                Err(e) => Some(e),
            }
        } else if tag == 3 {
            match OtcDrugRecord::from_str(line) {
                Ok(r) => {
                    let ghost before = self.otc_drugs.deep_view();
                    self.otc_drugs.push(r);
                    assert(self.otc_drugs.deep_view() =~= before.push(r@));
                    None
                },
                Err(e) => Some(e),
            }
        } else if tag == 4 {
            match MemoRecord::from_str(line) {
                Ok(r) => {
                    let ghost before = self.memos.deep_view();
                    self.memos.push(r);
                    assert(self.memos.deep_view() =~= before.push(r@));
                    None
                },
                Err(e) => Some(e),
            }
        } else {
            match FamilyPharmacistRecord::from_str(line) {
                Ok(r) => {
                    let ghost before = self.family_pharmacist.deep_view();
                    self.family_pharmacist.push(r);
                    assert(self.family_pharmacist.deep_view() =~= before.push(r@));
                    None
                },
                Err(e) => Some(e),
            }
        };
        if r.is_none() {
            if self.watermark < 5 {
                self.pending = i + 1;
                self.pending_end = i + 1;
            }
            self.watermark = tag;
        }
        r
    }

    /// Reads the version line `lines[i]`.
    fn advance_version(&mut self, lines: &Vec<String>, from: usize, i: usize) -> (r: Option<
        Error,
    >)
        requires
            i < lines.len(),
            old(self).wf(from as int, i as int),
            old(self).watermark == 0,
            old(self).version is None,
        ensures
            match r {
                None => final(self).wf(from as int, i + 1) && VersionRecord::spec_from_str(
                    lines[i as int]@,
                ) is Ok && final(self).model(lines.deep_view()) == (NotebookScan {
                    version: Some(VersionRecord::spec_from_str(lines[i as int]@)->Ok_0),
                    ..old(self).model(lines.deep_view())
                }),
                Some(e) => VersionRecord::spec_from_str(lines[i as int]@) == Err::<
                    VersionRecordView,
                    ErrorView,
                >(e@),
            },
    {
        let ghost all = lines.deep_view();
        proof {
            assert(all.subrange(i as int, i as int) =~= all.subrange(i + 1, i + 1));
        }
        match VersionRecord::from_str(lines[i].as_str()) {
            Ok(r) => {
                self.version = Some(r);
                self.pending = i + 1;
                self.pending_end = i + 1;
                None
            },
            Err(e) => Some(e),
        }
    }

    /// Reads the line `lines[i]`.
    fn advance(&mut self, lines: &Vec<String>, from: usize, i: usize) -> (r: Option<Error>)
        requires
            i < lines.len(),
            old(self).wf(from as int, i as int),
        ensures
            match r {
                None => final(self).wf(from as int, i + 1) && MedicineNotebook::step(
                    old(self).model(lines.deep_view()),
                    lines[i as int]@,
                ) == Ok::<NotebookScan, ErrorView>(final(self).model(lines.deep_view())),
                Some(e) => MedicineNotebook::step(
                    old(self).model(lines.deep_view()),
                    lines[i as int]@,
                ) == Err::<NotebookScan, ErrorView>(e@),
            },
    {
        reveal(MedicineNotebook::step);
        let line = lines[i].as_str();
        if read_version_mark(line) {
            if self.watermark == 0 && self.version.is_none() {
                self.advance_version(lines, from, i)
            } else {
                Some(
                    Error::GotUnexpectedRecordLine(
                        framed("Unexpected VersionRecord here: \"", line, "\""),
                    ),
                )
            }
        } else {
            let tag = read_line_tag(line);
            let section: Option<u32> = match tag {
                Some(tag) => if tag == 1 || tag == 2 || tag == 3 || tag == 4 || tag == 701 {
                    Some(tag)
                } else if tag == 5 || tag == 11 || tag == 15 || tag == 51 || tag == 401 || tag
                    == 411 || tag == 501 || tag == 601 || tag == 55 || tag == 201 || tag == 281
                    || tag == 291 || tag == 301 || tag == 311 || tag == 391 {
                    Some(5)
                } else {
                    None
                },
                None => None,
            };
            match section {
                None => Some(
                    Error::GotUnexpectedRecordLine(
                        framed("Expected valid record line, got \"", line, "\"."),
                    ),
                ),
                Some(section) => {
                    if self.watermark > section || (section == 1 && self.watermark == 1) {
                        Some(
                            Error::GotUnexpectedRecordLine(
                                framed("Unexpected record here: \"", line, "\""),
                            ),
                        )
                    } else if section == 5 {
                        match tag {
                            Some(tag) => self.advance_dispensing(lines, from, i, tag),
                            None => vstd::pervasive::unreached(),
                        }
                    } else {
                        self.advance_record(lines, from, i, section)
                    }
                },
            }
        }
    }

    /// The notebook that was read.
    fn finish(self, lines: &Vec<String>, from: usize, to: usize) -> (r: Result<
        MedicineNotebook,
        Error,
    >)
        requires
            self.wf(from as int, to as int),
            to <= lines.len(),
        ensures
            outcome(r) == MedicineNotebook::finish(self.model(lines.deep_view())),
    {
        let mut reader = self;
        match reader.flush(lines) {
            Some(e) => Err(e),
            None => match reader.version {
                None => Err(Error::MissingRequiredRecord("VersionRecord is required.".to_owned())),
                Some(version) => match reader.patient {
                    None => Err(
                        Error::MissingRequiredRecord("PatientRecord is required.".to_owned()),
                    ),
                    Some(patient) => Ok(
                        MedicineNotebook {
                            version,
                            patient,
                            special_patient_notes: reader.special_patient_notes,
                            otc_drugs: reader.otc_drugs,
                            memos: reader.memos,
                            dispensing_information: reader.dispensing_information,
                            family_pharmacist: reader.family_pharmacist,
                        },
                    ),
                },
            },
        }
    }
}

impl Default for MedicineNotebook {
    fn default() -> (r: Self)
        ensures
            r@ == Self::default_view(),
    {
        let r = MedicineNotebook {
            version: VersionRecord::default(),
            patient: PatientRecord::default(),
            special_patient_notes: Vec::new(),
            otc_drugs: Vec::new(),
            memos: Vec::new(),
            dispensing_information: Vec::new(),
            family_pharmacist: Vec::new(),
        };
        assert(r.special_patient_notes.deep_view() =~= Seq::empty());
        assert(r.otc_drugs.deep_view() =~= Seq::empty());
        assert(r.memos.deep_view() =~= Seq::empty());
        assert(r.dispensing_information.deep_view() =~= Seq::empty());
        assert(r.family_pharmacist.deep_view() =~= Seq::empty());
        r
    }
}

impl FromStr for MedicineNotebook {
    type Err = Error;

    /// Reads the notebook from its text.
    fn from_str(s: &str) -> (r: Result<Self, Self::Err>)
        ensures
            outcome(r) == Self::spec_from_str(s@),
    {
        let lines = split_lines(s);
        assert(lines.deep_view().subrange(0, lines.len() as int) =~= lines.deep_view());
        MedicineNotebook::from_lines(&lines, 0, lines.len())
    }
}

} // verus!
