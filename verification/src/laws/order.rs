//! The order of the lines of a block is part of what it says: a line that
//! comes where the order has no place for it makes the block unreadable.

use vstd::prelude::*;
use crate::dispensing_block::{dispensing_section, DispensingInformationBlock};
use crate::drug_block::DrugBlock;
use crate::error::{ErrorKind, ErrorView};
use crate::notebook::{notebook_section, MedicineNotebook};
use crate::prescription_block::PrescriptionBlock;
use crate::record::{is_version_line, line_tag};
use crate::rp_block::RpBlock;

verus! {

/// Whether a result is the refusal of an unexpected record line.
pub open spec fn is_unexpected<T>(r: Result<T, ErrorView>) -> bool {
    r matches Err(e) && e.kind == ErrorKind::GotUnexpectedRecordLine
}

/// Whether `line` has the tag `tag`.
pub open spec fn is_tagged(line: Seq<char>, tag: nat) -> bool {
    line_tag(line) == Some(tag)
}

/// A drug block must begin with the line of its drug, and only supplements
/// and notices may follow: any other line makes the block unreadable, and
/// where the lines before it could be read, it is refused as unexpected.
pub proof fn lemma_drug_block_order(lines: Seq<Seq<char>>, k: int)
    requires
        0 <= k < lines.len(),
        if k == 0 {
            !is_tagged(lines[k], 201)
        } else {
            !is_tagged(lines[k], 281) && !is_tagged(lines[k], 291)
        },
    ensures
        DrugBlock::spec_from_lines(lines) is Err,
        DrugBlock::scan(lines.take(k)) is Ok ==> is_unexpected(DrugBlock::spec_from_lines(lines)),
{
    let before = lines.take(k);
    let upto = lines.take(k + 1);
    assert(upto.drop_last() =~= before);
    assert(upto.last() == lines[k]);
    if DrugBlock::scan(before) is Ok {
        let st = DrugBlock::scan(before)->Ok_0;
        reveal(DrugBlock::step);
        if k > 0 {
            assert(before.drop_last() =~= lines.take(k - 1));
            assert(st.drug is Some);
        }
        assert(is_unexpected(DrugBlock::scan(upto)));
        DrugBlock::lemma_scan_fails_on(lines, k + 1);
    } else {
        DrugBlock::lemma_scan_fails_on(lines, k);
    }
}

/// A prescription group must begin with the line of a drug, and after its
/// usage only supplements of the usage and notices of the group may follow:
/// any other line there makes the group unreadable, and where the lines
/// before it could be read, it is refused as unexpected.
pub proof fn lemma_rp_block_order(lines: Seq<Seq<char>>, k: int)
    requires
        0 <= k < lines.len(),
        if k == 0 {
            !is_tagged(lines[k], 201)
        } else {
            &&& is_tagged(lines[k - 1], 301) || is_tagged(lines[k - 1], 311) || is_tagged(
                lines[k - 1],
                391,
            )
            &&& !is_tagged(lines[k], 311) && !is_tagged(lines[k], 391)
        },
    ensures
        RpBlock::spec_from_lines(lines) is Err,
        RpBlock::scan(lines.take(k)) is Ok ==> is_unexpected(RpBlock::spec_from_lines(lines)),
{
    let before = lines.take(k);
    let upto = lines.take(k + 1);
    assert(upto.drop_last() =~= before);
    assert(upto.last() == lines[k]);
    if RpBlock::scan(before) is Ok {
        let st = RpBlock::scan(before)->Ok_0;
        reveal(RpBlock::step);
        if k > 0 {
            assert(before.drop_last() =~= lines.take(k - 1));
            assert(before.last() == lines[k - 1]);
            assert(st.usage is Some);
        } else {
            assert(st == RpBlock::start());
        }
        assert(is_unexpected(RpBlock::scan(upto)));
        RpBlock::lemma_scan_fails_on(lines, k + 1);
    } else {
        RpBlock::lemma_scan_fails_on(lines, k);
    }
}

/// The physician of a prescription must stand in its first line: the line
/// of a physician anywhere else makes the prescription unreadable, and
/// where the lines before it could be read, it is refused as unexpected.
pub proof fn lemma_prescription_block_order(lines: Seq<Seq<char>>, k: int)
    requires
        1 <= k < lines.len(),
        is_tagged(lines[k], 55),
    ensures
        PrescriptionBlock::spec_from_lines(lines) is Err,
        PrescriptionBlock::scan(lines.take(k)) is Ok ==> is_unexpected(
            PrescriptionBlock::spec_from_lines(lines),
        ),
{
    let before = lines.take(k);
    let upto = lines.take(k + 1);
    assert(upto.drop_last() =~= before);
    assert(upto.last() == lines[k]);
    if PrescriptionBlock::scan(before) is Ok {
        let st = PrescriptionBlock::scan(before)->Ok_0;
        reveal(PrescriptionBlock::step);
        assert(before.drop_last() =~= lines.take(k - 1));
        assert(st.physician is Some || st.pending.len() > 0);
        assert(is_unexpected(PrescriptionBlock::scan(upto)));
        PrescriptionBlock::lemma_scan_fails_on(lines, k + 1);
    } else {
        PrescriptionBlock::lemma_scan_fails_on(lines, k);
    }
}

/// The section of a dispensing that a line belongs to, if its tag is one of
/// a dispensing.
pub open spec fn dispensing_line_section(line: Seq<char>) -> Option<nat> {
    match line_tag(line) {
        Some(tag) => dispensing_section(tag),
        None => None,
    }
}

/// When the lines of a dispensing have been read, the section that was
/// reached is the section of the last of them.
pub proof fn lemma_dispensing_watermark(lines: Seq<Seq<char>>)
    requires
        lines.len() >= 1,
        DispensingInformationBlock::scan(lines) is Ok,
    ensures
        dispensing_line_section(lines.last()) == Some(
            (DispensingInformationBlock::scan(lines)->Ok_0).watermark,
        ),
{
    reveal(DispensingInformationBlock::step);
}

/// The sections of a dispensing only advance. A line whose tag is none of
/// a dispensing, a line of a section before that of the line before it, and
/// a second line of a section that holds one record make the dispensing
/// unreadable; where the lines before could be read, it is refused as
/// unexpected.
pub proof fn lemma_dispensing_block_order(lines: Seq<Seq<char>>, k: int)
    requires
        0 <= k < lines.len(),
        match dispensing_line_section(lines[k]) {
            None => true,
            Some(section) => k >= 1 && (match dispensing_line_section(lines[k - 1]) {
                None => true,
                Some(before) => section < before || (section == before && section != 55),
            }),
        },
    ensures
        DispensingInformationBlock::spec_from_lines(lines) is Err,
        DispensingInformationBlock::scan(lines.take(k)) is Ok ==> is_unexpected(
            DispensingInformationBlock::spec_from_lines(lines),
        ),
{
    let before = lines.take(k);
    let upto = lines.take(k + 1);
    assert(upto.drop_last() =~= before);
    assert(upto.last() == lines[k]);
    if DispensingInformationBlock::scan(before) is Ok {
        if k > 0 {
            assert(before.last() == lines[k - 1]);
            lemma_dispensing_watermark(before);
        }
        assert(is_unexpected(DispensingInformationBlock::scan(upto))) by {
            reveal(DispensingInformationBlock::step);
        }
        DispensingInformationBlock::lemma_scan_fails_on(lines, k + 1);
    } else {
        DispensingInformationBlock::lemma_scan_fails_on(lines, k);
    }
}

/// The section of a notebook that a line belongs to, if it is a version
/// line, which is the section 0, or its tag is one of a notebook.
pub open spec fn notebook_line_section(line: Seq<char>) -> Option<nat> {
    if is_version_line(line) {
        Some(0)
    } else {
        match line_tag(line) {
            Some(tag) => notebook_section(tag),
            None => None,
        }
    }
}

/// When the lines of a notebook have been read, the section that was
/// reached is the section of the last of them, unless that is the version
/// line, which can only be read before any section is reached and is then
/// kept.
pub proof fn lemma_notebook_watermark(lines: Seq<Seq<char>>)
    requires
        lines.len() >= 1,
        MedicineNotebook::scan(lines) is Ok,
    ensures
        ({
            let st = MedicineNotebook::scan(lines)->Ok_0;
            if is_version_line(lines.last()) {
                st.watermark == 0 && st.version is Some
            } else {
                notebook_line_section(lines.last()) == Some(st.watermark)
            }
        }),
{
    reveal(MedicineNotebook::step);
}

/// The sections of a notebook only advance. A line that is no version line
/// and whose tag is none of a notebook, a line of a section before that of
/// the line before it, and a second version line or patient line make the
/// notebook unreadable; where the lines before could be read, it is refused
/// as unexpected.
pub proof fn lemma_notebook_order(lines: Seq<Seq<char>>, k: int)
    requires
        0 <= k < lines.len(),
        match notebook_line_section(lines[k]) {
            None => true,
            Some(section) => k >= 1 && (match notebook_line_section(lines[k - 1]) {
                None => true,
                Some(before) => section < before || (section == before && section <= 1),
            }),
        },
    ensures
        MedicineNotebook::spec_from_lines(lines) is Err,
        MedicineNotebook::scan(lines.take(k)) is Ok ==> is_unexpected(
            MedicineNotebook::spec_from_lines(lines),
        ),
{
    let before = lines.take(k);
    let upto = lines.take(k + 1);
    assert(upto.drop_last() =~= before);
    assert(upto.last() == lines[k]);
    if MedicineNotebook::scan(before) is Ok {
        if k > 0 {
            assert(before.last() == lines[k - 1]);
            lemma_notebook_watermark(before);
        }
        assert(is_unexpected(MedicineNotebook::scan(upto))) by {
            reveal(MedicineNotebook::step);
        }
        MedicineNotebook::lemma_scan_fails_on(lines, k + 1);
    } else {
        MedicineNotebook::lemma_scan_fails_on(lines, k);
    }
}

} // verus!
