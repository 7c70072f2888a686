//! The version record, the first line of a notebook.

use vstd::prelude::*;
use std::str::FromStr;
use crate::codes::{lemma_output_category_round_trip, OutputCategory};
use crate::error::{framed, invalid_record_line, outcome, Error, ErrorView};
use crate::number::{
    decimal_value, is_ascii_digit, lemma_padded_round_trip, padded, padded_string, pow10,
    unsigned_text,
};
use crate::record::{
    comma, is_field_text, is_one_digit, is_version_line, join_fields, lemma_code_text,
    lemma_digits_are_field_text, lemma_join_head, lemma_join_no_break, line_tag, number_of,
    one_digit, read_number, version_mark, LineModel,
};
use crate::text::{
    all_digits, chars_of, fields_of, is_all_digits, is_line, join, lemma_fields_of_join,
    split_fields, string_of,
};

verus! {

/// The version of the format and the direction of the file
/// (バージョンレコード).
#[derive(Debug, Clone, Copy, PartialEq, Eq)]
pub struct VersionRecord {
    /// The version of the format, written in two digits.
    pub number: u32,
    /// 出力区分
    pub output_category: OutputCategory,
}

/// The model of a [`VersionRecord`].
pub struct VersionRecordView {
    pub number: u32,
    pub output_category: OutputCategory,
}

impl View for VersionRecord {
    type V = VersionRecordView;

    open spec fn view(&self) -> VersionRecordView {
        VersionRecordView { number: self.number, output_category: self.output_category }
    }
}

impl DeepView for VersionRecord {
    type V = VersionRecordView;

    open spec fn deep_view(&self) -> VersionRecordView {
        self@
    }
}

impl VersionRecordView {
    /// The two fields of the line: the mark with the version behind it, and
    /// the output category.
    pub open spec fn fields(self) -> Seq<Seq<char>> {
        seq![version_mark() + padded(self.number as nat, 2), self.output_category.code()]
    }

    /// The record's line.
    pub open spec fn line(self) -> Seq<char> {
        join(self.fields(), comma())
    }

    /// Whether the record's line reads back as the record: the version has
    /// at most two digits.
    pub open spec fn is_encodable(self) -> bool {
        self.number <= 99
    }
}

impl LineModel for VersionRecordView {
    open spec fn lines(self) -> Seq<Seq<char>> {
        seq![self.line()]
    }
}

impl VersionRecord {
    /// A record of the given fields.
    pub fn new(number: u32, output_category: OutputCategory) -> (r: Self)
        ensures
            r == (VersionRecord { number, output_category }),
    {
        VersionRecord { number, output_category }
    }

    /// Whether fields have the shape of a version line: the mark and two
    /// digits, then one digit.
    pub open spec fn shape(f: Seq<Seq<char>>) -> bool {
        &&& f.len() == 2
        &&& f[0].len() == 9
        &&& f[0].take(7) == version_mark()
        &&& all_digits(f[0].skip(7))
        &&& one_digit(f[1])
    }

    /// The model of the defaults.
    pub open spec fn default_view() -> VersionRecordView {
        VersionRecordView { number: 6, output_category: OutputCategory::ToPatient }
    }

    /// What reading the line `s` gives. A line that has not the shape of
    /// the record is refused as a whole; then the version and the output
    /// category are read, and the first that fails gives the error.
    pub open spec fn spec_from_str(s: Seq<char>) -> Result<VersionRecordView, ErrorView> {
        let f = fields_of(s);
        if !Self::shape(f) {
            Err(invalid_record_line("Cannot convert str to VersionRecord, got \""@ + s + "\""@))
        } else {
            let number = number_of(f[0].skip(7));
            let output_category = OutputCategory::spec_from_str(f[1]);
            if number is Err {
                Err(number->Err_0)
            } else if output_category is Err {
                Err(output_category->Err_0)
            } else {
                Ok(
                    VersionRecordView {
                        number: number->Ok_0,
                        output_category: output_category->Ok_0,
                    },
                )
            }
        }
    }

    /// The record's line.
    pub fn to_code(&self) -> (r: String)
        ensures
            r@ == self@.line(),
    {
        let mut head = "JAHISTC".to_owned();
        proof {
            reveal_strlit("JAHISTC");
            assert("JAHISTC"@ =~= version_mark());
        }
        let number = padded_string(self.number as u64, 2);
        head.append(number.as_str());
        let mut parts: Vec<String> = Vec::new();
        parts.push(head);
        parts.push(self.output_category.to_code());
        assert(parts.deep_view() =~= self@.fields());
        join_fields(&parts)
    }
}

impl Default for VersionRecord {
    fn default() -> (r: Self)
        ensures
            r@ == Self::default_view(),
    {
        VersionRecord { number: 6, output_category: OutputCategory::ToPatient }
    }
}

impl FromStr for VersionRecord {
    type Err = Error;

    /// Reads the record from its line.
    fn from_str(s: &str) -> (r: Result<Self, Self::Err>)
        ensures
            outcome(r) == Self::spec_from_str(s@),
    {
        let f = split_fields(s);
        if f.len() == 2 {
            let head = chars_of(f[0].as_str());
            if head.len() == 9 && head[0] == 'J' && head[1] == 'A' && head[2] == 'H' && head[3]
                == 'I' && head[4] == 'S' && head[5] == 'T' && head[6] == 'C' {
                let digits = string_of(&head, 7, 9);
                assert(digits@ =~= head@.skip(7));
                assert(head@.take(7) =~= version_mark());
                if is_all_digits(digits.as_str()) && is_one_digit(f[1].as_str()) {
                    let number = match read_number(digits.as_str()) {
                        Ok(v) => v,
                        Err(e) => return Err(e),
                    };
                    let output_category = match OutputCategory::from_str(f[1].as_str()) {
                        Ok(v) => v,
                        Err(e) => return Err(e),
                    };
                    return Ok(VersionRecord { number, output_category });
                }
            } else {
                assert(!Self::shape(f.deep_view())) by {
                    if head.len() == 9 {
                        let mark = head@.take(7);
                        assert(mark[0] == head[0] && mark[1] == head[1] && mark[2] == head[2]
                            && mark[3] == head[3] && mark[4] == head[4] && mark[5] == head[5]
                            && mark[6] == head[6]);
                        assert(version_mark()[0] == 'J' && version_mark()[1] == 'A'
                            && version_mark()[2] == 'H' && version_mark()[3] == 'I'
                            && version_mark()[4] == 'S' && version_mark()[5] == 'T'
                            && version_mark()[6] == 'C');
                    }
                }
            }
        }
        Err(
            Error::InvalidRecordLine(
                framed("Cannot convert str to VersionRecord, got \"", s, "\""),
            ),
        )
    }
}

/// The line of a version record that can be written reads back as the
/// record. It is one line that begins with the mark of a version line and
/// with no tag.
pub proof fn lemma_version_record_round_trip(v: VersionRecordView)
    requires
        v.is_encodable(),
    ensures
        VersionRecord::spec_from_str(v.line()) == Ok::<VersionRecordView, ErrorView>(v),
        is_version_line(v.line()),
        line_tag(v.line()) is None,
        is_line(v.line()),
{
    let f = v.fields();
    let digits = padded(v.number as nat, 2);
    reveal_with_fuel(pow10, 3);
    lemma_padded_round_trip(v.number as nat, 2);
    lemma_digits_are_field_text(digits);
    lemma_output_category_round_trip(v.output_category);
    lemma_code_text(v.output_category.number());
    let head = version_mark() + digits;
    assert(f[0] == head);
    assert(head.take(7) =~= version_mark());
    assert(head.skip(7) =~= digits);
    assert(is_field_text(head)) by {
        assert forall|i: int| 0 <= i < head.len() implies #[trigger] head[i] != ','
            && !crate::text::is_break(head[i]) by {
            if i >= 7 {
                assert(head[i] == digits[i - 7]);
            }
        }
    }
    assert forall|i: int| 0 <= i < f.len() implies is_field_text(#[trigger] f[i]) by {}
    assert forall|i: int| 0 <= i < f.len() implies (forall|j: int|
        0 <= j < (#[trigger] f[i]).len() ==> f[i][j] != ',') by {
        assert(is_field_text(f[i]));
    }
    lemma_fields_of_join(f);
    lemma_join_head(f, comma());
    lemma_join_no_break(f);
    let line = v.line();
    assert(line.take(9) == head);
    assert(line.take(7) =~= head.take(7));
    assert forall|i: int| 0 <= i < 9 implies line[i] == head[i] by {
        assert(line.take(9)[i] == line[i]);
    }
    assert(line[1] == 'A' && line[2] == 'H' && line[3] == 'I');
    assert(digits[0] != '+') by {
        assert(is_ascii_digit(digits[0]));
    }
    assert(unsigned_text(digits) == Some(decimal_value(digits)));
}

/// The line of the default version record reads back as that record.
pub proof fn lemma_version_record_default_round_trip()
    ensures
        VersionRecord::spec_from_str(VersionRecord::default_view().line()) == Ok::<
            VersionRecordView,
            ErrorView,
        >(VersionRecord::default_view()),
{
    lemma_version_record_round_trip(VersionRecord::default_view());
}

/// A version record that was read from a line can be written.
pub proof fn lemma_version_record_read_is_encodable(s: Seq<char>)
    requires
        VersionRecord::spec_from_str(s) is Ok,
    ensures
        (VersionRecord::spec_from_str(s)->Ok_0).is_encodable(),
{
    let f = fields_of(s);
    let digits = f[0].skip(7);
    reveal_with_fuel(pow10, 3);
    if digits[0] == '+' {
        assert(is_ascii_digit(digits.skip(1)[0]));
        assert(digits.skip(1).drop_last() =~= Seq::<char>::empty());
        assert(decimal_value(digits.skip(1).drop_last()) == 0);
    } else {
        crate::number::lemma_decimal_value_bound(digits);
    }
}

} // verus!
