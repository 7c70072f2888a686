//! What all record lines share: the numeric tag in front, the classes of
//! characters that a field may hold, and how optional fields are written.

use vstd::prelude::*;
use std::str::FromStr;
use crate::codes::{DosageForm, FeeTable, UsageCodeType};
use crate::date::{lemma_date_round_trip, Date};
use crate::error::{parse_int_error, plain_outcome, Error, ErrorView};
use crate::number::{
    all_ascii_digits, decimal, digits_value, is_ascii_digit, lemma_decimal_round_trip,
    lemma_decimal_value_bound, parse_u32, pow10, read_small_code, small_code, unsigned_text,
};
use crate::prefecture::Prefecture;
use crate::text::{
    all_digits, chars_of, digit_class, fields_of, is_all_digits, is_break, is_digit, is_line,
    is_word, join, join_strings, lemma_fields_of_join, lemma_fields_of_line, string_of,
    word_class,
};

verus! {

/// A record of a notebook: a line with a numeric tag in front.
pub trait Record {
    /// The tag of this kind of record.
    spec fn tag() -> u32;

    /// How many fields follow the tag.
    spec fn field_count() -> u32;

    /// The tag of this kind of record.
    fn record_number(&self) -> (n: u32)
        ensures
            n == Self::tag(),
    ;

    /// How many fields follow the tag.
    fn cols(&self) -> (n: u32)
        ensures
            n == Self::field_count(),
    ;
}

/// What is written as whole lines: a record as one line, a block as the
/// lines of what it holds.
pub trait LineModel: Sized {
    /// The lines, in the order in which they are written.
    spec fn lines(self) -> Seq<Seq<char>>;
}

/// The lines of all of `items`, one item after the other.
pub open spec fn all_lines<T: LineModel>(items: Seq<T>) -> Seq<Seq<char>>
    decreases items.len(),
{
    if items.len() == 0 {
        Seq::empty()
    } else {
        all_lines(items.drop_last()) + items.last().lines()
    }
}

/// The lines of what may be missing: none where it is.
pub open spec fn optional_lines<T: LineModel>(o: Option<T>) -> Seq<Seq<char>> {
    match o {
        Some(x) => x.lines(),
        None => Seq::empty(),
    }
}

/// Whether every one of `lines` is a line, see [`is_line`].
pub open spec fn are_lines(lines: Seq<Seq<char>>) -> bool {
    forall|i: int| 0 <= i < lines.len() ==> is_line(#[trigger] lines[i])
}

/// The separator of fields.
pub open spec fn comma() -> Seq<char> {
    seq![',']
}

/// The separator of lines in what this crate writes.
pub open spec fn crlf() -> Seq<char> {
    seq!['\r', '\n']
}

/// Whether `s` can stand in a field of a line: it holds no comma, since the
/// format cannot quote one, and no line break.
pub open spec fn is_field_text(s: Seq<char>) -> bool {
    forall|i: int| 0 <= i < s.len() ==> #[trigger] s[i] != ',' && !is_break(s[i])
}

/// Whether an optional text can stand in a field and be told from a missing
/// one: a text that is there is not empty.
pub open spec fn is_optional_field_text(o: Option<Seq<char>>) -> bool {
    match o {
        Some(s) => s.len() > 0 && is_field_text(s),
        None => true,
    }
}

/// What an optional field holds: nothing where it is empty.
pub open spec fn optional_text(f: Seq<char>) -> Option<Seq<char>> {
    if f.len() == 0 {
        None
    } else {
        Some(f)
    }
}

/// How an optional text is written: as nothing where it is missing.
pub open spec fn optional_code(o: Option<Seq<char>>) -> Seq<char> {
    match o {
        Some(s) => s,
        None => Seq::empty(),
    }
}

/// What an optional field gives, where `read` is what the field gives when
/// it is not empty.
pub open spec fn optional<T>(f: Seq<char>, read: Result<T, ErrorView>) -> Result<
    Option<T>,
    ErrorView,
> {
    if f.len() == 0 {
        Ok(None)
    } else {
        match read {
            Ok(v) => Ok(Some(v)),
            Err(e) => Err(e),
        }
    }
}

/// A field of exactly one digit.
pub open spec fn one_digit(f: Seq<char>) -> bool {
    f.len() == 1 && digit_class(f[0])
}

/// A field of `lo` to `hi` digits.
pub open spec fn digits_within(f: Seq<char>, lo: nat, hi: nat) -> bool {
    lo <= f.len() <= hi && all_digits(f)
}

/// A field of one or more digits.
pub open spec fn some_digits(f: Seq<char>) -> bool {
    f.len() >= 1 && all_digits(f)
}

/// A field with the shape of a date: eight digits, or a word character and
/// six digits.
pub open spec fn date_shaped(f: Seq<char>) -> bool {
    (f.len() == 8 && all_digits(f)) || (f.len() == 7 && word_class(f[0]) && all_digits(f.skip(1)))
}

/// A field that is empty or has the shape of a date.
pub open spec fn optional_date_shaped(f: Seq<char>) -> bool {
    f.len() == 0 || date_shaped(f)
}

/// How many of the characters of `f` are a decimal point.
pub open spec fn points(f: Seq<char>) -> nat
    decreases f.len(),
{
    if f.len() == 0 {
        0
    } else {
        points(f.drop_last()) + if f.last() == '.' {
            1nat
        } else {
            0nat
        }
    }
}

/// Whether every character of `f` is one of `0` to `9` or a decimal point.
pub open spec fn decimal_chars(f: Seq<char>) -> bool {
    forall|i: int| 0 <= i < f.len() ==> is_ascii_digit(#[trigger] f[i]) || f[i] == '.'
}

/// A field with the shape of a weight: digits with at most one decimal
/// point among them, before them or after them.
pub open spec fn weight_shaped(f: Seq<char>) -> bool {
    decimal_chars(f) && points(f) <= 1 && has_digit(f)
}

/// Whether one of the characters of `f` is one of `0` to `9`.
pub open spec fn has_digit(f: Seq<char>) -> bool {
    exists|i: int| 0 <= i < f.len() && is_ascii_digit(#[trigger] f[i])
}

/// A field that is empty or has the shape of a weight.
pub open spec fn optional_weight_shaped(f: Seq<char>) -> bool {
    f.len() == 0 || weight_shaped(f)
}

/// The number that a field of digits writes, as std reads it: digits that
/// are not `0` to `9`, or a number too large, are an error.
pub open spec fn number_of(f: Seq<char>) -> Result<u32, ErrorView> {
    match unsigned_text(f) {
        Some(n) => if n <= u32::MAX {
            Ok(n as u32)
        } else {
            Err(parse_int_error())
        },
        None => Err(parse_int_error()),
    }
}

/// The date that a field holds.
pub open spec fn date_of(f: Seq<char>) -> Result<Date, ErrorView> {
    Date::spec_from_str(f)
}

/// The tag that a line begins with: one to three digits without a needless
/// leading zero, and a comma after them.
pub open spec fn line_tag(line: Seq<char>) -> Option<nat> {
    if line.len() >= 2 && line[1] == ',' {
        small_code(line.take(1))
    } else if line.len() >= 3 && line[2] == ',' {
        small_code(line.take(2))
    } else if line.len() >= 4 && line[3] == ',' {
        small_code(line.take(3))
    } else {
        None
    }
}

/// The seven letters that a version line begins with.
pub open spec fn version_mark() -> Seq<char> {
    seq!['J', 'A', 'H', 'I', 'S', 'T', 'C']
}

/// Whether a line begins as a version line does.
pub open spec fn is_version_line(line: Seq<char>) -> bool {
    line.len() >= 7 && line.take(7) == version_mark()
}

/// The first `n` characters of `s`, or all of them where there are fewer.
pub fn head_chars(s: &str, n: usize) -> (v: Vec<char>)
    ensures
        v@ == s@.take(if s@.len() < n {
            s@.len() as int
        } else {
            n as int
        }),
{
    let mut v: Vec<char> = Vec::new();
    for c in it: s.chars()
        invariant
            it.seq() == s@,
            v@ == s@.take(if it.index() < n {
                it.index() as int
            } else {
                n as int
            }),
    {
        if v.len() < n {
            v.push(c);
        }
    }
    v
}

/// The tag that a line begins with, see [`line_tag`].
pub fn read_line_tag(line: &str) -> (r: Option<u32>)
    ensures
        r is Some <==> line_tag(line@) is Some,
        r matches Some(n) ==> n == line_tag(line@).unwrap() && n < 1000,
{
    let h = head_chars(line, 4);
    let k: usize = if h.len() >= 2 && h[1] == ',' {
        1
    } else if h.len() >= 3 && h[2] == ',' {
        2
    } else if h.len() >= 4 && h[3] == ',' {
        3
    } else {
        return None;
    };
    assert(h@.subrange(0, k as int) =~= line@.take(k as int));
    if k > 1 && h[0] == '0' {
        return None;
    }
    let r = digits_value(&h, 0, k);
    proof {
        if r is Some {
            lemma_decimal_value_bound(line@.take(k as int));
            reveal_with_fuel(pow10, 4);
        }
    }
    r
}

/// Whether a line begins as a version line does.
pub fn read_version_mark(line: &str) -> (r: bool)
    ensures
        r == is_version_line(line@),
{
    let h = head_chars(line, 7);
    if h.len() == 7 && h[0] == 'J' && h[1] == 'A' && h[2] == 'H' && h[3] == 'I' && h[4] == 'S'
        && h[5] == 'T' && h[6] == 'C' {
        assert(h@ =~= version_mark());
        true
    } else {
        assert(line@.len() >= 7 ==> line@.take(7) != version_mark()) by {
            if line@.len() >= 7 {
                assert(forall|i: int| 0 <= i < 7 ==> line@.take(7)[i] == h[i]);
                assert(version_mark()[0] == 'J' && version_mark()[1] == 'A' && version_mark()[2]
                    == 'H' && version_mark()[3] == 'I' && version_mark()[4] == 'S'
                    && version_mark()[5] == 'T' && version_mark()[6] == 'C');
            }
        }
        false
    }
}

/// Whether `s` is exactly one digit.
pub fn is_one_digit(s: &str) -> (r: bool)
    ensures
        r == one_digit(s@),
{
    let h = head_chars(s, 2);
    if h.len() == 1 {
        is_digit(h[0])
    } else {
        false
    }
}

/// Whether `s` is `lo` to `hi` digits.
pub fn is_digits_within(s: &str, lo: usize, hi: usize) -> (r: bool)
    ensures
        r == digits_within(s@, lo as nat, hi as nat),
{
    let len = s.unicode_len();
    lo <= len && len <= hi && is_all_digits(s)
}

/// Whether `s` is one or more digits.
pub fn is_some_digits(s: &str) -> (r: bool)
    ensures
        r == some_digits(s@),
{
    s.unicode_len() >= 1 && is_all_digits(s)
}

/// Whether `s` has the shape of a date.
pub fn is_date_shaped(s: &str) -> (r: bool)
    ensures
        r == date_shaped(s@),
{
    let v = chars_of(s);
    if v.len() == 8 {
        is_all_digits(s)
    } else if v.len() == 7 {
        let tail = string_of(&v, 1, 7);
        assert(tail@ =~= s@.skip(1));
        is_word(v[0]) && is_all_digits(tail.as_str())
    } else {
        false
    }
}

/// Whether `s` is empty or has the shape of a date.
pub fn is_optional_date_shaped(s: &str) -> (r: bool)
    ensures
        r == optional_date_shaped(s@),
{
    s.is_empty() || is_date_shaped(s)
}

/// Whether `s` has the shape of a weight.
pub fn is_weight_shaped(s: &str) -> (r: bool)
    ensures
        r == weight_shaped(s@),
{
    let mut dots: usize = 0;
    let mut digits = false;
    let mut clean = true;
    for c in it: s.chars()
        invariant
            it.seq() == s@,
            dots <= 2,
            dots < 2 ==> dots == points(s@.take(it.index() as int)),
            dots == 2 ==> points(s@.take(it.index() as int)) >= 2,
            digits == has_digit(s@.take(it.index() as int)),
            clean == decimal_chars(s@.take(it.index() as int)),
    {
        let ghost i = it.index() as int;
        let ghost before = s@.take(i);
        let ghost after = s@.take(i + 1);
        proof {
            assert(after.drop_last() =~= before);
            assert(after.last() == c);
            assert(forall|j: int| 0 <= j < i ==> after[j] == before[j]);
        }
        let digit = '0' <= c && c <= '9';
        proof {
            if clean && (digit || c == '.') {
                assert(decimal_chars(after));
            } else if !(digit || c == '.') {
                assert(!(is_ascii_digit(after[i]) || after[i] == '.'));
            } else {
                let j = choose|j: int|
                    0 <= j < before.len() && !(is_ascii_digit(#[trigger] before[j]) || before[j]
                        == '.');
                assert(!(is_ascii_digit(after[j]) || after[j] == '.'));
            }
            if digits {
                let j = choose|j: int| 0 <= j < before.len() && is_ascii_digit(
                    #[trigger] before[j],
                );
                assert(is_ascii_digit(after[j]));
            } else if digit {
                assert(is_ascii_digit(after[i]));
            } else {
                assert forall|j: int| 0 <= j < after.len() implies !is_ascii_digit(
                    #[trigger] after[j],
                ) by {
                    if j < i {
                        assert(after[j] == before[j]);
                    }
                }
            }
        }
        if c == '.' && dots < 2 {
            dots += 1;
        }
        digits = digits || digit;
        clean = clean && (digit || c == '.');
    }
    assert(s@.take(s@.len() as int) =~= s@);
    clean && dots <= 1 && digits
}

/// Whether `s` is empty or has the shape of a weight.
pub fn is_optional_weight_shaped(s: &str) -> (r: bool)
    ensures
        r == optional_weight_shaped(s@),
{
    s.is_empty() || is_weight_shaped(s)
}

/// The number that a field of digits writes, see [`number_of`].
pub fn read_number(f: &str) -> (r: Result<u32, Error>)
    ensures
        plain_outcome(r) == number_of(f@),
{
    match parse_u32(f) {
        Ok(n) => Ok(n),
        Err(e) => Err(Error::ParseIntError(e)),
    }
}

/// The number that an optional field of digits writes.
pub fn read_optional_number(f: &str) -> (r: Result<Option<u32>, Error>)
    ensures
        plain_outcome(r) == optional(f@, number_of(f@)),
{
    if f.is_empty() {
        Ok(None)
    } else {
        match read_number(f) {
            Ok(n) => Ok(Some(n)),
            Err(e) => Err(e),
        }
    }
}

/// The date that an optional field holds.
pub fn read_optional_date(f: &str) -> (r: Result<Option<Date>, Error>)
    ensures
        plain_outcome(r) == optional(f@, date_of(f@)),
{
    if f.is_empty() {
        Ok(None)
    } else {
        match Date::from_str(f) {
            Ok(d) => Ok(Some(d)),
            Err(e) => Err(e),
        }
    }
}

/// What an optional field holds, see [`optional_text`].
pub fn read_optional_text(f: &String) -> (r: Option<String>)
    ensures
        r.deep_view() == optional_text(f@),
{
    if f.as_str().is_empty() {
        None
    } else {
        Some(f.clone())
    }
}

/// How an optional text is written, see [`optional_code`].
pub fn write_optional_text(o: &Option<String>) -> (r: String)
    ensures
        r@ == optional_code(o.deep_view()),
{
    match o {
        Some(s) => s.clone(),
        None => String::new(),
    }
}

/// Whether the field `f0` is the tag `tag`.
pub fn has_tag(f0: &str, tag: u32) -> (r: bool)
    ensures
        r == (small_code(f0@) == Some(tag as nat)),
{
    match read_small_code(f0) {
        Some(n) => n == tag,
        None => false,
    }
}

/// The fields with commas between them.
pub fn join_fields(parts: &Vec<String>) -> (r: String)
    ensures
        r@ == join(parts.deep_view(), comma()),
{
    proof {
        reveal_strlit(",");
        assert(","@ =~= comma());
    }
    join_strings(parts, ",")
}

/// The lines with `\r\n` between them.
pub fn join_lines(parts: &Vec<String>) -> (r: String)
    ensures
        r@ == join(parts.deep_view(), crlf()),
{
    proof {
        reveal_strlit("\r\n");
        assert("\r\n"@ =~= crlf());
    }
    join_strings(parts, "\r\n")
}

/// The prefecture that an optional field holds.
pub fn read_optional_prefecture(f: &str) -> (r: Result<Option<Prefecture>, Error>)
    ensures
        plain_outcome(r) == optional(f@, Prefecture::spec_from_str(f@)),
{
    if f.is_empty() {
        Ok(None)
    } else {
        match Prefecture::from_str(f) {
            Ok(v) => Ok(Some(v)),
            Err(e) => Err(e),
        }
    }
}

/// The fee table that an optional field holds.
pub fn read_optional_fee_table(f: &str) -> (r: Result<Option<FeeTable>, Error>)
    ensures
        plain_outcome(r) == optional(f@, FeeTable::spec_from_str(f@)),
{
    if f.is_empty() {
        Ok(None)
    } else {
        match FeeTable::from_str(f) {
            Ok(v) => Ok(Some(v)),
            Err(e) => Err(e),
        }
    }
}

/// The dosage form that an optional field holds.
pub fn read_optional_dosage_form(f: &str) -> (r: Result<Option<DosageForm>, Error>)
    ensures
        plain_outcome(r) == optional(f@, DosageForm::spec_from_str(f@)),
{
    if f.is_empty() {
        Ok(None)
    } else {
        match DosageForm::from_str(f) {
            Ok(v) => Ok(Some(v)),
            Err(e) => Err(e),
        }
    }
}

/// The usage code type that an optional field holds.
pub fn read_optional_usage_code_type(f: &str) -> (r: Result<Option<UsageCodeType>, Error>)
    ensures
        plain_outcome(r) == optional(f@, UsageCodeType::spec_from_str(f@)),
{
    if f.is_empty() {
        Ok(None)
    } else {
        match UsageCodeType::from_str(f) {
            Ok(v) => Ok(Some(v)),
            Err(e) => Err(e),
        }
    }
}

/// Digits can stand in a field, and are digits of the record grammar.
pub proof fn lemma_digits_are_field_text(s: Seq<char>)
    requires
        all_ascii_digits(s),
    ensures
        is_field_text(s),
        all_digits(s),
{
    assert forall|i: int| 0 <= i < s.len() implies #[trigger] s[i] != ',' && !is_break(s[i])
        && digit_class(s[i]) by {
        assert(is_ascii_digit(s[i]));
    }
}

/// The code of a number under 1000 is one to three digits that can stand in
/// a field.
pub proof fn lemma_code_text(n: nat)
    requires
        n < 1000,
    ensures
        is_field_text(decimal(n)),
        all_digits(decimal(n)),
        1 <= decimal(n).len() <= 3,
        n < 10 ==> one_digit(decimal(n)),
        n < 100 ==> decimal(n).len() <= 2,
        small_code(decimal(n)) == Some(n),
{
    lemma_decimal_round_trip(n);
    lemma_digits_are_field_text(decimal(n));
    if n < 10 {
        assert(is_ascii_digit(decimal(n)[0]));
    }
}

/// A number written in decimal is a field of digits that reads back as the
/// number.
pub proof fn lemma_number_round_trip(n: u32)
    ensures
        number_of(decimal(n as nat)) == Ok::<u32, ErrorView>(n),
        some_digits(decimal(n as nat)),
        is_field_text(decimal(n as nat)),
{
    lemma_decimal_round_trip(n as nat);
    lemma_digits_are_field_text(decimal(n as nat));
}

/// The code of a date that fits it is a field with the shape of a date that
/// reads back as the date.
pub proof fn lemma_date_field(d: Date)
    requires
        d.fits_code(),
    ensures
        date_of(d.code()) == Ok::<Date, ErrorView>(d),
        date_shaped(d.code()),
        is_field_text(d.code()),
        d.code().len() > 0,
{
    lemma_date_round_trip(d);
    let s = d.code();
    if s.len() == 8 {
        lemma_digits_are_field_text(s);
    } else {
        let t = s.skip(1);
        lemma_digits_are_field_text(t);
        assert forall|i: int| 0 <= i < s.len() implies #[trigger] s[i] != ',' && !is_break(
            s[i],
        ) by {
            if i > 0 {
                assert(s[i] == t[i - 1]);
            }
        }
    }
}

/// A text with the shape of a weight can stand in a field and is not empty.
pub proof fn lemma_weight_is_field_text(w: Seq<char>)
    requires
        weight_shaped(w),
    ensures
        is_field_text(w),
        w.len() > 0,
{
    assert forall|i: int| 0 <= i < w.len() implies #[trigger] w[i] != ',' && !is_break(w[i]) by {
        assert(is_ascii_digit(w[i]) || w[i] == '.');
    }
}

/// Joined texts begin with the first of them, and with the separator after
/// it where there are more.
pub proof fn lemma_join_head(parts: Seq<Seq<char>>, sep: Seq<char>)
    requires
        parts.len() >= 1,
    ensures
        join(parts, sep).len() >= parts[0].len(),
        join(parts, sep).take(parts[0].len() as int) == parts[0],
        parts.len() >= 2 ==> join(parts, sep).len() >= parts[0].len() + sep.len() && join(
            parts,
            sep,
        ).subrange(parts[0].len() as int, (parts[0].len() + sep.len()) as int) == sep,
    decreases parts.len(),
{
    let whole = join(parts, sep);
    let first = parts[0];
    if parts.len() == 1 {
        assert(whole.take(first.len() as int) =~= first);
    } else {
        let before = parts.drop_last();
        lemma_join_head(before, sep);
        assert(before[0] == first);
        let head = join(before, sep);
        assert(whole =~= head + sep + parts.last());
        assert(whole.take(first.len() as int) =~= head.take(first.len() as int));
        if parts.len() == 2 {
            assert(head =~= first);
            assert(whole.subrange(first.len() as int, (first.len() + sep.len()) as int) =~= sep);
        } else {
            let from = first.len() as int;
            let to = (first.len() + sep.len()) as int;
            assert(whole.subrange(from, to) =~= head.subrange(from, to));
        }
    }
}

/// Texts that can stand in a field, joined by commas, hold no line break.
pub proof fn lemma_join_no_break(parts: Seq<Seq<char>>)
    requires
        forall|i: int| 0 <= i < parts.len() ==> is_field_text(#[trigger] parts[i]),
    ensures
        forall|j: int| 0 <= j < join(parts, comma()).len() ==> !is_break(
            #[trigger] join(parts, comma())[j],
        ),
    decreases parts.len(),
{
    if parts.len() >= 2 {
        let before = parts.drop_last();
        assert forall|i: int| 0 <= i < before.len() implies is_field_text(
            #[trigger] before[i],
        ) by {
            assert(before[i] == parts[i]);
        }
        lemma_join_no_break(before);
        let head = join(before, comma());
        let whole = join(parts, comma());
        let last = parts.last();
        assert(is_field_text(last));
        assert forall|j: int| 0 <= j < whole.len() implies !is_break(#[trigger] whole[j]) by {
            if j < head.len() {
                assert(whole[j] == head[j]);
            } else if j == head.len() {
                assert(whole[j] == ',');
            } else {
                assert(whole[j] == last[j - head.len() - 1]);
            }
        }
    } else if parts.len() == 1 {
        assert(is_field_text(parts[0]));
    }
}

/// The line of a record: its tag in decimal and its fields, joined by
/// commas. Such a line is one line, begins with the tag, is no version
/// line, and splits into the fields it was joined from.
pub proof fn lemma_record_line(fields: Seq<Seq<char>>, tag: nat)
    requires
        fields.len() >= 2,
        tag < 1000,
        fields[0] == decimal(tag),
        forall|i: int| 0 <= i < fields.len() ==> is_field_text(#[trigger] fields[i]),
    ensures
        fields_of(join(fields, comma())) == fields,
        small_code(fields[0]) == Some(tag),
        line_tag(join(fields, comma())) == Some(tag),
        is_line(join(fields, comma())),
        !is_version_line(join(fields, comma())),
{
    let line = join(fields, comma());
    assert forall|i: int| 0 <= i < fields.len() implies (forall|j: int|
        0 <= j < (#[trigger] fields[i]).len() ==> fields[i][j] != ',') by {
        assert(is_field_text(fields[i]));
    }
    lemma_fields_of_join(fields);
    lemma_code_text(tag);
    lemma_decimal_round_trip(tag);
    lemma_join_head(fields, comma());
    lemma_join_no_break(fields);
    let k = fields[0].len() as int;
    assert(line.subrange(k, k + 1)[0] == ',');
    assert(line[k] == ',');
    assert forall|j: int| 0 <= j < k implies line[j] == fields[0][j] by {
        assert(line.take(k)[j] == line[j]);
    }
    assert forall|j: int| 0 <= j < k implies line[j] != ',' by {
        assert(is_ascii_digit(fields[0][j]));
    }
    assert(is_ascii_digit(fields[0][0]));
    assert(line[0] != 'J');
    if line.len() >= 7 {
        assert(line.take(7)[0] == line[0]);
        assert(version_mark()[0] == 'J');
    }
}

/// A set of tags that may follow one another at some place of a notebook.
pub enum TagSet {
    /// 281 and 291: what follows the drug in a drug block.
    DrugDetail,
    /// 201, 281 and 291: the lines of drug blocks.
    Drug,
    /// 311 and 391: what follows the usage in a prescription group.
    UsageDetail,
    /// 201 to 391: the lines of prescription groups.
    Rp,
    /// 55 and 201 to 391: the lines of prescriptions.
    Prescription,
    /// Every tag of a dispensing but 5, which begins one.
    DispensingRest,
}

impl TagSet {
    /// Whether the set holds `tag`.
    pub open spec fn holds(self, tag: nat) -> bool {
        match self {
            TagSet::DrugDetail => tag == 281 || tag == 291,
            TagSet::Drug => tag == 201 || tag == 281 || tag == 291,
            TagSet::UsageDetail => tag == 311 || tag == 391,
            TagSet::Rp => tag == 201 || tag == 281 || tag == 291 || tag == 301 || tag == 311
                || tag == 391,
            TagSet::Prescription => tag == 55 || tag == 201 || tag == 281 || tag == 291 || tag
                == 301 || tag == 311 || tag == 391,
            TagSet::DispensingRest => tag == 11 || tag == 15 || tag == 51 || tag == 55 || tag
                == 201 || tag == 281 || tag == 291 || tag == 301 || tag == 311 || tag == 391
                || tag == 401 || tag == 411 || tag == 501 || tag == 601,
        }
    }

    /// Whether `line` is a line with a tag of the set.
    pub open spec fn tags(self, line: Seq<char>) -> bool {
        &&& is_line(line)
        &&& !is_version_line(line)
        &&& line_tag(line) matches Some(tag) && self.holds(tag)
    }

    /// Whether every one of `lines` is a line with a tag of the set.
    pub open spec fn tags_all(self, lines: Seq<Seq<char>>) -> bool {
        forall|i: int| 0 <= i < lines.len() ==> self.tags(#[trigger] lines[i])
    }
}

/// Lines with tags of a set, one run after another, are lines with tags of
/// the set.
pub proof fn lemma_tags_all_concat(set: TagSet, a: Seq<Seq<char>>, b: Seq<Seq<char>>)
    requires
        set.tags_all(a),
        set.tags_all(b),
    ensures
        set.tags_all(a + b),
{
    assert forall|i: int| 0 <= i < (a + b).len() implies set.tags(#[trigger] (a + b)[i]) by {
        if i < a.len() {
            assert((a + b)[i] == a[i]);
        } else {
            assert((a + b)[i] == b[i - a.len()]);
        }
    }
}

/// Lines with tags of a set are lines.
pub proof fn lemma_tags_all_are_lines(set: TagSet, lines: Seq<Seq<char>>)
    requires
        set.tags_all(lines),
    ensures
        are_lines(lines),
{
    assert forall|i: int| 0 <= i < lines.len() implies is_line(#[trigger] lines[i]) by {
        assert(set.tags(lines[i]));
    }
}

/// The fields of a line can stand in a field.
pub proof fn lemma_fields_are_field_text(line: Seq<char>)
    requires
        forall|i: int| 0 <= i < line.len() ==> !is_break(#[trigger] line[i]),
    ensures
        forall|k: int| 0 <= k < fields_of(line).len() ==> is_field_text(#[trigger] fields_of(line)[k]),
{
    lemma_fields_of_line(line);
    let f = fields_of(line);
    assert forall|k: int| 0 <= k < f.len() implies is_field_text(#[trigger] f[k]) by {
        assert forall|i: int| 0 <= i < f[k].len() implies #[trigger] f[k][i] != ',' && !is_break(
            f[k][i],
        ) by {}
    }
}

} // verus!
