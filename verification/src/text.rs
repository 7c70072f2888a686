//! Text as sequences of characters: character classes, fields between
//! commas, and lines between line breaks.

use vstd::prelude::*;

verus! {

/// std's `String::push` appends one character.
pub assume_specification[ String::push ](s: &mut String, c: char)
    ensures
        final(s)@ == old(s)@.push(c),
;

/// std's `==` on string slices holds exactly of equal texts.
pub assume_specification[ <str as PartialEq>::eq ](a: &str, b: &str) -> (r: bool)
    ensures
        r == (a@ == b@),
;

/// Whether the `regex` crate finds the pattern `pattern` in the text `text`.
pub uninterp spec fn regex_matches(pattern: Seq<char>, text: Seq<char>) -> bool;

/// The pattern `^\d$`: a text of one decimal digit.
pub open spec fn digit_pattern() -> Seq<char> {
    seq!['^', '\\', 'd', '$']
}

/// The pattern `^\w$`: a text of one word character.
pub open spec fn word_pattern() -> Seq<char> {
    seq!['^', '\\', 'w', '$']
}

/// Whether `c` is one of the first 128 characters.
pub open spec fn is_ascii_char(c: char) -> bool {
    (c as u32) < 128
}

/// Whether `c` is an ASCII letter, an ASCII digit or `_`.
pub open spec fn is_ascii_word(c: char) -> bool {
    '0' <= c <= '9' || 'a' <= c <= 'z' || 'A' <= c <= 'Z' || c == '_'
}

/// Whether the `regex` crate counts `c` as a decimal digit (`\d`, the
/// Unicode class Nd).
pub open spec fn unicode_digit(c: char) -> bool {
    regex_matches(digit_pattern(), seq![c])
}

/// Whether the `regex` crate counts `c` as a word character (`\w`).
pub open spec fn unicode_word(c: char) -> bool {
    regex_matches(word_pattern(), seq![c])
}

/// The digit class of the record grammar: `0` to `9`, and beyond ASCII
/// whatever Unicode calls a decimal digit.
pub open spec fn digit_class(c: char) -> bool {
    if is_ascii_char(c) {
        '0' <= c <= '9'
    } else {
        unicode_digit(c)
    }
}

/// The word class of the record grammar: ASCII letters, digits and `_`, and
/// beyond ASCII whatever Unicode calls a word character.
pub open spec fn word_class(c: char) -> bool {
    if is_ascii_char(c) {
        is_ascii_word(c)
    } else {
        unicode_word(c)
    }
}

/// Whether every character of `s` is in the digit class.
pub open spec fn all_digits(s: Seq<char>) -> bool {
    forall|i: int| 0 <= i < s.len() ==> digit_class(#[trigger] s[i])
}

/// `regex::Regex::new` and `regex::Regex::is_match`, for the two patterns
/// that are a class of one character between the anchors of a whole text:
/// whether the crate finds the pattern in the text. Of a text of one ASCII
/// character the crate's documentation gives the answer: `\d` holds `0` to
/// `9`, and `\w` holds the letters, the digits and `_`.
#[verifier::external_body]
fn regex_is_match(pattern: &str, text: &str) -> (r: bool)
    requires
        pattern@ == digit_pattern() || pattern@ == word_pattern(),
    ensures
        r == regex_matches(pattern@, text@),
        pattern@ == digit_pattern() && text@.len() == 1 && is_ascii_char(text@[0]) ==> r == ('0'
            <= text@[0] <= '9'),
        pattern@ == word_pattern() && text@.len() == 1 && is_ascii_char(text@[0]) ==> r
            == is_ascii_word(text@[0]),
{
    regex::Regex::new(pattern).unwrap().is_match(text)
}

/// Whether `c` is in the digit class.
pub fn is_digit(c: char) -> (r: bool)
    ensures
        r == digit_class(c),
{
    if (c as u32) < 128 {
        '0' <= c && c <= '9'
    } else {
        let mut text = String::new();
        text.push(c);
        proof {
            reveal_strlit("^\\d$");
            assert("^\\d$"@ =~= digit_pattern());
            assert(text@ =~= seq![c]);
        }
        regex_is_match("^\\d$", text.as_str())
    }
}

/// Whether `c` is in the word class.
pub fn is_word(c: char) -> (r: bool)
    ensures
        r == word_class(c),
{
    if (c as u32) < 128 {
        ('0' <= c && c <= '9') || ('a' <= c && c <= 'z') || ('A' <= c && c <= 'Z') || c == '_'
    } else {
        let mut text = String::new();
        text.push(c);
        proof {
            reveal_strlit("^\\w$");
            assert("^\\w$"@ =~= word_pattern());
            assert(text@ =~= seq![c]);
        }
        regex_is_match("^\\w$", text.as_str())
    }
}

/// The characters of `s`.
pub fn chars_of(s: &str) -> (v: Vec<char>)
    ensures
        v@ == s@,
{
    let mut v: Vec<char> = Vec::new();
    for c in it: s.chars()
        invariant
            v@ == s@.take(it.index() as int),
            it.seq() == s@,
    {
        v.push(c);
    }
    v
}

/// The text of the characters `v[from..to]`.
pub fn string_of(v: &Vec<char>, from: usize, to: usize) -> (s: String)
    requires
        from <= to <= v.len(),
    ensures
        s@ == v@.subrange(from as int, to as int),
{
    let mut s = String::new();
    let mut i: usize = from;
    while i < to
        invariant
            from <= i <= to <= v.len(),
            s@ == v@.subrange(from as int, i as int),
        decreases to - i,
    {
        s.push(v[i]);
        i += 1;
        assert(s@ =~= v@.subrange(from as int, i as int));
    }
    s
}

/// Whether `s` is made of digits of the digit class only.
pub fn is_all_digits(s: &str) -> (r: bool)
    ensures
        r == all_digits(s@),
{
    let mut r = true;
    for c in it: s.chars()
        invariant
            it.seq() == s@,
            r == all_digits(s@.take(it.index() as int)),
    {
        let d = is_digit(c);
        proof {
            let i = it.index() as int;
            let before = s@.take(i);
            let after = s@.take(i + 1);
            assert(after[i] == c);
            assert(forall|j: int| 0 <= j < i ==> after[j] == before[j]);
            if r && d {
                assert(all_digits(after));
            } else if !d {
                assert(!digit_class(after[i]));
            } else {
                let j = choose|j: int| 0 <= j < before.len() && !digit_class(#[trigger] before[j]);
                assert(!digit_class(after[j]));
            }
        }
        r = r && d;
    }
    assert(s@.take(s@.len() as int) =~= s@);
    r
}

/// The texts between the separators of `s`, where `is_sep` says which
/// characters separate. There is always at least one, and a separator at
/// either end leaves an empty text there.
pub open spec fn split_by(s: Seq<char>, is_sep: spec_fn(char) -> bool) -> Seq<Seq<char>>
    decreases s.len(),
{
    if s.len() == 0 {
        seq![Seq::empty()]
    } else {
        let before = split_by(s.drop_last(), is_sep);
        if is_sep(s.last()) {
            before.push(Seq::empty())
        } else {
            before.drop_last().push(before.last().push(s.last()))
        }
    }
}

/// The fields of a record line: the texts between its commas.
pub open spec fn fields_of(line: Seq<char>) -> Seq<Seq<char>> {
    split_by(line, |c: char| c == ',')
}

/// The texts of `parts` with `sep` between each two of them.
pub open spec fn join(parts: Seq<Seq<char>>, sep: Seq<char>) -> Seq<char>
    decreases parts.len(),
{
    if parts.len() == 0 {
        Seq::empty()
    } else if parts.len() == 1 {
        parts[0]
    } else {
        join(parts.drop_last(), sep) + sep + parts.last()
    }
}

/// Whether `c` ends a line: a carriage return or a line feed.
pub open spec fn is_break(c: char) -> bool {
    c == '\r' || c == '\n'
}

/// Whether `s` holds no line break and at least one character: what a line
/// of a notebook is.
pub open spec fn is_line(s: Seq<char>) -> bool {
    s.len() > 0 && forall|i: int| 0 <= i < s.len() ==> !is_break(#[trigger] s[i])
}

/// The lines of `text`: its maximal runs of characters without a line
/// break. `\n`, `\r` and `\r\n` all end a line, and blank lines are left out.
pub open spec fn lines_of(text: Seq<char>) -> Seq<Seq<char>> {
    split_by(text, |c: char| is_break(c)).filter(|l: Seq<char>| l.len() > 0)
}

/// Splitting gives at least one part.
pub proof fn lemma_split_by_nonempty(s: Seq<char>, is_sep: spec_fn(char) -> bool)
    ensures
        split_by(s, is_sep).len() >= 1,
    decreases s.len(),
{
    if s.len() > 0 {
        lemma_split_by_nonempty(s.drop_last(), is_sep);
    }
}

/// The fields of `s`, in order.
pub fn split_fields(s: &str) -> (r: Vec<String>)
    ensures
        r.deep_view() == fields_of(s@),
        r.len() >= 1,
{
    let ghost is_sep = |c: char| c == ',';
    let mut done: Vec<String> = Vec::new();
    let mut cur = String::new();
    for c in it: s.chars()
        invariant
            it.seq() == s@,
            is_sep == (|c: char| c == ','),
            done.deep_view().push(cur@) == split_by(s@.take(it.index() as int), is_sep),
    {
        proof {
            let i = it.index() as int;
            assert(s@.take(i + 1).drop_last() =~= s@.take(i));
            assert(s@.take(i + 1).last() == c);
            assert(is_sep(c) == (c == ','));
        }
        let ghost old_done = done.deep_view();
        let ghost old_cur = cur@;
        if c == ',' {
            done.push(cur);
            cur = String::new();
            assert(done.deep_view() =~= old_done.push(old_cur));
        } else {
            cur.push(c);
            assert(old_done.push(old_cur).drop_last() =~= old_done);
        }
    }
    assert(s@.take(s@.len() as int) =~= s@);
    let ghost old_done = done.deep_view();
    done.push(cur);
    assert(done.deep_view() =~= old_done.push(cur@));
    done
}

/// The texts of `parts` with `sep` between each two of them.
pub fn join_strings(parts: &Vec<String>, sep: &str) -> (r: String)
    ensures
        r@ == join(parts.deep_view(), sep@),
{
    let mut out = String::new();
    let mut i: usize = 0;
    while i < parts.len()
        invariant
            i <= parts.len(),
            out@ == join(parts.deep_view().take(i as int), sep@),
        decreases parts.len() - i,
    {
        proof {
            let next = parts.deep_view().take(i + 1);
            assert(next.drop_last() =~= parts.deep_view().take(i as int));
            assert(next.last() == parts[i as int]@);
        }
        if i > 0 {
            out.append(sep);
        }
        out.append(parts[i].as_str());
        proof {
            if i == 0 {
                assert(out@ =~= parts[0]@);
            }
        }
        i += 1;
    }
    assert(parts.deep_view().take(parts.len() as int) =~= parts.deep_view());
    out
}

/// The lines of `text`, in order.
pub fn split_lines(text: &str) -> (r: Vec<String>)
    ensures
        r.deep_view() == lines_of(text@),
{
    let ghost is_sep = |c: char| is_break(c);
    let ghost keep = |l: Seq<char>| l.len() > 0;
    let mut done: Vec<String> = Vec::new();
    let mut cur = String::new();
    for c in it: text.chars()
        invariant
            it.seq() == text@,
            is_sep == (|c: char| is_break(c)),
            keep == (|l: Seq<char>| l.len() > 0),
            done.deep_view() == split_by(text@.take(it.index() as int), is_sep).drop_last().filter(
                keep,
            ),
            cur@ == split_by(text@.take(it.index() as int), is_sep).last(),
    {
        let ghost i = it.index() as int;
        let ghost before = split_by(text@.take(i), is_sep);
        proof {
            assert(text@.take(i + 1).drop_last() =~= text@.take(i));
            assert(text@.take(i + 1).last() == c);
            assert(is_sep(c) == is_break(c));
            lemma_split_by_nonempty(text@.take(i), is_sep);
        }
        let ghost old_done = done.deep_view();
        let ghost old_cur = cur@;
        if c == '\r' || c == '\n' {
            proof {
                assert(before.push(Seq::empty()).drop_last() =~= before);
                assert(before =~= before.drop_last().push(before.last()));
                lemma_filter_push(before.drop_last(), before.last(), keep);
            }
            if cur.as_str().unicode_len() > 0 {
                done.push(cur);
                assert(done.deep_view() =~= old_done.push(old_cur));
            }
            cur = String::new();
        } else {
            cur.push(c);
            assert(before.drop_last().push(before.last().push(c)).drop_last()
                =~= before.drop_last());
        }
    }
    assert(text@.take(text@.len() as int) =~= text@);
    proof {
        let all = split_by(text@, is_sep);
        lemma_split_by_nonempty(text@, is_sep);
        assert(all =~= all.drop_last().push(all.last()));
        lemma_filter_push(all.drop_last(), all.last(), keep);
    }
    let ghost old_done = done.deep_view();
    if cur.as_str().unicode_len() > 0 {
        done.push(cur);
        assert(done.deep_view() =~= old_done.push(cur@));
    }
    done
}

/// Filtering a sequence that ends in `x` keeps `x` exactly when it passes.
pub proof fn lemma_filter_push<A>(s: Seq<A>, x: A, keep: spec_fn(A) -> bool)
    ensures
        s.push(x).filter(keep) == if keep(x) {
            s.filter(keep).push(x)
        } else {
            s.filter(keep)
        },
{
    reveal(Seq::filter);
    assert(s.push(x).drop_last() =~= s);
}

/// Whether no character of `s` is a separator.
pub open spec fn free_of(s: Seq<char>, is_sep: spec_fn(char) -> bool) -> bool {
    forall|i: int| 0 <= i < s.len() ==> !is_sep(#[trigger] s[i])
}

/// Text without a separator, put behind `a`, lengthens the last part of `a`.
pub proof fn lemma_split_by_append(a: Seq<char>, b: Seq<char>, is_sep: spec_fn(char) -> bool)
    requires
        free_of(b, is_sep),
    ensures
        split_by(a + b, is_sep) == split_by(a, is_sep).drop_last().push(
            split_by(a, is_sep).last() + b,
        ),
    decreases b.len(),
{
    lemma_split_by_nonempty(a, is_sep);
    let parts = split_by(a, is_sep);
    if b.len() == 0 {
        assert(a + b =~= a);
        assert(parts.last() + b =~= parts.last());
        assert(parts.drop_last().push(parts.last()) =~= parts);
    } else {
        let shorter = b.drop_last();
        assert forall|i: int| 0 <= i < shorter.len() implies !is_sep(#[trigger] shorter[i]) by {
            assert(shorter[i] == b[i]);
        }
        lemma_split_by_append(a, shorter, is_sep);
        assert((a + b).drop_last() =~= a + shorter);
        assert((a + b).last() == b.last());
        assert(!is_sep(b[b.len() - 1]));
        let before = split_by(a + shorter, is_sep);
        assert(before.drop_last() =~= parts.drop_last());
        assert(before.last().push(b.last()) =~= parts.last() + b);
    }
}

/// Parts without a separator, joined by one separator each, split into the
/// same parts.
pub proof fn lemma_split_by_join(parts: Seq<Seq<char>>, sep: char, is_sep: spec_fn(char) -> bool)
    requires
        parts.len() >= 1,
        is_sep(sep),
        forall|i: int| 0 <= i < parts.len() ==> free_of(#[trigger] parts[i], is_sep),
    ensures
        split_by(join(parts, seq![sep]), is_sep) == parts,
    decreases parts.len(),
{
    let empty = Seq::<char>::empty();
    if parts.len() == 1 {
        lemma_split_by_append(empty, parts[0], is_sep);
        assert(empty + parts[0] =~= parts[0]);
        assert(split_by(empty, is_sep) =~= seq![empty]);
        assert(seq![empty].drop_last().push(seq![empty].last() + parts[0]) =~= parts);
    } else {
        let before = parts.drop_last();
        assert forall|i: int| 0 <= i < before.len() implies free_of(
            #[trigger] before[i],
            is_sep,
        ) by {
            assert(before[i] == parts[i]);
        }
        lemma_split_by_join(before, sep, is_sep);
        let head = join(before, seq![sep]) + seq![sep];
        assert(head.drop_last() =~= join(before, seq![sep]));
        assert(head.last() == sep);
        assert(split_by(head, is_sep) == before.push(empty));
        assert(free_of(parts.last(), is_sep));
        lemma_split_by_append(head, parts.last(), is_sep);
        assert(before.push(empty).drop_last() =~= before);
        assert(empty + parts.last() =~= parts.last());
        assert(before.push(parts.last()) =~= parts);
        assert(join(parts, seq![sep]) =~= head + parts.last());
    }
}

/// The fields of a line that was joined from fields without a comma are
/// those fields.
pub proof fn lemma_fields_of_join(fields: Seq<Seq<char>>)
    requires
        fields.len() >= 1,
        forall|i: int|
            0 <= i < fields.len() ==> (forall|j: int|
                0 <= j < (#[trigger] fields[i]).len() ==> fields[i][j] != ','),
    ensures
        fields_of(join(fields, seq![','])) == fields,
{
    let is_sep = |c: char| c == ',';
    assert forall|i: int| 0 <= i < fields.len() implies free_of(#[trigger] fields[i], is_sep) by {
        assert forall|j: int| 0 <= j < fields[i].len() implies !is_sep(
            #[trigger] fields[i][j],
        ) by {}
    }
    lemma_split_by_join(fields, ',', is_sep);
}

/// The lines of a text that was joined from lines with `\r\n` between them
/// are those lines.
pub proof fn lemma_lines_of_join(lines: Seq<Seq<char>>)
    requires
        forall|i: int| 0 <= i < lines.len() ==> is_line(#[trigger] lines[i]),
    ensures
        lines_of(join(lines, seq!['\r', '\n'])) == lines,
    decreases lines.len(),
{
    let is_sep = |c: char| is_break(c);
    let keep = |l: Seq<char>| l.len() > 0;
    let empty = Seq::<char>::empty();
    let sep = seq!['\r', '\n'];
    if lines.len() == 0 {
        assert(split_by(empty, is_sep) =~= seq![empty]);
        lemma_filter_push(Seq::<Seq<char>>::empty(), empty, keep);
        assert(Seq::<Seq<char>>::empty().push(empty) =~= seq![empty]);
        reveal(Seq::filter);
        assert(Seq::<Seq<char>>::empty().filter(keep) =~= Seq::<Seq<char>>::empty());
        assert(lines =~= Seq::<Seq<char>>::empty());
    } else {
        let last = lines.last();
        assert(is_line(last));
        assert(free_of(last, is_sep)) by {
            assert forall|j: int| 0 <= j < last.len() implies !is_sep(#[trigger] last[j]) by {}
        }
        if lines.len() == 1 {
            lemma_split_by_append(empty, last, is_sep);
            assert(empty + last =~= last);
            assert(split_by(empty, is_sep) =~= seq![empty]);
            let parts = split_by(last, is_sep);
            assert(parts =~= Seq::<Seq<char>>::empty().push(last));
            lemma_filter_push(Seq::<Seq<char>>::empty(), last, keep);
            reveal(Seq::filter);
            assert(Seq::<Seq<char>>::empty().filter(keep) =~= Seq::<Seq<char>>::empty());
            assert(lines =~= Seq::<Seq<char>>::empty().push(last));
        } else {
            let before = lines.drop_last();
            assert forall|i: int| 0 <= i < before.len() implies is_line(#[trigger] before[i]) by {
                assert(before[i] == lines[i]);
            }
            lemma_lines_of_join(before);
            let text = join(before, sep);
            let parts = split_by(text, is_sep);
            lemma_split_by_nonempty(text, is_sep);
            let one = text + seq!['\r'];
            assert(one.drop_last() =~= text);
            assert(is_sep('\r'));
            assert(split_by(one, is_sep) == parts.push(empty));
            let two = one + seq!['\n'];
            assert(two.drop_last() =~= one);
            assert(is_sep('\n'));
            assert(split_by(two, is_sep) == parts.push(empty).push(empty));
            lemma_split_by_append(two, last, is_sep);
            assert(parts.push(empty).push(empty).drop_last() =~= parts.push(empty));
            assert(empty + last =~= last);
            assert(join(lines, sep) =~= two + last);
            assert(split_by(join(lines, sep), is_sep) == parts.push(empty).push(last));
            lemma_filter_push(parts, empty, keep);
            lemma_filter_push(parts.push(empty), last, keep);
            assert(before.push(last) =~= lines);
        }
    }
}

/// The parts that a text splits into hold none of the separators, and what
/// holds of every character of the text holds of every character of every
/// part.
pub proof fn lemma_split_by_parts(
    s: Seq<char>,
    is_sep: spec_fn(char) -> bool,
    good: spec_fn(char) -> bool,
)
    requires
        forall|i: int| 0 <= i < s.len() ==> good(#[trigger] s[i]),
    ensures
        forall|k: int|
            0 <= k < split_by(s, is_sep).len() ==> free_of(#[trigger] split_by(s, is_sep)[k], is_sep),
        forall|k: int, i: int|
            0 <= k < split_by(s, is_sep).len() && 0 <= i < split_by(s, is_sep)[k].len() ==> good(
                #[trigger] split_by(s, is_sep)[k][i],
            ),
    decreases s.len(),
{
    let parts = split_by(s, is_sep);
    if s.len() > 0 {
        let shorter = s.drop_last();
        assert forall|i: int| 0 <= i < shorter.len() implies good(#[trigger] shorter[i]) by {
            assert(shorter[i] == s[i]);
        }
        lemma_split_by_parts(shorter, is_sep, good);
        lemma_split_by_nonempty(shorter, is_sep);
        let init = split_by(shorter, is_sep);
        let c = s.last();
        assert(good(s[s.len() - 1]));
        assert forall|k: int| 0 <= k < parts.len() implies free_of(#[trigger] parts[k], is_sep) by {
            if k < init.len() - 1 {
                assert(parts[k] == init[k]);
            } else if k == init.len() - 1 && !is_sep(c) {
                assert(free_of(init[k], is_sep));
                assert forall|i: int| 0 <= i < parts[k].len() implies !is_sep(
                    #[trigger] parts[k][i],
                ) by {
                    if i < init[k].len() {
                        assert(parts[k][i] == init[k][i]);
                    }
                }
            } else if k == init.len() - 1 {
                assert(parts[k] == init[k]);
            }
        }
        assert forall|k: int, i: int| 0 <= k < parts.len() && 0 <= i < parts[k].len() implies good(
            #[trigger] parts[k][i],
        ) by {
            if k < init.len() - 1 {
                assert(parts[k] == init[k]);
                assert(good(init[k][i]));
            } else if k == init.len() - 1 && !is_sep(c) {
                if i < init[k].len() {
                    assert(parts[k][i] == init[k][i]);
                    assert(good(init[k][i]));
                }
            } else if k == init.len() - 1 {
                assert(parts[k] == init[k]);
                assert(good(init[k][i]));
            }
        }
    }
}

/// What holds of every element of a sequence holds of every element that a
/// filter keeps, and so does what the filter asks.
pub proof fn lemma_filter_keeps<A>(s: Seq<A>, keep: spec_fn(A) -> bool, good: spec_fn(A) -> bool)
    requires
        forall|i: int| 0 <= i < s.len() ==> good(#[trigger] s[i]),
    ensures
        forall|i: int|
            0 <= i < s.filter(keep).len() ==> good(#[trigger] s.filter(keep)[i]) && keep(
                s.filter(keep)[i],
            ),
    decreases s.len(),
{
    if s.len() == 0 {
        reveal(Seq::filter);
    } else {
        let init = s.drop_last();
        assert forall|i: int| 0 <= i < init.len() implies good(#[trigger] init[i]) by {
            assert(init[i] == s[i]);
        }
        lemma_filter_keeps(init, keep, good);
        lemma_filter_push(init, s.last(), keep);
        assert(init.push(s.last()) =~= s);
        assert(good(s[s.len() - 1]));
        let kept = s.filter(keep);
        assert forall|i: int| 0 <= i < kept.len() implies good(#[trigger] kept[i]) && keep(
            kept[i],
        ) by {
            if i < init.filter(keep).len() {
                assert(kept[i] == init.filter(keep)[i]);
            }
        }
    }
}

/// The lines of a text are lines: none is blank and none holds a line
/// break.
pub proof fn lemma_lines_of_are_lines(text: Seq<char>)
    ensures
        forall|i: int| 0 <= i < lines_of(text).len() ==> is_line(#[trigger] lines_of(text)[i]),
{
    let is_sep = |c: char| is_break(c);
    let keep = |l: Seq<char>| l.len() > 0;
    let good = |l: Seq<char>| free_of(l, is_sep);
    let parts = split_by(text, is_sep);
    lemma_split_by_parts(text, is_sep, |c: char| true);
    assert forall|i: int| 0 <= i < parts.len() implies good(#[trigger] parts[i]) by {}
    lemma_filter_keeps(parts, keep, good);
    let lines = lines_of(text);
    assert forall|i: int| 0 <= i < lines.len() implies is_line(#[trigger] lines[i]) by {
        assert(good(lines[i]) && keep(lines[i]));
        assert forall|j: int| 0 <= j < lines[i].len() implies !is_break(
            #[trigger] lines[i][j],
        ) by {
            assert(!is_sep(lines[i][j]));
        }
    }
}

/// The fields of a line hold no comma, and no line break either.
pub proof fn lemma_fields_of_line(line: Seq<char>)
    requires
        forall|i: int| 0 <= i < line.len() ==> !is_break(#[trigger] line[i]),
    ensures
        fields_of(line).len() >= 1,
        forall|k: int, i: int|
            0 <= k < fields_of(line).len() && 0 <= i < fields_of(line)[k].len() ==> (
            #[trigger] fields_of(line)[k][i]) != ',' && !is_break(fields_of(line)[k][i]),
{
    let is_sep = |c: char| c == ',';
    let good = |c: char| !is_break(c);
    let parts = split_by(line, is_sep);
    lemma_split_by_nonempty(line, is_sep);
    assert forall|i: int| 0 <= i < line.len() implies good(#[trigger] line[i]) by {}
    lemma_split_by_parts(line, is_sep, good);
    assert forall|k: int, i: int| 0 <= k < parts.len() && 0 <= i < parts[k].len() implies (
    #[trigger] parts[k][i]) != ',' && !is_break(parts[k][i]) by {
        assert(free_of(parts[k], is_sep));
        assert(!is_sep(parts[k][i]));
        assert(good(parts[k][i]));
    }
}

} // verus!
