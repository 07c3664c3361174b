//! Text building blocks shared by the formatters of this crate: decimal
//! numerals, fixed-point numerals with one fractional digit, left padding and
//! substring replacement, each stated over sequences of characters.

use vstd::prelude::*;

verus! {

/// `String::push` of the standard library: appends one character to the end
/// of the string. This is believed, not proved.
pub assume_specification[ String::push ](s: &mut String, c: char)
    ensures
        final(s)@ == old(s)@.push(c),
;

/// The character that shows the decimal digit `d`.
pub open spec fn digit_char(d: int) -> char {
    (d + 48) as char
}

/// The decimal numeral of `n`, without leading zeros.
pub open spec fn decimal(n: nat) -> Seq<char>
    decreases n,
{
    if n < 10 {
        seq![digit_char(n as int)]
    } else {
        decimal(n / 10).push(digit_char((n % 10) as int))
    }
}

/// The numeral of `tenths / 10` with exactly one fractional digit.
pub open spec fn fixed1(tenths: nat) -> Seq<char> {
    decimal(tenths / 10).push('.').push(digit_char((tenths % 10) as int))
}

/// `s`, right-aligned in a field of `width` characters; longer text is kept
/// whole.
pub open spec fn pad_left(s: Seq<char>, width: nat) -> Seq<char> {
    if s.len() >= width {
        s
    } else {
        Seq::new((width - s.len()) as nat, |i: int| ' ') + s
    }
}

/// `pattern` stands in `s` at index `i`.
pub open spec fn occurs_at(s: Seq<char>, pattern: Seq<char>, i: int) -> bool {
    &&& 0 <= i
    &&& i + pattern.len() <= s.len()
    &&& s.subrange(i, i + pattern.len()) == pattern
}

/// `pattern` stands somewhere in `s`.
pub open spec fn contains(s: Seq<char>, pattern: Seq<char>) -> bool {
    exists|i: int| occurs_at(s, pattern, i)
}

/// `s` with every occurrence of `from` replaced by `to`, scanning from the
/// left and never looking again at text that was already replaced. With an
/// empty `from` nothing is replaced.
pub open spec fn replace_all(s: Seq<char>, from: Seq<char>, to: Seq<char>) -> Seq<char>
    decreases s.len(),
{
    if from.len() == 0 || s.len() == 0 {
        s
    } else if occurs_at(s, from, 0) {
        to + replace_all(s.skip(from.len() as int), from, to)
    } else {
        seq![s[0]] + replace_all(s.skip(1), from, to)
    }
}

/// Text without an occurrence of `from` is left as it is.
pub proof fn lemma_replace_all_absent(s: Seq<char>, from: Seq<char>, to: Seq<char>)
    requires
        !contains(s, from),
    ensures
        replace_all(s, from, to) == s,
    decreases s.len(),
{
    if from.len() != 0 && s.len() != 0 {
        assert(!occurs_at(s, from, 0));
        let rest = s.skip(1);
        assert forall|i: int| !occurs_at(rest, from, i) by {
            if occurs_at(rest, from, i) {
                assert(rest.subrange(i, i + from.len()) == s.subrange(i + 1, i + 1 + from.len()));
                assert(occurs_at(s, from, i + 1));
            }
        }
        lemma_replace_all_absent(rest, from, to);
        assert(seq![s[0]] + rest == s);
    }
}

/// Up to and including the first occurrence of `from`, exactly that
/// occurrence changes: the text before it is kept, `to` takes its place, and
/// the replacement goes on in what follows it.
pub proof fn lemma_replace_all_first(
    before: Seq<char>,
    after: Seq<char>,
    from: Seq<char>,
    to: Seq<char>,
)
    requires
        from.len() > 0,
        forall|j: int| 0 <= j < before.len() ==> !occurs_at(before + from + after, from, j),
    ensures
        replace_all(before + from + after, from, to) == before + to + replace_all(after, from, to),
    decreases before.len(),
{
    let s = before + from + after;
    if before.len() == 0 {
        assert(s.subrange(0, from.len() as int) == from);
        assert(occurs_at(s, from, 0));
        assert(s.skip(from.len() as int) == after);
        assert(before + to == to);
    } else {
        assert(!occurs_at(s, from, 0));
        let shorter = before.skip(1);
        let rest = shorter + from + after;
        assert(s.skip(1) == rest);
        assert forall|j: int| 0 <= j < shorter.len() implies !occurs_at(rest, from, j) by {
            if occurs_at(rest, from, j) {
                assert(rest.subrange(j, j + from.len()) == s.subrange(j + 1, j + 1 + from.len()));
                assert(occurs_at(s, from, j + 1));
            }
        }
        lemma_replace_all_first(shorter, after, from, to);
        assert(seq![s[0]] + (shorter + to + replace_all(after, from, to)) == before + to
            + replace_all(after, from, to));
    }
}

/// The characters of `s`, one by one.
pub fn to_chars(s: &str) -> (v: Vec<char>)
    ensures
        v@ == s@,
{
    let mut v: Vec<char> = Vec::new();
    for c in it: s.chars()
        invariant
            v@ == it.seq().take(it.index() as int),
    {
        v.push(c);
    }
    v
}

fn digit(d: u8) -> (c: char)
    requires
        d < 10,
    ensures
        c == digit_char(d as int),
{
    (d + 48) as char
}

/// Appends the decimal numeral of `n` to `out`.
pub fn push_decimal(out: &mut String, n: u128)
    ensures
        final(out)@ == old(out)@ + decimal(n as nat),
    decreases n,
{
    if n >= 10 {
        push_decimal(out, n / 10);
    }
    out.push(digit((n % 10) as u8));
    proof {
        if n < 10 {
            assert(old(out)@.push(digit_char(n as int)) == old(out)@ + decimal(n as nat));
        } else {
            assert((old(out)@ + decimal((n / 10) as nat)).push(digit_char((n % 10) as int))
                == old(out)@ + decimal(n as nat));
        }
    }
}

/// The decimal numeral of `n`.
pub fn decimal_string(n: u128) -> (s: String)
    ensures
        s@ == decimal(n as nat),
{
    let mut s = String::new();
    push_decimal(&mut s, n);
    assert(Seq::<char>::empty() + decimal(n as nat) == decimal(n as nat));
    s
}

/// Appends the numeral of `tenths / 10` with one fractional digit to `out`.
pub fn push_fixed1(out: &mut String, tenths: u128)
    ensures
        final(out)@ == old(out)@ + fixed1(tenths as nat),
{
    push_decimal(out, tenths / 10);
    out.push('.');
    out.push(digit((tenths % 10) as u8));
    assert((old(out)@ + decimal((tenths / 10) as nat)).push('.').push(
        digit_char((tenths % 10) as int),
    ) == old(out)@ + fixed1(tenths as nat));
}

/// Appends `text` to `out`, right-aligned in a field of `width` characters.
pub fn push_padded(out: &mut String, text: &str, width: usize)
    ensures
        final(out)@ == old(out)@ + pad_left(text@, width as nat),
{
    let len = text.unicode_len();
    if len < width {
        let missing = width - len;
        let mut i: usize = 0;
        while i < missing
            invariant
                i <= missing,
                out@ == old(out)@ + Seq::new(i as nat, |k: int| ' '),
            decreases missing - i,
        {
            out.push(' ');
            i += 1;
            assert(Seq::new(i as nat, |k: int| ' ') == Seq::new((i - 1) as nat, |k: int| ' ').push(
                ' ',
            ));
        }
        out.append(text);
        assert(out@ == old(out)@ + (Seq::new(missing as nat, |k: int| ' ') + text@));
    } else {
        out.append(text);
    }
}

fn matches_at(s: &Vec<char>, i: usize, pattern: &Vec<char>) -> (b: bool)
    requires
        i <= s.len(),
    ensures
        b == occurs_at(s@.skip(i as int), pattern@, 0),
{
    if pattern.len() > s.len() - i {
        return false;
    }
    let mut k: usize = 0;
    while k < pattern.len()
        invariant
            i + pattern.len() <= s.len(),
            k <= pattern.len(),
            forall|j: int| 0 <= j < k ==> s@[i + j] == pattern@[j],
        decreases pattern.len() - k,
    {
        if s[i + k] != pattern[k] {
            proof {
                let window = s@.skip(i as int).subrange(0, pattern@.len() as int);
                assert(window[k as int] == s@[i + k]);
            }
            return false;
        }
        k += 1;
    }
    assert(s@.skip(i as int).subrange(0, pattern@.len() as int) =~= pattern@);
    true
}

/// Replaces every occurrence of `from` in `s` by `to`, scanning from the left.
pub fn replace(s: &str, from: &str, to: &str) -> (r: String)
    ensures
        r@ == replace_all(s@, from@, to@),
{
    let text = to_chars(s);
    let pattern = to_chars(from);
    let mut out = String::new();
    if pattern.len() == 0 {
        out.append(s);
        assert(Seq::<char>::empty() + s@ == s@);
        return out;
    }
    let mut i: usize = 0;
    assert(s@.skip(0) == s@);
    assert(out@ + replace_all(s@, from@, to@) == replace_all(s@, from@, to@));
    while i < text.len()
        invariant
            text@ == s@,
            pattern@ == from@,
            pattern.len() > 0,
            i <= text.len(),
            out@ + replace_all(s@.skip(i as int), from@, to@) == replace_all(s@, from@, to@),
        decreases text.len() - i,
    {
        let ghost rest = s@.skip(i as int);
        if matches_at(&text, i, &pattern) {
            out.append(to);
            i += pattern.len();
            assert(rest.skip(from@.len() as int) == s@.skip(i as int));
        } else {
            out.push(text[i]);
            i += 1;
            assert(rest.skip(1) == s@.skip(i as int));
        }
        assert(out@ + replace_all(s@.skip(i as int), from@, to@) == replace_all(s@, from@, to@)) by {
            let tail = replace_all(s@.skip(i as int), from@, to@);
            if occurs_at(rest, from@, 0) {
                assert(replace_all(rest, from@, to@) == to@ + tail);
            } else {
                assert(replace_all(rest, from@, to@) == seq![rest[0]] + tail);
            }
        }
    }
    assert(s@.skip(text.len() as int).len() == 0);
    assert(out@ + Seq::<char>::empty() == out@);
    out
}

} // verus!
