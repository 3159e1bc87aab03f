//! Text helpers used when command-line tokens and paths are assembled.

use vstd::prelude::*;

verus! {

/// The items of `parts`, written one after another with `sep` between
/// neighbours.
pub open spec fn joined(parts: Seq<Seq<char>>, sep: Seq<char>) -> Seq<char>
    decreases parts.len(),
{
    if parts.len() == 0 {
        Seq::empty()
    } else if parts.len() == 1 {
        parts[0]
    } else {
        parts[0] + sep + joined(parts.skip(1), sep)
    }
}

/// Appending one more item to a non-empty list appends the separator and the
/// item to the joined text.
proof fn lemma_joined_push(parts: Seq<Seq<char>>, last: Seq<char>, sep: Seq<char>)
    requires
        parts.len() > 0,
    ensures
        joined(parts.push(last), sep) == joined(parts, sep) + sep + last,
    decreases parts.len(),
{
    let all = parts.push(last);
    if parts.len() == 1 {
        assert(all.skip(1) =~= seq![last]);
        assert(joined(all.skip(1), sep) == last);
    } else {
        assert(all.skip(1) =~= parts.skip(1).push(last));
        lemma_joined_push(parts.skip(1), last, sep);
        assert(joined(all, sep) =~= joined(parts, sep) + sep + last);
    }
}

/// Joins `parts` with `sep` between neighbours.
pub fn join(parts: &Vec<String>, sep: &str) -> (out: String)
    ensures
        out@ == joined(parts.deep_view(), sep@),
{
    let mut out = String::new();
    let mut i: usize = 0;
    while i < parts.len()
        invariant
            i <= parts.len(),
            out@ == joined(parts.deep_view().take(i as int), sep@),
        decreases parts.len() - i,
    {
        let ghost before = parts.deep_view().take(i as int);
        assert(parts.deep_view().take(i + 1) =~= before.push(parts[i as int]@));
        if i > 0 {
            proof {
                lemma_joined_push(before, parts[i as int]@, sep@);
            }
            out.append(sep);
        } else {
            assert(before.push(parts[i as int]@).len() == 1);
        }
        out.append(parts[i].as_str());
        i += 1;
    }
    assert(parts.deep_view().take(parts.len() as int) =~= parts.deep_view());
    out
}

/// Whether `s` holds the NUL character anywhere.
pub fn contains_nul(s: &str) -> (found: bool)
    ensures
        found == s@.contains('\0'),
{
    let mut found = false;
    for c in it: s.chars()
        invariant
            it.seq() == s@,
            found == s@.take(it.index() as int).contains('\0'),
    {
        proof {
            let seen = s@.take(it.index() as int);
            assert(s@.take(it.index() + 1) =~= seen.push(c));
            assert(seen.push(c).last() == c);
            assert(forall|i: int| 0 <= i < seen.len() ==> seen.push(c)[i] == seen[i]);
        }
        if c == '\0' {
            found = true;
        }
    }
    assert(s@.take(s@.len() as int) =~= s@);
    found
}

/// The character that writes the digit `d`, for `d` below ten.
pub open spec fn digit(d: nat) -> char {
    if d == 0 {
        '0'
    } else if d == 1 {
        '1'
    } else if d == 2 {
        '2'
    } else if d == 3 {
        '3'
    } else if d == 4 {
        '4'
    } else if d == 5 {
        '5'
    } else if d == 6 {
        '6'
    } else if d == 7 {
        '7'
    } else if d == 8 {
        '8'
    } else {
        '9'
    }
}

/// `n` written in base ten, without sign or leading zeros.
pub open spec fn decimal(n: nat) -> Seq<char>
    decreases n,
{
    if n < 10 {
        seq![digit(n)]
    } else {
        decimal(n / 10).push(digit(n % 10))
    }
}

fn digit_text(d: u64) -> (t: &'static str)
    requires
        d < 10,
    ensures
        t@ == seq![digit(d as nat)],
{
    proof {
        reveal_strlit("0");
        reveal_strlit("1");
        reveal_strlit("2");
        reveal_strlit("3");
        reveal_strlit("4");
        reveal_strlit("5");
        reveal_strlit("6");
        reveal_strlit("7");
        reveal_strlit("8");
        reveal_strlit("9");
    }
    let t = if d == 0 {
        "0"
    } else if d == 1 {
        "1"
    } else if d == 2 {
        "2"
    } else if d == 3 {
        "3"
    } else if d == 4 {
        "4"
    } else if d == 5 {
        "5"
    } else if d == 6 {
        "6"
    } else if d == 7 {
        "7"
    } else if d == 8 {
        "8"
    } else {
        "9"
    };
    assert(t@ =~= seq![digit(d as nat)]);
    t
}

/// Writes `n` in base ten.
pub fn to_decimal(n: u64) -> (out: String)
    ensures
        out@ == decimal(n as nat),
    decreases n,
{
    if n < 10 {
        digit_text(n).to_owned()
    } else {
        let mut out = to_decimal(n / 10);
        out.append(digit_text(n % 10));
        assert(out@ =~= decimal(n as nat));
        out
    }
}

/// `n` written in base ten, with a minus sign where it is negative.
pub open spec fn signed_decimal(n: int) -> Seq<char> {
    if n < 0 {
        seq!['-'] + decimal((-n) as nat)
    } else {
        decimal(n as nat)
    }
}

/// Writes `n` in base ten, with a minus sign where it is negative.
pub fn to_signed_decimal(n: i32) -> (out: String)
    ensures
        out@ == signed_decimal(n as int),
{
    if n < 0 {
        proof {
            reveal_strlit("-");
        }
        let magnitude: u64 = (-(n as i64)) as u64;
        let mut out = "-".to_owned();
        out.append(to_decimal(magnitude).as_str());
        assert(out@ =~= signed_decimal(n as int));
        out
    } else {
        to_decimal(n as u64)
    }
}

/// Whether `c` is one of the ten ASCII digits.
pub open spec fn is_digit(c: char) -> bool {
    '0' <= c <= '9'
}

/// The number that a run of ASCII digits writes in base ten.
pub open spec fn digits_value(s: Seq<char>) -> nat
    decreases s.len(),
{
    if s.len() == 0 {
        0
    } else {
        digits_value(s.drop_last()) * 10 + (s.last() as nat - '0' as nat) as nat
    }
}

/// Whether `s` holds ASCII digits only.
pub open spec fn all_digits(s: Seq<char>) -> bool {
    forall|i: int| 0 <= i < s.len() ==> is_digit(#[trigger] s[i])
}

/// `s` without the `+` that may stand in front of a number.
pub open spec fn without_plus(s: Seq<char>) -> Seq<char> {
    if s.len() > 0 && s[0] == '+' {
        s.skip(1)
    } else {
        s
    }
}

/// The number that `s` writes: an optional `+`, then one or more ASCII
/// digits and nothing else. `None` for every other text.
pub open spec fn parsed_decimal(s: Seq<char>) -> Option<nat> {
    let body = without_plus(s);
    if body.len() > 0 && all_digits(body) {
        Some(digits_value(body))
    } else {
        None
    }
}

/// A longer run of digits never writes a smaller number than its prefix.
proof fn lemma_digits_value_grows(s: Seq<char>, i: int)
    requires
        0 <= i <= s.len(),
    ensures
        digits_value(s.take(i)) <= digits_value(s),
    decreases s.len(),
{
    if i == s.len() {
        assert(s.take(i) =~= s);
    } else {
        assert(s.drop_last().take(i) =~= s.take(i));
        lemma_digits_value_grows(s.drop_last(), i);
    }
}

/// The number that `s` writes, where a `usize` can hold it.
pub open spec fn parsed_usize(s: Seq<char>) -> Option<usize> {
    match parsed_decimal(s) {
        Some(v) => if v <= usize::MAX {
            Some(v as usize)
        } else {
            None
        },
        None => None,
    }
}

/// Reads a number in base ten: an optional `+`, then digits only. Text of any
/// other shape, and a number too large for `usize`, give `None`.
pub fn parse_usize(s: &str) -> (r: Option<usize>)
    ensures
        r == parsed_usize(s@),
{
    let mut value: usize = 0;
    let mut signed = false;
    let mut at_start = true;
    let mut any_digit = false;
    for c in it: s.chars()
        invariant
            it.seq() == s@,
            at_start <==> it.index() == 0,
            signed ==> it.index() >= 1 && s@[0] == '+',
            !signed && it.index() > 0 ==> s@[0] != '+',
            any_digit <==> it.index() > (if signed { 1int } else { 0int }),
            forall|j: int|
                (if signed { 1int } else { 0int }) <= j < it.index() ==> is_digit(
                    #[trigger] s@[j],
                ),
            value == digits_value(s@.subrange(if signed { 1int } else { 0int }, it.index() as int)),
    {
        let ghost idx = it.index() as int;
        if at_start && c == '+' {
            signed = true;
            assert(s@.subrange(1, 1) =~= Seq::<char>::empty());
        } else if '0' <= c && c <= '9' {
            let d: usize = (c as u32 - '0' as u32) as usize;
            let ghost start = if signed { 1int } else { 0int };
            let ghost body = if signed { s@.skip(1) } else { s@ };
            proof {
                assert(s@.subrange(start, idx + 1).drop_last() =~= s@.subrange(start, idx));
                assert(s@.subrange(start, idx + 1).last() == c);
                assert(s@.subrange(start, idx + 1) =~= body.take(idx + 1 - start));
                lemma_digits_value_grows(body, idx + 1 - start);
            }
            let scaled = match value.checked_mul(10) {
                Some(v) => v,
                None => { return None; },
            };
            value = match scaled.checked_add(d) {
                Some(v) => v,
                None => { return None; },
            };
            any_digit = true;
        } else {
            proof {
                let start = if signed { 1int } else { 0int };
                let body = if signed { s@.skip(1) } else { s@ };
                assert(s@[idx] == c);
                assert(signed <==> s@[0] == '+');
                assert(body[idx - start] == c);
                assert(!is_digit(body[idx - start]));
                assert(body == without_plus(s@));
            }
            return None;
        }
        at_start = false;
    }
    proof {
        let start = if signed { 1int } else { 0int };
        let body = if signed { s@.skip(1) } else { s@ };
        assert(s@.subrange(start, s@.len() as int) =~= body);
        assert(body == without_plus(s@));
        assert(forall|i: int| 0 <= i < body.len() ==> body[i] == s@[i + start]);
    }
    if any_digit {
        Some(value)
    } else {
        None
    }
}

/// What is written in base ten reads back as the same number.
pub proof fn law_decimal_reads_back(n: nat)
    ensures
        decimal(n).len() > 0,
        all_digits(decimal(n)),
        digits_value(decimal(n)) == n,
        parsed_decimal(decimal(n)) == Some(n),
    decreases n,
{
    let text = decimal(n);
    if n < 10 {
        assert(text.drop_last() =~= Seq::<char>::empty());
        assert(digits_value(text.drop_last()) == 0);
        assert(text.last() == digit(n));
    } else {
        law_decimal_reads_back(n / 10);
        assert(text.drop_last() =~= decimal(n / 10));
        assert(text.last() == digit(n % 10));
        assert forall|i: int| 0 <= i < text.len() implies is_digit(#[trigger] text[i]) by {
            if i < text.len() - 1 {
                assert(text[i] == decimal(n / 10)[i]);
            }
        }
    }
    assert(is_digit(text[0]));
    assert(without_plus(text) == text);
}

} // verus!
