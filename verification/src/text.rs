//! Character-level helpers shared by the parsers and the URL builders.

use vstd::prelude::*;
use vstd::string::StringSliceAdditionalSpecFns;
use vstd::utf8::encode_utf8_decode_utf8;

verus! {

/// `String::push` appends one character.
pub assume_specification[ String::push ](s: &mut String, c: char)
    ensures
        final(s)@ == old(s)@.push(c),
;

/// The characters of `s`, in order.
pub fn chars_of(s: &str) -> (out: Vec<char>)
    ensures
        out@ == s@,
{
    let mut out: Vec<char> = Vec::new();
    for c in it: s.chars()
        invariant
            it.seq() == s@,
            out@ == s@.take(it.index() as int),
    {
        out.push(c);
    }
    out
}

/// The string made of the characters `v[from..to]`.
pub fn string_of(v: &Vec<char>, from: usize, to: usize) -> (out: String)
    requires
        from <= to <= v.len(),
    ensures
        out@ == v@.subrange(from as int, to as int),
{
    let mut out = String::new();
    let mut i: usize = from;
    while i < to
        invariant
            from <= i <= to <= v.len(),
            out@ == v@.subrange(from as int, i as int),
        decreases to - i,
    {
        out.push(v[i]);
        i += 1;
    }
    out
}

/// Whether two strings hold the same characters.
pub fn same_text(a: &str, b: &str) -> (r: bool)
    ensures
        r == (a@ == b@),
{
    let x = a.as_bytes();
    let y = b.as_bytes();
    proof {
        encode_utf8_decode_utf8(a@);
        encode_utf8_decode_utf8(b@);
    }
    if x.len() != y.len() {
        return false;
    }
    let mut i: usize = 0;
    while i < x.len()
        invariant
            i <= x.len(),
            x.len() == y.len(),
            x@ == a.spec_bytes(),
            y@ == b.spec_bytes(),
            forall|k: int| 0 <= k < i ==> x@[k] == y@[k],
        decreases x.len() - i,
    {
        if x[i] != y[i] {
            return false;
        }
        i += 1;
    }
    assert(x@ =~= y@);
    true
}

/// A decimal digit, `0` to `9`.
pub open spec fn is_digit(c: char) -> bool {
    '0' <= c <= '9'
}

/// The number a decimal digit stands for.
pub open spec fn digit_value(c: char) -> nat {
    (c as u32 - '0' as u32) as nat
}

/// The number that a run of decimal digits writes, most significant first.
pub open spec fn digits_value(s: Seq<char>) -> nat
    decreases s.len(),
{
    if s.len() == 0 {
        0
    } else {
        digits_value(s.drop_last()) * 10 + digit_value(s.last())
    }
}

/// Every character of `s` is a decimal digit.
pub open spec fn all_digits(s: Seq<char>) -> bool {
    forall|i: int| 0 <= i < s.len() ==> is_digit(#[trigger] s[i])
}

/// `s` without one leading plus sign, if it has one.
pub open spec fn without_plus(s: Seq<char>) -> Seq<char> {
    if s.len() > 0 && s[0] == '+' {
        s.drop_first()
    } else {
        s
    }
}

/// What `s` reads as when taken for an unsigned 64-bit decimal number: an
/// optional `+`, then at least one digit and nothing else, the value within
/// range.
pub open spec fn decimal_u64(s: Seq<char>) -> Option<u64> {
    let body = without_plus(s);
    if body.len() > 0 && all_digits(body) && digits_value(body) <= u64::MAX {
        Some(digits_value(body) as u64)
    } else {
        None
    }
}

/// A longer run of digits never writes a smaller number than its prefix.
pub proof fn lemma_digits_value_grows(s: Seq<char>, k: int)
    requires
        0 <= k <= s.len(),
    ensures
        digits_value(s.take(k)) <= digits_value(s),
    decreases s.len() - k,
{
    if k == s.len() {
        assert(s.take(k) =~= s);
    } else {
        lemma_digits_value_grows(s, k + 1);
        assert(s.take(k + 1).drop_last() =~= s.take(k));
    }
}

/// Reads an unsigned 64-bit decimal number.
pub fn parse_u64(s: &str) -> (r: Option<u64>)
    ensures
        r == decimal_u64(s@),
{
    let v = chars_of(s);
    let start: usize = if v.len() > 0 && v[0] == '+' { 1 } else { 0 };
    let ghost body = without_plus(v@);
    if start == v.len() {
        return None;
    }
    let mut acc: u64 = 0;
    let mut i: usize = start;
    while i < v.len()
        invariant
            start <= i <= v.len(),
            v@ == s@,
            body == without_plus(v@),
            body == v@.subrange(start as int, v@.len() as int),
            all_digits(body.take(i - start)),
            acc == digits_value(body.take(i - start)),
        decreases v.len() - i,
    {
        let c = v[i];
        let ghost k = i - start;
        assert(body.take(k + 1).drop_last() =~= body.take(k));
        if !(c >= '0' && c <= '9') {
            assert(!is_digit(body[k]));
            return None;
        }
        let d: u64 = (c as u32 - '0' as u32) as u64;
        proof {
            lemma_digits_value_grows(body, k + 1);
        }
        if acc > (u64::MAX - d) / 10 {
            return None;
        }
        acc = acc * 10 + d;
        i += 1;
    }
    assert(body.take(body.len() as int) =~= body);
    Some(acc)
}

/// The character that writes the digit `d`.
pub open spec fn digit_char(d: nat) -> char {
    ((48 + d) as u8) as char
}

/// The decimal digits of `n`, most significant first, without leading zeros.
pub open spec fn decimal_digits(n: nat) -> Seq<char>
    decreases n,
{
    if n < 10 {
        seq![digit_char(n)]
    } else {
        decimal_digits(n / 10).push(digit_char(n % 10))
    }
}

/// What is written as decimal digits reads as the number it was written
/// for.
pub proof fn lemma_decimal_round_trip(n: u64)
    ensures
        decimal_u64(decimal_digits(n as nat)) == Some(n),
{
    lemma_decimal_digits_value(n as nat);
}

/// The decimal digits of `n` are digits, at least one, and they write `n`.
pub proof fn lemma_decimal_digits_value(n: nat)
    ensures
        decimal_digits(n).len() > 0,
        all_digits(decimal_digits(n)),
        digits_value(decimal_digits(n)) == n,
    decreases n,
{
    if n < 10 {
        let s = decimal_digits(n);
        lemma_digit_char(n);
        assert(digits_value(s.drop_last()) == 0);
    } else {
        lemma_decimal_digits_value(n / 10);
        let s = decimal_digits(n);
        assert(s.drop_last() =~= decimal_digits(n / 10));
        lemma_digit_char(n % 10);
    }
}

/// The character of a digit is a digit and stands for it.
pub proof fn lemma_digit_char(d: nat)
    requires
        d < 10,
    ensures
        is_digit(digit_char(d)),
        digit_value(digit_char(d)) == d,
{
}

fn push_decimal(out: &mut String, n: u64)
    ensures
        final(out)@ == old(out)@ + decimal_digits(n as nat),
    decreases n,
{
    if n >= 10 {
        push_decimal(out, n / 10);
    }
    let d: u8 = (n % 10) as u8;
    out.push((48 + d) as char);
}

/// Writes `n` in decimal.
pub fn decimal_text(n: u64) -> (out: String)
    ensures
        out@ == decimal_digits(n as nat),
{
    let mut out = String::new();
    push_decimal(&mut out, n);
    out
}

/// How many characters at the start of `s` are none of `stops`.
pub open spec fn run_length(s: Seq<char>, stops: Seq<char>) -> nat
    decreases s.len(),
{
    if s.len() == 0 || stops.contains(s[0]) {
        0
    } else {
        1 + run_length(s.drop_first(), stops)
    }
}

/// The start of `s` up to, and without, the first of `stops`; all of `s` where
/// none occurs.
pub open spec fn until_any(s: Seq<char>, stops: Seq<char>) -> Seq<char> {
    s.take(run_length(s, stops) as int)
}

/// The run never leaves the sequence.
pub proof fn lemma_run_length_bound(s: Seq<char>, stops: Seq<char>)
    ensures
        run_length(s, stops) <= s.len(),
    decreases s.len(),
{
    if s.len() > 0 && !stops.contains(s[0]) {
        lemma_run_length_bound(s.drop_first(), stops);
    }
}

fn is_one_of(c: char, stops: &Vec<char>) -> (r: bool)
    ensures
        r == stops@.contains(c),
{
    let mut j: usize = 0;
    while j < stops.len()
        invariant
            j <= stops.len(),
            forall|k: int| 0 <= k < j ==> stops@[k] != c,
        decreases stops.len() - j,
    {
        if stops[j] == c {
            return true;
        }
        j += 1;
    }
    false
}

/// Where the run of characters that are none of `stops` ends, counted from
/// the start of `v`, for the run that begins at `from`.
pub fn run_end(v: &Vec<char>, from: usize, stops: &Vec<char>) -> (end: usize)
    requires
        from <= v.len(),
    ensures
        from <= end <= v.len(),
        end - from == run_length(v@.skip(from as int), stops@),
        v@.subrange(from as int, end as int) == until_any(v@.skip(from as int), stops@),
{
    let mut i: usize = from;
    while i < v.len() && !is_one_of(v[i], stops)
        invariant
            from <= i <= v.len(),
            run_length(v@.skip(from as int), stops@) == (i - from) + run_length(
                v@.skip(i as int),
                stops@,
            ),
        decreases v.len() - i,
    {
        assert(v@.skip(i as int).drop_first() =~= v@.skip(i + 1));
        i += 1;
    }
    i
}

/// Whether `needle` stands in `hay` at position `at`.
pub open spec fn occurs_at(hay: Seq<char>, needle: Seq<char>, at: int) -> bool {
    0 <= at && at + needle.len() <= hay.len() && hay.subrange(at, at + needle.len()) == needle
}

/// What follows the first occurrence of `needle` in `hay`, if there is one.
pub open spec fn after_first(hay: Seq<char>, needle: Seq<char>) -> Option<Seq<char>>
    decreases hay.len(),
{
    if occurs_at(hay, needle, 0) {
        Some(hay.skip(needle.len() as int))
    } else if hay.len() == 0 {
        None
    } else {
        after_first(hay.drop_first(), needle)
    }
}

/// A text shorter than `needle` does not hold it.
pub proof fn lemma_too_short_to_hold(hay: Seq<char>, needle: Seq<char>)
    requires
        hay.len() < needle.len(),
    ensures
        after_first(hay, needle) is None,
    decreases hay.len(),
{
    if hay.len() > 0 {
        lemma_too_short_to_hold(hay.drop_first(), needle);
    }
}

fn matches_at(hay: &Vec<char>, needle: &Vec<char>, at: usize) -> (r: bool)
    requires
        at + needle.len() <= hay.len(),
    ensures
        r == occurs_at(hay@, needle@, at as int),
{
    let mut j: usize = 0;
    while j < needle.len()
        invariant
            j <= needle.len(),
            at + needle.len() <= hay.len(),
            forall|k: int| 0 <= k < j ==> hay@[at + k] == needle@[k],
        decreases needle.len() - j,
    {
        if hay[at + j] != needle[j] {
            return false;
        }
        j += 1;
    }
    assert(hay@.subrange(at as int, at + needle@.len()) =~= needle@);
    true
}

/// The position just behind the first occurrence of `needle` in `hay`.
pub fn find_after(hay: &Vec<char>, needle: &Vec<char>) -> (r: Option<usize>)
    ensures
        match r {
            Some(p) => p <= hay.len() && after_first(hay@, needle@) == Some(hay@.skip(p as int)),
            None => after_first(hay@, needle@) is None,
        },
{
    let mut i: usize = 0;
    assert(hay@.skip(0) =~= hay@);
    while needle.len() <= hay.len() - i
        invariant
            i <= hay.len(),
            after_first(hay@, needle@) == after_first(hay@.skip(i as int), needle@),
        decreases hay.len() - i,
    {
        let ghost rest = hay@.skip(i as int);
        assert(rest.subrange(0, needle@.len() as int) =~= hay@.subrange(
            i as int,
            i + needle@.len(),
        ));
        if matches_at(hay, needle, i) {
            return Some(i + needle.len());
        }
        assert(i < hay.len()) by {
            if i == hay.len() {
                assert(rest.subrange(0, 0) =~= needle@);
            }
        }
        assert(rest.drop_first() =~= hay@.skip(i + 1));
        i += 1;
    }
    proof {
        lemma_too_short_to_hold(hay@.skip(i as int), needle@);
    }
    None
}

/// White space, as Unicode's property `White_Space` has it.
pub open spec fn is_space(c: char) -> bool {
    let n = c as u32;
    0x09 <= n <= 0x0D || n == 0x20 || n == 0x85 || n == 0xA0 || n == 0x1680 || 0x2000 <= n
        <= 0x200A || n == 0x2028 || n == 0x2029 || n == 0x202F || n == 0x205F || n == 0x3000
}

/// How many characters of white space `s` starts with.
pub open spec fn leading_spaces(s: Seq<char>) -> nat
    decreases s.len(),
{
    if s.len() > 0 && is_space(s[0]) {
        1 + leading_spaces(s.drop_first())
    } else {
        0
    }
}

/// How many characters of white space `s` ends with.
pub open spec fn trailing_spaces(s: Seq<char>) -> nat
    decreases s.len(),
{
    if s.len() > 0 && is_space(s.last()) {
        1 + trailing_spaces(s.drop_last())
    } else {
        0
    }
}

/// `s` without the white space it starts with and the white space it ends
/// with.
pub open spec fn trimmed(s: Seq<char>) -> Seq<char> {
    let rest = s.skip(leading_spaces(s) as int);
    rest.take(rest.len() - trailing_spaces(rest))
}

fn is_space_char(c: char) -> (r: bool)
    ensures
        r == is_space(c),
{
    let n: u32 = c as u32;
    (0x09 <= n && n <= 0x0D) || n == 0x20 || n == 0x85 || n == 0xA0 || n == 0x1680 || (0x2000 <= n
        && n <= 0x200A) || n == 0x2028 || n == 0x2029 || n == 0x202F || n == 0x205F || n == 0x3000
}

/// Takes the white space off both ends of `s`.
pub fn trim(s: &str) -> (out: String)
    ensures
        out@ == trimmed(s@),
{
    let v = chars_of(s);
    let mut from: usize = 0;
    assert(v@.skip(0) =~= v@);
    while from < v.len() && is_space_char(v[from])
        invariant
            from <= v.len(),
            leading_spaces(v@) == from + leading_spaces(v@.skip(from as int)),
        decreases v.len() - from,
    {
        assert(v@.skip(from as int).drop_first() =~= v@.skip(from + 1));
        from += 1;
    }
    let ghost rest = v@.skip(from as int);
    let mut to: usize = v.len();
    assert(rest.take(rest.len() as int) =~= rest);
    while to > from && is_space_char(v[to - 1])
        invariant
            from <= to <= v.len(),
            rest == v@.skip(from as int),
            trailing_spaces(rest) == (v.len() - to) + trailing_spaces(rest.take(to - from)),
        decreases to,
    {
        assert(rest.take(to - from).drop_last() =~= rest.take(to - from - 1));
        to -= 1;
    }
    string_of(&v, from, to)
}

/// The `n`-th of the stretches that the separator `sep` cuts `s` into,
/// counted from zero; `None` where there are not that many.
pub open spec fn segment(s: Seq<char>, sep: char, n: nat) -> Option<Seq<char>>
    decreases n,
{
    let head = until_any(s, seq![sep]);
    if n == 0 {
        Some(head)
    } else if head.len() == s.len() {
        None
    } else {
        segment(s.skip(head.len() as int + 1), sep, (n - 1) as nat)
    }
}

/// Cuts the `n`-th stretch between separators out of `s`.
pub fn nth_segment(s: &str, sep: char, n: usize) -> (r: Option<String>)
    ensures
        match r {
            Some(part) => segment(s@, sep, n as nat) == Some(part@),
            None => segment(s@, sep, n as nat) is None,
        },
{
    let v = chars_of(s);
    let mut stops: Vec<char> = Vec::new();
    stops.push(sep);
    let mut from: usize = 0;
    let mut left: usize = n;
    assert(v@.skip(0) =~= v@);
    loop
        invariant
            from <= v.len(),
            left <= n,
            stops@ == seq![sep],
            v@ == s@,
            segment(s@, sep, n as nat) == segment(v@.skip(from as int), sep, left as nat),
        decreases left,
    {
        let end = run_end(&v, from, &stops);
        if left == 0 {
            return Some(string_of(&v, from, end));
        }
        if end == v.len() {
            proof {
                lemma_run_length_bound(v@.skip(from as int), stops@);
            }
            return None;
        }
        assert(v@.skip(from as int).skip(end - from + 1) =~= v@.skip(end + 1));
        from = end + 1;
        left -= 1;
    }
}

} // verus!
