//! Character-level text handling shared by the rest of the library:
//! whitespace-separated words, `.`-separated name segments and decimal numbers.

use vstd::prelude::*;
use vstd::string::StrSliceExecFns;

verus! {

/// `c` has the Unicode `White_Space` property, which is what `char::is_whitespace` tests.
pub open spec fn is_white_space(c: char) -> bool {
    let n = c as u32;
    ||| n == 0x09 || n == 0x0A || n == 0x0B || n == 0x0C || n == 0x0D || n == 0x20
    ||| n == 0x85 || n == 0xA0 || n == 0x1680
    ||| 0x2000 <= n && n <= 0x200A
    ||| n == 0x2028 || n == 0x2029 || n == 0x202F || n == 0x205F || n == 0x3000
}

/// Decides `is_white_space`.
pub fn is_white_space_char(c: char) -> (r: bool)
    ensures
        r == is_white_space(c),
{
    let n = c as u32;
    n == 0x09 || n == 0x0A || n == 0x0B || n == 0x0C || n == 0x0D || n == 0x20 || n == 0x85
        || n == 0xA0 || n == 0x1680 || (0x2000 <= n && n <= 0x200A) || n == 0x2028 || n
        == 0x2029 || n == 0x202F || n == 0x205F || n == 0x3000
}

/// The characters of `s`, in order.
pub fn chars_of(s: &str) -> (v: Vec<char>)
    ensures
        v@ == s@,
{
    let n = s.unicode_len();
    let mut v: Vec<char> = Vec::new();
    let mut i: usize = 0;
    while i < n
        invariant
            n == s@.len(),
            i <= n,
            v@ == s@.subrange(0, i as int),
        decreases n - i,
    {
        v.push(s.get_char(i));
        i += 1;
        assert(v@ =~= s@.subrange(0, i as int));
    }
    assert(v@ =~= s@);
    v
}

/// Calls `String::push(s, c)`. Claimed of it, as std documents it: afterwards `s` holds
/// its old text followed by `c`.
#[verifier::external_body]
pub(crate) fn push_char(s: &mut String, c: char)
    ensures
        final(s)@ == old(s)@.push(c),
{
    s.push(c);
}

/// A copy of `s` as an owned string.
pub fn owned(s: &str) -> (r: String)
    ensures
        r@ == s@,
{
    s.to_owned()
}

/// `a` followed by `b`.
pub fn join2(a: &str, b: &str) -> (r: String)
    ensures
        r@ == a@ + b@,
{
    let mut r = a.to_owned();
    vstd::string::StringExecFns::append(&mut r, b);
    r
}

/// `a`, then `b`, then `c`.
pub fn join3(a: &str, b: &str, c: &str) -> (r: String)
    ensures
        r@ == a@ + b@ + c@,
{
    let mut r = a.to_owned();
    vstd::string::StringExecFns::append(&mut r, b);
    vstd::string::StringExecFns::append(&mut r, c);
    r
}

/// The two strings hold the same characters.
pub fn same_text(a: &str, b: &str) -> (r: bool)
    ensures
        r == (a@ == b@),
{
    let x = chars_of(a);
    let y = chars_of(b);
    if x.len() != y.len() {
        return false;
    }
    let mut i: usize = 0;
    while i < x.len()
        invariant
            x@ == a@,
            y@ == b@,
            x@.len() == y@.len(),
            i <= x@.len(),
            forall|k: int| 0 <= k < i ==> x@[k] == y@[k],
        decreases x@.len() - i,
    {
        if x[i] != y[i] {
            return false;
        }
        i += 1;
    }
    assert(a@ =~= b@);
    true
}

// ----- whitespace-separated words ------------------------------------------------------------

/// `s` without its leading whitespace.
pub open spec fn skip_white_space(s: Seq<char>) -> Seq<char>
    decreases s.len(),
{
    if s.len() > 0 && is_white_space(s[0]) {
        skip_white_space(s.drop_first())
    } else {
        s
    }
}

/// The longest prefix of `s` that holds no whitespace.
pub open spec fn leading_word(s: Seq<char>) -> Seq<char>
    decreases s.len(),
{
    if s.len() == 0 || is_white_space(s[0]) {
        seq![]
    } else {
        seq![s[0]] + leading_word(s.drop_first())
    }
}

/// One step of splitting `s` at whitespace, as `str::split_whitespace` does it: the next
/// word and the text after it, or `None` when only whitespace is left.
pub open spec fn next_word(s: Seq<char>) -> Option<(Seq<char>, Seq<char>)> {
    let t = skip_white_space(s);
    if t.len() == 0 {
        None
    } else {
        let w = leading_word(t);
        Some((w, t.skip(w.len() as int)))
    }
}

/// The second whitespace-separated word of `s`, if it has one.
pub open spec fn second_word(s: Seq<char>) -> Option<Seq<char>> {
    match next_word(s) {
        Some((_, rest)) => match next_word(rest) {
            Some((w, _)) => Some(w),
            None => None,
        },
        None => None,
    }
}

proof fn lemma_skip_white_space_step(s: Seq<char>, i: int)
    requires
        0 <= i < s.len(),
        is_white_space(s[i]),
    ensures
        skip_white_space(s.skip(i)) == skip_white_space(s.skip(i + 1)),
{
    assert(s.skip(i).drop_first() =~= s.skip(i + 1));
}

proof fn lemma_leading_word_step(s: Seq<char>, i: int)
    requires
        0 <= i < s.len(),
        !is_white_space(s[i]),
    ensures
        leading_word(s.skip(i)) == seq![s[i]] + leading_word(s.skip(i + 1)),
{
    assert(s.skip(i).drop_first() =~= s.skip(i + 1));
}

/// Where the next word of `cs` after position `from` starts and ends.
fn next_word_span(cs: &Vec<char>, from: usize) -> (r: Option<(usize, usize)>)
    requires
        from <= cs@.len(),
    ensures
        match r {
            None => next_word(cs@.skip(from as int)) is None,
            Some((a, b)) => {
                &&& from <= a < b <= cs@.len()
                &&& next_word(cs@.skip(from as int)) == Some(
                    (cs@.subrange(a as int, b as int), cs@.skip(b as int)),
                )
            },
        },
{
    let n = cs.len();
    let mut a = from;
    while a < n && is_white_space_char(cs[a])
        invariant
            n == cs@.len(),
            from <= a <= n,
            skip_white_space(cs@.skip(from as int)) == skip_white_space(cs@.skip(a as int)),
        decreases n - a,
    {
        proof {
            lemma_skip_white_space_step(cs@, a as int);
        }
        a += 1;
    }
    assert(skip_white_space(cs@.skip(a as int)) == cs@.skip(a as int));
    if a == n {
        return None;
    }
    let mut b = a;
    while b < n && !is_white_space_char(cs[b])
        invariant
            n == cs@.len(),
            a <= b <= n,
            leading_word(cs@.skip(a as int)) == cs@.subrange(a as int, b as int) + leading_word(
                cs@.skip(b as int),
            ),
        decreases n - b,
    {
        proof {
            lemma_leading_word_step(cs@, b as int);
            assert(cs@.subrange(a as int, b as int) + seq![cs@[b as int]] =~= cs@.subrange(
                a as int,
                b + 1,
            ));
        }
        b += 1;
    }
    assert(leading_word(cs@.skip(b as int)) =~= seq![]);
    assert(leading_word(cs@.skip(a as int)) =~= cs@.subrange(a as int, b as int));
    assert(cs@.skip(a as int).skip(b - a) =~= cs@.skip(b as int));
    Some((a, b))
}

/// The second whitespace-separated word of `s`, which is what
/// `s.split_whitespace()` yields on its second step.
pub fn second_word_of(s: &str) -> (r: Option<String>)
    ensures
        match r {
            Some(w) => second_word(s@) == Some(w@),
            None => second_word(s@) is None,
        },
{
    let cs = chars_of(s);
    assert(cs@.skip(0) =~= cs@);
    match next_word_span(&cs, 0) {
        None => None,
        Some((_a, b)) => match next_word_span(&cs, b) {
            None => None,
            Some((c, d)) => Some(s.substring_char(c, d).to_owned()),
        },
    }
}


// ----- `.`-separated segments ----------------------------------------------------------------

/// The part of `s` before its first `sep`, or all of `s` when there is none: what
/// `s.split(sep).next()` yields.
pub open spec fn before_first(s: Seq<char>, sep: char) -> Seq<char>
    decreases s.len(),
{
    if s.len() == 0 || s[0] == sep {
        seq![]
    } else {
        seq![s[0]] + before_first(s.drop_first(), sep)
    }
}

/// The part of `s` after its last `sep`, or all of `s` when there is none: what
/// `s.split(sep).last()` yields.
pub open spec fn after_last(s: Seq<char>, sep: char) -> Seq<char>
    decreases s.len(),
{
    if s.len() == 0 || s.last() == sep {
        seq![]
    } else {
        after_last(s.drop_last(), sep).push(s.last())
    }
}

/// The text before the first `sep` in `s` (all of `s` when `sep` does not occur).
pub fn text_before_first(s: &str, sep: char) -> (r: String)
    ensures
        r@ == before_first(s@, sep),
{
    let cs = chars_of(s);
    let n = cs.len();
    let mut i: usize = 0;
    assert(cs@.skip(0) =~= cs@);
    while i < n && cs[i] != sep
        invariant
            n == cs@.len(),
            cs@ == s@,
            i <= n,
            before_first(cs@, sep) == cs@.subrange(0, i as int) + before_first(
                cs@.skip(i as int),
                sep,
            ),
        decreases n - i,
    {
        assert(cs@.skip(i as int).drop_first() =~= cs@.skip(i + 1));
        assert(cs@.subrange(0, i as int) + seq![cs@[i as int]] =~= cs@.subrange(0, i + 1));
        i += 1;
    }
    assert(before_first(cs@.skip(i as int), sep) =~= seq![]);
    assert(before_first(cs@, sep) =~= cs@.subrange(0, i as int));
    s.substring_char(0, i).to_owned()
}

/// The text after the last `sep` in `s` (all of `s` when `sep` does not occur).
pub fn text_after_last(s: &str, sep: char) -> (r: String)
    ensures
        r@ == after_last(s@, sep),
{
    let cs = chars_of(s);
    let n = cs.len();
    let mut j: usize = n;
    assert(cs@.take(n as int) =~= cs@);
    assert(cs@.subrange(n as int, n as int) =~= seq![]);
    while j > 0 && cs[j - 1] != sep
        invariant
            n == cs@.len(),
            cs@ == s@,
            j <= n,
            after_last(cs@, sep) == after_last(cs@.take(j as int), sep) + cs@.subrange(
                j as int,
                n as int,
            ),
        decreases j,
    {
        assert(cs@.take(j as int).drop_last() =~= cs@.take(j - 1));
        assert(seq![cs@[j - 1]] + cs@.subrange(j as int, n as int) =~= cs@.subrange(
            j - 1,
            n as int,
        ));
        assert(after_last(cs@.take(j as int), sep) == after_last(cs@.take(j - 1), sep).push(
            cs@[j - 1],
        ));
        assert(after_last(cs@.take(j - 1), sep).push(cs@[j - 1]) + cs@.subrange(
            j as int,
            n as int,
        ) =~= after_last(cs@.take(j - 1), sep) + cs@.subrange(j - 1, n as int));
        j -= 1;
    }
    assert(after_last(cs@.take(j as int), sep) =~= seq![]);
    assert(after_last(cs@, sep) =~= cs@.subrange(j as int, n as int));
    s.substring_char(j, n).to_owned()
}

/// Splitting `a`, `sep`, `b` at its first `sep` gives back `a` when `a` has no `sep`.
pub proof fn lemma_before_first_of_joined(a: Seq<char>, sep: char, b: Seq<char>)
    requires
        !a.contains(sep),
    ensures
        before_first(a + seq![sep] + b, sep) == a,
    decreases a.len(),
{
    if a.len() == 0 {
        assert((a + seq![sep] + b)[0] == sep);
    } else {
        assert(!a.drop_first().contains(sep)) by {
            if a.drop_first().contains(sep) {
                let k = choose|k: int| 0 <= k < a.drop_first().len() && a.drop_first()[k] == sep;
                assert(a[k + 1] == sep);
            }
        }
        assert(a[0] != sep);
        lemma_before_first_of_joined(a.drop_first(), sep, b);
        assert((a + seq![sep] + b).drop_first() =~= a.drop_first() + seq![sep] + b);
        assert(seq![a[0]] + a.drop_first() =~= a);
    }
}

/// Splitting `a`, `sep`, `b` at its last `sep` gives back `b` when `b` has no `sep`.
pub proof fn lemma_after_last_of_joined(a: Seq<char>, sep: char, b: Seq<char>)
    requires
        !b.contains(sep),
    ensures
        after_last(a + seq![sep] + b, sep) == b,
    decreases b.len(),
{
    if b.len() == 0 {
        assert((a + seq![sep] + b).last() == sep);
    } else {
        assert(!b.drop_last().contains(sep)) by {
            if b.drop_last().contains(sep) {
                let k = choose|k: int| 0 <= k < b.drop_last().len() && b.drop_last()[k] == sep;
                assert(b[k] == sep);
            }
        }
        assert(b.last() != sep);
        lemma_after_last_of_joined(a, sep, b.drop_last());
        assert((a + seq![sep] + b).drop_last() =~= a + seq![sep] + b.drop_last());
        assert(b.drop_last().push(b.last()) =~= b);
    }
}

/// The segment after the last `sep` never holds `sep`.
pub proof fn lemma_after_last_has_no_sep(s: Seq<char>, sep: char)
    ensures
        !after_last(s, sep).contains(sep),
    decreases s.len(),
{
    if s.len() > 0 && s.last() != sep {
        lemma_after_last_has_no_sep(s.drop_last(), sep);
        let t = after_last(s.drop_last(), sep);
        assert forall|k: int| 0 <= k < t.push(s.last()).len() implies t.push(s.last())[k]
            != sep by {
            if k < t.len() {
                assert(t.push(s.last())[k] == t[k]);
            }
        }
    }
}

// ----- decimal numbers -----------------------------------------------------------------------

/// The decimal digit that stands for `d` (`d < 10`).
pub open spec fn digit_char(d: int) -> char {
    if d == 0 {
        '0'
    } else if d == 1 {
        '1'
    } else if d == 2 {
        '2'
    } else if d == 3 {
        '3'
    } else if d == 4 {
        '4'
    } else if d == 5 {
        '5'
    } else if d == 6 {
        '6'
    } else if d == 7 {
        '7'
    } else if d == 8 {
        '8'
    } else {
        '9'
    }
}

/// `c` is one of `0`..`9`.
pub open spec fn is_digit(c: char) -> bool {
    '0' <= c && c <= '9'
}

/// The value of the digit `c`.
pub open spec fn digit_value(c: char) -> int {
    (c as u32) - ('0' as u32)
}

/// The decimal digits of `n`, most significant first, without leading zeros.
pub open spec fn decimal_digits(n: nat) -> Seq<char>
    decreases n,
{
    if n < 10 {
        seq![digit_char(n as int)]
    } else {
        decimal_digits(n / 10).push(digit_char((n % 10) as int))
    }
}

/// `n` written in decimal, with a leading `-` when it is negative, as `Display` writes integers.
pub open spec fn decimal_text(n: int) -> Seq<char> {
    if n < 0 {
        seq!['-'] + decimal_digits((-n) as nat)
    } else {
        decimal_digits(n as nat)
    }
}

fn digit(d: u64) -> (c: char)
    requires
        d < 10,
    ensures
        c == digit_char(d as int),
{
    if d == 0 {
        '0'
    } else if d == 1 {
        '1'
    } else if d == 2 {
        '2'
    } else if d == 3 {
        '3'
    } else if d == 4 {
        '4'
    } else if d == 5 {
        '5'
    } else if d == 6 {
        '6'
    } else if d == 7 {
        '7'
    } else if d == 8 {
        '8'
    } else {
        '9'
    }
}

fn push_decimal_digits(out: &mut String, n: u64)
    ensures
        final(out)@ == old(out)@ + decimal_digits(n as nat),
    decreases n,
{
    if n >= 10 {
        push_decimal_digits(out, n / 10);
    }
    push_char(out, digit(n % 10));
    assert(final(out)@ =~= old(out)@ + decimal_digits(n as nat)) by {
        if n >= 10 {
            assert(decimal_digits(n as nat) == decimal_digits((n / 10) as nat).push(
                digit_char((n % 10) as int),
            ));
        }
    }
}

/// `n` in decimal.
pub fn decimal_u64(n: u64) -> (r: String)
    ensures
        r@ == decimal_text(n as int),
{
    let mut r = String::new();
    push_decimal_digits(&mut r, n);
    assert(r@ =~= decimal_text(n as int));
    r
}

/// `n` in decimal, with a leading `-` when it is negative.
pub fn decimal_i64(n: i64) -> (r: String)
    ensures
        r@ == decimal_text(n as int),
{
    let mut r = String::new();
    if n < 0 {
        push_char(&mut r, '-');
        let m: u64 = (-(n as i128)) as u64;
        push_decimal_digits(&mut r, m);
    } else {
        push_decimal_digits(&mut r, n as u64);
    }
    assert(r@ =~= decimal_text(n as int));
    r
}

/// Every character of `s` is a decimal digit.
pub open spec fn all_digits(s: Seq<char>) -> bool {
    forall|i: int| 0 <= i < s.len() ==> is_digit(#[trigger] s[i])
}

/// The number that the digits `s` stand for.
pub open spec fn digits_value(s: Seq<char>) -> int
    decreases s.len(),
{
    if s.len() == 0 {
        0
    } else {
        digits_value(s.drop_last()) * 10 + digit_value(s.last())
    }
}

/// The integer that `str::parse` reads from `s`: an optional `+` or `-`, then one or more
/// decimal digits and nothing else.
pub open spec fn parsed_integer(s: Seq<char>) -> Option<int> {
    if s.len() > 0 && (s[0] == '+' || s[0] == '-') {
        let body = s.drop_first();
        if body.len() > 0 && all_digits(body) {
            Some(
                if s[0] == '-' {
                    -digits_value(body)
                } else {
                    digits_value(body)
                },
            )
        } else {
            None
        }
    } else if s.len() > 0 && all_digits(s) {
        Some(digits_value(s))
    } else {
        None
    }
}

proof fn lemma_digits_value_grows(s: Seq<char>, i: int)
    requires
        all_digits(s),
        0 <= i <= s.len(),
    ensures
        0 <= digits_value(s.take(i)) <= digits_value(s),
    decreases s.len(),
{
    if s.len() > 0 {
        assert(all_digits(s.drop_last()));
        if i == s.len() {
            assert(s.take(i) =~= s);
            lemma_digits_value_grows(s.drop_last(), i - 1);
            assert(s.drop_last().take(i - 1) =~= s.drop_last());
        } else {
            lemma_digits_value_grows(s.drop_last(), i);
            assert(s.drop_last().take(i) =~= s.take(i));
            lemma_digits_value_grows(s.drop_last(), s.len() - 1);
            assert(s.drop_last().take(s.len() - 1) =~= s.drop_last());
            assert(is_digit(s[s.len() - 1]));
        }
    } else {
        assert(s.take(i) =~= s);
    }
}

/// Reads the integer that `parsed_integer` describes, as `str::parse::<i64>` does: `None`
/// when `s` is not such a number or the number does not fit in an `i64`.
pub fn parse_i64(s: &str) -> (r: Option<i64>)
    ensures
        match r {
            Some(v) => parsed_integer(s@) == Some(v as int),
            None => match parsed_integer(s@) {
                Some(v) => v < i64::MIN || v > i64::MAX,
                None => true,
            },
        },
{
    let cs = chars_of(s);
    let n = cs.len();
    if n == 0 {
        return None;
    }
    let negative = cs[0] == '-';
    let start: usize = if cs[0] == '+' || cs[0] == '-' {
        1
    } else {
        0
    };
    if start == n {
        return None;
    }
    let ghost body = cs@.skip(start as int);
    assert(start == 1 ==> body =~= cs@.drop_first());
    assert(start == 0 ==> body =~= cs@);
    let limit: i128 = 9223372036854775808;
    let mut acc: i128 = 0;
    let mut i = start;
    assert(body.take(0) =~= seq![]);
    while i < n
        invariant
            n == cs@.len(),
            cs@ == s@,
            start <= i <= n,
            start < n,
            body == cs@.skip(start as int),
            start == 1 ==> body == cs@.drop_first(),
            start == 0 ==> body == cs@,
            (start == 1) == (cs@[0] == '+' || cs@[0] == '-'),
            start == 0 || start == 1,
            negative == (cs@[0] == '-'),
            limit == 9223372036854775808,
            forall|k: int| start <= k < i ==> is_digit(#[trigger] cs@[k]),
            acc == digits_value(body.take(i - start)),
            0 <= acc <= limit,
        decreases n - i,
    {
        let c = cs[i];
        if !('0' <= c && c <= '9') {
            assert(!all_digits(body)) by {
                assert(body[i - start] == c);
            }
            return None;
        }
        let d = (c as u32 - '0' as u32) as i128;
        assert(body.take(i - start + 1).drop_last() =~= body.take(i - start));
        assert(body.take(i - start + 1).last() == c);
        acc = acc * 10 + d;
        i += 1;
        if acc > limit {
            assert(all_digits(body) ==> digits_value(body) > limit) by {
                if all_digits(body) {
                    lemma_digits_value_grows(body, i - start);
                }
            }
            return None;
        }
    }
    assert(body.take(n - start) =~= body);
    assert(all_digits(body));
    if negative {
        assert(parsed_integer(s@) == Some(-digits_value(body)));
        Some((-acc) as i64)
    } else if acc == limit {
        None
    } else {
        Some(acc as i64)
    }
}

proof fn lemma_digit_char_value(d: int)
    requires
        0 <= d < 10,
    ensures
        is_digit(digit_char(d)),
        digit_value(digit_char(d)) == d,
{
}

/// The decimal digits of `n` are digits, at least one, and read back as `n`.
proof fn lemma_decimal_digits_value(n: nat)
    ensures
        decimal_digits(n).len() > 0,
        all_digits(decimal_digits(n)),
        digits_value(decimal_digits(n)) == n,
    decreases n,
{
    if n < 10 {
        lemma_digit_char_value(n as int);
        let d = decimal_digits(n);
        assert(d.drop_last() =~= Seq::<char>::empty());
        assert(digits_value(d) == digits_value(d.drop_last()) * 10 + digit_value(d.last()));
    } else {
        lemma_decimal_digits_value(n / 10);
        lemma_digit_char_value((n % 10) as int);
        let s = decimal_digits(n / 10);
        let d = decimal_digits(n);
        assert(d.drop_last() =~= s);
        assert(d.last() == digit_char((n % 10) as int));
        assert(digits_value(d) == digits_value(s) * 10 + digit_value(d.last()));
        assert((n / 10) * 10 + n % 10 == n) by (nonlinear_arith);
    }
}

/// An integer written in decimal is read back as the same integer: what `decimal_i64`
/// writes, `parse_i64` reads.
pub proof fn lemma_decimal_text_parses_back(n: int)
    ensures
        parsed_integer(decimal_text(n)) == Some(n),
{
    if n < 0 {
        lemma_decimal_digits_value((-n) as nat);
        let t = decimal_text(n);
        assert(t.drop_first() =~= decimal_digits((-n) as nat));
    } else {
        lemma_decimal_digits_value(n as nat);
        let d = decimal_digits(n as nat);
        assert(is_digit(d[0]));
    }
}

/// Different integers are written differently.
pub proof fn lemma_decimal_text_injective(a: int, b: int)
    requires
        decimal_text(a) == decimal_text(b),
    ensures
        a == b,
{
    lemma_decimal_text_parses_back(a);
    lemma_decimal_text_parses_back(b);
}

} // verus!
