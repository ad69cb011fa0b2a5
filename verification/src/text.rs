//! Fields, numbers and prefixes in operator text.

use vstd::prelude::*;
use vstd::string::*;

verus! {

// ---- What the functions mean ------------------------------------------------

/// Where `c` first stands in `s`, or the length of `s`.
pub open spec fn first_at(s: Seq<char>, c: char) -> int
    decreases s.len(),
{
    if s.len() == 0 || s[0] == c {
        0
    } else {
        1 + first_at(s.skip(1), c)
    }
}

/// The fields of `s` between the occurrences of `c`. There is always one.
pub open spec fn fields(s: Seq<char>, c: char) -> Seq<Seq<char>>
    decreases s.len(),
    via fields_decreases
{
    let i = first_at(s, c);
    if i >= s.len() {
        seq![s]
    } else {
        seq![s.take(i)] + fields(s.skip(i + 1), c)
    }
}

#[via_fn]
proof fn fields_decreases(s: Seq<char>, c: char) {
    first_at_range(s, c);
}

/// The characters that count as white space.
pub open spec fn is_white(c: char) -> bool {
    let u = c as u32;
    9 <= u <= 13 || u == 0x20 || u == 0x85 || u == 0xA0 || u == 0x1680 || 0x2000 <= u <= 0x200A
        || u == 0x2028 || u == 0x2029 || u == 0x202F || u == 0x205F || u == 0x3000
}

pub open spec fn without_leading_white(s: Seq<char>) -> Seq<char>
    decreases s.len(),
{
    if s.len() > 0 && is_white(s[0]) {
        without_leading_white(s.skip(1))
    } else {
        s
    }
}

pub open spec fn without_trailing_white(s: Seq<char>) -> Seq<char>
    decreases s.len(),
{
    if s.len() > 0 && is_white(s.last()) {
        without_trailing_white(s.drop_last())
    } else {
        s
    }
}

/// `s` without white space at either end.
pub open spec fn trimmed(s: Seq<char>) -> Seq<char> {
    without_trailing_white(without_leading_white(s))
}

pub open spec fn begins_with(s: Seq<char>, prefix: Seq<char>) -> bool {
    prefix.len() <= s.len() && s.take(prefix.len() as int) == prefix
}

pub open spec fn is_digit(c: char) -> bool {
    0x30 <= c as u32 <= 0x39
}

/// The number that a run of digits spells.
pub open spec fn number(s: Seq<char>) -> nat
    decreases s.len(),
{
    if s.len() == 0 {
        0
    } else {
        10 * number(s.drop_last()) + (s.last() as u32 - 0x30) as nat
    }
}

pub open spec fn all_digits(s: Seq<char>) -> bool {
    forall|i: int| 0 <= i < s.len() ==> is_digit(#[trigger] s[i])
}

/// The unsigned number that `s` spells in decimal, with a plus sign allowed,
/// where it is at most `max`.
pub open spec fn uint(s: Seq<char>, max: nat) -> Option<nat> {
    let body = if s.len() > 0 && s[0] == '+' {
        s.skip(1)
    } else {
        s
    };
    if body.len() > 0 && all_digits(body) && number(body) <= max {
        Some(number(body))
    } else {
        None
    }
}

pub open spec fn digit(n: nat) -> char {
    (0x30 + n) as char
}

/// `n` in decimal.
pub open spec fn decimal(n: nat) -> Seq<char>
    decreases n,
{
    if n < 10 {
        seq![digit(n)]
    } else {
        decimal(n / 10).push(digit(n % 10))
    }
}

/// `n` in decimal, with a sign where it is negative.
pub open spec fn signed(n: int) -> Seq<char> {
    if n < 0 {
        "-"@ + decimal((-n) as nat)
    } else {
        decimal(n as nat)
    }
}

pub open spec fn hex_digit(n: nat) -> char {
    if n < 10 {
        digit(n)
    } else {
        (0x57 + n) as char
    }
}

/// `n` in lower-case hexadecimal, without a prefix.
pub open spec fn hex_digits(n: nat) -> Seq<char>
    decreases n,
{
    if n < 16 {
        seq![hex_digit(n)]
    } else {
        hex_digits(n / 16).push(hex_digit(n % 16))
    }
}

/// `n` in hexadecimal, as an address is written.
pub open spec fn hex(n: nat) -> Seq<char> {
    "0x"@ + hex_digits(n)
}

/// What the texts of a list hold.
pub open spec fn texts(v: Seq<&str>) -> Seq<Seq<char>> {
    v.map_values(|s: &str| s@)
}

// ---- Lemmas -----------------------------------------------------------------

pub proof fn first_at_range(s: Seq<char>, c: char)
    ensures
        0 <= first_at(s, c) <= s.len(),
        first_at(s, c) < s.len() ==> s[first_at(s, c)] == c,
        forall|k: int| 0 <= k < first_at(s, c) ==> s[k] != c,
    decreases s.len(),
{
    if s.len() > 0 && s[0] != c {
        first_at_range(s.skip(1), c);
        assert forall|k: int| 0 <= k < first_at(s, c) implies s[k] != c by {
            if k > 0 {
                assert(s[k] == s.skip(1)[k - 1]);
            }
        }
    }
}

/// The first occurrence is determined.
pub proof fn first_at_is(s: Seq<char>, c: char, i: int)
    requires
        0 <= i <= s.len(),
        forall|k: int| 0 <= k < i ==> s[k] != c,
        i < s.len() ==> s[i] == c,
    ensures
        first_at(s, c) == i,
{
    first_at_range(s, c);
    if first_at(s, c) < i {
        assert(s[first_at(s, c)] != c);
    } else if i < first_at(s, c) {
        assert(s[i] != c);
    }
}

proof fn number_grows(s: Seq<char>, n: int)
    requires
        0 <= n <= s.len(),
        all_digits(s),
    ensures
        number(s.take(n)) <= number(s),
    decreases s.len() - n,
{
    if n < s.len() {
        number_grows(s, n + 1);
        assert(s.take(n + 1).drop_last() =~= s.take(n));
        assert(is_digit(s[n]));
    } else {
        assert(s.take(n) =~= s);
    }
}

// ---- The functions ----------------------------------------------------------

/// The characters of `s`.
pub fn chars_of(s: &str) -> (v: Vec<char>)
    ensures
        v@ == s@,
{
    let mut v: Vec<char> = Vec::new();
    for c in it: s.chars()
        invariant
            it.seq() == s@,
            v@ == s@.take(it.index() as int),
    {
        v.push(c);
        assert(v@ =~= s@.take(it.index() + 1));
    }
    assert(v@ =~= s@);
    v
}

/// Whether two texts are the same.
pub fn same(a: &str, b: &str) -> (r: bool)
    ensures
        r == (a@ == b@),
{
    let x = chars_of(a);
    let y = chars_of(b);
    if x.len() != y.len() {
        return false;
    }
    let mut i: usize = 0;
    while i < x.len()
        invariant
            i <= x@.len(),
            x@.len() == y@.len(),
            x@ == a@,
            y@ == b@,
            forall|k: int| 0 <= k < i ==> x@[k] == y@[k],
        decreases x@.len() - i,
    {
        if x[i] != y[i] {
            assert(a@[i as int] != b@[i as int]);
            return false;
        }
        i += 1;
    }
    assert(a@ =~= b@);
    true
}

/// Where `c` first stands in `s`.
pub fn find(s: &str, c: char) -> (r: Option<usize>)
    ensures
        match r {
            Some(i) => first_at(s@, c) == i && i < s@.len(),
            None => first_at(s@, c) == s@.len(),
        },
{
    let v = chars_of(s);
    let mut i: usize = 0;
    while i < v.len()
        invariant
            i <= v@.len(),
            v@ == s@,
            forall|k: int| 0 <= k < i ==> s@[k] != c,
        decreases v@.len() - i,
    {
        if v[i] == c {
            proof {
                first_at_is(s@, c, i as int);
            }
            return Some(i);
        }
        i += 1;
    }
    proof {
        first_at_is(s@, c, i as int);
    }
    None
}

/// The first `n` characters of `s`.
pub fn take(s: &str, n: usize) -> (r: &str)
    requires
        n <= s@.len(),
    ensures
        r@ == s@.take(n as int),
{
    let r = s.substring_char(0, n);
    assert(r@ =~= s@.take(n as int));
    r
}

/// `s` without its first `n` characters.
pub fn skip(s: &str, n: usize) -> (r: &str)
    requires
        n <= s@.len(),
    ensures
        r@ == s@.skip(n as int),
{
    let r = s.substring_char(n, s.unicode_len());
    assert(r@ =~= s@.skip(n as int));
    r
}

/// The fields of `s` between the occurrences of `c`.
pub fn split(s: &str, c: char) -> (r: Vec<&str>)
    ensures
        texts(r@) == fields(s@, c),
        r@.len() >= 1,
{
    let mut out: Vec<&str> = Vec::new();
    let mut rest: &str = s;
    let mut more = true;
    assert(texts(out@) + fields(rest@, c) =~= fields(s@, c));
    while more
        invariant
            more ==> texts(out@) + fields(rest@, c) == fields(s@, c),
            !more ==> texts(out@) == fields(s@, c) && out@.len() >= 1,
        decreases rest@.len() + (if more {
            1int
        } else {
            0
        }),
    {
        match find(rest, c) {
            Some(i) => {
                let _len: usize = rest.unicode_len();
                let head = take(rest, i);
                let tail = skip(rest, i + 1);
                let ghost before = texts(out@);
                out.push(head);
                proof {
                    assert(texts(out@) =~= before.push(head@));
                    assert(fields(rest@, c) == seq![head@] + fields(tail@, c));
                    assert(before + (seq![head@] + fields(tail@, c)) =~= before.push(head@)
                        + fields(tail@, c));
                }
                rest = tail;
            },
            None => {
                let ghost before = texts(out@);
                out.push(rest);
                proof {
                    assert(texts(out@) =~= before.push(rest@));
                    assert(before + seq![rest@] =~= before.push(rest@));
                }
                more = false;
            },
        }
    }
    out
}

pub fn is_white_space(c: char) -> (r: bool)
    ensures
        r == is_white(c),
{
    let u: u32 = c as u32;
    (9 <= u && u <= 13) || u == 0x20 || u == 0x85 || u == 0xA0 || u == 0x1680 || (0x2000 <= u && u
        <= 0x200A) || u == 0x2028 || u == 0x2029 || u == 0x202F || u == 0x205F || u == 0x3000
}

/// `s` without white space at either end.
pub fn trim(s: &str) -> (r: &str)
    ensures
        r@ == trimmed(s@),
{
    let v = chars_of(s);
    let mut from: usize = 0;
    assert(s@.skip(0) =~= s@);
    while from < v.len() && is_white_space(v[from])
        invariant
            from <= v@.len(),
            v@ == s@,
            without_leading_white(s@.skip(from as int)) == without_leading_white(s@),
        decreases v@.len() - from,
    {
        assert(s@.skip(from as int).skip(1) =~= s@.skip(from + 1));
        from += 1;
    }
    let ghost body = s@.skip(from as int);
    assert(without_leading_white(s@) == body);
    let mut to: usize = v.len();
    assert(s@.subrange(from as int, to as int) =~= body);
    while to > from && is_white_space(v[to - 1])
        invariant
            from <= to <= v@.len(),
            v@ == s@,
            without_trailing_white(s@.subrange(from as int, to as int)) == without_trailing_white(
                body,
            ),
        decreases to,
    {
        assert(s@.subrange(from as int, to as int).drop_last() =~= s@.subrange(
            from as int,
            to - 1,
        ));
        to -= 1;
    }
    s.substring_char(from, to)
}

/// `s` behind `prefix`, where it begins with it.
pub fn strip_prefix<'a>(s: &'a str, prefix: &str) -> (r: Option<&'a str>)
    ensures
        r is Some <==> begins_with(s@, prefix@),
        r matches Some(rest) ==> rest@ == s@.skip(prefix@.len() as int),
{
    let n: usize = prefix.unicode_len();
    if s.unicode_len() < n {
        return None;
    }
    let head = take(s, n);
    if same(head, prefix) {
        Some(skip(s, n))
    } else {
        None
    }
}

/// The unsigned decimal number in `s`, where it is at most `max`.
pub fn parse_uint(s: &str, max: u64) -> (r: Option<u64>)
    ensures
        match r {
            Some(n) => uint(s@, max as nat) == Some(n as nat),
            None => uint(s@, max as nat) is None,
        },
        r matches Some(n) ==> n <= max,
{
    let v = chars_of(s);
    let start: usize = if v.len() > 0 && v[0] == '+' {
        1
    } else {
        0
    };
    let ghost body = s@.skip(start as int);
    assert(start == 0 ==> body =~= s@);
    if start == v.len() {
        assert(body.len() == 0);
        return None;
    }
    let mut acc: u64 = 0;
    let mut i: usize = start;
    assert(body.take(0) =~= Seq::<char>::empty());
    while i < v.len()
        invariant
            start <= i <= v@.len(),
            start <= 1,
            v@ == s@,
            body == s@.skip(start as int),
            start == 1 ==> s@[0] == '+',
            start == 0 ==> s@.len() == 0 || s@[0] != '+',
            body.len() > 0,
            acc == number(body.take(i - start)),
            acc <= max,
            all_digits(body.take(i - start)),
        decreases v@.len() - i,
    {
        let u: u32 = v[i] as u32;
        if u < 0x30 || u > 0x39 {
            assert(!is_digit(body[i - start]));
            assert(start == 0 ==> body =~= s@);
            return None;
        }
        proof {
            assert(body.take(i + 1 - start).drop_last() =~= body.take(i - start));
            assert(body.take(i + 1 - start).last() == body[i - start]);
            assert forall|k: int| 0 <= k < i + 1 - start implies is_digit(
                #[trigger] body.take(i + 1 - start)[k],
            ) by {
                if k < i - start {
                    assert(is_digit(body.take(i - start)[k]));
                }
            }
        }
        let wide: u128 = 10 * acc as u128 + (u - 0x30) as u128;
        if wide > max as u128 {
            proof {
                if all_digits(body) {
                    number_grows(body, i + 1 - start);
                }
                assert(start == 0 ==> body =~= s@);
            }
            return None;
        }
        acc = wide as u64;
        i += 1;
    }
    proof {
        assert(body.take(i - start) =~= body);
        assert(start == 0 ==> body =~= s@);
    }
    Some(acc)
}

/// Append `n` in decimal.
pub fn append_decimal(out: &mut String, n: u64)
    ensures
        final(out)@ == old(out)@ + decimal(n as nat),
    decreases n,
{
    if n >= 10 {
        append_decimal(out, n / 10);
    }
    let d = digit_text(n % 10);
    out.append(d);
    assert(out@ =~= old(out)@ + decimal(n as nat));
}

fn digit_text(d: u64) -> (r: &'static str)
    requires
        d < 10,
    ensures
        r@ == seq![digit(d as nat)],
{
    proof {
        reveal_strlit("0");
        reveal_strlit("1");
        reveal_strlit("2");
        reveal_strlit("3");
        reveal_strlit("4");
        reveal_strlit("5");
        reveal_strlit("6");
        reveal_strlit("7");
        reveal_strlit("8");
        reveal_strlit("9");
    }
    let r = match d {
        0 => "0",
        1 => "1",
        2 => "2",
        3 => "3",
        4 => "4",
        5 => "5",
        6 => "6",
        7 => "7",
        8 => "8",
        _ => "9",
    };
    assert(r@ =~= seq![digit(d as nat)]);
    r
}

/// Append `n` in decimal, with a sign where it is negative.
pub fn append_signed(out: &mut String, n: i32)
    ensures
        final(out)@ == old(out)@ + signed(n as int),
{
    if n < 0 {
        out.append("-");
        append_decimal(out, (-(n as i64)) as u64);
        assert(out@ =~= old(out)@ + signed(n as int));
    } else {
        append_decimal(out, n as u64);
    }
}

/// Append `n` in hexadecimal, as an address is written.
pub fn append_hex(out: &mut String, n: u64)
    ensures
        final(out)@ == old(out)@ + hex(n as nat),
{
    out.append("0x");
    append_hex_digits(out, n);
    assert(out@ =~= old(out)@ + hex(n as nat));
}

fn append_hex_digits(out: &mut String, n: u64)
    ensures
        final(out)@ == old(out)@ + hex_digits(n as nat),
    decreases n,
{
    if n >= 16 {
        append_hex_digits(out, n / 16);
    }
    let d = hex_digit_text(n % 16);
    out.append(d);
    assert(out@ =~= old(out)@ + hex_digits(n as nat));
}

fn hex_digit_text(d: u64) -> (r: &'static str)
    requires
        d < 16,
    ensures
        r@ == seq![hex_digit(d as nat)],
{
    if d < 10 {
        return digit_text(d);
    }
    proof {
        reveal_strlit("a");
        reveal_strlit("b");
        reveal_strlit("c");
        reveal_strlit("d");
        reveal_strlit("e");
        reveal_strlit("f");
    }
    let r = match d {
        10 => "a",
        11 => "b",
        12 => "c",
        13 => "d",
        14 => "e",
        _ => "f",
    };
    assert(r@ =~= seq![hex_digit(d as nat)]);
    r
}

/// `s` as a text of its own.
pub fn owned(s: &str) -> (r: String)
    ensures
        r@ == s@,
{
    String::from_str(s)
}

/// A number survives its decimal spelling.
pub proof fn decimal_round_trip(n: nat)
    ensures
        all_digits(decimal(n)),
        decimal(n).len() > 0,
        number(decimal(n)) == n,
    decreases n,
{
    if n < 10 {
        assert(decimal(n).drop_last() =~= Seq::<char>::empty());
        assert(number(decimal(n)) == 10 * number(decimal(n).drop_last()) + (digit(n) as u32
            - 0x30) as nat);
    } else {
        decimal_round_trip(n / 10);
        let s = decimal(n);
        assert(s.drop_last() =~= decimal(n / 10));
        assert forall|i: int| 0 <= i < s.len() implies is_digit(#[trigger] s[i]) by {
            if i < s.len() - 1 {
                assert(is_digit(decimal(n / 10)[i]));
            }
        }
    }
}

proof fn leading_white_goes(s: Seq<char>)
    ensures
        ({
            let r = without_leading_white(s);
            let a = s.len() - r.len();
            &&& 0 <= a
            &&& r == s.skip(a)
            &&& forall|i: int| 0 <= i < a ==> is_white(#[trigger] s[i])
            &&& r.len() > 0 ==> !is_white(r[0])
        }),
    decreases s.len(),
{
    if s.len() > 0 && is_white(s[0]) {
        leading_white_goes(s.skip(1));
        let r = without_leading_white(s);
        let a = s.len() - r.len();
        assert(s.skip(1).skip(a - 1) =~= s.skip(a));
        assert forall|i: int| 0 <= i < a implies is_white(#[trigger] s[i]) by {
            if i > 0 {
                assert(s.skip(1)[i - 1] == s[i]);
            }
        }
    } else {
        assert(s.skip(0) =~= s);
    }
}

proof fn trailing_white_goes(s: Seq<char>)
    ensures
        ({
            let r = without_trailing_white(s);
            &&& r.len() <= s.len()
            &&& r == s.take(r.len() as int)
            &&& forall|i: int| r.len() <= i < s.len() ==> is_white(#[trigger] s[i])
            &&& r.len() > 0 ==> !is_white(r.last())
        }),
    decreases s.len(),
{
    if s.len() > 0 && is_white(s.last()) {
        trailing_white_goes(s.drop_last());
        let r = without_trailing_white(s);
        assert(s.drop_last().take(r.len() as int) =~= s.take(r.len() as int));
        assert forall|i: int| r.len() <= i < s.len() implies is_white(#[trigger] s[i]) by {
            if i < s.len() - 1 {
                assert(s.drop_last()[i] == s[i]);
            }
        }
    } else {
        assert(s.take(s.len() as int) =~= s);
    }
}

/// Trimming takes white space off both ends and nothing else: what is left is
/// a part of the text, neither begins nor ends with white space, and all that
/// went is white.
pub proof fn trimming_takes_only_white(s: Seq<char>)
    ensures
        ({
            let r = trimmed(s);
            &&& exists|a: int|
                {
                    &&& 0 <= a
                    &&& a + r.len() <= s.len()
                    &&& r == #[trigger] s.subrange(a, a + r.len())
                    &&& forall|i: int|
                        0 <= i < a || a + r.len() <= i < s.len() ==> is_white(#[trigger] s[i])
                }
            &&& r.len() > 0 ==> !is_white(r[0]) && !is_white(r.last())
        }),
{
    let front = without_leading_white(s);
    let r = trimmed(s);
    leading_white_goes(s);
    trailing_white_goes(front);
    let a = s.len() - front.len();
    assert(r =~= s.subrange(a, a + r.len()));
    assert forall|i: int| 0 <= i < a || a + r.len() <= i < s.len() implies is_white(
        #[trigger] s[i],
    ) by {
        if i >= a {
            assert(front[i - a] == s[i]);
        }
    }
    if r.len() > 0 {
        assert(r[0] == front[0]);
    }
}

/// A text that neither begins nor ends with white space is trimmed already.
pub proof fn trimmed_already(s: Seq<char>)
    requires
        s.len() > 0 ==> !is_white(s[0]) && !is_white(s.last()),
    ensures
        trimmed(s) == s,
{
}

/// Of the ASCII letters white are the space, the tab and the four behind it.
pub proof fn ascii_white(c: char)
    requires
        (c as u32) < 0x80,
    ensures
        is_white(c) <==> c == ' ' || c == '\t' || c == '\n' || c == '\r' || c as u32 == 11
            || c as u32 == 12,
{
}

/// The fields of a text are what stands between the separators: a field that
/// holds none comes off the front whole.
pub proof fn fields_come_off_the_front(field: Seq<char>, c: char, rest: Seq<char>)
    requires
        forall|i: int| 0 <= i < field.len() ==> field[i] != c,
    ensures
        fields(field, c) == seq![field],
        fields(field + seq![c] + rest, c) == seq![field] + fields(rest, c),
{
    let n = field.len() as int;
    first_at_is(field, c, n);
    let s = field + seq![c] + rest;
    first_at_is(s, c, n);
    assert(s.take(n) =~= field);
    assert(s.skip(n + 1) =~= rest);
}

/// The fields of a text with the separator put back between them.
pub open spec fn joined(f: Seq<Seq<char>>, c: char) -> Seq<char>
    decreases f.len(),
{
    if f.len() == 0 {
        Seq::empty()
    } else if f.len() == 1 {
        f[0]
    } else {
        f[0] + seq![c] + joined(f.skip(1), c)
    }
}

/// A text is its fields with the separator between them, and no field holds
/// the separator.
pub proof fn fields_join_to_the_text(s: Seq<char>, c: char)
    ensures
        fields(s, c).len() > 0,
        joined(fields(s, c), c) == s,
        forall|i: int, j: int|
            0 <= i < fields(s, c).len() && 0 <= j < fields(s, c)[i].len() ==> #[trigger] fields(
                s,
                c,
            )[i][j] != c,
    decreases s.len(),
{
    let i = first_at(s, c);
    first_at_range(s, c);
    let f = fields(s, c);
    if i < s.len() {
        let rest = s.skip(i + 1);
        fields_join_to_the_text(rest, c);
        assert(f == seq![s.take(i)] + fields(rest, c));
        assert(f.skip(1) =~= fields(rest, c));
        assert(f[0] == s.take(i));
        assert(s.take(i) + seq![c] + rest =~= s);
        assert forall|a: int, b: int| 0 <= a < f.len() && 0 <= b < f[a].len() implies #[trigger] f[a][b]
            != c by {
            if a > 0 {
                assert(f[a] == fields(rest, c)[a - 1]);
                assert(fields(rest, c)[a - 1][b] != c);
            }
        }
    } else {
        assert(f[0] == s);
    }
}

/// A number is read back from its decimal form, with or without a sign, where
/// it is not above the bound; what is empty or holds another letter is no
/// number.
pub proof fn numbers_are_read_back(n: nat, max: nat, s: Seq<char>, i: int)
    ensures
        uint(decimal(n), max) == if n <= max {
            Some(n)
        } else {
            None
        },
        uint(seq!['+'] + decimal(n), max) == if n <= max {
            Some(n)
        } else {
            None
        },
        uint(Seq::empty(), max) is None,
        uint(seq!['+'], max) is None,
        0 < i < s.len() && !is_digit(s[i]) ==> uint(s, max) is None,
        s.len() > 0 && !is_digit(s[0]) && s[0] != '+' ==> uint(s, max) is None,
{
    decimal_round_trip(n);
    let d = decimal(n);
    assert(is_digit(d[0]));
    assert((seq!['+'] + d).skip(1) =~= d);
    assert(seq!['+'].skip(1) =~= Seq::<char>::empty());
    if 0 < i < s.len() && !is_digit(s[i]) {
        assert(s.skip(1)[i - 1] == s[i]);
    }
}

/// What a decimal form looks like: no zero in front, and one digit more for
/// each tenfold.
pub proof fn decimals_are_short(n: nat)
    ensures
        n > 0 ==> decimal(n)[0] != '0',
        n < 10 ==> decimal(n).len() == 1,
        n > 0 ==> decimal(10 * n).len() == decimal(n).len() + 1,
        decimal(n).last() as u32 == 0x30 + n % 10,
        signed(n as int) == decimal(n),
        n > 0 ==> signed(-n) == seq!['-'] + decimal(n),
    decreases n,
{
    decimal_round_trip(n);
    if n >= 10 {
        decimals_are_short(n / 10);
        decimal_round_trip(n / 10);
    }
    reveal_strlit("-");
    assert("-"@ =~= seq!['-']);
}

/// The value of a hexadecimal digit.
pub open spec fn hex_value(c: char) -> nat {
    if '0' <= c <= '9' {
        (c as u32 - '0' as u32) as nat
    } else {
        (10 + (c as u32 - 'a' as u32)) as nat
    }
}

/// The number that hexadecimal digits spell.
pub open spec fn hex_number(s: Seq<char>) -> nat
    decreases s.len(),
{
    if s.len() == 0 {
        0
    } else {
        16 * hex_number(s.drop_last()) + hex_value(s.last())
    }
}

/// A hexadecimal form spells its number behind `0x`, in lower case and with no
/// zero in front.
pub proof fn hex_spells_the_number(n: nat)
    ensures
        hex_number(hex_digits(n)) == n,
        hex_digits(n).len() > 0,
        forall|i: int|
            0 <= i < hex_digits(n).len() ==> '0' <= (#[trigger] hex_digits(n)[i]) <= '9' || 'a'
                <= hex_digits(n)[i] <= 'f',
        n > 0 ==> hex_digits(n)[0] != '0',
        hex(n) == seq!['0', 'x'] + hex_digits(n),
    decreases n,
{
    let s = hex_digits(n);
    if n < 16 {
        assert(s.drop_last() =~= Seq::<char>::empty());
        assert(hex_number(s) == 16 * hex_number(s.drop_last()) + hex_value(hex_digit(n)));
    } else {
        hex_spells_the_number(n / 16);
        assert(s.drop_last() =~= hex_digits(n / 16));
        assert forall|i: int| 0 <= i < s.len() implies '0' <= (#[trigger] s[i]) <= '9' || 'a'
            <= s[i] <= 'f' by {
            if i < s.len() - 1 {
                assert(s[i] == hex_digits(n / 16)[i]);
            }
        }
    }
    reveal_strlit("0x");
    assert("0x"@ =~= seq!['0', 'x']);
}

/// The digits are the ten from `0` to `9`, each with its own value.
pub proof fn digits_are_ten(c: char, n: nat)
    ensures
        is_digit(c) <==> '0' <= c <= '9',
        is_digit(c) ==> number(seq![c]) == c as u32 - '0' as u32,
        n < 10 ==> is_digit(digit(n)) && number(seq![digit(n)]) == n,
{
    assert(seq![c].drop_last() =~= Seq::<char>::empty());
    assert(seq![digit(n)].drop_last() =~= Seq::<char>::empty());
    assert(number(Seq::<char>::empty()) == 0);
}

/// Beyond the ASCII letters white are the next line, the unbroken spaces, the
/// typographer's spaces and the separators of lines and paragraphs.
pub proof fn other_white(c: char)
    requires
        (c as u32) >= 0x80,
    ensures
        is_white(c) <==> c == '\u{85}' || c == '\u{A0}' || c == '\u{1680}' || '\u{2000}' <= c
            <= '\u{200A}' || c == '\u{2028}' || c == '\u{2029}' || c == '\u{202F}' || c
            == '\u{205F}' || c == '\u{3000}',
{
}

} // verus!
