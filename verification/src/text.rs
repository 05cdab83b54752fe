//! Text: trimming, numbers in decimal, lower case.
use vstd::prelude::*;

verus! {

/// `String::push` appends a character.
pub assume_specification[ String::push ](s: &mut String, ch: char)
    ensures
        final(s)@ == old(s)@.push(ch),
;

/// The characters with the Unicode property White_Space.
pub open spec fn white_spec(c: char) -> bool {
    let n = c as u32;
    (0x9 <= n && n <= 0xd) || n == 0x20 || n == 0x85 || n == 0xa0 || n == 0x1680 || (0x2000 <= n
        && n <= 0x200a) || n == 0x2028 || n == 0x2029 || n == 0x202f || n == 0x205f || n == 0x3000
}

/// White space.
pub fn is_white(c: char) -> (r: bool)
    ensures
        r == white_spec(c),
{
    let n: u32 = c as u32;
    (0x9 <= n && n <= 0xd) || n == 0x20 || n == 0x85 || n == 0xa0 || n == 0x1680 || (0x2000 <= n
        && n <= 0x200a) || n == 0x2028 || n == 0x2029 || n == 0x202f || n == 0x205f || n == 0x3000
}

/// The text without white space in front.
pub open spec fn trim_start_spec(s: Seq<char>) -> Seq<char>
    decreases s.len(),
{
    if s.len() > 0 && white_spec(s[0]) {
        trim_start_spec(s.drop_first())
    } else {
        s
    }
}

/// The text without white space behind.
pub open spec fn trim_end_spec(s: Seq<char>) -> Seq<char>
    decreases s.len(),
{
    if s.len() > 0 && white_spec(s.last()) {
        trim_end_spec(s.drop_last())
    } else {
        s
    }
}

/// The text without white space around it.
pub open spec fn trim_spec(s: Seq<char>) -> Seq<char> {
    trim_end_spec(trim_start_spec(s))
}

/// The text without white space around it.
pub fn trim(s: &str) -> (r: &str)
    ensures
        r@ == trim_spec(s@),
{
    let n: usize = s.unicode_len();
    let mut from: usize = 0;
    assert(s@.subrange(0, n as int) == s@);
    while from < n && is_white(s.get_char(from))
        invariant
            n == s@.len(),
            from <= n,
            trim_start_spec(s@.subrange(from as int, n as int)) == trim_start_spec(s@),
        decreases n - from,
    {
        let ghost rest = s@.subrange(from as int, n as int);
        assert(rest[0] == s@[from as int]);
        assert(rest.drop_first() == s@.subrange(from + 1, n as int));
        from = from + 1;
    }
    proof {
        if from < n {
            assert(s@.subrange(from as int, n as int)[0] == s@[from as int]);
        }
        assert(trim_start_spec(s@) == s@.subrange(from as int, n as int));
    }
    let mut to: usize = n;
    while to > from && is_white(s.get_char(to - 1))
        invariant
            n == s@.len(),
            from <= to <= n,
            trim_end_spec(s@.subrange(from as int, to as int)) == trim_spec(s@),
        decreases to - from,
    {
        let ghost rest = s@.subrange(from as int, to as int);
        assert(rest.last() == s@[to - 1]);
        assert(rest.drop_last() == s@.subrange(from as int, to - 1));
        to = to - 1;
    }
    proof {
        if to > from {
            assert(s@.subrange(from as int, to as int).last() == s@[to - 1]);
        }
    }
    s.substring_char(from, to)
}

proof fn lemma_trim_end(s: Seq<char>)
    ensures
        trim_end_spec(s).len() <= s.len(),
        trim_end_spec(s) == s.take(trim_end_spec(s).len() as int),
        trim_end_spec(s).len() > 0 ==> !white_spec(trim_end_spec(s).last()),
    decreases s.len(),
{
    if s.len() > 0 && white_spec(s.last()) {
        lemma_trim_end(s.drop_last());
        assert(s.drop_last().take(trim_end_spec(s).len() as int) == s.take(
            trim_end_spec(s).len() as int,
        ));
    } else {
        assert(s.take(s.len() as int) == s);
    }
}

proof fn lemma_trim_start(s: Seq<char>)
    ensures
        trim_start_spec(s).len() > 0 ==> !white_spec(trim_start_spec(s)[0]),
    decreases s.len(),
{
    if s.len() > 0 && white_spec(s[0]) {
        lemma_trim_start(s.drop_first());
    }
}

/// Trimmed text neither begins nor ends with white space, and trimming it
/// once more does nothing.
pub proof fn lemma_trim_settles(s: Seq<char>)
    ensures
        trim_spec(s).len() > 0 ==> !white_spec(trim_spec(s)[0]) && !white_spec(trim_spec(s).last()),
        trim_spec(trim_spec(s)) == trim_spec(s),
{
    lemma_trim_start(s);
    lemma_trim_end(trim_start_spec(s));
    let t = trim_start_spec(s);
    let r = trim_spec(s);
    if r.len() > 0 {
        assert(r[0] == t[0]);
    }
}

/// The digit for a number below ten.
pub open spec fn digit(n: nat) -> char {
    ('0' as u32 + n) as char
}

/// A number in decimal, without leading zeros.
pub open spec fn decimal_spec(n: nat) -> Seq<char>
    decreases n,
{
    if n < 10 {
        seq![digit(n)]
    } else {
        decimal_spec(n / 10).push(digit(n % 10))
    }
}

fn digit_char(n: u64) -> (r: char)
    requires
        n < 10,
    ensures
        r == digit(n as nat),
{
    (48u8 + n as u8) as char
}

/// A number in decimal.
pub fn decimal(n: u64) -> (r: String)
    ensures
        r@ == decimal_spec(n as nat),
    decreases n,
{
    let mut s: String = if n < 10 {
        String::new()
    } else {
        decimal(n / 10)
    };
    s.push(digit_char(n % 10));
    proof {
        if n < 10 {
            assert(s@ =~= seq![digit(n as nat)]);
        }
    }
    s
}

/// A decimal digit.
pub open spec fn digit_spec(c: char) -> bool {
    '0' <= c && c <= '9'
}

/// The number that digits stand for.
pub open spec fn value_of(s: Seq<char>) -> nat
    decreases s.len(),
{
    if s.len() == 0 {
        0
    } else {
        value_of(s.drop_last()) * 10 + (s.last() as int - '0' as int) as nat
    }
}

/// Only digits.
pub open spec fn all_digits(s: Seq<char>) -> bool {
    forall|i: int| 0 <= i < s.len() ==> digit_spec(#[trigger] s[i])
}

/// The digits of a number, behind a plus sign or not.
pub open spec fn unsigned_part(s: Seq<char>) -> Seq<char> {
    if s.len() > 0 && s[0] == '+' {
        s.drop_first()
    } else {
        s
    }
}

/// What a text says in decimal, if it is a number that fits.
pub open spec fn number_spec(s: Seq<char>) -> Option<nat> {
    let d = unsigned_part(s);
    if d.len() > 0 && all_digits(d) && value_of(d) <= u64::MAX {
        Some(value_of(d))
    } else {
        None
    }
}

proof fn lemma_value_grows(s: Seq<char>, i: int)
    requires
        0 <= i <= s.len(),
        all_digits(s),
    ensures
        value_of(s.take(i)) <= value_of(s),
    decreases s.len(),
{
    if i < s.len() {
        assert(all_digits(s.drop_last()));
        lemma_value_grows(s.drop_last(), i);
        assert(s.drop_last().take(i) == s.take(i));
        assert(digit_spec(s[s.len() - 1]));
    } else {
        assert(s.take(i) == s);
    }
}

/// Reads a number in decimal.
pub fn number(s: &str) -> (r: Option<u64>)
    ensures
        match r {
            Some(n) => number_spec(s@) == Some(n as nat),
            None => number_spec(s@) is None,
        },
{
    let n: usize = s.unicode_len();
    let from: usize = if n > 0 && s.get_char(0) == '+' {
        1
    } else {
        0
    };
    if from == n {
        return None;
    }
    let ghost d = unsigned_part(s@);
    assert(d =~= s@.skip(from as int));
    let mut value: u64 = 0;
    let mut i: usize = from;
    while i < n
        invariant
            from <= i <= n,
            n == s@.len(),
            d == s@.skip(from as int),
            d == unsigned_part(s@),
            all_digits(d.take(i - from)),
            value == value_of(d.take(i - from)),
        decreases n - i,
    {
        let c: char = s.get_char(i);
        proof {
            assert(d[i - from] == c);
            let t = d.take(i - from + 1);
            assert(t.drop_last() == d.take(i - from));
            assert(t.last() == c);
        }
        if c < '0' || c > '9' {
            assert(!digit_spec(d[i - from]));
            return None;
        }
        let digit: u64 = c as u64 - 48;
        let ghost next = value_of(d.take(i - from + 1));
        assert(next == value * 10 + digit);
        if value > 0x1999_9999_9999_9999 || value * 10 > 0xffff_ffff_ffff_ffff - digit {
            proof {
                if all_digits(d) {
                    lemma_value_grows(d, i - from + 1);
                }
            }
            return None;
        }
        value = value * 10 + digit;
        proof {
            assert forall|k: int| 0 <= k < i - from + 1 implies digit_spec(
                #[trigger] d.take(i - from + 1)[k],
            ) by {
                if k < i - from {
                    assert(d.take(i - from + 1)[k] == d.take(i - from)[k]);
                }
            }
        }
        i = i + 1;
    }
    assert(d.take(n - from) == d);
    Some(value)
}

proof fn lemma_decimal(n: nat)
    ensures
        all_digits(decimal_spec(n)),
        decimal_spec(n).len() > 0,
        value_of(decimal_spec(n)) == n,
    decreases n,
{
    let s = decimal_spec(n);
    if n < 10 {
        assert(s.drop_last() == Seq::<char>::empty());
        assert(value_of(Seq::<char>::empty()) == 0);
    } else {
        lemma_decimal(n / 10);
        assert(s.drop_last() == decimal_spec(n / 10));
        assert forall|i: int| 0 <= i < s.len() implies digit_spec(#[trigger] s[i]) by {
            if i < s.len() - 1 {
                assert(s[i] == decimal_spec(n / 10)[i]);
            }
        }
    }
}

/// Every number can be read back from its decimal text, so two numbers never
/// share one.
pub proof fn lemma_decimal_reads_back(n: u64)
    ensures
        number_spec(decimal_spec(n as nat)) == Some(n as nat),
{
    lemma_decimal(n as nat);
    assert(digit_spec(decimal_spec(n as nat)[0]));
}

/// A character in lower case, where it is an ASCII letter.
pub open spec fn lower_spec(c: char) -> char {
    if 'A' <= c && c <= 'Z' {
        (c as u32 + 32) as u8 as char
    } else {
        c
    }
}

/// Text in lower case, as far as ASCII goes.
pub fn lower(s: &str) -> (r: String)
    ensures
        r@ == s@.map_values(|c: char| lower_spec(c)),
{
    let n: usize = s.unicode_len();
    let mut out: String = String::new();
    let mut i: usize = 0;
    while i < n
        invariant
            i <= n,
            n == s@.len(),
            out@.len() == i,
            forall|k: int| 0 <= k < i ==> #[trigger] out@[k] == lower_spec(s@[k]),
        decreases n - i,
    {
        let c: char = s.get_char(i);
        if 'A' <= c && c <= 'Z' {
            let low: u8 = (c as u32 + 32) as u8;
            out.push(low as char);
        } else {
            out.push(c);
        }
        i = i + 1;
    }
    assert(out@ =~= s@.map_values(|c: char| lower_spec(c)));
    out
}

} // verus!
