//! Address text: splitting at separators and reading decimal numbers, as
//! `str::rsplitn`, `str::split` and the unsigned `FromStr` impls do it, on
//! the UTF-8 bytes of the text.
use vstd::prelude::*;

verus! {

/// The index of the last `c` in `s`.
pub open spec fn rfind(s: Seq<u8>, c: u8) -> Option<int>
    decreases s.len(),
{
    if s.len() == 0 {
        None
    } else if s.last() == c {
        Some(s.len() - 1)
    } else {
        rfind(s.drop_last(), c)
    }
}

pub proof fn lemma_rfind(s: Seq<u8>, c: u8)
    ensures
        match rfind(s, c) {
            Some(i) => 0 <= i < s.len() && s[i] == c && forall|j: int| i < j < s.len() ==> s[j] != c,
            None => forall|j: int| 0 <= j < s.len() ==> s[j] != c,
        },
    decreases s.len(),
{
    if s.len() > 0 {
        let p = s.drop_last();
        lemma_rfind(p, c);
        if s.last() != c {
            assert forall|j: int| 0 <= j < s.len() && s[j] == c implies rfind(s, c) matches Some(i) && j <= i by {
                assert(p[j] == s[j]);
            }
        }
    }
}

/// The pieces of `s` between the separators `c`, as `str::split` gives
/// them (empty pieces included).
pub open spec fn split_on(s: Seq<u8>, c: u8) -> Seq<Seq<u8>>
    decreases s.len(),
{
    match rfind(s, c) {
        None => seq![s],
        Some(i) => {
            proof {
                lemma_rfind(s, c);
            }
            split_on(s.take(i), c).push(s.skip(i + 1))
        },
    }
}

pub proof fn lemma_split_on_unfold(s: Seq<u8>, c: u8)
    ensures
        split_on(s, c) == (match rfind(s, c) {
            None => seq![s],
            Some(i) => split_on(s.take(i), c).push(s.skip(i + 1)),
        }),
{
}

pub proof fn lemma_split_on_len(s: Seq<u8>, c: u8)
    ensures
        split_on(s, c).len() >= 1,
    decreases s.len(),
{
    lemma_rfind(s, c);
    if let Some(i) = rfind(s, c) {
        lemma_split_on_len(s.take(i), c);
    }
}

/// An ASCII decimal digit.
pub open spec fn is_digit(b: u8) -> bool {
    48 <= b <= 57
}

/// Every byte is a decimal digit.
pub open spec fn all_digits(d: Seq<u8>) -> bool {
    forall|i: int| 0 <= i < d.len() ==> is_digit(#[trigger] d[i])
}

/// The number that a run of decimal digits spells.
pub open spec fn dec_value(d: Seq<u8>) -> nat
    decreases d.len(),
{
    if d.len() == 0 {
        0
    } else {
        dec_value(d.drop_last()) * 10 + (d.last() - 48) as nat
    }
}

/// Unsigned decimal text: an optional `+`, then at least one digit, with a
/// value no more than `max`.
pub open spec fn parse_uint(s: Seq<u8>, max: nat) -> Option<nat> {
    let d = if s.len() > 0 && s[0] == 43 {
        s.drop_first()
    } else {
        s
    };
    if d.len() > 0 && all_digits(d) && dec_value(d) <= max {
        Some(dec_value(d))
    } else {
        None
    }
}

proof fn lemma_dec_value_prefix(d: Seq<u8>, k: int)
    requires
        all_digits(d),
        0 <= k <= d.len(),
    ensures
        dec_value(d.take(k)) <= dec_value(d),
    decreases d.len(),
{
    if k < d.len() {
        let p = d.drop_last();
        assert(d.take(k) =~= p.take(k));
        lemma_dec_value_prefix(p, k);
    } else {
        assert(d.take(k) =~= d);
    }
}

/// The index of the last `c` among the first `hi` bytes of `b`.
pub fn rfind_before(b: &[u8], hi: usize, c: u8) -> (r: Option<usize>)
    requires
        hi <= b@.len(),
    ensures
        rfind(b@.take(hi as int), c) == (match r {
            Some(i) => Some(i as int),
            None => None,
        }),
        r matches Some(i) ==> i < hi && b@[i as int] == c,
{
    proof {
        lemma_rfind(b@.take(hi as int), c);
    }
    let mut i = hi;
    while i > 0
        invariant
            i <= hi <= b@.len(),
            rfind(b@.take(hi as int), c) == rfind(b@.take(i as int), c),
        decreases i,
    {
        proof {
            assert(b@.take(i as int).drop_last() =~= b@.take(i - 1));
        }
        if b[i - 1] == c {
            return Some(i - 1);
        }
        i -= 1;
    }
    None
}

/// Reads the unsigned decimal text in `b[lo..hi]`, if its value is at
/// most `max`.
pub fn parse_uint_in(b: &[u8], lo: usize, hi: usize, max: u32) -> (r: Option<u32>)
    requires
        lo <= hi <= b@.len(),
    ensures
        match parse_uint(b@.subrange(lo as int, hi as int), max as nat) {
            Some(v) => r == Some(v as u32),
            None => r is None,
        },
{
    let ghost s = b@.subrange(lo as int, hi as int);
    let mut i = lo;
    if i < hi && b[i] == 43 {
        i += 1;
    }
    let start = i;
    let ghost d = b@.subrange(start as int, hi as int);
    proof {
        if s.len() > 0 && s[0] == 43 {
            assert(d =~= s.drop_first());
        } else {
            assert(d =~= s);
        }
    }
    if start == hi {
        return None;
    }
    let mut acc: u64 = 0;
    while i < hi
        invariant
            lo <= start <= i <= hi <= b@.len(),
            d == b@.subrange(start as int, hi as int),
            s == b@.subrange(lo as int, hi as int),
            d == (if s.len() > 0 && s[0] == 43 {
                s.drop_first()
            } else {
                s
            }),
            all_digits(b@.subrange(start as int, i as int)),
            acc == dec_value(b@.subrange(start as int, i as int)),
            acc <= max,
        decreases hi - i,
    {
        let c = b[i];
        proof {
            assert(b@.subrange(start as int, i + 1).drop_last() =~= b@.subrange(start as int, i as int));
        }
        if c < 48 || c > 57 {
            proof {
                assert(d[i - start] == c);
                assert(!is_digit(d[i - start]));
                assert(!all_digits(d));
            }
            return None;
        }
        acc = acc * 10 + (c - 48) as u64;
        i += 1;
        proof {
            let t = b@.subrange(start as int, i as int);
            assert(t.last() == c);
            assert(t.drop_last() =~= b@.subrange(start as int, i - 1));
            assert(acc == dec_value(t));
            assert forall|k: int| 0 <= k < t.len() implies is_digit(#[trigger] t[k]) by {
                if k < t.len() - 1 {
                    assert(t[k] == b@.subrange(start as int, i - 1)[k]);
                }
            }
        }
        if acc > max as u64 {
            proof {
                if all_digits(d) {
                    assert(d.take(i - start) =~= b@.subrange(start as int, i as int));
                    lemma_dec_value_prefix(d, i - start);
                }
            }
            return None;
        }
    }
    proof {
        assert(b@.subrange(start as int, i as int) =~= d);
    }
    Some(acc as u32)
}

/// The decimal digits of `n`, most significant first, with no leading zero.
pub open spec fn dec_digits(n: nat) -> Seq<u8>
    decreases n,
{
    if n < 10 {
        seq![(48 + n) as u8]
    } else {
        dec_digits(n / 10).push((48 + n % 10) as u8)
    }
}

/// ASCII bytes read as characters.
pub open spec fn ascii_chars(b: Seq<u8>) -> Seq<char> {
    b.map_values(|x: u8| x as char)
}

/// The one-digit text of `d`.
fn digit_str(d: u64) -> (r: &'static str)
    requires
        d < 10,
    ensures
        r@ == seq![(48 + d) as u8 as char],
{
    proof {
        reveal_strlit("0");
        reveal_strlit("1");
        reveal_strlit("2");
        reveal_strlit("3");
        reveal_strlit("4");
        reveal_strlit("5");
        reveal_strlit("6");
        reveal_strlit("7");
        reveal_strlit("8");
        reveal_strlit("9");
    }
    if d == 0 {
        "0"
    } else if d == 1 {
        "1"
    } else if d == 2 {
        "2"
    } else if d == 3 {
        "3"
    } else if d == 4 {
        "4"
    } else if d == 5 {
        "5"
    } else if d == 6 {
        "6"
    } else if d == 7 {
        "7"
    } else if d == 8 {
        "8"
    } else {
        "9"
    }
}

/// Appends the decimal text of `n`.
pub fn push_decimal(out: &mut String, n: u64)
    ensures
        final(out)@ == old(out)@ + ascii_chars(dec_digits(n as nat)),
    decreases n,
{
    if n >= 10 {
        push_decimal(out, n / 10);
    }
    out.append(digit_str(n % 10));
    proof {
        if n >= 10 {
            assert(ascii_chars(dec_digits(n as nat)) =~= ascii_chars(dec_digits((n / 10) as nat)).push(
                (48 + n % 10) as u8 as char,
            ));
        } else {
            assert(ascii_chars(dec_digits(n as nat)) =~= seq![(48 + n) as u8 as char]);
        }
    }
}

pub proof fn lemma_dec_digits(n: nat)
    ensures
        dec_digits(n).len() >= 1,
        all_digits(dec_digits(n)),
        dec_value(dec_digits(n)) == n,
    decreases n,
{
    if n >= 10 {
        lemma_dec_digits(n / 10);
        let d = dec_digits(n);
        assert(d.drop_last() =~= dec_digits(n / 10));
        assert((n / 10) * 10 + n % 10 == n) by (nonlinear_arith);
        assert(d.last() == (48 + n % 10) as u8);
        assert(dec_value(d) == dec_value(d.drop_last()) * 10 + (d.last() - 48) as nat);
        assert forall|i: int| 0 <= i < d.len() implies is_digit(#[trigger] d[i]) by {
            if i < d.len() - 1 {
                assert(d[i] == dec_digits(n / 10)[i]);
            }
        }
    } else {
        let d = dec_digits(n);
        assert(d.drop_last() =~= Seq::<u8>::empty());
        assert(dec_value(d) == dec_value(d.drop_last()) * 10 + (d.last() - 48) as nat);
    }
}

/// The decimal text of a number reads back as that number.
pub proof fn lemma_parse_dec_digits(n: nat, max: nat)
    requires
        n <= max,
    ensures
        parse_uint(dec_digits(n), max) == Some(n),
{
    lemma_dec_digits(n);
    assert(is_digit(dec_digits(n)[0]));
}

/// A separator byte that is not a digit does not occur in decimal text.
pub proof fn lemma_rfind_digits(n: nat, c: u8)
    requires
        !is_digit(c),
    ensures
        rfind(dec_digits(n), c) is None,
{
    lemma_dec_digits(n);
    lemma_rfind(dec_digits(n), c);
    if let Some(i) = rfind(dec_digits(n), c) {
        assert(is_digit(dec_digits(n)[i]));
    }
}

/// In `x`, then `c`, then text free of `c`, the last `c` is the one after `x`.
pub proof fn lemma_rfind_joined(x: Seq<u8>, c: u8, t: Seq<u8>)
    requires
        forall|j: int| 0 <= j < t.len() ==> t[j] != c,
    ensures
        rfind(x.push(c) + t, c) == Some(x.len() as int),
        (x.push(c) + t).take(x.len() as int) == x,
        (x.push(c) + t).skip(x.len() as int + 1) == t,
    decreases t.len(),
{
    let s = x.push(c) + t;
    assert(s.take(x.len() as int) =~= x);
    assert(s.skip(x.len() as int + 1) =~= t);
    if t.len() == 0 {
        assert(s =~= x.push(c));
    } else {
        let u = t.drop_last();
        assert(s.drop_last() =~= x.push(c) + u);
        assert(s.last() == t.last());
        lemma_rfind_joined(x, c, u);
    }
}

/// The same as [`lemma_rfind_joined`], with decimal text after the separator.
pub proof fn lemma_rfind_before_digits(x: Seq<u8>, c: u8, n: nat)
    requires
        !is_digit(c),
    ensures
        rfind(x + seq![c] + dec_digits(n), c) == Some(x.len() as int),
        (x + seq![c] + dec_digits(n)).take(x.len() as int) == x,
        (x + seq![c] + dec_digits(n)).skip(x.len() as int + 1) == dec_digits(n),
{
    lemma_dec_digits(n);
    assert(x + seq![c] =~= x.push(c));
    lemma_rfind_joined(x, c, dec_digits(n));
}

/// Every byte is ASCII.
pub open spec fn all_ascii(b: Seq<u8>) -> bool {
    forall|i: int| 0 <= i < b.len() ==> #[trigger] b[i] < 128
}

pub proof fn lemma_dec_digits_ascii(n: nat)
    ensures
        all_ascii(dec_digits(n)),
{
    lemma_dec_digits(n);
    assert forall|i: int| 0 <= i < dec_digits(n).len() implies #[trigger] dec_digits(n)[i] < 128 by {
        assert(is_digit(dec_digits(n)[i]));
    }
}

/// ASCII bytes read as characters are ASCII characters.
pub proof fn lemma_ascii_chars(b: Seq<u8>)
    requires
        all_ascii(b),
    ensures
        vstd::utf8::is_ascii_chars(ascii_chars(b)),
        vstd::utf8::encode_utf8(ascii_chars(b)) == b,
{
    let c = ascii_chars(b);
    assert forall|i: int| 0 <= i < c.len() implies '\0' <= #[trigger] c[i] <= '\u{7f}' by {
        assert(b[i] < 128);
    }
    vstd::utf8::is_ascii_chars_encode_utf8(c);
    assert(vstd::utf8::encode_utf8(c) =~= b);
}

/// Whether two strings hold the same characters.
pub fn str_eq(a: &str, b: &str) -> (r: bool)
    ensures
        r == (a@ == b@),
{
    let x = a.as_bytes();
    let y = b.as_bytes();
    proof {
        vstd::utf8::encode_utf8_decode_utf8(a@);
        vstd::utf8::encode_utf8_decode_utf8(b@);
    }
    if x.len() != y.len() {
        return false;
    }
    let n = x.len();
    let mut i: usize = 0;
    while i < n
        invariant
            n == x@.len() == y@.len(),
            i <= n,
            x@ == vstd::utf8::encode_utf8(a@),
            y@ == vstd::utf8::encode_utf8(b@),
            forall|j: int| 0 <= j < i ==> x@[j] == y@[j],
        decreases n - i,
    {
        if x[i] != y[i] {
            return false;
        }
        i += 1;
    }
    proof {
        assert(x@ =~= y@);
    }
    true
}

} // verus!
