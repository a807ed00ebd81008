//! Hexadecimal text of bytes, and outpoints written as `<txid>:<vout>`.
use vstd::prelude::*;

verus! {

/// The value of a hexadecimal digit, either case.
pub open spec fn hex_digit(c: char) -> Option<u8> {
    if '0' <= c && c <= '9' {
        Some((c as u32 - '0' as u32) as u8)
    } else if 'a' <= c && c <= 'f' {
        Some((c as u32 - 'a' as u32 + 10) as u8)
    } else if 'A' <= c && c <= 'F' {
        Some((c as u32 - 'A' as u32 + 10) as u8)
    } else {
        None
    }
}

/// `s` is an even number of hexadecimal digits.
pub open spec fn is_hex(s: Seq<char>) -> bool {
    s.len() % 2 == 0 && forall|i: int| 0 <= i < s.len() ==> (#[trigger] hex_digit(s[i])) is Some
}

/// The bytes that the digit pairs of `s` spell.
pub open spec fn hex_bytes(s: Seq<char>) -> Seq<u8> {
    Seq::new(
        s.len() / 2,
        |i: int| (hex_digit(s[2 * i])->Some_0 * 16 + hex_digit(s[2 * i + 1])->Some_0) as u8,
    )
}

/// The lower-case digit of a value below sixteen.
pub open spec fn lower_hex_digit(v: u8) -> char {
    if v < 10 {
        (('0' as u32) + v as u32) as char
    } else {
        (('a' as u32) + v as u32 - 10) as char
    }
}

/// Each byte of `b` as two lower-case hexadecimal digits.
pub open spec fn hex_of(b: Seq<u8>) -> Seq<char> {
    Seq::new(
        2 * b.len(),
        |i: int|
            if i % 2 == 0 {
                lower_hex_digit(b[i / 2] / 16)
            } else {
                lower_hex_digit(b[i / 2] % 16)
            },
    )
}

fn hex_digit_value(c: char) -> (r: Option<u8>)
    ensures
        r == hex_digit(c),
{
    if '0' <= c && c <= '9' {
        Some((c as u32 - '0' as u32) as u8)
    } else if 'a' <= c && c <= 'f' {
        Some((c as u32 - 'a' as u32 + 10) as u8)
    } else if 'A' <= c && c <= 'F' {
        Some((c as u32 - 'A' as u32 + 10) as u8)
    } else {
        None
    }
}

/// Reads an even number of hexadecimal digits, either case, as bytes.
pub fn hex_decode(s: &str) -> (r: Option<Vec<u8>>)
    ensures
        r is Some <==> is_hex(s@),
        r matches Some(v) ==> v@ == hex_bytes(s@),
{
    let n = s.unicode_len();
    if n % 2 != 0 {
        return None;
    }
    let mut out: Vec<u8> = Vec::new();
    let mut i: usize = 0;
    while i < n
        invariant
            n == s@.len(),
            n % 2 == 0,
            i % 2 == 0,
            i <= n,
            out@.len() == i / 2,
            forall|j: int| 0 <= j < i ==> (#[trigger] hex_digit(s@[j])) is Some,
            forall|j: int| 0 <= j < i / 2 ==> out@[j] == hex_bytes(s@)[j],
        decreases n - i,
    {
        let hi = match hex_digit_value(s.get_char(i)) {
            Some(d) => d,
            None => {
                return None;
            },
        };
        let lo = match hex_digit_value(s.get_char(i + 1)) {
            Some(d) => d,
            None => {
                assert(hex_digit(s@[i + 1]) is None);
                return None;
            },
        };
        out.push((hi as u32 * 16 + lo as u32) as u8);
        proof {
            assert(2 * (i as int / 2) == i);
        }
        i = i + 2;
    }
    assert(out@ =~= hex_bytes(s@));
    Some(out)
}

/// Writes each byte as two lower-case hexadecimal digits.
pub fn hex_encode(b: &[u8]) -> (r: String)
    ensures
        r@ == hex_of(b@),
{
    let digits = "0123456789abcdef";
    let mut out = String::new();
    let mut i: usize = 0;
    while i < b.len()
        invariant
            i <= b@.len(),
            digits@ == "0123456789abcdef"@,
            out@ == hex_of(b@.subrange(0, i as int)),
        decreases b@.len() - i,
    {
        proof {
            reveal_strlit("0123456789abcdef");
        }
        let hi = (b[i] / 16) as usize;
        let lo = (b[i] % 16) as usize;
        out.append(digits.substring_char(hi, hi + 1));
        out.append(digits.substring_char(lo, lo + 1));
        proof {
            assert(digits@[hi as int] == lower_hex_digit(b@[i as int] / 16));
            assert(digits@[lo as int] == lower_hex_digit(b@[i as int] % 16));
            assert(out@ =~= hex_of(b@.subrange(0, i + 1)));
        }
        i = i + 1;
    }
    assert(b@.subrange(0, b@.len() as int) =~= b@);
    out
}

/// The value of a string of decimal digits.
pub open spec fn digits_value(s: Seq<char>) -> nat
    decreases s.len(),
{
    if s.len() == 0 {
        0
    } else {
        digits_value(s.drop_last()) * 10 + (s.last() as nat - '0' as nat) as nat
    }
}

/// Every character of `s` is a decimal digit.
pub open spec fn all_digits(s: Seq<char>) -> bool {
    forall|i: int| 0 <= i < s.len() ==> '0' <= #[trigger] s[i] && s[i] <= '9'
}

/// The output index that `s` writes: one or more decimal digits, without a
/// leading zero unless it is the only digit, whose value fits in 32 bits.
pub open spec fn vout_of(s: Seq<char>) -> Option<u32> {
    if s.len() > 0 && !(s.len() > 1 && s[0] == '0') && all_digits(s) && digits_value(s) <= u32::MAX {
        Some(digits_value(s) as u32)
    } else {
        None
    }
}

/// `b` in reverse order.
pub open spec fn reversed(b: Seq<u8>) -> Seq<u8> {
    Seq::new(b.len(), |i: int| b[b.len() - 1 - i])
}

/// The outpoint that `s` writes: 64 hexadecimal digits of the transaction id,
/// most significant byte first, a colon, and the output index. The result holds
/// the id's bytes in their internal order, least significant first.
pub open spec fn outpoint_of(s: Seq<char>) -> Option<(Seq<u8>, u32)> {
    if 66 <= s.len() <= 75 && s[64] == ':' && is_hex(s.subrange(0, 64)) && vout_of(
        s.subrange(65, s.len() as int),
    ) is Some {
        Some(
            (
                reversed(hex_bytes(s.subrange(0, 64))),
                vout_of(s.subrange(65, s.len() as int))->Some_0,
            ),
        )
    } else {
        None
    }
}

proof fn lemma_digits_value_grows(s: Seq<char>, k: int)
    requires
        0 <= k <= s.len(),
        all_digits(s),
    ensures
        digits_value(s.subrange(0, k)) <= digits_value(s),
    decreases s.len(),
{
    if k < s.len() {
        let t = s.drop_last();
        assert(all_digits(t)) by {
            assert forall|i: int| 0 <= i < t.len() implies '0' <= #[trigger] t[i] && t[i] <= '9' by {
                assert(t[i] == s[i]);
            }
        }
        lemma_digits_value_grows(t, k);
        assert(t.subrange(0, k) =~= s.subrange(0, k));
    } else {
        assert(s.subrange(0, k) =~= s);
    }
}

/// Reads the output index written in characters `start..` of `s`.
fn parse_vout(s: &str, start: usize) -> (r: Option<u32>)
    requires
        start <= s@.len(),
    ensures
        r == vout_of(s@.subrange(start as int, s@.len() as int)),
{
    let n = s.unicode_len();
    let ghost d = s@.subrange(start as int, n as int);
    if start == n {
        return None;
    }
    if n - start > 1 && s.get_char(start) == '0' {
        return None;
    }
    let mut acc: u32 = 0;
    let mut i: usize = start;
    while i < n
        invariant
            start <= i <= n,
            n == s@.len(),
            d == s@.subrange(start as int, n as int),
            d.len() > 0,
            !(d.len() > 1 && d[0] == '0'),
            all_digits(d.subrange(0, i - start)),
            acc == digits_value(d.subrange(0, i - start)),
        decreases n - i,
    {
        let c = s.get_char(i);
        let ghost k = i - start;
        assert(d[k] == c);
        if c < '0' || c > '9' {
            assert(!all_digits(d));
            return None;
        }
        let v = (c as u32 - '0' as u32);
        assert(d.subrange(0, k + 1).drop_last() =~= d.subrange(0, k));
        assert(all_digits(d.subrange(0, k + 1))) by {
            assert forall|j: int| 0 <= j < k + 1 implies '0' <= #[trigger] d.subrange(0, k + 1)[j]
                && d.subrange(0, k + 1)[j] <= '9' by {
                if j < k {
                    assert(d.subrange(0, k + 1)[j] == d.subrange(0, k)[j]);
                }
            }
        }
        if acc > (u32::MAX - v) / 10 {
            proof {
                assert(digits_value(d.subrange(0, k + 1)) > u32::MAX) by (nonlinear_arith)
                    requires
                        digits_value(d.subrange(0, k + 1)) == acc * 10 + v,
                        acc > (u32::MAX - v) / 10,
                        v <= 9,
                ;
                if all_digits(d) {
                    lemma_digits_value_grows(d, k + 1);
                }
            }
            return None;
        }
        assert(acc * 10 + v <= u32::MAX) by (nonlinear_arith)
            requires
                acc <= (u32::MAX - v) / 10,
                v <= 9,
        ;
        acc = acc * 10 + v;
        i = i + 1;
    }
    assert(d.subrange(0, n - start) =~= d);
    Some(acc)
}

/// Reads `<txid>:<vout>`: the transaction id's bytes in internal order, and
/// the output index.
pub fn parse_outpoint_text(s: &str) -> (r: Option<(Vec<u8>, u32)>)
    ensures
        r is Some <==> outpoint_of(s@) is Some,
        r matches Some(p) ==> outpoint_of(s@) == Some((p.0@, p.1)),
{
    let n = s.unicode_len();
    if n < 66 || n > 75 || s.get_char(64) != ':' {
        return None;
    }
    let bytes = match hex_decode(s.substring_char(0, 64)) {
        Some(b) => b,
        None => {
            return None;
        },
    };
    let vout = match parse_vout(s, 65) {
        Some(v) => v,
        None => {
            return None;
        },
    };
    let mut txid: Vec<u8> = Vec::new();
    let mut i: usize = bytes.len();
    while i > 0
        invariant
            i <= bytes@.len(),
            txid@.len() == bytes@.len() - i,
            forall|j: int| 0 <= j < txid@.len() ==> txid@[j] == bytes@[bytes@.len() - 1 - j],
        decreases i,
    {
        i = i - 1;
        txid.push(bytes[i]);
    }
    assert(txid@ =~= reversed(bytes@));
    Some((txid, vout))
}

} // verus!
