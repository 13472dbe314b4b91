//! Reading the bytes a process writes as text.

use vstd::prelude::*;

use crate::text::string_push;

verus! {

/// The UTF-16 code units of `bytes` read two by two, little-endian; a last
/// odd byte is left out.
pub open spec fn utf16_units(bytes: Seq<u8>) -> Seq<u16> {
    Seq::new(bytes.len() / 2, |i: int| (bytes[2 * i] as int + 256 * (bytes[2 * i + 1] as int)) as u16)
}

/// A high (leading) surrogate.
pub open spec fn is_high_surrogate(u: u16) -> bool {
    0xD800 <= u <= 0xDBFF
}

/// A low (trailing) surrogate.
pub open spec fn is_low_surrogate(u: u16) -> bool {
    0xDC00 <= u <= 0xDFFF
}

/// The character of a surrogate pair.
pub open spec fn pair_value(hi: u16, lo: u16) -> u32 {
    (0x10000 + (hi - 0xD800) * 0x400 + (lo - 0xDC00)) as u32
}

/// The replacement character U+FFFD.
pub open spec fn replacement() -> char {
    '\u{FFFD}'
}

/// What UTF-16 code units read as, with an unpaired surrogate read as
/// U+FFFD (as `String::from_utf16_lossy` reads them).
pub open spec fn utf16_decode(u: Seq<u16>) -> Seq<char>
    decreases u.len(),
{
    if u.len() == 0 {
        Seq::empty()
    } else if is_high_surrogate(u[0]) && u.len() >= 2 && is_low_surrogate(u[1]) {
        seq![pair_value(u[0], u[1]) as char] + utf16_decode(u.skip(2))
    } else if is_high_surrogate(u[0]) || is_low_surrogate(u[0]) {
        seq![replacement()] + utf16_decode(u.skip(1))
    } else {
        seq![u[0] as char] + utf16_decode(u.skip(1))
    }
}

/// `char::from_u32`: the character with the value `x`, where `x` is a
/// Unicode scalar value (below U+D800, or from U+E000 to U+10FFFF).
#[verifier::external_body]
fn char_from_u32(x: u32) -> (r: Option<char>)
    ensures
        (x < 0xD800 || (0xE000 <= x && x <= 0x10FFFF)) ==> r == Some(x as char),
{
    char::from_u32(x)
}

/// The text of `bytes` written as UTF-16 (little-endian), an unpaired
/// surrogate read as U+FFFD and a last odd byte left out.
pub fn decode_utf16_lossy(bytes: &Vec<u8>) -> (r: String)
    ensures
        r@ == utf16_decode(utf16_units(bytes@)),
{
    let blen = bytes.len();
    let n = blen / 2;
    assert(2 * n <= bytes@.len()) by (nonlinear_arith)
        requires
            n == bytes@.len() / 2,
    ;
    let mut units: Vec<u16> = Vec::new();
    let mut k: usize = 0;
    while k < n
        invariant
            n == bytes@.len() / 2,
            blen == bytes@.len(),
            2 * n <= bytes@.len(),
            k <= n,
            units@ == utf16_units(bytes@).take(k as int),
        decreases n - k,
    {
        assert(2 * k + 1 < bytes@.len());
        let lo = bytes[2 * k] as u16;
        let hi = bytes[2 * k + 1] as u16;
        let u = lo + 256 * hi;
        units.push(u);
        proof {
            assert(utf16_units(bytes@).take(k + 1) =~= utf16_units(bytes@).take(k as int).push(u));
        }
        k = k + 1;
    }
    assert(units@ =~= utf16_units(bytes@));
    let ghost all = units@;
    let mut out = String::new();
    let mut i: usize = 0;
    while i < units.len()
        invariant
            i <= units@.len(),
            units@ == all,
            utf16_decode(all) == out@ + utf16_decode(all.skip(i as int)),
        decreases units.len() - i,
    {
        let u = units[i];
        let ghost rest = all.skip(i as int);
        if 0xD800 <= u && u <= 0xDBFF && i + 1 < units.len() && 0xDC00 <= units[i + 1] && units[i + 1] <= 0xDFFF {
            let v: u32 = 0x10000 + ((u - 0xD800) as u32) * 0x400 + ((units[i + 1] - 0xDC00) as u32);
            assert(v == pair_value(u, units@[i + 1]));
            let c = match char_from_u32(v) {
                Some(c) => c,
                None => '\u{FFFD}',
            };
            string_push(&mut out, c);
            proof {
                assert(rest.skip(2) =~= all.skip(i + 2));
            }
            i = i + 2;
        } else if 0xD800 <= u && u <= 0xDFFF {
            string_push(&mut out, '\u{FFFD}');
            proof {
                assert(rest.skip(1) =~= all.skip(i + 1));
            }
            i = i + 1;
        } else {
            let c = match char_from_u32(u as u32) {
                Some(c) => c,
                None => '\u{FFFD}',
            };
            proof {
                assert(c == u as char);
                assert(rest.skip(1) =~= all.skip(i + 1));
            }
            string_push(&mut out, c);
            i = i + 1;
        }
    }
    proof {
        assert(all.skip(all.len() as int) =~= Seq::<u16>::empty());
    }
    out
}

} // verus!
