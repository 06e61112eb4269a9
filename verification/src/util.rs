//! Small verified helpers shared by the other modules: copying byte
//! vectors, decimal rendering of counters for status messages, and the
//! hexadecimal encoding used by the external address format.

use vstd::prelude::*;

verus! {

/// Relies on String::push: appends exactly one character to the string.
#[verifier::external_body]
pub fn string_push(s: &mut String, c: char)
    ensures
        final(s)@ == old(s)@.push(c),
{
    s.push(c);
}

/// An exact copy of a byte vector.
pub fn copy_bytes(v: &Vec<u8>) -> (r: Vec<u8>)
    ensures
        r@ == v@,
{
    let mut r: Vec<u8> = Vec::new();
    let mut i: usize = 0;
    while i < v.len()
        invariant
            i <= v.len(),
            r@ == v@.subrange(0, i as int),
        decreases v.len() - i,
    {
        r.push(v[i]);
        i = i + 1;
        proof {
            assert(r@ =~= v@.subrange(0, i as int));
        }
    }
    proof {
        assert(r@ =~= v@);
    }
    r
}

/// The decimal digits of `n`, most significant first.
pub open spec fn spec_decimal(n: nat) -> Seq<char>
    decreases n,
{
    if n < 10 {
        seq![digit_char(n)]
    } else {
        spec_decimal(n / 10).push(digit_char(n % 10))
    }
}

/// The character for a single decimal digit.
pub open spec fn digit_char(d: nat) -> char {
    if d == 0 { '0' }
    else if d == 1 { '1' }
    else if d == 2 { '2' }
    else if d == 3 { '3' }
    else if d == 4 { '4' }
    else if d == 5 { '5' }
    else if d == 6 { '6' }
    else if d == 7 { '7' }
    else if d == 8 { '8' }
    else { '9' }
}

fn digit_to_char(d: u64) -> (c: char)
    requires
        d < 10,
    ensures
        c == digit_char(d as nat),
{
    if d == 0 { '0' }
    else if d == 1 { '1' }
    else if d == 2 { '2' }
    else if d == 3 { '3' }
    else if d == 4 { '4' }
    else if d == 5 { '5' }
    else if d == 6 { '6' }
    else if d == 7 { '7' }
    else if d == 8 { '8' }
    else { '9' }
}

/// Renders `n` in decimal, without leading zeros.
pub fn u64_to_decimal(n: u64) -> (s: String)
    ensures
        s@ == spec_decimal(n as nat),
{
    let mut digits: Vec<char> = Vec::new();
    let mut rest: u64 = n;
    loop
        invariant_except_break
            spec_decimal(n as nat) == spec_decimal(rest as nat) + digits@.reverse(),
        ensures
            spec_decimal(n as nat) == digits@.reverse(),
        decreases rest,
    {
        let d = rest % 10;
        let next = rest / 10;
        let c = digit_to_char(d);
        proof {
            if next > 0 {
                assert(spec_decimal(rest as nat) == spec_decimal((rest as nat) / 10).push(
                    digit_char((rest as nat) % 10),
                ));
                assert(spec_decimal(next as nat) + digits@.push(c).reverse()
                    =~= spec_decimal(next as nat).push(c) + digits@.reverse());
            } else {
                assert(spec_decimal(rest as nat) == seq![digit_char((rest as nat) % 10)]);
                assert(seq![c] + digits@.reverse() =~= digits@.push(c).reverse());
            }
        }
        digits.push(c);
        if next == 0 {
            break;
        }
        rest = next;
    }
    let mut s = String::new();
    let mut i: usize = digits.len();
    proof {
        assert(s@ =~= digits@.reverse().subrange(0, 0));
    }
    while i > 0
        invariant
            i <= digits.len(),
            digits@.reverse() == spec_decimal(n as nat),
            s@ == digits@.reverse().subrange(0, digits@.len() - i),
        decreases i,
    {
        i = i - 1;
        let c = digits[i];
        string_push(&mut s, c);
        proof {
            assert(s@ =~= digits@.reverse().subrange(0, digits@.len() - i));
        }
    }
    proof {
        assert(s@ =~= spec_decimal(n as nat));
    }
    s
}

/// The lower-case character for one hexadecimal digit.
pub open spec fn hex_char(d: nat) -> char {
    if d == 0 { '0' }
    else if d == 1 { '1' }
    else if d == 2 { '2' }
    else if d == 3 { '3' }
    else if d == 4 { '4' }
    else if d == 5 { '5' }
    else if d == 6 { '6' }
    else if d == 7 { '7' }
    else if d == 8 { '8' }
    else if d == 9 { '9' }
    else if d == 10 { 'a' }
    else if d == 11 { 'b' }
    else if d == 12 { 'c' }
    else if d == 13 { 'd' }
    else if d == 14 { 'e' }
    else { 'f' }
}

/// Lower-case hexadecimal rendering: two digits per byte, high nibble first.
pub open spec fn spec_hex(data: Seq<u8>) -> Seq<char>
    decreases data.len(),
{
    if data.len() == 0 {
        Seq::<char>::empty()
    } else {
        seq![
            hex_char((data.first() / 16) as nat),
            hex_char((data.first() % 16) as nat),
        ] + spec_hex(data.drop_first())
    }
}

fn nibble_to_char(d: u8) -> (c: char)
    requires
        d < 16,
    ensures
        c == hex_char(d as nat),
{
    if d < 10 {
        digit_to_char(d as u64)
    } else if d == 10 { 'a' }
    else if d == 11 { 'b' }
    else if d == 12 { 'c' }
    else if d == 13 { 'd' }
    else if d == 14 { 'e' }
    else { 'f' }
}

/// Renders a byte string as lower-case hexadecimal text.
pub fn bytes_to_hex(data: &Vec<u8>) -> (s: String)
    ensures
        s@ == spec_hex(data@),
{
    let mut s = String::new();
    let mut i: usize = 0;
    proof {
        assert(data@.skip(0) =~= data@);
    }
    while i < data.len()
        invariant
            i <= data.len(),
            spec_hex(data@) == s@ + spec_hex(data@.skip(i as int)),
            s@.len() == 2 * i,
        decreases data.len() - i,
    {
        let b = data[i];
        let hi = b / 16;
        let lo = b % 16;
        string_push(&mut s, nibble_to_char(hi));
        string_push(&mut s, nibble_to_char(lo));
        proof {
            assert(data@.skip(i as int).drop_first() =~= data@.skip(i + 1));
            assert(data@.skip(i as int).first() == data@[i as int]);
        }
        i = i + 1;
    }
    proof {
        assert(data@.skip(data@.len() as int) =~= Seq::<u8>::empty());
        assert(spec_hex(data@) =~= s@);
    }
    s
}

/// The numeric value of a hexadecimal digit character, upper or lower case.
pub open spec fn hex_digit_value(c: char) -> Option<u8> {
    if c == '0' { Some(0u8) }
    else if c == '1' { Some(1u8) }
    else if c == '2' { Some(2u8) }
    else if c == '3' { Some(3u8) }
    else if c == '4' { Some(4u8) }
    else if c == '5' { Some(5u8) }
    else if c == '6' { Some(6u8) }
    else if c == '7' { Some(7u8) }
    else if c == '8' { Some(8u8) }
    else if c == '9' { Some(9u8) }
    else if c == 'a' || c == 'A' { Some(10u8) }
    else if c == 'b' || c == 'B' { Some(11u8) }
    else if c == 'c' || c == 'C' { Some(12u8) }
    else if c == 'd' || c == 'D' { Some(13u8) }
    else if c == 'e' || c == 'E' { Some(14u8) }
    else if c == 'f' || c == 'F' { Some(15u8) }
    else { None }
}

fn hex_digit(c: char) -> (r: Option<u8>)
    ensures
        r == hex_digit_value(c),
{
    if c == '0' { Some(0u8) }
    else if c == '1' { Some(1u8) }
    else if c == '2' { Some(2u8) }
    else if c == '3' { Some(3u8) }
    else if c == '4' { Some(4u8) }
    else if c == '5' { Some(5u8) }
    else if c == '6' { Some(6u8) }
    else if c == '7' { Some(7u8) }
    else if c == '8' { Some(8u8) }
    else if c == '9' { Some(9u8) }
    else if c == 'a' || c == 'A' { Some(10u8) }
    else if c == 'b' || c == 'B' { Some(11u8) }
    else if c == 'c' || c == 'C' { Some(12u8) }
    else if c == 'd' || c == 'D' { Some(13u8) }
    else if c == 'e' || c == 'E' { Some(14u8) }
    else if c == 'f' || c == 'F' { Some(15u8) }
    else { None }
}

/// The bytes denoted by hexadecimal text, if it is well formed: an even
/// number of characters, each a hexadecimal digit.
pub open spec fn spec_unhex(s: Seq<char>) -> Option<Seq<u8>>
    decreases s.len(),
{
    if s.len() == 0 {
        Some(Seq::<u8>::empty())
    } else if s.len() == 1 {
        None
    } else {
        match (hex_digit_value(s[0]), hex_digit_value(s[1])) {
            (Some(hi), Some(lo)) => match spec_unhex(s.skip(2)) {
                Some(rest) => Some(seq![(hi * 16 + lo) as u8] + rest),
                None => None,
            },
            _ => None,
        }
    }
}

/// Decodes hexadecimal text to bytes; `None` when the text is malformed.
pub fn hex_to_bytes(s: &str) -> (r: Option<Vec<u8>>)
    ensures
        match r {
            Some(v) => spec_unhex(s@) == Some(v@),
            None => spec_unhex(s@) is None,
        },
{
    let len = s.unicode_len();
    if len % 2 != 0 {
        proof {
            lemma_unhex_odd(s@);
        }
        return None;
    }
    let mut out: Vec<u8> = Vec::new();
    let mut i: usize = 0;
    proof {
        assert(s@.skip(0) =~= s@);
    }
    while i < len
        invariant
            i <= len,
            i % 2 == 0,
            len % 2 == 0,
            len == s@.len(),
            out@.len() == i / 2,
            spec_unhex(s@) == (match spec_unhex(s@.skip(i as int)) {
                Some(tail) => Some(out@ + tail),
                None => None::<Seq<u8>>,
            }),
        decreases len - i,
    {
        let c0 = s.get_char(i);
        let c1 = s.get_char(i + 1);
        let d0 = hex_digit(c0);
        let d1 = hex_digit(c1);
        proof {
            assert(s@.skip(i as int)[0] == s@[i as int]);
            assert(s@.skip(i as int)[1] == s@[i + 1]);
            assert(s@.skip(i as int).len() >= 2);
        }
        match (d0, d1) {
            (Some(hi), Some(lo)) => {
                out.push(hi * 16 + lo);
                proof {
                    assert(s@.skip(i as int).skip(2) =~= s@.skip(i + 2));
                }
                i = i + 2;
            },
            _ => {
                return None;
            },
        }
    }
    proof {
        assert(s@.skip(len as int) =~= Seq::<char>::empty());
        assert(spec_unhex(s@) == Some(out@ + Seq::<u8>::empty()));
        assert(out@ + Seq::<u8>::empty() =~= out@);
    }
    Some(out)
}

/// Hexadecimal text of odd length never decodes.
proof fn lemma_unhex_odd(s: Seq<char>)
    requires
        s.len() % 2 == 1,
    ensures
        spec_unhex(s) is None,
    decreases s.len(),
{
    if s.len() > 1 {
        lemma_unhex_odd(s.skip(2));
    }
}

/// Decoding inverts encoding: the hexadecimal text of any byte string
/// decodes back to exactly those bytes.
pub proof fn lemma_hex_round_trip(data: Seq<u8>)
    ensures
        spec_unhex(spec_hex(data)) == Some(data),
    decreases data.len(),
{
    if data.len() == 0 {
    } else {
        let b = data.first();
        let hi = (b / 16) as nat;
        let lo = (b % 16) as nat;
        lemma_hex_round_trip(data.drop_first());
        let s = spec_hex(data);
        assert(s[0] == hex_char(hi));
        assert(s[1] == hex_char(lo));
        assert(hex_digit_value(hex_char(hi)) == Some((hi as u8)));
        assert(hex_digit_value(hex_char(lo)) == Some((lo as u8)));
        assert(s.skip(2) =~= spec_hex(data.drop_first()));
        assert(seq![(b / 16 * 16 + b % 16) as u8] + data.drop_first() =~= data);
    }
}

} // verus!
