//! Textual forms of the identifier written by the library itself: parsing a
//! 32-digit dashless hexadecimal text, and printing the canonical hyphenated
//! form, both specified exactly.

use vstd::prelude::*;
use vstd::string::StrSliceExecFns;
use vstd::string::StringExecFns;

verus! {

/// A hexadecimal digit character, either case.
pub open spec fn is_hex_digit(c: char) -> bool {
    ('0' <= c && c <= '9') || ('a' <= c && c <= 'f') || ('A' <= c && c <= 'F')
}

/// The numeric value of a hexadecimal digit character.
pub open spec fn hex_val(c: char) -> u8
    recommends
        is_hex_digit(c),
{
    if '0' <= c && c <= '9' {
        (c as u32 - '0' as u32) as u8
    } else if 'a' <= c && c <= 'f' {
        (10 + c as u32 - 'a' as u32) as u8
    } else {
        (10 + c as u32 - 'A' as u32) as u8
    }
}

/// A 32-character dashless hexadecimal identifier text.
pub open spec fn is_hex32(s: Seq<char>) -> bool {
    s.len() == 32 && (forall|i: int| 0 <= i < 32 ==> is_hex_digit(#[trigger] s[i]))
}

/// The 16 bytes a 32-digit hexadecimal text denotes, two digits a byte,
/// high digit first.
pub open spec fn hex32_bytes(s: Seq<char>) -> Seq<u8>
    recommends
        is_hex32(s),
{
    Seq::new(16, |i: int| (hex_val(s[2 * i]) * 16 + hex_val(s[2 * i + 1])) as u8)
}

/// The lowercase hexadecimal digit for a value below 16.
pub open spec fn hex_char(n: u8) -> char
    recommends
        n < 16,
{
    if n == 0 {
        '0'
    } else if n == 1 {
        '1'
    } else if n == 2 {
        '2'
    } else if n == 3 {
        '3'
    } else if n == 4 {
        '4'
    } else if n == 5 {
        '5'
    } else if n == 6 {
        '6'
    } else if n == 7 {
        '7'
    } else if n == 8 {
        '8'
    } else if n == 9 {
        '9'
    } else if n == 10 {
        'a'
    } else if n == 11 {
        'b'
    } else if n == 12 {
        'c'
    } else if n == 13 {
        'd'
    } else if n == 14 {
        'e'
    } else {
        'f'
    }
}

/// The two lowercase hexadecimal digits of a byte, high digit first.
pub open spec fn hex_pair(b: u8) -> Seq<char> {
    seq![hex_char(b / 16), hex_char(b % 16)]
}

/// The lowercase hexadecimal text of a byte sequence.
pub open spec fn hex_of(b: Seq<u8>) -> Seq<char>
    decreases b.len(),
{
    if b.len() == 0 {
        Seq::empty()
    } else {
        hex_of(b.drop_last()) + hex_pair(b.last())
    }
}

/// The canonical hyphenated text of a 16-byte identifier: its 32 lowercase
/// hexadecimal digits broken 8-4-4-4-12 by hyphens.
pub open spec fn hyphenated_str(u: Seq<u8>) -> Seq<char>
    recommends
        u.len() == 16,
{
    hex_of(u.subrange(0, 4)) + seq!['-'] + hex_of(u.subrange(4, 6)) + seq!['-'] + hex_of(
        u.subrange(6, 8),
    ) + seq!['-'] + hex_of(u.subrange(8, 10)) + seq!['-'] + hex_of(u.subrange(10, 16))
}

/// The value of one hexadecimal digit character, or nothing if `c` is no
/// such digit.
pub fn hex_digit_val(c: char) -> (r: Option<u8>)
    ensures
        r is Some <==> is_hex_digit(c),
        r matches Some(v) ==> v == hex_val(c) && v < 16,
{
    if '0' <= c && c <= '9' {
        Some((c as u32 - '0' as u32) as u8)
    } else if 'a' <= c && c <= 'f' {
        Some((10 + c as u32 - 'a' as u32) as u8)
    } else if 'A' <= c && c <= 'F' {
        Some((10 + c as u32 - 'A' as u32) as u8)
    } else {
        None
    }
}

/// Parses a 32-digit dashless hexadecimal text into its 16 bytes; rejects
/// any other text.
pub fn parse_hex32(s: &str) -> (r: Option<Vec<u8>>)
    ensures
        r is Some <==> is_hex32(s@),
        r matches Some(v) ==> v@ == hex32_bytes(s@),
{
    let n = s.unicode_len();
    if n != 32 {
        return None;
    }
    let mut out: Vec<u8> = Vec::new();
    let mut i: usize = 0;
    while i < 16
        invariant
            i <= 16,
            s@.len() == 32,
            out@.len() == i,
            forall|t: int| 0 <= t < 2 * i ==> is_hex_digit(#[trigger] s@[t]),
            forall|t: int| 0 <= t < i ==> out@[t] == (hex_val(s@[2 * t]) * 16 + hex_val(
                s@[2 * t + 1],
            )) as u8,
        decreases 16 - i,
    {
        let c_hi = s.get_char(2 * i);
        let c_lo = s.get_char(2 * i + 1);
        let hi = match hex_digit_val(c_hi) {
            Some(v) => v,
            None => { return None; },
        };
        let lo = match hex_digit_val(c_lo) {
            Some(v) => v,
            None => { return None; },
        };
        out.push(hi * 16 + lo);
        i += 1;
    }
    proof {
        assert(out@ =~= hex32_bytes(s@));
    }
    Some(out)
}

/// The single-character text of a lowercase hexadecimal digit.
fn hex_char_str(n: u8) -> (r: &'static str)
    requires
        n < 16,
    ensures
        r@ == seq![hex_char(n)],
{
    if n == 0 {
        let r = "0";
        proof {
            reveal_strlit("0");
            assert(r@ =~= seq![hex_char(n)]);
        }
        r
    } else if n == 1 {
        let r = "1";
        proof {
            reveal_strlit("1");
            assert(r@ =~= seq![hex_char(n)]);
        }
        r
    } else if n == 2 {
        let r = "2";
        proof {
            reveal_strlit("2");
            assert(r@ =~= seq![hex_char(n)]);
        }
        r
    } else if n == 3 {
        let r = "3";
        proof {
            reveal_strlit("3");
            assert(r@ =~= seq![hex_char(n)]);
        }
        r
    } else if n == 4 {
        let r = "4";
        proof {
            reveal_strlit("4");
            assert(r@ =~= seq![hex_char(n)]);
        }
        r
    } else if n == 5 {
        let r = "5";
        proof {
            reveal_strlit("5");
            assert(r@ =~= seq![hex_char(n)]);
        }
        r
    } else if n == 6 {
        let r = "6";
        proof {
            reveal_strlit("6");
            assert(r@ =~= seq![hex_char(n)]);
        }
        r
    } else if n == 7 {
        let r = "7";
        proof {
            reveal_strlit("7");
            assert(r@ =~= seq![hex_char(n)]);
        }
        r
    } else if n == 8 {
        let r = "8";
        proof {
            reveal_strlit("8");
            assert(r@ =~= seq![hex_char(n)]);
        }
        r
    } else if n == 9 {
        let r = "9";
        proof {
            reveal_strlit("9");
            assert(r@ =~= seq![hex_char(n)]);
        }
        r
    } else if n == 10 {
        let r = "a";
        proof {
            reveal_strlit("a");
            assert(r@ =~= seq![hex_char(n)]);
        }
        r
    } else if n == 11 {
        let r = "b";
        proof {
            reveal_strlit("b");
            assert(r@ =~= seq![hex_char(n)]);
        }
        r
    } else if n == 12 {
        let r = "c";
        proof {
            reveal_strlit("c");
            assert(r@ =~= seq![hex_char(n)]);
        }
        r
    } else if n == 13 {
        let r = "d";
        proof {
            reveal_strlit("d");
            assert(r@ =~= seq![hex_char(n)]);
        }
        r
    } else if n == 14 {
        let r = "e";
        proof {
            reveal_strlit("e");
            assert(r@ =~= seq![hex_char(n)]);
        }
        r
    } else {
        let r = "f";
        proof {
            reveal_strlit("f");
            assert(r@ =~= seq![hex_char(n)]);
        }
        r
    }
}

/// Appends the lowercase hexadecimal digits of `bytes[from..to]` to `s`.
fn append_hex(s: &mut String, bytes: &[u8], from: usize, to: usize)
    requires
        from <= to <= bytes@.len(),
    ensures
        final(s)@ == old(s)@ + hex_of(bytes@.subrange(from as int, to as int)),
{
    proof {
        assert(bytes@.subrange(from as int, from as int) =~= Seq::<u8>::empty());
        assert(old(s)@ + hex_of(Seq::<u8>::empty()) =~= old(s)@);
    }
    let mut i = from;
    while i < to
        invariant
            from <= i <= to <= bytes@.len(),
            s@ == old(s)@ + hex_of(bytes@.subrange(from as int, i as int)),
        decreases to - i,
    {
        let b = bytes[i];
        s.append(hex_char_str(b / 16));
        s.append(hex_char_str(b % 16));
        proof {
            let sub1 = bytes@.subrange(from as int, i + 1);
            assert(sub1.drop_last() =~= bytes@.subrange(from as int, i as int));
            assert(sub1.last() == bytes@[i as int]);
            assert(s@ =~= old(s)@ + hex_of(sub1));
        }
        i += 1;
    }
}

/// Prints a 16-byte identifier in its canonical hyphenated form.
pub fn format_hyphenated(bytes: &[u8]) -> (r: String)
    requires
        bytes@.len() == 16,
    ensures
        r@ == hyphenated_str(bytes@),
{
    let mut s = String::new();
    append_hex(&mut s, bytes, 0, 4);
    s.append("-");
    append_hex(&mut s, bytes, 4, 6);
    s.append("-");
    append_hex(&mut s, bytes, 6, 8);
    s.append("-");
    append_hex(&mut s, bytes, 8, 10);
    s.append("-");
    append_hex(&mut s, bytes, 10, 16);
    proof {
        reveal_strlit("-");
        assert("-"@ =~= seq!['-']);
        assert(s@ =~= hyphenated_str(bytes@));
    }
    s
}

} // verus!
