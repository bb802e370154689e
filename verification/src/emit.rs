//! Byte-level JSON emission: escaping, quoting, and decimal rendering.
//!
//! The descriptor document is produced as a vector of bytes; every emitting
//! function states exactly which bytes it appends.

use vstd::prelude::*;
use vstd::string::StringSliceAdditionalSpecFns;

verus! {

/// The UTF-8 bytes of a string slice; used to name literal document pieces.
pub open spec fn lit(s: &str) -> Seq<u8> {
    s.spec_bytes()
}

/// Lower-case hexadecimal digit for a value below 16.
pub open spec fn hex_digit(d: u8) -> u8 {
    if d < 10 {
        (48 + d) as u8
    } else {
        (87 + d) as u8
    }
}

/// How one byte of a string value is written inside a JSON string:
/// quote and backslash get a backslash escape, the common control
/// characters get their short escapes, other control bytes are written
/// as `\u00XY`, and everything else stands for itself.
pub open spec fn escaped_byte(b: u8) -> Seq<u8> {
    if b == 34 {
        seq![92u8, 34u8]
    } else if b == 92 {
        seq![92u8, 92u8]
    } else if b == 8 {
        seq![92u8, 98u8]
    } else if b == 9 {
        seq![92u8, 116u8]
    } else if b == 10 {
        seq![92u8, 110u8]
    } else if b == 12 {
        seq![92u8, 102u8]
    } else if b == 13 {
        seq![92u8, 114u8]
    } else if b < 32 {
        seq![92u8, 117u8, 48u8, 48u8, hex_digit((b / 16) as u8), hex_digit((b % 16) as u8)]
    } else {
        seq![b]
    }
}

/// A whole byte string with every byte escaped.
pub open spec fn json_escaped(s: Seq<u8>) -> Seq<u8>
    decreases s.len(),
{
    if s.len() == 0 {
        Seq::empty()
    } else {
        escaped_byte(s[0]) + json_escaped(s.drop_first())
    }
}

/// A JSON string value: quote, escaped bytes, quote.
pub open spec fn json_quoted(s: Seq<u8>) -> Seq<u8> {
    seq![34u8] + json_escaped(s) + seq![34u8]
}

/// Decimal digits of a number, most significant first.
pub open spec fn dec_bytes(n: nat) -> Seq<u8>
    decreases n,
{
    if n < 10 {
        seq![(48 + n) as u8]
    } else {
        dec_bytes(n / 10) + seq![(48 + n % 10) as u8]
    }
}

/// Escaping distributes over appending one byte at the end.
proof fn lemma_escaped_push(s: Seq<u8>, x: u8)
    ensures
        json_escaped(s.push(x)) == json_escaped(s) + escaped_byte(x),
    decreases s.len(),
{
    if s.len() == 0 {
        assert(s.push(x)[0] == x);
        assert(s.push(x).drop_first() =~= Seq::<u8>::empty());
        assert(json_escaped(s.push(x)) =~= escaped_byte(x) + json_escaped(Seq::<u8>::empty()));
        assert(escaped_byte(x) + Seq::<u8>::empty() =~= escaped_byte(x));
        assert(json_escaped(s) + escaped_byte(x) =~= escaped_byte(x));
    } else {
        lemma_escaped_push(s.drop_first(), x);
        assert(s.push(x).drop_first() =~= s.drop_first().push(x));
        assert(json_escaped(s.push(x)) =~= json_escaped(s) + escaped_byte(x));
    }
}

/// Appends the bytes of a literal piece of the document.
pub fn append_lit(out: &mut Vec<u8>, piece: &str)
    ensures
        final(out)@ == old(out)@ + lit(piece),
{
    let bytes: &[u8] = piece.as_bytes();
    let mut i: usize = 0;
    while i < bytes.len()
        invariant
            bytes@ == lit(piece),
            i <= bytes@.len(),
            out@ == old(out)@ + bytes@.subrange(0, i as int),
        decreases bytes@.len() - i,
    {
        let b: u8 = bytes[i];
        out.push(b);
        proof {
            assert(bytes@.subrange(0, i + 1 as int) =~= bytes@.subrange(0, i as int).push(b));
        }
        i = i + 1;
    }
    proof {
        assert(bytes@.subrange(0, bytes@.len() as int) =~= bytes@);
    }
}

/// Appends a string value with every byte escaped.
#[verifier::rlimit(100)]
pub fn append_escaped(out: &mut Vec<u8>, s: &Vec<u8>)
    ensures
        final(out)@ == old(out)@ + json_escaped(s@),
{
    let mut i: usize = 0;
    while i < s.len()
        invariant
            i <= s@.len(),
            out@ == old(out)@ + json_escaped(s@.subrange(0, i as int)),
        decreases s@.len() - i,
    {
        let b: u8 = s[i];
        if b == 34 || b == 92 {
            out.push(92);
            out.push(b);
        } else if b == 8 {
            out.push(92);
            out.push(98);
        } else if b == 9 {
            out.push(92);
            out.push(116);
        } else if b == 10 {
            out.push(92);
            out.push(110);
        } else if b == 12 {
            out.push(92);
            out.push(102);
        } else if b == 13 {
            out.push(92);
            out.push(114);
        } else if b < 32 {
            out.push(92);
            out.push(117);
            out.push(48);
            out.push(48);
            out.push(if b / 16 < 10 { 48 + b / 16 } else { 87 + b / 16 });
            out.push(if b % 16 < 10 { 48 + b % 16 } else { 87 + b % 16 });
        } else {
            out.push(b);
        }
        proof {
            lemma_escaped_push(s@.subrange(0, i as int), b);
            assert(s@.subrange(0, i + 1 as int) =~= s@.subrange(0, i as int).push(b));
        }
        i = i + 1;
    }
    proof {
        assert(s@.subrange(0, s@.len() as int) =~= s@);
    }
}

/// Appends bytes unchanged.
#[verifier::rlimit(100)]
pub fn append_bytes(out: &mut Vec<u8>, s: &Vec<u8>)
    ensures
        final(out)@ == old(out)@ + s@,
{
    let mut i: usize = 0;
    while i < s.len()
        invariant
            i <= s@.len(),
            out@ == old(out)@ + s@.subrange(0, i as int),
        decreases s@.len() - i,
    {
        let b: u8 = s[i];
        out.push(b);
        proof {
            assert(s@.subrange(0, i + 1 as int) =~= s@.subrange(0, i as int).push(b));
        }
        i = i + 1;
    }
    proof {
        assert(s@.subrange(0, s@.len() as int) =~= s@);
    }
}

/// Appends a quoted JSON string value.
pub fn append_quoted(out: &mut Vec<u8>, s: &Vec<u8>)
    ensures
        final(out)@ == old(out)@ + json_quoted(s@),
{
    out.push(34);
    append_escaped(out, s);
    out.push(34);
}

/// Appends the decimal rendering of a number.
pub fn append_u64(out: &mut Vec<u8>, n: u64)
    ensures
        final(out)@ == old(out)@ + dec_bytes(n as nat),
    decreases n,
{
    if n < 10 {
        out.push(48 + n as u8);
    } else {
        append_u64(out, n / 10);
        out.push(48 + (n % 10) as u8);
    }
}

} // verus!
