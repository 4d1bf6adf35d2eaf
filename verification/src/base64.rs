//! Base64 of a byte blob, standard alphabet with padding: the text that
//! stands under the `@bytes` key of an encoded blob.

use vstd::prelude::*;

verus! {

/// The base64 alphabet character for a six-bit value.
pub open spec fn b64_char(v: int) -> char {
    if v < 26 {
        (('A' as u8) + v) as char
    } else if v < 52 {
        (('a' as u8) + (v - 26)) as char
    } else if v < 62 {
        (('0' as u8) + (v - 52)) as char
    } else if v == 62 {
        '+'
    } else {
        '/'
    }
}

/// The base64 text of a byte sequence: three bytes become four alphabet
/// characters, and a final group of one or two bytes is padded with `=`.
pub open spec fn base64_text(b: Seq<u8>) -> Seq<char>
    decreases b.len(),
{
    if b.len() == 0 {
        Seq::empty()
    } else if b.len() == 1 {
        let v0 = b[0] as int;
        seq![b64_char(v0 / 4), b64_char((v0 % 4) * 16), '=', '=']
    } else if b.len() == 2 {
        let v0 = b[0] as int;
        let v1 = b[1] as int;
        seq![b64_char(v0 / 4), b64_char((v0 % 4) * 16 + v1 / 16), b64_char((v1 % 16) * 4), '=']
    } else {
        let v0 = b[0] as int;
        let v1 = b[1] as int;
        let v2 = b[2] as int;
        seq![
            b64_char(v0 / 4),
            b64_char((v0 % 4) * 16 + v1 / 16),
            b64_char((v1 % 16) * 4 + v2 / 64),
            b64_char(v2 % 64),
        ] + base64_text(b.skip(3))
    }
}

/// The base64 alphabet character for a six-bit value, executable form.
fn b64_char_exec(v: u8) -> (r: char)
    requires
        v < 64,
    ensures
        r == b64_char(v as int),
{
    if v < 26 {
        (('A' as u8) + v) as char
    } else if v < 52 {
        (('a' as u8) + (v - 26)) as char
    } else if v < 62 {
        (('0' as u8) + (v - 52)) as char
    } else if v == 62 {
        '+'
    } else {
        '/'
    }
}

/// Appends the base64 text of `b` to `out`.
pub fn push_base64(out: &mut Vec<char>, b: &Vec<u8>)
    ensures
        final(out)@ == old(out)@ + base64_text(b@),
{
    let n: usize = b.len();
    let mut i: usize = 0;
    proof {
        assert(b@.skip(0) =~= b@);
    }
    while n - i >= 3
        invariant
            i <= n,
            n == b@.len(),
            out@ + base64_text(b@.skip(i as int)) == old(out)@ + base64_text(b@),
        decreases n - i,
    {
        let ghost rest: Seq<u8> = b@.skip(i as int);
        let v0: u8 = b[i];
        let v1: u8 = b[i + 1];
        let v2: u8 = b[i + 2];
        out.push(b64_char_exec(v0 / 4));
        out.push(b64_char_exec((v0 % 4) * 16 + v1 / 16));
        out.push(b64_char_exec((v1 % 16) * 4 + v2 / 64));
        out.push(b64_char_exec(v2 % 64));
        i = i + 3;
        proof {
            assert(rest[0] == b@[i - 3] && rest[1] == b@[i - 2] && rest[2] == b@[i - 1]);
            assert(rest.skip(3) =~= b@.skip(i as int));
            assert(out@ + base64_text(b@.skip(i as int)) =~= old(out)@ + base64_text(b@));
        }
    }
    let ghost rest: Seq<u8> = b@.skip(i as int);
    if n - i == 1 {
        let v0: u8 = b[i];
        out.push(b64_char_exec(v0 / 4));
        out.push(b64_char_exec((v0 % 4) * 16));
        out.push('=');
        out.push('=');
        proof {
            assert(rest[0] == b@[i as int]);
            assert(out@ =~= old(out)@ + base64_text(b@));
        }
    } else if n - i == 2 {
        let v0: u8 = b[i];
        let v1: u8 = b[i + 1];
        out.push(b64_char_exec(v0 / 4));
        out.push(b64_char_exec((v0 % 4) * 16 + v1 / 16));
        out.push(b64_char_exec((v1 % 16) * 4));
        out.push('=');
        proof {
            assert(rest[0] == b@[i as int] && rest[1] == b@[i + 1]);
            assert(out@ =~= old(out)@ + base64_text(b@));
        }
    } else {
        proof {
            assert(rest =~= Seq::<u8>::empty());
            assert(out@ =~= old(out)@ + base64_text(b@));
        }
    }
}

} // verus!
