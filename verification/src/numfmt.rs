//! Verified rendering of integers as decimal text.
//!
//! Numeric spreadsheet cells are normalized to their decimal string form;
//! this module states what that form is and proves the renderer against it.
use vstd::prelude::*;
use vstd::string::*;

verus! {

/// The character for one decimal digit.
pub open spec fn digit_char(d: nat) -> char {
    ((d + 48) as u8) as char
}

/// The decimal text of a natural number, most significant digit first.
pub open spec fn dec_text(n: nat) -> Seq<char>
    decreases n,
{
    if n < 10 {
        seq![digit_char(n)]
    } else {
        dec_text(n / 10).push(digit_char(n % 10))
    }
}

/// The decimal text of an integer: a minus sign for negative values,
/// followed by the digits of its magnitude.
pub open spec fn int_text(v: int) -> Seq<char> {
    if v < 0 {
        seq!['-'] + dec_text((-v) as nat)
    } else {
        dec_text(v as nat)
    }
}

/// Relies on `String::push`: appends exactly the given character.
#[verifier::external_body]
fn push_char(s: &mut String, c: char)
    ensures
        final(s)@ == old(s)@.push(c),
{
    s.push(c);
}

fn push_dec(n: u64, out: &mut String)
    ensures
        final(out)@ == old(out)@ + dec_text(n as nat),
    decreases n,
{
    if n >= 10 {
        push_dec(n / 10, out);
    }
    let d = (n % 10) as u8 + 48;
    push_char(out, d as char);
    proof {
        if n < 10 {
            assert(old(out)@ + dec_text(n as nat) =~= old(out)@.push(digit_char(n as nat)));
        } else {
            assert(old(out)@ + dec_text(n as nat) =~= (old(out)@ + dec_text(
                (n / 10) as nat,
            )).push(digit_char((n % 10) as nat)));
        }
    }
}

/// The decimal text of `v`, exactly as `int_text` states it.
pub fn int_to_string(v: i64) -> (r: String)
    ensures
        r@ == int_text(v as int),
{
    let mut out = String::new();
    if v < 0 {
        push_char(&mut out, '-');
        let mag: u64 = ((-(v as i128)) as u64);
        push_dec(mag, &mut out);
        proof {
            assert(out@ =~= seq!['-'] + dec_text((-(v as int)) as nat));
        }
    } else {
        push_dec(v as u64, &mut out);
        proof {
            assert(out@ =~= dec_text(v as nat));
        }
    }
    out
}

} // verus!
