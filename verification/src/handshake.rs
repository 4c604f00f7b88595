//! The handshake preamble: the two fixed status lines written to every
//! client before any relay begins, imitating an HTTP upgrade exchange.
//!
//! The first line is `HTTP/1.1 101 <status>` and the second is
//! `HTTP/1.1 200 <status>`, each terminated by a blank line (CRLF CRLF).

use vstd::prelude::*;

verus! {

/// The ASCII bytes of `HTTP/1.1 101 `.
pub open spec fn prefix_101() -> Seq<u8> {
    seq![72u8, 84u8, 84u8, 80u8, 47u8, 49u8, 46u8, 49u8, 32u8, 49u8, 48u8, 49u8, 32u8]
}

/// The ASCII bytes of `HTTP/1.1 200 `.
pub open spec fn prefix_200() -> Seq<u8> {
    seq![72u8, 84u8, 84u8, 80u8, 47u8, 49u8, 46u8, 49u8, 32u8, 50u8, 48u8, 48u8, 32u8]
}

/// The blank-line terminator: CR LF CR LF.
pub open spec fn blank_line() -> Seq<u8> {
    seq![13u8, 10u8, 13u8, 10u8]
}

/// The first status line sent to a client, with the configured status text.
pub open spec fn first_response(status: Seq<u8>) -> Seq<u8> {
    prefix_101() + status + blank_line()
}

/// The second status line sent to a client, with the configured status text.
pub open spec fn second_response(status: Seq<u8>) -> Seq<u8> {
    prefix_200() + status + blank_line()
}

/// Appends all of `src` to `dst`, in order.
pub fn append_bytes(dst: &mut Vec<u8>, src: &Vec<u8>)
    ensures
        final(dst)@ == old(dst)@ + src@,
{
    let mut i: usize = 0;
    proof {
        assert(dst@ =~= old(dst)@ + src@.subrange(0, 0));
    }
    while i < src.len()
        invariant
            i <= src.len(),
            dst@ == old(dst)@ + src@.subrange(0, i as int),
        decreases src.len() - i,
    {
        dst.push(src[i]);
        i += 1;
        proof {
            assert(dst@ =~= old(dst)@ + src@.subrange(0, i as int));
        }
    }
    proof {
        assert(src@.subrange(0, src.len() as int) =~= src@);
    }
}

/// Builds the bytes of the first status line for the given status text.
pub fn build_first_response(status: &Vec<u8>) -> (r: Vec<u8>)
    ensures
        r@ == first_response(status@),
{
    let mut out: Vec<u8> = Vec::new();
    out.push(72);
    out.push(84);
    out.push(84);
    out.push(80);
    out.push(47);
    out.push(49);
    out.push(46);
    out.push(49);
    out.push(32);
    out.push(49);
    out.push(48);
    out.push(49);
    out.push(32);
    proof {
        assert(out@ =~= prefix_101());
    }
    append_bytes(&mut out, status);
    out.push(13);
    out.push(10);
    out.push(13);
    out.push(10);
    proof {
        assert(out@ =~= first_response(status@));
    }
    out
}

/// Builds the bytes of the second status line for the given status text.
pub fn build_second_response(status: &Vec<u8>) -> (r: Vec<u8>)
    ensures
        r@ == second_response(status@),
{
    let mut out: Vec<u8> = Vec::new();
    out.push(72);
    out.push(84);
    out.push(84);
    out.push(80);
    out.push(47);
    out.push(49);
    out.push(46);
    out.push(49);
    out.push(32);
    out.push(50);
    out.push(48);
    out.push(48);
    out.push(32);
    proof {
        assert(out@ =~= prefix_200());
    }
    append_bytes(&mut out, status);
    out.push(13);
    out.push(10);
    out.push(13);
    out.push(10);
    proof {
        assert(out@ =~= second_response(status@));
    }
    out
}

} // verus!
