//! Backend selection targets: the fixed address each classification outcome
//! is relayed to, and the textual form of such an address.

use vstd::prelude::*;

use crate::config::digits_value;
use crate::config::is_digit;

verus! {

/// The two services a classified connection can be relayed to.
#[derive(Clone, Copy, PartialEq, Eq, Structural, Debug)]
pub enum Backend {
    /// The interactive shell-tunnel service (classic port 22).
    ShellTunnel,
    /// The tunneling/VPN service (classic port 1194).
    VpnTunnel,
}

/// An IPv4 socket address, held as plain octets and a port.
#[derive(Clone, Copy, PartialEq, Eq, Structural, Debug)]
pub struct BackendAddr {
    pub o0: u8,
    pub o1: u8,
    pub o2: u8,
    pub o3: u8,
    pub port: u16,
}

/// The fixed route table: both backends live on the loopback interface.
pub open spec fn route_spec(b: Backend) -> BackendAddr {
    match b {
        Backend::ShellTunnel => BackendAddr { o0: 127, o1: 0, o2: 0, o3: 1, port: 22 },
        Backend::VpnTunnel => BackendAddr { o0: 127, o1: 0, o2: 0, o3: 1, port: 1194 },
    }
}

/// Resolves a classification outcome to the fixed backend address.
pub fn route(b: Backend) -> (r: BackendAddr)
    ensures
        r == route_spec(b),
{
    match b {
        Backend::ShellTunnel => BackendAddr { o0: 127, o1: 0, o2: 0, o3: 1, port: 22 },
        Backend::VpnTunnel => BackendAddr { o0: 127, o1: 0, o2: 0, o3: 1, port: 1194 },
    }
}

/// The decimal digits of `n`, most significant first, as ASCII bytes.
pub open spec fn dec_digits(n: nat) -> Seq<u8>
    decreases n,
{
    if n < 10 {
        seq![(48 + n) as u8]
    } else {
        dec_digits(n / 10).push((48 + n % 10) as u8)
    }
}

/// Appends the decimal digits of `n` to `out`.
pub fn push_decimal(out: &mut Vec<u8>, n: u16)
    ensures
        final(out)@ == old(out)@ + dec_digits(n as nat),
    decreases n,
{
    if n >= 10 {
        push_decimal(out, n / 10);
    }
    out.push(48 + (n % 10) as u8);
    proof {
        assert(out@ =~= old(out)@ + dec_digits(n as nat));
    }
}

/// Rendering round trip: the decimal digits of `n` are digit bytes whose
/// numeric reading is `n` again, so a rendered port parses back to itself.
pub proof fn lemma_dec_digits_value(n: nat)
    ensures
        forall|i: int| 0 <= i < dec_digits(n).len() ==> is_digit(#[trigger] dec_digits(n)[i]),
        digits_value(dec_digits(n)) == n,
    decreases n,
{
    if n < 10 {
        assert(dec_digits(n) =~= seq![(48 + n) as u8]);
        assert(dec_digits(n).drop_last() =~= Seq::<u8>::empty());
        assert(digits_value(Seq::<u8>::empty()) == 0);
        assert(dec_digits(n).last() == (48 + n) as u8);
        assert(digits_value(dec_digits(n)) == digits_value(dec_digits(n).drop_last()) * 10 + (
        dec_digits(n).last() - 48));
    } else {
        lemma_dec_digits_value(n / 10);
        assert(dec_digits(n).drop_last() =~= dec_digits(n / 10));
        assert(dec_digits(n).last() == (48 + n % 10) as u8);
        assert(digits_value(dec_digits(n)) == (n / 10) * 10 + n % 10);
        assert(n == (n / 10) * 10 + n % 10) by (nonlinear_arith);
    }
}

/// The textual form `a.b.c.d:port` of an address, as ASCII bytes.
pub open spec fn addr_text_spec(a: BackendAddr) -> Seq<u8> {
    dec_digits(a.o0 as nat) + seq![46u8] + dec_digits(a.o1 as nat) + seq![46u8]
        + dec_digits(a.o2 as nat) + seq![46u8] + dec_digits(a.o3 as nat) + seq![58u8]
        + dec_digits(a.port as nat)
}

/// Renders an address as the text `a.b.c.d:port`, ready for a dialer.
pub fn addr_text(a: &BackendAddr) -> (r: Vec<u8>)
    ensures
        r@ == addr_text_spec(*a),
{
    let mut out: Vec<u8> = Vec::new();
    push_decimal(&mut out, a.o0 as u16);
    out.push(46);
    push_decimal(&mut out, a.o1 as u16);
    out.push(46);
    push_decimal(&mut out, a.o2 as u16);
    out.push(46);
    push_decimal(&mut out, a.o3 as u16);
    out.push(58);
    push_decimal(&mut out, a.port);
    proof {
        assert(out@ =~= addr_text_spec(*a));
    }
    out
}

} // verus!
