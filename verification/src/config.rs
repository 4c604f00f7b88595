//! Startup configuration: the listening port, the handshake status text and
//! the secure/plain variant choice, resolved once from the optional textual
//! arguments the process was given.
//!
//! A missing or unparsable port argument falls back to the default port; the
//! well-known secure port selects the secure variant.  A missing status
//! argument falls back to the default status text.

use vstd::prelude::*;

verus! {

/// The port used when no valid port argument is given.
pub const DEFAULT_PORT: u16 = 80;

/// The port whose selection switches the listener to the secure variant.
pub const SECURE_PORT: u16 = 443;

/// Size cap of the single discarded client chunk read between the two
/// handshake lines.
pub const HANDSHAKE_READ_CAP: usize = 1024;

/// Size cap of the classifier's peek sample.
pub const PEEK_CAP: usize = 8192;

/// The classifier's peek deadline, in milliseconds.
pub const PEEK_DEADLINE_MILLIS: u64 = 1000;

/// Size of the buffer each relay direction reads into.
pub const RELAY_BUFFER_BYTES: usize = 8192;

/// The default handshake status text, `@RustyManager`, as ASCII bytes.
pub open spec fn default_status_spec() -> Seq<u8> {
    seq![64u8, 82u8, 117u8, 115u8, 116u8, 121u8, 77u8, 97u8, 110u8, 97u8, 103u8, 101u8, 114u8]
}

/// Builds the default handshake status text.
pub fn default_status() -> (r: Vec<u8>)
    ensures
        r@ == default_status_spec(),
{
    let mut out: Vec<u8> = Vec::new();
    out.push(64);
    out.push(82);
    out.push(117);
    out.push(115);
    out.push(116);
    out.push(121);
    out.push(77);
    out.push(97);
    out.push(110);
    out.push(97);
    out.push(103);
    out.push(101);
    out.push(114);
    proof {
        assert(out@ =~= default_status_spec());
    }
    out
}

/// True for an ASCII decimal digit.
pub open spec fn is_digit(b: u8) -> bool {
    48 <= b && b <= 57
}

/// The numeric value of the digit string `s`, most significant digit first.
pub open spec fn digits_value(s: Seq<u8>) -> int
    decreases s.len(),
{
    if s.len() == 0 {
        0
    } else {
        digits_value(s.drop_last()) * 10 + (s.last() - 48)
    }
}

/// The digit part of a port argument: a single leading `+` sign, if present,
/// is stripped.
pub open spec fn port_digits(s: Seq<u8>) -> Seq<u8> {
    if s.len() > 0 && s[0] == 43 {
        s.subrange(1, s.len() as int)
    } else {
        s
    }
}

/// True when `s` is a port number a sixteen-bit parse accepts: at least one
/// digit after the optional sign, digits only, and a value of at most 65535.
pub open spec fn is_valid_port_text(s: Seq<u8>) -> bool {
    let d = port_digits(s);
    &&& d.len() > 0
    &&& (forall|i: int| 0 <= i < d.len() ==> is_digit(#[trigger] d[i]))
    &&& digits_value(d) <= 65535
}

/// The port a valid argument denotes.
pub open spec fn port_of_text(s: Seq<u8>) -> u16
    recommends
        is_valid_port_text(s),
{
    digits_value(port_digits(s)) as u16
}

/// The port the process listens on, given the optional port argument.
pub open spec fn resolved_port(arg: Option<Vec<u8>>) -> u16 {
    match arg {
        Option::None => DEFAULT_PORT,
        Option::Some(v) => if is_valid_port_text(v@) {
            port_of_text(v@)
        } else {
            DEFAULT_PORT
        },
    }
}

/// The status text the handshake uses, given the optional status argument.
pub open spec fn resolved_status(arg: Option<Vec<u8>>) -> Seq<u8> {
    match arg {
        Option::None => default_status_spec(),
        Option::Some(v) => v@,
    }
}

/// An all-digit string has a non-negative value.
proof fn lemma_digits_value_nonneg(s: Seq<u8>)
    requires
        forall|i: int| 0 <= i < s.len() ==> is_digit(#[trigger] s[i]),
    ensures
        digits_value(s) >= 0,
    decreases s.len(),
{
    if s.len() > 0 {
        lemma_digits_value_nonneg(s.drop_last());
    }
}

/// Extending an all-digit string never lowers its value.
proof fn lemma_digits_value_extend(s: Seq<u8>, t: Seq<u8>)
    requires
        forall|i: int| 0 <= i < s.len() ==> is_digit(#[trigger] s[i]),
        forall|i: int| 0 <= i < t.len() ==> is_digit(#[trigger] t[i]),
    ensures
        digits_value(s + t) >= digits_value(s),
    decreases t.len(),
{
    if t.len() == 0 {
        assert(s + t =~= s);
    } else {
        lemma_digits_value_extend(s, t.drop_last());
        assert((s + t).drop_last() =~= s + t.drop_last());
        lemma_digits_value_nonneg(s + t.drop_last());
        assert(digits_value(s + t) == digits_value(s + t.drop_last()) * 10 + ((s + t).last() - 48));
    }
}

/// Parses a port argument as a sixteen-bit parse would; anything it rejects
/// resolves to the default port.
pub fn parse_port_text(v: &Vec<u8>) -> (r: u16)
    ensures
        r == (if is_valid_port_text(v@) {
            port_of_text(v@)
        } else {
            DEFAULT_PORT
        }),
{
    let ghost d = port_digits(v@);
    let start: usize = if v.len() > 0 && v[0] == 43 {
        1
    } else {
        0
    };
    proof {
        assert(d =~= v@.subrange(start as int, v@.len() as int));
    }
    if v.len() == start {
        return DEFAULT_PORT;
    }
    let mut k: usize = 0;
    let mut val: u32 = 0;
    let n: usize = v.len() - start;
    while k < n
        invariant
            n == v.len() - start,
            start <= v.len(),
            d == port_digits(v@),
            d =~= v@.subrange(start as int, v@.len() as int),
            d.len() == n,
            k <= n,
            forall|j: int| 0 <= j < k ==> is_digit(#[trigger] d[j]),
            val == digits_value(d.subrange(0, k as int)),
            val <= 65535,
        decreases n - k,
    {
        let b = v[start + k];
        proof {
            assert(d[k as int] == v@[start + k]);
        }
        if b < 48 || b > 57 {
            proof {
                assert(!is_digit(d[k as int]));
                assert(!is_valid_port_text(v@));
            }
            return DEFAULT_PORT;
        }
        let digit: u32 = (b - 48) as u32;
        let next: u32 = val * 10 + digit;
        proof {
            assert(d.subrange(0, k as int + 1).drop_last() =~= d.subrange(0, k as int));
            assert(d.subrange(0, k as int + 1).last() == d[k as int]);
        }
        if next > 65535 {
            proof {
                if is_valid_port_text(v@) {
                    let pre = d.subrange(0, k as int + 1);
                    let rest = d.subrange(k as int + 1, d.len() as int);
                    assert forall|i: int| 0 <= i < pre.len() implies is_digit(
                        #[trigger] pre[i],
                    ) by {
                        assert(pre[i] == d[i]);
                    }
                    assert forall|i: int| 0 <= i < rest.len() implies is_digit(
                        #[trigger] rest[i],
                    ) by {
                        assert(rest[i] == d[k as int + 1 + i]);
                    }
                    lemma_digits_value_extend(pre, rest);
                    assert(pre + rest =~= d);
                    assert(digits_value(pre) == next);
                }
            }
            return DEFAULT_PORT;
        }
        val = next;
        k += 1;
    }
    proof {
        assert(d.subrange(0, d.len() as int) =~= d);
    }
    val as u16
}

/// The resolved, immutable listening configuration.
pub struct ListenerConfig {
    pub port: u16,
    pub status: Vec<u8>,
    pub secure: bool,
}

impl ListenerConfig {
    /// A configuration is well formed when the secure flag agrees with the
    /// well-known secure port.
    pub open spec fn wf(self) -> bool {
        self.secure == (self.port == SECURE_PORT)
    }
}

/// Resolves the configuration from the optional textual arguments: the port
/// argument (default and fallback: the default port) and the status argument
/// (default: the default status text).  The secure variant is selected
/// exactly when the resolved port is the well-known secure port.
pub fn resolve_config(port_arg: Option<Vec<u8>>, status_arg: Option<Vec<u8>>) -> (c:
    ListenerConfig)
    ensures
        c.wf(),
        c.port == resolved_port(port_arg),
        c.status@ == resolved_status(status_arg),
        c.secure == (c.port == SECURE_PORT),
{
    let port: u16 = match &port_arg {
        Option::None => DEFAULT_PORT,
        Option::Some(v) => parse_port_text(v),
    };
    let status: Vec<u8> = match status_arg {
        Option::None => default_status(),
        Option::Some(v) => v,
    };
    let secure = port == SECURE_PORT;
    ListenerConfig { port, status, secure }
}

} // verus!
