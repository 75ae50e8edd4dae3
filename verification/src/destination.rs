//! Recovering the destination that a redirected connection was first
//! addressed to, from what the kernel answers when asked for it.

use vstd::prelude::*;
use crate::decimal::{all_digits, decimal, lemma_decimal_injective, lemma_decimal_round_trip, push_char, push_decimal};

verus! {

/// The address and port a client believed it was connecting to.
#[derive(Clone, Copy, Debug, PartialEq, Eq)]
pub struct OriginalDestination {
    /// The four parts of the IPv4 address, the most significant first.
    pub octets: [u8; 4],
    /// The port, in host byte order.
    pub port: u16,
}

/// The platform holds no redirect mapping for a socket, or could not be
/// asked; `code` is the error number the operating system gave.
#[derive(Clone, Copy, Debug, PartialEq, Eq)]
pub struct ResolutionError {
    pub code: i32,
}

/// The number that two bytes in network order stand for.
pub open spec fn network_u16(bytes: Seq<u8>) -> int
    recommends
        bytes.len() == 2,
{
    bytes[0] as int * 256 + bytes[1] as int
}

/// The usual text of an IPv4 address: its four parts in decimal, the most
/// significant first, with a dot between each two.
pub open spec fn dotted_quad(octets: Seq<u8>) -> Seq<char>
    recommends
        octets.len() == 4,
{
    decimal(octets[0] as nat) + seq!['.'] + decimal(octets[1] as nat) + seq!['.'] + decimal(
        octets[2] as nat,
    ) + seq!['.'] + decimal(octets[3] as nat)
}

/// What a query for the redirect mapping means: with a status of zero the
/// destination that the answer holds, otherwise the failure that the
/// operating system reported.
pub open spec fn resolution(
    status: i32,
    port: [u8; 2],
    address: [u8; 4],
    os_error: i32,
) -> Result<OriginalDestination, ResolutionError> {
    if status == 0 {
        Ok(OriginalDestination { octets: address, port: network_u16(port@) as u16 })
    } else {
        Err(ResolutionError { code: os_error })
    }
}

/// Two texts that each begin with digits and a dot are equal only where the
/// digits are the same and what follows the dot is the same.
proof fn lemma_split_at_dot(x1: Seq<char>, r1: Seq<char>, x2: Seq<char>, r2: Seq<char>)
    requires
        all_digits(x1),
        all_digits(x2),
        x1.push('.') + r1 == x2.push('.') + r2,
    ensures
        x1 == x2,
        r1 == r2,
{
    let t1 = x1.push('.') + r1;
    let t2 = x2.push('.') + r2;
    if x1.len() < x2.len() {
        assert(t1[x1.len() as int] == '.');
        assert(t2[x1.len() as int] == x2[x1.len() as int]);
    }
    if x2.len() < x1.len() {
        assert(t2[x2.len() as int] == '.');
        assert(t1[x2.len() as int] == x1[x2.len() as int]);
    }
    assert(x1.len() == x2.len());
    assert forall|i: int| 0 <= i < x1.len() implies x1[i] == x2[i] by {
        assert(t1[i] == x1[i]);
        assert(t2[i] == x2[i]);
    }
    assert(x1 =~= x2);
    assert(t1.len() == t2.len());
    assert forall|i: int| 0 <= i < r1.len() implies r1[i] == r2[i] by {
        assert(t1[x1.len() + 1 + i] == r1[i]);
        assert(t2[x2.len() + 1 + i] == r2[i]);
    }
    assert(r1 =~= r2);
}

/// The text of an address names one address only: two addresses with the
/// same text are the same.
pub proof fn lemma_dotted_quad_injective(a: Seq<u8>, b: Seq<u8>)
    requires
        a.len() == 4,
        b.len() == 4,
        dotted_quad(a) == dotted_quad(b),
    ensures
        a == b,
{
    let a0 = decimal(a[0] as nat);
    let a1 = decimal(a[1] as nat);
    let a2 = decimal(a[2] as nat);
    let a3 = decimal(a[3] as nat);
    let b0 = decimal(b[0] as nat);
    let b1 = decimal(b[1] as nat);
    let b2 = decimal(b[2] as nat);
    let b3 = decimal(b[3] as nat);
    lemma_decimal_round_trip(a[0] as nat);
    lemma_decimal_round_trip(a[1] as nat);
    lemma_decimal_round_trip(a[2] as nat);
    lemma_decimal_round_trip(b[0] as nat);
    lemma_decimal_round_trip(b[1] as nat);
    lemma_decimal_round_trip(b[2] as nat);
    let a_tail2 = a2.push('.') + a3;
    let b_tail2 = b2.push('.') + b3;
    let a_tail1 = a1.push('.') + a_tail2;
    let b_tail1 = b1.push('.') + b_tail2;
    assert(dotted_quad(a) =~= a0.push('.') + a_tail1);
    assert(dotted_quad(b) =~= b0.push('.') + b_tail1);
    lemma_split_at_dot(a0, a_tail1, b0, b_tail1);
    lemma_split_at_dot(a1, a_tail2, b1, b_tail2);
    lemma_split_at_dot(a2, a3, b2, b3);
    lemma_decimal_injective(a[0] as nat, b[0] as nat);
    lemma_decimal_injective(a[1] as nat, b[1] as nat);
    lemma_decimal_injective(a[2] as nat, b[2] as nat);
    lemma_decimal_injective(a[3] as nat, b[3] as nat);
    assert(a =~= b);
}

impl OriginalDestination {
    /// Interprets the answer to a query for a socket's redirect mapping.
    ///
    /// `status` is what the query returned; `port` and `address` are the
    /// port and address members of the socket address it filled in, byte by
    /// byte as they lie in memory, which is network order; `os_error` is the
    /// error number that was current after the query. The answer is
    /// looked at only when `status` is zero, and the error number only when
    /// it is not.
    pub fn resolve(status: i32, port: [u8; 2], address: [u8; 4], os_error: i32) -> (outcome: Result<
        OriginalDestination,
        ResolutionError,
    >)
        ensures
            outcome == resolution(status, port, address, os_error),
            outcome is Ok <==> status == 0,
            outcome matches Ok(d) ==> d.port == network_u16(port@) && d.octets == address,
            outcome matches Err(e) ==> e.code == os_error,
    {
        if status == 0 {
            let high: u16 = port[0] as u16;
            let low: u16 = port[1] as u16;
            Ok(OriginalDestination { octets: address, port: high * 256 + low })
        } else {
            Err(ResolutionError { code: os_error })
        }
    }

    /// The address in dotted decimal.
    pub fn address_text(&self) -> (text: String)
        ensures
            text@ == dotted_quad(self.octets@),
    {
        let mut text = String::new();
        push_decimal(&mut text, self.octets[0] as u64);
        push_char(&mut text, '.');
        push_decimal(&mut text, self.octets[1] as u64);
        push_char(&mut text, '.');
        push_decimal(&mut text, self.octets[2] as u64);
        push_char(&mut text, '.');
        push_decimal(&mut text, self.octets[3] as u64);
        assert(text@ =~= dotted_quad(self.octets@));
        text
    }
}

} // verus!
