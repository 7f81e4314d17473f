//! The line that tells a host application that the guest has accepted its
//! connection: `OK`, a space, the guest's port in decimal, and a line feed.

use vstd::prelude::*;

verus! {

/// The decimal digits of `n` in ASCII, most significant first.
pub open spec fn decimal(n: nat) -> Seq<u8>
    decreases n,
{
    if n < 10 {
        seq![(0x30 + n) as u8]
    } else {
        decimal(n / 10).push((0x30 + n % 10) as u8)
    }
}

/// The acknowledgement line for a connection to `port`.
pub open spec fn ack_line(port: u32) -> Seq<u8> {
    seq![0x4fu8, 0x4bu8, 0x20u8] + decimal(port as nat) + seq![0x0au8]
}

/// Appends the decimal digits of `n` to `out`.
fn push_decimal(out: &mut Vec<u8>, n: u32)
    ensures
        final(out)@ == old(out)@ + decimal(n as nat),
    decreases n,
{
    if n >= 10 {
        push_decimal(out, n / 10);
    }
    let digit: u8 = (n % 10) as u8;
    out.push(0x30 + digit);
}

/// Builds the acknowledgement line for a connection to `port`.
pub fn handshake_ack(port: u32) -> (line: Vec<u8>)
    ensures
        line@ == ack_line(port),
{
    let mut line: Vec<u8> = Vec::new();
    line.push(0x4f);
    line.push(0x4b);
    line.push(0x20);
    push_decimal(&mut line, port);
    line.push(0x0a);
    line
}

} // verus!
