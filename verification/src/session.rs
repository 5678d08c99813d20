//! The client session byte-protocol.
//!
//! A session reads one byte at a time from its connection and dispatches
//! it: `+` and `-` mutate the count, `c` asks for the count as decimal
//! ASCII text followed by a newline, `q` requests a clean exit, `Q`
//! forces one, and every other byte is ignored so that manual use over a
//! raw stream stays pleasant.

use vstd::prelude::*;

verus! {

/// What one command byte asks the session to do.
#[derive(Clone, Copy, Debug, PartialEq, Eq, Structural)]
pub enum ByteCommand {
    /// `+`: add one hold.
    Increment,
    /// `-`: release one hold.
    Decrement,
    /// `c`: report the current count over the connection.
    QueryCount,
    /// `q`: request a clean exit, refused while holds remain.
    Exit,
    /// `Q`: force an exit whatever the count.
    ForceExit,
    /// Any other byte: do nothing.
    Ignored,
}

/// The meaning of one command byte.
pub open spec fn spec_parse_command(b: u8) -> ByteCommand {
    if b == 43 {
        ByteCommand::Increment
    } else if b == 45 {
        ByteCommand::Decrement
    } else if b == 99 {
        ByteCommand::QueryCount
    } else if b == 113 {
        ByteCommand::Exit
    } else if b == 81 {
        ByteCommand::ForceExit
    } else {
        ByteCommand::Ignored
    }
}

/// Decode one command byte.
pub fn parse_command(b: u8) -> (c: ByteCommand)
    ensures
        c == spec_parse_command(b),
{
    if b == 43 {  // '+'
        ByteCommand::Increment
    } else if b == 45 {  // '-'
        ByteCommand::Decrement
    } else if b == 99 {  // 'c'
        ByteCommand::QueryCount
    } else if b == 113 {  // 'q'
        ByteCommand::Exit
    } else if b == 81 {  // 'Q'
        ByteCommand::ForceExit
    } else {
        ByteCommand::Ignored
    }
}

/// The decimal ASCII digits of `n`, most significant first, with no
/// leading zero except for `n == 0` itself.
pub open spec fn decimal_bytes(n: nat) -> Seq<u8>
    decreases n,
{
    if n < 10 {
        seq![(48 + n) as u8]
    } else {
        decimal_bytes(n / 10).push((48 + n % 10) as u8)
    }
}

/// Append the decimal digits of `n` to `out`.
fn push_decimal(n: u64, out: &mut Vec<u8>)
    ensures
        final(out)@ == old(out)@ + decimal_bytes(n as nat),
    decreases n,
{
    if n >= 10 {
        push_decimal(n / 10, out);
    }
    out.push(48 + (n % 10) as u8);
}

/// The reply to a `c` command: the count as decimal ASCII text followed
/// by one newline.
pub fn format_count_line(count: u64) -> (out: Vec<u8>)
    ensures
        out@ == decimal_bytes(count as nat).push(10),
{
    let mut out: Vec<u8> = Vec::new();
    push_decimal(count, &mut out);
    out.push(10);
    out
}

} // verus!
