//! The items that flow through the bridge, and the values that stamp them.

use vstd::prelude::*;

verus! {

/// A payload buffer: opaque bytes with optional presentation and decoding times.
#[derive(Debug, PartialEq, Eq)]
pub struct Buffer {
    pub data: Vec<u8>,
    pub pts: Option<u64>,
    pub dts: Option<u64>,
}

/// A control event forwarded downstream.
#[derive(Debug, PartialEq, Eq)]
pub enum Event {
    /// Opens a stream: its identifier (ASCII hex digits) and its group.
    StreamStart { stream_id: Vec<u8>, group_id: u32 },
    /// Announces the stream's format.
    Caps { caps: String },
    /// A default, full-range time segment.
    Segment,
    /// End of stream.
    Eos,
}

/// One unit carried by the channel.
#[derive(Debug, PartialEq, Eq)]
pub enum StreamItem {
    Buffer(Buffer),
    Event(Event),
}

/// What the pipeline clock said when a buffer arrived.
#[derive(Clone, Copy, Debug, PartialEq, Eq, Structural)]
pub struct ClockReading {
    pub now: u64,
    pub base_time: u64,
}

/// The identifiers that a stream-start event carries.
#[derive(Clone, Copy, Debug, PartialEq, Eq, Structural)]
pub struct StartIds {
    pub stream_hi: u32,
    pub stream_lo: u32,
    pub group_id: u32,
}

pub open spec fn hex_char(d: nat) -> u8 {
    if d < 10 {
        (48 + d) as u8
    } else {
        (87 + d) as u8
    }
}

/// The last `n` hexadecimal digits of `x`, most significant first, in lower case.
pub open spec fn hex_digits(x: nat, n: nat) -> Seq<u8>
    decreases n,
{
    if n == 0 {
        Seq::empty()
    } else {
        hex_digits(x / 16, (n - 1) as nat).push(hex_char(x % 16))
    }
}

/// A stream identifier: both halves as eight lower-case hex digits each.
pub open spec fn stream_id_spec(hi: u32, lo: u32) -> Seq<u8> {
    hex_digits(hi as nat, 8) + hex_digits(lo as nat, 8)
}

fn push_hex(out: &mut Vec<u8>, x: u32, n: u32)
    ensures
        final(out)@ == old(out)@ + hex_digits(x as nat, n as nat),
    decreases n,
{
    if n == 0 {
        assert(old(out)@ + hex_digits(x as nat, 0) =~= old(out)@);
    } else {
        push_hex(out, x / 16, n - 1);
        let d: u32 = x % 16;
        let c: u8 = if d < 10 { 48 + d as u8 } else { 87 + d as u8 };
        out.push(c);
        assert(final(out)@ =~= old(out)@ + hex_digits(x as nat, n as nat));
    }
}

/// The identifier a stream-start event carries for the two random halves.
pub fn stream_id(hi: u32, lo: u32) -> (r: Vec<u8>)
    ensures
        r@ == stream_id_spec(hi, lo),
{
    let mut out: Vec<u8> = Vec::new();
    push_hex(&mut out, hi, 8);
    push_hex(&mut out, lo, 8);
    assert(out@ =~= stream_id_spec(hi, lo));
    out
}

pub assume_specification<T>[ rand::random::<T> ]() -> (r: T)
    where
        rand::distributions::Standard: rand::distributions::Distribution<T>,
;

impl StartIds {
    /// Draws a random stream identifier for the given group.
    pub fn draw(group_id: u32) -> (r: StartIds)
        ensures
            r.group_id == group_id,
    {
        let stream_hi: u32 = rand::random::<u32>();
        let stream_lo: u32 = rand::random::<u32>();
        StartIds { stream_hi, stream_lo, group_id }
    }
}

/// The decoding time of a buffer stamped on arrival: `now - base_time`,
/// or none where the clock reads earlier than the base time.
pub open spec fn arrival_time(c: ClockReading) -> Option<u64> {
    if c.now >= c.base_time {
        Some((c.now - c.base_time) as u64)
    } else {
        None
    }
}

/// A buffer stamped with its arrival time: decoding time set, presentation time cleared.
pub open spec fn stamped_spec(b: Buffer, c: ClockReading) -> Buffer {
    Buffer { data: b.data, pts: None, dts: arrival_time(c) }
}

impl Buffer {
    /// Stamps the buffer with its arrival time.
    pub fn stamp(self, c: ClockReading) -> (r: Buffer)
        ensures
            r == stamped_spec(self, c),
    {
        let dts = c.now.checked_sub(c.base_time);
        Buffer { data: self.data, pts: None, dts }
    }
}

} // verus!
