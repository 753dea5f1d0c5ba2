//! Framing: on the wire a frame is a length of four bytes, most significant
//! first, and then that many bytes of payload. Reading and writing the
//! socket is left to the caller; this module cuts frames out of the bytes
//! that were read and wraps payloads for writing.

use vstd::prelude::*;
use crate::errors::Error;
use crate::errors::ErrorView;

verus! {

/// The longest payload that is accepted unless the caller says otherwise:
/// sixteen mebibytes.
pub const DEFAULT_MAX_FRAME_LENGTH: usize = 16777216;

/// The number of bytes of the length that precedes a payload.
pub const PREFIX_LENGTH: usize = 4;

/// The four bytes that write a length, most significant first.
pub open spec fn length_prefix(n: nat) -> Seq<u8> {
    seq![
        ((n / 16777216) % 256) as u8,
        ((n / 65536) % 256) as u8,
        ((n / 256) % 256) as u8,
        (n % 256) as u8,
    ]
}

/// The length that the first four bytes write.
pub open spec fn prefix_value(bytes: Seq<u8>) -> nat
    recommends
        bytes.len() >= 4,
{
    (bytes[0] as nat) * 16777216 + (bytes[1] as nat) * 65536 + (bytes[2] as nat) * 256 + (
    bytes[3] as nat)
}

/// A payload as it goes over the wire.
pub open spec fn frame_of(payload: Seq<u8>) -> Seq<u8> {
    length_prefix(payload.len()) + payload
}

/// What the bytes read so far hold at their start.
pub enum FrameView {
    /// A whole frame: its payload, and how many bytes it took.
    Complete(Seq<u8>, nat),
    /// The start of a frame; more bytes are needed.
    Incomplete,
    /// A frame that announces more than the maximum: announced, maximum.
    TooLarge(nat, nat),
}

/// The frame at the start of the bytes read so far.
pub open spec fn frame_at(bytes: Seq<u8>, max: nat) -> FrameView {
    if bytes.len() < 4 {
        FrameView::Incomplete
    } else {
        let n = prefix_value(bytes);
        if n > max {
            FrameView::TooLarge(n, max)
        } else if bytes.len() < 4 + n {
            FrameView::Incomplete
        } else {
            FrameView::Complete(bytes.subrange(4, 4 + n as int), 4 + n)
        }
    }
}

/// Reading the length that was written gives the length back.
pub proof fn lemma_prefix_round_trip(n: nat)
    requires
        n < 4294967296,
    ensures
        length_prefix(n).len() == 4,
        prefix_value(length_prefix(n)) == n,
{
    let a = n / 16777216;
    let b = (n / 65536) % 256;
    let c = (n / 256) % 256;
    let d = n % 256;
    assert(a < 256) by (nonlinear_arith)
        requires
            n < 4294967296,
            a == n / 16777216,
    ;
    assert(a * 16777216 + b * 65536 + c * 256 + d == n) by (nonlinear_arith)
        requires
            a == n / 16777216,
            b == (n / 65536) % 256,
            c == (n / 256) % 256,
            d == n % 256,
    ;
    assert(a % 256 == a);
}

/// Cutting a frame out of what the writer wrote gives the payload back,
/// whatever follows it.
pub proof fn lemma_frame_round_trip(payload: Seq<u8>, rest: Seq<u8>, max: nat)
    requires
        payload.len() <= max,
        payload.len() < 4294967296,
    ensures
        frame_at(frame_of(payload) + rest, max) == FrameView::Complete(
            payload,
            4 + payload.len(),
        ),
{
    lemma_prefix_round_trip(payload.len());
    let prefix = length_prefix(payload.len());
    let bytes = frame_of(payload) + rest;
    assert(bytes[0] == prefix[0]);
    assert(bytes[1] == prefix[1]);
    assert(bytes[2] == prefix[2]);
    assert(bytes[3] == prefix[3]);
    assert(bytes.subrange(4, 4 + payload.len() as int) =~= payload);
}

/// Wraps a payload for the wire. A payload above the maximum, or one whose
/// length four bytes cannot write, is refused.
pub fn encode_frame(payload: &Vec<u8>, max: usize) -> (r: Result<Vec<u8>, Error>)
    ensures
        match r {
            Ok(bytes) => {
                &&& payload.len() <= max
                &&& payload.len() < 4294967296
                &&& bytes@ == frame_of(payload@)
            },
            Err(e) => {
                &&& payload.len() > max || payload.len() >= 4294967296
                &&& e@ == ErrorView::FrameTooLarge(payload.len() as nat, max as nat)
            },
        },
{
    let n = payload.len();
    if n > max || n > 4294967295 {
        return Err(Error::FrameTooLarge(n, max));
    }
    let mut bytes: Vec<u8> = Vec::new();
    bytes.push(((n / 16777216) % 256) as u8);
    bytes.push(((n / 65536) % 256) as u8);
    bytes.push(((n / 256) % 256) as u8);
    bytes.push((n % 256) as u8);
    assert(bytes@ == length_prefix(n as nat));
    let mut i: usize = 0;
    while i < n
        invariant
            i <= n,
            n == payload.len(),
            bytes@ == length_prefix(n as nat) + payload@.take(i as int),
        decreases n - i,
    {
        bytes.push(payload[i]);
        assert(payload@.take(i + 1) == payload@.take(i as int).push(payload@[i as int]));
        i += 1;
    }
    assert(payload@.take(n as int) == payload@);
    Ok(bytes)
}

/// What [`decode_frame`] found at the start of the bytes.
#[derive(Clone, Debug, PartialEq)]
pub enum Frame {
    /// A whole frame: its payload, and how many bytes it took.
    Complete(Vec<u8>, usize),
    /// The start of a frame; more bytes are needed.
    Incomplete,
}

/// Cuts the first frame out of the bytes read so far. A frame that
/// announces more than `max` bytes is refused before its payload is read.
pub fn decode_frame(bytes: &Vec<u8>, max: usize) -> (r: Result<Frame, Error>)
    ensures
        match r {
            Ok(Frame::Complete(payload, taken)) => frame_at(bytes@, max as nat)
                == FrameView::Complete(payload@, taken as nat),
            Ok(Frame::Incomplete) => frame_at(bytes@, max as nat) == FrameView::Incomplete,
            Err(e) => exists|n: nat|
                frame_at(bytes@, max as nat) == FrameView::TooLarge(n, max as nat) && e@
                    == ErrorView::FrameTooLarge(n, max as nat),
        },
{
    if bytes.len() < 4 {
        return Ok(Frame::Incomplete);
    }
    let n: u64 = (bytes[0] as u64) * 16777216 + (bytes[1] as u64) * 65536 + (bytes[2] as u64) * 256
        + (bytes[3] as u64);
    if n > max as u64 {
        assert(frame_at(bytes@, max as nat) == FrameView::TooLarge(n as nat, max as nat));
        return Err(Error::FrameTooLarge(n as usize, max));
    }
    let n: usize = n as usize;
    if bytes.len() - 4 < n {
        return Ok(Frame::Incomplete);
    }
    let mut payload: Vec<u8> = Vec::new();
    let mut i: usize = 0;
    while i < n
        invariant
            i <= n,
            4 + n <= bytes.len(),
            payload@ == bytes@.subrange(4, 4 + i),
        decreases n - i,
    {
        payload.push(bytes[4 + i]);
        assert(bytes@.subrange(4, 4 + i + 1) == bytes@.subrange(4, 4 + i).push(bytes@[4 + i]));
        i += 1;
    }
    Ok(Frame::Complete(payload, 4 + n))
}

} // verus!
