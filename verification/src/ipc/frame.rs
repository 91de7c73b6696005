//! Framing: a 4-byte big-endian length `N`, then `N` bytes of message.

use vstd::prelude::*;

verus! {

/// The number that four bytes denote, most significant byte first.
pub open spec fn be_value(b: Seq<u8>) -> nat
    recommends
        b.len() == 4,
{
    (b[0] as nat) * 0x100_0000 + (b[1] as nat) * 0x1_0000 + (b[2] as nat) * 0x100 + (b[3] as nat)
}

/// The four bytes that denote `n`, most significant byte first.
pub open spec fn be_bytes(n: nat) -> Seq<u8>
    recommends
        n <= u32::MAX,
{
    seq![
        ((n / 0x100_0000) % 0x100) as u8,
        ((n / 0x1_0000) % 0x100) as u8,
        ((n / 0x100) % 0x100) as u8,
        (n % 0x100) as u8,
    ]
}

/// The frame that carries `payload`.
pub open spec fn framed(payload: Seq<u8>) -> Seq<u8> {
    be_bytes(payload.len()) + payload
}

/// Why a frame could not be written or read.
#[derive(Debug, Clone, Copy, PartialEq, Eq, Structural)]
pub enum FrameError {
    /// The message is longer than a length prefix can say.
    TooLong,
    /// The stream ended inside a frame, after its length prefix.
    ShortRead,
}

/// What the bytes received so far amount to.
#[derive(Debug)]
pub enum Decoded {
    /// A whole frame: its message, and the number of bytes it took.
    Frame { payload: Vec<u8>, consumed: usize },
    /// The frame is not complete and the stream is still open: at least
    /// `missing` more bytes are needed.
    NeedMore { missing: usize },
    /// The stream ended before a length prefix was complete: the peer
    /// closed the connection.
    PeerClosed,
    /// The stream ended inside a frame.
    Failed { error: FrameError },
}

/// What `decode_frame` owes for the bytes `buf`, `eof` saying whether the
/// stream has ended.
pub open spec fn decoded(buf: Seq<u8>, eof: bool, d: Decoded) -> bool {
    if buf.len() < 4 {
        if eof {
            d is PeerClosed
        } else {
            d == (Decoded::NeedMore { missing: (4 - buf.len()) as usize })
        }
    } else {
        let n = be_value(buf.take(4));
        if buf.len() >= 4 + n {
            &&& d matches Decoded::Frame { payload, consumed }
            &&& payload@ == buf.subrange(4, 4 + n as int)
            &&& consumed == 4 + n
        } else if eof {
            d == (Decoded::Failed { error: FrameError::ShortRead })
        } else {
            d == (Decoded::NeedMore { missing: (4 + n - buf.len()) as usize })
        }
    }
}

/// The four bytes of `be_bytes` denote the number they were made from.
pub proof fn lemma_be_round_trip(n: nat)
    requires
        n <= u32::MAX,
    ensures
        be_bytes(n).len() == 4,
        be_value(be_bytes(n)) == n,
{
    let b = be_bytes(n);
    assert(b[0] == ((n / 0x100_0000) % 0x100) as u8);
    assert(b[1] == ((n / 0x1_0000) % 0x100) as u8);
    assert(b[2] == ((n / 0x100) % 0x100) as u8);
    assert(b[3] == (n % 0x100) as u8);
}

/// The length prefix for a message of `len` bytes.
fn length_prefix(len: u32) -> (b: Vec<u8>)
    ensures
        b@ == be_bytes(len as nat),
{
    let b0: u8 = (len >> 24) as u8;
    let b1: u8 = ((len >> 16) & 0xff) as u8;
    let b2: u8 = ((len >> 8) & 0xff) as u8;
    let b3: u8 = (len & 0xff) as u8;
    proof {
        assert((len >> 24) == len / 0x100_0000 && (len >> 24) < 0x100) by (bit_vector);
        assert(((len >> 16) & 0xff) == (len / 0x1_0000) % 0x100) by (bit_vector);
        assert(((len >> 8) & 0xff) == (len / 0x100) % 0x100) by (bit_vector);
        assert((len & 0xff) == len % 0x100) by (bit_vector);
    }
    let mut b: Vec<u8> = Vec::new();
    b.push(b0);
    b.push(b1);
    b.push(b2);
    b.push(b3);
    proof {
        assert(b@ =~= be_bytes(len as nat));
    }
    b
}

/// The number that the first four bytes of `buf` denote.
fn read_length(buf: &Vec<u8>) -> (n: u32)
    requires
        buf.len() >= 4,
    ensures
        n == be_value(buf@.take(4)),
{
    let b0: u32 = buf[0] as u32;
    let b1: u32 = buf[1] as u32;
    let b2: u32 = buf[2] as u32;
    let b3: u32 = buf[3] as u32;
    b0 * 0x100_0000 + b1 * 0x1_0000 + b2 * 0x100 + b3
}

/// Frames `payload`: its length as four bytes, then the message. Fails
/// only on a message that is too long for the prefix.
pub fn encode_frame(payload: &Vec<u8>) -> (r: Result<Vec<u8>, FrameError>)
    ensures
        match r {
            Ok(frame) => payload.len() <= u32::MAX && frame@ == framed(payload@),
            Err(e) => payload.len() > u32::MAX && e == FrameError::TooLong,
        },
{
    if payload.len() > 0xffff_ffff {
        return Err(FrameError::TooLong);
    }
    let mut frame = length_prefix(payload.len() as u32);
    let mut i: usize = 0;
    while i < payload.len()
        invariant
            i <= payload.len(),
            frame@ == be_bytes(payload.len() as nat) + payload@.take(i as int),
        decreases payload.len() - i,
    {
        frame.push(payload[i]);
        proof {
            assert(frame@ =~= be_bytes(payload.len() as nat) + payload@.take(i + 1));
        }
        i += 1;
    }
    proof {
        assert(payload@.take(payload.len() as int) =~= payload@);
    }
    Ok(frame)
}

/// Reads one frame from the front of `buf`, the bytes received so far;
/// `eof` says whether the stream has ended.
pub fn decode_frame(buf: &Vec<u8>, eof: bool) -> (d: Decoded)
    ensures
        decoded(buf@, eof, d),
{
    if buf.len() < 4 {
        if eof {
            return Decoded::PeerClosed;
        }
        return Decoded::NeedMore { missing: 4 - buf.len() };
    }
    let n = read_length(buf) as usize;
    let have = buf.len() - 4;
    if have < n {
        if eof {
            return Decoded::Failed { error: FrameError::ShortRead };
        }
        return Decoded::NeedMore { missing: n - have };
    }
    let mut payload: Vec<u8> = Vec::new();
    let mut i: usize = 0;
    while i < n
        invariant
            i <= n,
            4 + n <= buf.len(),
            payload@ == buf@.subrange(4, 4 + i),
        decreases n - i,
    {
        payload.push(buf[4 + i]);
        proof {
            assert(payload@ =~= buf@.subrange(4, 4 + i + 1));
        }
        i += 1;
    }
    Decoded::Frame { payload, consumed: 4 + n }
}

/// Round trip: a frame, whatever follows it on the stream, decodes to the
/// message it was made from, and takes exactly the frame's bytes.
pub proof fn lemma_frame_round_trip(payload: Seq<u8>, rest: Seq<u8>, eof: bool, d: Decoded)
    requires
        payload.len() <= u32::MAX,
        decoded(framed(payload) + rest, eof, d),
    ensures
        d matches Decoded::Frame { payload: p, consumed } && p@ == payload && consumed
            == framed(payload).len(),
{
    let buf = framed(payload) + rest;
    lemma_be_round_trip(payload.len());
    assert(buf.take(4) =~= be_bytes(payload.len()));
    assert(buf.subrange(4, 4 + payload.len() as int) =~= payload);
}

} // verus!
