//! gRPC length-prefix framing.
//!
//! ```text
//! 1 byte   compression flag (0 = uncompressed)
//! 4 bytes  message length (big-endian u32)
//! N bytes  message
//! ```

use crate::encoding::{
    be_bytes, be_value, lemma_base256, lemma_be_bytes_len, lemma_be_round_trip,
};
use crate::grpc::error::{GrpcError, GrpcErrorView};
use crate::text::{decimal, format_u64, join};
use bytes::{Buf, BufMut, Bytes, BytesMut};
use vstd::prelude::*;

verus! {

// ── Byte buffers ──────────────────────────────────────────────────────────────

#[verifier::external_type_specification]
#[verifier::external_body]
pub struct ExBytes(bytes::Bytes);

#[verifier::external_type_specification]
#[verifier::external_body]
pub struct ExBytesMut(bytes::BytesMut);

/// The bytes that a `bytes::Bytes` holds.
pub uninterp spec fn held(b: bytes::Bytes) -> Seq<u8>;

/// The bytes that a `bytes::BytesMut` holds.
pub uninterp spec fn held_mut(b: bytes::BytesMut) -> Seq<u8>;

/// `BytesMut::with_capacity`: an empty buffer with room for `n` bytes.
#[verifier::external_body]
fn buffer_with_capacity(n: usize) -> (r: BytesMut)
    requires
        n <= isize::MAX,
    ensures
        held_mut(r) == Seq::<u8>::empty(),
{
    BytesMut::with_capacity(n)
}

/// `BytesMut::put_u8` appends one byte.
#[verifier::external_body]
fn put_u8(b: &mut BytesMut, v: u8)
    requires
        held_mut(*old(b)).len() + 1 <= isize::MAX,
    ensures
        held_mut(*final(b)) == held_mut(*old(b)).push(v),
{
    b.put_u8(v)
}

/// `BytesMut::put_u32` appends four big-endian bytes.
#[verifier::external_body]
fn put_u32(b: &mut BytesMut, v: u32)
    requires
        held_mut(*old(b)).len() + 4 <= isize::MAX,
    ensures
        held_mut(*final(b)) == held_mut(*old(b)) + be_bytes(v as nat, 4),
{
    b.put_u32(v)
}

/// `BytesMut::extend_from_slice` appends bytes.
#[verifier::external_body]
fn put_slice(b: &mut BytesMut, v: &[u8])
    requires
        held_mut(*old(b)).len() + v@.len() <= isize::MAX,
    ensures
        held_mut(*final(b)) == held_mut(*old(b)) + v@,
{
    b.extend_from_slice(v)
}

/// `BytesMut::freeze` keeps the bytes.
#[verifier::external_body]
fn freeze(b: BytesMut) -> (r: Bytes)
    ensures
        held(r) == held_mut(b),
{
    b.freeze()
}

/// `BytesMut::len`: the number of bytes held.
#[verifier::external_body]
fn buffered(b: &BytesMut) -> (r: usize)
    ensures
        r == held_mut(*b).len(),
{
    b.len()
}

/// `BytesMut::split_to` moves the first `n` bytes out.
#[verifier::external_body]
fn buffer_split_to(b: &mut BytesMut, n: usize) -> (r: BytesMut)
    requires
        n <= held_mut(*old(b)).len(),
    ensures
        held_mut(r) == held_mut(*old(b)).take(n as int),
        held_mut(*final(b)) == held_mut(*old(b)).skip(n as int),
{
    b.split_to(n)
}

/// `<BytesMut as AsRef<[u8]>>::as_ref` borrows the bytes.
#[verifier::external_body]
fn buffer_slice(b: &BytesMut) -> (r: &[u8])
    ensures
        r@ == held_mut(*b),
{
    b.as_ref()
}

/// `Bytes::len`: the number of bytes held.
#[verifier::external_body]
fn bytes_len(b: &Bytes) -> (r: usize)
    ensures
        r == held(*b).len(),
{
    b.len()
}

/// `Bytes::get_u8` takes the first byte.
#[verifier::external_body]
fn get_u8(b: &mut Bytes) -> (r: u8)
    requires
        held(*old(b)).len() >= 1,
    ensures
        r == held(*old(b))[0],
        held(*final(b)) == held(*old(b)).skip(1),
{
    b.get_u8()
}

/// `Bytes::get_u32` takes a number of four big-endian bytes.
#[verifier::external_body]
fn get_u32(b: &mut Bytes) -> (r: u32)
    requires
        held(*old(b)).len() >= 4,
    ensures
        r == be_value(held(*old(b)).take(4)),
        held(*final(b)) == held(*old(b)).skip(4),
{
    b.get_u32()
}

/// `Bytes::split_to` moves the first `n` bytes out.
#[verifier::external_body]
fn split_to(b: &mut Bytes, n: usize) -> (r: Bytes)
    requires
        n <= held(*old(b)).len(),
    ensures
        held(r) == held(*old(b)).take(n as int),
        held(*final(b)) == held(*old(b)).skip(n as int),
{
    b.split_to(n)
}

/// `<[u8]>::to_vec` of the bytes held.
#[verifier::external_body]
pub(crate) fn bytes_to_vec(b: &Bytes) -> (r: Vec<u8>)
    ensures
        r@ == held(*b),
{
    b.to_vec()
}

// ── Frames ────────────────────────────────────────────────────────────────────

/// One message as a frame. The length field holds the low 32 bits of the length.
pub open spec fn frame(message: Seq<u8>) -> Seq<u8> {
    seq![0u8] + be_bytes(message.len() % 0x1_0000_0000, 4) + message
}

/// The message length that a frame header states.
pub open spec fn stated_len(d: Seq<u8>) -> int {
    be_value(d.subrange(1, 5)) as int
}

/// The message in the frame at the front of `d`, and what follows the frame.
pub open spec fn unframed(d: Seq<u8>) -> Result<(Seq<u8>, Seq<u8>), GrpcErrorView> {
    if d.len() < 5 {
        Err(
            GrpcErrorView::Transport(
                "gRPC frame too short: "@ + decimal(d.len()) + " bytes"@,
            ),
        )
    } else if d[0] != 0 {
        Err(GrpcErrorView::Transport("compressed gRPC frames not supported"@))
    } else if d.len() < 5 + stated_len(d) {
        Err(
            GrpcErrorView::Transport(
                "gRPC frame incomplete: need "@ + decimal(stated_len(d) as nat) + " bytes, have "@
                    + decimal((d.len() - 5) as nat),
            ),
        )
    } else {
        Ok((d.subrange(5, 5 + stated_len(d)), d.skip(5 + stated_len(d))))
    }
}

/// Frames one message.
pub fn encode_frame(proto_bytes: &[u8]) -> (r: Bytes)
    requires
        5 + proto_bytes@.len() <= isize::MAX,
    ensures
        held(r) == frame(proto_bytes@),
{
    let mut buf = buffer_with_capacity(5 + proto_bytes.len());
    let n: u32 = (proto_bytes.len() as u64 % 0x1_0000_0000) as u32;
    proof {
        lemma_be_bytes_len(n as nat, 4);
    }
    put_u8(&mut buf, 0);
    put_u32(&mut buf, n);
    put_slice(&mut buf, proto_bytes);
    assert(held_mut(buf) =~= frame(proto_bytes@));
    freeze(buf)
}

/// Takes one frame apart: the message, and what follows the frame.
pub fn decode_frame(data: Bytes) -> (r: Result<(Bytes, Bytes), GrpcError>)
    ensures
        match r {
            Ok((message, rest)) => unframed(held(data)) == Ok::<
                (Seq<u8>, Seq<u8>),
                GrpcErrorView,
            >((held(message), held(rest))),
            Err(e) => unframed(held(data)) == Err::<(Seq<u8>, Seq<u8>), GrpcErrorView>(e@),
        },
{
    let mut data = data;
    let ghost d = held(data);
    let len: usize = bytes_len(&data);
    if len < 5 {
        let mut m = join("gRPC frame too short: ", format_u64(len as u64).as_str());
        m.append(" bytes");
        return Err(GrpcError::Transport(m));
    }
    if get_u8(&mut data) != 0 {
        return Err(GrpcError::transport("compressed gRPC frames not supported"));
    }
    let msg_len: u32 = get_u32(&mut data);
    assert(d.skip(1).take(4) =~= d.subrange(1, 5));
    assert(held(data) =~= d.skip(5));
    let have: usize = bytes_len(&data);
    if (have as u64) < msg_len as u64 {
        let mut m = join("gRPC frame incomplete: need ", format_u64(msg_len as u64).as_str());
        m.append(" bytes, have ");
        m.append(format_u64(have as u64).as_str());
        return Err(GrpcError::Transport(m));
    }
    let msg = split_to(&mut data, msg_len as usize);
    assert(d.skip(5).take(msg_len as int) =~= d.subrange(5, 5 + msg_len as int));
    assert(d.skip(5).skip(msg_len as int) =~= d.skip(5 + msg_len as int));
    Ok((msg, data))
}

/// A framed message is taken apart into the message and whatever follows.
pub proof fn law_frame_round_trip(message: Seq<u8>, rest: Seq<u8>)
    requires
        message.len() < 0x1_0000_0000,
    ensures
        unframed(frame(message) + rest) == Ok::<(Seq<u8>, Seq<u8>), GrpcErrorView>(
            (message, rest),
        ),
{
    let d = frame(message) + rest;
    lemma_be_bytes_len(message.len(), 4);
    lemma_base256();
    lemma_be_round_trip(message.len(), 4);
    assert(d.subrange(1, 5) =~= be_bytes(message.len(), 4));
    assert(d.subrange(5, 5 + message.len() as int) =~= message);
    assert(d.skip(5 + message.len() as int) =~= rest);
}

// ── Reassembly ────────────────────────────────────────────────────────────────

/// Whether a whole frame stands at the front of `d`.
pub open spec fn has_frame(d: Seq<u8>) -> bool {
    d.len() >= 5 && d.len() >= 5 + stated_len(d)
}

/// The whole frames at the front of `d`, in order, header and all.
pub open spec fn whole_frames(d: Seq<u8>) -> Seq<Seq<u8>>
    decreases d.len(),
{
    if has_frame(d) {
        seq![d.take(5 + stated_len(d))] + whole_frames(d.skip(5 + stated_len(d)))
    } else {
        Seq::empty()
    }
}

/// What is left of `d` behind its whole frames.
pub open spec fn partial_frame(d: Seq<u8>) -> Seq<u8>
    decreases d.len(),
{
    if has_frame(d) {
        partial_frame(d.skip(5 + stated_len(d)))
    } else {
        d
    }
}

/// Collects the chunks of a stream and hands out the frames in them.
pub struct FrameBuffer {
    buf: BytesMut,
}

impl View for FrameBuffer {
    type V = Seq<u8>;

    closed spec fn view(&self) -> Seq<u8> {
        held_mut(self.buf)
    }
}

/// What each of the buffers holds.
pub open spec fn all_held(v: Seq<Bytes>) -> Seq<Seq<u8>> {
    Seq::new(v.len(), |i: int| held(v[i]))
}

impl FrameBuffer {
    pub fn new() -> (r: Self)
        ensures
            r@ == Seq::<u8>::empty(),
    {
        FrameBuffer { buf: buffer_with_capacity(0) }
    }

    /// Takes in a chunk; returns the frames that are now whole, and keeps the rest.
    pub fn push(&mut self, chunk: &[u8]) -> (r: Vec<Bytes>)
        requires
            old(self)@.len() + chunk@.len() <= isize::MAX,
        ensures
            all_held(r@) == whole_frames(old(self)@ + chunk@),
            final(self)@ == partial_frame(old(self)@ + chunk@),
    {
        put_slice(&mut self.buf, chunk);
        let ghost all = self@;
        let mut frames: Vec<Bytes> = Vec::new();
        assert(all_held(frames@) + whole_frames(all) =~= whole_frames(all));
        loop
            invariant
                all_held(frames@) + whole_frames(self@) == whole_frames(all),
                partial_frame(self@) == partial_frame(all),
            ensures
                all_held(frames@) == whole_frames(all),
                self@ == partial_frame(all),
            decreases self@.len(),
        {
            let len: usize = buffered(&self.buf);
            if len < 5 {
                assert(all_held(frames@) + whole_frames(self@) =~= all_held(frames@));
                break;
            }
            let stated: u32 = crate::encoding::read_be_u32(buffer_slice(&self.buf), 1);
            if (len as u64) < 5 + stated as u64 {
                assert(all_held(frames@) + whole_frames(self@) =~= all_held(frames@));
                break;
            }
            let ghost before = frames@;
            let ghost d = self@;
            let frame = freeze(buffer_split_to(&mut self.buf, 5 + stated as usize));
            frames.push(frame);
            assert(all_held(frames@) =~= all_held(before).push(d.take(5 + stated_len(d))));
            assert(all_held(frames@) + whole_frames(self@) =~= all_held(before) + whole_frames(d));
        }
        frames
    }
}

proof fn lemma_frames_of_concat(a: Seq<u8>, b: Seq<u8>)
    ensures
        whole_frames(a + b) == whole_frames(a) + whole_frames(partial_frame(a) + b),
        partial_frame(a + b) == partial_frame(partial_frame(a) + b),
    decreases a.len(),
{
    if has_frame(a) {
        let n = 5 + stated_len(a);
        let d = a + b;
        assert(d.subrange(1, 5) =~= a.subrange(1, 5));
        assert(d.take(n) =~= a.take(n));
        assert(d.skip(n) =~= a.skip(n) + b);
        lemma_frames_of_concat(a.skip(n), b);
        assert(whole_frames(a) + whole_frames(partial_frame(a) + b) =~= seq![a.take(n)] + (
        whole_frames(a.skip(n)) + whole_frames(partial_frame(a) + b)));
    } else {
        assert(whole_frames(a) + whole_frames(a + b) =~= whole_frames(a + b));
    }
}

/// How a stream is cut into chunks does not matter: two chunks one after the other give the
/// frames that they give together.
pub proof fn law_chunking_is_invisible(kept: Seq<u8>, a: Seq<u8>, b: Seq<u8>)
    ensures
        whole_frames(kept + a) + whole_frames(partial_frame(kept + a) + b) == whole_frames(
            kept + (a + b),
        ),
        partial_frame(partial_frame(kept + a) + b) == partial_frame(kept + (a + b)),
{
    assert(kept + a + b =~= kept + (a + b));
    lemma_frames_of_concat(kept + a, b);
}

/// The frames of some messages, one after the other.
pub open spec fn framed_messages(messages: Seq<Seq<u8>>) -> Seq<u8>
    decreases messages.len(),
{
    if messages.len() == 0 {
        Seq::empty()
    } else {
        frame(messages[0]) + framed_messages(messages.drop_first())
    }
}

/// A stream of framed messages comes apart into exactly those frames, with nothing left over.
pub proof fn law_stream_of_frames(messages: Seq<Seq<u8>>)
    requires
        forall|i: int| 0 <= i < messages.len() ==> (#[trigger] messages[i]).len() < 0x1_0000_0000,
    ensures
        whole_frames(framed_messages(messages)) == Seq::new(
            messages.len(),
            |i: int| frame(messages[i]),
        ),
        partial_frame(framed_messages(messages)) == Seq::<u8>::empty(),
    decreases messages.len(),
{
    if messages.len() > 0 {
        let m = messages[0];
        let rest = messages.drop_first();
        let d = framed_messages(messages);
        lemma_be_bytes_len(m.len(), 4);
        lemma_base256();
        lemma_be_round_trip(m.len(), 4);
        assert(d.subrange(1, 5) =~= be_bytes(m.len(), 4));
        assert(d.take(5 + m.len() as int) =~= frame(m));
        assert(d.skip(5 + m.len() as int) =~= framed_messages(rest));
        law_stream_of_frames(rest);
        assert(whole_frames(d) =~= Seq::new(messages.len(), |i: int| frame(messages[i])));
    } else {
        assert(whole_frames(framed_messages(messages)) =~= Seq::new(
            0,
            |i: int| frame(messages[i]),
        ));
    }
}

// ── Status ────────────────────────────────────────────────────────────────────

#[derive(Debug, Clone, Copy, PartialEq, Eq, Structural)]
pub enum GrpcStatus {
    Success,
    Unknown,
    Unauthenticated,
}

/// The status that a number stands for; a number without one of its own is unknown.
pub open spec fn status_of(code: u32) -> GrpcStatus {
    if code == 0 {
        GrpcStatus::Success
    } else if code == 16 {
        GrpcStatus::Unauthenticated
    } else {
        GrpcStatus::Unknown
    }
}

/// The number of a status.
pub open spec fn code_of(s: GrpcStatus) -> u32 {
    match s {
        GrpcStatus::Success => 0,
        GrpcStatus::Unknown => 2,
        GrpcStatus::Unauthenticated => 16,
    }
}

impl GrpcStatus {
    pub fn from_code(code: u32) -> (r: Self)
        ensures
            r == status_of(code),
    {
        match code {
            0 => GrpcStatus::Success,
            16 => GrpcStatus::Unauthenticated,
            _ => GrpcStatus::Unknown,
        }
    }

    /// Its number.
    pub fn code(self) -> (r: u32)
        ensures
            r == code_of(self),
    {
        match self {
            GrpcStatus::Success => 0,
            GrpcStatus::Unknown => 2,
            GrpcStatus::Unauthenticated => 16,
        }
    }

    pub fn is_ok(self) -> (r: bool)
        ensures
            r == (self == GrpcStatus::Success),
    {
        self == GrpcStatus::Success
    }
}

/// The number of a status is read back as that status.
pub proof fn law_status_number_round_trip(s: GrpcStatus)
    ensures
        status_of(code_of(s)) == s,
{
}

} // verus!
