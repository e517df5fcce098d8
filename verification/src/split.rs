//! The two ends of a device, which share its descriptor, and the device that holds both.

use crate::descriptor::Descriptor;
use crate::error::Error;
use crate::packet::{
    framed, generate_packet_information, header_length, is_ipv6, payload_of,
    PACKET_INFORMATION_LENGTH,
};
use bytes::BufMut;
use std::sync::Arc;
use vstd::prelude::*;

verus! {

/// `bytes::BufMut::put_slice` on a byte slice: `src` is copied over the front of `dst`, the
/// rest of `dst` stays. It panics when `dst` is the shorter one, which the `requires` excludes.
#[verifier::external_body]
fn put_slice(dst: &mut [u8], src: &[u8])
    requires
        src@.len() <= old(dst)@.len(),
    ensures
        final(dst)@ == src@ + old(dst)@.skip(src@.len() as int),
{
    let mut cursor: &mut [u8] = dst;
    cursor.put_slice(src);
}

/// `Arc::into_inner`: the shared value, handed out only to the last handle on it.
#[verifier::external_body]
fn into_inner<D>(shared: Arc<D>) -> (r: Option<D>)
    ensures
        r matches Some(value) ==> value == *shared,
{
    Arc::into_inner(shared)
}

/// `scratch`, lengthened with zeros to `len` bytes where it is shorter.
pub open spec fn grown(scratch: Seq<u8>, len: nat) -> Seq<u8> {
    if len > scratch.len() {
        scratch + Seq::new((len - scratch.len()) as nat, |i: int| 0u8)
    } else {
        scratch
    }
}

/// `scratch`, cut or lengthened with zeros to exactly `len` bytes.
pub open spec fn resized(scratch: Seq<u8>, len: nat) -> Seq<u8> {
    if len <= scratch.len() {
        scratch.take(len as int)
    } else {
        grown(scratch, len)
    }
}

/// The length of the frame of `payload`, where it has a frame.
pub open spec fn frame_length(payload: Seq<u8>) -> Result<usize, Error> {
    match framed(payload) {
        Err(e) => Err(e),
        Ok(frame) => Ok(frame.len() as usize),
    }
}

/// A scratch buffer after the frame of `payload` was laid out in it: the frame at the front,
/// behind it the buffer as it was, grown where the frame did not fit. Without a frame the
/// buffer is as it was.
pub open spec fn assembled(before: Seq<u8>, payload: Seq<u8>) -> Seq<u8> {
    match frame_length(payload) {
        Err(_) => before,
        Ok(len) => framed(payload)->Ok_0 + grown(before, len as nat).skip(len as int),
    }
}

/// The payload's share of a transfer of `amount` bytes that began with a header of `offset`
/// bytes. A transfer that ended inside the header has no such share.
pub open spec fn accounted(outcome: Result<usize, Error>, offset: usize) -> Result<usize, Error> {
    match outcome {
        Err(e) => Err(e),
        Ok(amount) => if amount < offset {
            Err(Error::ShortTransfer(amount))
        } else {
            Ok((amount - offset) as usize)
        },
    }
}

/// What `deliver` makes of the caller's buffer, given what the descriptor reported.
pub open spec fn delivered(
    raw: Seq<u8>,
    offset: usize,
    outcome: Result<usize, Error>,
    before: Seq<u8>,
    after: Seq<u8>,
    r: Result<usize, Error>,
) -> bool {
    match outcome {
        Err(e) => r == Err::<usize, Error>(e) && after == before,
        Ok(amount) => if amount < offset {
            r == Err::<usize, Error>(Error::ShortTransfer(amount)) && after == before
        } else if amount > raw.len() || amount - offset > before.len() {
            r == Err::<usize, Error>(Error::Overrun(amount)) && after == before
        } else {
            &&& r == Ok::<usize, Error>((amount - offset) as usize)
            &&& after == payload_of(raw, offset as int, amount as int) + before.skip(
                amount - offset,
            )
        },
    }
}

/// What a framed read makes of the scratch buffer, of the caller's buffer and of its result.
/// The scratch buffer grows to the caller's length and the header's where it is shorter; the
/// descriptor reads once, into that many bytes at its front; and `deliver` makes of what the
/// descriptor stored and reported what it makes of any read.
pub open spec fn read_framed<D: Descriptor>(
    descriptor: D,
    offset: usize,
    scratch: Seq<u8>,
    scratch_after: Seq<u8>,
    before: Seq<u8>,
    after: Seq<u8>,
    r: Result<usize, Error>,
) -> bool {
    let len = before.len() + offset;
    let room = grown(scratch, len as nat);
    exists|raw: Seq<u8>, outcome: Result<usize, Error>|
        {
            &&& #[trigger] descriptor.reads(room.take(len), raw, outcome)
            &&& raw.len() == len
            &&& scratch_after == raw + room.skip(len)
            &&& delivered(raw, offset, outcome, before, after, r)
        }
}

/// What a framed write of `payload` gives as its result: the error of a payload that has no
/// frame, before anything is written; else the descriptor writes once, the frame and nothing
/// but the frame, and the result is the payload's share of what it reported.
pub open spec fn written_framed<D: Descriptor>(
    descriptor: D,
    offset: usize,
    payload: Seq<u8>,
    r: Result<usize, Error>,
) -> bool {
    match framed(payload) {
        Err(e) => r == Err::<usize, Error>(e),
        Ok(frame) => exists|outcome: Result<usize, Error>| #[trigger]
            descriptor.writes(frame, outcome) && r == accounted(outcome, offset),
    }
}

/// Lengthens `scratch` to `len` bytes where it is shorter.
fn reserve(scratch: &mut Vec<u8>, len: usize)
    ensures
        final(scratch)@ == grown(old(scratch)@, len as nat),
{
    if len > scratch.len() {
        let ghost before = scratch@;
        scratch.resize(len, 0u8);
        assert(scratch@ =~= grown(before, len as nat));
    }
}

/// Lays the frame of `payload` out at the front of `scratch`: the protocol tag, then the
/// payload. Gives the length of the frame. The payload is sniffed first, so that nothing is
/// touched for one whose protocol cannot be told.
pub fn assemble(scratch: &mut Vec<u8>, payload: &[u8]) -> (r: Result<usize, Error>)
    requires
        payload@.len() + PACKET_INFORMATION_LENGTH <= usize::MAX,
    ensures
        r == frame_length(payload@),
        final(scratch)@ == assembled(old(scratch)@, payload@),
{
    let ipv6 = match is_ipv6(payload) {
        Ok(ipv6) => ipv6,
        Err(e) => {
            return Err(e);
        },
    };
    let header = generate_packet_information(true, ipv6).unwrap();
    let len = PACKET_INFORMATION_LENGTH + payload.len();
    reserve(scratch, len);
    let ghost roomy = scratch@;
    let (head, tail) = scratch.as_mut_slice().split_at_mut(PACKET_INFORMATION_LENGTH);
    put_slice(head, header.as_slice());
    put_slice(tail, payload);
    assert(scratch@ =~= framed(payload@)->Ok_0 + roomy.skip(len as int));
    Ok(len)
}

/// Accounts for a framed write: of the bytes that the descriptor accepted, those that belong
/// to the payload. A write that ended inside the header is an error, as is a failed one.
pub fn payload_accepted(outcome: Result<usize, Error>, offset: usize) -> (r: Result<usize, Error>)
    ensures
        r == accounted(outcome, offset),
{
    match outcome {
        Err(e) => Err(e),
        Ok(amount) => if amount < offset {
            Err(Error::ShortTransfer(amount))
        } else {
            Ok(amount - offset)
        },
    }
}

/// Finishes a framed read: copies the payload, which lies in `raw` behind `offset` bytes of
/// header, to the front of `dest`, and gives its length. `outcome` is what the descriptor
/// reported of the read that filled `raw`. Nothing is copied for a read that failed, that
/// ended inside the header, or that claims more bytes than `raw` or `dest` can account for.
pub fn deliver(raw: &[u8], offset: usize, outcome: Result<usize, Error>, dest: &mut [u8]) -> (r:
    Result<usize, Error>)
    ensures
        delivered(raw@, offset, outcome, old(dest)@, final(dest)@, r),
{
    match outcome {
        Err(e) => Err(e),
        Ok(amount) => {
            if amount < offset {
                Err(Error::ShortTransfer(amount))
            } else if amount > raw.len() || amount - offset > dest.len() {
                Err(Error::Overrun(amount))
            } else {
                put_slice(dest, vstd::slice::slice_subrange(raw, offset, amount));
                Ok(amount - offset)
            }
        },
    }
}

/// One end of a device, as the contracts see it.
pub struct EndView<D> {
    /// The descriptor that this end shares with the other.
    pub descriptor: D,
    /// Number of header bytes in front of every packet: none, or the packet information.
    pub offset: usize,
    /// The scratch buffer in which framed packets are taken apart or put together.
    pub scratch: Seq<u8>,
}

impl<D> EndView<D> {
    /// An end takes the packet-information header off or puts it on whole, or not at all.
    pub open spec fn wf(self) -> bool {
        self.offset == 0 || self.offset == PACKET_INFORMATION_LENGTH
    }
}

/// A device, as the contracts see it.
pub struct TunView<D> {
    pub reader: EndView<D>,
    pub writer: EndView<D>,
    pub mtu: usize,
    pub packet_information: bool,
}

impl<D> TunView<D> {
    /// Both ends share the descriptor and agree with the device on the header length, and
    /// each scratch buffer has room for a packet of the MTU with its header.
    pub open spec fn wf(self) -> bool {
        &&& self.reader.descriptor == self.writer.descriptor
        &&& self.reader.offset == header_length(self.packet_information)
        &&& self.writer.offset == header_length(self.packet_information)
        &&& self.reader.scratch.len() >= self.mtu + self.reader.offset
        &&& self.writer.scratch.len() >= self.mtu + self.writer.offset
    }

    /// The device after its MTU was set to `value`: both scratch buffers are resized to
    /// `value` and the header, nothing else changes.
    pub open spec fn with_mtu(self, value: usize) -> TunView<D> {
        TunView {
            reader: EndView {
                scratch: resized(self.reader.scratch, (value + self.reader.offset) as nat),
                ..self.reader
            },
            writer: EndView {
                scratch: resized(self.writer.scratch, (value + self.writer.offset) as nat),
                ..self.writer
            },
            mtu: value,
            ..self
        }
    }

    /// How a read or a write may leave the device: what it is made of stays, and no scratch
    /// buffer gets shorter.
    pub open spec fn transferred(self, after: TunView<D>) -> bool {
        &&& after.mtu == self.mtu
        &&& after.packet_information == self.packet_information
        &&& after.reader.descriptor == self.reader.descriptor
        &&& after.writer.descriptor == self.writer.descriptor
        &&& after.reader.offset == self.reader.offset
        &&& after.writer.offset == self.writer.offset
        &&& after.reader.scratch.len() >= self.reader.scratch.len()
        &&& after.writer.scratch.len() >= self.writer.scratch.len()
    }
}

/// Once the MTU of a device is set to `value`, a read or a write leaves the scratch buffers of
/// both ends with room for a packet of `value` bytes and its header.
pub proof fn lemma_scratch_holds_mtu<D>(device: TunView<D>, value: usize, after: TunView<D>)
    requires
        device.with_mtu(value).transferred(after),
    ensures
        after.mtu == value,
        after.reader.scratch.len() >= value + after.reader.offset,
        after.writer.scratch.len() >= value + after.writer.offset,
{
}

/// A payload that was framed, and whose frame the descriptor carried whole, comes out of a
/// framed read as it went in: `raw` is what the read found, its first bytes those that
/// `assemble` had laid out, and `dest` is a buffer with room for the payload.
pub proof fn lemma_round_trip(
    payload: Seq<u8>,
    scratch: Seq<u8>,
    raw: Seq<u8>,
    dest: Seq<u8>,
    after: Seq<u8>,
    r: Result<usize, Error>,
)
    requires
        payload.len() + PACKET_INFORMATION_LENGTH <= usize::MAX,
        frame_length(payload) is Ok,
        frame_length(payload)->Ok_0 <= raw.len(),
        raw.take(frame_length(payload)->Ok_0 as int) == assembled(scratch, payload).take(
            frame_length(payload)->Ok_0 as int,
        ),
        payload.len() <= dest.len(),
        delivered(raw, PACKET_INFORMATION_LENGTH, Ok(frame_length(payload)->Ok_0), dest, after, r),
    ensures
        r == Ok::<usize, Error>(payload.len() as usize),
        after.take(payload.len() as int) == payload,
        after.skip(payload.len() as int) == dest.skip(payload.len() as int),
        after.len() == dest.len(),
{
    let len = frame_length(payload)->Ok_0 as int;
    let frame = framed(payload)->Ok_0;
    assert(assembled(scratch, payload).take(len) =~= frame);
    assert(raw.subrange(PACKET_INFORMATION_LENGTH as int, len) =~= payload) by {
        assert forall|i: int| 0 <= i < payload.len() implies raw[i + 4] == payload[i] by {
            assert(raw[i + 4] == raw.take(len)[i + 4]);
            assert(frame[i + 4] == payload[i]);
        }
    }
    assert(after.take(payload.len() as int) =~= payload);
    assert(after.skip(payload.len() as int) =~= dest.skip(payload.len() as int));
}

/// Where the descriptor takes every frame whole, a framed write reports the whole payload:
/// the header that went out with it is not counted.
pub proof fn lemma_write_carried_whole<D: Descriptor>(
    descriptor: D,
    payload: Seq<u8>,
    r: Result<usize, Error>,
)
    requires
        payload.len() + PACKET_INFORMATION_LENGTH <= usize::MAX,
        framed(payload) is Ok,
        forall|outcome: Result<usize, Error>| #[trigger]
            descriptor.writes(framed(payload)->Ok_0, outcome) ==> outcome == Ok::<usize, Error>(
                framed(payload)->Ok_0.len() as usize,
            ),
        written_framed(descriptor, PACKET_INFORMATION_LENGTH, payload, r),
    ensures
        r == Ok::<usize, Error>(payload.len() as usize),
{
}

/// Read-only end for a descriptor.
pub struct Reader<D> {
    fd: Arc<D>,
    offset: usize,
    buf: Vec<u8>,
}

impl<D> View for Reader<D> {
    type V = EndView<D>;

    closed spec fn view(&self) -> EndView<D> {
        EndView { descriptor: *self.fd, offset: self.offset, scratch: self.buf@ }
    }
}

impl<D> Reader<D> {
    /// Resizes the scratch buffer to a packet of `value` bytes and its header.
    pub fn set_mtu(&mut self, value: usize)
        requires
            value + old(self)@.offset <= usize::MAX,
        ensures
            final(self)@ == (EndView {
                scratch: resized(old(self)@.scratch, (value + old(self)@.offset) as nat),
                ..old(self)@
            }),
    {
        let ghost before = self.buf@;
        self.buf.resize(value + self.offset, 0u8);
        assert(self.buf@ =~= resized(before, (value + self.offset) as nat));
    }

    /// The scratch buffer, for a look at what the last framed read left in it.
    pub fn scratch(&self) -> (r: &[u8])
        ensures
            r@ == self@.scratch,
    {
        self.buf.as_slice()
    }

    /// The descriptor that this end reads from.
    pub fn descriptor(&self) -> (r: &D)
        ensures
            *r == self@.descriptor,
    {
        &*self.fd
    }

    /// Gives the descriptor back, if this end is the last holder of it: `None` while another
    /// holder is alive. The descriptor that comes out is the one this end read from.
    pub fn into_descriptor(self) -> (r: Option<D>)
        ensures
            r matches Some(descriptor) ==> descriptor == self@.descriptor,
    {
        into_inner(self.fd)
    }
}

impl<D: Descriptor> Reader<D> {
    /// Reads one packet into `buf` and gives the length of its payload.
    ///
    /// Without a header the descriptor reads into `buf` itself, and what it stored and
    /// reported is the outcome. With one, the packet lands in the scratch buffer, which grows
    /// to `buf.len()` and the header where it is shorter, and `deliver` copies the payload
    /// out.
    pub fn read(&mut self, buf: &mut [u8]) -> (r: Result<usize, Error>)
        requires
            old(buf)@.len() + old(self)@.offset <= usize::MAX,
        ensures
            final(self)@.descriptor == old(self)@.descriptor,
            final(self)@.offset == old(self)@.offset,
            final(self)@.scratch.len() >= old(self)@.scratch.len(),
            final(buf)@.len() == old(buf)@.len(),
            old(self)@.offset == 0 ==> {
                &&& final(self)@.scratch == old(self)@.scratch
                &&& old(self)@.descriptor.reads(old(buf)@, final(buf)@, r)
            },
            old(self)@.offset != 0 ==> read_framed(
                old(self)@.descriptor,
                old(self)@.offset,
                old(self)@.scratch,
                final(self)@.scratch,
                old(buf)@,
                final(buf)@,
                r,
            ),
    {
        if self.offset == 0 {
            return self.fd.read(buf);
        }
        let len = buf.len() + self.offset;
        reserve(&mut self.buf, len);
        let (landing, _) = self.buf.as_mut_slice().split_at_mut(len);
        let ghost empty = landing@;
        let outcome = self.fd.read(landing);
        let ghost raw = landing@;
        let r = deliver(
            vstd::slice::slice_subrange(self.buf.as_slice(), 0, len),
            self.offset,
            outcome,
            buf,
        );
        proof {
            let n = old(buf)@.len() + old(self)@.offset;
            let wide = grown(old(self)@.scratch, n as nat);
            assert(wide.take(n) =~= empty);
            assert(self.buf@.subrange(0, len as int) =~= raw);
            assert(self@.scratch =~= raw + wide.skip(n));
            assert(old(self)@.descriptor.reads(wide.take(n), raw, outcome));
        }
        r
    }
}

/// Write-only end for a descriptor.
pub struct Writer<D> {
    fd: Arc<D>,
    offset: usize,
    buf: Vec<u8>,
}

impl<D> View for Writer<D> {
    type V = EndView<D>;

    closed spec fn view(&self) -> EndView<D> {
        EndView { descriptor: *self.fd, offset: self.offset, scratch: self.buf@ }
    }
}

impl<D> Writer<D> {
    /// Resizes the scratch buffer to a packet of `value` bytes and its header.
    pub fn set_mtu(&mut self, value: usize)
        requires
            value + old(self)@.offset <= usize::MAX,
        ensures
            final(self)@ == (EndView {
                scratch: resized(old(self)@.scratch, (value + old(self)@.offset) as nat),
                ..old(self)@
            }),
    {
        let ghost before = self.buf@;
        self.buf.resize(value + self.offset, 0u8);
        assert(self.buf@ =~= resized(before, (value + self.offset) as nat));
    }

    /// The scratch buffer, for a look at what the last framed write put together in it.
    pub fn scratch(&self) -> (r: &[u8])
        ensures
            r@ == self@.scratch,
    {
        self.buf.as_slice()
    }

    /// The descriptor that this end writes to.
    pub fn descriptor(&self) -> (r: &D)
        ensures
            *r == self@.descriptor,
    {
        &*self.fd
    }

    /// Nothing is held back between writes, so there is nothing to flush.
    pub fn flush(&mut self) -> (r: Result<(), Error>)
        ensures
            r is Ok,
            final(self)@ == old(self)@,
    {
        Ok(())
    }
}

impl<D: Descriptor> Writer<D> {
    /// Writes `buf` as one packet and gives the number of its bytes that the descriptor
    /// accepted.
    ///
    /// Without a header `buf` goes to the descriptor as it is, and its answer is the result.
    /// With one, the frame of `buf` is put together in the scratch buffer and goes out in a
    /// single write, and `payload_accepted` takes the header off the count. A packet whose
    /// protocol cannot be told is refused before anything is written.
    pub fn write(&mut self, buf: &[u8]) -> (r: Result<usize, Error>)
        requires
            old(self)@.wf(),
            buf@.len() + old(self)@.offset <= usize::MAX,
        ensures
            final(self)@.descriptor == old(self)@.descriptor,
            final(self)@.offset == old(self)@.offset,
            final(self)@.scratch.len() >= old(self)@.scratch.len(),
            old(self)@.offset == 0 ==> {
                &&& final(self)@.scratch == old(self)@.scratch
                &&& old(self)@.descriptor.writes(buf@, r)
            },
            old(self)@.offset != 0 ==> {
                &&& final(self)@.scratch == assembled(old(self)@.scratch, buf@)
                &&& written_framed(old(self)@.descriptor, old(self)@.offset, buf@, r)
            },
    {
        if self.offset == 0 {
            return self.fd.write(buf);
        }
        let len = match assemble(&mut self.buf, buf) {
            Ok(len) => len,
            Err(e) => {
                return Err(e);
            },
        };
        let outcome = self.fd.write(vstd::slice::slice_subrange(self.buf.as_slice(), 0, len));
        proof {
            assert(self.buf@.subrange(0, len as int) =~= framed(buf@)->Ok_0);
            assert((*self.fd).writes(framed(buf@)->Ok_0, outcome));
        }
        payload_accepted(outcome, self.offset)
    }
}

/// What a device knows of itself.
#[derive(Clone, Copy)]
struct TunInfo {
    mtu: usize,
    packet_information: bool,
}

/// A device: a reader and a writer on one descriptor.
pub struct Tun<D> {
    reader: Reader<D>,
    writer: Writer<D>,
    info: TunInfo,
}

impl<D> View for Tun<D> {
    type V = TunView<D>;

    closed spec fn view(&self) -> TunView<D> {
        TunView {
            reader: self.reader@,
            writer: self.writer@,
            mtu: self.info.mtu,
            packet_information: self.info.packet_information,
        }
    }
}

impl<D> Tun<D> {
    /// Makes a device of an open descriptor: both ends share it, and each gets a zeroed
    /// scratch buffer for a packet of `mtu` bytes and its header.
    pub fn new(fd: D, mtu: usize, packet_information: bool) -> (r: Self)
        requires
            mtu + header_length(packet_information) <= usize::MAX,
        ensures
            r@.wf(),
            r@.mtu == mtu,
            r@.packet_information == packet_information,
            r@.reader.descriptor == fd,
            r@.reader.scratch == Seq::new(
                (mtu + header_length(packet_information)) as nat,
                |i: int| 0u8,
            ),
            r@.writer.scratch == r@.reader.scratch,
    {
        let fd = Arc::new(fd);
        let offset: usize = if packet_information {
            PACKET_INFORMATION_LENGTH
        } else {
            0
        };
        Tun {
            reader: Reader { fd: fd.clone(), offset, buf: vec![0u8; mtu + offset] },
            writer: Writer { fd, offset, buf: vec![0u8; mtu + offset] },
            info: TunInfo { mtu, packet_information },
        }
    }

    /// Sets the MTU and resizes both scratch buffers to it.
    pub fn set_mtu(&mut self, value: usize)
        requires
            old(self)@.wf(),
            value + header_length(old(self)@.packet_information) <= usize::MAX,
        ensures
            final(self)@ == old(self)@.with_mtu(value),
            final(self)@.wf(),
    {
        self.info.mtu = value;
        self.reader.set_mtu(value);
        self.writer.set_mtu(value);
    }

    /// The MTU of the device.
    pub fn mtu(&self) -> (r: usize)
        ensures
            r == self@.mtu,
    {
        self.info.mtu
    }

    /// Whether every packet of the device carries the packet-information header.
    pub fn packet_information(&self) -> (r: bool)
        ensures
            r == self@.packet_information,
    {
        self.info.packet_information
    }

    /// The descriptor of the device.
    pub fn descriptor(&self) -> (r: &D)
        ensures
            *r == self@.reader.descriptor,
    {
        self.reader.descriptor()
    }

    /// Nothing is held back between writes, so there is nothing to flush.
    pub fn flush(&mut self) -> (r: Result<(), Error>)
        ensures
            r is Ok,
            final(self)@ == old(self)@,
    {
        self.writer.flush()
    }

    /// Parts the device into its two ends, which go on sharing the descriptor.
    pub fn split(self) -> (r: (Reader<D>, Writer<D>))
        ensures
            r.0@ == self@.reader,
            r.1@ == self@.writer,
    {
        (self.reader, self.writer)
    }

    /// Takes the device apart for its descriptor: the writer is released first, which leaves
    /// the reader as the only holder. Gives `None` instead of a descriptor that anything else
    /// still holds.
    pub fn into_descriptor(self) -> (r: Option<D>)
        ensures
            r matches Some(descriptor) ==> descriptor == self@.reader.descriptor,
    {
        let (reader, writer) = self.split();
        {
            let _released = writer;
        }
        reader.into_descriptor()
    }
}

impl<D: Descriptor> Tun<D> {
    /// Switches the descriptor, and with it both ends, to non-blocking mode: the call goes to
    /// the one descriptor that the ends share, and its answer is the result.
    pub fn set_nonblock(&self) -> (r: Result<(), Error>)
        ensures
            call_ensures(D::set_nonblock, (&self@.reader.descriptor,), r),
    {
        self.reader.fd.set_nonblock()
    }

    /// Reads one packet through the reader.
    pub fn read(&mut self, buf: &mut [u8]) -> (r: Result<usize, Error>)
        requires
            old(self)@.wf(),
            old(buf)@.len() + header_length(old(self)@.packet_information) <= usize::MAX,
        ensures
            old(self)@.transferred(final(self)@),
            final(self)@.wf(),
            final(self)@.writer == old(self)@.writer,
            final(buf)@.len() == old(buf)@.len(),
            !old(self)@.packet_information ==> {
                &&& final(self)@.reader == old(self)@.reader
                &&& old(self)@.reader.descriptor.reads(old(buf)@, final(buf)@, r)
            },
            old(self)@.packet_information ==> read_framed(
                old(self)@.reader.descriptor,
                PACKET_INFORMATION_LENGTH,
                old(self)@.reader.scratch,
                final(self)@.reader.scratch,
                old(buf)@,
                final(buf)@,
                r,
            ),
    {
        self.reader.read(buf)
    }

    /// Writes one packet through the writer.
    pub fn write(&mut self, buf: &[u8]) -> (r: Result<usize, Error>)
        requires
            old(self)@.wf(),
            buf@.len() + header_length(old(self)@.packet_information) <= usize::MAX,
        ensures
            old(self)@.transferred(final(self)@),
            final(self)@.wf(),
            final(self)@.reader == old(self)@.reader,
            !old(self)@.packet_information ==> {
                &&& final(self)@.writer == old(self)@.writer
                &&& old(self)@.writer.descriptor.writes(buf@, r)
            },
            old(self)@.packet_information ==> {
                &&& final(self)@.writer.scratch == assembled(old(self)@.writer.scratch, buf@)
                &&& written_framed(
                    old(self)@.writer.descriptor,
                    PACKET_INFORMATION_LENGTH,
                    buf@,
                    r,
                )
            },
    {
        self.writer.write(buf)
    }
}

} // verus!
