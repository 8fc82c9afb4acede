//! The transfer engine: chunked writes, and reads that strip the two status
//! bytes with which the chip starts every USB packet it sends.
//!
//! The caller moves the bytes over the transport. The functions here decide
//! how much to move next and what the bytes that came back mean for the
//! request and for the context's read buffer.
use vstd::prelude::*;
use crate::context::ftdi_context;
use crate::error::{ErrorKind, FtdiContextError};

verus! {

/// A byte count and the time at which it was taken.
#[derive(Copy, Clone, Debug)]
pub struct size_and_time {
    pub total_bytes: usize,
    /// seconds or milliseconds
    pub timeval: u128,
}

/// The transport's status of a transfer that was cancelled.
pub const TRANSFER_CANCELLED: i32 = 3;

/// The payload of bytes read from the chip: every packet of `packet_size`
/// bytes (the last one possibly shorter) without its first two bytes.
pub open spec fn payload(data: Seq<u8>, packet_size: nat) -> Seq<u8>
    decreases data.len(),
{
    if data.len() == 0 || packet_size == 0 {
        Seq::empty()
    } else {
        let n = if data.len() < packet_size {
            data.len()
        } else {
            packet_size
        };
        let head = if n > 2 {
            data.subrange(2, n as int)
        } else {
            Seq::empty()
        };
        head + payload(data.subrange(n as int, data.len() as int), packet_size)
    }
}

/// The payload of `data`, read from an endpoint of `packet_size`-byte packets.
pub fn strip_status_bytes(data: &[u8], packet_size: usize) -> (r: Vec<u8>)
    requires
        packet_size > 2,
    ensures
        r@ == payload(data@, packet_size as nat),
{
    let mut out: Vec<u8> = Vec::new();
    let mut p: usize = 0;
    let len = data.len();
    assert(data@.subrange(0, len as int) =~= data@);
    while p < len
        invariant
            p <= len == data@.len(),
            packet_size > 2,
            out@ + payload(data@.subrange(p as int, len as int), packet_size as nat) == payload(
                data@,
                packet_size as nat,
            ),
        decreases len - p,
    {
        let n = if len - p < packet_size {
            len - p
        } else {
            packet_size
        };
        let ghost rest = data@.subrange(p as int, len as int);
        assert(rest.subrange(n as int, rest.len() as int) =~= data@.subrange(p + n, len as int));
        let ghost head = if n > 2 {
            rest.subrange(2, n as int)
        } else {
            Seq::<u8>::empty()
        };
        let ghost before = out@;
        if n > 2 {
            let mut k: usize = 2;
            while k < n
                invariant
                    2 <= k <= n,
                    p + n <= len == data@.len(),
                    rest == data@.subrange(p as int, len as int),
                    out@ == before + rest.subrange(2, k as int),
                decreases n - k,
            {
                out.push(data[p + k]);
                assert(rest.subrange(2, k + 1) =~= rest.subrange(2, k as int).push(data@[p + k]));
                k = k + 1;
            }
        }
        assert(out@ =~= before + head);
        assert(before + head + payload(data@.subrange(p + n, len as int), packet_size as nat) =~= before
            + (head + payload(data@.subrange(p + n, len as int), packet_size as nat)));
        p = p + n;
    }
    assert(data@.subrange(len as int, len as int) =~= Seq::<u8>::empty());
    out
}

/// Reading `n` full packets of `packet_size` bytes delivers exactly
/// `n * (packet_size - 2)` bytes, and the `j`-th payload byte of packet `k`
/// is byte `2 + j` of that packet: no status byte reaches the payload.
pub proof fn lemma_payload_full_packets(data: Seq<u8>, packet_size: nat, n: nat)
    requires
        packet_size > 2,
        data.len() == n * packet_size,
    ensures
        payload(data, packet_size).len() == n * (packet_size - 2),
        forall|k: int, j: int|
            0 <= k < n && 0 <= j < packet_size - 2 ==> #[trigger] payload(data, packet_size)[k * (
            packet_size - 2) + j] == data[k * packet_size + 2 + j],
    decreases n,
{
    let ps = packet_size as int;
    if n == 0 {
        assert(data.len() == 0) by (nonlinear_arith)
            requires
                data.len() == n * packet_size,
                n == 0,
        ;
    } else {
        assert(data.len() >= ps) by (nonlinear_arith)
            requires
                data.len() == n * packet_size,
                n >= 1,
                ps == packet_size,
        ;
        let rest = data.subrange(ps, data.len() as int);
        let m = (n - 1) as nat;
        assert(rest.len() == m * packet_size) by (nonlinear_arith)
            requires
                rest.len() == data.len() - ps,
                data.len() == n * packet_size,
                m == n - 1,
                ps == packet_size,
        ;
        lemma_payload_full_packets(rest, packet_size, m);
        let head = data.subrange(2, ps);
        assert(payload(data, packet_size) == head + payload(rest, packet_size));
        assert(n * (packet_size - 2) == (packet_size - 2) + m * (packet_size - 2)) by (nonlinear_arith)
            requires
                m == n - 1,
        ;
        assert forall|k: int, j: int|
            0 <= k < n && 0 <= j < packet_size - 2 implies #[trigger] payload(data, packet_size)[k * (
            packet_size - 2) + j] == data[k * packet_size + 2 + j] by {
            if k == 0 {
                assert(payload(data, packet_size)[j] == head[j]);
            } else {
                let k1 = k - 1;
                assert(k * (packet_size - 2) + j == (ps - 2) + (k1 * (packet_size - 2) + j)) by (nonlinear_arith)
                    requires
                        k1 == k - 1,
                        ps == packet_size,
                ;
                assert(k * packet_size + 2 + j == ps + (k1 * packet_size + 2 + j)) by (nonlinear_arith)
                    requires
                        k1 == k - 1,
                        ps == packet_size,
                ;
                assert(0 <= k1 * (packet_size - 2) + j < m * (packet_size - 2)) by (nonlinear_arith)
                    requires
                        0 <= k1 < m,
                        0 <= j < packet_size - 2,
                        packet_size > 2,
                ;
                assert(0 <= k1 * packet_size + 2 + j < m * packet_size) by (nonlinear_arith)
                    requires
                        0 <= k1 < m,
                        0 <= j < packet_size - 2,
                        packet_size > 2,
                ;
                assert(payload(rest, packet_size)[k1 * (packet_size - 2) + j] == rest[k1 * packet_size
                    + 2 + j]);
            }
        }
    }
}

proof fn lemma_payload_len(data: Seq<u8>, packet_size: nat)
    ensures
        payload(data, packet_size).len() <= data.len(),
    decreases data.len(),
{
    if data.len() > 0 && packet_size > 0 {
        let n = if data.len() < packet_size {
            data.len()
        } else {
            packet_size
        };
        lemma_payload_len(data.subrange(n as int, data.len() as int), packet_size);
    }
}

/// One read or write request in progress.
///
/// For a read, `buf` holds the bytes delivered so far and `offset` is their
/// number; for a write, `buf` holds the bytes to write and `offset` the
/// number written. `completed` is 0 while the request runs, 1 when it is
/// done and `TRANSFER_CANCELLED` when it was cancelled.
pub struct ftdi_transfer_control {
    pub completed: i32,
    pub buf: Vec<u8>,
    pub size: usize,
    pub offset: usize,
}

impl ftdi_transfer_control {
    pub open spec fn read_wf(&self) -> bool {
        self.buf@.len() == self.offset <= self.size
    }

    pub open spec fn write_wf(&self) -> bool {
        self.buf@.len() == self.size && self.offset <= self.size
    }

    /// A write request for the bytes of `buffer`.
    pub fn new(buffer: &Vec<u8>) -> (r: ftdi_transfer_control)
        ensures
            r.buf@ == buffer@,
            r.size == buffer@.len(),
            r.offset == 0,
            r.completed == 0,
            r.write_wf(),
    {
        ftdi_transfer_control { completed: 0, buf: buffer.clone(), size: buffer.len(), offset: 0 }
    }

    /// A read request for `size` bytes, with nothing delivered yet.
    pub fn new_read(size: usize) -> (r: ftdi_transfer_control)
        ensures
            r.buf@.len() == 0,
            r.size == size,
            r.offset == 0,
            r.completed == 0,
            r.read_wf(),
    {
        ftdi_transfer_control { completed: 0, buf: Vec::new(), size, offset: 0 }
    }

    /// Marks the request done when the transport could not take it again.
    pub fn resubmit_failed(&mut self)
        ensures
            *final(self) == (ftdi_transfer_control { completed: 1, ..*old(self) }),
    {
        self.completed = 1;
    }
}

impl Default for ftdi_transfer_control {
    fn default() -> (r: ftdi_transfer_control)
        ensures
            r.buf@.len() == 0 && r.size == 0 && r.offset == 0 && r.completed == 0,
    {
        ftdi_transfer_control::new_read(0)
    }
}

/// The next chunk of a write: where it starts and how long it is, at most
/// `chunk_size` bytes; none once everything is written.
pub open spec fn next_write_chunk(tc: ftdi_transfer_control, chunk_size: u32) -> Option<(usize, usize)> {
    if tc.offset < tc.size {
        let left = (tc.size - tc.offset) as usize;
        Some((tc.offset, if left < chunk_size { left } else { chunk_size as usize }))
    } else {
        None
    }
}

impl ftdi_context {
    /// The bytes of the read buffer not yet handed out.
    pub open spec fn buffered(&self) -> Seq<u8> {
        self.readbuffer@.subrange(
            self.readbuffer_offset as int,
            self.readbuffer_offset + self.readbuffer_remaining,
        )
    }

    /// The context with its read buffer holding `b`, and nothing else changed.
    pub open spec fn with_buffered(self, other: ftdi_context, b: Seq<u8>) -> bool {
        &&& other.buffered() == b
        &&& other.wf()
        &&& other.usb_dev == self.usb_dev && other.usb_ctx == self.usb_ctx
        &&& other.readbuffer_chunksize == self.readbuffer_chunksize
        &&& other.max_packet_size == self.max_packet_size
        &&& other.writebuffer_chunksize == self.writebuffer_chunksize
        &&& other.baudrate == self.baudrate && other.chip_type == self.chip_type
        &&& other.index == self.index && other.in_ep == self.in_ep && other.out_ep == self.out_ep
    }

    /// Starts reading `size` bytes. The bytes already buffered are handed
    /// out first; if they are enough, the request is done at once and no
    /// transfer is needed. Otherwise the caller submits bulk reads of
    /// `readbuffer_chunksize` bytes until the request is complete.
    pub fn ftdi_read_data_submit(&mut self, size: usize) -> (r: Result<
        ftdi_transfer_control,
        FtdiContextError,
    >)
        requires
            old(self).wf(),
        ensures
            r is Ok <==> old(self).usb_dev,
            r matches Err(e) ==> e.is(ErrorKind::Init, -2) && *final(self) == *old(self),
            r matches Ok(tc) ==> {
                let b = old(self).buffered();
                &&& tc.read_wf() && tc.size == size
                &&& if size <= b.len() {
                    &&& tc.buf@ == b.subrange(0, size as int)
                    &&& tc.completed == 1
                    &&& old(self).with_buffered(*final(self), b.subrange(size as int, b.len() as int))
                } else {
                    &&& tc.buf@ == b
                    &&& tc.completed == 0
                    &&& old(self).with_buffered(*final(self), Seq::empty())
                }
            },
    {
        self.check_usb_device()?;
        let avail = self.readbuffer_remaining as usize;
        let take = if size <= avail { size } else { avail };
        let start = self.readbuffer_offset as usize;
        let mut buf: Vec<u8> = Vec::new();
        let mut i: usize = 0;
        while i < take
            invariant
                take <= avail == self.readbuffer_remaining,
                start == self.readbuffer_offset,
                self.wf(),
                i <= take,
                buf@ == self.buffered().subrange(0, i as int),
            decreases take - i,
        {
            buf.push(self.readbuffer[start + i]);
            assert(self.buffered().subrange(0, i + 1) =~= self.buffered().subrange(0, i as int).push(
                self.readbuffer@[start + i],
            ));
            i = i + 1;
        }
        let ghost b = self.buffered();
        if size <= avail {
            self.readbuffer_offset = self.readbuffer_offset + size as u32;
            self.readbuffer_remaining = self.readbuffer_remaining - size as u32;
            assert(self.buffered() =~= b.subrange(size as int, b.len() as int));
            Ok(ftdi_transfer_control { completed: 1, buf, size, offset: size })
        } else {
            assert(buf@ =~= b);
            self.readbuffer_offset = 0;
            self.readbuffer_remaining = 0;
            assert(self.buffered() =~= Seq::<u8>::empty());
            Ok(ftdi_transfer_control { completed: 0, buf, size, offset: take })
        }
    }

    /// Takes the bytes `data` of one bulk read for the request `tc`: their
    /// payload goes to the request up to its size, and what is left over
    /// stays in the read buffer for the next read. Bytes of a read of at
    /// most two bytes carry no payload and change nothing.
    pub fn ftdi_read_data_packet(&mut self, tc: &mut ftdi_transfer_control, data: &[u8])
        requires
            old(self).wf(),
            old(tc).read_wf(),
            old(self).max_packet_size > 2,
            data@.len() <= old(self).readbuffer_chunksize,
        ensures
            final(tc).read_wf(),
            final(tc).size == old(tc).size,
            data@.len() <= 2 ==> *final(tc) == *old(tc) && *final(self) == *old(self),
            data@.len() > 2 ==> {
                let p = payload(data@, old(self).max_packet_size as nat);
                let want = old(tc).size - old(tc).offset;
                let take = if p.len() < want {
                    p.len() as int
                } else {
                    want
                };
                &&& final(tc).buf@ == old(tc).buf@ + p.subrange(0, take)
                &&& final(tc).offset == old(tc).offset + take
                &&& final(tc).completed == if final(tc).offset == old(tc).size {
                    1
                } else {
                    old(tc).completed
                }
                &&& old(self).with_buffered(*final(self), p.subrange(take, p.len() as int))
            },
    {
        if data.len() <= 2 {
            return;
        }
        let p = strip_status_bytes(data, self.max_packet_size as usize);
        proof {
            lemma_payload_len(data@, self.max_packet_size as nat);
        }
        let want = tc.size - tc.offset;
        let take = if p.len() < want { p.len() } else { want };
        let ghost old_buf = tc.buf@;
        let ghost tc0 = *tc;
        let mut i: usize = 0;
        while i < take
            invariant
                *tc == (ftdi_transfer_control { buf: tc.buf, ..tc0 }),
                take <= p@.len(),
                take <= want == tc.size - tc.offset,
                i <= take,
                tc.buf@ == old_buf + p@.subrange(0, i as int),
                tc.offset + i == tc.buf@.len(),
            decreases take - i,
        {
            tc.buf.push(p[i]);
            assert(p@.subrange(0, i + 1) =~= p@.subrange(0, i as int).push(p@[i as int]));
            i = i + 1;
        }
        tc.offset = tc.offset + take;
        if tc.offset == tc.size {
            tc.completed = 1;
        }
        let rest = p.len() - take;
        let mut j: usize = 0;
        let ghost s0 = *self;
        while j < rest
            invariant
                rest == p@.len() - take,
                take <= p@.len() <= usize::MAX,
                *self == (ftdi_context { readbuffer: self.readbuffer, ..s0 }),
                rest <= self.readbuffer_chunksize,
                self.readbuffer@.len() == self.readbuffer_chunksize,
                j <= rest,
                forall|k: int| 0 <= k < j ==> self.readbuffer@[k] == p@[take + k],
            decreases rest - j,
        {
            assert(take + j < p@.len());
            self.readbuffer.set(j, p[take + j]);
            j = j + 1;
        }
        self.readbuffer_offset = 0;
        self.readbuffer_remaining = rest as u32;
        assert(self.buffered() =~= p@.subrange(take as int, p@.len() as int));
    }

    /// Takes the outcome of one blocking bulk read for `tc`: a negative
    /// status fails; a read with no payload ends the request with what it
    /// has; otherwise as `ftdi_read_data_packet`.
    pub fn ftdi_read_data_chunk(&mut self, tc: &mut ftdi_transfer_control, status: i32, data: &[u8]) -> (r:
        Result<(), FtdiContextError>)
        requires
            old(self).wf(),
            old(tc).read_wf(),
            old(self).max_packet_size > 2,
            data@.len() <= old(self).readbuffer_chunksize,
        ensures
            r is Ok <==> status >= 0,
            r matches Err(e) ==> e.is(ErrorKind::Command, -1) && *final(tc) == *old(tc) && *final(self)
                == *old(self),
            final(self).wf(),
            final(tc).read_wf(),
            status >= 0 && data@.len() <= 2 ==> *final(tc) == (ftdi_transfer_control {
                completed: 1,
                ..*old(tc)
            }) && *final(self) == *old(self),
            status >= 0 && data@.len() > 2 ==> {
                let p = payload(data@, old(self).max_packet_size as nat);
                let want = old(tc).size - old(tc).offset;
                let take = if p.len() < want {
                    p.len() as int
                } else {
                    want
                };
                &&& final(tc).buf@ == old(tc).buf@ + p.subrange(0, take)
                &&& final(tc).offset == old(tc).offset + take
                &&& final(tc).completed == if final(tc).offset == old(tc).size {
                    1
                } else {
                    old(tc).completed
                }
                &&& old(self).with_buffered(*final(self), p.subrange(take, p.len() as int))
            },
    {
        if status < 0 {
            return Err(FtdiContextError::new(ErrorKind::Command, -1, "usb bulk read failed"));
        }
        if data.len() <= 2 {
            tc.completed = 1;
            return Ok(());
        }
        self.ftdi_read_data_packet(tc, data);
        Ok(())
    }

    /// The completion of an asynchronous bulk read for `tc`, with the
    /// transfer's status and bytes. The payload is taken as by
    /// `ftdi_read_data_packet`. A cancelled transfer marks the request
    /// cancelled; otherwise the result says whether the transfer is to be
    /// submitted again, which it is while the request is not complete.
    pub fn ftdi_read_data_callback(
        &mut self,
        tc: &mut ftdi_transfer_control,
        transfer_status: i32,
        data: &[u8],
    ) -> (resubmit: bool)
        requires
            old(self).wf(),
            old(tc).read_wf(),
            old(self).max_packet_size > 2,
            data@.len() <= old(self).readbuffer_chunksize,
        ensures
            final(self).wf(),
            final(tc).read_wf(),
            final(tc).size == old(tc).size,
            data@.len() > 2 ==> {
                let p = payload(data@, old(self).max_packet_size as nat);
                let want = old(tc).size - old(tc).offset;
                let take = if p.len() < want {
                    p.len() as int
                } else {
                    want
                };
                &&& final(tc).buf@ == old(tc).buf@ + p.subrange(0, take)
                &&& old(self).with_buffered(*final(self), p.subrange(take, p.len() as int))
            },
            data@.len() <= 2 ==> final(tc).buf == old(tc).buf && *final(self) == *old(self),
            transfer_status == TRANSFER_CANCELLED ==> final(tc).completed == TRANSFER_CANCELLED
                && !resubmit,
            transfer_status != TRANSFER_CANCELLED ==> (resubmit <==> final(tc).offset < final(tc).size),
            transfer_status != TRANSFER_CANCELLED && !resubmit ==> final(tc).completed == 1,
            resubmit ==> final(tc).completed == old(tc).completed,
    {
        self.ftdi_read_data_packet(tc, data);
        if transfer_status == TRANSFER_CANCELLED {
            tc.completed = TRANSFER_CANCELLED;
            false
        } else if tc.offset < tc.size {
            true
        } else {
            tc.completed = 1;
            false
        }
    }

    /// Starts writing the first `size` bytes of `buffer`, in chunks of at
    /// most `writebuffer_chunksize` bytes; it needs an open handle. Nothing
    /// is left to write when `size` is 0.
    pub fn ftdi_write_data(&self, buffer: &Vec<u8>, size: usize) -> (r: Result<
        ftdi_transfer_control,
        FtdiContextError,
    >)
        requires
            size <= buffer@.len(),
        ensures
            r is Ok <==> self.usb_dev,
            r matches Err(e) ==> e.is(ErrorKind::Init, -2),
            r matches Ok(tc) ==> tc.write_wf() && tc.buf@ == buffer@.subrange(0, size as int)
                && tc.offset == 0 && tc.size == size && tc.completed == (if size == 0 {
                1int
            } else {
                0
            }),
    {
        self.check_usb_device()?;
        let mut buf: Vec<u8> = Vec::new();
        let mut i: usize = 0;
        while i < size
            invariant
                size <= buffer@.len(),
                i <= size,
                buf@ == buffer@.subrange(0, i as int),
            decreases size - i,
        {
            buf.push(buffer[i]);
            assert(buffer@.subrange(0, i + 1) =~= buffer@.subrange(0, i as int).push(buffer@[i as int]));
            i = i + 1;
        }
        let completed = if size == 0 { 1 } else { 0 };
        Ok(ftdi_transfer_control { completed, buf, size, offset: 0 })
    }

    /// The next chunk of a write: where it starts in `tc.buf` and how many
    /// bytes it has; none once everything is written.
    pub fn ftdi_write_next_chunk(&self, tc: &ftdi_transfer_control) -> (r: Option<(usize, usize)>)
        requires
            tc.write_wf(),
        ensures
            r == next_write_chunk(*tc, self.writebuffer_chunksize),
    {
        if tc.offset < tc.size {
            let left = tc.size - tc.offset;
            let len = if left < self.writebuffer_chunksize as usize {
                left
            } else {
                self.writebuffer_chunksize as usize
            };
            Some((tc.offset, len))
        } else {
            None
        }
    }

    /// Takes the outcome of one blocking bulk write of a chunk of `tc`: a
    /// negative status fails; otherwise the request advances by the
    /// `actual` number of bytes written (no further than its size), and is
    /// done when all are written.
    pub fn ftdi_write_chunk_done(&self, tc: &mut ftdi_transfer_control, status: i32, actual: usize) -> (r:
        Result<(), FtdiContextError>)
        requires
            old(tc).write_wf(),
        ensures
            r is Ok <==> status >= 0,
            r matches Err(e) ==> e.is(ErrorKind::Command, -1) && *final(tc) == *old(tc),
            final(tc).write_wf(),
            status >= 0 ==> final(tc).buf == old(tc).buf && final(tc).size == old(tc).size
                && final(tc).offset == (if actual < old(tc).size - old(tc).offset {
                old(tc).offset + actual
            } else {
                old(tc).size as int
            }) && final(tc).completed == (if final(tc).offset == final(tc).size {
                1
            } else {
                old(tc).completed
            }),
    {
        if status < 0 {
            return Err(FtdiContextError::new(ErrorKind::Command, -1, "usb bulk write failed"));
        }
        if actual < tc.size - tc.offset {
            tc.offset = tc.offset + actual;
        } else {
            tc.offset = tc.size;
        }
        if tc.offset == tc.size {
            tc.completed = 1;
        }
        Ok(())
    }

    /// The completion of an asynchronous bulk write of a chunk of `tc`,
    /// with the transfer's status and the bytes it wrote. The request
    /// advances as in `ftdi_write_chunk_done`; when all is written it is
    /// done. Otherwise a cancelled transfer marks the request cancelled,
    /// and any other gives the next chunk to submit.
    pub fn ftdi_write_data_cb(
        &self,
        tc: &mut ftdi_transfer_control,
        transfer_status: i32,
        actual: usize,
    ) -> (r: Option<(usize, usize)>)
        requires
            old(tc).write_wf(),
        ensures
            final(tc).write_wf(),
            final(tc).buf == old(tc).buf && final(tc).size == old(tc).size,
            final(tc).offset == (if actual < old(tc).size - old(tc).offset {
                old(tc).offset + actual
            } else {
                old(tc).size as int
            }),
            final(tc).offset == final(tc).size ==> final(tc).completed == 1 && r is None,
            final(tc).offset < final(tc).size && transfer_status == TRANSFER_CANCELLED ==> (final(
                tc).completed == TRANSFER_CANCELLED && r is None),
            final(tc).offset < final(tc).size && transfer_status != TRANSFER_CANCELLED ==> r
                == next_write_chunk(*final(tc), self.writebuffer_chunksize),
    {
        if actual < tc.size - tc.offset {
            tc.offset = tc.offset + actual;
        } else {
            tc.offset = tc.size;
        }
        if tc.offset == tc.size {
            tc.completed = 1;
            return None;
        }
        if transfer_status == TRANSFER_CANCELLED {
            tc.completed = TRANSFER_CANCELLED;
            return None;
        }
        self.ftdi_write_next_chunk(tc)
    }
}

} // verus!
