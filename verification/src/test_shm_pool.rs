use vstd::prelude::*;
use crate::ids::ObjectId;

verus! {

/// A pixel format as the test harness names it: the core wire id when
/// one exists, else the drm code.
#[derive(Clone, Copy, PartialEq, Eq, Structural, Debug)]
pub struct Format {
    pub wl_id: Option<u32>,
    pub drm: u32,
}

/// A failure surfaced to the test harness.
#[derive(Clone, Copy, PartialEq, Eq, Structural, Debug)]
pub enum TestError {
    /// A buffer would reach past the end of the backing pool.
    OutOfBoundsBuffer,
}

/// A request record the test harness sends to the server under test.
#[derive(Clone, Copy, PartialEq, Eq, Structural, Debug)]
pub enum PoolMessage {
    CreateBuffer {
        self_id: u32,
        id: u32,
        offset: i32,
        width: i32,
        height: i32,
        stride: i32,
        format: u32,
    },
    Resize { self_id: u32, size: u32 },
    Destroy { self_id: u32 },
}

/// The slice of the test transport this module needs: an id allocator
/// for harness-created objects and the queue of outgoing requests.
pub struct TestTransport {
    pub next_id: u32,
    pub msgs: Vec<PoolMessage>,
}

impl TestTransport {
    pub fn new() -> (r: Self)
        ensures
            r.next_id == 1,
            r.msgs@ == Seq::<PoolMessage>::empty(),
    {
        TestTransport { next_id: 1, msgs: Vec::new() }
    }

    /// Allocates the next harness-side object id.
    pub fn id(&mut self) -> (r: u32)
        requires
            old(self).next_id < u32::MAX,
        ensures
            r == old(self).next_id,
            *final(self) == (TestTransport { next_id: (old(self).next_id + 1) as u32, ..*old(self) }),
    {
        let id = self.next_id;
        self.next_id = self.next_id + 1;
        id
    }

    /// Queues a request for the server under test.
    pub fn send(&mut self, msg: PoolMessage)
        ensures
            *final(self) == (TestTransport { msgs: final(self).msgs, ..*old(self) }),
            final(self).msgs@ == old(self).msgs@.push(msg),
    {
        self.msgs.push(msg);
    }
}

/// A shared-memory buffer carved out of a pool by the test harness.
#[derive(Clone, Copy, PartialEq, Eq, Structural, Debug)]
pub struct TestShmBuffer {
    pub id: u32,
    pub range_start: u64,
    pub range_end: u64,
    pub released: bool,
    pub destroyed: bool,
}

/// The test harness's handle on a shared-memory pool: the backing
/// length it knows, and whether it already sent the destroy request.
pub struct TestShmPool {
    pub id: ObjectId,
    pub mem_len: u64,
    pub destroyed: bool,
}

impl TestShmPool {
    pub fn new(id: ObjectId, mem_len: u64) -> (r: Self)
        ensures
            r.id == id,
            r.mem_len == mem_len,
            r.destroyed == false,
    {
        TestShmPool { id, mem_len, destroyed: false }
    }

    /// Carves a buffer out of the pool. A negative offset, height or
    /// stride, or a range reaching past the pool's end, is an
    /// out-of-bounds error that sends nothing; otherwise the buffer is
    /// created and announced to the server under test.
    pub fn create_buffer(
        &self,
        tran: &mut TestTransport,
        offset: i32,
        width: i32,
        height: i32,
        stride: i32,
        format: &Format,
    ) -> (r: Result<TestShmBuffer, TestError>)
        requires
            old(tran).next_id < u32::MAX,
        ensures
            if offset < 0 || height < 0 || stride < 0 || offset + height * stride
                > self.mem_len {
                r == Err::<TestShmBuffer, TestError>(TestError::OutOfBoundsBuffer) && *final(tran)
                    == *old(tran)
            } else {
                ({
                    let buffer = TestShmBuffer {
                        id: old(tran).next_id,
                        range_start: offset as u64,
                        range_end: (offset + height * stride) as u64,
                        released: true,
                        destroyed: false,
                    };
                    r == Ok::<TestShmBuffer, TestError>(buffer) && final(tran).next_id == old(
                        tran,
                    ).next_id + 1 && final(tran).msgs@ == old(tran).msgs@.push(
                        PoolMessage::CreateBuffer {
                            self_id: self.id.0,
                            id: buffer.id,
                            offset,
                            width,
                            height,
                            stride,
                            format: match format.wl_id {
                                Some(w) => w,
                                None => format.drm,
                            },
                        },
                    )
                })
            },
    {
        if offset < 0 || height < 0 || stride < 0 {
            return Err(TestError::OutOfBoundsBuffer);
        }
        proof {
            assert((height as u64) * (stride as u64) <= 0x7FFF_FFFF * 0x7FFF_FFFF)
                by (nonlinear_arith)
                requires
                    0 <= height as u64 <= 0x7FFF_FFFF,
                    0 <= stride as u64 <= 0x7FFF_FFFF,
            ;
        }
        let size: u64 = (height as u64) * (stride as u64);
        let start: u64 = offset as u64;
        let end: u64 = start + size;
        if end > self.mem_len {
            return Err(TestError::OutOfBoundsBuffer);
        }
        let buffer_id = tran.id();
        let buffer = TestShmBuffer {
            id: buffer_id,
            range_start: start,
            range_end: end,
            released: true,
            destroyed: false,
        };
        let wire_format = match format.wl_id {
            Some(w) => w,
            None => format.drm,
        };
        tran.send(
            PoolMessage::CreateBuffer {
                self_id: self.id.raw(),
                id: buffer_id,
                offset,
                width,
                height,
                stride,
                format: wire_format,
            },
        );
        Ok(buffer)
    }

    /// Grows the backing pool to at least `size` bytes and tells the
    /// server under test.
    pub fn resize(&mut self, tran: &mut TestTransport, size: u32) -> (r: Result<(), TestError>)
        ensures
            r == Ok::<(), TestError>(()),
            *final(self) == (TestShmPool { mem_len: final(self).mem_len, ..*old(self) }),
            final(self).mem_len == (if size > old(self).mem_len {
                size as u64
            } else {
                old(self).mem_len
            }),
            final(tran).next_id == old(tran).next_id,
            final(tran).msgs@ == old(tran).msgs@.push(
                PoolMessage::Resize { self_id: old(self).id.0, size },
            ),
    {
        if (size as u64) > self.mem_len {
            self.mem_len = size as u64;
        }
        tran.send(PoolMessage::Resize { self_id: self.id.raw(), size });
        Ok(())
    }

    /// Sends the destroy request exactly once: a second destroy is a
    /// no-op that sends nothing.
    pub fn destroy(&mut self, tran: &mut TestTransport)
        ensures
            final(self).destroyed == true,
            *final(self) == (TestShmPool { destroyed: true, ..*old(self) }),
            if old(self).destroyed {
                *final(tran) == *old(tran)
            } else {
                final(tran).next_id == old(tran).next_id && final(tran).msgs@ == old(
                    tran,
                ).msgs@.push(PoolMessage::Destroy { self_id: old(self).id.0 })
            },
    {
        if self.destroyed {
            return ;
        }
        self.destroyed = true;
        tran.send(PoolMessage::Destroy { self_id: self.id.raw() });
    }
}

} // verus!
