use vstd::prelude::*;

use crate::error::FsError;
use crate::fs::{only_changed, Fs, OpKind, Request};
use crate::metadata::{FileType, Metadata, Permissions};
use crate::registry::{abandoned, delivered, dispatched, Delivery, Pending, ProtocolError};

verus! {

/// An operation of a file that waits for its response: its correlation id,
/// and the one number its outcome is checked or applied against (the
/// amount asked for by a read, the length sent by a write, the target size
/// of a truncation).
#[derive(Debug, Clone, Copy, PartialEq, Eq, Structural)]
pub struct InFlight {
    pub id: usize,
    pub arg: u64,
}

/// Where a seek counts its offset from.
#[derive(Debug, Clone, Copy, PartialEq, Eq, Structural)]
pub enum SeekFrom {
    Start(u64),
    End(i64),
    Current(i64),
}

/// The outcome of one poll of a file operation.
#[derive(Debug)]
pub enum Progress<T> {
    /// The operation was dispatched: the request is to be sent.
    Sent(Request),
    /// The operation is in flight; nothing is to be sent.
    Pending,
    /// The operation completed.
    Ready(Result<T, FsError>),
}

/// An open file: its remote handle, the cursor and size that are kept on this
/// side because the backend keeps no cursor, and at most one operation in
/// flight of each kind.
pub struct File {
    pub fd: usize,
    pub cursor: u64,
    pub size: u64,
    pub read_op: Option<InFlight>,
    pub write_op: Option<InFlight>,
    pub flush_op: Option<usize>,
    pub close_op: Option<usize>,
    pub truncate_op: Option<InFlight>,
}

/// The cursor a seek to `pos` computes, before its range is checked.
pub open spec fn seek_target(cursor: u64, size: u64, pos: SeekFrom) -> int {
    match pos {
        SeekFrom::Start(o) => o as int,
        SeekFrom::End(o) => size + o,
        SeekFrom::Current(o) => cursor + o,
    }
}

/// One poll of a read of `amount` bytes: `f0` and `m0` are the file and the
/// pending reads before, `f1` and `m1` after, and `r` the outcome.
pub open spec fn read_step(
    f0: File,
    f1: File,
    m0: Map<int, Pending<Result<Vec<u8>, FsError>>>,
    m1: Map<int, Pending<Result<Vec<u8>, FsError>>>,
    amount: usize,
    r: Result<Progress<Vec<u8>>, ProtocolError>,
) -> bool {
    match f0.read_op {
        None => r matches Ok(Progress::Sent(Request::Read { id, fd, amount: a, cursor }))
            && fd == f0.fd && a == amount && cursor == f0.cursor && dispatched(m0, m1, id as int)
            && f1 == (File { read_op: Some(InFlight { id, arg: amount as u64 }), ..f0 }),
        Some(op) => match m0.get(op.id as int) {
            Some(Pending::Waiting) => r matches Ok(Progress::Pending) && f1 == f0 && m1 == m0,
            Some(Pending::Done(Ok(bytes))) => m1 == m0.remove(op.id as int) && if bytes.len()
                <= op.arg && f0.cursor + bytes.len() <= u64::MAX {
                r == Ok::<Progress<Vec<u8>>, ProtocolError>(Progress::Ready(Ok(bytes))) && f1 == (
                File { read_op: None, cursor: (f0.cursor + bytes.len()) as u64, ..f0 })
            } else {
                r == Err::<Progress<Vec<u8>>, ProtocolError>(ProtocolError::Malformed) && f1 == (
                File { read_op: None, ..f0 })
            },
            Some(Pending::Done(Err(e))) => m1 == m0.remove(op.id as int) && r == Ok::<
                Progress<Vec<u8>>,
                ProtocolError,
            >(Progress::Ready(Err(e))) && f1 == (File { read_op: None, ..f0 }),
            _ => r == Err::<Progress<Vec<u8>>, ProtocolError>(ProtocolError::UnknownId) && f1 == f0
                && m1 == m0,
        },
    }
}

/// One poll of a write of `buf`, as `read_step` describes a read.
pub open spec fn write_step(
    f0: File,
    f1: File,
    m0: Map<int, Pending<Result<usize, FsError>>>,
    m1: Map<int, Pending<Result<usize, FsError>>>,
    buf: Seq<u8>,
    r: Result<Progress<usize>, ProtocolError>,
) -> bool {
    match f0.write_op {
        None => r matches Ok(Progress::Sent(Request::Write { id, fd, bytes, cursor })) && fd
            == f0.fd && bytes@ == buf && cursor == f0.cursor && dispatched(m0, m1, id as int) && f1
            == (File { write_op: Some(InFlight { id, arg: buf.len() as u64 }), ..f0 }),
        Some(op) => match m0.get(op.id as int) {
            Some(Pending::Waiting) => r matches Ok(Progress::Pending) && f1 == f0 && m1 == m0,
            Some(Pending::Done(Ok(n))) => m1 == m0.remove(op.id as int) && if n <= op.arg
                && f0.cursor + n <= u64::MAX && f0.size + n <= u64::MAX {
                r == Ok::<Progress<usize>, ProtocolError>(Progress::Ready(Ok(n))) && f1 == (File {
                    write_op: None,
                    cursor: (f0.cursor + n) as u64,
                    size: (f0.size + n) as u64,
                    ..f0
                })
            } else {
                r == Err::<Progress<usize>, ProtocolError>(ProtocolError::Malformed) && f1 == (
                File { write_op: None, ..f0 })
            },
            Some(Pending::Done(Err(e))) => m1 == m0.remove(op.id as int) && r == Ok::<
                Progress<usize>,
                ProtocolError,
            >(Progress::Ready(Err(e))) && f1 == (File { write_op: None, ..f0 }),
            _ => r == Err::<Progress<usize>, ProtocolError>(ProtocolError::UnknownId) && f1 == f0
                && m1 == m0,
        },
    }
}

/// One poll of an operation without payload whose in-flight id is `op0`
/// before and `op1` after; `sent` says what its dispatch looks like.
pub open spec fn unit_step(
    op0: Option<usize>,
    op1: Option<usize>,
    m0: Map<int, Pending<Result<(), FsError>>>,
    m1: Map<int, Pending<Result<(), FsError>>>,
    r: Result<Progress<()>, ProtocolError>,
    sent: spec_fn(Request) -> Option<usize>,
) -> bool {
    match op0 {
        None => r matches Ok(Progress::Sent(req)) && sent(req) matches Some(id) && dispatched(
            m0,
            m1,
            id as int,
        ) && op1 == Some(id),
        Some(id) => match m0.get(id as int) {
            Some(Pending::Waiting) => r matches Ok(Progress::Pending) && op1 == op0 && m1 == m0,
            Some(Pending::Done(v)) => m1 == m0.remove(id as int) && r == Ok::<
                Progress<()>,
                ProtocolError,
            >(Progress::Ready(v)) && op1 is None,
            _ => r == Err::<Progress<()>, ProtocolError>(ProtocolError::UnknownId) && op1 == op0
                && m1 == m0,
        },
    }
}

/// The id of `req` if it is a flush of file `fd`.
pub open spec fn flush_of(fd: usize) -> spec_fn(Request) -> Option<usize> {
    |req: Request|
        match req {
            Request::Flush { id, fd: f } => if f == fd {
                Some(id)
            } else {
                None
            },
            _ => None,
        }
}

/// The id of `req` if it is a close of file `fd`.
pub open spec fn close_of(fd: usize) -> spec_fn(Request) -> Option<usize> {
    |req: Request|
        match req {
            Request::Close { id, fd: f } => if f == fd {
                Some(id)
            } else {
                None
            },
            _ => None,
        }
}

/// One poll of a change of length to `size`, as `read_step` describes a read.
pub open spec fn truncate_step(
    f0: File,
    f1: File,
    m0: Map<int, Pending<Result<(), FsError>>>,
    m1: Map<int, Pending<Result<(), FsError>>>,
    size: u64,
    r: Result<Progress<()>, ProtocolError>,
) -> bool {
    match f0.truncate_op {
        None => r matches Ok(Progress::Sent(Request::Truncate { id, fd, size: s })) && fd == f0.fd
            && s == size && dispatched(m0, m1, id as int) && f1 == (File {
            truncate_op: Some(InFlight { id, arg: size }),
            ..f0
        }),
        Some(op) => match m0.get(op.id as int) {
            Some(Pending::Waiting) => r matches Ok(Progress::Pending) && f1 == f0 && m1 == m0,
            Some(Pending::Done(Ok(()))) => m1 == m0.remove(op.id as int) && r == Ok::<
                Progress<()>,
                ProtocolError,
            >(Progress::Ready(Ok(()))) && f1 == (File { truncate_op: None, size: op.arg, ..f0 }),
            Some(Pending::Done(Err(e))) => m1 == m0.remove(op.id as int) && r == Ok::<
                Progress<()>,
                ProtocolError,
            >(Progress::Ready(Err(e))) && f1 == (File { truncate_op: None, ..f0 }),
            _ => r == Err::<Progress<()>, ProtocolError>(ProtocolError::UnknownId) && f1 == f0
                && m1 == m0,
        },
    }
}

/// Polls of one read that come before its response is collected are one
/// operation: the first dispatches it, a second (whatever amount it asks
/// for) dispatches nothing and waits on it, and once the response is
/// delivered the next poll, whatever amount it asks for, yields that response.
pub proof fn lemma_in_flight_reads_share_one_dispatch(
    f0: File,
    f1: File,
    f2: File,
    f3: File,
    m0: Map<int, Pending<Result<Vec<u8>, FsError>>>,
    m1: Map<int, Pending<Result<Vec<u8>, FsError>>>,
    m2: Map<int, Pending<Result<Vec<u8>, FsError>>>,
    m3: Map<int, Pending<Result<Vec<u8>, FsError>>>,
    m4: Map<int, Pending<Result<Vec<u8>, FsError>>>,
    a1: usize,
    a2: usize,
    a3: usize,
    r1: Result<Progress<Vec<u8>>, ProtocolError>,
    r2: Result<Progress<Vec<u8>>, ProtocolError>,
    r3: Result<Progress<Vec<u8>>, ProtocolError>,
    id: int,
    v: Result<Vec<u8>, FsError>,
    d: Result<Delivery, ProtocolError>,
)
    requires
        f0.read_op is None,
        read_step(f0, f1, m0, m1, a1, r1),
        read_step(f1, f2, m1, m2, a2, r2),
        f2.read_op matches Some(op) && op.id == id,
        delivered(m2, m3, id, v, d),
        read_step(f2, f3, m3, m4, a3, r3),
    ensures
        r1 matches Ok(Progress::Sent(_)),
        r2 matches Ok(Progress::Pending),
        m2 == m1,
        f2 == f1,
        d == Ok::<Delivery, ProtocolError>(Delivery::Stored),
        v is Err ==> r3 == Ok::<Progress<Vec<u8>>, ProtocolError>(Progress::Ready(v)),
        v is Ok && v->Ok_0.len() <= a1 && f0.cursor + v->Ok_0.len() <= u64::MAX ==> r3 == Ok::<
            Progress<Vec<u8>>,
            ProtocolError,
        >(Progress::Ready(v)) && f3.cursor == f0.cursor + v->Ok_0.len(),
        f3.read_op is None,
{
}

/// A read that completes with `bytes` leaves the next read to start right
/// after them, so reads in sequence take a file's bytes in order whatever
/// amounts they ask for.
pub proof fn lemma_reads_are_contiguous(
    f0: File,
    f1: File,
    f2: File,
    m0: Map<int, Pending<Result<Vec<u8>, FsError>>>,
    m1: Map<int, Pending<Result<Vec<u8>, FsError>>>,
    m2: Map<int, Pending<Result<Vec<u8>, FsError>>>,
    m3: Map<int, Pending<Result<Vec<u8>, FsError>>>,
    a1: usize,
    a2: usize,
    bytes: Vec<u8>,
    r2: Result<Progress<Vec<u8>>, ProtocolError>,
)
    requires
        read_step(
            f0,
            f1,
            m0,
            m1,
            a1,
            Ok::<Progress<Vec<u8>>, ProtocolError>(Progress::Ready(Ok(bytes))),
        ),
        read_step(f1, f2, m2, m3, a2, r2),
    ensures
        r2 matches Ok(Progress::Sent(Request::Read { cursor, amount, .. })) && cursor == f0.cursor
            + bytes.len() && amount == a2,
{
}

/// A write that completes with count `n` leaves the next write to start
/// right after the bytes it wrote.
pub proof fn lemma_writes_are_contiguous(
    f0: File,
    f1: File,
    f2: File,
    m0: Map<int, Pending<Result<usize, FsError>>>,
    m1: Map<int, Pending<Result<usize, FsError>>>,
    m2: Map<int, Pending<Result<usize, FsError>>>,
    m3: Map<int, Pending<Result<usize, FsError>>>,
    b1: Seq<u8>,
    b2: Seq<u8>,
    n: usize,
    r2: Result<Progress<usize>, ProtocolError>,
)
    requires
        write_step(f0, f1, m0, m1, b1, Ok::<Progress<usize>, ProtocolError>(Progress::Ready(Ok(n)))),
        write_step(f1, f2, m2, m3, b2, r2),
    ensures
        r2 matches Ok(Progress::Sent(Request::Write { cursor, bytes, .. })) && cursor == f0.cursor
            + n && bytes@ == b2,
        f1.size == f0.size + n,
{
}

impl File {
    /// A file just opened: handle `fd`, `size` bytes long, cursor at the start.
    pub fn new(fd: usize, size: u64) -> (r: File)
        ensures
            r == (File {
                fd,
                cursor: 0,
                size,
                read_op: None,
                write_op: None,
                flush_op: None,
                close_op: None,
                truncate_op: None,
            }),
    {
        File {
            fd,
            cursor: 0,
            size,
            read_op: None,
            write_op: None,
            flush_op: None,
            close_op: None,
            truncate_op: None,
        }
    }

    /// Moves the cursor; the backend is not involved. Fails, leaving the
    /// cursor as it was, where the new cursor would be negative or would not
    /// fit in 64 bits.
    pub fn seek(&mut self, pos: SeekFrom) -> (r: Result<u64, FsError>)
        ensures
            0 <= seek_target(old(self).cursor, old(self).size, pos) <= u64::MAX ==> {
                &&& r == Ok::<u64, FsError>(
                    seek_target(old(self).cursor, old(self).size, pos) as u64,
                )
                &&& *final(self) == (File {
                    cursor: seek_target(old(self).cursor, old(self).size, pos) as u64,
                    ..*old(self)
                })
            },
            !(0 <= seek_target(old(self).cursor, old(self).size, pos) <= u64::MAX) ==> {
                &&& r matches Err(FsError::InvalidSeek)
                &&& *final(self) == *old(self)
            },
    {
        let target: i128 = match pos {
            SeekFrom::Start(o) => o as i128,
            SeekFrom::End(o) => self.size as i128 + o as i128,
            SeekFrom::Current(o) => self.cursor as i128 + o as i128,
        };
        if target < 0 || target > u64::MAX as i128 {
            return Err(FsError::InvalidSeek);
        }
        self.cursor = target as u64;
        Ok(self.cursor)
    }

    /// Polls the read of up to `amount` bytes at the cursor. The first poll
    /// dispatches it; later polls, whatever amount they give, wait for that
    /// same read until its result is taken.
    pub fn poll_read(&mut self, fs: &mut Fs, amount: usize) -> (r: Result<
        Progress<Vec<u8>>,
        ProtocolError,
    >)
        requires
            old(fs).wf(),
        ensures
            final(fs).wf(),
            only_changed(*old(fs), *final(fs), OpKind::Read),
            read_step(*old(self), *final(self), old(fs).reading@, final(fs).reading@, amount, r),
    {
        match self.read_op {
            None => {
                let req = fs.read(self.fd, amount, self.cursor);
                let id = match &req {
                    Request::Read { id, .. } => *id,
                    _ => 0,
                };
                self.read_op = Some(InFlight { id, arg: amount as u64 });
                Ok(Progress::Sent(req))
            },
            Some(op) => {
                let got = fs.reading.collect(op.id);
                match got {
                    Err(e) => Err(e),
                    Ok(None) => Ok(Progress::Pending),
                    Ok(Some(Err(e))) => {
                        self.read_op = None;
                        Ok(Progress::Ready(Err(e)))
                    },
                    Ok(Some(Ok(bytes))) => {
                        self.read_op = None;
                        if bytes.len() as u64 <= op.arg && bytes.len() as u64 <= u64::MAX
                            - self.cursor {
                            self.cursor = self.cursor + bytes.len() as u64;
                            Ok(Progress::Ready(Ok(bytes)))
                        } else {
                            Err(ProtocolError::Malformed)
                        }
                    },
                }
            },
        }
    }
    /// Polls the write of `buf` at the cursor. The first poll dispatches a
    /// copy of `buf`; later polls wait for that same write. On success the
    /// cursor and the size grow by the count the backend reports.
    pub fn poll_write(&mut self, fs: &mut Fs, buf: &Vec<u8>) -> (r: Result<
        Progress<usize>,
        ProtocolError,
    >)
        requires
            old(fs).wf(),
        ensures
            final(fs).wf(),
            only_changed(*old(fs), *final(fs), OpKind::Write),
            write_step(*old(self), *final(self), old(fs).writing@, final(fs).writing@, buf@, r),
    {
        match self.write_op {
            None => {
                let req = fs.write(self.fd, buf, self.cursor);
                let id = match &req {
                    Request::Write { id, .. } => *id,
                    _ => 0,
                };
                self.write_op = Some(InFlight { id, arg: buf.len() as u64 });
                Ok(Progress::Sent(req))
            },
            Some(op) => {
                let got = fs.writing.collect(op.id);
                match got {
                    Err(e) => Err(e),
                    Ok(None) => Ok(Progress::Pending),
                    Ok(Some(Err(e))) => {
                        self.write_op = None;
                        Ok(Progress::Ready(Err(e)))
                    },
                    Ok(Some(Ok(n))) => {
                        self.write_op = None;
                        if n as u64 <= op.arg && n as u64 <= u64::MAX - self.cursor && n as u64
                            <= u64::MAX - self.size {
                            self.cursor = self.cursor + n as u64;
                            self.size = self.size + n as u64;
                            Ok(Progress::Ready(Ok(n)))
                        } else {
                            Err(ProtocolError::Malformed)
                        }
                    },
                }
            },
        }
    }

    /// Polls a flush of the file: the first poll dispatches it, later polls
    /// wait for that same flush.
    pub fn poll_flush(&mut self, fs: &mut Fs) -> (r: Result<Progress<()>, ProtocolError>)
        requires
            old(fs).wf(),
        ensures
            final(fs).wf(),
            only_changed(*old(fs), *final(fs), OpKind::Flush),
            unit_step(
                old(self).flush_op,
                final(self).flush_op,
                old(fs).flushing@,
                final(fs).flushing@,
                r,
                flush_of(old(self).fd),
            ),
            *final(self) == (File { flush_op: final(self).flush_op, ..*old(self) }),
    {
        match self.flush_op {
            None => {
                let req = fs.flush(self.fd);
                let id = match &req {
                    Request::Flush { id, .. } => *id,
                    _ => 0,
                };
                self.flush_op = Some(id);
                Ok(Progress::Sent(req))
            },
            Some(id) => {
                let got = fs.flushing.collect(id);
                match got {
                    Err(e) => Err(e),
                    Ok(None) => Ok(Progress::Pending),
                    Ok(Some(v)) => {
                        self.flush_op = None;
                        Ok(Progress::Ready(v))
                    },
                }
            },
        }
    }

    /// Polls a close of the file: the first poll dispatches it, later polls
    /// wait for that same close.
    pub fn poll_close(&mut self, fs: &mut Fs) -> (r: Result<Progress<()>, ProtocolError>)
        requires
            old(fs).wf(),
        ensures
            final(fs).wf(),
            only_changed(*old(fs), *final(fs), OpKind::Close),
            unit_step(
                old(self).close_op,
                final(self).close_op,
                old(fs).closing@,
                final(fs).closing@,
                r,
                close_of(old(self).fd),
            ),
            *final(self) == (File { close_op: final(self).close_op, ..*old(self) }),
    {
        match self.close_op {
            None => {
                let req = fs.close(self.fd);
                let id = match &req {
                    Request::Close { id, .. } => *id,
                    _ => 0,
                };
                self.close_op = Some(id);
                Ok(Progress::Sent(req))
            },
            Some(id) => {
                let got = fs.closing.collect(id);
                match got {
                    Err(e) => Err(e),
                    Ok(None) => Ok(Progress::Pending),
                    Ok(Some(v)) => {
                        self.close_op = None;
                        Ok(Progress::Ready(v))
                    },
                }
            },
        }
    }

    /// Polls a change of the file's length to `size`. The first poll
    /// dispatches it; later polls wait for that same change. On success the
    /// size becomes the target size.
    pub fn poll_set_len(&mut self, fs: &mut Fs, size: u64) -> (r: Result<
        Progress<()>,
        ProtocolError,
    >)
        requires
            old(fs).wf(),
        ensures
            final(fs).wf(),
            only_changed(*old(fs), *final(fs), OpKind::Truncate),
            truncate_step(
                *old(self),
                *final(self),
                old(fs).truncating@,
                final(fs).truncating@,
                size,
                r,
            ),
    {
        match self.truncate_op {
            None => {
                let req = fs.truncate(self.fd, size);
                let id = match &req {
                    Request::Truncate { id, .. } => *id,
                    _ => 0,
                };
                self.truncate_op = Some(InFlight { id, arg: size });
                Ok(Progress::Sent(req))
            },
            Some(op) => {
                let got = fs.truncating.collect(op.id);
                match got {
                    Err(e) => Err(e),
                    Ok(None) => Ok(Progress::Pending),
                    Ok(Some(Err(e))) => {
                        self.truncate_op = None;
                        Ok(Progress::Ready(Err(e)))
                    },
                    Ok(Some(Ok(()))) => {
                        self.truncate_op = None;
                        self.size = op.arg;
                        Ok(Progress::Ready(Ok(())))
                    },
                }
            },
        }
    }

    /// The file's kind and its length as last known here.
    pub fn metadata(&self) -> (r: Result<Metadata, FsError>)
        ensures
            r == Ok::<Metadata, FsError>(Metadata { ty: FileType::File, len: self.size }),
    {
        Ok(Metadata { ty: FileType::File, len: self.size })
    }

    /// Always fails: the permissions of a file are fixed when it is opened.
    pub fn set_permissions(&self, perm: Permissions) -> (r: Result<(), FsError>)
        ensures
            r matches Err(FsError::Unsupported),
    {
        Err(FsError::Unsupported)
    }
    /// Gives the file up: every operation of it still in flight is abandoned,
    /// so that its response, when it comes, is dropped. Returns the notice
    /// that the backend may let the handle go.
    pub fn release(self, fs: &mut Fs) -> (r: Request)
        requires
            old(fs).wf(),
        ensures
            final(fs).wf(),
            r == (Request::Release { fd: self.fd }),
            final(fs).opening == old(fs).opening,
            match self.read_op {
                Some(op) => abandoned(old(fs).reading@, final(fs).reading@, op.id as int),
                None => final(fs).reading == old(fs).reading,
            },
            match self.write_op {
                Some(op) => abandoned(old(fs).writing@, final(fs).writing@, op.id as int),
                None => final(fs).writing == old(fs).writing,
            },
            match self.flush_op {
                Some(id) => abandoned(old(fs).flushing@, final(fs).flushing@, id as int),
                None => final(fs).flushing == old(fs).flushing,
            },
            match self.close_op {
                Some(id) => abandoned(old(fs).closing@, final(fs).closing@, id as int),
                None => final(fs).closing == old(fs).closing,
            },
            match self.truncate_op {
                Some(op) => abandoned(old(fs).truncating@, final(fs).truncating@, op.id as int),
                None => final(fs).truncating == old(fs).truncating,
            },
    {
        if let Some(op) = self.read_op {
            let _ = fs.reading.abandon(op.id);
        }
        if let Some(op) = self.write_op {
            let _ = fs.writing.abandon(op.id);
        }
        if let Some(id) = self.flush_op {
            let _ = fs.flushing.abandon(id);
        }
        if let Some(id) = self.close_op {
            let _ = fs.closing.abandon(id);
        }
        if let Some(op) = self.truncate_op {
            let _ = fs.truncating.abandon(op.id);
        }
        fs.drop_file(self.fd)
    }
}

/// The size of the buffer a copy moves bytes through: the source's size, but
/// at most 64 bytes.
pub fn copy_chunk_len(size: u64) -> (r: usize)
    ensures
        r as int == if size < 64 {
            size as int
        } else {
            64
        },
{
    if size < 64 {
        size as usize
    } else {
        64
    }
}

} // verus!
