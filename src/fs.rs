use vstd::prelude::*;

use crate::error::FsError;
use crate::registry::{delivered, dispatched, Delivery, ProtocolError, Registry};

verus! {

/// The kinds of operation that wait for a response from the backend.
#[derive(Debug, Clone, Copy, PartialEq, Eq, Hash, Structural)]
pub enum OpKind {
    Open,
    Read,
    Write,
    Flush,
    Close,
    Truncate,
}

/// What the backend reports for an opened file: its handle and its size.
#[derive(Debug, Clone, Copy, PartialEq, Eq, Structural)]
pub struct Opened {
    pub fd: usize,
    pub size: u64,
}

/// A message to the backend. Every variant but `Release` carries the
/// correlation id that its response will carry back.
#[derive(Debug)]
pub enum Request {
    /// Opens the file whose remote reference travels beside this message.
    Open { id: usize, options: u8 },
    Read { id: usize, fd: usize, amount: usize, cursor: u64 },
    Write { id: usize, fd: usize, bytes: Vec<u8>, cursor: u64 },
    Flush { id: usize, fd: usize },
    Close { id: usize, fd: usize },
    Truncate { id: usize, fd: usize, size: u64 },
    /// The file handle is no longer used; no response follows.
    Release { fd: usize },
}

/// A message from the backend: the id of the request it answers, and either
/// the request's result or the text of the error that failed it.
#[derive(Debug)]
#[allow(inconsistent_fields)]
pub enum Response {
    Open { id: usize, reply: Result<Opened, String> },
    /// The bytes read; their number is the count the backend transferred.
    Read { id: usize, reply: Result<Vec<u8>, String> },
    /// The number of bytes written.
    Write { id: usize, reply: Result<usize, String> },
    Flush { id: usize, reply: Result<(), String> },
    Close { id: usize, reply: Result<(), String> },
    Truncate { id: usize, reply: Result<(), String> },
}

/// The result a backend reply stands for.
pub open spec fn backend_result<T>(reply: Result<T, String>) -> Result<T, FsError> {
    match reply {
        Ok(v) => Ok(v),
        Err(e) => Err(FsError::Other(e)),
    }
}

fn to_result<T>(reply: Result<T, String>) -> (r: Result<T, FsError>)
    ensures
        r == backend_result(reply),
{
    match reply {
        Ok(v) => Ok(v),
        Err(e) => Err(FsError::Other(e)),
    }
}

/// The dispatcher: it owns one registry of pending operations per kind,
/// hands out correlation ids and routes each response to its operation.
pub struct Fs {
    pub opening: Registry<Result<Opened, FsError>>,
    pub reading: Registry<Result<Vec<u8>, FsError>>,
    pub writing: Registry<Result<usize, FsError>>,
    pub flushing: Registry<Result<(), FsError>>,
    pub closing: Registry<Result<(), FsError>>,
    pub truncating: Registry<Result<(), FsError>>,
}

impl Fs {
    pub open spec fn wf(&self) -> bool {
        &&& self.opening.wf()
        &&& self.reading.wf()
        &&& self.writing.wf()
        &&& self.flushing.wf()
        &&& self.closing.wf()
        &&& self.truncating.wf()
    }

    /// A dispatcher with nothing in flight.
    pub fn new() -> (r: Self)
        ensures
            r.wf(),
            r.opening@.is_empty(),
            r.reading@.is_empty(),
            r.writing@.is_empty(),
            r.flushing@.is_empty(),
            r.closing@.is_empty(),
            r.truncating@.is_empty(),
    {
        Fs {
            opening: Registry::new(),
            reading: Registry::new(),
            writing: Registry::new(),
            flushing: Registry::new(),
            closing: Registry::new(),
            truncating: Registry::new(),
        }
    }

    /// Registers an open with the option bits `options`; returns its request.
    pub fn open(&mut self, options: u8) -> (r: Request)
        requires
            old(self).wf(),
        ensures
            final(self).wf(),
            r matches Request::Open { id, options: o } && o == options && dispatched(
                old(self).opening@,
                final(self).opening@,
                id as int,
            ),
            only_changed(*old(self), *final(self), OpKind::Open),
    {
        let id = self.opening.start();
        Request::Open { id, options }
    }

    /// Registers a read of `amount` bytes at `cursor` of file `fd`.
    pub fn read(&mut self, fd: usize, amount: usize, cursor: u64) -> (r: Request)
        requires
            old(self).wf(),
        ensures
            final(self).wf(),
            r matches Request::Read { id, fd: f, amount: a, cursor: c } && f == fd && a == amount
                && c == cursor && dispatched(old(self).reading@, final(self).reading@, id as int),
            only_changed(*old(self), *final(self), OpKind::Read),
    {
        let id = self.reading.start();
        Request::Read { id, fd, amount, cursor }
    }

    /// Registers a write of a copy of `buf` at `cursor` of file `fd`.
    pub fn write(&mut self, fd: usize, buf: &Vec<u8>, cursor: u64) -> (r: Request)
        requires
            old(self).wf(),
        ensures
            final(self).wf(),
            r matches Request::Write { id, fd: f, bytes, cursor: c } && f == fd && bytes@ == buf@
                && c == cursor && dispatched(old(self).writing@, final(self).writing@, id as int),
            only_changed(*old(self), *final(self), OpKind::Write),
    {
        let id = self.writing.start();
        let bytes = buf.clone();
        Request::Write { id, fd, bytes, cursor }
    }

    /// Registers a flush of file `fd`.
    pub fn flush(&mut self, fd: usize) -> (r: Request)
        requires
            old(self).wf(),
        ensures
            final(self).wf(),
            r matches Request::Flush { id, fd: f } && f == fd && dispatched(
                old(self).flushing@,
                final(self).flushing@,
                id as int,
            ),
            only_changed(*old(self), *final(self), OpKind::Flush),
    {
        let id = self.flushing.start();
        Request::Flush { id, fd }
    }

    /// Registers a close of file `fd`.
    pub fn close(&mut self, fd: usize) -> (r: Request)
        requires
            old(self).wf(),
        ensures
            final(self).wf(),
            r matches Request::Close { id, fd: f } && f == fd && dispatched(
                old(self).closing@,
                final(self).closing@,
                id as int,
            ),
            only_changed(*old(self), *final(self), OpKind::Close),
    {
        let id = self.closing.start();
        Request::Close { id, fd }
    }

    /// Registers a change of the length of file `fd` to `size`.
    pub fn truncate(&mut self, fd: usize, size: u64) -> (r: Request)
        requires
            old(self).wf(),
        ensures
            final(self).wf(),
            r matches Request::Truncate { id, fd: f, size: s } && f == fd && s == size
                && dispatched(old(self).truncating@, final(self).truncating@, id as int),
            only_changed(*old(self), *final(self), OpKind::Truncate),
    {
        let id = self.truncating.start();
        Request::Truncate { id, fd, size }
    }

    /// The notice that file `fd` is no longer used.
    pub fn drop_file(&self, fd: usize) -> (r: Request)
        ensures
            r == (Request::Release { fd }),
    {
        Request::Release { fd }
    }

    /// Routes a response to the operation it answers. On success, returns
    /// that operation's kind and id and whether its caller is to be woken.
    pub fn deliver(&mut self, msg: Response) -> (r: Result<(OpKind, usize, Delivery), ProtocolError>)
        requires
            old(self).wf(),
        ensures
            final(self).wf(),
            only_changed(*old(self), *final(self), kind_of(msg)),
            r is Ok ==> r->Ok_0.0 == kind_of(msg) && r->Ok_0.1 == id_of(msg),
            match msg {
                Response::Open { id, reply } => delivered(
                    old(self).opening@,
                    final(self).opening@,
                    id as int,
                    backend_result(reply),
                    untagged(r),
                ),
                Response::Read { id, reply } => delivered(
                    old(self).reading@,
                    final(self).reading@,
                    id as int,
                    backend_result(reply),
                    untagged(r),
                ),
                Response::Write { id, reply } => delivered(
                    old(self).writing@,
                    final(self).writing@,
                    id as int,
                    backend_result(reply),
                    untagged(r),
                ),
                Response::Flush { id, reply } => delivered(
                    old(self).flushing@,
                    final(self).flushing@,
                    id as int,
                    backend_result(reply),
                    untagged(r),
                ),
                Response::Close { id, reply } => delivered(
                    old(self).closing@,
                    final(self).closing@,
                    id as int,
                    backend_result(reply),
                    untagged(r),
                ),
                Response::Truncate { id, reply } => delivered(
                    old(self).truncating@,
                    final(self).truncating@,
                    id as int,
                    backend_result(reply),
                    untagged(r),
                ),
            },
    {
        match msg {
            Response::Open { id, reply } => {
                let d = self.opening.deliver(id, to_result(reply));
                tag(OpKind::Open, id, d)
            },
            Response::Read { id, reply } => {
                let d = self.reading.deliver(id, to_result(reply));
                tag(OpKind::Read, id, d)
            },
            Response::Write { id, reply } => {
                let d = self.writing.deliver(id, to_result(reply));
                tag(OpKind::Write, id, d)
            },
            Response::Flush { id, reply } => {
                let d = self.flushing.deliver(id, to_result(reply));
                tag(OpKind::Flush, id, d)
            },
            Response::Close { id, reply } => {
                let d = self.closing.deliver(id, to_result(reply));
                tag(OpKind::Close, id, d)
            },
            Response::Truncate { id, reply } => {
                let d = self.truncating.deliver(id, to_result(reply));
                tag(OpKind::Truncate, id, d)
            },
        }
    }
}

/// The kind of operation a response answers.
pub open spec fn kind_of(msg: Response) -> OpKind {
    match msg {
        Response::Open { .. } => OpKind::Open,
        Response::Read { .. } => OpKind::Read,
        Response::Write { .. } => OpKind::Write,
        Response::Flush { .. } => OpKind::Flush,
        Response::Close { .. } => OpKind::Close,
        Response::Truncate { .. } => OpKind::Truncate,
    }
}

/// The correlation id a response carries.
pub open spec fn id_of(msg: Response) -> usize {
    match msg {
        Response::Open { id, .. } => id,
        Response::Read { id, .. } => id,
        Response::Write { id, .. } => id,
        Response::Flush { id, .. } => id,
        Response::Close { id, .. } => id,
        Response::Truncate { id, .. } => id,
    }
}

/// Every registry of `after` but the one of `kind` is as in `before`.
pub open spec fn only_changed(before: Fs, after: Fs, kind: OpKind) -> bool {
    &&& kind != OpKind::Open ==> after.opening == before.opening
    &&& kind != OpKind::Read ==> after.reading == before.reading
    &&& kind != OpKind::Write ==> after.writing == before.writing
    &&& kind != OpKind::Flush ==> after.flushing == before.flushing
    &&& kind != OpKind::Close ==> after.closing == before.closing
    &&& kind != OpKind::Truncate ==> after.truncating == before.truncating
}

/// A delivery outcome without the kind and id that `deliver` adds to it.
pub open spec fn untagged(r: Result<(OpKind, usize, Delivery), ProtocolError>) -> Result<
    Delivery,
    ProtocolError,
> {
    match r {
        Ok(t) => Ok(t.2),
        Err(e) => Err(e),
    }
}

fn tag(kind: OpKind, id: usize, d: Result<Delivery, ProtocolError>) -> (r: Result<
    (OpKind, usize, Delivery),
    ProtocolError,
>)
    ensures
        untagged(r) == d,
        r is Ok ==> r->Ok_0.0 == kind && r->Ok_0.1 == id,
{
    match d {
        Ok(d) => Ok((kind, id, d)),
        Err(e) => Err(e),
    }
}

} // verus!
