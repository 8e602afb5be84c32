use vstd::prelude::*;

use crate::error::FsError;
use crate::file::{write_step, File, Progress};
use crate::fs::{only_changed, Fs, OpKind, Opened, Request};
use crate::registry::{dispatched, Pending, ProtocolError};

verus! {

pub const APPEND: u8 = 1;

pub const CREATE: u8 = 2;

pub const CREATE_NEW: u8 = 4;

pub const READ: u8 = 8;

pub const TRUNCATE: u8 = 16;

pub const WRITE: u8 = 32;

/// Whether `bit` is set in `bits`.
pub open spec fn flag(bits: u8, bit: u8) -> bool {
    bits & bit != 0
}

/// The six choices an open is made with.
pub struct OpenFlags {
    pub append: bool,
    pub create: bool,
    pub create_new: bool,
    pub read: bool,
    pub truncate: bool,
    pub write: bool,
}

/// How a file is to be opened: a set of bits, one per choice, that travels
/// to the backend as it is.
#[derive(Debug, Clone, Copy, PartialEq, Eq, Structural)]
pub struct OpenOptions(u8);

proof fn lemma_set_bit(x: u8, bit: u8, b: u8)
    requires
        bit == 1 || bit == 2 || bit == 4 || bit == 8 || bit == 16 || bit == 32,
        b == 1 || b == 2 || b == 4 || b == 8 || b == 16 || b == 32,
    ensures
        flag(x | bit, b) == (b == bit || flag(x, b)),
        flag(x & !bit, b) == (b != bit && flag(x, b)),
        x < 64 ==> x | bit < 64 && x & !bit < 64,
{
    assert(x < 64 ==> x | bit < 64 && x & !bit < 64) by (bit_vector)
        requires
            bit == 1 || bit == 2 || bit == 4 || bit == 8 || bit == 16 || bit == 32,
    ;
    assert(((x | bit) & b != 0) == (b == bit || x & b != 0)) by (bit_vector)
        requires
            bit == 1 || bit == 2 || bit == 4 || bit == 8 || bit == 16 || bit == 32,
            b == 1 || b == 2 || b == 4 || b == 8 || b == 16 || b == 32,
    ;
    assert(((x & !bit) & b != 0) == (b != bit && x & b != 0)) by (bit_vector)
        requires
            bit == 1 || bit == 2 || bit == 4 || bit == 8 || bit == 16 || bit == 32,
            b == 1 || b == 2 || b == 4 || b == 8 || b == 16 || b == 32,
    ;
}

impl View for OpenOptions {
    type V = OpenFlags;

    closed spec fn view(&self) -> OpenFlags {
        OpenFlags {
            append: flag(self.0, APPEND),
            create: flag(self.0, CREATE),
            create_new: flag(self.0, CREATE_NEW),
            read: flag(self.0, READ),
            truncate: flag(self.0, TRUNCATE),
            write: flag(self.0, WRITE),
        }
    }
}

impl OpenOptions {
    /// No choice made.
    pub fn new() -> (r: Self)
        ensures
            r@ == (OpenFlags {
                append: false,
                create: false,
                create_new: false,
                read: false,
                truncate: false,
                write: false,
            }),
            r.spec_bits() == 0,
    {
        assert(0u8 & 1 == 0 && 0u8 & 2 == 0 && 0u8 & 4 == 0 && 0u8 & 8 == 0 && 0u8 & 16 == 0 && 0u8
            & 32 == 0) by (bit_vector);
        OpenOptions(0)
    }

    /// The bits, as the backend reads them.
    pub fn bits(&self) -> (r: u8)
        ensures
            r == self.spec_bits(),
            flag(r, APPEND) == self@.append,
            flag(r, CREATE) == self@.create,
            flag(r, CREATE_NEW) == self@.create_new,
            flag(r, READ) == self@.read,
            flag(r, TRUNCATE) == self@.truncate,
            flag(r, WRITE) == self@.write,
    {
        self.0
    }

    /// The bits as a number; only the six choices' bits are ever set, so it
    /// stays below 64.
    pub closed spec fn spec_bits(&self) -> u8 {
        self.0
    }

    fn set_bit(&mut self, bit: u8, value: bool)
        requires
            bit == APPEND || bit == CREATE || bit == CREATE_NEW || bit == READ || bit == TRUNCATE
                || bit == WRITE,
        ensures
            old(self).spec_bits() < 64 ==> final(self).spec_bits() < 64,
            flag(final(self).spec_bits(), APPEND) == if bit == APPEND {
                value
            } else {
                flag(old(self).spec_bits(), APPEND)
            },
            flag(final(self).spec_bits(), CREATE) == if bit == CREATE {
                value
            } else {
                flag(old(self).spec_bits(), CREATE)
            },
            flag(final(self).spec_bits(), CREATE_NEW) == if bit == CREATE_NEW {
                value
            } else {
                flag(old(self).spec_bits(), CREATE_NEW)
            },
            flag(final(self).spec_bits(), READ) == if bit == READ {
                value
            } else {
                flag(old(self).spec_bits(), READ)
            },
            flag(final(self).spec_bits(), TRUNCATE) == if bit == TRUNCATE {
                value
            } else {
                flag(old(self).spec_bits(), TRUNCATE)
            },
            flag(final(self).spec_bits(), WRITE) == if bit == WRITE {
                value
            } else {
                flag(old(self).spec_bits(), WRITE)
            },
    {
        let ghost x = self.0;
        if value {
            self.0 = self.0 | bit;
        } else {
            self.0 = self.0 & !bit;
        }
        proof {
            lemma_set_bit(x, bit, APPEND);
            lemma_set_bit(x, bit, CREATE);
            lemma_set_bit(x, bit, CREATE_NEW);
            lemma_set_bit(x, bit, READ);
            lemma_set_bit(x, bit, TRUNCATE);
            lemma_set_bit(x, bit, WRITE);
        }
    }

    /// Whether the cursor starts at the end of the file.
    pub fn append(&mut self, append: bool) -> (r: &mut OpenOptions)
        ensures
            r@ == (OpenFlags { append, ..old(self)@ }),
            old(self).spec_bits() < 64 ==> r.spec_bits() < 64,
            *final(self) == *final(r),
    {
        self.set_bit(APPEND, append);
        self
    }
    /// Whether a missing file is created.
    pub fn create(&mut self, create: bool) -> (r: &mut OpenOptions)
        ensures
            r@ == (OpenFlags { create, ..old(self)@ }),
            old(self).spec_bits() < 64 ==> r.spec_bits() < 64,
            *final(self) == *final(r),
    {
        self.set_bit(CREATE, create);
        self
    }

    /// Whether the file must not exist yet and is created.
    pub fn create_new(&mut self, create_new: bool) -> (r: &mut OpenOptions)
        ensures
            r@ == (OpenFlags { create_new, ..old(self)@ }),
            old(self).spec_bits() < 64 ==> r.spec_bits() < 64,
            *final(self) == *final(r),
    {
        self.set_bit(CREATE_NEW, create_new);
        self
    }

    /// Whether the file is opened for reading.
    pub fn read(&mut self, read: bool) -> (r: &mut OpenOptions)
        ensures
            r@ == (OpenFlags { read, ..old(self)@ }),
            old(self).spec_bits() < 64 ==> r.spec_bits() < 64,
            *final(self) == *final(r),
    {
        self.set_bit(READ, read);
        self
    }

    /// Whether the file is cut to length zero on opening.
    pub fn truncate(&mut self, truncate: bool) -> (r: &mut OpenOptions)
        ensures
            r@ == (OpenFlags { truncate, ..old(self)@ }),
            old(self).spec_bits() < 64 ==> r.spec_bits() < 64,
            *final(self) == *final(r),
    {
        self.set_bit(TRUNCATE, truncate);
        self
    }

    /// Whether the file is opened for writing.
    pub fn write(&mut self, write: bool) -> (r: &mut OpenOptions)
        ensures
            r@ == (OpenFlags { write, ..old(self)@ }),
            old(self).spec_bits() < 64 ==> r.spec_bits() < 64,
            *final(self) == *final(r),
    {
        self.set_bit(WRITE, write);
        self
    }

    /// Whether opening may create the file: `create` or `create_new`.
    pub fn creates(&self) -> (r: bool)
        ensures
            r == (self@.create || self@.create_new),
    {
        self.0 & CREATE != 0 || self.0 & CREATE_NEW != 0
    }

    /// Dispatches the open of a file whose remote reference is at hand.
    /// Returns the open to poll and the request to send beside that reference.
    pub fn start_open(&self, fs: &mut Fs) -> (r: (PendingOpen, Request))
        requires
            old(fs).wf(),
        ensures
            final(fs).wf(),
            only_changed(*old(fs), *final(fs), OpKind::Open),
            r.1 matches Request::Open { id, options } && id == r.0.id && options == self.spec_bits()
                && dispatched(old(fs).opening@, final(fs).opening@, id as int),
            r.0.append == self@.append,
    {
        let req = fs.open(self.0);
        let id = match &req {
            Request::Open { id, .. } => *id,
            _ => 0,
        };
        (PendingOpen { id, append: self.0 & APPEND != 0 }, req)
    }
}

/// The file an open yields: at the start, or at its end where the open
/// appends.
pub open spec fn opened_file(o: Opened, append: bool) -> File {
    File {
        fd: o.fd,
        cursor: if append {
            o.size
        } else {
            0
        },
        size: o.size,
        read_op: None,
        write_op: None,
        flush_op: None,
        close_op: None,
        truncate_op: None,
    }
}

/// The first write to a file opened for appending goes to the end that the
/// open reported, so what it writes follows the bytes already there.
pub proof fn lemma_append_writes_at_end(
    o: Opened,
    f1: File,
    m0: Map<int, Pending<Result<usize, FsError>>>,
    m1: Map<int, Pending<Result<usize, FsError>>>,
    buf: Seq<u8>,
    r: Result<Progress<usize>, ProtocolError>,
)
    requires
        write_step(opened_file(o, true), f1, m0, m1, buf, r),
    ensures
        r matches Ok(Progress::Sent(Request::Write { cursor, fd, bytes, .. })) && cursor == o.size
            && fd == o.fd && bytes@ == buf,
{
}

/// An open that was dispatched and waits for its response.
#[derive(Debug, Clone, Copy, PartialEq, Eq, Structural)]
pub struct PendingOpen {
    pub id: usize,
    pub append: bool,
}

impl PendingOpen {
    /// Takes the open's result once it has arrived: the file, whose cursor
    /// is set to its size only now that the size is known, when appending.
    /// Returns `Ok(None)` while the open is in flight.
    pub fn poll(&self, fs: &mut Fs) -> (r: Result<Option<Result<File, FsError>>, ProtocolError>)
        requires
            old(fs).wf(),
        ensures
            final(fs).wf(),
            only_changed(*old(fs), *final(fs), OpKind::Open),
            match old(fs).opening@.get(self.id as int) {
                Some(Pending::Done(Ok(o))) => r == Ok::<Option<Result<File, FsError>>, ProtocolError>(
                    Some(Ok(opened_file(o, self.append))),
                ) && final(fs).opening@ == old(fs).opening@.remove(self.id as int),
                Some(Pending::Done(Err(e))) => r == Ok::<
                    Option<Result<File, FsError>>,
                    ProtocolError,
                >(Some(Err(e))) && final(fs).opening@ == old(fs).opening@.remove(self.id as int),
                Some(Pending::Waiting) => r == Ok::<Option<Result<File, FsError>>, ProtocolError>(
                    None,
                ) && final(fs).opening@ == old(fs).opening@,
                _ => r == Err::<Option<Result<File, FsError>>, ProtocolError>(
                    ProtocolError::UnknownId,
                ) && final(fs).opening@ == old(fs).opening@,
            },
    {
        let got = fs.opening.collect(self.id);
        match got {
            Ok(Some(Ok(o))) => {
                let mut file = File::new(o.fd, o.size);
                if self.append {
                    file.cursor = file.size;
                }
                Ok(Some(Ok(file)))
            },
            Ok(Some(Err(e))) => Ok(Some(Err(e))),
            Ok(None) => Ok(None),
            Err(e) => Err(e),
        }
    }
}

} // verus!
