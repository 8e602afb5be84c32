//! An asynchronous file-system facade whose storage work runs in a separate
//! backend reached only by messages: the registries of pending operations,
//! the demultiplexing of responses, the per-file state machines with their
//! client-side cursor and size, and the resolution of slash-separated paths.

pub mod arena;
pub mod error;
pub mod file;
pub mod fs;
pub mod metadata;
pub mod open_options;
pub mod path;
pub mod registry;

pub use arena::Arena;
pub use error::{error_from_exception, FsError};
pub use file::{copy_chunk_len, File, InFlight, Progress, SeekFrom};
pub use fs::{Fs, OpKind, Opened, Request, Response};
pub use metadata::{DirEntry, FileType, Metadata, Permissions};
pub use open_options::{OpenOptions, PendingOpen};
pub use path::{components, resolve, Component, Resolution, Step};
pub use registry::{Delivery, Pending, ProtocolError, Registry};
