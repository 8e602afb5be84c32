use vstd::prelude::*;
use vstd::string::StringExecFns;
use vstd::string::StrSliceExecFns;

use crate::error::FsError;

verus! {

/// A point in time, as std gives it; no timestamp is ever produced here.
#[verifier::external_type_specification]
#[verifier::external_body]
pub struct ExSystemTime(std::time::SystemTime);

/// The kind of a directory entry. Symbolic links do not exist here.
#[derive(Debug, Clone, Copy, PartialEq, Eq, Structural)]
pub enum FileType {
    File,
    Dir,
}

impl FileType {
    pub fn is_dir(&self) -> (r: bool)
        ensures
            r == (*self == FileType::Dir),
    {
        *self == FileType::Dir
    }

    pub fn is_file(&self) -> (r: bool)
        ensures
            r == (*self == FileType::File),
    {
        *self == FileType::File
    }

    /// Always false: the storage has no symbolic links.
    pub fn is_symlink(&self) -> (r: bool)
        ensures
            !r,
    {
        false
    }
}

/// What is known of a file: its kind and its length.
#[derive(Debug, Clone, Copy, PartialEq, Eq, Structural)]
pub struct Metadata {
    pub ty: FileType,
    pub len: u64,
}

impl Metadata {
    /// Always fails: the storage keeps no access time.
    pub fn accsessed(&self) -> (r: Result<std::time::SystemTime, FsError>)
        ensures
            r matches Err(FsError::Unsupported),
    {
        Err(FsError::Unsupported)
    }

    /// Always fails: the storage keeps no creation time.
    pub fn created(&self) -> (r: Result<std::time::SystemTime, FsError>)
        ensures
            r matches Err(FsError::Unsupported),
    {
        Err(FsError::Unsupported)
    }

    /// Always fails: the storage keeps no modification time.
    pub fn modified(&self) -> (r: Result<std::time::SystemTime, FsError>)
        ensures
            r matches Err(FsError::Unsupported),
    {
        Err(FsError::Unsupported)
    }

    pub fn file_type(&self) -> (r: FileType)
        ensures
            r == self.ty,
    {
        self.ty
    }

    pub fn is_dir(&self) -> (r: bool)
        ensures
            r == (self.ty == FileType::Dir),
    {
        self.ty.is_dir()
    }

    pub fn is_file(&self) -> (r: bool)
        ensures
            r == (self.ty == FileType::File),
    {
        self.ty.is_file()
    }

    /// Always false: the storage has no symbolic links.
    pub fn is_symlink(&self) -> (r: bool)
        ensures
            !r,
    {
        self.ty.is_symlink()
    }

    pub fn len(&self) -> (r: u64)
        ensures
            r == self.len,
    {
        self.len
    }

    /// Files are never read-only here.
    pub fn permissions(&self) -> (r: Permissions)
        ensures
            !r.readonly(),
    {
        Permissions { readonly: false }
    }
}

/// Whether a file may be written.
#[derive(Debug, Clone, Copy, PartialEq, Eq, Structural)]
pub struct Permissions {
    readonly: bool,
}

impl Permissions {
    pub closed spec fn spec_readonly(&self) -> bool {
        self.readonly
    }

    #[verifier::when_used_as_spec(spec_readonly)]
    pub fn readonly(&self) -> (r: bool)
        ensures
            r == self.spec_readonly(),
    {
        self.readonly
    }

    pub fn set_readonly(&mut self, readonly: bool)
        ensures
            final(self).spec_readonly() == readonly,
    {
        self.readonly = readonly
    }
}

/// An entry of a directory listing.
#[derive(Debug)]
pub struct DirEntry {
    name: String,
    file_type: FileType,
    path: String,
}

/// `dir` joined with `name`, one slash between them; an absolute `name`
/// stands alone.
pub open spec fn join(dir: Seq<char>, name: Seq<char>) -> Seq<char> {
    if name.len() > 0 && name[0] == '/' {
        name
    } else if dir.len() == 0 || dir.last() == '/' {
        dir + name
    } else {
        dir + seq!['/'] + name
    }
}

impl DirEntry {
    /// The entry `name` of the directory at path `dir`, a file or a directory.
    pub fn new(dir: &str, name: String, is_file: bool) -> (r: DirEntry)
        ensures
            r.spec_name() == name@,
            r.spec_path() == join(dir@, name@),
            r.spec_type() == if is_file {
                FileType::File
            } else {
                FileType::Dir
            },
    {
        proof {
            reveal_strlit("/");
        }
        let name_len = name.as_str().unicode_len();
        let dir_len = dir.unicode_len();
        let path = if name_len > 0 && name.as_str().get_char(0) == '/' {
            name.clone()
        } else if dir_len == 0 || dir.get_char(dir_len - 1) == '/' {
            String::from_str(dir).concat(name.as_str())
        } else {
            String::from_str(dir).concat("/").concat(name.as_str())
        };
        let file_type = if is_file {
            FileType::File
        } else {
            FileType::Dir
        };
        DirEntry { name, file_type, path }
    }

    pub closed spec fn spec_name(&self) -> Seq<char> {
        self.name@
    }

    pub closed spec fn spec_path(&self) -> Seq<char> {
        self.path@
    }

    pub closed spec fn spec_type(&self) -> FileType {
        self.file_type
    }

    pub fn file_name(&self) -> (r: String)
        ensures
            r@ == self.spec_name(),
    {
        self.name.clone()
    }

    /// The entry's kind; it never is a symbolic link.
    pub fn file_type(&self) -> (r: Result<FileType, FsError>)
        ensures
            r == Ok::<FileType, FsError>(self.spec_type()),
    {
        Ok(self.file_type)
    }

    /// Always fails: listings carry no metadata.
    pub fn metadata(&self) -> (r: Result<Metadata, FsError>)
        ensures
            r matches Err(FsError::Unsupported),
    {
        Err(FsError::Unsupported)
    }

    pub fn path(&self) -> (r: String)
        ensures
            r@ == self.spec_path(),
    {
        self.path.clone()
    }
}

} // verus!
