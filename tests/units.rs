use web_fs::{
    components, error_from_exception, resolve, Arena, Component, Delivery, DirEntry, FileType,
    Fs, FsError, Metadata, OpKind, OpenOptions, Opened, Pending, Permissions, ProtocolError,
    Registry, Request, Response, Step, File,
};

#[test]
fn arena_reuses_last_freed_slot_first() {
    let mut a: Arena<&str> = Arena::new();
    assert_eq!(a.insert("a"), 0);
    assert_eq!(a.insert("b"), 1);
    assert_eq!(a.insert("c"), 2);
    assert_eq!(a.remove(0), Some("a"));
    assert_eq!(a.remove(2), Some("c"));
    assert_eq!(a.insert("d"), 2);
    assert_eq!(a.insert("e"), 0);
    assert_eq!(a.insert("f"), 3);
}

#[test]
fn arena_remove_twice_or_unknown_gives_nothing() {
    let mut a: Arena<u32> = Arena::new();
    assert_eq!(a.remove(0), None);
    let i = a.insert(7);
    assert_eq!(a.remove(i), Some(7));
    assert_eq!(a.remove(i), None);
    assert_eq!(a.remove(99), None);
    assert_eq!(a.insert(8), i);
}

#[test]
fn arena_replace_only_occupied() {
    let mut a: Arena<u32> = Arena::new();
    assert_eq!(a.replace(0, 1), None);
    let i = a.insert(5);
    assert_eq!(a.replace(i, 6), Some(5));
    assert_eq!(a.remove(i), Some(6));
    assert_eq!(a.replace(i, 7), None);
}

#[test]
fn registry_delivers_once_per_id() {
    let mut r: Registry<u32> = Registry::new();
    let id = r.start();
    assert_eq!(r.collect(id), Ok(None));
    assert_eq!(r.deliver(id, 42), Ok(Delivery::Stored));
    assert_eq!(r.deliver(id, 43), Err(ProtocolError::DuplicateResponse));
    assert_eq!(r.collect(id), Ok(Some(42)));
    assert_eq!(r.collect(id), Err(ProtocolError::UnknownId));
    assert_eq!(r.deliver(id, 44), Err(ProtocolError::UnknownId));
    assert_eq!(r.deliver(17, 1), Err(ProtocolError::UnknownId));
}

#[test]
fn registry_drops_results_of_abandoned_operations() {
    let mut r: Registry<u32> = Registry::new();
    let a = r.start();
    let b = r.start();
    assert_ne!(a, b);
    assert_eq!(r.abandon(a), Ok(()));
    assert_eq!(r.collect(a), Err(ProtocolError::UnknownId));
    assert_eq!(r.deliver(a, 1), Ok(Delivery::Discarded));
    assert_eq!(r.deliver(a, 1), Err(ProtocolError::UnknownId));
    assert_eq!(r.deliver(b, 2), Ok(Delivery::Stored));
    assert_eq!(r.abandon(b), Ok(()));
    assert_eq!(r.collect(b), Err(ProtocolError::UnknownId));
    assert_eq!(r.abandon(b), Err(ProtocolError::UnknownId));
    assert_eq!(r.start(), b);
}

#[test]
fn pending_states_are_distinct() {
    let p: Pending<u8> = Pending::Done(3);
    assert!(matches!(p, Pending::Done(3)));
    assert!(!matches!(Pending::<u8>::Waiting, Pending::Abandoned));
}

#[test]
fn fs_routes_responses_by_kind_and_id() {
    let mut fs = Fs::new();
    let open = fs.open(9);
    let id = match open {
        Request::Open { id, options } => {
            assert_eq!(options, 9);
            id
        }
        _ => panic!("an open request"),
    };
    let read = fs.read(3, 10, 5);
    assert!(matches!(read, Request::Read { fd: 3, amount: 10, cursor: 5, .. }));
    let r = fs.deliver(Response::Write { id, reply: Ok(1) });
    assert_eq!(r, Err(ProtocolError::UnknownId));
    let r = fs.deliver(Response::Open { id, reply: Ok(Opened { fd: 4, size: 12 }) });
    assert_eq!(r, Ok((OpKind::Open, id, Delivery::Stored)));
    assert!(matches!(fs.opening.collect(id), Ok(Some(Ok(Opened { fd: 4, size: 12 })))));
}

#[test]
fn fs_stores_backend_errors_as_failures() {
    let mut fs = Fs::new();
    let req = fs.flush(2);
    let id = match req {
        Request::Flush { id, fd } => {
            assert_eq!(fd, 2);
            id
        }
        _ => panic!("a flush request"),
    };
    fs.deliver(Response::Flush { id, reply: Err("InvalidStateError".to_string()) }).unwrap();
    match fs.flushing.collect(id) {
        Ok(Some(Err(FsError::Other(text)))) => assert_eq!(text, "InvalidStateError"),
        _ => panic!("a stored failure"),
    }
    assert!(matches!(fs.drop_file(6), Request::Release { fd: 6 }));
}

#[test]
fn write_copies_buffer_into_request() {
    let mut fs = Fs::new();
    let buf = vec![1u8, 2, 3];
    match fs.write(1, &buf, 7) {
        Request::Write { bytes, cursor, fd, .. } => {
            assert_eq!(bytes, buf);
            assert_eq!(cursor, 7);
            assert_eq!(fd, 1);
        }
        _ => panic!("a write request"),
    }
    assert!(matches!(fs.truncate(1, 4), Request::Truncate { fd: 1, size: 4, .. }));
    assert!(matches!(fs.close(1), Request::Close { fd: 1, .. }));
}

#[test]
fn oversized_read_reply_is_a_protocol_error() {
    let mut fs = Fs::new();
    let mut f = File::new(0, 10);
    let id = match f.poll_read(&mut fs, 2).unwrap() {
        web_fs::Progress::Sent(Request::Read { id, .. }) => id,
        _ => panic!("a dispatched read"),
    };
    fs.deliver(Response::Read { id, reply: Ok(vec![1, 2, 3]) }).unwrap();
    assert_eq!(f.poll_read(&mut fs, 2).err(), Some(ProtocolError::Malformed));
    assert_eq!(f.cursor, 0);
}

#[test]
fn failed_write_leaves_cursor_and_size() {
    let mut fs = Fs::new();
    let mut f = File::new(0, 10);
    f.cursor = 10;
    let id = match f.poll_write(&mut fs, &vec![1, 2]).unwrap() {
        web_fs::Progress::Sent(Request::Write { id, cursor, .. }) => {
            assert_eq!(cursor, 10);
            id
        }
        _ => panic!("a dispatched write"),
    };
    fs.deliver(Response::Write { id, reply: Err("QuotaExceededError".to_string()) }).unwrap();
    assert!(matches!(f.poll_write(&mut fs, &vec![1, 2]).unwrap(), web_fs::Progress::Ready(Err(FsError::Other(_)))));
    assert_eq!((f.cursor, f.size), (10, 10));
    assert!(f.write_op.is_none());
}

#[test]
fn short_write_advances_by_reported_count() {
    let mut fs = Fs::new();
    let mut f = File::new(0, 4);
    f.cursor = 4;
    let id = match f.poll_write(&mut fs, &vec![1, 2, 3]).unwrap() {
        web_fs::Progress::Sent(Request::Write { id, .. }) => id,
        _ => panic!("a dispatched write"),
    };
    fs.deliver(Response::Write { id, reply: Ok(2) }).unwrap();
    assert!(matches!(f.poll_write(&mut fs, &vec![9]).unwrap(), web_fs::Progress::Ready(Ok(2))));
    assert_eq!((f.cursor, f.size), (6, 6));
}

#[test]
fn flush_and_close_complete_once() {
    let mut fs = Fs::new();
    let mut f = File::new(5, 0);
    let fid = match f.poll_flush(&mut fs).unwrap() {
        web_fs::Progress::Sent(Request::Flush { id, fd: 5 }) => id,
        _ => panic!("a dispatched flush"),
    };
    assert!(matches!(f.poll_flush(&mut fs).unwrap(), web_fs::Progress::Pending));
    fs.deliver(Response::Flush { id: fid, reply: Ok(()) }).unwrap();
    assert!(matches!(f.poll_flush(&mut fs).unwrap(), web_fs::Progress::Ready(Ok(()))));
    assert!(f.flush_op.is_none());
    let cid = match f.poll_close(&mut fs).unwrap() {
        web_fs::Progress::Sent(Request::Close { id, fd: 5 }) => id,
        _ => panic!("a dispatched close"),
    };
    fs.deliver(Response::Close { id: cid, reply: Ok(()) }).unwrap();
    assert!(matches!(f.poll_close(&mut fs).unwrap(), web_fs::Progress::Ready(Ok(()))));
}

#[test]
fn released_file_abandons_its_operations() {
    let mut fs = Fs::new();
    let mut f = File::new(8, 3);
    let id = match f.poll_read(&mut fs, 3).unwrap() {
        web_fs::Progress::Sent(Request::Read { id, .. }) => id,
        _ => panic!("a dispatched read"),
    };
    assert!(matches!(f.release(&mut fs), Request::Release { fd: 8 }));
    assert_eq!(fs.deliver(Response::Read { id, reply: Ok(vec![1]) }), Ok((OpKind::Read, id, Delivery::Discarded)));
}

#[test]
fn failed_truncate_keeps_size() {
    let mut fs = Fs::new();
    let mut f = File::new(1, 9);
    let id = match f.poll_set_len(&mut fs, 2).unwrap() {
        web_fs::Progress::Sent(Request::Truncate { id, size: 2, .. }) => id,
        _ => panic!("a dispatched truncation"),
    };
    fs.deliver(Response::Truncate { id, reply: Err("NoModificationAllowedError".to_string()) }).unwrap();
    assert!(matches!(f.poll_set_len(&mut fs, 2).unwrap(), web_fs::Progress::Ready(Err(_))));
    assert_eq!(f.size, 9);
}

#[test]
fn path_components_follow_slashes() {
    assert_eq!(components(""), vec![]);
    assert_eq!(components("/"), vec![Component::RootDir]);
    assert_eq!(
        components("./a//b/../c/."),
        vec![
            Component::CurDir,
            Component::Normal { start: 2, end: 3 },
            Component::Normal { start: 5, end: 6 },
            Component::ParentDir,
            Component::Normal { start: 10, end: 11 },
        ]
    );
    assert_eq!(
        components("/x/./y/"),
        vec![Component::RootDir, Component::Normal { start: 1, end: 2 }, Component::Normal { start: 5, end: 6 }]
    );
    assert_eq!(components(".."), vec![Component::ParentDir]);
    assert_eq!(components("..."), vec![Component::Normal { start: 0, end: 3 }]);
}

#[test]
fn resolution_walks_to_parent() {
    let r = resolve("a/b/c");
    assert_eq!(r.steps, vec![Step::Descend { start: 0, end: 1 }, Step::Descend { start: 2, end: 3 }]);
    assert_eq!(r.target, Some((4, 5)));
    let r = resolve("a/../b");
    assert_eq!(r.steps, vec![Step::Descend { start: 0, end: 1 }, Step::Ascend]);
    assert_eq!(r.target, Some((5, 6)));
    let r = resolve("../x/y");
    assert_eq!(r.steps, vec![Step::Denied]);
    let r = resolve("");
    assert!(r.steps.is_empty());
    assert_eq!(r.target, None);
    assert!(matches!(r.file_target(), Err(FsError::AlreadyExists)));
    assert!(matches!(r.entry_target(), Err(FsError::NotFound)));
    let r = resolve("a/..");
    assert_eq!(r.steps, vec![Step::Descend { start: 0, end: 1 }]);
    assert_eq!(r.target, None);
    assert_eq!(resolve("/f").file_target().unwrap(), (1, 2));
    assert_eq!(resolve("d/f").entry_target().unwrap(), (2, 3));
}

#[test]
fn open_options_set_and_clear_bits() {
    let mut o = OpenOptions::new();
    assert_eq!(o.bits(), 0);
    o.read(true).write(true).append(true);
    assert_eq!(o.bits(), 8 | 32 | 1);
    assert!(!o.creates());
    o.create_new(true);
    assert!(o.creates());
    o.create_new(false).create(true).truncate(true);
    assert!(o.creates());
    assert_eq!(o.bits(), 1 | 2 | 8 | 16 | 32);
    o.append(false).read(false);
    assert_eq!(o.bits(), 2 | 16 | 32);
}

#[test]
fn append_open_starts_at_end() {
    let mut fs = Fs::new();
    let mut o = OpenOptions::new();
    o.append(true).write(true);
    let (pending, req) = o.start_open(&mut fs);
    match req {
        Request::Open { id, options } => {
            assert_eq!(id, pending.id);
            assert_eq!(options, 33);
        }
        _ => panic!("an open request"),
    }
    assert!(matches!(pending.poll(&mut fs), Ok(None)));
    fs.deliver(Response::Open { id: pending.id, reply: Ok(Opened { fd: 2, size: 17 }) }).unwrap();
    let f = pending.poll(&mut fs).unwrap().unwrap().unwrap();
    assert_eq!((f.fd, f.cursor, f.size), (2, 17, 17));
    assert!(pending.poll(&mut fs).is_err());
}

#[test]
fn failed_open_reports_backend_text() {
    let mut fs = Fs::new();
    let (pending, _) = OpenOptions::new().read(true).start_open(&mut fs);
    fs.deliver(Response::Open { id: pending.id, reply: Err("NotReadableError".to_string()) }).unwrap();
    match pending.poll(&mut fs) {
        Ok(Some(Err(FsError::Other(text)))) => assert_eq!(text, "NotReadableError"),
        _ => panic!("a failed open"),
    }
}

#[test]
fn exceptions_map_to_error_kinds() {
    assert!(matches!(error_from_exception(Some("NotFoundError"), "x".to_string()), FsError::NotFound));
    assert!(matches!(error_from_exception(Some("NotAllowedError"), "x".to_string()), FsError::PermissionDenied));
    assert!(matches!(
        error_from_exception(Some("NoModificationAllowedError"), "x".to_string()),
        FsError::PermissionDenied
    ));
    match error_from_exception(Some("TypeMismatchError"), "mismatch".to_string()) {
        FsError::Other(t) => assert_eq!(t, "mismatch"),
        _ => panic!("another error"),
    }
    match error_from_exception(None, "thrown".to_string()) {
        FsError::Other(t) => assert_eq!(t, "thrown"),
        _ => panic!("another error"),
    }
}

#[test]
fn metadata_and_permissions() {
    let f = File::new(0, 21);
    let m = f.metadata().unwrap();
    assert_eq!(m, Metadata { ty: FileType::File, len: 21 });
    assert!(m.is_file() && !m.is_dir() && !m.is_symlink());
    assert_eq!(m.len(), 21);
    assert_eq!(m.file_type(), FileType::File);
    assert!(matches!(m.accsessed(), Err(FsError::Unsupported)));
    assert!(matches!(m.created(), Err(FsError::Unsupported)));
    assert!(matches!(m.modified(), Err(FsError::Unsupported)));
    let mut p: Permissions = m.permissions();
    assert!(!p.readonly());
    p.set_readonly(true);
    assert!(p.readonly());
    assert!(matches!(f.set_permissions(p), Err(FsError::Unsupported)));
    assert!(FileType::Dir.is_dir() && !FileType::Dir.is_file() && !FileType::Dir.is_symlink());
}

#[test]
fn dir_entries_join_paths() {
    let e = DirEntry::new("dir2", "file1".to_string(), true);
    assert_eq!(e.file_name(), "file1");
    assert_eq!(e.path(), "dir2/file1");
    assert_eq!(e.file_type().unwrap(), FileType::File);
    assert!(matches!(e.metadata(), Err(FsError::Unsupported)));
    let e = DirEntry::new("dir2/", "sub".to_string(), false);
    assert_eq!(e.path(), "dir2/sub");
    assert_eq!(e.file_type().unwrap(), FileType::Dir);
    assert_eq!(DirEntry::new("", "x".to_string(), true).path(), "x");
    assert_eq!(DirEntry::new("a", "/x".to_string(), true).path(), "/x");
}
