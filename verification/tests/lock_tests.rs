use file_locker::{FileLock, LockError, SeekTo};

fn cleanup(path: &str) {
    let _ = nix::unistd::unlink(path);
}

#[test]
fn builder_defaults() {
    let builder = FileLock::new("/tmp/file_locker_builder_defaults");
    assert_eq!(builder.file_path, "/tmp/file_locker_builder_defaults");
    assert!(!builder.blocking);
    assert!(!builder.writeable);
}

#[test]
fn builder_chaining_is_order_independent() {
    let a = FileLock::new("/tmp/file_locker_chain").blocking(true).writeable(true);
    let b = FileLock::new("/tmp/file_locker_chain").writeable(true).blocking(true);
    assert_eq!(a.file_path, b.file_path);
    assert_eq!(a.blocking, b.blocking);
    assert_eq!(a.writeable, b.writeable);
    assert!(a.blocking && a.writeable);
    let c = a.blocking(false);
    assert!(!c.blocking && c.writeable);
}

#[test]
fn codes_match_the_platform() {
    assert_eq!(file_locker::LOCK_TYPE_SHARED as i32, libc::F_RDLCK);
    assert_eq!(file_locker::LOCK_TYPE_EXCLUSIVE as i32, libc::F_WRLCK);
    assert_eq!(file_locker::LOCK_TYPE_CLEAR as i32, libc::F_UNLCK);
    assert_eq!(file_locker::ENOENT, libc::ENOENT);
    assert_eq!(file_locker::EINTR, libc::EINTR);
    assert_eq!(file_locker::EBADF, libc::EBADF);
    assert_eq!(file_locker::EAGAIN, libc::EAGAIN);
    assert_eq!(file_locker::EACCES, libc::EACCES);
}

#[test]
fn error_mapper_covers_the_taxonomy() {
    assert_eq!(file_locker::map_os_error(libc::EAGAIN), LockError::WouldBlock);
    assert_eq!(file_locker::map_os_error(libc::EACCES), LockError::WouldBlock);
    assert_eq!(file_locker::map_os_error(libc::EINTR), LockError::Interrupted);
    assert_eq!(file_locker::map_os_error(libc::EBADF), LockError::InvalidDescriptor);
    assert_eq!(file_locker::map_os_error(libc::ENOENT), LockError::Io(libc::ENOENT));
    assert_eq!(file_locker::map_os_error(libc::EPERM), LockError::Io(libc::EPERM));
    assert_eq!(file_locker::map_os_error(0), LockError::Io(0));
}

#[test]
fn open_failures_keep_their_code() {
    // Open-step failures are not folded into the lock-step kinds: a
    // permission denial stays a plain Io error rather than WouldBlock.
    assert_eq!(file_locker::map_open_error(libc::EACCES), LockError::Io(libc::EACCES));
    assert_eq!(file_locker::map_open_error(libc::ENOENT), LockError::Io(libc::ENOENT));
    assert_eq!(file_locker::map_open_error(libc::EINTR), LockError::Io(libc::EINTR));
    assert_eq!(file_locker::map_open_error(libc::EPERM), LockError::Io(libc::EPERM));
}

#[test]
fn existing_file_can_be_locked_every_way() {
    let path = "/tmp/file_locker_existing";
    cleanup(path);
    // Create the file with an exclusive lock, then release it.
    let created = FileLock::lock(path, false, true);
    assert!(created.is_ok(), "Lock should have been successful");
    drop(created);
    // The file now exists: every flag combination must succeed.
    let shared = FileLock::lock(path, false, false);
    assert!(shared.is_ok(), "Error getting lock with no competition");
    drop(shared);
    let shared_blocking = FileLock::lock(path, true, false);
    assert!(shared_blocking.is_ok());
    drop(shared_blocking);
    let exclusive_blocking = FileLock::lock(path, true, true);
    assert!(exclusive_blocking.is_ok());
    drop(exclusive_blocking);
    cleanup(path);
}

#[test]
fn absent_file_read_lock_fails_with_not_found() {
    let path = "/tmp/file_locker_absent_read";
    cleanup(path);
    let result = FileLock::lock(path, false, false);
    match result {
        Ok(_) => panic!("Locking a non-existent file for reading should fail"),
        Err(e) => assert_eq!(e, LockError::Io(libc::ENOENT)),
    }
    // The failed attempt must not have created the file.
    let again = FileLock::new(path).lock();
    assert_eq!(again.err(), Some(LockError::Io(libc::ENOENT)));
}

#[test]
fn absent_file_write_lock_creates_the_file() {
    let path = "/tmp/file_locker_absent_write";
    cleanup(path);
    let handle = FileLock::new(path).writeable(true).lock();
    assert!(handle.is_ok(), "Lock should have been successful");
    drop(handle);
    // The file was created: a read-only acquisition now succeeds.
    let read_back = FileLock::lock(path, false, false);
    assert!(read_back.is_ok());
    drop(read_back);
    cleanup(path);
}

#[test]
fn shared_locks_coexist() {
    let path = "/tmp/file_locker_shared_pair";
    cleanup(path);
    drop(FileLock::lock(path, false, true));
    let first = FileLock::lock(path, false, false);
    assert!(first.is_ok(), "Read lock when locked for reading should succeed first go");
    let second = FileLock::lock(path, false, false);
    assert!(second.is_ok(), "Read lock when locked for reading should succeed first go");
    drop(first);
    drop(second);
    cleanup(path);
}

#[test]
fn unlock_is_idempotent() {
    let path = "/tmp/file_locker_unlock_twice";
    cleanup(path);
    let handle = FileLock::lock(path, false, true).expect("Lock should have been successful");
    assert!(handle.unlock().is_ok());
    assert!(handle.unlock().is_ok());
    drop(handle);
    cleanup(path);
}

#[test]
fn unlock_keeps_the_file_usable() {
    let path = "/tmp/file_locker_unlock_io";
    cleanup(path);
    let handle = FileLock::lock(path, false, true).expect("Lock should have been successful");
    assert!(handle.unlock().is_ok());
    // The descriptor stays open after unlock: plain I/O still works.
    let written = handle.write(&b"still open"[..]).expect("write after unlock");
    assert_eq!(written, 10);
    drop(handle);
    cleanup(path);
}

#[test]
fn raw_entry_points_validate_the_descriptor() {
    assert_eq!(file_locker::raw_lock(-1, false, false), libc::EBADF);
    assert_eq!(file_locker::raw_lock(-1, true, true), libc::EBADF);
    assert_eq!(file_locker::raw_unlock(-1), libc::EBADF);
}

#[test]
fn raw_entry_points_lock_and_unlock() {
    let path = "/tmp/file_locker_raw";
    cleanup(path);
    let handle = FileLock::lock(path, false, true).expect("Lock should have been successful");
    let fd = handle.as_raw_fd();
    assert!(fd >= 0);
    assert_eq!(file_locker::raw_lock(fd, false, false), 0);
    assert_eq!(file_locker::raw_unlock(fd), 0);
    drop(handle);
    cleanup(path);
}

#[test]
fn write_seek_read_round_trip() {
    let path = "/tmp/file_locker_round_trip";
    cleanup(path);
    let handle = FileLock::new(path).writeable(true).lock().expect("lock for writing");
    let written = handle.write(&b"hello"[..]).expect("write");
    assert_eq!(written, 5);
    let position = handle.seek(SeekTo::Start(0)).expect("seek to start");
    assert_eq!(position, 0);
    let mut buf = vec![0u8; 5];
    let read = handle.read(&mut buf).expect("read");
    assert_eq!(read, 5);
    assert_eq!(buf, b"hello".to_vec());
    let end = handle.seek(SeekTo::End(0)).expect("seek to end");
    assert_eq!(end, 5);
    drop(handle);
    cleanup(path);
}

#[test]
fn positional_io_leaves_the_offset_alone() {
    let path = "/tmp/file_locker_positional";
    cleanup(path);
    let handle = FileLock::new(path).writeable(true).lock().expect("lock for writing");
    assert_eq!(handle.write_at(&b"abcdef"[..], 0).expect("write_at"), 6);
    assert_eq!(handle.write_at(&b"XY"[..], 2).expect("write_at overlay"), 2);
    let mut buf = vec![0u8; 6];
    assert_eq!(handle.read_at(&mut buf, 0).expect("read_at"), 6);
    assert_eq!(buf, b"abXYef".to_vec());
    // The descriptor's own offset never moved.
    assert_eq!(handle.seek(SeekTo::Current(0)).expect("tell"), 0);
    drop(handle);
    cleanup(path);
}

#[test]
fn dropping_the_handle_releases_and_closes() {
    let path = "/tmp/file_locker_drop_release";
    cleanup(path);
    let handle = FileLock::lock(path, false, true).expect("Lock should have been successful");
    let fd = handle.as_raw_fd();
    drop(handle);
    // The descriptor was closed on drop, so the kernel now rejects it.
    assert_eq!(file_locker::raw_unlock(fd), libc::EBADF);
    // And the lock is gone: a fresh exclusive acquisition succeeds at once.
    let again = FileLock::lock(path, false, true);
    assert!(again.is_ok(), "Error getting lock with no competition");
    drop(again);
    cleanup(path);
}
