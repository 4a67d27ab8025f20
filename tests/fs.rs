use rustuv::error::{EACCES, EINVAL, ENOENT, EOF};
use rustuv::fs::{
    copy_check, copy_step, ignore_missing, io_stat, mkdir_prefixes, mkdir_recursive_done, mkdir_step,
    open_flags, read_at_result, fs_result, seek_result, seek_whence, to_msec, File, FileAccess, FileMode,
    FileType, RmdirRecursive, SeekStyle, UvStat, UvTimespec, WriteAt, COPY_BLOCK,
};
use rustuv::UvError;

fn ts(sec: i64, nsec: i64) -> UvTimespec {
    UvTimespec { tv_sec: sec, tv_nsec: nsec }
}

#[test]
fn open_flags_by_mode_and_access() {
    assert_eq!(open_flags(FileMode::Open, FileAccess::Read), (0, 0));
    assert_eq!(open_flags(FileMode::Truncate, FileAccess::Write), (512 | 1 | 64, 0o600));
    assert_eq!(open_flags(FileMode::Append, FileAccess::Write), (1024 | 1 | 64, 0o600));
    assert_eq!(open_flags(FileMode::Open, FileAccess::ReadWrite), (2 | 64, 0o600));
}

#[test]
fn request_results() {
    assert_eq!(fs_result(12), Ok(12));
    assert_eq!(fs_result(-13), Err(UvError(EACCES)));
    assert_eq!(read_at_result(0), Err(UvError(EOF)));
    assert_eq!(read_at_result(7), Ok(7));
    assert_eq!(read_at_result(-2), Err(UvError(ENOENT)));
    assert_eq!(seek_result(-1), None);
    assert_eq!(seek_result(4096), Some(4096));
    assert_eq!(seek_whence(SeekStyle::SeekSet), 0);
    assert_eq!(seek_whence(SeekStyle::SeekCur), 1);
    assert_eq!(seek_whence(SeekStyle::SeekEnd), 2);
}

#[test]
fn opened_file() {
    let f = File::open_mode_on("/tmp/x".to_string(), 5).unwrap();
    assert_eq!(f.fd(), 5);
    assert_eq!(f.path(), "/tmp/x");
    assert_eq!(File::open_mode_on("/tmp/y".to_string(), -2).err(), Some(UvError(ENOENT)));
}

#[test]
fn write_at_in_pieces() {
    let mut w = WriteAt::write_at(100, 10);
    assert_eq!(w.next(), Some((100, 0)));
    w.advance(4);
    assert_eq!(w.next(), Some((104, 4)));
    w.advance(6);
    assert_eq!(w.next(), None);
    let mut w = WriteAt::write_at(-1, 3);
    assert_eq!(w.next(), Some((-1, 0)));
    w.advance(1);
    assert_eq!(w.next(), Some((-1, 1)));
}

#[test]
fn stat_conversion() {
    let st = UvStat {
        st_dev: 1, st_mode: 0o100644, st_nlink: 2, st_uid: 1000, st_gid: 100, st_rdev: 0, st_ino: 77,
        st_size: 4096, st_blksize: 512, st_blocks: 8, st_flags: 0, st_gen: 3,
        st_atim: ts(2, 999_999_999), st_mtim: ts(1, 500_000_000), st_ctim: ts(9, 0), st_birthtim: ts(0, 1_000_000),
    };
    let s = io_stat(&st);
    assert_eq!(s.size, 4096);
    assert_eq!(s.kind, FileType::TypeFile);
    assert_eq!(s.perm, 0o644);
    assert_eq!(s.modified, 1500);
    assert_eq!(s.accessed, 2999);
    assert_eq!(s.created, 1);
    assert_eq!(s.unstable.inode, 77);
    assert_eq!(s.unstable.nlink, 2);
    let d = io_stat(&UvStat { st_mode: 0o040755, ..st });
    assert_eq!(d.kind, FileType::TypeDirectory);
    assert_eq!(d.perm, 0o755);
    assert_eq!(io_stat(&UvStat { st_mode: 0o120777, ..st }).kind, FileType::TypeSymlink);
    assert_eq!(io_stat(&UvStat { st_mode: 0o010600, ..st }).kind, FileType::TypeNamedPipe);
    assert_eq!(io_stat(&UvStat { st_mode: 0o060600, ..st }).kind, FileType::TypeBlockSpecial);
    assert_eq!(io_stat(&UvStat { st_mode: 0o140600, ..st }).kind, FileType::TypeUnknown);
}

#[test]
fn msec_formula() {
    assert_eq!(to_msec(ts(3, 250_000_000)), 3250);
    assert_eq!(to_msec(ts(0, 999_999)), 0);
}

#[test]
fn mkdir_recursive_prefixes() {
    assert_eq!(mkdir_prefixes("/a/b"), vec!["/a".to_string(), "/a/b".to_string()]);
    assert_eq!(mkdir_prefixes("x//y/"), vec!["x".to_string(), "x//y".to_string()]);
    assert_eq!(mkdir_prefixes("/"), Vec::<String>::new());
    assert_eq!(mkdir_prefixes(""), Vec::<String>::new());
}

#[test]
fn mkdir_recursive_steps() {
    assert!(mkdir_recursive_done(&Ok(FileType::TypeDirectory)));
    assert!(!mkdir_recursive_done(&Ok(FileType::TypeFile)));
    assert!(!mkdir_recursive_done(&Err(UvError(ENOENT))));
    assert_eq!(mkdir_step(Ok(()), None), Ok(()));
    // already there as a directory
    assert_eq!(mkdir_step(Err(UvError(-17)), Some(Ok(FileType::TypeDirectory))), Ok(()));
    // a file stands in the way: the mkdir error stands
    assert_eq!(mkdir_step(Err(UvError(-17)), Some(Ok(FileType::TypeFile))), Err(UvError(-17)));
    assert_eq!(mkdir_step(Err(UvError(EACCES)), Some(Err(UvError(ENOENT)))), Err(UvError(ENOENT)));
}

#[test]
fn rmdir_recursive_depth_first() {
    let mut w = RmdirRecursive::rmdir_recursive("/t".to_string());
    assert_eq!(w.current(), "/t");
    let step = w.on_listing(vec![
        ("/t/f".to_string(), false),
        ("/t/d".to_string(), true),
        ("/t/g".to_string(), false),
    ]);
    assert_eq!(step.unlink, vec!["/t/f".to_string(), "/t/g".to_string()]);
    assert!(step.rmdir.is_none());
    assert_eq!(w.current(), "/t/d");
    let step = w.on_listing(vec![("/t/d/h".to_string(), false)]);
    assert_eq!(step.unlink, vec!["/t/d/h".to_string()]);
    assert_eq!(step.rmdir, Some("/t/d".to_string()));
    assert_eq!(w.current(), "/t");
    let step = w.on_listing(Vec::new());
    assert!(step.unlink.is_empty());
    assert_eq!(step.rmdir, Some("/t".to_string()));
    assert!(w.is_done());
}

#[test]
fn removal_of_missing_entries_is_fine() {
    assert_eq!(ignore_missing(Err(UvError(ENOENT))), Ok(()));
    assert_eq!(ignore_missing(Err(UvError(EACCES))), Err(UvError(EACCES)));
    assert_eq!(ignore_missing(Ok(())), Ok(()));
}

#[test]
fn copy_decisions() {
    assert_eq!(COPY_BLOCK, 128 * 1024);
    assert_eq!(copy_check(FileType::TypeFile), Ok(()));
    assert_eq!(copy_check(FileType::TypeDirectory), Err(UvError(EINVAL)));
    assert_eq!(copy_step(Ok(100)), Ok(Some(100)));
    assert_eq!(copy_step(Err(UvError(EOF))), Ok(None));
    assert_eq!(copy_step(Err(UvError(EACCES))), Err(UvError(EACCES)));
}
