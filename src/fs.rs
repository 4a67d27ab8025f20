use vstd::prelude::*;
use vstd::string::StrSliceExecFns;
use crate::error::{UvError, UvResult, EOF, EINVAL, ENOENT};

verus! {

pub const O_RDONLY: i32 = 0;
pub const O_WRONLY: i32 = 1;
pub const O_RDWR: i32 = 2;
pub const O_CREAT: i32 = 64;
pub const O_TRUNC: i32 = 512;
pub const O_APPEND: i32 = 1024;
pub const S_IRUSR: i32 = 256;
pub const S_IWUSR: i32 = 128;

pub const S_IFMT: u64 = 0o170000;
pub const S_IFREG: u64 = 0o100000;
pub const S_IFDIR: u64 = 0o040000;
pub const S_IFIFO: u64 = 0o010000;
pub const S_IFBLK: u64 = 0o060000;
pub const S_IFLNK: u64 = 0o120000;
/// The permission bits of a mode.
pub const ALL_PERMISSIONS: u64 = 0o777;

/// The size of the blocks in which `copy` moves a file.
pub const COPY_BLOCK: usize = 131072;

/// How an existing file is treated on open.
#[derive(Clone, Copy, Debug, PartialEq, Eq, Structural)]
pub enum FileMode {
    Open,
    Append,
    Truncate,
}

#[derive(Clone, Copy, Debug, PartialEq, Eq, Structural)]
pub enum FileAccess {
    Read,
    Write,
    ReadWrite,
}

#[derive(Clone, Copy, Debug, PartialEq, Eq, Structural)]
pub enum FileType {
    TypeFile,
    TypeDirectory,
    TypeNamedPipe,
    TypeBlockSpecial,
    TypeSymlink,
    TypeUnknown,
}

pub open spec fn mode_flags(m: FileMode) -> i32 {
    match m {
        FileMode::Open => 0,
        FileMode::Append => O_APPEND,
        FileMode::Truncate => O_TRUNC,
    }
}

/// The access flags and the permissions of a created file: opening for
/// writing creates the file, readable and writable by its owner.
pub open spec fn access_flags(a: FileAccess) -> (i32, i32) {
    match a {
        FileAccess::Read => (O_RDONLY, 0),
        FileAccess::Write => (O_WRONLY | O_CREAT, S_IRUSR | S_IWUSR),
        FileAccess::ReadWrite => (O_RDWR | O_CREAT, S_IRUSR | S_IWUSR),
    }
}

/// The flags and the creation mode with which a file is opened.
pub fn open_flags(mode: FileMode, access: FileAccess) -> (r: (i32, i32))
    ensures
        r.0 == mode_flags(mode) | access_flags(access).0,
        r.1 == access_flags(access).1,
{
    let flags: i32 = match mode {
        FileMode::Open => 0,
        FileMode::Append => O_APPEND,
        FileMode::Truncate => O_TRUNC,
    };
    match access {
        FileAccess::Read => (flags | O_RDONLY, 0),
        FileAccess::Write => (flags | (O_WRONLY | O_CREAT), S_IRUSR | S_IWUSR),
        FileAccess::ReadWrite => (flags | (O_RDWR | O_CREAT), S_IRUSR | S_IWUSR),
    }
}

/// The result of a file-system request: negative values are error codes.
pub open spec fn fs_result_spec(n: i64) -> UvResult<i64> {
    if n < 0 { Err(UvError(n as i32)) } else { Ok(n) }
}

pub fn fs_result(n: i64) -> (r: UvResult<i64>)
    ensures
        r == fs_result_spec(n),
{
    if n < 0 { Err(UvError(n as i32)) } else { Ok(n) }
}

/// The outcome of a positioned read that returned `n`: no bytes at all is
/// the end of the file.
pub fn read_at_result(n: i64) -> (r: UvResult<usize>)
    requires
        n >= 0 ==> n <= usize::MAX,
    ensures
        n < 0 ==> r == Err::<usize, UvError>(UvError(n as i32)),
        n == 0 ==> r == Err::<usize, UvError>(UvError(EOF)),
        n > 0 ==> r == Ok::<usize, UvError>(n as usize),
{
    if n < 0 {
        Err(UvError(n as i32))
    } else if n == 0 {
        Err(UvError(EOF))
    } else {
        Ok(n as usize)
    }
}

/// A positioned write of `len` bytes in as many requests as it takes; `pos`
/// of -1 writes at the file's current position.
#[derive(Clone, Copy, Debug, PartialEq, Eq, Structural)]
pub struct WriteAt {
    pos: i64,
    amt: usize,
    len: usize,
}

impl WriteAt {
    pub closed spec fn spec_pos(&self) -> i64 {
        self.pos
    }

    /// The bytes written so far.
    pub closed spec fn written(&self) -> usize {
        self.amt
    }

    pub closed spec fn spec_len(&self) -> usize {
        self.len
    }

    pub open spec fn wf(&self) -> bool {
        &&& self.written() <= self.spec_len()
        &&& (self.spec_pos() == -1 || (self.spec_pos() >= 0 && self.spec_pos() + self.spec_len() <= i64::MAX))
    }

    pub fn write_at(pos: i64, len: usize) -> (r: WriteAt)
        requires
            pos == -1 || (pos >= 0 && pos + len <= i64::MAX),
        ensures
            r.wf(),
            r.spec_pos() == pos,
            r.spec_len() == len,
            r.written() == 0,
    {
        WriteAt { pos, amt: 0, len }
    }

    /// The next request: the position to write at and the offset in the
    /// buffer to write from; `None` once everything is written.
    pub fn next(&self) -> (r: Option<(i64, usize)>)
        requires
            self.wf(),
        ensures
            self.written() == self.spec_len() ==> r.is_none(),
            self.written() < self.spec_len() ==> r == Some((
                if self.spec_pos() == -1 { -1i64 } else { (self.spec_pos() + self.written()) as i64 },
                self.written(),
            )),
    {
        if self.amt >= self.len {
            None
        } else if self.pos == -1 {
            Some((-1, self.amt))
        } else {
            Some((self.pos + self.amt as i64, self.amt))
        }
    }

    /// A request wrote `n` more bytes.
    pub fn advance(&mut self, n: usize)
        requires
            old(self).wf(),
            old(self).written() + n <= old(self).spec_len(),
        ensures
            final(self).wf(),
            final(self).written() == old(self).written() + n,
            final(self).spec_pos() == old(self).spec_pos(),
            final(self).spec_len() == old(self).spec_len(),
    {
        self.amt = self.amt + n;
    }
}

#[derive(Clone, Copy, Debug, PartialEq, Eq, Structural)]
pub struct UvTimespec {
    pub tv_sec: i64,
    pub tv_nsec: i64,
}

/// A file's status as the reactor reports it.
#[derive(Clone, Copy, Debug, PartialEq, Eq, Structural)]
pub struct UvStat {
    pub st_dev: u64,
    pub st_mode: u64,
    pub st_nlink: u64,
    pub st_uid: u64,
    pub st_gid: u64,
    pub st_rdev: u64,
    pub st_ino: u64,
    pub st_size: u64,
    pub st_blksize: u64,
    pub st_blocks: u64,
    pub st_flags: u64,
    pub st_gen: u64,
    pub st_atim: UvTimespec,
    pub st_mtim: UvTimespec,
    pub st_ctim: UvTimespec,
    pub st_birthtim: UvTimespec,
}

#[derive(Clone, Copy, Debug, PartialEq, Eq, Structural)]
pub struct UnstableFileStat {
    pub device: u64,
    pub inode: u64,
    pub rdev: u64,
    pub nlink: u64,
    pub uid: u64,
    pub gid: u64,
    pub blksize: u64,
    pub blocks: u64,
    pub flags: u64,
    pub gen: u64,
}

/// A file's status: size, kind, permission bits and times in milliseconds.
#[derive(Clone, Copy, Debug, PartialEq, Eq, Structural)]
pub struct FileStat {
    pub size: u64,
    pub kind: FileType,
    pub perm: u64,
    pub created: u64,
    pub modified: u64,
    pub accessed: u64,
    pub unstable: UnstableFileStat,
}

pub open spec fn kind_of(mode: u64) -> FileType {
    let t = mode & S_IFMT;
    if t == S_IFREG { FileType::TypeFile }
    else if t == S_IFDIR { FileType::TypeDirectory }
    else if t == S_IFIFO { FileType::TypeNamedPipe }
    else if t == S_IFBLK { FileType::TypeBlockSpecial }
    else if t == S_IFLNK { FileType::TypeSymlink }
    else { FileType::TypeUnknown }
}

/// A time in milliseconds, counted in 64 bits.
pub open spec fn msec_of(t: UvTimespec) -> u64 {
    vstd::wrapping::u64_specs::wrapping_add(
        vstd::wrapping::u64_specs::wrapping_mul(t.tv_sec as u64, 1000),
        (t.tv_nsec as u64) / 1000000,
    )
}

pub fn to_msec(t: UvTimespec) -> (r: u64)
    ensures
        r == msec_of(t),
{
    let s = t.tv_sec as u64;
    let n = t.tv_nsec as u64;
    s.wrapping_mul(1000).wrapping_add(n / 1000000)
}

/// The file status of a reactor stat.
pub fn io_stat(stat: &UvStat) -> (r: FileStat)
    ensures
        r.size == stat.st_size,
        r.kind == kind_of(stat.st_mode),
        r.perm == stat.st_mode & ALL_PERMISSIONS,
        r.created == msec_of(stat.st_birthtim),
        r.modified == msec_of(stat.st_mtim),
        r.accessed == msec_of(stat.st_atim),
        r.unstable == (UnstableFileStat {
            device: stat.st_dev,
            inode: stat.st_ino,
            rdev: stat.st_rdev,
            nlink: stat.st_nlink,
            uid: stat.st_uid,
            gid: stat.st_gid,
            blksize: stat.st_blksize,
            blocks: stat.st_blocks,
            flags: stat.st_flags,
            gen: stat.st_gen,
        }),
{
    let t = stat.st_mode & S_IFMT;
    let kind = if t == S_IFREG {
        FileType::TypeFile
    } else if t == S_IFDIR {
        FileType::TypeDirectory
    } else if t == S_IFIFO {
        FileType::TypeNamedPipe
    } else if t == S_IFBLK {
        FileType::TypeBlockSpecial
    } else if t == S_IFLNK {
        FileType::TypeSymlink
    } else {
        FileType::TypeUnknown
    };
    FileStat {
        size: stat.st_size,
        kind,
        perm: stat.st_mode & ALL_PERMISSIONS,
        created: to_msec(stat.st_birthtim),
        modified: to_msec(stat.st_mtim),
        accessed: to_msec(stat.st_atim),
        unstable: UnstableFileStat {
            device: stat.st_dev,
            inode: stat.st_ino,
            rdev: stat.st_rdev,
            nlink: stat.st_nlink,
            uid: stat.st_uid,
            gid: stat.st_gid,
            blksize: stat.st_blksize,
            blocks: stat.st_blocks,
            flags: stat.st_flags,
            gen: stat.st_gen,
        },
    }
}

/// One step of creating a directory and its parents: the outcome of
/// `mkdir` on the next prefix and, when it failed, of `stat` on it. A
/// failed `mkdir` is fine when a directory stands there (it already
/// existed); otherwise its error stands, or the error of the `stat`.
pub fn mkdir_step(made: UvResult<()>, stat_after: Option<UvResult<FileType>>) -> (r: UvResult<()>)
    requires
        made.is_err() ==> stat_after.is_some(),
    ensures
        made.is_ok() ==> r.is_ok(),
        made matches Err(e) ==> r == (match stat_after.unwrap() {
            Err(se) => Err::<(), UvError>(se),
            Ok(k) => if k == FileType::TypeDirectory { Ok::<(), UvError>(()) } else { Err::<(), UvError>(e) },
        }),
{
    match made {
        Ok(()) => Ok(()),
        Err(e) => match stat_after {
            Some(Err(se)) => Err(se),
            Some(Ok(k)) => if k == FileType::TypeDirectory { Ok(()) } else { Err(e) },
            None => Err(e),
        },
    }
}

/// Whether a path component of `p` ends just before position `e`.
pub open spec fn ends_component(p: Seq<char>, e: int) -> bool {
    &&& 0 < e <= p.len()
    &&& p[e - 1] != '/'
    &&& (e == p.len() || p[e] == '/')
}

/// The positions, up to `n`, at which components of `p` end, in order.
pub open spec fn component_ends(p: Seq<char>, n: int) -> Seq<int>
    decreases n,
{
    if n <= 0 {
        Seq::empty()
    } else if ends_component(p, n) {
        component_ends(p, n - 1).push(n)
    } else {
        component_ends(p, n - 1)
    }
}

/// The directories that `mkdir_recursive` creates for `p`, outermost first:
/// `p` cut after each of its components.
pub open spec fn dir_prefixes(p: Seq<char>) -> Seq<Seq<char>> {
    component_ends(p, p.len() as int).map_values(|e: int| p.subrange(0, e))
}

/// The directories to create, outermost first, for `mkdir_recursive` of
/// `path` (each is tried in turn, see `mkdir_step`).
pub fn mkdir_prefixes(path: &str) -> (r: Vec<String>)
    ensures
        names(r@) == dir_prefixes(path@),
{
    let n = path.unicode_len();
    let mut out: Vec<String> = Vec::new();
    let mut i: usize = 0;
    while i < n
        invariant
            0 <= i <= n,
            n == path@.len(),
            names(out@) == component_ends(path@, i as int).map_values(|e: int| path@.subrange(0, e)),
        decreases n - i,
    {
        let end = i + 1;
        let is_end = path.get_char(i) != '/' && (end == n || path.get_char(end) == '/');
        let ghost o0 = out@;
        if is_end {
            let piece = String::from_str(path.substring_char(0, end));
            out.push(piece);
            proof {
                assert(ends_component(path@, end as int));
                assert(names(out@) =~= names(o0).push(path@.subrange(0, end as int)));
                assert(component_ends(path@, end as int) == component_ends(path@, i as int).push(end as int));
                assert(component_ends(path@, end as int).map_values(|e: int| path@.subrange(0, e))
                    =~= component_ends(path@, i as int).map_values(|e: int| path@.subrange(0, e))
                        .push(path@.subrange(0, end as int)));
            }
        } else {
            proof {
                assert(!ends_component(path@, end as int));
                assert(component_ends(path@, end as int) == component_ends(path@, i as int));
            }
        }
        i = end;
    }
    out
}

/// Whether `mkdir_recursive` has nothing to create: the path already is a
/// directory.
pub fn mkdir_recursive_done(existing: &UvResult<FileType>) -> (r: bool)
    ensures
        r == (*existing == Ok::<FileType, UvError>(FileType::TypeDirectory)),
{
    match existing {
        Ok(k) => *k == FileType::TypeDirectory,
        Err(_) => false,
    }
}

/// Removing something that is already gone is no error.
pub fn ignore_missing(r: UvResult<()>) -> (o: UvResult<()>)
    ensures
        o == (if r == Err::<(), UvError>(UvError(ENOENT)) { Ok::<(), UvError>(()) } else { r }),
{
    match r {
        Err(e) => if e.0 == ENOENT {
            assert(r == Err::<(), UvError>(UvError(ENOENT)));
            Ok(())
        } else {
            assert(r != Err::<(), UvError>(UvError(ENOENT)));
            Err(e)
        },
        Ok(u) => Ok(u),
    }
}

/// A file can only be copied from a regular file.
pub fn copy_check(kind: FileType) -> (r: UvResult<()>)
    ensures
        r == (if kind == FileType::TypeFile { Ok::<(), UvError>(()) } else { Err::<(), UvError>(UvError(EINVAL)) }),
{
    if kind == FileType::TypeFile { Ok(()) } else { Err(UvError(EINVAL)) }
}

/// One read of `copy`: `Some(n)` bytes to write on, `None` at the end of the
/// source; any other error ends the copy.
pub fn copy_step(read: UvResult<usize>) -> (r: UvResult<Option<usize>>)
    ensures
        r == (match read {
            Ok(n) => Ok::<Option<usize>, UvError>(Some(n)),
            Err(e) => if e.0 == EOF { Ok::<Option<usize>, UvError>(None) } else { Err::<Option<usize>, UvError>(e) },
        }),
{
    match read {
        Ok(n) => Ok(Some(n)),
        Err(e) => if e.0 == EOF { Ok(None) } else { Err(e) },
    }
}

pub open spec fn names(s: Seq<String>) -> Seq<Seq<char>> {
    s.map_values(|x: String| x@)
}

pub open spec fn is_dir_entry() -> spec_fn((Seq<char>, bool)) -> bool {
    |e: (Seq<char>, bool)| e.1
}

pub open spec fn is_other_entry() -> spec_fn((Seq<char>, bool)) -> bool {
    |e: (Seq<char>, bool)| !e.1
}

pub open spec fn entry_view(c: Seq<(String, bool)>) -> Seq<(Seq<char>, bool)> {
    c.map_values(|e: (String, bool)| (e.0@, e.1))
}

pub open spec fn entry_names(c: Seq<(Seq<char>, bool)>) -> Seq<Seq<char>> {
    c.map_values(|e: (Seq<char>, bool)| e.0)
}

/// What one listing leads `rmdir_recursive` to do.
#[derive(Debug)]
pub struct RmdirStep {
    /// The files to unlink.
    pub unlink: Vec<String>,
    /// The directory to remove, once it is empty.
    pub rmdir: Option<String>,
}

/// Removing a directory tree depth first: the stack of directories still to
/// empty, the deepest last.
#[derive(Debug)]
pub struct RmdirRecursive {
    stack: Vec<String>,
}

impl RmdirRecursive {
    pub closed spec fn stack(&self) -> Seq<Seq<char>> {
        names(self.stack@)
    }

    pub fn rmdir_recursive(path: String) -> (r: RmdirRecursive)
        ensures
            r.stack() == seq![path@],
    {
        let mut stack: Vec<String> = Vec::new();
        stack.push(path);
        proof {
            assert(names(stack@) =~= seq![path@]);
        }
        RmdirRecursive { stack }
    }

    pub fn is_done(&self) -> (r: bool)
        ensures
            r == (self.stack().len() == 0),
    {
        self.stack.len() == 0
    }

    /// The directory to list next.
    pub fn current(&self) -> (r: &String)
        requires
            self.stack().len() > 0,
        ensures
            r@ == self.stack().last(),
    {
        &self.stack[self.stack.len() - 1]
    }

    /// The listing of the current directory: each child with whether it is
    /// a directory. Subdirectories go on the stack, in listing order, the
    /// other children are to be unlinked; a directory without
    /// subdirectories leaves the stack, to be removed.
    pub fn on_listing(&mut self, children: Vec<(String, bool)>) -> (r: RmdirStep)
        requires
            old(self).stack().len() > 0,
        ensures
            names(r.unlink@) == entry_names(entry_view(children@).filter(is_other_entry())),
            ({
                let dirs = entry_names(entry_view(children@).filter(is_dir_entry()));
                if dirs.len() > 0 {
                    final(self).stack() == old(self).stack() + dirs && r.rmdir.is_none()
                } else {
                    final(self).stack() == old(self).stack().drop_last()
                        && r.rmdir.is_some() && r.rmdir.unwrap()@ == old(self).stack().last()
                }
            }),
    {
        let ghost cv = entry_view(children@);
        let ghost st0 = self.stack();
        let mut unlink: Vec<String> = Vec::new();
        let mut dirs: Vec<String> = Vec::new();
        let mut rest = children;
        let mut k: usize = 0;
        let n = rest.len();
        while rest.len() > 0
            invariant
                n == cv.len(),
                k + rest@.len() == n,
                entry_view(rest@) == cv.subrange(k as int, n as int),
                names(unlink@) == entry_names(cv.subrange(0, k as int).filter(is_other_entry())),
                names(dirs@) == entry_names(cv.subrange(0, k as int).filter(is_dir_entry())),
                self.stack() == st0,
            decreases rest.len(),
        {
            let ghost before = entry_view(rest@);
            let ghost u0 = unlink@;
            let ghost d0 = dirs@;
            let (name, is_dir) = rest.remove(0);
            let ghost e = (name@, is_dir);
            let ghost pre = cv.subrange(0, k as int);
            let ghost post = cv.subrange(0, k as int + 1);
            proof {
                assert(before[0] == e);
                assert(entry_view(rest@) =~= before.drop_first());
                assert(cv[k as int] == e) by {
                    assert(before[0] == cv.subrange(k as int, n as int)[0]);
                }
                assert(post.drop_last() =~= pre);
                assert(post.last() == e);
                reveal(Seq::filter);
            }
            if is_dir {
                dirs.push(name);
                proof {
                    assert(post.filter(is_dir_entry()) == pre.filter(is_dir_entry()).push(e));
                    assert(post.filter(is_other_entry()) == pre.filter(is_other_entry()));
                    assert(names(dirs@) =~= names(d0).push(e.0));
                    assert(entry_names(pre.filter(is_dir_entry()).push(e))
                        =~= entry_names(pre.filter(is_dir_entry())).push(e.0));
                }
            } else {
                unlink.push(name);
                proof {
                    assert(post.filter(is_dir_entry()) == pre.filter(is_dir_entry()));
                    assert(post.filter(is_other_entry()) == pre.filter(is_other_entry()).push(e));
                    assert(names(unlink@) =~= names(u0).push(e.0));
                    assert(entry_names(pre.filter(is_other_entry()).push(e))
                        =~= entry_names(pre.filter(is_other_entry())).push(e.0));
                }
            }
            k += 1;
            proof {
                assert(entry_view(rest@) =~= cv.subrange(k as int, n as int));
            }
        }
        proof {
            assert(cv.subrange(0, k as int) =~= cv);
        }
        if dirs.len() > 0 {
            let ghost s0 = self.stack@;
            let ghost dv = dirs@;
            self.stack.append(&mut dirs);
            proof {
                assert(self.stack@ =~= s0 + dv);
                assert(names(self.stack@) =~= names(s0) + names(dv));
            }
            RmdirStep { unlink, rmdir: None }
        } else {
            let ghost s0 = self.stack@;
            let d = self.stack.pop().unwrap();
            proof {
                assert(names(self.stack@) =~= names(s0).drop_last());
            }
            RmdirStep { unlink, rmdir: Some(d) }
        }
    }
}

pub const SEEK_SET: i32 = 0;
pub const SEEK_CUR: i32 = 1;
pub const SEEK_END: i32 = 2;

#[derive(Clone, Copy, Debug, PartialEq, Eq, Structural)]
pub enum SeekStyle {
    SeekSet,
    SeekCur,
    SeekEnd,
}

/// The `whence` of a seek.
pub fn seek_whence(style: SeekStyle) -> (r: i32)
    ensures
        r == (match style {
            SeekStyle::SeekSet => SEEK_SET,
            SeekStyle::SeekCur => SEEK_CUR,
            SeekStyle::SeekEnd => SEEK_END,
        }),
{
    match style {
        SeekStyle::SeekSet => SEEK_SET,
        SeekStyle::SeekCur => SEEK_CUR,
        SeekStyle::SeekEnd => SEEK_END,
    }
}

/// The new offset after a seek, `None` when the seek failed (-1).
pub fn seek_result(n: i64) -> (r: Option<u64>)
    ensures
        n == -1 ==> r.is_none(),
        n != -1 ==> r == Some(n as u64),
{
    if n == -1 { None } else { Some(n as u64) }
}

/// An open file: its descriptor and the path it was opened at.
#[derive(Debug)]
pub struct File {
    fd: i32,
    path: String,
}

impl File {
    pub closed spec fn spec_fd(&self) -> i32 {
        self.fd
    }

    pub closed spec fn spec_path(&self) -> Seq<char> {
        self.path@
    }

    /// The file opened at `path`, from the result of its open request: the
    /// descriptor, or the request's error.
    pub fn open_mode_on(path: String, result: i64) -> (r: UvResult<File>)
        requires
            result <= i32::MAX,
        ensures
            result < 0 ==> (r matches Err(e) && e == UvError(result as i32)),
            result >= 0 ==> (r matches Ok(f) && f.spec_fd() == result && f.spec_path() == path@),
    {
        if result < 0 {
            Err(UvError(result as i32))
        } else {
            Ok(File { fd: result as i32, path })
        }
    }

    /// A file over a descriptor opened elsewhere.
    pub fn wrap(fd: i32, path: String) -> (r: File)
        ensures
            r.spec_fd() == fd,
            r.spec_path() == path@,
    {
        File { fd, path }
    }

    pub fn path(&self) -> (r: &String)
        ensures
            r@ == self.spec_path(),
    {
        &self.path
    }

    pub fn fd(&self) -> (r: i32)
        ensures
            r == self.spec_fd(),
    {
        self.fd
    }
}

} // verus!
