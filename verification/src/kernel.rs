use vstd::prelude::*;
use vstd::slice::slice_to_vec;
use crate::error::Error;
use crate::fdesc::{Fd, File, FileDescriptor, Socket};
use crate::flags::FlagSet;
use crate::flags::{OPEN_ACCESS_MODE, OPEN_APPEND, OPEN_CLOSE_ON_EXEC, OPEN_CREATE, OPEN_FAMILY};
use crate::flags::{OPEN_READ_ONLY, OPEN_READ_WRITE, OPEN_WRITE_ONLY};
use crate::mode::Mode;

verus! {

/// The most descriptor-table slots the simulated kernel will hold.
pub const MAX_DESCRIPTORS: usize = 0x0010_0000;

/// The largest file size the simulated kernel will reach: the metadata
/// record reports sizes as signed 64-bit values.
pub const MAX_FILE_SIZE: u64 = 0x7FFF_FFFF_FFFF_FFFF;

/// A file object: the inode-level state a descriptor ultimately reaches.
/// `linked` says whether a directory entry still names it; removing the
/// entry does not disturb descriptors already open on it.
pub struct FileNode {
    pub data: Vec<u8>,
    pub mode: u32,
    pub linked: bool,
    pub name: Vec<u8>,
}

/// One open file description: the state shared by every descriptor cloned
/// from the same opening call, as a duplication command creates.
pub struct Ofd {
    pub status_flags: u32,
    pub res: Resource,
}

/// What an open description is open on.
pub enum Resource {
    File { node: usize, offset: usize },
    Socket { sock: SocketRes },
    Epoll { interest: Vec<Interest> },
}

/// The connection state of a simulated socket.
#[derive(Clone, Copy, Debug, PartialEq, Eq, Structural)]
pub enum SockPhase {
    Fresh,
    Bound,
    Listening,
    Connected,
}

/// A queued socket message: its gathered bytes and its control-message
/// block, if one accompanied it.
pub struct Message {
    pub bytes: Vec<u8>,
    pub anc_level: u32,
    pub anc_ty: u32,
    pub anc_items: Vec<u32>,
}

/// A simulated socket: its state-progression phase, bound address, listen
/// queue, connected peer and received-message queue.
pub struct SocketRes {
    pub phase: SockPhase,
    pub addr: Option<Vec<u8>>,
    pub backlog: u32,
    pub pending: Vec<u32>,
    pub peer: Option<u32>,
    pub inbox: Vec<Message>,
}

/// One entry of an event instance's interest set.
#[derive(Clone, Copy, Debug, PartialEq, Eq, Structural)]
pub struct Interest {
    pub fd: u32,
    pub event: crate::epoll::Event,
}

/// One descriptor-table slot: which open description it reaches, and the
/// per-descriptor flag word.
#[derive(Clone, Copy, Debug, PartialEq, Eq, Structural)]
pub struct DescEntry {
    pub ofd: usize,
    pub fd_flags: u32,
}

/// A memory mapping the simulated kernel has granted.
#[derive(Clone, Copy, Debug, PartialEq, Eq, Structural)]
pub struct Mapping {
    pub addr: usize,
    pub len: usize,
    pub prot: u32,
    pub shared: bool,
}

/// The simulated kernel: a substitutable stand-in for the machine's kernel
///-call capability, holding the process-wide descriptor table, the file
/// objects, the granted mappings, and a log of every release (close) call
/// issued against it. Its state is open for specification and inspection;
/// the operations are the only mutations that preserve well-formedness.
pub struct Kernel {
    pub files: Vec<FileNode>,
    pub ofds: Vec<Ofd>,
    pub descs: Vec<Option<DescEntry>>,
    pub releases: Vec<u32>,
    pub maps: Vec<Mapping>,
    pub next_map_addr: usize,
}

impl Kernel {
    /// Well-formedness of the kernel state: the descriptor table is bounded
    /// and reaches existing open descriptions, every file description's
    /// offset lies within its file, and no file outgrows the size its
    /// metadata record can report.
    pub open spec fn wf(&self) -> bool {
        &&& self.descs@.len() <= MAX_DESCRIPTORS
        &&& forall|i: int|
            0 <= i < self.descs@.len() ==> ((#[trigger] self.descs@[i]) matches Some(d)
                ==> d.ofd < self.ofds@.len())
        &&& forall|j: int|
            0 <= j < self.ofds@.len() ==> ((#[trigger] self.ofds@[j]).res matches Resource::File {
                node,
                offset,
            } ==> node < self.files@.len() && offset <= self.files@[node as int].data@.len())
        &&& forall|n: int|
            0 <= n < self.files@.len() ==> (#[trigger] self.files@[n]).data@.len() <= MAX_FILE_SIZE
    }

    /// A freshly booted simulated kernel: nothing open, nothing mapped,
    /// no release issued.
    pub fn new() -> (r: Kernel)
        ensures
            r.wf(),
            r.files@.len() == 0,
            r.ofds@.len() == 0,
            r.descs@.len() == 0,
            r.releases@.len() == 0,
            r.maps@.len() == 0,
    {
        Kernel {
            files: Vec::new(),
            ofds: Vec::new(),
            descs: Vec::new(),
            releases: Vec::new(),
            maps: Vec::new(),
            next_map_addr: 0x1000_0000,
        }
    }
}

/// The descriptor-table entry a raw descriptor number reaches, if any.
pub open spec fn spec_desc(k: Kernel, fd: u32) -> Option<DescEntry> {
    if (fd as int) < k.descs@.len() {
        k.descs@[fd as int]
    } else {
        None
    }
}

/// The first linked file object carrying the given name, or the table's
/// length when no directory entry names it.
pub open spec fn spec_find_linked(files: Seq<FileNode>, path: Seq<u8>, from: int) -> int
    decreases files.len() - from,
{
    if from < 0 || from >= files.len() {
        files.len() as int
    } else if files[from].linked && files[from].name@ == path {
        from
    } else {
        spec_find_linked(files, path, from + 1)
    }
}

/// The first free descriptor-table slot at or above `from`, or the table's
/// length when every slot from there on is taken.
pub open spec fn spec_first_free(descs: Seq<Option<DescEntry>>, from: int) -> int
    decreases descs.len() - from,
{
    if from < 0 || from >= descs.len() {
        descs.len() as int
    } else if descs[from] is None {
        from
    } else {
        spec_first_free(descs, from + 1)
    }
}

/// Placing an entry at a slot: in place when the slot exists, appended when
/// it is the one just past the table's end.
pub open spec fn spec_place(descs: Seq<Option<DescEntry>>, fd: int, e: DescEntry) -> Seq<
    Option<DescEntry>,
> {
    if fd < descs.len() {
        descs.update(fd, Some(e))
    } else {
        descs.push(Some(e))
    }
}

/// The release log after an owner gives its resource up: one new entry when
/// the owner still held it, none when it had already released it.
pub open spec fn spec_release_log(open: bool, log: Seq<u32>, fd: u32) -> Seq<u32> {
    if open {
        log.push(fd)
    } else {
        log
    }
}

/// An owned resource issues exactly one release call over its lifetime.
/// Destruction of an owner that still holds its resource issues the one
/// release; an explicit close issues it instead and marks the owner
/// released, so destruction after the close issues none: the composite of
/// the two adds exactly one entry to the release log either way.
pub proof fn lemma_release_exactly_once(log: Seq<u32>, fd: u32)
    ensures
        spec_release_log(false, spec_release_log(true, log, fd), fd) == log.push(fd),
        spec_release_log(true, log, fd) == log.push(fd),
        spec_release_log(false, log, fd) == log,
{
}

proof fn lemma_find_linked_characterize(files: Seq<FileNode>, path: Seq<u8>, from: int, i: int)
    requires
        0 <= from <= i <= files.len(),
        forall|m: int| from <= m < i ==> !((#[trigger] files[m]).linked && files[m].name@ == path),
        i == files.len() || (files[i].linked && files[i].name@ == path),
    ensures
        spec_find_linked(files, path, from) == i,
    decreases i - from,
{
    if from < i {
        lemma_find_linked_characterize(files, path, from + 1, i);
    }
}

proof fn lemma_first_free_characterize(descs: Seq<Option<DescEntry>>, from: int, i: int)
    requires
        0 <= from <= i <= descs.len(),
        forall|m: int| from <= m < i ==> !((#[trigger] descs[m]) is None),
        i == descs.len() || descs[i] is None,
    ensures
        spec_first_free(descs, from) == i,
    decreases i - from,
{
    if from < i {
        lemma_first_free_characterize(descs, from + 1, i);
    }
}

/// Byte-for-byte equality of two byte runs.
fn bytes_eq(a: &[u8], b: &[u8]) -> (r: bool)
    ensures
        r == (a@ =~= b@),
{
    if a.len() != b.len() {
        return false;
    }
    let n = a.len();
    let mut i: usize = 0;
    while i < n
        invariant
            i <= n,
            n == a@.len() == b@.len(),
            forall|k: int| 0 <= k < i ==> a@[k] == b@[k],
        decreases n - i,
    {
        if *vstd::slice::slice_index_get(a, i) != *vstd::slice::slice_index_get(b, i) {
            return false;
        }
        i += 1;
    }
    proof {
        assert(a@ =~= b@);
    }
    true
}

/// The descriptor-table entry a raw descriptor reaches.
fn lookup_desc(k: &Kernel, fd: u32) -> (r: Option<DescEntry>)
    ensures
        r == spec_desc(*k, fd),
{
    if (fd as usize) < k.descs.len() {
        k.descs[fd as usize]
    } else {
        None
    }
}

/// The first linked file object carrying the given name.
fn find_linked(files: &Vec<FileNode>, path: &[u8]) -> (r: usize)
    ensures
        r == spec_find_linked(files@, path@, 0),
        r <= files@.len(),
        r < files@.len() ==> files@[r as int].linked && files@[r as int].name@ == path@,
    decreases files@.len(),
{
    let n = files.len();
    let mut i: usize = 0;
    while i < n
        invariant
            i <= n,
            n == files@.len(),
            forall|m: int|
                0 <= m < i ==> !((#[trigger] files@[m]).linked && files@[m].name@ == path@),
        decreases n - i,
    {
        if files[i].linked && bytes_eq(files[i].name.as_slice(), path) {
            proof {
                lemma_find_linked_characterize(files@, path@, 0, i as int);
            }
            return i;
        }
        i += 1;
    }
    proof {
        lemma_find_linked_characterize(files@, path@, 0, n as int);
    }
    n
}

/// The first free descriptor slot at or above `from`.
fn first_free(descs: &Vec<Option<DescEntry>>, from: usize) -> (r: usize)
    requires
        from <= descs@.len(),
    ensures
        r == spec_first_free(descs@, from as int),
        from <= r <= descs@.len(),
        r < descs@.len() ==> descs@[r as int] is None,
{
    let n = descs.len();
    let mut i: usize = from;
    while i < n
        invariant
            from <= i <= n,
            n == descs@.len(),
            forall|m: int| from <= m < i ==> !((#[trigger] descs@[m]) is None),
        decreases n - i,
    {
        if descs[i].is_none() {
            proof {
                lemma_first_free_characterize(descs@, from as int, i as int);
            }
            return i;
        }
        i += 1;
    }
    proof {
        lemma_first_free_characterize(descs@, from as int, n as int);
    }
    n
}

/// Open a path. The flag set must belong to the open-call family; with the
/// creation flag a missing path is created as an empty file carrying the
/// given mode, without it a missing path is a no-such-entry failure, and a
/// full descriptor table is a too-many-open-files failure. On success the
/// returned owner holds the lowest free descriptor, reaching a fresh open
/// description at offset zero.
pub fn open(k: &mut Kernel, path: &[u8], flags: FlagSet, mode: Mode) -> (r: Result<File, Error>)
    requires
        old(k).wf(),
        flags.spec_mask() == OPEN_FAMILY,
        flags.is_valid(),
    ensures
        final(k).wf(),
        final(k).releases@ == old(k).releases@,
        final(k).maps@ == old(k).maps@,
        ({
            let ni = spec_find_linked(old(k).files@, path@, 0);
            let fd = spec_first_free(old(k).descs@, 0);
            let creating = ni == old(k).files@.len();
            &&& (creating && flags.spec_bits() & OPEN_CREATE == 0 ==> r == Err::<File, Error>(
                Error::ENOENT,
            ) && *final(k) == *old(k))
            &&& (!(creating && flags.spec_bits() & OPEN_CREATE == 0) && fd == MAX_DESCRIPTORS
                ==> r == Err::<File, Error>(Error::EMFILE) && *final(k) == *old(k))
            &&& (!(creating && flags.spec_bits() & OPEN_CREATE == 0) && fd < MAX_DESCRIPTORS ==> {
                &&& r matches Ok(f) && f.id() == fd && f.is_open()
                &&& final(k).ofds@ == old(k).ofds@.push(
                    Ofd {
                        status_flags: flags.spec_bits(),
                        res: Resource::File { node: ni as usize, offset: 0 },
                    },
                )
                &&& final(k).descs@ == spec_place(
                    old(k).descs@,
                    fd,
                    DescEntry {
                        ofd: old(k).ofds@.len() as usize,
                        fd_flags: if flags.spec_bits() & OPEN_CLOSE_ON_EXEC != 0 {
                            1u32
                        } else {
                            0u32
                        },
                    },
                )
                &&& (creating ==> {
                    &&& final(k).files@.len() == old(k).files@.len() + 1
                    &&& final(k).files@.subrange(0, old(k).files@.len() as int) == old(k).files@
                    &&& final(k).files@.last().data@ == Seq::<u8>::empty()
                    &&& final(k).files@.last().mode == mode.0
                    &&& final(k).files@.last().linked
                    &&& final(k).files@.last().name@ == path@
                })
                &&& (!creating ==> final(k).files@ == old(k).files@)
            })
        }),
{
    let ni = find_linked(&k.files, path);
    let creating = ni == k.files.len();
    if creating && flags.bits() & OPEN_CREATE == 0 {
        return Err(Error::ENOENT);
    }
    let fd = first_free(&k.descs, 0);
    if fd == MAX_DESCRIPTORS {
        return Err(Error::EMFILE);
    }
    if creating {
        k.files.push(
            FileNode { data: Vec::new(), mode: mode.0, linked: true, name: slice_to_vec(path) },
        );
    }
    let ofd_index = k.ofds.len();
    k.ofds.push(Ofd { status_flags: flags.bits(), res: Resource::File { node: ni, offset: 0 } });
    let fd_flags: u32 = if flags.bits() & OPEN_CLOSE_ON_EXEC != 0 {
        1
    } else {
        0
    };
    let entry = DescEntry { ofd: ofd_index, fd_flags };
    if fd < k.descs.len() {
        k.descs[fd] = Some(entry);
    } else {
        k.descs.push(Some(entry));
    }
    proof {
        assert(final(k).files@.subrange(0, old(k).files@.len() as int) =~= old(k).files@);
        assert(final(k).wf());
    }
    Ok(File::from_parts(fd as u32))
}

/// Issue a release (close) call against a raw descriptor. The call is
/// recorded in the release log whatever its result; it succeeds and clears
/// the slot exactly when the descriptor was open, and is a bad-descriptor
/// failure otherwise.
pub fn close<F: FileDescriptor>(k: &mut Kernel, fd: &F) -> (r: Result<(), Error>)
    requires
        old(k).wf(),
    ensures
        final(k).wf(),
        final(k).releases@ == old(k).releases@.push(fd.id()),
        final(k).files@ == old(k).files@,
        final(k).ofds@ == old(k).ofds@,
        final(k).maps@ == old(k).maps@,
        (match spec_desc(*old(k), fd.id()) {
            Some(_) => r == Ok::<(), Error>(()) && final(k).descs@ == old(k).descs@.update(
                fd.id() as int,
                None,
            ),
            None => r == Err::<(), Error>(Error::EBADF) && final(k).descs@ == old(k).descs@,
        }),
{
    let raw = fd.raw();
    k.releases.push(raw);
    if (raw as usize) < k.descs.len() && k.descs[raw as usize].is_some() {
        k.descs[raw as usize] = None;
        Ok(())
    } else {
        Err(Error::EBADF)
    }
}

impl File {
    /// Release the file explicitly. When this owner still holds the
    /// resource, the one release call is issued and the owner is marked
    /// released, so its destruction will issue nothing further; a second
    /// explicit close is a bad-descriptor failure that issues no call.
    pub fn close(&mut self, k: &mut Kernel) -> (r: Result<(), Error>)
        requires
            old(k).wf(),
        ensures
            final(k).wf(),
            final(self).id() == old(self).id(),
            !final(self).is_open(),
            final(k).releases@ == spec_release_log(
                old(self).is_open(),
                old(k).releases@,
                old(self).id(),
            ),
            final(k).files@ == old(k).files@,
            final(k).ofds@ == old(k).ofds@,
            final(k).maps@ == old(k).maps@,
            !old(self).is_open() ==> r == Err::<(), Error>(Error::EBADF) && final(k).descs@ == old(
                k,
            ).descs@,
            old(self).is_open() ==> (match spec_desc(*old(k), old(self).id()) {
                Some(_) => r == Ok::<(), Error>(()) && final(k).descs@ == old(k).descs@.update(
                    old(self).id() as int,
                    None,
                ),
                None => r == Err::<(), Error>(Error::EBADF) && final(k).descs@ == old(k).descs@,
            }),
    {
        if !self.open() {
            return Err(Error::EBADF);
        }
        self.mark_released();
        let fd = self.fd();
        close(k, &fd)
    }

    /// Destruction of the owner at the end of its scope: issue the release
    /// call if the owner still holds the resource, and silently discard the
    /// call's result, since destruction cannot fail upward.
    pub fn release(self, k: &mut Kernel)
        requires
            old(k).wf(),
        ensures
            final(k).wf(),
            final(k).releases@ == spec_release_log(self.is_open(), old(k).releases@, self.id()),
            final(k).files@ == old(k).files@,
            final(k).ofds@ == old(k).ofds@,
            final(k).maps@ == old(k).maps@,
            !self.is_open() ==> final(k).descs@ == old(k).descs@,
            self.is_open() ==> final(k).descs@ == (match spec_desc(*old(k), self.id()) {
                Some(_) => old(k).descs@.update(self.id() as int, None),
                None => old(k).descs@,
            }),
    {
        if self.open() {
            let fd = self.fd();
            let _ = close(k, &fd);
        }
    }
}

/// A byte run with another written over it at an offset: the prefix up to
/// the offset, the new bytes, and whatever tail they did not cover.
pub open spec fn spec_overwrite(data: Seq<u8>, off: int, buf: Seq<u8>) -> Seq<u8>
    recommends
        0 <= off <= data.len(),
{
    data.subrange(0, off) + buf + if off + buf.len() < data.len() {
        data.subrange(off + buf.len(), data.len() as int)
    } else {
        Seq::<u8>::empty()
    }
}

/// What a write call does: a bad-descriptor failure on a descriptor that
/// does not reach a writable open file, a file-too-large failure when the
/// write would pass the largest reportable size, and otherwise acceptance
/// of the whole buffer, written at the description's offset (or at the end,
/// under the append flag), advancing the offset past it.
pub open spec fn spec_write_result(
    pre: Kernel,
    post: Kernel,
    fd: u32,
    buf: Seq<u8>,
    r: Result<usize, Error>,
) -> bool {
    match spec_desc(pre, fd) {
        None => r == Err::<usize, Error>(Error::EBADF) && post == pre,
        Some(d) => match pre.ofds@[d.ofd as int].res {
            Resource::File { node, offset } => {
                let st = pre.ofds@[d.ofd as int].status_flags;
                let data = pre.files@[node as int].data@;
                let off = if st & OPEN_APPEND != 0 {
                    data.len() as int
                } else {
                    offset as int
                };
                if st & OPEN_ACCESS_MODE == OPEN_READ_ONLY {
                    r == Err::<usize, Error>(Error::EBADF) && post == pre
                } else if off + buf.len() > MAX_FILE_SIZE || off + buf.len() > usize::MAX {
                    r == Err::<usize, Error>(Error::EFBIG) && post == pre
                } else {
                    &&& r == Ok::<usize, Error>(buf.len() as usize)
                    &&& post.files@.len() == pre.files@.len()
                    &&& forall|m: int|
                        0 <= m < pre.files@.len() && m != node ==> post.files@[m] == pre.files@[m]
                    &&& post.files@[node as int].data@ == spec_overwrite(data, off, buf)
                    &&& post.files@[node as int].mode == pre.files@[node as int].mode
                    &&& post.files@[node as int].linked == pre.files@[node as int].linked
                    &&& post.files@[node as int].name@ == pre.files@[node as int].name@
                    &&& post.ofds@ == pre.ofds@.update(
                        d.ofd as int,
                        Ofd {
                            status_flags: st,
                            res: Resource::File {
                                node,
                                offset: (off + buf.len()) as usize,
                            },
                        },
                    )
                }
            },
            _ => r == Err::<usize, Error>(Error::EBADF) && post == pre,
        },
    }
}

/// Write a run of bytes to a descriptor. The simulated kernel accepts the
/// whole buffer in one call; the count returned is the buffer's length.
pub fn write<F: FileDescriptor>(k: &mut Kernel, fd: &F, buffer: &[u8]) -> (r: Result<usize, Error>)
    requires
        old(k).wf(),
    ensures
        final(k).wf(),
        final(k).releases@ == old(k).releases@,
        final(k).descs@ == old(k).descs@,
        final(k).maps@ == old(k).maps@,
        spec_write_result(*old(k), *final(k), fd.id(), buffer@, r),
{
    let raw = fd.raw();
    let d = match lookup_desc(k, raw) {
        Some(d) => d,
        None => {
            return Err(Error::EBADF);
        },
    };
    let st = k.ofds[d.ofd].status_flags;
    let (node, off0): (usize, usize) = match &k.ofds[d.ofd].res {
        Resource::File { node, offset } => (*node, *offset),
        _ => {
            return Err(Error::EBADF);
        },
    };
    if st & OPEN_ACCESS_MODE == OPEN_READ_ONLY {
        return Err(Error::EBADF);
    }
    let data_len = k.files[node].data.len();
    let off: usize = if st & OPEN_APPEND != 0 {
        data_len
    } else {
        off0
    };
    let n = buffer.len();
    if (n as u64) > MAX_FILE_SIZE - (off as u64) {
        return Err(Error::EFBIG);
    }
    if n > usize::MAX - off {
        return Err(Error::EFBIG);
    }
    let ghost data0 = k.files@[node as int].data@;
    let mut i: usize = 0;
    while i < n
        invariant
            i <= n,
            n == buffer@.len(),
            node < k.files@.len(),
            off + n <= usize::MAX,
            off as int + n as int <= MAX_FILE_SIZE,
            off <= data0.len(),
            k.files@.len() == old(k).files@.len(),
            forall|m: int| 0 <= m < k.files@.len() && m != node ==> k.files@[m] == old(k).files@[m],
            data0 == old(k).files@[node as int].data@,
            k.files@[node as int].data@ == spec_overwrite(data0, off as int, buffer@.subrange(0, i as int)),
            k.files@[node as int].mode == old(k).files@[node as int].mode,
            k.files@[node as int].linked == old(k).files@[node as int].linked,
            k.files@[node as int].name@ == old(k).files@[node as int].name@,
            k.ofds@ == old(k).ofds@,
            k.descs@ == old(k).descs@,
            k.releases@ == old(k).releases@,
            k.maps@ == old(k).maps@,
            k.next_map_addr == old(k).next_map_addr,
        decreases n - i,
    {
        let b = *vstd::slice::slice_index_get(buffer, i);
        let file = &mut k.files[node];
        if off + i < file.data.len() {
            file.data[off + i] = b;
        } else {
            file.data.push(b);
        }
        proof {
            assert(k.files@[node as int].data@ =~= spec_overwrite(
                data0,
                off as int,
                buffer@.subrange(0, i + 1),
            ));
        }
        i += 1;
    }
    k.ofds[d.ofd] = Ofd { status_flags: st, res: Resource::File { node, offset: off + n } };
    proof {
        assert(buffer@.subrange(0, n as int) =~= buffer@);
        assert(final(k).ofds@ =~= old(k).ofds@.update(
            d.ofd as int,
            Ofd { status_flags: st, res: Resource::File { node, offset: (off + n) as usize } },
        ));
        assert(final(k).wf());
    }
    Ok(n)
}

/// What a read call does: a bad-descriptor failure on a descriptor that
/// does not reach a readable open file, and otherwise the next bytes of the
/// file, copied over the buffer's prefix with the tail left untouched and
/// the description's offset advanced past what was read.
pub open spec fn spec_read_result(
    pre: Kernel,
    post: Kernel,
    fd: u32,
    buf0: Seq<u8>,
    buf1: Seq<u8>,
    r: Result<usize, Error>,
) -> bool {
    match spec_desc(pre, fd) {
        None => r == Err::<usize, Error>(Error::EBADF) && post == pre && buf1 == buf0,
        Some(d) => match pre.ofds@[d.ofd as int].res {
            Resource::File { node, offset } => {
                let st = pre.ofds@[d.ofd as int].status_flags;
                let data = pre.files@[node as int].data@;
                if st & OPEN_ACCESS_MODE == OPEN_WRITE_ONLY {
                    r == Err::<usize, Error>(Error::EBADF) && post == pre && buf1 == buf0
                } else {
                    let n = if data.len() - offset < buf0.len() {
                        data.len() - offset
                    } else {
                        buf0.len() as int
                    };
                    &&& r == Ok::<usize, Error>(n as usize)
                    &&& buf1 == data.subrange(offset as int, offset + n) + buf0.subrange(
                        n,
                        buf0.len() as int,
                    )
                    &&& post.files@ == pre.files@
                    &&& post.ofds@ == pre.ofds@.update(
                        d.ofd as int,
                        Ofd {
                            status_flags: st,
                            res: Resource::File { node, offset: (offset + n) as usize },
                        },
                    )
                }
            },
            _ => r == Err::<usize, Error>(Error::EBADF) && post == pre && buf1 == buf0,
        },
    }
}

/// Read the next available bytes of a descriptor into a buffer. The filled
/// prefix's length is returned; the buffer's tail past it is left exactly
/// as it was, so callers must not assume zeroing.
pub fn read<F: FileDescriptor>(k: &mut Kernel, fd: &F, buffer: &mut Vec<u8>) -> (r: Result<
    usize,
    Error,
>)
    requires
        old(k).wf(),
    ensures
        final(k).wf(),
        final(k).releases@ == old(k).releases@,
        final(k).descs@ == old(k).descs@,
        final(k).maps@ == old(k).maps@,
        spec_read_result(*old(k), *final(k), fd.id(), old(buffer)@, final(buffer)@, r),
{
    let raw = fd.raw();
    let d = match lookup_desc(k, raw) {
        Some(d) => d,
        None => {
            return Err(Error::EBADF);
        },
    };
    let st = k.ofds[d.ofd].status_flags;
    let (node, offset): (usize, usize) = match &k.ofds[d.ofd].res {
        Resource::File { node, offset } => (*node, *offset),
        _ => {
            return Err(Error::EBADF);
        },
    };
    if st & OPEN_ACCESS_MODE == OPEN_WRITE_ONLY {
        return Err(Error::EBADF);
    }
    let avail = k.files[node].data.len() - offset;
    let n: usize = if avail < buffer.len() {
        avail
    } else {
        buffer.len()
    };
    let mut i: usize = 0;
    while i < n
        invariant
            i <= n,
            node < k.files@.len(),
            offset + n <= usize::MAX,
            offset + n <= k.files@[node as int].data@.len(),
            n <= buffer@.len(),
            buffer@.len() == old(buffer)@.len(),
            *k == *old(k),
            forall|m: int|
                0 <= m < i ==> buffer@[m] == k.files@[node as int].data@[offset + m],
            forall|m: int| i <= m < buffer@.len() ==> buffer@[m] == old(buffer)@[m],
        decreases n - i,
    {
        let b = k.files[node].data[offset + i];
        buffer[i] = b;
        i += 1;
    }
    k.ofds[d.ofd] = Ofd { status_flags: st, res: Resource::File { node, offset: offset + n } };
    proof {
        let data = old(k).files@[node as int].data@;
        assert(final(buffer)@ =~= data.subrange(offset as int, offset + n) + old(buffer)@.subrange(
            n as int,
            old(buffer)@.len() as int,
        ));
        assert(final(k).ofds@ =~= old(k).ofds@.update(
            d.ofd as int,
            Ofd {
                status_flags: st,
                res: Resource::File { node, offset: (offset + n) as usize },
            },
        ));
        assert(final(k).wf());
    }
    Ok(n)
}

/// The metadata record the simulated kernel reports for a file object: its
/// index stands as its inode, the size and mode are the object's own, the
/// link count says whether a directory entry still names it, and the fields
/// the simulation does not model (owners, devices, timestamps) are zero.
pub open spec fn spec_stat_fields(f: FileNode, inode: int, st: crate::stat::Stat) -> bool {
    &&& st.device_id == 0
    &&& st.inode == inode as u64
    &&& st.link_count == (if f.linked {
        1u64
    } else {
        0u64
    })
    &&& st.mode == f.mode
    &&& st.uid == 0
    &&& st.gid == 0
    &&& st.device@ == 0
    &&& st.size == f.data@.len()
    &&& st.block_size == 512
    &&& st.blocks == (f.data@.len() + 511) / 512
    &&& st.access_time == 0
    &&& st.access_time_nsec == 0
    &&& st.modify_time == 0
    &&& st.modify_time_nsec == 0
    &&& st.status_change_time == 0
    &&& st.status_change_time_nsec == 0
}

/// What a descriptor-metadata call reports: the record of the file the
/// descriptor reaches, or a bad-descriptor failure.
pub open spec fn spec_fstat_result(k: Kernel, fd: u32, r: Result<crate::stat::Stat, Error>) -> bool {
    match spec_desc(k, fd) {
        None => r == Err::<crate::stat::Stat, Error>(Error::EBADF),
        Some(d) => match k.ofds@[d.ofd as int].res {
            Resource::File { node, offset } => (r matches Ok(st) && spec_stat_fields(
                k.files@[node as int],
                node as int,
                st,
            )),
            _ => r == Err::<crate::stat::Stat, Error>(Error::EBADF),
        },
    }
}

/// What a path-metadata call reports: the record of the linked file the
/// path names, or a no-such-entry failure.
pub open spec fn spec_stat_path_result(
    k: Kernel,
    path: Seq<u8>,
    r: Result<crate::stat::Stat, Error>,
) -> bool {
    let ni = spec_find_linked(k.files@, path, 0);
    if ni == k.files@.len() {
        r == Err::<crate::stat::Stat, Error>(Error::ENOENT)
    } else {
        r matches Ok(st) && spec_stat_fields(k.files@[ni], ni, st)
    }
}

/// The metadata record of one file object.
fn stat_node(k: &Kernel, node: usize) -> (st: crate::stat::Stat)
    requires
        k.wf(),
        node < k.files@.len(),
    ensures
        spec_stat_fields(k.files@[node as int], node as int, st),
{
    let len = k.files[node].data.len();
    let blocks = ((len as u64) + 511) / 512;
    let device = crate::device::Device::new(0, 0);
    proof {
        assert(((0u32 as u64) << 8) | (((0u32 as u64) & 0xFFFF_FF00) << 32) | ((0u32 as u64)
            & 0xFF) == 0) by (bit_vector);
    }
    crate::stat::Stat {
        device_id: 0,
        inode: node as u64,
        link_count: if k.files[node].linked {
            1
        } else {
            0
        },
        mode: k.files[node].mode,
        uid: 0,
        gid: 0,
        device,
        size: len as i64,
        block_size: 512,
        blocks: blocks as i64,
        access_time: 0,
        access_time_nsec: 0,
        modify_time: 0,
        modify_time_nsec: 0,
        status_change_time: 0,
        status_change_time_nsec: 0,
    }
}

/// The metadata record of the file a descriptor reaches. The kernel fills
/// the whole fixed-size record in one call; there is no partial fill.
pub fn fstat<F: FileDescriptor>(k: &Kernel, fd: &F) -> (r: Result<crate::stat::Stat, Error>)
    requires
        k.wf(),
    ensures
        spec_fstat_result(*k, fd.id(), r),
{
    let raw = fd.raw();
    let d = match lookup_desc(k, raw) {
        Some(d) => d,
        None => {
            return Err(Error::EBADF);
        },
    };
    let node: usize = match &k.ofds[d.ofd].res {
        Resource::File { node, offset } => *node,
        _ => {
            return Err(Error::EBADF);
        },
    };
    Ok(stat_node(k, node))
}

/// The metadata record of the linked file a path names, without opening it.
pub fn stat(k: &Kernel, path: &[u8]) -> (r: Result<crate::stat::Stat, Error>)
    requires
        k.wf(),
    ensures
        spec_stat_path_result(*k, path@, r),
{
    let ni = find_linked(&k.files, path);
    if ni == k.files.len() {
        return Err(Error::ENOENT);
    }
    Ok(stat_node(k, ni))
}

/// The metadata record of a path without following symbolic links. The
/// simulated file system holds no symbolic links, so this agrees with
/// `stat` on every path.
pub fn lstat(k: &Kernel, path: &[u8]) -> (r: Result<crate::stat::Stat, Error>)
    requires
        k.wf(),
    ensures
        spec_stat_path_result(*k, path@, r),
{
    stat(k, path)
}

/// Remove a directory entry. The file object itself stays, so descriptors
/// already open on it are unaffected; only the name is gone.
pub fn unlink(k: &mut Kernel, path: &[u8]) -> (r: Result<(), Error>)
    requires
        old(k).wf(),
    ensures
        final(k).wf(),
        final(k).descs@ == old(k).descs@,
        final(k).ofds@ == old(k).ofds@,
        final(k).releases@ == old(k).releases@,
        final(k).maps@ == old(k).maps@,
        ({
            let ni = spec_find_linked(old(k).files@, path@, 0);
            if ni == old(k).files@.len() {
                r == Err::<(), Error>(Error::ENOENT) && *final(k) == *old(k)
            } else {
                &&& r == Ok::<(), Error>(())
                &&& final(k).files@.len() == old(k).files@.len()
                &&& forall|m: int|
                    0 <= m < old(k).files@.len() && m != ni ==> final(k).files@[m] == old(
                        k,
                    ).files@[m]
                &&& !final(k).files@[ni].linked
                &&& final(k).files@[ni].data@ == old(k).files@[ni].data@
                &&& final(k).files@[ni].mode == old(k).files@[ni].mode
                &&& final(k).files@[ni].name@ == old(k).files@[ni].name@
            }
        }),
{
    let ni = find_linked(&k.files, path);
    if ni == k.files.len() {
        return Err(Error::ENOENT);
    }
    let node = &mut k.files[ni];
    node.linked = false;
    proof {
        assert(final(k).wf());
    }
    Ok(())
}

/// Create an anonymous file: a fresh, never-linked file object backed by
/// volatile memory, identified only by an informational name, opened for
/// reading and writing on the lowest free descriptor.
pub fn memfd_create(k: &mut Kernel, name: &[u8], flags: FlagSet) -> (r: Result<File, Error>)
    requires
        old(k).wf(),
        flags.spec_mask() == crate::flags::MEMFD_FAMILY,
        flags.is_valid(),
    ensures
        final(k).wf(),
        final(k).releases@ == old(k).releases@,
        final(k).maps@ == old(k).maps@,
        ({
            let fd = spec_first_free(old(k).descs@, 0);
            &&& (fd == MAX_DESCRIPTORS ==> r == Err::<File, Error>(Error::EMFILE) && *final(k)
                == *old(k))
            &&& (fd < MAX_DESCRIPTORS ==> {
                &&& r matches Ok(f) && f.id() == fd && f.is_open()
                &&& final(k).files@.len() == old(k).files@.len() + 1
                &&& final(k).files@.subrange(0, old(k).files@.len() as int) == old(k).files@
                &&& final(k).files@.last().data@ == Seq::<u8>::empty()
                &&& final(k).files@.last().mode == 0o777
                &&& !final(k).files@.last().linked
                &&& final(k).files@.last().name@ == name@
                &&& final(k).ofds@ == old(k).ofds@.push(
                    Ofd {
                        status_flags: OPEN_READ_WRITE,
                        res: Resource::File { node: old(k).files@.len() as usize, offset: 0 },
                    },
                )
                &&& final(k).descs@ == spec_place(
                    old(k).descs@,
                    fd,
                    DescEntry {
                        ofd: old(k).ofds@.len() as usize,
                        fd_flags: if flags.spec_bits() & crate::flags::MEMFD_CLOSE_ON_EXEC != 0 {
                            1u32
                        } else {
                            0u32
                        },
                    },
                )
            })
        }),
{
    let fd = first_free(&k.descs, 0);
    if fd == MAX_DESCRIPTORS {
        return Err(Error::EMFILE);
    }
    let node = k.files.len();
    k.files.push(FileNode { data: Vec::new(), mode: 0o777, linked: false, name: slice_to_vec(name) });
    let ofd_index = k.ofds.len();
    k.ofds.push(Ofd { status_flags: OPEN_READ_WRITE, res: Resource::File { node, offset: 0 } });
    let fd_flags: u32 = if flags.bits() & crate::flags::MEMFD_CLOSE_ON_EXEC != 0 {
        1
    } else {
        0
    };
    let entry = DescEntry { ofd: ofd_index, fd_flags };
    if fd < k.descs.len() {
        k.descs[fd] = Some(entry);
    } else {
        k.descs.push(Some(entry));
    }
    proof {
        assert(final(k).files@.subrange(0, old(k).files@.len() as int) =~= old(k).files@);
        assert(final(k).wf());
    }
    Ok(File::from_parts(fd as u32))
}

impl File {
    /// Read from the file into a buffer; the filled prefix's length is
    /// returned and the buffer's tail is left untouched.
    pub fn read(&self, k: &mut Kernel, buffer: &mut Vec<u8>) -> (r: Result<usize, Error>)
        requires
            old(k).wf(),
        ensures
            final(k).wf(),
            final(k).releases@ == old(k).releases@,
            final(k).descs@ == old(k).descs@,
            final(k).maps@ == old(k).maps@,
            spec_read_result(*old(k), *final(k), self.id(), old(buffer)@, final(buffer)@, r),
    {
        read(k, self, buffer)
    }

    /// Write the buffer to the file; the count of bytes accepted is
    /// returned.
    pub fn write(&self, k: &mut Kernel, buffer: &[u8]) -> (r: Result<usize, Error>)
        requires
            old(k).wf(),
        ensures
            final(k).wf(),
            final(k).releases@ == old(k).releases@,
            final(k).descs@ == old(k).descs@,
            final(k).maps@ == old(k).maps@,
            spec_write_result(*old(k), *final(k), self.id(), buffer@, r),
    {
        write(k, self, buffer)
    }
}

/// The smaller of two values.
pub open spec fn spec_min(a: int, b: int) -> int {
    if a < b {
        a
    } else {
        b
    }
}

/// One buffer after a scattering call whose earlier buffers consumed
/// `start` source bytes: as much of the rest of the source as fits, then
/// the buffer's untouched tail.
pub open spec fn spec_filled(buf: Seq<u8>, src: Seq<u8>, start: int) -> Seq<u8>
    recommends
        0 <= start <= src.len(),
{
    let take = spec_min(buf.len() as int, src.len() - start);
    src.subrange(start, start + take) + buf.subrange(take, buf.len() as int)
}

/// The source bytes consumed by the first `i` buffers of a scattering
/// call over `avail` available bytes.
pub open spec fn spec_scatter_taken(bufs: Seq<Seq<u8>>, avail: int, i: int) -> int
    decreases i,
{
    if i <= 0 {
        0
    } else {
        let prev = spec_scatter_taken(bufs, avail, i - 1);
        prev + spec_min(bufs[i - 1].len() as int, avail - prev)
    }
}

/// What a scattering call consumes never exceeds what is available, and
/// only grows as buffers are added.
pub proof fn lemma_scatter_taken_bounds(bufs: Seq<Seq<u8>>, avail: int, i: int)
    requires
        avail >= 0,
        0 <= i,
    ensures
        0 <= spec_scatter_taken(bufs, avail, i) <= avail,
    decreases i,
{
    if i > 0 {
        lemma_scatter_taken_bounds(bufs, avail, i - 1);
    }
}

/// The views of a run of mutable buffer descriptors.
pub open spec fn spec_iov_views(iovs: Seq<crate::iovec::IoVecMut>) -> Seq<Seq<u8>> {
    iovs.map_values(|v: crate::iovec::IoVecMut| v@)
}

/// Scatter a source across a run of buffers: each buffer's prefix takes the
/// next source bytes until the source runs out; the aggregate count
/// consumed is returned.
fn scatter_into(iovs: &mut Vec<crate::iovec::IoVecMut>, src: &[u8]) -> (r: usize)
    ensures
        final(iovs)@.len() == old(iovs)@.len(),
        r == spec_scatter_taken(
            spec_iov_views(old(iovs)@),
            src@.len() as int,
            old(iovs)@.len() as int,
        ),
        forall|i: int|
            0 <= i < old(iovs)@.len() ==> (#[trigger] final(iovs)@[i])@ == spec_filled(
                old(iovs)@[i]@,
                src@,
                spec_scatter_taken(spec_iov_views(old(iovs)@), src@.len() as int, i),
            ),
{
    let ghost views = spec_iov_views(old(iovs)@);
    let ghost avail = src@.len() as int;
    let n = iovs.len();
    let mut used: usize = 0;
    let mut i: usize = 0;
    while i < n
        invariant
            i <= n,
            n == iovs@.len() == old(iovs)@.len(),
            views == spec_iov_views(old(iovs)@),
            avail == src@.len() as int,
            used == spec_scatter_taken(views, avail, i as int),
            used <= src@.len(),
            forall|j: int| i <= j < n ==> iovs@[j] == old(iovs)@[j],
            forall|j: int|
                0 <= j < i ==> (#[trigger] iovs@[j])@ == spec_filled(
                    old(iovs)@[j]@,
                    src@,
                    spec_scatter_taken(views, avail, j),
                ),
        decreases n - i,
    {
        let cap = iovs[i].len();
        let remaining = src.len() - used;
        let take = if cap < remaining {
            cap
        } else {
            remaining
        };
        let piece = vstd::slice::slice_subrange(src, used, used + take);
        let iov = &mut iovs[i];
        iov.fill_prefix(piece);
        proof {
            assert(views[i as int] == old(iovs)@[i as int]@);
            assert(spec_scatter_taken(views, avail, i + 1) == used + take);
            assert(iovs@[i as int]@ =~= spec_filled(
                old(iovs)@[i as int]@,
                src@,
                spec_scatter_taken(views, avail, i as int),
            ));
        }
        used += take;
        i += 1;
    }
    used
}

/// What a vectored read does: the same access rules as a scalar read, and
/// on success the file's next bytes scattered across the buffers in order,
/// each buffer's prefix filled and its tail untouched, with the aggregate
/// count returned and the offset advanced past it.
pub open spec fn spec_readv_result(
    pre: Kernel,
    post: Kernel,
    fd: u32,
    bufs0: Seq<Seq<u8>>,
    bufs1: Seq<Seq<u8>>,
    r: Result<usize, Error>,
) -> bool {
    match spec_desc(pre, fd) {
        None => r == Err::<usize, Error>(Error::EBADF) && post == pre && bufs1 == bufs0,
        Some(d) => match pre.ofds@[d.ofd as int].res {
            Resource::File { node, offset } => {
                let st = pre.ofds@[d.ofd as int].status_flags;
                let data = pre.files@[node as int].data@;
                if st & OPEN_ACCESS_MODE == OPEN_WRITE_ONLY {
                    r == Err::<usize, Error>(Error::EBADF) && post == pre && bufs1 == bufs0
                } else {
                    let src = data.subrange(offset as int, data.len() as int);
                    let total = spec_scatter_taken(bufs0, src.len() as int, bufs0.len() as int);
                    &&& r == Ok::<usize, Error>(total as usize)
                    &&& bufs1.len() == bufs0.len()
                    &&& forall|i: int|
                        0 <= i < bufs0.len() ==> #[trigger] bufs1[i] == spec_filled(
                            bufs0[i],
                            src,
                            spec_scatter_taken(bufs0, src.len() as int, i),
                        )
                    &&& post.files@ == pre.files@
                    &&& post.ofds@ == pre.ofds@.update(
                        d.ofd as int,
                        Ofd {
                            status_flags: st,
                            res: Resource::File { node, offset: (offset + total) as usize },
                        },
                    )
                }
            },
            _ => r == Err::<usize, Error>(Error::EBADF) && post == pre && bufs1 == bufs0,
        },
    }
}

/// Vectored read: the same operation as `read`, but scattering the file's
/// next bytes across a run of buffers and returning the aggregate count.
pub fn readv<F: FileDescriptor>(
    k: &mut Kernel,
    fd: &F,
    iovs: &mut Vec<crate::iovec::IoVecMut>,
) -> (r: Result<usize, Error>)
    requires
        old(k).wf(),
    ensures
        final(k).wf(),
        final(k).releases@ == old(k).releases@,
        final(k).descs@ == old(k).descs@,
        final(k).maps@ == old(k).maps@,
        spec_readv_result(
            *old(k),
            *final(k),
            fd.id(),
            spec_iov_views(old(iovs)@),
            spec_iov_views(final(iovs)@),
            r,
        ),
{
    let raw = fd.raw();
    let d = match lookup_desc(k, raw) {
        Some(d) => d,
        None => {
            return Err(Error::EBADF);
        },
    };
    let st = k.ofds[d.ofd].status_flags;
    let (node, offset): (usize, usize) = match &k.ofds[d.ofd].res {
        Resource::File { node, offset } => (*node, *offset),
        _ => {
            return Err(Error::EBADF);
        },
    };
    if st & OPEN_ACCESS_MODE == OPEN_WRITE_ONLY {
        return Err(Error::EBADF);
    }
    let data_len = k.files[node].data.len();
    let src = vstd::slice::slice_subrange(k.files[node].data.as_slice(), offset, data_len);
    let total = scatter_into(iovs, src);
    proof {
        lemma_scatter_taken_bounds(
            spec_iov_views(old(iovs)@),
            data_len - offset,
            old(iovs)@.len() as int,
        );
    }
    k.ofds[d.ofd] = Ofd { status_flags: st, res: Resource::File { node, offset: offset + total } };
    proof {
        assert(final(k).ofds@ =~= old(k).ofds@.update(
            d.ofd as int,
            Ofd {
                status_flags: st,
                res: Resource::File { node, offset: (offset + total) as usize },
            },
        ));
        assert(final(k).wf());
    }
    Ok(total)
}

/// The mathematical view of a queued socket message.
pub struct MsgView {
    pub bytes: Seq<u8>,
    pub anc_level: u32,
    pub anc_ty: u32,
    pub anc_items: Seq<u32>,
}

/// The mathematical view of a simulated socket.
pub struct SockView {
    pub phase: SockPhase,
    pub addr: Option<Seq<u8>>,
    pub backlog: u32,
    pub pending: Seq<u32>,
    pub peer: Option<u32>,
    pub inbox: Seq<MsgView>,
}

/// The view of a queued message.
pub open spec fn spec_msg_view(m: Message) -> MsgView {
    MsgView { bytes: m.bytes@, anc_level: m.anc_level, anc_ty: m.anc_ty, anc_items: m.anc_items@ }
}

/// The view of a simulated socket.
pub open spec fn spec_sock_view(s: SocketRes) -> SockView {
    SockView {
        phase: s.phase,
        addr: match s.addr {
            Some(a) => Some(a@),
            None => None,
        },
        backlog: s.backlog,
        pending: s.pending@,
        peer: s.peer,
        inbox: s.inbox@.map_values(|m: Message| spec_msg_view(m)),
    }
}

/// The view of the socket behind an open-description index.
pub open spec fn spec_ofd_sock(k: Kernel, j: int) -> SockView
    recommends
        0 <= j < k.ofds@.len(),
        k.ofds@[j].res is Socket,
{
    spec_sock_view(k.ofds@[j].res->sock)
}

/// Both open-description tables agree everywhere but the given index.
pub open spec fn spec_ofds_same_except(pre: Seq<Ofd>, post: Seq<Ofd>, j: int) -> bool {
    post.len() == pre.len() && forall|m: int| 0 <= m < pre.len() && m != j ==> post[m] == pre[m]
}

/// Both open-description tables agree everywhere but the two given indices.
pub open spec fn spec_ofds_same_except2(pre: Seq<Ofd>, post: Seq<Ofd>, j1: int, j2: int) -> bool {
    post.len() == pre.len() && forall|m: int|
        0 <= m < pre.len() && m != j1 && m != j2 ==> post[m] == pre[m]
}

/// A well-shaped address blob of the Unix-domain family: at least the
/// little-endian family tag, which must be the Unix-domain value.
pub open spec fn spec_valid_addr(a: Seq<u8>) -> bool {
    a.len() >= 2 && a[0] == 1u8 && a[1] == 0u8
}

/// Whether one open description holds the address: a socket, bound or
/// listening, whose bound blob is exactly the given one.
pub open spec fn spec_holds_addr(o: Ofd, addr: Seq<u8>) -> bool {
    &&& o.res matches Resource::Socket { sock }
    &&& sock.phase == SockPhase::Bound || sock.phase == SockPhase::Listening
    &&& sock.addr matches Some(a)
    &&& a@ == addr
}

/// Whether any socket holds the address, bound or listening.
pub open spec fn spec_addr_in_use(ofds: Seq<Ofd>, addr: Seq<u8>) -> bool {
    exists|j: int| 0 <= j < ofds.len() && spec_holds_addr(#[trigger] ofds[j], addr)
}

/// Whether one open description is a socket listening on the address.
pub open spec fn spec_is_listener(o: Ofd, addr: Seq<u8>) -> bool {
    &&& o.res matches Resource::Socket { sock }
    &&& sock.phase == SockPhase::Listening
    &&& sock.addr matches Some(a)
    &&& a@ == addr
}

/// The first open description listening on the address, or the table's
/// length when none is.
pub open spec fn spec_find_listener(ofds: Seq<Ofd>, addr: Seq<u8>, from: int) -> int
    decreases ofds.len() - from,
{
    if from < 0 || from >= ofds.len() {
        ofds.len() as int
    } else if spec_is_listener(ofds[from], addr) {
        from
    } else {
        spec_find_listener(ofds, addr, from + 1)
    }
}

proof fn lemma_find_listener_characterize(ofds: Seq<Ofd>, addr: Seq<u8>, from: int, i: int)
    requires
        0 <= from <= i <= ofds.len(),
        forall|m: int| from <= m < i ==> !spec_is_listener(#[trigger] ofds[m], addr),
        i == ofds.len() || spec_is_listener(ofds[i], addr),
    ensures
        spec_find_listener(ofds, addr, from) == i,
    decreases i - from,
{
    if from < i {
        lemma_find_listener_characterize(ofds, addr, from + 1, i);
    }
}

/// Whether one open description holds a bound or listening socket at the
/// address.
fn is_addr_holder(o: &Ofd, addr: &[u8]) -> (r: bool)
    ensures
        r == spec_holds_addr(*o, addr@),
{
    match &o.res {
        Resource::Socket { sock } => {
            if !(matches!(sock.phase, SockPhase::Bound) || matches!(
                sock.phase,
                SockPhase::Listening,
            )) {
                return false;
            }
            match &sock.addr {
                Some(a) => bytes_eq(a.as_slice(), addr),
                None => false,
            }
        },
        _ => false,
    }
}

/// Whether any socket holds the address.
fn addr_in_use(ofds: &Vec<Ofd>, addr: &[u8]) -> (r: bool)
    ensures
        r == spec_addr_in_use(ofds@, addr@),
{
    let n = ofds.len();
    let mut i: usize = 0;
    while i < n
        invariant
            i <= n,
            n == ofds@.len(),
            forall|m: int| 0 <= m < i ==> !spec_holds_addr(#[trigger] ofds@[m], addr@),
        decreases n - i,
    {
        if is_addr_holder(&ofds[i], addr) {
            proof {
                assert(spec_addr_in_use(ofds@, addr@));
            }
            return true;
        }
        i += 1;
    }
    false
}

/// The first open description listening on the address.
fn find_listener(ofds: &Vec<Ofd>, addr: &[u8]) -> (r: usize)
    ensures
        r == spec_find_listener(ofds@, addr@, 0),
        r <= ofds@.len(),
        r < ofds@.len() ==> spec_is_listener(ofds@[r as int], addr@),
{
    let n = ofds.len();
    let mut i: usize = 0;
    while i < n
        invariant
            i <= n,
            n == ofds@.len(),
            forall|m: int| 0 <= m < i ==> !spec_is_listener(#[trigger] ofds@[m], addr@),
        decreases n - i,
    {
        let listening = match &ofds[i].res {
            Resource::Socket { sock } => matches!(sock.phase, SockPhase::Listening) && match &sock
                .addr {
                Some(a) => bytes_eq(a.as_slice(), addr),
                None => false,
            },
            _ => false,
        };
        if listening {
            proof {
                lemma_find_listener_characterize(ofds@, addr@, 0, i as int);
            }
            return i;
        }
        i += 1;
    }
    proof {
        lemma_find_listener_characterize(ofds@, addr@, 0, n as int);
    }
    n
}

/// Create a socket. The simulated kernel serves the Unix-domain family
/// with an unspecified protocol; the type word may carry the non-blocking
/// and close-on-exec option bits beside the base type.
pub fn socket(
    k: &mut Kernel,
    domain: crate::sock::Domain,
    ty: crate::sock::Type,
    protocol: crate::sock::Protocol,
) -> (r: Result<Socket, Error>)
    requires
        old(k).wf(),
    ensures
        final(k).wf(),
        final(k).releases@ == old(k).releases@,
        final(k).files@ == old(k).files@,
        final(k).maps@ == old(k).maps@,
        ({
            let base = ty.0 & !(crate::flags::SOCK_NON_BLOCKING | crate::flags::SOCK_CLOSE_ON_EXEC);
            let fd = spec_first_free(old(k).descs@, 0);
            &&& (domain.0 != crate::sock::DOMAIN_UNIX ==> r == Err::<Socket, Error>(
                Error::EAFNOSUPPORT,
            ) && *final(k) == *old(k))
            &&& (domain.0 == crate::sock::DOMAIN_UNIX && base != crate::sock::TYPE_STREAM && base
                != crate::sock::TYPE_DATAGRAM ==> r == Err::<Socket, Error>(Error::EINVAL)
                && *final(k) == *old(k))
            &&& (domain.0 == crate::sock::DOMAIN_UNIX && (base == crate::sock::TYPE_STREAM || base
                == crate::sock::TYPE_DATAGRAM) && protocol.0 != crate::sock::PROTOCOL_UNSPECIFIED
                ==> r == Err::<Socket, Error>(Error::EPROTONOSUPPORT) && *final(k) == *old(k))
            &&& (domain.0 == crate::sock::DOMAIN_UNIX && (base == crate::sock::TYPE_STREAM || base
                == crate::sock::TYPE_DATAGRAM) && protocol.0 == crate::sock::PROTOCOL_UNSPECIFIED
                ==> {
                &&& (fd == MAX_DESCRIPTORS ==> r == Err::<Socket, Error>(Error::EMFILE)
                    && *final(k) == *old(k))
                &&& (fd < MAX_DESCRIPTORS ==> {
                    &&& r matches Ok(s) && s.id() == fd && s.is_open()
                    &&& final(k).ofds@.len() == old(k).ofds@.len() + 1
                    &&& final(k).ofds@.subrange(0, old(k).ofds@.len() as int) == old(k).ofds@
                    &&& final(k).ofds@.last().status_flags == (
                    if ty.0 & crate::flags::SOCK_NON_BLOCKING != 0 {
                        crate::flags::OPEN_NON_BLOCKING
                    } else {
                        0u32
                    })
                    &&& final(k).ofds@.last().res is Socket
                    &&& spec_sock_view(final(k).ofds@.last().res->sock) == (SockView {
                        phase: SockPhase::Fresh,
                        addr: None,
                        backlog: 0,
                        pending: Seq::<u32>::empty(),
                        peer: None,
                        inbox: Seq::<MsgView>::empty(),
                    })
                    &&& final(k).descs@ == spec_place(
                        old(k).descs@,
                        fd,
                        DescEntry {
                            ofd: old(k).ofds@.len() as usize,
                            fd_flags: if ty.0 & crate::flags::SOCK_CLOSE_ON_EXEC != 0 {
                                1u32
                            } else {
                                0u32
                            },
                        },
                    )
                })
            })
        }),
{
    if domain.0 != crate::sock::DOMAIN_UNIX {
        return Err(Error::EAFNOSUPPORT);
    }
    let base = ty.0 & !(crate::flags::SOCK_NON_BLOCKING | crate::flags::SOCK_CLOSE_ON_EXEC);
    if base != crate::sock::TYPE_STREAM && base != crate::sock::TYPE_DATAGRAM {
        return Err(Error::EINVAL);
    }
    if protocol.0 != crate::sock::PROTOCOL_UNSPECIFIED {
        return Err(Error::EPROTONOSUPPORT);
    }
    let fd = first_free(&k.descs, 0);
    if fd == MAX_DESCRIPTORS {
        return Err(Error::EMFILE);
    }
    let ofd_index = k.ofds.len();
    let status: u32 = if ty.0 & crate::flags::SOCK_NON_BLOCKING != 0 {
        crate::flags::OPEN_NON_BLOCKING
    } else {
        0
    };
    k.ofds.push(
        Ofd {
            status_flags: status,
            res: Resource::Socket {
                sock: SocketRes {
                    phase: SockPhase::Fresh,
                    addr: None,
                    backlog: 0,
                    pending: Vec::new(),
                    peer: None,
                    inbox: Vec::new(),
                },
            },
        },
    );
    let fd_flags: u32 = if ty.0 & crate::flags::SOCK_CLOSE_ON_EXEC != 0 {
        1
    } else {
        0
    };
    let entry = DescEntry { ofd: ofd_index, fd_flags };
    if fd < k.descs.len() {
        k.descs[fd] = Some(entry);
    } else {
        k.descs.push(Some(entry));
    }
    proof {
        assert(final(k).ofds@.subrange(0, old(k).ofds@.len() as int) =~= old(k).ofds@);
        assert(spec_sock_view(final(k).ofds@.last().res->sock).pending
            =~= Seq::<u32>::empty());
        assert(spec_sock_view(final(k).ofds@.last().res->sock).inbox
            =~= Seq::<MsgView>::empty());
        assert(final(k).wf());
    }
    Ok(Socket::from_parts(fd as u32))
}

/// What a bind call does: associate a fresh socket with an unclaimed
/// Unix-domain address blob, leaving everything else as it was; descriptors
/// that do not reach a fresh socket, ill-shaped blobs and claimed addresses
/// are the corresponding failures.
pub open spec fn spec_bind_result(
    pre: Kernel,
    post: Kernel,
    fd: u32,
    addr: Seq<u8>,
    r: Result<(), Error>,
) -> bool {
    match spec_desc(pre, fd) {
        None => r == Err::<(), Error>(Error::EBADF) && post == pre,
        Some(d) => match pre.ofds@[d.ofd as int].res {
            Resource::Socket { sock } => {
                if !spec_valid_addr(addr) {
                    r == Err::<(), Error>(Error::EINVAL) && post == pre
                } else if sock.phase != SockPhase::Fresh {
                    r == Err::<(), Error>(Error::EINVAL) && post == pre
                } else if spec_addr_in_use(pre.ofds@, addr) {
                    r == Err::<(), Error>(Error::EADDRINUSE) && post == pre
                } else {
                    &&& r == Ok::<(), Error>(())
                    &&& post.files@ == pre.files@
                    &&& post.descs@ == pre.descs@
                    &&& post.releases@ == pre.releases@
                    &&& post.maps@ == pre.maps@
                    &&& spec_ofds_same_except(pre.ofds@, post.ofds@, d.ofd as int)
                    &&& post.ofds@[d.ofd as int].status_flags == pre.ofds@[d.ofd
                        as int].status_flags
                    &&& post.ofds@[d.ofd as int].res is Socket
                    &&& spec_ofd_sock(post, d.ofd as int) == (SockView {
                        phase: SockPhase::Bound,
                        addr: Some(addr),
                        ..spec_ofd_sock(pre, d.ofd as int)
                    })
                }
            },
            _ => r == Err::<(), Error>(Error::ENOTSOCK) && post == pre,
        },
    }
}

/// Bind a name to a socket: the address blob must be of the Unix-domain
/// family and not yet claimed, and the socket must not have progressed past
/// its fresh state.
pub fn bind<F: FileDescriptor>(k: &mut Kernel, fd: &F, address: &crate::sock::Address) -> (r:
    Result<(), Error>)
    requires
        old(k).wf(),
    ensures
        final(k).wf(),
        spec_bind_result(*old(k), *final(k), fd.id(), address@, r),
{
    let raw = fd.raw();
    let d = match lookup_desc(k, raw) {
        Some(d) => d,
        None => {
            return Err(Error::EBADF);
        },
    };
    let is_sock = matches!(&k.ofds[d.ofd].res, Resource::Socket { .. });
    if !is_sock {
        return Err(Error::ENOTSOCK);
    }
    let ab = address.bytes();
    if ab.len() < 2 || ab[0] != 1 || ab[1] != 0 {
        return Err(Error::EINVAL);
    }
    let fresh = match &k.ofds[d.ofd].res {
        Resource::Socket { sock } => matches!(sock.phase, SockPhase::Fresh),
        _ => false,
    };
    if !fresh {
        return Err(Error::EINVAL);
    }
    if addr_in_use(&k.ofds, ab.as_slice()) {
        return Err(Error::EADDRINUSE);
    }
    let addr_copy = slice_to_vec(ab.as_slice());
    match &mut k.ofds[d.ofd].res {
        Resource::Socket { sock } => {
            sock.phase = SockPhase::Bound;
            sock.addr = Some(addr_copy);
        },
        _ => {},
    }
    proof {
        assert(final(k).wf());
    }
    Ok(())
}

/// What a listen call does: move a bound socket to its listening state with
/// the given backlog, capped at the largest supported, or renew a listening
/// socket's backlog; other states and non-sockets are failures.
pub open spec fn spec_listen_result(
    pre: Kernel,
    post: Kernel,
    fd: u32,
    backlog: u32,
    r: Result<(), Error>,
) -> bool {
    match spec_desc(pre, fd) {
        None => r == Err::<(), Error>(Error::EBADF) && post == pre,
        Some(d) => match pre.ofds@[d.ofd as int].res {
            Resource::Socket { sock } => {
                if sock.phase != SockPhase::Bound && sock.phase != SockPhase::Listening {
                    r == Err::<(), Error>(Error::EINVAL) && post == pre
                } else {
                    &&& r == Ok::<(), Error>(())
                    &&& post.files@ == pre.files@
                    &&& post.descs@ == pre.descs@
                    &&& post.releases@ == pre.releases@
                    &&& post.maps@ == pre.maps@
                    &&& spec_ofds_same_except(pre.ofds@, post.ofds@, d.ofd as int)
                    &&& post.ofds@[d.ofd as int].status_flags == pre.ofds@[d.ofd
                        as int].status_flags
                    &&& post.ofds@[d.ofd as int].res is Socket
                    &&& spec_ofd_sock(post, d.ofd as int) == (SockView {
                        phase: SockPhase::Listening,
                        backlog: if backlog <= crate::sock::MAX_CONNECTIONS {
                            backlog
                        } else {
                            crate::sock::MAX_CONNECTIONS
                        },
                        ..spec_ofd_sock(pre, d.ofd as int)
                    })
                }
            },
            _ => r == Err::<(), Error>(Error::ENOTSOCK) && post == pre,
        },
    }
}

/// Listen for connections on a bound socket, with a backlog capped at the
/// largest the simulated kernel supports.
pub fn listen<F: FileDescriptor>(k: &mut Kernel, fd: &F, backlog: u32) -> (r: Result<(), Error>)
    requires
        old(k).wf(),
    ensures
        final(k).wf(),
        spec_listen_result(*old(k), *final(k), fd.id(), backlog, r),
{
    let raw = fd.raw();
    let d = match lookup_desc(k, raw) {
        Some(d) => d,
        None => {
            return Err(Error::EBADF);
        },
    };
    let ready = match &k.ofds[d.ofd].res {
        Resource::Socket { sock } => matches!(sock.phase, SockPhase::Bound) || matches!(
            sock.phase,
            SockPhase::Listening,
        ),
        _ => {
            return Err(Error::ENOTSOCK);
        },
    };
    if !ready {
        return Err(Error::EINVAL);
    }
    let capped = if backlog <= crate::sock::MAX_CONNECTIONS {
        backlog
    } else {
        crate::sock::MAX_CONNECTIONS
    };
    match &mut k.ofds[d.ofd].res {
        Resource::Socket { sock } => {
            sock.phase = SockPhase::Listening;
            sock.backlog = capped;
        },
        _ => {},
    }
    proof {
        assert(final(k).wf());
    }
    Ok(())
}

/// What a connect call does: move a fresh or bound socket to its connected
/// state and queue it on the listener at the address; its peer link is
/// filled in when the listener accepts. No listener at the address is a
/// connection-refused failure, and a full listen queue is a would-block
/// failure.
pub open spec fn spec_connect_result(
    pre: Kernel,
    post: Kernel,
    fd: u32,
    addr: Seq<u8>,
    r: Result<(), Error>,
) -> bool {
    match spec_desc(pre, fd) {
        None => r == Err::<(), Error>(Error::EBADF) && post == pre,
        Some(d) => match pre.ofds@[d.ofd as int].res {
            Resource::Socket { sock } => {
                if sock.phase == SockPhase::Connected {
                    r == Err::<(), Error>(Error::EISCONN) && post == pre
                } else if sock.phase == SockPhase::Listening {
                    r == Err::<(), Error>(Error::EINVAL) && post == pre
                } else if !spec_valid_addr(addr) {
                    r == Err::<(), Error>(Error::EINVAL) && post == pre
                } else {
                    let lj = spec_find_listener(pre.ofds@, addr, 0);
                    if lj == pre.ofds@.len() {
                        r == Err::<(), Error>(Error::ECONNREFUSED) && post == pre
                    } else if pre.ofds@[lj].res->sock.pending@.len()
                        >= pre.ofds@[lj].res->sock.backlog {
                        r == Err::<(), Error>(Error::EAGAIN) && post == pre
                    } else {
                        &&& r == Ok::<(), Error>(())
                        &&& post.files@ == pre.files@
                        &&& post.descs@ == pre.descs@
                        &&& post.releases@ == pre.releases@
                        &&& post.maps@ == pre.maps@
                        &&& spec_ofds_same_except2(pre.ofds@, post.ofds@, d.ofd as int, lj)
                        &&& post.ofds@[d.ofd as int].status_flags == pre.ofds@[d.ofd
                            as int].status_flags
                        &&& post.ofds@[d.ofd as int].res is Socket
                        &&& spec_ofd_sock(post, d.ofd as int) == (SockView {
                            phase: SockPhase::Connected,
                            ..spec_ofd_sock(pre, d.ofd as int)
                        })
                        &&& post.ofds@[lj].status_flags == pre.ofds@[lj].status_flags
                        &&& post.ofds@[lj].res is Socket
                        &&& spec_ofd_sock(post, lj) == (SockView {
                            pending: spec_ofd_sock(pre, lj).pending.push(fd),
                            ..spec_ofd_sock(pre, lj)
                        })
                    }
                }
            },
            _ => r == Err::<(), Error>(Error::ENOTSOCK) && post == pre,
        },
    }
}

/// Initiate a connection on a socket: queue it on the listener bound to
/// the given Unix-domain address.
pub fn connect<F: FileDescriptor>(k: &mut Kernel, fd: &F, address: &crate::sock::Address) -> (r:
    Result<(), Error>)
    requires
        old(k).wf(),
    ensures
        final(k).wf(),
        spec_connect_result(*old(k), *final(k), fd.id(), address@, r),
{
    let raw = fd.raw();
    let d = match lookup_desc(k, raw) {
        Some(d) => d,
        None => {
            return Err(Error::EBADF);
        },
    };
    match &k.ofds[d.ofd].res {
        Resource::Socket { sock } => {
            if matches!(sock.phase, SockPhase::Connected) {
                return Err(Error::EISCONN);
            }
            if matches!(sock.phase, SockPhase::Listening) {
                return Err(Error::EINVAL);
            }
        },
        _ => {
            return Err(Error::ENOTSOCK);
        },
    }
    let ab = address.bytes();
    if ab.len() < 2 || ab[0] != 1 || ab[1] != 0 {
        return Err(Error::EINVAL);
    }
    let lj = find_listener(&k.ofds, ab.as_slice());
    if lj == k.ofds.len() {
        return Err(Error::ECONNREFUSED);
    }
    let (qlen, backlog): (usize, u32) = match &k.ofds[lj].res {
        Resource::Socket { sock } => (sock.pending.len(), sock.backlog),
        _ => (0, 0),
    };
    if qlen >= backlog as usize {
        return Err(Error::EAGAIN);
    }
    proof {
        assert(lj != d.ofd);
    }
    match &mut k.ofds[d.ofd].res {
        Resource::Socket { sock } => {
            sock.phase = SockPhase::Connected;
        },
        _ => {},
    }
    match &mut k.ofds[lj].res {
        Resource::Socket { sock } => {
            sock.pending.push(raw);
        },
        _ => {},
    }
    proof {
        assert(final(k).wf());
    }
    Ok(())
}

/// What an accept call does: pop the oldest queued connection off a
/// listening socket and mint a fresh connected socket for it, independent
/// of the listening socket's lifetime; where the queued client still is a
/// connected socket awaiting its peer, its peer link is set to the new
/// descriptor. An empty queue is a would-block failure.
pub open spec fn spec_accept_result(
    pre: Kernel,
    post: Kernel,
    fd: u32,
    r: Result<Socket, Error>,
) -> bool {
    match spec_desc(pre, fd) {
        None => r == Err::<Socket, Error>(Error::EBADF) && post == pre,
        Some(d) => match pre.ofds@[d.ofd as int].res {
            Resource::Socket { sock } => {
                if sock.phase != SockPhase::Listening {
                    r == Err::<Socket, Error>(Error::EINVAL) && post == pre
                } else if sock.pending@.len() == 0 {
                    r == Err::<Socket, Error>(Error::EAGAIN) && post == pre
                } else {
                    let newfd = spec_first_free(pre.descs@, 0);
                    if newfd == MAX_DESCRIPTORS {
                        r == Err::<Socket, Error>(Error::EMFILE) && post == pre
                    } else {
                        let c = sock.pending@[0];
                        &&& r matches Ok(s) && s.id() == newfd && s.is_open()
                        &&& post.files@ == pre.files@
                        &&& post.releases@ == pre.releases@
                        &&& post.maps@ == pre.maps@
                        &&& post.descs@ == spec_place(
                            pre.descs@,
                            newfd,
                            DescEntry { ofd: pre.ofds@.len() as usize, fd_flags: 0 },
                        )
                        &&& post.ofds@.len() == pre.ofds@.len() + 1
                        &&& post.ofds@[d.ofd as int].status_flags == pre.ofds@[d.ofd
                            as int].status_flags
                        &&& post.ofds@[d.ofd as int].res is Socket
                        &&& spec_ofd_sock(post, d.ofd as int) == (SockView {
                            pending: spec_ofd_sock(pre, d.ofd as int).pending.drop_first(),
                            ..spec_ofd_sock(pre, d.ofd as int)
                        })
                        &&& post.ofds@.last().status_flags == 0
                        &&& post.ofds@.last().res is Socket
                        &&& spec_sock_view(post.ofds@.last().res->sock) == (SockView {
                            phase: SockPhase::Connected,
                            addr: None,
                            backlog: 0,
                            pending: Seq::<u32>::empty(),
                            peer: Some(c),
                            inbox: Seq::<MsgView>::empty(),
                        })
                        &&& (match spec_desc(pre, c) {
                            Some(cd) => {
                                if pre.ofds@[cd.ofd as int].res is Socket && pre.ofds@[cd.ofd
                                    as int].res->sock.phase == SockPhase::Connected
                                    && pre.ofds@[cd.ofd as int].res->sock.peer is None {
                                    &&& forall|m: int|
                                        0 <= m < pre.ofds@.len() && m != d.ofd && m != cd.ofd
                                            ==> post.ofds@[m] == pre.ofds@[m]
                                    &&& post.ofds@[cd.ofd as int].status_flags == pre.ofds@[cd.ofd
                                        as int].status_flags
                                    &&& post.ofds@[cd.ofd as int].res is Socket
                                    &&& spec_ofd_sock(post, cd.ofd as int) == (SockView {
                                        peer: Some(newfd as u32),
                                        ..spec_ofd_sock(pre, cd.ofd as int)
                                    })
                                } else {
                                    forall|m: int|
                                        0 <= m < pre.ofds@.len() && m != d.ofd ==> post.ofds@[m]
                                            == pre.ofds@[m]
                                }
                            },
                            None => forall|m: int|
                                0 <= m < pre.ofds@.len() && m != d.ofd ==> post.ofds@[m]
                                    == pre.ofds@[m],
                        })
                    }
                }
            },
            _ => r == Err::<Socket, Error>(Error::ENOTSOCK) && post == pre,
        },
    }
}

/// Accept a connection on a listening socket, yielding a new owned
/// connected socket per call.
pub fn accept<F: FileDescriptor>(k: &mut Kernel, fd: &F) -> (r: Result<Socket, Error>)
    requires
        old(k).wf(),
    ensures
        final(k).wf(),
        spec_accept_result(*old(k), *final(k), fd.id(), r),
{
    let raw = fd.raw();
    let d = match lookup_desc(k, raw) {
        Some(d) => d,
        None => {
            return Err(Error::EBADF);
        },
    };
    match &k.ofds[d.ofd].res {
        Resource::Socket { sock } => {
            if !matches!(sock.phase, SockPhase::Listening) {
                return Err(Error::EINVAL);
            }
            if sock.pending.len() == 0 {
                return Err(Error::EAGAIN);
            }
        },
        _ => {
            return Err(Error::ENOTSOCK);
        },
    }
    let newfd = first_free(&k.descs, 0);
    if newfd == MAX_DESCRIPTORS {
        return Err(Error::EMFILE);
    }
    let c: u32 = match &mut k.ofds[d.ofd].res {
        Resource::Socket { sock } => sock.pending.remove(0),
        _ => 0,
    };
    let ofd_index = k.ofds.len();
    k.ofds.push(
        Ofd {
            status_flags: 0,
            res: Resource::Socket {
                sock: SocketRes {
                    phase: SockPhase::Connected,
                    addr: None,
                    backlog: 0,
                    pending: Vec::new(),
                    peer: Some(c),
                    inbox: Vec::new(),
                },
            },
        },
    );
    let entry = DescEntry { ofd: ofd_index, fd_flags: 0 };
    if newfd < k.descs.len() {
        k.descs[newfd] = Some(entry);
    } else {
        k.descs.push(Some(entry));
    }
    if let Some(cd) = lookup_desc(k, c) {
        if cd.ofd != d.ofd && cd.ofd != ofd_index {
            let client_waiting = match &k.ofds[cd.ofd].res {
                Resource::Socket { sock } => matches!(sock.phase, SockPhase::Connected)
                    && sock.peer.is_none(),
                _ => false,
            };
            if client_waiting {
                match &mut k.ofds[cd.ofd].res {
                    Resource::Socket { sock } => {
                        sock.peer = Some(newfd as u32);
                    },
                    _ => {},
                }
            }
        }
    }
    proof {
        assert(spec_sock_view(final(k).ofds@.last().res->sock).pending =~= Seq::<u32>::empty());
        assert(spec_sock_view(final(k).ofds@.last().res->sock).inbox =~= Seq::<MsgView>::empty());
        assert(final(k).wf());
    }
    Ok(Socket::from_parts(newfd as u32))
}

/// A run of byte buffers gathered into one byte run, in order.
pub open spec fn spec_gather(bufs: Seq<Seq<u8>>) -> Seq<u8>
    decreases bufs.len(),
{
    if bufs.len() == 0 {
        Seq::<u8>::empty()
    } else {
        spec_gather(bufs.drop_last()) + bufs.last()
    }
}

/// The views of a run of immutable buffer descriptors.
pub open spec fn spec_iov_in_views(iovs: Seq<crate::iovec::IoVec>) -> Seq<Seq<u8>> {
    iovs.map_values(|v: crate::iovec::IoVec| v@)
}

/// Gather the bytes of a run of buffers into one owned run.
fn gather_from(iovs: &Vec<crate::iovec::IoVec>) -> (r: Vec<u8>)
    ensures
        r@ == spec_gather(spec_iov_in_views(iovs@)),
{
    let ghost views = spec_iov_in_views(iovs@);
    let n = iovs.len();
    let mut out: Vec<u8> = Vec::new();
    let mut i: usize = 0;
    while i < n
        invariant
            i <= n,
            n == iovs@.len(),
            views == spec_iov_in_views(iovs@),
            out@ == spec_gather(views.take(i as int)),
        decreases n - i,
    {
        let piece = iovs[i].bytes();
        let m = piece.len();
        let mut j: usize = 0;
        while j < m
            invariant
                j <= m,
                i < n,
                n == iovs@.len(),
                m == iovs@[i as int]@.len(),
                views == spec_iov_in_views(iovs@),
                piece@ == iovs@[i as int]@,
                out@ == spec_gather(views.take(i as int)) + iovs@[i as int]@.take(j as int),
            decreases m - j,
        {
            let b = piece[j];
            out.push(b);
            proof {
                assert(out@ =~= spec_gather(views.take(i as int)) + iovs@[i as int]@.take(
                    j + 1,
                ));
            }
            j += 1;
        }
        proof {
            assert(views.take(i + 1).drop_last() =~= views.take(i as int));
            assert(views.take(i + 1).last() == views[i as int]);
            assert(iovs@[i as int]@.take(m as int) =~= iovs@[i as int]@);
            assert(out@ =~= spec_gather(views.take(i + 1)));
        }
        i += 1;
    }
    proof {
        assert(views.take(n as int) =~= views);
    }
    out
}

/// What a send call does: on a connected socket whose peer still is a
/// connected socket, queue one message on the peer's inbox holding the
/// gathered bytes and the control block, and accept every byte; a socket
/// with no peer link yet is not-connected, and a vanished or closed peer is
/// a broken pipe.
pub open spec fn spec_sendmsg_result(
    pre: Kernel,
    post: Kernel,
    fd: u32,
    payload: Seq<u8>,
    anc: Option<(u32, u32, Seq<u32>)>,
    r: Result<usize, Error>,
) -> bool {
    match spec_desc(pre, fd) {
        None => r == Err::<usize, Error>(Error::EBADF) && post == pre,
        Some(d) => match pre.ofds@[d.ofd as int].res {
            Resource::Socket { sock } => {
                if sock.phase != SockPhase::Connected {
                    r == Err::<usize, Error>(Error::ENOTCONN) && post == pre
                } else {
                    match sock.peer {
                        None => r == Err::<usize, Error>(Error::ENOTCONN) && post == pre,
                        Some(p) => match spec_desc(pre, p) {
                            None => r == Err::<usize, Error>(Error::EPIPE) && post == pre,
                            Some(pd) => {
                                if !(pre.ofds@[pd.ofd as int].res is Socket) || pre.ofds@[pd.ofd
                                    as int].res->sock.phase != SockPhase::Connected {
                                    r == Err::<usize, Error>(Error::EPIPE) && post == pre
                                } else {
                                    let msg = MsgView {
                                        bytes: payload,
                                        anc_level: match anc {
                                            Some(a) => a.0,
                                            None => crate::sock::LEVEL_UNSPECIFIED,
                                        },
                                        anc_ty: match anc {
                                            Some(a) => a.1,
                                            None => crate::sock::ANCILLARY_NONE,
                                        },
                                        anc_items: match anc {
                                            Some(a) => a.2,
                                            None => Seq::<u32>::empty(),
                                        },
                                    };
                                    &&& r matches Ok(n) && n == payload.len()
                                    &&& post.files@ == pre.files@
                                    &&& post.descs@ == pre.descs@
                                    &&& post.releases@ == pre.releases@
                                    &&& post.maps@ == pre.maps@
                                    &&& spec_ofds_same_except(pre.ofds@, post.ofds@, pd.ofd as int)
                                    &&& post.ofds@[pd.ofd as int].status_flags == pre.ofds@[pd.ofd
                                        as int].status_flags
                                    &&& post.ofds@[pd.ofd as int].res is Socket
                                    &&& spec_ofd_sock(post, pd.ofd as int) == (SockView {
                                        inbox: spec_ofd_sock(pre, pd.ofd as int).inbox.push(msg),
                                        ..spec_ofd_sock(pre, pd.ofd as int)
                                    })
                                }
                            },
                        },
                    }
                }
            },
            _ => r == Err::<usize, Error>(Error::ENOTSOCK) && post == pre,
        },
    }
}

/// Send a message to a connected socket's peer: the buffers are gathered
/// in order into one message, with the control block attached when one is
/// given. The message flags are accepted but none alters the simulated
/// delivery. The destination address field is never populated here:
/// connectionless addressed transfer is out of this model's scope.
pub fn sendmsg<F: FileDescriptor>(
    k: &mut Kernel,
    fd: &F,
    iovs: &Vec<crate::iovec::IoVec>,
    ancillary: Option<&crate::sock::Ancillary>,
    flags: FlagSet,
) -> (r: Result<usize, Error>)
    requires
        old(k).wf(),
        flags.spec_mask() == crate::flags::MSG_FAMILY,
        flags.is_valid(),
    ensures
        final(k).wf(),
        spec_sendmsg_result(
            *old(k),
            *final(k),
            fd.id(),
            spec_gather(spec_iov_in_views(iovs@)),
            match ancillary {
                Some(a) => Some((a.spec_level(), a.spec_ty(), a.spec_items())),
                None => None,
            },
            r,
        ),
{
    let raw = fd.raw();
    let d = match lookup_desc(k, raw) {
        Some(d) => d,
        None => {
            return Err(Error::EBADF);
        },
    };
    let peer: Option<u32> = match &k.ofds[d.ofd].res {
        Resource::Socket { sock } => {
            if !matches!(sock.phase, SockPhase::Connected) {
                return Err(Error::ENOTCONN);
            }
            sock.peer
        },
        _ => {
            return Err(Error::ENOTSOCK);
        },
    };
    let p = match peer {
        Some(p) => p,
        None => {
            return Err(Error::ENOTCONN);
        },
    };
    let pd = match lookup_desc(k, p) {
        Some(pd) => pd,
        None => {
            return Err(Error::EPIPE);
        },
    };
    let peer_connected = match &k.ofds[pd.ofd].res {
        Resource::Socket { sock } => matches!(sock.phase, SockPhase::Connected),
        _ => false,
    };
    if !peer_connected {
        return Err(Error::EPIPE);
    }
    let payload = gather_from(iovs);
    let total = payload.len();
    let (anc_level, anc_ty, anc_items): (u32, u32, Vec<u32>) = match ancillary {
        Some(a) => (a.level().0, a.ty().0, slice_to_vec(a.items().as_slice())),
        None => (crate::sock::LEVEL_UNSPECIFIED, crate::sock::ANCILLARY_NONE, Vec::new()),
    };
    proof {
        assert(anc_items@ =~= (match ancillary {
            Some(a) => a.spec_items(),
            None => Seq::<u32>::empty(),
        }));
    }
    let msg = Message { bytes: payload, anc_level, anc_ty, anc_items };
    match &mut k.ofds[pd.ofd].res {
        Resource::Socket { sock } => {
            sock.inbox.push(msg);
        },
        _ => {},
    }
    proof {
        assert(spec_ofd_sock(*final(k), pd.ofd as int).inbox =~= spec_ofd_sock(
            *old(k),
            pd.ofd as int,
        ).inbox.push(
            MsgView {
                bytes: spec_gather(spec_iov_in_views(iovs@)),
                anc_level: match ancillary {
                    Some(a) => a.spec_level(),
                    None => crate::sock::LEVEL_UNSPECIFIED,
                },
                anc_ty: match ancillary {
                    Some(a) => a.spec_ty(),
                    None => crate::sock::ANCILLARY_NONE,
                },
                anc_items: match ancillary {
                    Some(a) => a.spec_items(),
                    None => Seq::<u32>::empty(),
                },
            },
        ));
        assert(final(k).wf());
    }
    Ok(total)
}

/// What a receive call does: on a connected socket, take the oldest queued
/// message, scatter its bytes across the buffers in order, and hand at
/// most a slot-run's worth of its control items to the control block; an
/// empty inbox is a would-block failure, surfaced verbatim rather than
/// blocking the simulation.
pub open spec fn spec_recvmsg_result(
    pre: Kernel,
    post: Kernel,
    fd: u32,
    bufs0: Seq<Seq<u8>>,
    bufs1: Seq<Seq<u8>>,
    anc0: (u32, u32, Seq<u32>, nat),
    anc1: (u32, u32, Seq<u32>, nat),
    r: Result<usize, Error>,
) -> bool {
    match spec_desc(pre, fd) {
        None => r == Err::<usize, Error>(Error::EBADF) && post == pre && bufs1 == bufs0 && anc1
            == anc0,
        Some(d) => match pre.ofds@[d.ofd as int].res {
            Resource::Socket { sock } => {
                if sock.phase != SockPhase::Connected {
                    r == Err::<usize, Error>(Error::ENOTCONN) && post == pre && bufs1 == bufs0
                        && anc1 == anc0
                } else if sock.inbox@.len() == 0 {
                    r == Err::<usize, Error>(Error::EAGAIN) && post == pre && bufs1 == bufs0
                        && anc1 == anc0
                } else {
                    let msg = spec_msg_view(sock.inbox@[0]);
                    let kept = spec_min(msg.anc_items.len() as int, anc0.3 as int);
                    let total = spec_scatter_taken(bufs0, msg.bytes.len() as int, bufs0.len() as int);
                    &&& r matches Ok(n) && n == total
                    &&& bufs1.len() == bufs0.len()
                    &&& forall|i: int|
                        0 <= i < bufs0.len() ==> #[trigger] bufs1[i] == spec_filled(
                            bufs0[i],
                            msg.bytes,
                            spec_scatter_taken(bufs0, msg.bytes.len() as int, i),
                        )
                    &&& anc1 == (msg.anc_level, msg.anc_ty, msg.anc_items.subrange(0, kept), anc0.3)
                    &&& post.files@ == pre.files@
                    &&& post.descs@ == pre.descs@
                    &&& post.releases@ == pre.releases@
                    &&& post.maps@ == pre.maps@
                    &&& spec_ofds_same_except(pre.ofds@, post.ofds@, d.ofd as int)
                    &&& post.ofds@[d.ofd as int].status_flags == pre.ofds@[d.ofd
                        as int].status_flags
                    &&& post.ofds@[d.ofd as int].res is Socket
                    &&& spec_ofd_sock(post, d.ofd as int) == (SockView {
                        inbox: spec_ofd_sock(pre, d.ofd as int).inbox.drop_first(),
                        ..spec_ofd_sock(pre, d.ofd as int)
                    })
                }
            },
            _ => r == Err::<usize, Error>(Error::ENOTSOCK) && post == pre && bufs1 == bufs0 && anc1
                == anc0,
        },
    }
}

/// The view of a control block together with its slot count.
pub open spec fn spec_anc_view(a: crate::sock::Ancillary) -> (u32, u32, Seq<u32>, nat) {
    (a.spec_level(), a.spec_ty(), a.spec_items(), a.spec_capacity())
}

/// Receive a message from a connected socket: the oldest queued message's
/// bytes are scattered across the buffers, and its control items fill the
/// control block up to the block's slot count. Pass a zero-slot block when
/// no control data is expected. The message flags are accepted but none
/// alters the simulated delivery; the source address is never populated.
pub fn recvmsg<F: FileDescriptor>(
    k: &mut Kernel,
    fd: &F,
    iovs: &mut Vec<crate::iovec::IoVecMut>,
    ancillary: &mut crate::sock::Ancillary,
    flags: FlagSet,
) -> (r: Result<usize, Error>)
    requires
        old(k).wf(),
        flags.spec_mask() == crate::flags::MSG_FAMILY,
        flags.is_valid(),
    ensures
        final(k).wf(),
        final(ancillary).spec_capacity() == old(ancillary).spec_capacity(),
        spec_recvmsg_result(
            *old(k),
            *final(k),
            fd.id(),
            spec_iov_views(old(iovs)@),
            spec_iov_views(final(iovs)@),
            spec_anc_view(*old(ancillary)),
            spec_anc_view(*final(ancillary)),
            r,
        ),
{
    let raw = fd.raw();
    let d = match lookup_desc(k, raw) {
        Some(d) => d,
        None => {
            return Err(Error::EBADF);
        },
    };
    match &k.ofds[d.ofd].res {
        Resource::Socket { sock } => {
            if !matches!(sock.phase, SockPhase::Connected) {
                return Err(Error::ENOTCONN);
            }
            if sock.inbox.len() == 0 {
                return Err(Error::EAGAIN);
            }
        },
        _ => {
            return Err(Error::ENOTSOCK);
        },
    }
    let msg: Message = match &mut k.ofds[d.ofd].res {
        Resource::Socket { sock } => sock.inbox.remove(0),
        _ => {
            return Err(Error::ENOTSOCK);
        },
    };
    let total = scatter_into(iovs, msg.bytes.as_slice());
    let _ = ancillary.fill(msg.anc_level, msg.anc_ty, msg.anc_items);
    proof {
        assert(spec_ofd_sock(*final(k), d.ofd as int).inbox =~= spec_ofd_sock(
            *old(k),
            d.ofd as int,
        ).inbox.drop_first());
        assert(final(k).wf());
    }
    Ok(total)
}

/// The readiness conditions of a descriptor: a file is always writable and
/// is readable while its offset has data ahead of it; a connected socket
/// is always writable and readable while messages are queued; a listening
/// socket is readable while connections are queued; everything else
/// reports nothing.
pub open spec fn spec_ready_bits(k: Kernel, fd: u32) -> u32 {
    match spec_desc(k, fd) {
        None => 0,
        Some(d) => match k.ofds@[d.ofd as int].res {
            Resource::File { node, offset } => {
                if (offset as int) < k.files@[node as int].data@.len() {
                    crate::flags::EVENT_OUTPUT | crate::flags::EVENT_INPUT
                } else {
                    crate::flags::EVENT_OUTPUT
                }
            },
            Resource::Socket { sock } => {
                if sock.phase == SockPhase::Connected {
                    if sock.inbox@.len() > 0 {
                        crate::flags::EVENT_OUTPUT | crate::flags::EVENT_INPUT
                    } else {
                        crate::flags::EVENT_OUTPUT
                    }
                } else if sock.phase == SockPhase::Listening {
                    if sock.pending@.len() > 0 {
                        crate::flags::EVENT_INPUT
                    } else {
                        0u32
                    }
                } else {
                    0u32
                }
            },
            Resource::Epoll { interest } => 0,
        },
    }
}

/// The readiness conditions of a descriptor.
fn ready_bits(k: &Kernel, fd: u32) -> (r: u32)
    requires
        k.wf(),
    ensures
        r == spec_ready_bits(*k, fd),
{
    let d = match lookup_desc(k, fd) {
        Some(d) => d,
        None => {
            return 0;
        },
    };
    match &k.ofds[d.ofd].res {
        Resource::File { node, offset } => {
            if *offset < k.files[*node].data.len() {
                crate::flags::EVENT_OUTPUT | crate::flags::EVENT_INPUT
            } else {
                crate::flags::EVENT_OUTPUT
            }
        },
        Resource::Socket { sock } => {
            if matches!(sock.phase, SockPhase::Connected) {
                if sock.inbox.len() > 0 {
                    crate::flags::EVENT_OUTPUT | crate::flags::EVENT_INPUT
                } else {
                    crate::flags::EVENT_OUTPUT
                }
            } else if matches!(sock.phase, SockPhase::Listening) {
                if sock.pending.len() > 0 {
                    crate::flags::EVENT_INPUT
                } else {
                    0
                }
            } else {
                0
            }
        },
        Resource::Epoll { .. } => 0,
    }
}

/// The first interest-set entry registered for a descriptor, or the set's
/// length when it is not registered.
pub open spec fn spec_find_interest(interest: Seq<Interest>, fd: u32, from: int) -> int
    decreases interest.len() - from,
{
    if from < 0 || from >= interest.len() {
        interest.len() as int
    } else if interest[from].fd == fd {
        from
    } else {
        spec_find_interest(interest, fd, from + 1)
    }
}

proof fn lemma_find_interest_characterize(interest: Seq<Interest>, fd: u32, from: int, i: int)
    requires
        0 <= from <= i <= interest.len(),
        forall|m: int| from <= m < i ==> (#[trigger] interest[m]).fd != fd,
        i == interest.len() || interest[i].fd == fd,
    ensures
        spec_find_interest(interest, fd, from) == i,
    decreases i - from,
{
    if from < i {
        lemma_find_interest_characterize(interest, fd, from + 1, i);
    }
}

fn find_interest(interest: &Vec<Interest>, fd: u32) -> (r: usize)
    ensures
        r == spec_find_interest(interest@, fd, 0),
        r <= interest@.len(),
        r < interest@.len() ==> interest@[r as int].fd == fd,
{
    let n = interest.len();
    let mut i: usize = 0;
    while i < n
        invariant
            i <= n,
            n == interest@.len(),
            forall|m: int| 0 <= m < i ==> (#[trigger] interest@[m]).fd != fd,
        decreases n - i,
    {
        if interest[i].fd == fd {
            proof {
                lemma_find_interest_characterize(interest@, fd, 0, i as int);
            }
            return i;
        }
        i += 1;
    }
    proof {
        lemma_find_interest_characterize(interest@, fd, 0, n as int);
    }
    n
}

/// Open an event-notification instance with an empty interest set, on the
/// lowest free descriptor.
pub fn epoll_create(k: &mut Kernel, flags: FlagSet) -> (r: Result<File, Error>)
    requires
        old(k).wf(),
        flags.spec_mask() == crate::flags::EPOLL_FAMILY,
        flags.is_valid(),
    ensures
        final(k).wf(),
        final(k).releases@ == old(k).releases@,
        final(k).files@ == old(k).files@,
        final(k).maps@ == old(k).maps@,
        ({
            let fd = spec_first_free(old(k).descs@, 0);
            &&& (fd == MAX_DESCRIPTORS ==> r == Err::<File, Error>(Error::EMFILE) && *final(k)
                == *old(k))
            &&& (fd < MAX_DESCRIPTORS ==> {
                &&& r matches Ok(f) && f.id() == fd && f.is_open()
                &&& final(k).ofds@.len() == old(k).ofds@.len() + 1
                &&& final(k).ofds@.subrange(0, old(k).ofds@.len() as int) == old(k).ofds@
                &&& final(k).ofds@.last().status_flags == 0
                &&& final(k).ofds@.last().res is Epoll
                &&& final(k).ofds@.last().res->interest@ == Seq::<Interest>::empty()
                &&& final(k).descs@ == spec_place(
                    old(k).descs@,
                    fd,
                    DescEntry {
                        ofd: old(k).ofds@.len() as usize,
                        fd_flags: if flags.spec_bits() & crate::flags::EPOLL_CLOSE_ON_EXEC != 0 {
                            1u32
                        } else {
                            0u32
                        },
                    },
                )
            })
        }),
{
    let fd = first_free(&k.descs, 0);
    if fd == MAX_DESCRIPTORS {
        return Err(Error::EMFILE);
    }
    let ofd_index = k.ofds.len();
    k.ofds.push(Ofd { status_flags: 0, res: Resource::Epoll { interest: Vec::new() } });
    let fd_flags: u32 = if flags.bits() & crate::flags::EPOLL_CLOSE_ON_EXEC != 0 {
        1
    } else {
        0
    };
    let entry = DescEntry { ofd: ofd_index, fd_flags };
    if fd < k.descs.len() {
        k.descs[fd] = Some(entry);
    } else {
        k.descs.push(Some(entry));
    }
    proof {
        assert(final(k).ofds@.subrange(0, old(k).ofds@.len() as int) =~= old(k).ofds@);
        assert(final(k).ofds@.last().res->interest@ =~= Seq::<Interest>::empty());
        assert(final(k).wf());
    }
    Ok(File::from_parts(fd as u32))
}

/// What a registry-change call does: add a descriptor's interest entry
/// (already-registered is an already-exists failure), remove it or replace
/// it (unregistered is a no-such-entry failure); the instance must be an
/// event instance and the target descriptor must be open.
pub open spec fn spec_epoll_ctl_result(
    pre: Kernel,
    post: Kernel,
    epfd: u32,
    tfd: u32,
    cmd: crate::epoll::Cntl,
    r: Result<(), Error>,
) -> bool {
    match spec_desc(pre, epfd) {
        None => r == Err::<(), Error>(Error::EBADF) && post == pre,
        Some(d) => match pre.ofds@[d.ofd as int].res {
            Resource::Epoll { interest } => {
                if spec_desc(pre, tfd) is None {
                    r == Err::<(), Error>(Error::EBADF) && post == pre
                } else {
                    let idx = spec_find_interest(interest@, tfd, 0);
                    let found = idx < interest@.len();
                    &&& post.files@ == pre.files@
                    &&& post.descs@ == pre.descs@
                    &&& post.releases@ == pre.releases@
                    &&& post.maps@ == pre.maps@
                    &&& (match cmd {
                        crate::epoll::Cntl::Add(e) => {
                            if found {
                                r == Err::<(), Error>(Error::EEXIST) && post == pre
                            } else {
                                &&& r == Ok::<(), Error>(())
                                &&& spec_ofds_same_except(pre.ofds@, post.ofds@, d.ofd as int)
                                &&& post.ofds@[d.ofd as int].status_flags == pre.ofds@[d.ofd
                                    as int].status_flags
                                &&& post.ofds@[d.ofd as int].res is Epoll
                                &&& post.ofds@[d.ofd as int].res->interest@ == interest@.push(
                                    Interest { fd: tfd, event: e },
                                )
                            }
                        },
                        crate::epoll::Cntl::Delete => {
                            if !found {
                                r == Err::<(), Error>(Error::ENOENT) && post == pre
                            } else {
                                &&& r == Ok::<(), Error>(())
                                &&& spec_ofds_same_except(pre.ofds@, post.ofds@, d.ofd as int)
                                &&& post.ofds@[d.ofd as int].status_flags == pre.ofds@[d.ofd
                                    as int].status_flags
                                &&& post.ofds@[d.ofd as int].res is Epoll
                                &&& post.ofds@[d.ofd as int].res->interest@ == interest@.remove(idx)
                            }
                        },
                        crate::epoll::Cntl::Modify(e) => {
                            if !found {
                                r == Err::<(), Error>(Error::ENOENT) && post == pre
                            } else {
                                &&& r == Ok::<(), Error>(())
                                &&& spec_ofds_same_except(pre.ofds@, post.ofds@, d.ofd as int)
                                &&& post.ofds@[d.ofd as int].status_flags == pre.ofds@[d.ofd
                                    as int].status_flags
                                &&& post.ofds@[d.ofd as int].res is Epoll
                                &&& post.ofds@[d.ofd as int].res->interest@ == interest@.update(
                                    idx,
                                    Interest { fd: tfd, event: e },
                                )
                            }
                        },
                    })
                }
            },
            _ => r == Err::<(), Error>(Error::EINVAL) && post == pre,
        },
    }
}

/// Change a descriptor's entry in an event instance's interest set:
/// register it with an event record, unregister it, or replace its record.
pub fn epoll_ctl<E: FileDescriptor, F: FileDescriptor>(
    k: &mut Kernel,
    epoll: &E,
    fd: &F,
    cmd: crate::epoll::Cntl,
) -> (r: Result<(), Error>)
    requires
        old(k).wf(),
    ensures
        final(k).wf(),
        spec_epoll_ctl_result(*old(k), *final(k), epoll.id(), fd.id(), cmd, r),
{
    let epraw = epoll.raw();
    let d = match lookup_desc(k, epraw) {
        Some(d) => d,
        None => {
            return Err(Error::EBADF);
        },
    };
    let is_epoll = matches!(&k.ofds[d.ofd].res, Resource::Epoll { .. });
    if !is_epoll {
        return Err(Error::EINVAL);
    }
    let traw = fd.raw();
    if lookup_desc(k, traw).is_none() {
        return Err(Error::EBADF);
    }
    let (idx, ilen): (usize, usize) = match &k.ofds[d.ofd].res {
        Resource::Epoll { interest } => (find_interest(interest, traw), interest.len()),
        _ => (0, 0),
    };
    let found = idx < ilen;
    match cmd {
        crate::epoll::Cntl::Add(_) => {
            if found {
                return Err(Error::EEXIST);
            }
        },
        crate::epoll::Cntl::Delete | crate::epoll::Cntl::Modify(_) => {
            if !found {
                return Err(Error::ENOENT);
            }
        },
    }
    match &mut k.ofds[d.ofd].res {
        Resource::Epoll { interest } => {
            match cmd {
                crate::epoll::Cntl::Add(e) => {
                    interest.push(Interest { fd: traw, event: e });
                },
                crate::epoll::Cntl::Delete => {
                    let _ = interest.remove(idx);
                },
                crate::epoll::Cntl::Modify(e) => {
                    interest[idx] = Interest { fd: traw, event: e };
                },
            }
        },
        _ => {},
    }
    proof {
        assert(final(k).wf());
    }
    Ok(())
}

/// The filled prefix of ready events a wait call reports: the interest
/// set's entries in registration order whose registered conditions are
/// ready, each carrying the ready subset and the payload chosen at
/// registration time, cut off at the caller's buffer length.
pub open spec fn spec_wait_events(k: Kernel, interest: Seq<Interest>, max: int) -> Seq<
    crate::epoll::Event,
>
    decreases interest.len(),
{
    if interest.len() == 0 || max <= 0 {
        Seq::<crate::epoll::Event>::empty()
    } else {
        let ie = interest.first();
        let rb = spec_ready_bits(k, ie.fd) & ie.event.events;
        if rb != 0 {
            seq![crate::epoll::Event { events: rb, data: ie.event.data }] + spec_wait_events(
                k,
                interest.drop_first(),
                max - 1,
            )
        } else {
            spec_wait_events(k, interest.drop_first(), max)
        }
    }
}

/// Wait on an event instance: report the ready entries of its interest
/// set, up to the given buffer length. The simulation polls: it reports
/// the current readiness immediately for every timeout, the zero timeout's
/// behaviour, rather than blocking; the sentinel timeout that means "wait
/// indefinitely" is accepted like any other.
pub fn epoll_wait<E: FileDescriptor>(k: &Kernel, epoll: &E, max_events: usize, timeout: u32) -> (r:
    Result<Vec<crate::epoll::Event>, Error>)
    requires
        k.wf(),
    ensures
        (match spec_desc(*k, epoll.id()) {
            None => r == Err::<Vec<crate::epoll::Event>, Error>(Error::EBADF),
            Some(d) => match k.ofds@[d.ofd as int].res {
                Resource::Epoll { interest } => (r matches Ok(evs) && evs@ == spec_wait_events(
                    *k,
                    interest@,
                    max_events as int,
                )),
                _ => r == Err::<Vec<crate::epoll::Event>, Error>(Error::EINVAL),
            },
        }),
{
    let epraw = epoll.raw();
    let d = match lookup_desc(k, epraw) {
        Some(d) => d,
        None => {
            return Err(Error::EBADF);
        },
    };
    let interest: &Vec<Interest> = match &k.ofds[d.ofd].res {
        Resource::Epoll { interest } => interest,
        _ => {
            return Err(Error::EINVAL);
        },
    };
    let n = interest.len();
    let mut out: Vec<crate::epoll::Event> = Vec::new();
    let mut i: usize = 0;
    proof {
        assert(interest@.skip(0) =~= interest@);
        assert(out@ + spec_wait_events(*k, interest@.skip(0), max_events - out@.len())
            =~= spec_wait_events(*k, interest@, max_events as int));
    }
    while i < n && out.len() < max_events
        invariant
            i <= n,
            n == interest@.len(),
            out@.len() <= max_events,
            k.wf(),
            spec_wait_events(*k, interest@, max_events as int) == out@ + spec_wait_events(
                *k,
                interest@.skip(i as int),
                max_events - out@.len(),
            ),
        decreases n - i,
    {
        let ie = interest[i];
        let rb = ready_bits(k, ie.fd) & ie.event.events;
        proof {
            assert(interest@.skip(i as int).first() == interest@[i as int]);
            assert(interest@.skip(i as int).drop_first() =~= interest@.skip(i + 1));
        }
        if rb != 0 {
            out.push(crate::epoll::Event { events: rb, data: ie.event.data });
            proof {
                assert(spec_wait_events(*k, interest@, max_events as int) =~= out@
                    + spec_wait_events(*k, interest@.skip(i + 1), max_events - out@.len()));
            }
        }
        i += 1;
    }
    proof {
        if i == n {
            assert(interest@.skip(n as int) =~= Seq::<Interest>::empty());
        }
        assert(out@ =~= spec_wait_events(*k, interest@, max_events as int));
    }
    Ok(out)
}

/// What a descriptor-manipulation call does, by command: duplicate the
/// descriptor to the lowest free slot at or above the given one (sharing
/// the same open description, with the per-descriptor flags cleared), read
/// or replace the per-descriptor flags, or read or replace the open file
/// description's status flags, whose access-mode sub-field is fixed at
/// open time and survives a replacement.
pub open spec fn spec_fcntl_result(
    pre: Kernel,
    post: Kernel,
    fd: u32,
    cmd: crate::fcntl::Fcntl,
    r: Result<u32, Error>,
) -> bool {
    match spec_desc(pre, fd) {
        None => r == Err::<u32, Error>(Error::EBADF) && post == pre,
        Some(d) => match cmd {
            crate::fcntl::Fcntl::DupFd(min) => {
                let start = min.id() as int;
                if start >= MAX_DESCRIPTORS {
                    r == Err::<u32, Error>(Error::EINVAL) && post == pre
                } else {
                    let newfd = if start <= pre.descs@.len() {
                        spec_first_free(pre.descs@, start)
                    } else {
                        start
                    };
                    if newfd >= MAX_DESCRIPTORS {
                        r == Err::<u32, Error>(Error::EMFILE) && post == pre
                    } else {
                        &&& r == Ok::<u32, Error>(newfd as u32)
                        &&& post.files@ == pre.files@
                        &&& post.ofds@ == pre.ofds@
                        &&& post.releases@ == pre.releases@
                        &&& post.maps@ == pre.maps@
                        &&& post.descs@.len() == (if newfd < pre.descs@.len() {
                            pre.descs@.len() as int
                        } else {
                            newfd + 1
                        })
                        &&& forall|m: int|
                            0 <= m < pre.descs@.len() && m != newfd ==> post.descs@[m]
                                == pre.descs@[m]
                        &&& forall|m: int|
                            pre.descs@.len() <= m < post.descs@.len() && m != newfd
                                ==> post.descs@[m] is None
                        &&& post.descs@[newfd] == Some(DescEntry { ofd: d.ofd, fd_flags: 0 })
                    }
                }
            },
            crate::fcntl::Fcntl::GetFd => r == Ok::<u32, Error>(d.fd_flags) && post == pre,
            crate::fcntl::Fcntl::SetFd(f) => {
                &&& r == Ok::<u32, Error>(0)
                &&& post.files@ == pre.files@
                &&& post.ofds@ == pre.ofds@
                &&& post.releases@ == pre.releases@
                &&& post.maps@ == pre.maps@
                &&& post.descs@ == pre.descs@.update(
                    fd as int,
                    Some(DescEntry { ofd: d.ofd, fd_flags: f.spec_bits() }),
                )
            },
            crate::fcntl::Fcntl::GetFl => r == Ok::<u32, Error>(
                pre.ofds@[d.ofd as int].status_flags,
            ) && post == pre,
            crate::fcntl::Fcntl::SetFl(f) => {
                &&& r == Ok::<u32, Error>(0)
                &&& post.files@ == pre.files@
                &&& post.descs@ == pre.descs@
                &&& post.releases@ == pre.releases@
                &&& post.maps@ == pre.maps@
                &&& spec_ofds_same_except(pre.ofds@, post.ofds@, d.ofd as int)
                &&& post.ofds@[d.ofd as int].status_flags == ((pre.ofds@[d.ofd
                    as int].status_flags & OPEN_ACCESS_MODE) | (f.spec_bits() & !OPEN_ACCESS_MODE))
                &&& post.ofds@[d.ofd as int].res == pre.ofds@[d.ofd as int].res
            },
        },
    }
}

/// Manipulate a descriptor: the result is an unsigned word whose meaning
/// depends on the command issued, the duplicated descriptor number or the
/// current flag bits.
pub fn fcntl<F: FileDescriptor>(k: &mut Kernel, fd: &F, cmd: crate::fcntl::Fcntl) -> (r: Result<
    u32,
    Error,
>)
    requires
        old(k).wf(),
    ensures
        final(k).wf(),
        spec_fcntl_result(*old(k), *final(k), fd.id(), cmd, r),
{
    let raw = fd.raw();
    let d = match lookup_desc(k, raw) {
        Some(d) => d,
        None => {
            return Err(Error::EBADF);
        },
    };
    match cmd {
        crate::fcntl::Fcntl::DupFd(min) => {
            let start = min.raw() as usize;
            if start >= MAX_DESCRIPTORS {
                return Err(Error::EINVAL);
            }
            let newfd: usize;
            if start <= k.descs.len() {
                newfd = first_free(&k.descs, start);
                if newfd >= MAX_DESCRIPTORS {
                    return Err(Error::EMFILE);
                }
            } else {
                while k.descs.len() < start
                    invariant
                        old(k).descs@.len() <= k.descs@.len() <= start,
                        start < MAX_DESCRIPTORS,
                        k.descs@.subrange(0, old(k).descs@.len() as int) == old(k).descs@,
                        forall|m: int|
                            old(k).descs@.len() <= m < k.descs@.len() ==> (#[trigger] k.descs@[m])
                                is None,
                        k.files@ == old(k).files@,
                        k.ofds@ == old(k).ofds@,
                        k.releases@ == old(k).releases@,
                        k.maps@ == old(k).maps@,
                        k.next_map_addr == old(k).next_map_addr,
                    decreases start - k.descs.len(),
                {
                    k.descs.push(None);
                    proof {
                        assert(k.descs@.subrange(0, old(k).descs@.len() as int) =~= old(k).descs@);
                    }
                }
                newfd = start;
                proof {
                    assert forall|m: int| 0 <= m < k.descs@.len() implies ((#[trigger] k.descs@[m])
                        matches Some(e) ==> e.ofd < k.ofds@.len()) by {
                        if m < old(k).descs@.len() {
                            assert(k.descs@[m] == k.descs@.subrange(
                                0,
                                old(k).descs@.len() as int,
                            )[m]);
                        }
                    }
                }
            }
            let entry = DescEntry { ofd: d.ofd, fd_flags: 0 };
            let ghost before = k.descs@;
            if newfd < k.descs.len() {
                k.descs[newfd] = Some(entry);
            } else {
                k.descs.push(Some(entry));
            }
            proof {
                assert forall|m: int| 0 <= m < k.descs@.len() implies ((#[trigger] k.descs@[m])
                    matches Some(e) ==> e.ofd < k.ofds@.len()) by {
                    if m != newfd {
                        assert(k.descs@[m] == before[m]);
                    }
                }
                assert(final(k).wf());
            }
            Ok(newfd as u32)
        },
        crate::fcntl::Fcntl::GetFd => Ok(d.fd_flags),
        crate::fcntl::Fcntl::SetFd(f) => {
            k.descs[raw as usize] = Some(DescEntry { ofd: d.ofd, fd_flags: f.bits() });
            proof {
                assert(final(k).wf());
            }
            Ok(0)
        },
        crate::fcntl::Fcntl::GetFl => Ok(k.ofds[d.ofd].status_flags),
        crate::fcntl::Fcntl::SetFl(f) => {
            let st = k.ofds[d.ofd].status_flags;
            let updated = (st & OPEN_ACCESS_MODE) | (f.bits() & !OPEN_ACCESS_MODE);
            let o = &mut k.ofds[d.ofd];
            o.status_flags = updated;
            proof {
                assert(final(k).wf());
            }
            Ok(0)
        },
    }
}

/// Send a control command to a descriptor. The simulated descriptor table
/// reaches no stream device, so every open descriptor answers
/// not-a-typewriter; the command word itself is built by the control-word
/// packing.
pub fn ioctl<F: FileDescriptor>(k: &Kernel, fd: &F, cmd: u32, arg: usize) -> (r: Result<(), Error>)
    requires
        k.wf(),
    ensures
        (match spec_desc(*k, fd.id()) {
            None => r == Err::<(), Error>(Error::EBADF),
            Some(_) => r == Err::<(), Error>(Error::ENOTTY),
        }),
{
    let raw = fd.raw();
    match lookup_desc(k, raw) {
        Some(_) => Err(Error::ENOTTY),
        None => Err(Error::EBADF),
    }
}

/// The page size the simulated kernel grants mappings in.
pub const PAGE_SIZE: usize = 4096;

/// A length rounded up to a whole number of pages.
pub open spec fn spec_round_up_page(len: int) -> int {
    ((len + 4095) / 4096) * 4096
}

fn round_up_page(len: usize) -> (r: usize)
    requires
        len <= usize::MAX - 4095,
    ensures
        r == spec_round_up_page(len as int),
        len <= r,
{
    let q = (len + 4095) / 4096;
    proof {
        vstd::arithmetic::div_mod::lemma_fundamental_div_mod((len + 4095) as int, 4096);
    }
    q * 4096
}

/// The first granted mapping with the given base address and rounded
/// length, or the list's length when there is none.
pub open spec fn spec_find_map(maps: Seq<Mapping>, addr: usize, len: usize, from: int) -> int
    decreases maps.len() - from,
{
    if from < 0 || from >= maps.len() {
        maps.len() as int
    } else if maps[from].addr == addr && maps[from].len == len {
        from
    } else {
        spec_find_map(maps, addr, len, from + 1)
    }
}

proof fn lemma_find_map_characterize(maps: Seq<Mapping>, addr: usize, len: usize, from: int, i: int)
    requires
        0 <= from <= i <= maps.len(),
        forall|m: int|
            from <= m < i ==> !((#[trigger] maps[m]).addr == addr && maps[m].len == len),
        i == maps.len() || (maps[i].addr == addr && maps[i].len == len),
    ensures
        spec_find_map(maps, addr, len, from) == i,
    decreases i - from,
{
    if from < i {
        lemma_find_map_characterize(maps, addr, len, from + 1, i);
    }
}

fn find_map(maps: &Vec<Mapping>, addr: usize, len: usize) -> (r: usize)
    ensures
        r == spec_find_map(maps@, addr, len, 0),
        r <= maps@.len(),
        r < maps@.len() ==> maps@[r as int].addr == addr && maps@[r as int].len == len,
{
    let n = maps.len();
    let mut i: usize = 0;
    while i < n
        invariant
            i <= n,
            n == maps@.len(),
            forall|m: int|
                0 <= m < i ==> !((#[trigger] maps@[m]).addr == addr && maps@[m].len == len),
        decreases n - i,
    {
        if maps[i].addr == addr && maps[i].len == len {
            proof {
                lemma_find_map_characterize(maps@, addr, len, 0, i as int);
            }
            return i;
        }
        i += 1;
    }
    proof {
        lemma_find_map_characterize(maps@, addr, len, 0, n as int);
    }
    n
}

/// What a mapping call does: grant a fresh page-aligned region of the
/// asked-for length rounded up to whole pages, record it, and return its
/// address. The length must be positive, the sharing flags must name
/// exactly one of shared and private, and the descriptor must reach an
/// open file. The caller must track the granted length itself for the
/// later unmap, protect and remap calls: using the region is an unchecked
/// capability this model does not follow.
pub open spec fn spec_mmap_result(
    pre: Kernel,
    post: Kernel,
    fd: u32,
    length: usize,
    prot: u32,
    mflags: u32,
    r: Result<usize, Error>,
) -> bool {
    if length == 0 || !(mflags == crate::flags::MAP_SHARED || mflags == crate::flags::MAP_PRIVATE) {
        r == Err::<usize, Error>(Error::EINVAL) && post == pre
    } else {
        match spec_desc(pre, fd) {
            None => r == Err::<usize, Error>(Error::EBADF) && post == pre,
            Some(d) => {
                if !(pre.ofds@[d.ofd as int].res is File) {
                    r == Err::<usize, Error>(Error::EBADF) && post == pre
                } else {
                    let rl = spec_round_up_page(length as int);
                    if rl > usize::MAX || pre.next_map_addr + rl > usize::MAX {
                        r == Err::<usize, Error>(Error::ENOMEM) && post == pre
                    } else {
                        &&& r == Ok::<usize, Error>(pre.next_map_addr)
                        &&& post.files@ == pre.files@
                        &&& post.ofds@ == pre.ofds@
                        &&& post.descs@ == pre.descs@
                        &&& post.releases@ == pre.releases@
                        &&& post.maps@ == pre.maps@.push(
                            Mapping {
                                addr: pre.next_map_addr,
                                len: rl as usize,
                                prot,
                                shared: mflags == crate::flags::MAP_SHARED,
                            },
                        )
                        &&& post.next_map_addr == pre.next_map_addr + rl
                    }
                }
            },
        }
    }
}

/// Map a file-backed region into the address space. The simulated kernel
/// chooses the address itself, so the address hint is accepted and
/// disregarded, and the region's content is not modeled, only the grant;
/// the offset is likewise bookkeeping the model does not follow.
pub fn mmap<F: FileDescriptor>(
    k: &mut Kernel,
    addr_hint: usize,
    length: usize,
    protection: FlagSet,
    flags: FlagSet,
    fd: &F,
    offset: usize,
) -> (r: Result<usize, Error>)
    requires
        old(k).wf(),
        protection.spec_mask() == crate::flags::PROT_FAMILY,
        protection.is_valid(),
        flags.spec_mask() == crate::flags::MAP_FAMILY,
        flags.is_valid(),
    ensures
        final(k).wf(),
        spec_mmap_result(
            *old(k),
            *final(k),
            fd.id(),
            length,
            protection.spec_bits(),
            flags.spec_bits(),
            r,
        ),
{
    let mflags = flags.bits();
    if length == 0 || !(mflags == crate::flags::MAP_SHARED || mflags == crate::flags::MAP_PRIVATE) {
        return Err(Error::EINVAL);
    }
    let raw = fd.raw();
    let d = match lookup_desc(k, raw) {
        Some(d) => d,
        None => {
            return Err(Error::EBADF);
        },
    };
    let backs_file = matches!(&k.ofds[d.ofd].res, Resource::File { .. });
    if !backs_file {
        return Err(Error::EBADF);
    }
    if length > usize::MAX - 4095 {
        return Err(Error::ENOMEM);
    }
    let rl = round_up_page(length);
    if rl > usize::MAX - k.next_map_addr {
        return Err(Error::ENOMEM);
    }
    let base = k.next_map_addr;
    k.maps.push(
        Mapping { addr: base, len: rl, prot: protection.bits(), shared: mflags == crate::flags::MAP_SHARED },
    );
    k.next_map_addr = base + rl;
    proof {
        assert(final(k).wf());
    }
    Ok(base)
}

/// What an unmap call does: remove the granted region that matches the
/// address and rounded length exactly, or fail without one.
pub open spec fn spec_munmap_result(
    pre: Kernel,
    post: Kernel,
    addr: usize,
    length: usize,
    r: Result<(), Error>,
) -> bool {
    if length == 0 || spec_round_up_page(length as int) > usize::MAX {
        r == Err::<(), Error>(Error::EINVAL) && post == pre
    } else {
        let rl = spec_round_up_page(length as int) as usize;
        let idx = spec_find_map(pre.maps@, addr, rl, 0);
        if idx == pre.maps@.len() {
            r == Err::<(), Error>(Error::EINVAL) && post == pre
        } else {
            &&& r == Ok::<(), Error>(())
            &&& post.files@ == pre.files@
            &&& post.ofds@ == pre.ofds@
            &&& post.descs@ == pre.descs@
            &&& post.releases@ == pre.releases@
            &&& post.next_map_addr == pre.next_map_addr
            &&& post.maps@ == pre.maps@.remove(idx)
        }
    }
}

/// Unmap a granted region. The region must be named exactly as it was
/// granted: the base address and the length it was asked with.
pub fn munmap(k: &mut Kernel, addr: usize, length: usize) -> (r: Result<(), Error>)
    requires
        old(k).wf(),
    ensures
        final(k).wf(),
        spec_munmap_result(*old(k), *final(k), addr, length, r),
{
    if length == 0 || length > usize::MAX - 4095 {
        return Err(Error::EINVAL);
    }
    let rl = round_up_page(length);
    let idx = find_map(&k.maps, addr, rl);
    if idx == k.maps.len() {
        return Err(Error::EINVAL);
    }
    let _ = k.maps.remove(idx);
    proof {
        assert(final(k).wf());
    }
    Ok(())
}

/// What a protection-change call does: replace the recorded protection of
/// the region that matches the address and rounded length exactly, or fail
/// without one, as changing unmapped pages does.
pub open spec fn spec_mprotect_result(
    pre: Kernel,
    post: Kernel,
    addr: usize,
    length: usize,
    prot: u32,
    r: Result<(), Error>,
) -> bool {
    if length == 0 || spec_round_up_page(length as int) > usize::MAX {
        r == Err::<(), Error>(Error::EINVAL) && post == pre
    } else {
        let rl = spec_round_up_page(length as int) as usize;
        let idx = spec_find_map(pre.maps@, addr, rl, 0);
        if idx == pre.maps@.len() {
            r == Err::<(), Error>(Error::ENOMEM) && post == pre
        } else {
            &&& r == Ok::<(), Error>(())
            &&& post.files@ == pre.files@
            &&& post.ofds@ == pre.ofds@
            &&& post.descs@ == pre.descs@
            &&& post.releases@ == pre.releases@
            &&& post.next_map_addr == pre.next_map_addr
            &&& post.maps@ == pre.maps@.update(idx, Mapping { prot, ..pre.maps@[idx] })
        }
    }
}

/// Change the access protection of a granted region, whole pages at a
/// time.
pub fn mprotect(k: &mut Kernel, addr: usize, length: usize, protection: FlagSet) -> (r: Result<
    (),
    Error,
>)
    requires
        old(k).wf(),
        protection.spec_mask() == crate::flags::PROT_FAMILY,
        protection.is_valid(),
    ensures
        final(k).wf(),
        spec_mprotect_result(*old(k), *final(k), addr, length, protection.spec_bits(), r),
{
    if length == 0 || length > usize::MAX - 4095 {
        return Err(Error::EINVAL);
    }
    let rl = round_up_page(length);
    let idx = find_map(&k.maps, addr, rl);
    if idx == k.maps.len() {
        return Err(Error::ENOMEM);
    }
    let shared = k.maps[idx].shared;
    k.maps[idx] = Mapping { addr, len: rl, prot: protection.bits(), shared };
    proof {
        assert(final(k).wf());
    }
    Ok(())
}

/// What a remap call does on the region that matches the old address and
/// rounded old length exactly: shrink it in place, or grow it, which the
/// simulated kernel can only do by moving it, so growth is granted a fresh
/// address when the may-move flag allows it and refused otherwise. Moving
/// invalidates the old address.
pub open spec fn spec_mremap_result(
    pre: Kernel,
    post: Kernel,
    old_addr: usize,
    old_size: usize,
    new_size: usize,
    mayflags: u32,
    r: Result<usize, Error>,
) -> bool {
    if old_size == 0 || new_size == 0 || spec_round_up_page(old_size as int) > usize::MAX
        || spec_round_up_page(new_size as int) > usize::MAX {
        r == Err::<usize, Error>(Error::EINVAL) && post == pre
    } else {
        let oldrl = spec_round_up_page(old_size as int) as usize;
        let newrl = spec_round_up_page(new_size as int) as usize;
        let idx = spec_find_map(pre.maps@, old_addr, oldrl, 0);
        if idx == pre.maps@.len() {
            r == Err::<usize, Error>(Error::EFAULT) && post == pre
        } else if newrl <= oldrl {
            &&& r == Ok::<usize, Error>(old_addr)
            &&& post.files@ == pre.files@
            &&& post.ofds@ == pre.ofds@
            &&& post.descs@ == pre.descs@
            &&& post.releases@ == pre.releases@
            &&& post.next_map_addr == pre.next_map_addr
            &&& post.maps@ == pre.maps@.update(idx, Mapping { len: newrl, ..pre.maps@[idx] })
        } else if mayflags & crate::flags::REMAP_MAY_MOVE == 0 {
            r == Err::<usize, Error>(Error::ENOMEM) && post == pre
        } else if pre.next_map_addr + newrl > usize::MAX {
            r == Err::<usize, Error>(Error::ENOMEM) && post == pre
        } else {
            &&& r == Ok::<usize, Error>(pre.next_map_addr)
            &&& post.files@ == pre.files@
            &&& post.ofds@ == pre.ofds@
            &&& post.descs@ == pre.descs@
            &&& post.releases@ == pre.releases@
            &&& post.maps@ == pre.maps@.update(
                idx,
                Mapping { addr: pre.next_map_addr, len: newrl, ..pre.maps@[idx] },
            )
            &&& post.next_map_addr == pre.next_map_addr + newrl
        }
    }
}

/// Remap a granted region to a new length. Growth needs the may-move
/// flag: when granted, the kernel may relocate the mapping, and the old
/// address is invalid from then on.
pub fn mremap(
    k: &mut Kernel,
    old_addr: usize,
    old_size: usize,
    new_size: usize,
    flags: FlagSet,
) -> (r: Result<usize, Error>)
    requires
        old(k).wf(),
        flags.spec_mask() == crate::flags::REMAP_FAMILY,
        flags.is_valid(),
    ensures
        final(k).wf(),
        spec_mremap_result(*old(k), *final(k), old_addr, old_size, new_size, flags.spec_bits(), r),
{
    if old_size == 0 || new_size == 0 || old_size > usize::MAX - 4095 || new_size > usize::MAX
        - 4095 {
        return Err(Error::EINVAL);
    }
    let oldrl = round_up_page(old_size);
    let newrl = round_up_page(new_size);
    let idx = find_map(&k.maps, old_addr, oldrl);
    if idx == k.maps.len() {
        return Err(Error::EFAULT);
    }
    let m = k.maps[idx];
    if newrl <= oldrl {
        k.maps[idx] = Mapping { addr: m.addr, len: newrl, prot: m.prot, shared: m.shared };
        proof {
            assert(final(k).wf());
        }
        return Ok(old_addr);
    }
    if flags.bits() & crate::flags::REMAP_MAY_MOVE == 0 {
        return Err(Error::ENOMEM);
    }
    if newrl > usize::MAX - k.next_map_addr {
        return Err(Error::ENOMEM);
    }
    let base = k.next_map_addr;
    k.maps[idx] = Mapping { addr: base, len: newrl, prot: m.prot, shared: m.shared };
    k.next_map_addr = base + newrl;
    proof {
        assert(final(k).wf());
    }
    Ok(base)
}

impl Socket {
    /// Release the socket explicitly, with the same single-release
    /// discipline as an owned file.
    pub fn close(&mut self, k: &mut Kernel) -> (r: Result<(), Error>)
        requires
            old(k).wf(),
        ensures
            final(k).wf(),
            final(self).id() == old(self).id(),
            !final(self).is_open(),
            final(k).releases@ == spec_release_log(
                old(self).is_open(),
                old(k).releases@,
                old(self).id(),
            ),
            final(k).files@ == old(k).files@,
            final(k).ofds@ == old(k).ofds@,
            final(k).maps@ == old(k).maps@,
            !old(self).is_open() ==> r == Err::<(), Error>(Error::EBADF) && final(k).descs@ == old(
                k,
            ).descs@,
            old(self).is_open() ==> (match spec_desc(*old(k), old(self).id()) {
                Some(_) => r == Ok::<(), Error>(()) && final(k).descs@ == old(k).descs@.update(
                    old(self).id() as int,
                    None,
                ),
                None => r == Err::<(), Error>(Error::EBADF) && final(k).descs@ == old(k).descs@,
            }),
    {
        if !self.open() {
            return Err(Error::EBADF);
        }
        self.mark_released();
        let fd = self.fd();
        close(k, &fd)
    }

    /// Destruction of the owner at the end of its scope: issue the release
    /// call if the owner still holds the resource, discarding its result.
    pub fn release(self, k: &mut Kernel)
        requires
            old(k).wf(),
        ensures
            final(k).wf(),
            final(k).releases@ == spec_release_log(self.is_open(), old(k).releases@, self.id()),
            final(k).files@ == old(k).files@,
            final(k).ofds@ == old(k).ofds@,
            final(k).maps@ == old(k).maps@,
            !self.is_open() ==> final(k).descs@ == old(k).descs@,
            self.is_open() ==> final(k).descs@ == (match spec_desc(*old(k), self.id()) {
                Some(_) => old(k).descs@.update(self.id() as int, None),
                None => old(k).descs@,
            }),
    {
        if self.open() {
            let fd = self.fd();
            let _ = close(k, &fd);
        }
    }
}

} // verus!
