//! `seccomp-bpf` support on recent Linux kernels.
//!
//! A filter is a classic BPF program over the record that the kernel hands to
//! the filter at each system call. It is assembled from raw instruction words
//! with forward jumps whose offsets are patched once the guarded body is in
//! place. The meaning of an assembled program is given by `run`, a model of the
//! kernel's interpreter restricted to the instructions emitted here.

use vstd::prelude::*;
use crate::profile::{any_of_kind, Operation, OperationKind, Profile};

verus! {

/// The value a filter returns to kill the process.
pub const SECCOMP_RET_KILL: u32 = 0;
/// The value a filter returns to let the system call proceed.
pub const SECCOMP_RET_ALLOW: u32 = 0x7fff_0000;

/// `BPF_LD | BPF_W | BPF_ABS`: load a 32-bit word of the system-call record
/// into the accumulator.
pub const LD_W_ABS: u16 = 0x20;
/// `BPF_JMP | BPF_JEQ | BPF_K`: jump if the accumulator equals `k`.
pub const JMP_JEQ_K: u16 = 0x15;
/// `BPF_JMP | BPF_JSET | BPF_K`: jump if the accumulator has any bit of `k` set.
pub const JMP_JSET_K: u16 = 0x45;
/// `BPF_RET | BPF_K`: return `k`.
pub const RET_K: u16 = 0x06;

/// Offsets of the words of the system-call record.
pub const SYSCALL_NR_OFFSET: u32 = 0;
pub const ARCH_NR_OFFSET: u32 = 4;
pub const ARG_0_OFFSET: u32 = 16;
pub const ARG_1_OFFSET: u32 = 24;
pub const ARG_2_OFFSET: u32 = 32;

/// The kernel's bound on the length of a filter program.
pub const MAX_PROGRAM_LEN: usize = 4096;

pub const EM_X86_64: u32 = 62;
pub const EM_386: u32 = 3;
pub const EM_ARM: u32 = 40;
pub const AUDIT_ARCH_64BIT: u32 = 0x8000_0000;
pub const AUDIT_ARCH_LE: u32 = 0x4000_0000;
pub const AUDIT_ARCH_X86_64: u32 = EM_X86_64 | AUDIT_ARCH_64BIT | AUDIT_ARCH_LE;
pub const AUDIT_ARCH_X86: u32 = EM_386 | AUDIT_ARCH_LE;
pub const AUDIT_ARCH_ARM: u32 = EM_ARM | AUDIT_ARCH_LE;
/// The architecture that the system-call numbers below belong to.
pub const ARCH_NR: u32 = AUDIT_ARCH_X86_64;

pub const AF_UNIX: u32 = 1;
pub const AF_INET: u32 = 2;
pub const AF_INET6: u32 = 10;
pub const AF_NETLINK: u32 = 16;
pub const AF_PACKET: u32 = 17;
pub const NETLINK_ROUTE: u32 = 0;

pub const O_RDONLY: u32 = 0;
pub const O_WRONLY: u32 = 1;
pub const O_RDWR: u32 = 2;
pub const O_NOCTTY: u32 = 0o400;
pub const O_NONBLOCK: u32 = 0o4000;
pub const O_CLOEXEC: u32 = 0o2000000;
/// Flags of `open` that a read-only grant does not admit.
pub const OPEN_DISALLOWED_FLAGS: u32 = !(O_RDONLY | O_CLOEXEC | O_NOCTTY | O_NONBLOCK);

pub const FIONREAD: u32 = 0x541b;

pub const CLONE_VM: u32 = 0x0000_0100;
pub const CLONE_FS: u32 = 0x0000_0200;
pub const CLONE_FILES: u32 = 0x0000_0400;
pub const CLONE_SIGHAND: u32 = 0x0000_0800;
pub const CLONE_THREAD: u32 = 0x0001_0000;
pub const CLONE_SYSVSEM: u32 = 0x0004_0000;
pub const CLONE_SETTLS: u32 = 0x0008_0000;
pub const CLONE_PARENT_SETTID: u32 = 0x0010_0000;
pub const CLONE_CHILD_CLEARTID: u32 = 0x0020_0000;
/// The exact `clone` flags with which the threading library creates a thread.
pub const THREAD_CLONE_FLAGS: u32 = CLONE_VM | CLONE_FS | CLONE_FILES | CLONE_SIGHAND
    | CLONE_THREAD | CLONE_SYSVSEM | CLONE_SETTLS | CLONE_PARENT_SETTID | CLONE_CHILD_CLEARTID;

pub const NR_READ: u32 = 0;
pub const NR_WRITE: u32 = 1;
pub const NR_OPEN: u32 = 2;
pub const NR_CLOSE: u32 = 3;
pub const NR_STAT: u32 = 4;
pub const NR_FSTAT: u32 = 5;
pub const NR_POLL: u32 = 7;
pub const NR_LSEEK: u32 = 8;
pub const NR_MMAP: u32 = 9;
pub const NR_MPROTECT: u32 = 10;
pub const NR_MUNMAP: u32 = 11;
pub const NR_BRK: u32 = 12;
pub const NR_RT_SIGRETURN: u32 = 15;
pub const NR_IOCTL: u32 = 16;
pub const NR_ACCESS: u32 = 21;
pub const NR_MADVISE: u32 = 28;
pub const NR_SOCKET: u32 = 41;
pub const NR_CONNECT: u32 = 42;
pub const NR_SENDTO: u32 = 44;
pub const NR_RECVFROM: u32 = 45;
pub const NR_RECVMSG: u32 = 47;
pub const NR_BIND: u32 = 49;
pub const NR_GETSOCKNAME: u32 = 51;
pub const NR_CLONE: u32 = 56;
pub const NR_FORK: u32 = 57;
pub const NR_VFORK: u32 = 58;
pub const NR_EXIT: u32 = 60;
pub const NR_READLINK: u32 = 89;
pub const NR_GETUID: u32 = 102;
pub const NR_SIGALTSTACK: u32 = 131;
pub const NR_FUTEX: u32 = 202;
pub const NR_SCHED_GETAFFINITY: u32 = 204;
pub const NR_EXIT_GROUP: u32 = 231;
pub const NR_SET_ROBUST_LIST: u32 = 273;
pub const NR_SENDMMSG: u32 = 307;
pub const NR_GETRANDOM: u32 = 318;

/// One classic BPF instruction, laid out as the kernel reads it.
#[derive(Clone, Copy, PartialEq, Eq, Structural, Debug)]
pub struct SockFilter {
    pub code: u16,
    pub jt: u8,
    pub jf: u8,
    pub k: u32,
}

/// The words of the record that the kernel hands to a filter: the system-call
/// number, the architecture, and the low 32 bits of the first six arguments.
#[derive(Clone, Copy, PartialEq, Eq, Structural, Debug)]
pub struct SyscallRecord {
    pub nr: u32,
    pub arch: u32,
    pub arg0: u32,
    pub arg1: u32,
    pub arg2: u32,
    pub arg3: u32,
    pub arg4: u32,
    pub arg5: u32,
}

pub open spec fn load(offset: u32) -> SockFilter {
    SockFilter { code: LD_W_ABS, jt: 0, jf: 0, k: offset }
}

pub open spec fn ret(value: u32) -> SockFilter {
    SockFilter { code: RET_K, jt: 0, jf: 0, k: value }
}

/// `if_k_is`: when the accumulator equals `value` run `body`, else skip it.
pub open spec fn guard_eq(value: u32, body: Seq<SockFilter>) -> Seq<SockFilter> {
    seq![SockFilter { code: JMP_JEQ_K, jt: 0, jf: body.len() as u8, k: value }] + body
}

/// `if_k_hasnt_set`: when the accumulator has no bit of `mask` run `body`,
/// else skip it.
pub open spec fn guard_unset(mask: u32, body: Seq<SockFilter>) -> Seq<SockFilter> {
    seq![SockFilter { code: JMP_JSET_K, jt: body.len() as u8, jf: 0, k: mask }] + body
}

/// Load the word at `offset`, then run `test`.
pub open spec fn examine(offset: u32, test: Seq<SockFilter>) -> Seq<SockFilter> {
    seq![load(offset)] + test
}

pub open spec fn allow_seq() -> Seq<SockFilter> {
    seq![ret(SECCOMP_RET_ALLOW)]
}

/// One block per number: allow the system call if its number matches.
pub open spec fn allow_list(nrs: Seq<u32>) -> Seq<SockFilter>
    decreases nrs.len(),
{
    if nrs.len() == 0 {
        seq![]
    } else {
        allow_list(nrs.drop_last()) + examine(SYSCALL_NR_OFFSET, guard_eq(nrs.last(), allow_seq()))
    }
}

/// System calls that are always allowed.
pub open spec fn always_allowed_syscalls() -> Seq<u32> {
    seq![
        NR_BRK, NR_CLOSE, NR_EXIT, NR_EXIT_GROUP, NR_FUTEX, NR_GETUID, NR_MADVISE, NR_MMAP,
        NR_MPROTECT, NR_MUNMAP, NR_POLL, NR_READ, NR_RECVFROM, NR_RECVMSG, NR_RT_SIGRETURN,
        NR_SCHED_GETAFFINITY, NR_SENDMMSG, NR_SENDTO, NR_SET_ROBUST_LIST, NR_SIGALTSTACK,
        NR_GETRANDOM, NR_WRITE,
    ]
}

/// System calls allowed when some metadata read is allowed.
pub open spec fn file_read_metadata_syscalls() -> Seq<u32> {
    seq![NR_ACCESS, NR_FSTAT, NR_READLINK, NR_STAT]
}

/// System calls allowed outright when some full file read is allowed.
pub open spec fn file_read_syscalls() -> Seq<u32> {
    seq![NR_LSEEK]
}

/// System calls allowed when some outbound connection is allowed.
pub open spec fn network_outbound_syscalls() -> Seq<u32> {
    seq![NR_BIND, NR_CONNECT]
}

/// System calls allowed outright when socket creation is allowed.
pub open spec fn system_socket_syscalls() -> Seq<u32> {
    seq![NR_GETSOCKNAME]
}

/// Checks the architecture word; any other architecture is killed.
pub open spec fn prologue() -> Seq<SockFilter> {
    seq![
        load(ARCH_NR_OFFSET),
        SockFilter { code: JMP_JEQ_K, jt: 1, jf: 0, k: ARCH_NR },
        ret(SECCOMP_RET_KILL),
    ]
}

/// `open` only with read-only flags.
pub open spec fn open_rule() -> Seq<SockFilter> {
    examine(SYSCALL_NR_OFFSET, guard_eq(NR_OPEN,
        examine(ARG_1_OFFSET, guard_unset(OPEN_DISALLOWED_FLAGS, allow_seq()))))
}

/// `ioctl` only for `FIONREAD`.
pub open spec fn ioctl_rule() -> Seq<SockFilter> {
    examine(SYSCALL_NR_OFFSET, guard_eq(NR_IOCTL,
        examine(ARG_1_OFFSET, guard_eq(FIONREAD, allow_seq()))))
}

/// The families that `socket` may create.
pub open spec fn socket_families() -> Seq<SockFilter> {
    examine(ARG_0_OFFSET, guard_eq(AF_UNIX, allow_seq()))
        + examine(ARG_0_OFFSET, guard_eq(AF_INET, allow_seq()))
        + examine(ARG_0_OFFSET, guard_eq(AF_INET6, allow_seq()))
        + examine(ARG_0_OFFSET, guard_eq(AF_NETLINK,
            examine(ARG_2_OFFSET, guard_eq(NETLINK_ROUTE, allow_seq()))))
}

/// `socket` only for Unix, IPv4, IPv6 and netlink route sockets.
pub open spec fn socket_rule() -> Seq<SockFilter> {
    examine(SYSCALL_NR_OFFSET, guard_eq(NR_SOCKET, socket_families()))
}

/// `clone` only with the flags of an ordinary thread.
pub open spec fn clone_rule() -> Seq<SockFilter> {
    examine(SYSCALL_NR_OFFSET, guard_eq(NR_CLONE,
        examine(ARG_0_OFFSET, guard_eq(THREAD_CLONE_FLAGS, allow_seq()))))
}

pub open spec fn file_read_metadata_part(ops: Seq<Operation>) -> Seq<SockFilter> {
    if any_of_kind(ops, OperationKind::FileReadMetadata) {
        allow_list(file_read_metadata_syscalls())
    } else {
        seq![]
    }
}

pub open spec fn file_read_part(ops: Seq<Operation>) -> Seq<SockFilter> {
    if any_of_kind(ops, OperationKind::FileReadAll) {
        allow_list(file_read_syscalls()) + open_rule() + ioctl_rule()
    } else {
        seq![]
    }
}

pub open spec fn network_outbound_part(ops: Seq<Operation>) -> Seq<SockFilter> {
    if any_of_kind(ops, OperationKind::NetworkOutbound) {
        allow_list(network_outbound_syscalls())
    } else {
        seq![]
    }
}

pub open spec fn system_socket_part(ops: Seq<Operation>) -> Seq<SockFilter> {
    if any_of_kind(ops, OperationKind::SystemSocket) {
        allow_list(system_socket_syscalls()) + socket_rule()
    } else {
        seq![]
    }
}

/// The program compiled from the allowed operations `ops`.
pub open spec fn filter_program(ops: Seq<Operation>) -> Seq<SockFilter> {
    prologue() + allow_list(always_allowed_syscalls()) + file_read_metadata_part(ops)
        + file_read_part(ops) + network_outbound_part(ops) + system_socket_part(ops)
        + clone_rule() + seq![ret(SECCOMP_RET_KILL)]
}

/// A program fragment under construction.
pub struct Filter {
    program: Vec<SockFilter>,
}

impl View for Filter {
    type V = Seq<SockFilter>;

    closed spec fn view(&self) -> Seq<SockFilter> {
        self.program@
    }
}

impl Filter {
    /// A fragment with no instructions.
    pub fn empty() -> (r: Filter)
        ensures
            r@ == Seq::<SockFilter>::empty(),
    {
        Filter { program: Vec::new() }
    }

    /// Compiles `profile` into a filter program: an architecture check, the
    /// system calls that are always allowed, those that the profile's
    /// operations grant (some only with the argument values checked), thread
    /// creation, and a final kill.
    #[verifier::rlimit(50)]
    pub fn new(profile: &Profile) -> (r: Filter)
        ensures
            r@ == filter_program(profile@),
            r@.len() <= MAX_PROGRAM_LEN,
    {
        let mut filter = Filter::empty();
        filter.program.push(SockFilter { code: LD_W_ABS, jt: 0, jf: 0, k: ARCH_NR_OFFSET });
        filter.program.push(SockFilter { code: JMP_JEQ_K, jt: 1, jf: 0, k: ARCH_NR });
        filter.program.push(SockFilter { code: RET_K, jt: 0, jf: 0, k: SECCOMP_RET_KILL });
        let ghost mut expected = prologue();
        assert(filter@ =~= expected);

        let always = vec![
            NR_BRK, NR_CLOSE, NR_EXIT, NR_EXIT_GROUP, NR_FUTEX, NR_GETUID, NR_MADVISE, NR_MMAP,
            NR_MPROTECT, NR_MUNMAP, NR_POLL, NR_READ, NR_RECVFROM, NR_RECVMSG, NR_RT_SIGRETURN,
            NR_SCHED_GETAFFINITY, NR_SENDMMSG, NR_SENDTO, NR_SET_ROBUST_LIST, NR_SIGALTSTACK,
            NR_GETRANDOM, NR_WRITE,
        ];
        assert(always@ =~= always_allowed_syscalls());
        filter.allow_syscalls(always.as_slice());
        assert(filter@.len() == 69);
        proof { expected = expected + allow_list(always_allowed_syscalls()); }

        let mut allow = Filter::empty();
        allow.allow_this_syscall();

        if profile.allows_kind(OperationKind::FileReadMetadata) {
            let metadata = vec![NR_ACCESS, NR_FSTAT, NR_READLINK, NR_STAT];
            assert(metadata@ =~= file_read_metadata_syscalls());
            filter.allow_syscalls(metadata.as_slice());
        }
        proof {
            expected = expected + (if any_of_kind(profile@, OperationKind::FileReadMetadata) {
                allow_list(file_read_metadata_syscalls())
            } else {
                seq![]
            });
        }
        assert(filter@ =~= expected);
        assert(filter@.len() <= 81);

        if profile.allows_kind(OperationKind::FileReadAll) {
            let read = vec![NR_LSEEK];
            assert(read@ =~= file_read_syscalls());
            filter.allow_syscalls(read.as_slice());

            // Only allow file reading.
            let mut read_only = Filter::empty();
            read_only.if_arg1_hasnt_set(OPEN_DISALLOWED_FLAGS, &allow);
            filter.if_syscall_is(NR_OPEN, &read_only);

            // Only allow the `FIONREAD` `ioctl` to be performed.
            let mut fionread = Filter::empty();
            fionread.if_arg1_is(FIONREAD, &allow);
            filter.if_syscall_is(NR_IOCTL, &fionread);
        }
        proof {
            expected = expected + (if any_of_kind(profile@, OperationKind::FileReadAll) {
                allow_list(file_read_syscalls()) + open_rule() + ioctl_rule()
            } else {
                seq![]
            });
        }
        assert(filter@ =~= expected);
        assert(filter@.len() <= 97);

        if profile.allows_kind(OperationKind::NetworkOutbound) {
            let network = vec![NR_BIND, NR_CONNECT];
            assert(network@ =~= network_outbound_syscalls());
            filter.allow_syscalls(network.as_slice());
        }
        proof {
            expected = expected + (if any_of_kind(profile@, OperationKind::NetworkOutbound) {
                allow_list(network_outbound_syscalls())
            } else {
                seq![]
            });
        }
        assert(filter@ =~= expected);
        assert(filter@.len() <= 103);

        if profile.allows_kind(OperationKind::SystemSocket) {
            let socket = vec![NR_GETSOCKNAME];
            assert(socket@ =~= system_socket_syscalls());
            filter.allow_syscalls(socket.as_slice());

            // Only allow Unix, IPv4, IPv6, and netlink route sockets to be created.
            let mut route = Filter::empty();
            route.if_arg2_is(NETLINK_ROUTE, &allow);
            let mut families = Filter::empty();
            families.if_arg0_is(AF_UNIX, &allow);
            families.if_arg0_is(AF_INET, &allow);
            families.if_arg0_is(AF_INET6, &allow);
            families.if_arg0_is(AF_NETLINK, &route);
            assert(families@ =~= socket_families());
            filter.if_syscall_is(NR_SOCKET, &families);
        }
        proof {
            expected = expected + (if any_of_kind(profile@, OperationKind::SystemSocket) {
                allow_list(system_socket_syscalls()) + socket_rule()
            } else {
                seq![]
            });
        }
        assert(filter@ =~= expected);
        assert(filter@.len() <= 124);

        // Only allow normal threads to be created.
        let mut thread = Filter::empty();
        thread.if_arg0_is(THREAD_CLONE_FLAGS, &allow);
        filter.if_syscall_is(NR_CLONE, &thread);

        filter.program.push(SockFilter { code: RET_K, jt: 0, jf: 0, k: SECCOMP_RET_KILL });
        assert(filter@ =~= filter_program(profile@));
        filter
    }

    /// The assembled instructions.
    pub fn program(&self) -> (r: &[SockFilter])
        ensures
            r@ == self@,
    {
        self.program.as_slice()
    }

    /// Appends the instructions of `body`.
    fn append(&mut self, body: &Filter)
        requires
            old(self)@.len() + body@.len() <= MAX_PROGRAM_LEN,
        ensures
            final(self)@ == old(self)@ + body@,
    {
        let mut j: usize = 0;
        while j < body.program.len()
            invariant
                j <= body@.len(),
                old(self)@.len() + body@.len() <= MAX_PROGRAM_LEN,
                self@ == old(self)@ + body@.take(j as int),
            decreases body@.len() - j,
        {
            self.program.push(body.program[j]);
            assert(body@.take(j + 1) =~= body@.take(j as int).push(body@[j as int]));
            j = j + 1;
        }
        assert(body@.take(j as int) =~= body@);
    }

    fn allow_this_syscall(&mut self)
        requires
            old(self)@.len() < MAX_PROGRAM_LEN,
        ensures
            final(self)@ == old(self)@ + allow_seq(),
    {
        self.program.push(SockFilter { code: RET_K, jt: 0, jf: 0, k: SECCOMP_RET_ALLOW });
        assert(self@ =~= old(self)@ + allow_seq());
    }

    fn allow_syscalls(&mut self, syscalls: &[u32])
        requires
            old(self)@.len() + 3 * syscalls@.len() <= MAX_PROGRAM_LEN,
        ensures
            final(self)@ == old(self)@ + allow_list(syscalls@),
            final(self)@.len() == old(self)@.len() + 3 * syscalls@.len(),
    {
        let mut allow = Filter::empty();
        allow.allow_this_syscall();
        let mut i: usize = 0;
        while i < syscalls.len()
            invariant
                i <= syscalls@.len(),
                allow@ == allow_seq(),
                old(self)@.len() + 3 * syscalls@.len() <= MAX_PROGRAM_LEN,
                self@ == old(self)@ + allow_list(syscalls@.take(i as int)),
                self@.len() == old(self)@.len() + 3 * i,
            decreases syscalls@.len() - i,
        {
            self.if_syscall_is(syscalls[i], &allow);
            assert(syscalls@.take(i + 1).drop_last() =~= syscalls@.take(i as int));
            assert(self@ =~= old(self)@ + allow_list(syscalls@.take(i + 1)));
            i = i + 1;
        }
        assert(syscalls@.take(i as int) =~= syscalls@);
    }

    fn if_syscall_is(&mut self, number: u32, then: &Filter)
        requires
            then@.len() <= 255,
            old(self)@.len() + 2 + then@.len() <= MAX_PROGRAM_LEN,
        ensures
            final(self)@ == old(self)@ + examine(SYSCALL_NR_OFFSET, guard_eq(number, then@)),
    {
        self.program.push(SockFilter { code: LD_W_ABS, jt: 0, jf: 0, k: SYSCALL_NR_OFFSET });
        self.if_k_is(number, then);
        assert(self@ =~= old(self)@ + examine(SYSCALL_NR_OFFSET, guard_eq(number, then@)));
    }

    fn if_arg0_is(&mut self, value: u32, then: &Filter)
        requires
            then@.len() <= 255,
            old(self)@.len() + 2 + then@.len() <= MAX_PROGRAM_LEN,
        ensures
            final(self)@ == old(self)@ + examine(ARG_0_OFFSET, guard_eq(value, then@)),
    {
        self.program.push(SockFilter { code: LD_W_ABS, jt: 0, jf: 0, k: ARG_0_OFFSET });
        self.if_k_is(value, then);
        assert(self@ =~= old(self)@ + examine(ARG_0_OFFSET, guard_eq(value, then@)));
    }

    fn if_arg1_is(&mut self, value: u32, then: &Filter)
        requires
            then@.len() <= 255,
            old(self)@.len() + 2 + then@.len() <= MAX_PROGRAM_LEN,
        ensures
            final(self)@ == old(self)@ + examine(ARG_1_OFFSET, guard_eq(value, then@)),
    {
        self.program.push(SockFilter { code: LD_W_ABS, jt: 0, jf: 0, k: ARG_1_OFFSET });
        self.if_k_is(value, then);
        assert(self@ =~= old(self)@ + examine(ARG_1_OFFSET, guard_eq(value, then@)));
    }

    fn if_arg1_hasnt_set(&mut self, value: u32, then: &Filter)
        requires
            then@.len() <= 255,
            old(self)@.len() + 2 + then@.len() <= MAX_PROGRAM_LEN,
        ensures
            final(self)@ == old(self)@ + examine(ARG_1_OFFSET, guard_unset(value, then@)),
    {
        self.program.push(SockFilter { code: LD_W_ABS, jt: 0, jf: 0, k: ARG_1_OFFSET });
        self.if_k_hasnt_set(value, then);
        assert(self@ =~= old(self)@ + examine(ARG_1_OFFSET, guard_unset(value, then@)));
    }

    fn if_arg2_is(&mut self, value: u32, then: &Filter)
        requires
            then@.len() <= 255,
            old(self)@.len() + 2 + then@.len() <= MAX_PROGRAM_LEN,
        ensures
            final(self)@ == old(self)@ + examine(ARG_2_OFFSET, guard_eq(value, then@)),
    {
        self.program.push(SockFilter { code: LD_W_ABS, jt: 0, jf: 0, k: ARG_2_OFFSET });
        self.if_k_is(value, then);
        assert(self@ =~= old(self)@ + examine(ARG_2_OFFSET, guard_eq(value, then@)));
    }

    /// Emits a test of the accumulator against `value` guarding `then`, and
    /// patches the not-taken offset once `then` is in place.
    fn if_k_is(&mut self, value: u32, then: &Filter)
        requires
            then@.len() <= 255,
            old(self)@.len() + 1 + then@.len() <= MAX_PROGRAM_LEN,
        ensures
            final(self)@ == old(self)@ + guard_eq(value, then@),
    {
        let index = self.program.len();
        self.program.push(SockFilter { code: JMP_JEQ_K, jt: 0, jf: 0, k: value });
        self.append(then);
        let mut branch = self.program[index];
        branch.jf = (self.program.len() - index - 1) as u8;
        self.program.set(index, branch);
        assert(self@ =~= old(self)@ + guard_eq(value, then@));
    }

    /// Emits a test of the accumulator against the bits of `value` guarding
    /// `then`, which runs only when none of them is set; the taken offset is
    /// patched once `then` is in place.
    fn if_k_hasnt_set(&mut self, value: u32, then: &Filter)
        requires
            then@.len() <= 255,
            old(self)@.len() + 1 + then@.len() <= MAX_PROGRAM_LEN,
        ensures
            final(self)@ == old(self)@ + guard_unset(value, then@),
    {
        let index = self.program.len();
        self.program.push(SockFilter { code: JMP_JSET_K, jt: 0, jf: 0, k: value });
        self.append(then);
        let mut branch = self.program[index];
        branch.jt = (self.program.len() - index - 1) as u8;
        self.program.set(index, branch);
        assert(self@ =~= old(self)@ + guard_unset(value, then@));
    }
}

} // verus!
