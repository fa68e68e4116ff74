//! What a compiled filter means: the policy that decides which system calls
//! pass, the theorem that the compiled program implements it, and the laws
//! that follow from it.

use vstd::prelude::*;
use crate::bpf::{
    after, closed, is_jump, known_code, lemma_allow_list, lemma_closed_allow,
    lemma_closed_allow_list, lemma_closed_allow_when, lemma_closed_concat, lemma_closed_examine,
    lemma_closed_guard_unset, lemma_examine_eq, lemma_examine_unset, lemma_ret, load_word, run,
    verdict, yields,
};
use crate::profile::{any_of_kind, kind_of, kind_supported, Operation, OperationKind};
use crate::seccomp::{
    allow_list, allow_seq, always_allowed_syscalls, clone_rule, examine, file_read_metadata_part,
    file_read_metadata_syscalls, file_read_part, file_read_syscalls, filter_program, guard_eq,
    guard_unset, ioctl_rule, load, network_outbound_part, network_outbound_syscalls, open_rule,
    prologue, ret, socket_families, socket_rule, system_socket_part, system_socket_syscalls,
    SockFilter, SyscallRecord, AF_INET, AF_INET6, AF_NETLINK, AF_PACKET, AF_UNIX, ARCH_NR,
    ARCH_NR_OFFSET, ARG_0_OFFSET, ARG_1_OFFSET, ARG_2_OFFSET, FIONREAD, NETLINK_ROUTE, NR_CLONE,
    NR_FORK, NR_IOCTL, NR_OPEN, NR_SOCKET, NR_VFORK, OPEN_DISALLOWED_FLAGS, O_RDWR, O_WRONLY,
    SECCOMP_RET_ALLOW, SECCOMP_RET_KILL, SYSCALL_NR_OFFSET, THREAD_CLONE_FLAGS,
};

verus! {

/// `open` with read-only flags, `ioctl` for `FIONREAD`, or `lseek`.
pub open spec fn grants_file_read(d: SyscallRecord) -> bool {
    file_read_syscalls().contains(d.nr)
        || (d.nr == NR_OPEN && d.arg1 & OPEN_DISALLOWED_FLAGS == 0)
        || (d.nr == NR_IOCTL && d.arg1 == FIONREAD)
}

/// `socket` for Unix, IPv4, IPv6 or netlink route sockets, or `getsockname`.
pub open spec fn grants_system_socket(d: SyscallRecord) -> bool {
    system_socket_syscalls().contains(d.nr)
        || (d.nr == NR_SOCKET && (d.arg0 == AF_UNIX || d.arg0 == AF_INET || d.arg0 == AF_INET6
            || (d.arg0 == AF_NETLINK && d.arg2 == NETLINK_ROUTE)))
}

/// `clone` with exactly the flags of an ordinary thread.
pub open spec fn is_thread_clone(d: SyscallRecord) -> bool {
    d.nr == NR_CLONE && d.arg0 == THREAD_CLONE_FLAGS
}

/// The system calls that a grant of kind `k` lets through.
pub open spec fn grants(k: OperationKind, d: SyscallRecord) -> bool {
    match k {
        OperationKind::FileReadMetadata => file_read_metadata_syscalls().contains(d.nr),
        OperationKind::FileReadAll => grants_file_read(d),
        OperationKind::NetworkOutbound => network_outbound_syscalls().contains(d.nr),
        OperationKind::SystemSocket => grants_system_socket(d),
        _ => false,
    }
}

/// Whether the policy of `ops` lets the system call `d` through: on the
/// expected architecture, one that is always allowed, thread creation, or one
/// that a kind of operation present in `ops` grants.
pub open spec fn permits(ops: Seq<Operation>, d: SyscallRecord) -> bool {
    d.arch == ARCH_NR && (always_allowed_syscalls().contains(d.nr) || is_thread_clone(d)
        || (any_of_kind(ops, OperationKind::FileReadMetadata)
            && grants(OperationKind::FileReadMetadata, d))
        || (any_of_kind(ops, OperationKind::FileReadAll) && grants(OperationKind::FileReadAll, d))
        || (any_of_kind(ops, OperationKind::NetworkOutbound)
            && grants(OperationKind::NetworkOutbound, d))
        || (any_of_kind(ops, OperationKind::SystemSocket)
            && grants(OperationKind::SystemSocket, d)))
}

proof fn lemma_allow_when(offset: u32, value: u32, rest: Seq<SockFilter>, d: SyscallRecord, v: u32)
    requires
        yields(rest, d, v),
    ensures
        yields(examine(offset, guard_eq(value, allow_seq())) + rest, d,
            if load_word(d, offset) == value { SECCOMP_RET_ALLOW } else { v }),
{
    lemma_ret(SECCOMP_RET_ALLOW, rest, d);
    assert(allow_seq() + rest =~= seq![ret(SECCOMP_RET_ALLOW)] + rest);
    lemma_examine_eq(offset, value, allow_seq(), rest, d, SECCOMP_RET_ALLOW, v);
}

proof fn lemma_prologue(rest: Seq<SockFilter>, d: SyscallRecord, v: u32)
    requires
        yields(rest, d, v),
    ensures
        yields(prologue() + rest, d, if d.arch == ARCH_NR { v } else { SECCOMP_RET_KILL }),
{
    let p = prologue() + rest;
    let q = p.skip(1);
    assert(q.skip(1) =~= seq![ret(SECCOMP_RET_KILL)] + rest);
    assert(q.skip(2) =~= rest);
    assert(after(q, 0) == q.skip(1));
    assert(after(q, 1) == q.skip(2));
    lemma_ret(SECCOMP_RET_KILL, rest, d);
    if d.arch == ARCH_NR {
        assert(run(q, d.arch, d) == run(rest, d.arch, d));
    } else {
        assert(run(q, d.arch, d) == run(seq![ret(SECCOMP_RET_KILL)] + rest, d.arch, d));
    }
    assert forall|a: u32| #[trigger] run(p, a, d) == (if d.arch == ARCH_NR { v } else { SECCOMP_RET_KILL }) by {
        assert(p[0] == load(ARCH_NR_OFFSET));
        assert(run(p, a, d) == run(q, d.arch, d));
    }
}

proof fn lemma_clone_rule(rest: Seq<SockFilter>, d: SyscallRecord, v: u32)
    requires
        yields(rest, d, v),
    ensures
        yields(clone_rule() + rest, d, if is_thread_clone(d) { SECCOMP_RET_ALLOW } else { v }),
{
    let body = examine(ARG_0_OFFSET, guard_eq(THREAD_CLONE_FLAGS, allow_seq()));
    lemma_allow_when(ARG_0_OFFSET, THREAD_CLONE_FLAGS, rest, d, v);
    let w = if d.arg0 == THREAD_CLONE_FLAGS { SECCOMP_RET_ALLOW } else { v };
    lemma_examine_eq(SYSCALL_NR_OFFSET, NR_CLONE, body, rest, d, w, v);
}

proof fn lemma_file_read_metadata_part(ops: Seq<Operation>, rest: Seq<SockFilter>, d: SyscallRecord, v: u32)
    requires
        yields(rest, d, v),
    ensures
        yields(file_read_metadata_part(ops) + rest, d,
            if any_of_kind(ops, OperationKind::FileReadMetadata)
                && grants(OperationKind::FileReadMetadata, d) { SECCOMP_RET_ALLOW } else { v }),
{
    if any_of_kind(ops, OperationKind::FileReadMetadata) {
        lemma_allow_list(file_read_metadata_syscalls(), rest, d, v);
    } else {
        assert(file_read_metadata_part(ops) + rest =~= rest);
    }
}

proof fn lemma_network_outbound_part(ops: Seq<Operation>, rest: Seq<SockFilter>, d: SyscallRecord, v: u32)
    requires
        yields(rest, d, v),
    ensures
        yields(network_outbound_part(ops) + rest, d,
            if any_of_kind(ops, OperationKind::NetworkOutbound)
                && grants(OperationKind::NetworkOutbound, d) { SECCOMP_RET_ALLOW } else { v }),
{
    if any_of_kind(ops, OperationKind::NetworkOutbound) {
        lemma_allow_list(network_outbound_syscalls(), rest, d, v);
    } else {
        assert(network_outbound_part(ops) + rest =~= rest);
    }
}

proof fn lemma_file_read_part(ops: Seq<Operation>, rest: Seq<SockFilter>, d: SyscallRecord, v: u32)
    requires
        yields(rest, d, v),
    ensures
        yields(file_read_part(ops) + rest, d,
            if any_of_kind(ops, OperationKind::FileReadAll)
                && grants(OperationKind::FileReadAll, d) { SECCOMP_RET_ALLOW } else { v }),
{
    if any_of_kind(ops, OperationKind::FileReadAll) {
        // ioctl
        let ioctl_body = examine(ARG_1_OFFSET, guard_eq(FIONREAD, allow_seq()));
        lemma_allow_when(ARG_1_OFFSET, FIONREAD, rest, d, v);
        let w_ioctl = if d.arg1 == FIONREAD { SECCOMP_RET_ALLOW } else { v };
        lemma_examine_eq(SYSCALL_NR_OFFSET, NR_IOCTL, ioctl_body, rest, d, w_ioctl, v);
        let v_ioctl = if d.nr == NR_IOCTL { w_ioctl } else { v };
        // open
        let r1 = ioctl_rule() + rest;
        let unset_body = allow_seq();
        lemma_ret(SECCOMP_RET_ALLOW, r1, d);
        assert(allow_seq() + r1 =~= seq![ret(SECCOMP_RET_ALLOW)] + r1);
        lemma_examine_unset(ARG_1_OFFSET, OPEN_DISALLOWED_FLAGS, unset_body, r1, d, SECCOMP_RET_ALLOW, v_ioctl);
        let w_open = if d.arg1 & OPEN_DISALLOWED_FLAGS == 0 { SECCOMP_RET_ALLOW } else { v_ioctl };
        let open_body = examine(ARG_1_OFFSET, guard_unset(OPEN_DISALLOWED_FLAGS, allow_seq()));
        lemma_examine_eq(SYSCALL_NR_OFFSET, NR_OPEN, open_body, r1, d, w_open, v_ioctl);
        let v_open = if d.nr == NR_OPEN { w_open } else { v_ioctl };
        // lseek
        let r2 = open_rule() + r1;
        lemma_allow_list(file_read_syscalls(), r2, d, v_open);
        assert(file_read_part(ops) + rest =~= allow_list(file_read_syscalls()) + r2);
    } else {
        assert(file_read_part(ops) + rest =~= rest);
    }
}

proof fn lemma_system_socket_part(ops: Seq<Operation>, rest: Seq<SockFilter>, d: SyscallRecord, v: u32)
    requires
        yields(rest, d, v),
    ensures
        yields(system_socket_part(ops) + rest, d,
            if any_of_kind(ops, OperationKind::SystemSocket)
                && grants(OperationKind::SystemSocket, d) { SECCOMP_RET_ALLOW } else { v }),
{
    if any_of_kind(ops, OperationKind::SystemSocket) {
        let route = examine(ARG_2_OFFSET, guard_eq(NETLINK_ROUTE, allow_seq()));
        let b1 = examine(ARG_0_OFFSET, guard_eq(AF_UNIX, allow_seq()));
        let b2 = examine(ARG_0_OFFSET, guard_eq(AF_INET, allow_seq()));
        let b3 = examine(ARG_0_OFFSET, guard_eq(AF_INET6, allow_seq()));
        let b4 = examine(ARG_0_OFFSET, guard_eq(AF_NETLINK, route));
        lemma_allow_when(ARG_2_OFFSET, NETLINK_ROUTE, rest, d, v);
        let w4 = if d.arg2 == NETLINK_ROUTE { SECCOMP_RET_ALLOW } else { v };
        lemma_examine_eq(ARG_0_OFFSET, AF_NETLINK, route, rest, d, w4, v);
        let v4 = if d.arg0 == AF_NETLINK { w4 } else { v };
        lemma_allow_when(ARG_0_OFFSET, AF_INET6, b4 + rest, d, v4);
        let v3 = if d.arg0 == AF_INET6 { SECCOMP_RET_ALLOW } else { v4 };
        lemma_allow_when(ARG_0_OFFSET, AF_INET, b3 + (b4 + rest), d, v3);
        let v2 = if d.arg0 == AF_INET { SECCOMP_RET_ALLOW } else { v3 };
        lemma_allow_when(ARG_0_OFFSET, AF_UNIX, b2 + (b3 + (b4 + rest)), d, v2);
        let v1 = if d.arg0 == AF_UNIX { SECCOMP_RET_ALLOW } else { v2 };
        assert(socket_families() + rest =~= b1 + (b2 + (b3 + (b4 + rest))));
        lemma_examine_eq(SYSCALL_NR_OFFSET, NR_SOCKET, socket_families(), rest, d, v1, v);
        let v_socket = if d.nr == NR_SOCKET { v1 } else { v };
        lemma_allow_list(system_socket_syscalls(), socket_rule() + rest, d, v_socket);
        assert(system_socket_part(ops) + rest =~= allow_list(system_socket_syscalls()) + (
        socket_rule() + rest));
    } else {
        assert(system_socket_part(ops) + rest =~= rest);
    }
}

proof fn lemma_regroup(
    a: Seq<SockFilter>,
    b: Seq<SockFilter>,
    c: Seq<SockFilter>,
    d: Seq<SockFilter>,
    e: Seq<SockFilter>,
    f: Seq<SockFilter>,
    g: Seq<SockFilter>,
    h: Seq<SockFilter>,
)
    ensures
        a + b + c + d + e + f + g + h == a + (b + (c + (d + (e + (f + (g + h)))))),
{
    assert(a + b + c + d + e + f + g + h =~= a + (b + (c + (d + (e + (f + (g + h)))))));
}

/// The compiled program lets a system call through exactly when the policy
/// permits it, and kills the process otherwise.
pub proof fn lemma_filter_decides(ops: Seq<Operation>, d: SyscallRecord)
    ensures
        verdict(filter_program(ops), d) == if permits(ops, d) {
            SECCOMP_RET_ALLOW
        } else {
            SECCOMP_RET_KILL
        },
{
    let k0 = seq![ret(SECCOMP_RET_KILL)];
    lemma_ret(SECCOMP_RET_KILL, seq![], d);
    assert(k0 + seq![] =~= k0);
    lemma_clone_rule(k0, d, SECCOMP_RET_KILL);
    let v6 = if is_thread_clone(d) { SECCOMP_RET_ALLOW } else { SECCOMP_RET_KILL };
    let r6 = clone_rule() + k0;
    lemma_system_socket_part(ops, r6, d, v6);
    let v5 = if any_of_kind(ops, OperationKind::SystemSocket) && grants(OperationKind::SystemSocket, d) { SECCOMP_RET_ALLOW } else { v6 };
    let r5 = system_socket_part(ops) + r6;
    lemma_network_outbound_part(ops, r5, d, v5);
    let v4 = if any_of_kind(ops, OperationKind::NetworkOutbound) && grants(OperationKind::NetworkOutbound, d) { SECCOMP_RET_ALLOW } else { v5 };
    let r4 = network_outbound_part(ops) + r5;
    lemma_file_read_part(ops, r4, d, v4);
    let v3 = if any_of_kind(ops, OperationKind::FileReadAll) && grants(OperationKind::FileReadAll, d) { SECCOMP_RET_ALLOW } else { v4 };
    let r3 = file_read_part(ops) + r4;
    lemma_file_read_metadata_part(ops, r3, d, v3);
    let v2 = if any_of_kind(ops, OperationKind::FileReadMetadata) && grants(OperationKind::FileReadMetadata, d) { SECCOMP_RET_ALLOW } else { v3 };
    let r2 = file_read_metadata_part(ops) + r3;
    lemma_allow_list(always_allowed_syscalls(), r2, d, v2);
    let v1 = if always_allowed_syscalls().contains(d.nr) { SECCOMP_RET_ALLOW } else { v2 };
    let r1 = allow_list(always_allowed_syscalls()) + r2;
    lemma_prologue(r1, d, v1);
    lemma_regroup(prologue(), allow_list(always_allowed_syscalls()), file_read_metadata_part(ops),
        file_read_part(ops), network_outbound_part(ops), system_socket_part(ops), clone_rule(), k0);
    assert(run(prologue() + r1, 0, d) == (if d.arch == ARCH_NR { v1 } else { SECCOMP_RET_KILL }));
}

/// Every system call that a profile's filter lets through is one that is
/// always allowed, the creation of an ordinary thread, or one granted by the
/// kind of some operation of the profile; all on the expected architecture.
pub proof fn lemma_only_granted_calls_pass(ops: Seq<Operation>, d: SyscallRecord)
    requires
        verdict(filter_program(ops), d) == SECCOMP_RET_ALLOW,
    ensures
        d.arch == ARCH_NR,
        always_allowed_syscalls().contains(d.nr) || is_thread_clone(d)
            || exists|i: int| 0 <= i < ops.len() && grants(kind_of(#[trigger] ops[i]), d),
{
    lemma_filter_decides(ops, d);
    assert(SECCOMP_RET_ALLOW != SECCOMP_RET_KILL);
    if !(always_allowed_syscalls().contains(d.nr) || is_thread_clone(d)) {
        let k = if any_of_kind(ops, OperationKind::FileReadMetadata) && grants(OperationKind::FileReadMetadata, d) {
            OperationKind::FileReadMetadata
        } else if any_of_kind(ops, OperationKind::FileReadAll) && grants(OperationKind::FileReadAll, d) {
            OperationKind::FileReadAll
        } else if any_of_kind(ops, OperationKind::NetworkOutbound) && grants(OperationKind::NetworkOutbound, d) {
            OperationKind::NetworkOutbound
        } else {
            OperationKind::SystemSocket
        };
        assert(any_of_kind(ops, k) && grants(k, d));
        let i = choose|i: int| 0 <= i < ops.len() && kind_of(#[trigger] ops[i]) == k;
        assert(grants(kind_of(ops[i]), d));
    }
}

/// Every system call that an operation of a profile grants passes the
/// profile's filter, when the operation can be enforced on this platform and
/// the call comes from the expected architecture.
pub proof fn lemma_granted_calls_pass(ops: Seq<Operation>, i: int, d: SyscallRecord)
    requires
        0 <= i < ops.len(),
        kind_supported(kind_of(ops[i])),
        grants(kind_of(ops[i]), d),
        d.arch == ARCH_NR,
    ensures
        verdict(filter_program(ops), d) == SECCOMP_RET_ALLOW,
{
    lemma_filter_decides(ops, d);
    assert(any_of_kind(ops, kind_of(ops[i])));
}

/// No bit outside those of a read-only open passes the `open` flag check.
pub proof fn lemma_write_flags_disallowed(flags: u32)
    ensures
        flags & (O_WRONLY | O_RDWR) != 0 ==> flags & OPEN_DISALLOWED_FLAGS != 0,
{
    assert(flags & (1u32 | 2u32) != 0 ==> flags & !(0u32 | 0o2000000u32 | 0o400u32 | 0o4000u32) != 0) by (bit_vector);
}

/// `open` for writing is killed under every profile, including one that allows
/// full reads of the path.
pub proof fn lemma_open_for_writing_denied(ops: Seq<Operation>, d: SyscallRecord)
    requires
        d.nr == NR_OPEN,
        d.arg1 & (O_WRONLY | O_RDWR) != 0,
    ensures
        verdict(filter_program(ops), d) == SECCOMP_RET_KILL,
{
    lemma_filter_decides(ops, d);
    lemma_write_flags_disallowed(d.arg1);
    assert(!always_allowed_syscalls().contains(NR_OPEN));
    assert(!file_read_metadata_syscalls().contains(NR_OPEN));
    assert(!file_read_syscalls().contains(NR_OPEN));
    assert(!network_outbound_syscalls().contains(NR_OPEN));
    assert(!system_socket_syscalls().contains(NR_OPEN));
}

/// A packet socket is killed under every profile.
pub proof fn lemma_packet_socket_denied(ops: Seq<Operation>, d: SyscallRecord)
    requires
        d.nr == NR_SOCKET,
        d.arg0 == AF_PACKET,
    ensures
        verdict(filter_program(ops), d) == SECCOMP_RET_KILL,
{
    lemma_filter_decides(ops, d);
    assert(!always_allowed_syscalls().contains(NR_SOCKET));
    assert(!file_read_metadata_syscalls().contains(NR_SOCKET));
    assert(!file_read_syscalls().contains(NR_SOCKET));
    assert(!network_outbound_syscalls().contains(NR_SOCKET));
    assert(!system_socket_syscalls().contains(NR_SOCKET));
}

/// `clone` with any flags but those of an ordinary thread, `fork` and `vfork`
/// are killed under every profile.
pub proof fn lemma_process_creation_denied(ops: Seq<Operation>, d: SyscallRecord)
    requires
        (d.nr == NR_CLONE && d.arg0 != THREAD_CLONE_FLAGS) || d.nr == NR_FORK || d.nr == NR_VFORK,
    ensures
        verdict(filter_program(ops), d) == SECCOMP_RET_KILL,
{
    lemma_filter_decides(ops, d);
    assert(!always_allowed_syscalls().contains(d.nr));
    assert(!file_read_metadata_syscalls().contains(d.nr));
    assert(!file_read_syscalls().contains(d.nr));
    assert(!network_outbound_syscalls().contains(d.nr));
    assert(!system_socket_syscalls().contains(d.nr));
}

proof fn lemma_closed_parts(ops: Seq<Operation>)
    ensures
        closed(prologue()),
        closed(file_read_metadata_part(ops)),
        closed(file_read_part(ops)),
        closed(network_outbound_part(ops)),
        closed(system_socket_part(ops)),
        closed(clone_rule()),
{
    let p = prologue();
    assert forall|i: int| 0 <= i < p.len() implies known_code(#[trigger] p[i].code) && (is_jump(
        p[i],
    ) ==> i + 1 + p[i].jt <= p.len() && i + 1 + p[i].jf <= p.len()) by {}
    let empty = Seq::<SockFilter>::empty();
    assert(closed(empty));
    lemma_closed_allow();
    lemma_closed_allow_list(file_read_metadata_syscalls());
    lemma_closed_allow_list(file_read_syscalls());
    lemma_closed_allow_list(network_outbound_syscalls());
    lemma_closed_allow_list(system_socket_syscalls());
    // open and ioctl
    lemma_closed_guard_unset(OPEN_DISALLOWED_FLAGS, allow_seq());
    lemma_closed_examine(ARG_1_OFFSET, guard_unset(OPEN_DISALLOWED_FLAGS, allow_seq()));
    lemma_closed_allow_when(SYSCALL_NR_OFFSET, NR_OPEN,
        examine(ARG_1_OFFSET, guard_unset(OPEN_DISALLOWED_FLAGS, allow_seq())));
    lemma_closed_allow_when(ARG_1_OFFSET, FIONREAD, allow_seq());
    lemma_closed_allow_when(SYSCALL_NR_OFFSET, NR_IOCTL,
        examine(ARG_1_OFFSET, guard_eq(FIONREAD, allow_seq())));
    lemma_closed_concat(allow_list(file_read_syscalls()), open_rule());
    lemma_closed_concat(allow_list(file_read_syscalls()) + open_rule(), ioctl_rule());
    // socket
    let route = examine(ARG_2_OFFSET, guard_eq(NETLINK_ROUTE, allow_seq()));
    lemma_closed_allow_when(ARG_2_OFFSET, NETLINK_ROUTE, allow_seq());
    lemma_closed_allow_when(ARG_0_OFFSET, AF_UNIX, allow_seq());
    lemma_closed_allow_when(ARG_0_OFFSET, AF_INET, allow_seq());
    lemma_closed_allow_when(ARG_0_OFFSET, AF_INET6, allow_seq());
    lemma_closed_allow_when(ARG_0_OFFSET, AF_NETLINK, route);
    let b1 = examine(ARG_0_OFFSET, guard_eq(AF_UNIX, allow_seq()));
    let b2 = examine(ARG_0_OFFSET, guard_eq(AF_INET, allow_seq()));
    let b3 = examine(ARG_0_OFFSET, guard_eq(AF_INET6, allow_seq()));
    let b4 = examine(ARG_0_OFFSET, guard_eq(AF_NETLINK, route));
    lemma_closed_concat(b1, b2);
    lemma_closed_concat(b1 + b2, b3);
    lemma_closed_concat(b1 + b2 + b3, b4);
    lemma_closed_allow_when(SYSCALL_NR_OFFSET, NR_SOCKET, socket_families());
    lemma_closed_concat(allow_list(system_socket_syscalls()), socket_rule());
    // clone
    lemma_closed_allow_when(ARG_0_OFFSET, THREAD_CLONE_FLAGS, allow_seq());
    lemma_closed_allow_when(SYSCALL_NR_OFFSET, NR_CLONE,
        examine(ARG_0_OFFSET, guard_eq(THREAD_CLONE_FLAGS, allow_seq())));
}

/// A compiled program ends in a kill, holds only instructions that the
/// assembler emits, and every jump in it lands on an instruction of the
/// program, so every path through it ends at a return. Jump offsets are
/// single bytes, so none exceeds 255.
pub proof fn lemma_filter_well_formed(ops: Seq<Operation>)
    ensures
        filter_program(ops).len() > 0,
        filter_program(ops).last() == ret(SECCOMP_RET_KILL),
        forall|i: int|
            0 <= i < filter_program(ops).len() ==> known_code(
                #[trigger] filter_program(ops)[i].code,
            ) && (is_jump(filter_program(ops)[i]) ==> i + 1 + filter_program(ops)[i].jt
                < filter_program(ops).len() && i + 1 + filter_program(ops)[i].jf
                < filter_program(ops).len()),
{
    lemma_closed_parts(ops);
    lemma_closed_allow_list(always_allowed_syscalls());
    let a = prologue() + allow_list(always_allowed_syscalls());
    lemma_closed_concat(prologue(), allow_list(always_allowed_syscalls()));
    lemma_closed_concat(a, file_read_metadata_part(ops));
    lemma_closed_concat(a + file_read_metadata_part(ops), file_read_part(ops));
    let b = a + file_read_metadata_part(ops) + file_read_part(ops);
    lemma_closed_concat(b, network_outbound_part(ops));
    lemma_closed_concat(b + network_outbound_part(ops), system_socket_part(ops));
    let c = b + network_outbound_part(ops) + system_socket_part(ops);
    lemma_closed_concat(c, clone_rule());
    let body = c + clone_rule();
    let p = filter_program(ops);
    assert(p == body + seq![ret(SECCOMP_RET_KILL)]);
    assert forall|i: int| 0 <= i < p.len() implies known_code(#[trigger] p[i].code) && (is_jump(
        p[i],
    ) ==> i + 1 + p[i].jt < p.len() && i + 1 + p[i].jf < p.len()) by {
        if i < body.len() {
            assert(p[i] == body[i]);
        }
    }
}

} // verus!
