//! Sandboxing on Linux via namespaces and a chroot jail.
//!
//! Activation is a fixed, ordered sequence of kernel transitions: unshare the
//! namespaces, map the parent's identity, switch to the unprivileged identity,
//! build the jail on a fresh tmpfs, enter it, and drop every capability. This
//! module decides that sequence from a profile; the caller performs each step
//! in order and stops at the first failure, which `Step::failure` classifies.

use vstd::prelude::*;
use crate::profile::{any_of_kind, Operation, OperationKind, PathPattern, Profile};

verus! {

pub const CLONE_FS: u32 = 0x0000_0200;
pub const CLONE_NEWNS: u32 = 0x0002_0000;
pub const CLONE_NEWUTS: u32 = 0x0400_0000;
pub const CLONE_NEWIPC: u32 = 0x0800_0000;
pub const CLONE_NEWUSER: u32 = 0x1000_0000;
pub const CLONE_NEWNET: u32 = 0x4000_0000;
/// The namespaces that every activation creates.
pub const NAMESPACE_FLAGS: u32 = CLONE_FS | CLONE_NEWUSER | CLONE_NEWIPC | CLONE_NEWNS
    | CLONE_NEWUTS;

pub const MS_NOATIME: u64 = 1024;
pub const MS_BIND: u64 = 4096;
pub const MS_REC: u64 = 16384;
pub const MS_MGC_VAL: u64 = 0xc0ed_0000;
/// The flags of each bind mount into the jail.
pub const BIND_MOUNT_FLAGS: u64 = MS_MGC_VAL | MS_BIND | MS_REC;

/// The version of the capability header that `capset` is given.
pub const LINUX_CAPABILITY_VERSION_3: u32 = 0x2008_0522;

/// The user and group id that the sandboxed process takes inside its user
/// namespace; the parent's ids are mapped onto it.
pub const JAIL_ID: u32 = 1;

/// One kernel transition of activation.
#[derive(Clone, Debug)]
pub enum Step {
    /// `unshare` with these flags.
    Unshare { flags: u32 },
    /// Write `deny` to `/proc/self/setgroups`.
    DenySetgroups,
    /// Write `1 <parent_gid> 1` to `/proc/self/gid_map`.
    MapGroup { parent_gid: u32 },
    /// Write `1 <parent_uid> 1` to `/proc/self/uid_map`.
    MapUser { parent_uid: u32 },
    /// `setresgid(gid, gid, gid)`.
    SetGroupIds { gid: u32 },
    /// `setresuid(uid, uid, uid)`.
    SetUserIds { uid: u32 },
    /// Create a temporary directory and mount a fresh tmpfs on it with
    /// `MS_NOATIME`.
    MountJailRoot,
    /// Mirror `path` inside the jail and bind-mount it there with
    /// `BIND_MOUNT_FLAGS`.
    BindMount { path: String },
    /// `chmod 0` the jail-side entry of `path`, so that its name and metadata
    /// stay visible and its contents do not.
    DisallowReading { path: String },
    /// `chroot` into the jail, then change to its root.
    EnterJail,
    /// `capset` with a version 3 header and empty effective, permitted and
    /// inheritable sets.
    DropCapabilities,
}

/// Why building the jail failed, with the error the kernel returned.
#[derive(Clone, Copy, PartialEq, Eq, Structural, Debug)]
pub enum JailError {
    Unshare(i32),
    MapWrite(i32),
    SetId(i32),
    TmpfsMount(i32),
    BindMount(i32),
    Chmod(i32),
    Chroot(i32),
    CapDrop(i32),
}

/// The namespaces to create: a network namespace too when the profile allows
/// no outbound connection.
pub open spec fn namespace_flags(ops: Seq<Operation>) -> u32 {
    if any_of_kind(ops, OperationKind::NetworkOutbound) {
        NAMESPACE_FLAGS
    } else {
        NAMESPACE_FLAGS | CLONE_NEWNET
    }
}

pub open spec fn pattern_path(pattern: PathPattern) -> String {
    match pattern {
        PathPattern::Literal(path) => path,
        PathPattern::Subpath(path) => path,
    }
}

/// The jail steps for one operation: full reads are bind-mounted, metadata
/// reads are bind-mounted and then made unreadable.
pub open spec fn operation_steps(op: Operation) -> Seq<Step> {
    match op {
        Operation::FileReadAll(pattern) => seq![Step::BindMount { path: pattern_path(pattern) }],
        Operation::FileReadMetadata(pattern) => seq![
            Step::BindMount { path: pattern_path(pattern) },
            Step::DisallowReading { path: pattern_path(pattern) },
        ],
        _ => seq![],
    }
}

/// The jail steps for `ops`, in the order of the operations.
pub open spec fn jail_steps(ops: Seq<Operation>) -> Seq<Step>
    decreases ops.len(),
{
    if ops.len() == 0 {
        seq![]
    } else {
        jail_steps(ops.drop_last()) + operation_steps(ops.last())
    }
}

/// The whole sequence of transitions for a profile whose creator runs as
/// `parent_uid` and `parent_gid`.
pub open spec fn activation_plan(ops: Seq<Operation>, parent_uid: u32, parent_gid: u32) -> Seq<
    Step,
> {
    seq![
        Step::Unshare { flags: namespace_flags(ops) },
        Step::DenySetgroups,
        Step::MapGroup { parent_gid },
        Step::MapUser { parent_uid },
        Step::SetGroupIds { gid: JAIL_ID },
        Step::SetUserIds { uid: JAIL_ID },
        Step::MountJailRoot,
    ] + jail_steps(ops) + seq![Step::EnterJail, Step::DropCapabilities]
}

/// The error that reports a failure of `step` with `errno`.
pub open spec fn failure_of(step: Step, errno: i32) -> JailError {
    match step {
        Step::Unshare { .. } => JailError::Unshare(errno),
        Step::DenySetgroups | Step::MapGroup { .. } | Step::MapUser { .. } => JailError::MapWrite(
            errno,
        ),
        Step::SetGroupIds { .. } | Step::SetUserIds { .. } => JailError::SetId(errno),
        Step::MountJailRoot => JailError::TmpfsMount(errno),
        Step::BindMount { .. } => JailError::BindMount(errno),
        Step::DisallowReading { .. } => JailError::Chmod(errno),
        Step::EnterJail => JailError::Chroot(errno),
        Step::DropCapabilities => JailError::CapDrop(errno),
    }
}

impl Step {
    /// The error that reports a failure of this step with `errno`.
    pub fn failure(&self, errno: i32) -> (r: JailError)
        ensures
            r == failure_of(*self, errno),
    {
        match self {
            Step::Unshare { .. } => JailError::Unshare(errno),
            Step::DenySetgroups | Step::MapGroup { .. } | Step::MapUser { .. } => {
                JailError::MapWrite(errno)
            },
            Step::SetGroupIds { .. } | Step::SetUserIds { .. } => JailError::SetId(errno),
            Step::MountJailRoot => JailError::TmpfsMount(errno),
            Step::BindMount { .. } => JailError::BindMount(errno),
            Step::DisallowReading { .. } => JailError::Chmod(errno),
            Step::EnterJail => JailError::Chroot(errno),
            Step::DropCapabilities => JailError::CapDrop(errno),
        }
    }
}

/// The namespaces that activation under `profile` creates.
pub fn namespace_flags_for(profile: &Profile) -> (r: u32)
    ensures
        r == namespace_flags(profile@),
{
    if profile.allows_kind(OperationKind::NetworkOutbound) {
        NAMESPACE_FLAGS
    } else {
        NAMESPACE_FLAGS | CLONE_NEWNET
    }
}

fn path_of(pattern: &PathPattern) -> (r: String)
    ensures
        r == pattern_path(*pattern),
{
    match pattern {
        PathPattern::Literal(path) => path.clone(),
        PathPattern::Subpath(path) => path.clone(),
    }
}

/// Creates a namespace and sets up a chroot jail: returns, in order, the
/// kernel transitions that confine a process created by `parent_uid` and
/// `parent_gid` to `profile`.
pub fn activate(profile: &Profile, parent_uid: u32, parent_gid: u32) -> (r: Vec<Step>)
    ensures
        r@ == activation_plan(profile@, parent_uid, parent_gid),
{
    let mut steps: Vec<Step> = Vec::new();
    steps.push(Step::Unshare { flags: namespace_flags_for(profile) });
    steps.push(Step::DenySetgroups);
    steps.push(Step::MapGroup { parent_gid });
    steps.push(Step::MapUser { parent_uid });
    steps.push(Step::SetGroupIds { gid: JAIL_ID });
    steps.push(Step::SetUserIds { uid: JAIL_ID });
    steps.push(Step::MountJailRoot);
    let ghost prefix = steps@;
    let ops = profile.allowed_operations();
    let mut i: usize = 0;
    while i < ops.len()
        invariant
            i <= ops@.len(),
            ops@ == profile@,
            steps@ == prefix + jail_steps(ops@.take(i as int)),
        decreases ops@.len() - i,
    {
        match &ops[i] {
            Operation::FileReadAll(pattern) => {
                steps.push(Step::BindMount { path: path_of(pattern) });
            },
            Operation::FileReadMetadata(pattern) => {
                steps.push(Step::BindMount { path: path_of(pattern) });
                steps.push(Step::DisallowReading { path: path_of(pattern) });
            },
            _ => {},
        }
        assert(ops@.take(i + 1).drop_last() =~= ops@.take(i as int));
        assert(steps@ =~= prefix + jail_steps(ops@.take(i + 1)));
        i = i + 1;
    }
    assert(ops@.take(i as int) =~= ops@);
    steps.push(Step::EnterJail);
    steps.push(Step::DropCapabilities);
    assert(steps@ =~= activation_plan(profile@, parent_uid, parent_gid));
    steps
}

/// The byte `/` that separates path components.
pub const SEPARATOR: u8 = 0x2f;

/// The ends of the proper ancestors of the path `path`: the positions of its
/// separators after the first byte, in increasing order. The jail mirrors each
/// such ancestor as a directory before it mirrors the path itself.
pub fn ancestor_ends(path: &[u8]) -> (r: Vec<usize>)
    ensures
        forall|j: int|
            0 <= j < r@.len() ==> 0 < #[trigger] r@[j] < path@.len() && path@[r@[j] as int]
                == SEPARATOR,
        forall|j: int, l: int| 0 <= j < l < r@.len() ==> r@[j] < r@[l],
        forall|i: int|
            0 < i < path@.len() && #[trigger] path@[i] == SEPARATOR ==> r@.contains(i as usize),
{
    let mut ends: Vec<usize> = Vec::new();
    let mut i: usize = 1;
    while i < path.len()
        invariant
            1 <= i <= path@.len() || path@.len() == 0,
            forall|j: int|
                0 <= j < ends@.len() ==> 0 < #[trigger] ends@[j] < i && ends@[j] < path@.len()
                    && path@[ends@[j] as int] == SEPARATOR,
            forall|j: int, l: int| 0 <= j < l < ends@.len() ==> ends@[j] < ends@[l],
            forall|k: int|
                0 < k < i && k < path@.len() && #[trigger] path@[k] == SEPARATOR ==> ends@.contains(
                    k as usize,
                ),
        decreases path@.len() - i,
    {
        if path[i] == SEPARATOR {
            let ghost before = ends@;
            ends.push(i);
            assert forall|k: int|
                0 < k < i + 1 && k < path@.len() && #[trigger] path@[k] == SEPARATOR implies ends@.contains(
                k as usize,
            ) by {
                if k < i {
                    let w = choose|w: int| 0 <= w < before.len() && before[w] == k as usize;
                    assert(ends@[w] == k as usize);
                } else {
                    assert(ends@[ends@.len() - 1] == k as usize);
                }
            }
        }
        i = i + 1;
    }
    ends
}

/// A network namespace, which has no route out, is created exactly when the
/// profile allows no outbound connection.
pub proof fn lemma_network_isolated_unless_allowed(ops: Seq<Operation>)
    ensures
        (namespace_flags(ops) & CLONE_NEWNET != 0) <==> !any_of_kind(
            ops,
            OperationKind::NetworkOutbound,
        ),
        namespace_flags(ops) & NAMESPACE_FLAGS == NAMESPACE_FLAGS,
{
    assert((0x200u32 | 0x1000_0000u32 | 0x0800_0000u32 | 0x2_0000u32 | 0x0400_0000u32)
        & 0x4000_0000u32 == 0) by (bit_vector);
    assert(((0x200u32 | 0x1000_0000u32 | 0x0800_0000u32 | 0x2_0000u32 | 0x0400_0000u32)
        | 0x4000_0000u32) & 0x4000_0000u32 != 0) by (bit_vector);
    assert(((0x200u32 | 0x1000_0000u32 | 0x0800_0000u32 | 0x2_0000u32 | 0x0400_0000u32)
        | 0x4000_0000u32) & (0x200u32 | 0x1000_0000u32 | 0x0800_0000u32 | 0x2_0000u32
        | 0x0400_0000u32) == (0x200u32 | 0x1000_0000u32 | 0x0800_0000u32 | 0x2_0000u32
        | 0x0400_0000u32)) by (bit_vector);
    assert((0x200u32 | 0x1000_0000u32 | 0x0800_0000u32 | 0x2_0000u32 | 0x0400_0000u32) & (0x200u32
        | 0x1000_0000u32 | 0x0800_0000u32 | 0x2_0000u32 | 0x0400_0000u32) == (0x200u32
        | 0x1000_0000u32 | 0x0800_0000u32 | 0x2_0000u32 | 0x0400_0000u32)) by (bit_vector);
}

/// Activation starts by creating the namespaces, switches to the unprivileged
/// identity only after both id maps are written, builds the jail before
/// entering it, and drops capabilities last.
pub proof fn lemma_plan_order(ops: Seq<Operation>, parent_uid: u32, parent_gid: u32)
    ensures
        activation_plan(ops, parent_uid, parent_gid)[0] == (Step::Unshare {
            flags: namespace_flags(ops),
        }),
        activation_plan(ops, parent_uid, parent_gid)[2] == (Step::MapGroup { parent_gid }),
        activation_plan(ops, parent_uid, parent_gid)[3] == (Step::MapUser { parent_uid }),
        activation_plan(ops, parent_uid, parent_gid)[4] == (Step::SetGroupIds { gid: JAIL_ID }),
        activation_plan(ops, parent_uid, parent_gid)[5] == (Step::SetUserIds { uid: JAIL_ID }),
        activation_plan(ops, parent_uid, parent_gid)[6] == Step::MountJailRoot,
        activation_plan(ops, parent_uid, parent_gid).last() == Step::DropCapabilities,
        activation_plan(ops, parent_uid, parent_gid)[activation_plan(ops, parent_uid, parent_gid).len()
            - 2] == Step::EnterJail,
{
}

} // verus!
