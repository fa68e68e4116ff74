//! Sandbox profiles: the platform-neutral allow-list that both enforcement
//! mechanisms consult.

use vstd::prelude::*;

verus! {

/// An operation that only a particular platform's backend understands,
/// identified by a backend-defined code. The Linux backend supports none.
#[derive(Clone, Copy, PartialEq, Eq, Structural, Debug)]
pub struct PlatformOperation {
    pub code: u32,
}

/// Describes a path or paths on the filesystem.
pub enum PathPattern {
    /// One specific path, which must not represent a directory.
    Literal(String),
    /// A directory and all of its contents, recursively.
    Subpath(String),
}

/// Describes a network address.
pub enum AddressPattern {
    /// TCP connections on the given port.
    Tcp(u16),
    /// A local socket at the given path (for example, a Unix socket).
    LocalSocket(String),
}

/// An operation that this process is allowed to perform.
pub enum Operation {
    /// All file-related reading operations may be performed on this file.
    FileReadAll(PathPattern),
    /// Metadata (for example, `stat` or `readlink`) of this file may be read.
    FileReadMetadata(PathPattern),
    /// Outbound network connections to the given address may be initiated.
    NetworkOutbound(AddressPattern),
    /// System information may be read.
    SystemInfoRead,
    /// Sockets may be created.
    SystemSocket,
    /// Platform-specific operations.
    PlatformSpecific(PlatformOperation),
}

/// The category of an operation, without its pattern.
#[derive(Clone, Copy, PartialEq, Eq, Structural, Debug)]
pub enum OperationKind {
    FileReadAll,
    FileReadMetadata,
    NetworkOutbound,
    SystemInfoRead,
    SystemSocket,
    PlatformSpecific,
}

/// Why a profile could not be built.
#[derive(Clone, Copy, PartialEq, Eq, Structural, Debug)]
pub enum PolicyError {
    /// An operation has no enforcement mechanism on this platform.
    UnsupportedOperation,
}

/// The category of `op`.
pub open spec fn kind_of(op: Operation) -> OperationKind {
    match op {
        Operation::FileReadAll(_) => OperationKind::FileReadAll,
        Operation::FileReadMetadata(_) => OperationKind::FileReadMetadata,
        Operation::NetworkOutbound(_) => OperationKind::NetworkOutbound,
        Operation::SystemInfoRead => OperationKind::SystemInfoRead,
        Operation::SystemSocket => OperationKind::SystemSocket,
        Operation::PlatformSpecific(_) => OperationKind::PlatformSpecific,
    }
}

/// Whether the Linux backend can enforce a grant of this kind. System
/// tunables cannot be granted on their own, and Linux has no platform-specific
/// operations.
pub open spec fn kind_supported(k: OperationKind) -> bool {
    match k {
        OperationKind::SystemInfoRead | OperationKind::PlatformSpecific => false,
        _ => true,
    }
}

/// Whether some operation in `ops` is of kind `k`.
pub open spec fn any_of_kind(ops: Seq<Operation>, k: OperationKind) -> bool {
    exists|i: int| 0 <= i < ops.len() && kind_of(#[trigger] ops[i]) == k
}

/// Whether every operation in `ops` can be enforced on this platform.
pub open spec fn all_supported(ops: Seq<Operation>) -> bool {
    forall|i: int| 0 <= i < ops.len() ==> kind_supported(kind_of(#[trigger] ops[i]))
}

impl OperationKind {
    /// Whether the Linux backend can enforce a grant of this kind.
    pub fn is_supported(self) -> (r: bool)
        ensures
            r == kind_supported(self),
    {
        match self {
            OperationKind::SystemInfoRead | OperationKind::PlatformSpecific => false,
            _ => true,
        }
    }
}

impl Operation {
    /// The category of this operation.
    pub fn kind(&self) -> (r: OperationKind)
        ensures
            r == kind_of(*self),
    {
        match self {
            Operation::FileReadAll(_) => OperationKind::FileReadAll,
            Operation::FileReadMetadata(_) => OperationKind::FileReadMetadata,
            Operation::NetworkOutbound(_) => OperationKind::NetworkOutbound,
            Operation::SystemInfoRead => OperationKind::SystemInfoRead,
            Operation::SystemSocket => OperationKind::SystemSocket,
            Operation::PlatformSpecific(_) => OperationKind::PlatformSpecific,
        }
    }

    /// Whether this operation can be enforced on this platform.
    pub fn prohibition_supported(&self) -> (r: bool)
        ensures
            r == kind_supported(kind_of(*self)),
    {
        self.kind().is_supported()
    }
}

/// A sandbox profile: the set of operations that this process is allowed to
/// perform. Operations not in the list are implicitly denied.
///
/// Patterns within one profile must not overlap; the behavior is undefined if
/// they do.
pub struct Profile {
    allowed_operations: Vec<Operation>,
}

impl View for Profile {
    type V = Seq<Operation>;

    closed spec fn view(&self) -> Seq<Operation> {
        self.allowed_operations@
    }
}

impl Profile {
    /// Every operation of a profile can be enforced.
    #[verifier::type_invariant]
    spec fn inv(self) -> bool {
        all_supported(self.allowed_operations@)
    }

    /// Creates a new profile with the given set of allowed operations, or
    /// rejects it if this platform cannot enforce one of them.
    pub fn new(allowed_operations: Vec<Operation>) -> (r: Result<Profile, PolicyError>)
        ensures
            r is Ok <==> all_supported(allowed_operations@),
            r is Ok ==> r->Ok_0@ == allowed_operations@,
            r is Err ==> r->Err_0 == PolicyError::UnsupportedOperation,
    {
        let mut i: usize = 0;
        while i < allowed_operations.len()
            invariant
                i <= allowed_operations@.len(),
                all_supported(allowed_operations@.take(i as int)),
            decreases allowed_operations@.len() - i,
        {
            if !allowed_operations[i].prohibition_supported() {
                assert(!kind_supported(kind_of(allowed_operations@[i as int])));
                return Err(PolicyError::UnsupportedOperation);
            }
            assert(allowed_operations@.take(i + 1) =~= allowed_operations@.take(i as int).push(
                allowed_operations@[i as int],
            ));
            i = i + 1;
        }
        assert(allowed_operations@.take(i as int) =~= allowed_operations@);
        Ok(Profile { allowed_operations })
    }

    /// Returns the list of allowed operations.
    pub fn allowed_operations(&self) -> (r: &[Operation])
        ensures
            r@ == self@,
    {
        self.allowed_operations.as_slice()
    }

    /// Whether some allowed operation is of kind `k`.
    pub fn allows_kind(&self, k: OperationKind) -> (r: bool)
        ensures
            r == any_of_kind(self@, k),
    {
        let ops = &self.allowed_operations;
        let mut i: usize = 0;
        while i < ops.len()
            invariant
                i <= ops@.len(),
                ops == &self.allowed_operations,
                forall|j: int| 0 <= j < i ==> kind_of(#[trigger] ops@[j]) != k,
            decreases ops@.len() - i,
        {
            if ops[i].kind() == k {
                return true;
            }
            i = i + 1;
        }
        false
    }
}

} // verus!
