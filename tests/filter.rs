use gaol::profile::{AddressPattern, Operation, PathPattern, PlatformOperation, Profile};
use gaol::seccomp::{
    Filter, SockFilter, SyscallRecord, AF_INET, AF_INET6, AF_NETLINK, AF_PACKET, AF_UNIX,
    ARCH_NR, AUDIT_ARCH_X86, FIONREAD, JMP_JEQ_K, JMP_JSET_K, LD_W_ABS, NR_ACCESS, NR_BIND,
    NR_CLONE, NR_CONNECT, NR_FORK, NR_FSTAT, NR_GETRANDOM, NR_GETSOCKNAME, NR_IOCTL, NR_LSEEK,
    NR_OPEN, NR_READ, NR_READLINK, NR_SET_ROBUST_LIST, NR_SOCKET, NR_STAT, NR_VFORK, NR_WRITE,
    O_CLOEXEC, O_NONBLOCK, O_RDONLY, O_RDWR, O_WRONLY, RET_K, SECCOMP_RET_ALLOW, SECCOMP_RET_KILL,
    THREAD_CLONE_FLAGS,
};

fn word(d: &SyscallRecord, offset: u32) -> u32 {
    match offset {
        0 => d.nr,
        4 => d.arch,
        16 => d.arg0,
        24 => d.arg1,
        32 => d.arg2,
        40 => d.arg3,
        48 => d.arg4,
        56 => d.arg5,
        _ => 0,
    }
}

fn run(program: &[SockFilter], d: &SyscallRecord) -> u32 {
    let mut pc = 0usize;
    let mut acc = 0u32;
    loop {
        let insn = program[pc];
        match insn.code {
            LD_W_ABS => {
                acc = word(d, insn.k);
                pc += 1;
            }
            JMP_JEQ_K => {
                pc += 1 + if acc == insn.k { insn.jt as usize } else { insn.jf as usize };
            }
            JMP_JSET_K => {
                pc += 1 + if acc & insn.k != 0 { insn.jt as usize } else { insn.jf as usize };
            }
            RET_K => return insn.k,
            _ => panic!("unknown opcode"),
        }
    }
}

fn call(nr: u32, arg0: u32, arg1: u32, arg2: u32) -> SyscallRecord {
    SyscallRecord { nr, arch: ARCH_NR, arg0, arg1, arg2, arg3: 0, arg4: 0, arg5: 0 }
}

fn verdict(profile: &Profile, d: SyscallRecord) -> u32 {
    let filter = Filter::new(profile);
    run(filter.program(), &d)
}

fn literal(path: &str) -> PathPattern {
    PathPattern::Literal(path.to_string())
}

fn empty_profile() -> Profile {
    Profile::new(vec![]).unwrap()
}

fn full_profile() -> Profile {
    Profile::new(vec![
        Operation::FileReadAll(literal("/etc/hostname")),
        Operation::FileReadMetadata(PathPattern::Subpath("/tmp".to_string())),
        Operation::NetworkOutbound(AddressPattern::Tcp(80)),
        Operation::SystemSocket,
    ])
    .unwrap()
}

#[test]
fn empty_profile_program_length() {
    // prologue, 22 always-allowed blocks, the clone rule and the final kill
    assert_eq!(Filter::new(&empty_profile()).program().len(), 3 + 22 * 3 + 5 + 1);
}

#[test]
fn program_starts_with_architecture_check() {
    let filter = Filter::new(&empty_profile());
    let p = filter.program();
    assert_eq!(p[0], SockFilter { code: LD_W_ABS, jt: 0, jf: 0, k: 4 });
    assert_eq!(p[1], SockFilter { code: JMP_JEQ_K, jt: 1, jf: 0, k: ARCH_NR });
    assert_eq!(p[2], SockFilter { code: RET_K, jt: 0, jf: 0, k: SECCOMP_RET_KILL });
    assert_eq!(ARCH_NR, 0xc000_003e);
}

#[test]
fn program_jumps_stay_inside_and_end_in_kill() {
    for profile in [empty_profile(), full_profile()] {
        let filter = Filter::new(&profile);
        let p = filter.program();
        assert_eq!(*p.last().unwrap(), SockFilter { code: RET_K, jt: 0, jf: 0, k: SECCOMP_RET_KILL });
        for (i, insn) in p.iter().enumerate() {
            if insn.code == JMP_JEQ_K || insn.code == JMP_JSET_K {
                assert!(i + 1 + (insn.jt as usize) < p.len());
                assert!(i + 1 + (insn.jf as usize) < p.len());
            }
        }
    }
}

#[test]
fn other_architecture_is_killed() {
    let mut d = call(NR_READ, 0, 0, 0);
    d.arch = AUDIT_ARCH_X86;
    assert_eq!(verdict(&full_profile(), d), SECCOMP_RET_KILL);
}

#[test]
fn always_allowed_syscalls_pass_under_empty_profile() {
    for nr in [NR_READ, NR_WRITE, NR_GETRANDOM, NR_SET_ROBUST_LIST] {
        assert_eq!(verdict(&empty_profile(), call(nr, 0, 0, 0)), SECCOMP_RET_ALLOW);
    }
}

#[test]
fn ungranted_operations_are_killed() {
    let p = empty_profile();
    for nr in [NR_STAT, NR_FSTAT, NR_ACCESS, NR_READLINK, NR_LSEEK, NR_OPEN, NR_IOCTL, NR_BIND,
               NR_CONNECT, NR_GETSOCKNAME, NR_SOCKET] {
        assert_eq!(verdict(&p, call(nr, AF_UNIX, FIONREAD, 0)), SECCOMP_RET_KILL);
    }
}

#[test]
fn granted_operations_pass() {
    let p = full_profile();
    for nr in [NR_STAT, NR_FSTAT, NR_ACCESS, NR_READLINK, NR_LSEEK, NR_BIND, NR_CONNECT,
               NR_GETSOCKNAME] {
        assert_eq!(verdict(&p, call(nr, 0, 0, 0)), SECCOMP_RET_ALLOW);
    }
    assert_eq!(verdict(&p, call(NR_IOCTL, 0, FIONREAD, 0)), SECCOMP_RET_ALLOW);
    assert_eq!(verdict(&p, call(NR_IOCTL, 0, FIONREAD + 1, 0)), SECCOMP_RET_KILL);
}

#[test]
fn metadata_allowance_permits_stat() {
    let p = Profile::new(vec![Operation::FileReadMetadata(literal("/tmp/gaoltest.abcdef"))]).unwrap();
    assert_eq!(verdict(&p, call(NR_STAT, 0, 0, 0)), SECCOMP_RET_ALLOW);
    assert_eq!(verdict(&p, call(NR_OPEN, 0, O_RDONLY, 0)), SECCOMP_RET_KILL);
}

#[test]
fn read_only_flag() {
    let p = Profile::new(vec![Operation::FileReadAll(literal("/etc/hostname"))]).unwrap();
    assert_eq!(verdict(&p, call(NR_OPEN, 0, O_RDONLY, 0)), SECCOMP_RET_ALLOW);
    assert_eq!(verdict(&p, call(NR_OPEN, 0, O_RDONLY | O_CLOEXEC | O_NONBLOCK, 0)), SECCOMP_RET_ALLOW);
    assert_eq!(verdict(&p, call(NR_OPEN, 0, O_RDWR, 0)), SECCOMP_RET_KILL);
    assert_eq!(verdict(&p, call(NR_OPEN, 0, O_WRONLY, 0)), SECCOMP_RET_KILL);
    assert_eq!(verdict(&p, call(NR_OPEN, 0, 0o100, 0)), SECCOMP_RET_KILL);
}

#[test]
fn network_off() {
    let p = empty_profile();
    assert_eq!(verdict(&p, call(NR_SOCKET, AF_INET, 1, 0)), SECCOMP_RET_KILL);
    let p = Profile::new(vec![Operation::SystemSocket]).unwrap();
    assert_eq!(verdict(&p, call(NR_SOCKET, AF_INET, 1, 0)), SECCOMP_RET_ALLOW);
    assert_eq!(verdict(&p, call(NR_CONNECT, 3, 0, 0)), SECCOMP_RET_KILL);
}

#[test]
fn socket_families() {
    let p = Profile::new(vec![Operation::SystemSocket]).unwrap();
    for family in [AF_UNIX, AF_INET, AF_INET6] {
        assert_eq!(verdict(&p, call(NR_SOCKET, family, 1, 7)), SECCOMP_RET_ALLOW);
    }
    assert_eq!(verdict(&p, call(NR_SOCKET, AF_NETLINK, 3, 0)), SECCOMP_RET_ALLOW);
    assert_eq!(verdict(&p, call(NR_SOCKET, AF_NETLINK, 3, 9)), SECCOMP_RET_KILL);
}

#[test]
fn packet_socket_always_denied() {
    for p in [empty_profile(), full_profile()] {
        assert_eq!(verdict(&p, call(NR_SOCKET, AF_PACKET, 3, 0)), SECCOMP_RET_KILL);
    }
}

#[test]
fn no_fork() {
    for p in [empty_profile(), full_profile()] {
        assert_eq!(verdict(&p, call(NR_FORK, 0, 0, 0)), SECCOMP_RET_KILL);
        assert_eq!(verdict(&p, call(NR_VFORK, 0, 0, 0)), SECCOMP_RET_KILL);
        assert_eq!(verdict(&p, call(NR_CLONE, 0x11, 0, 0)), SECCOMP_RET_KILL);
        assert_eq!(verdict(&p, call(NR_CLONE, THREAD_CLONE_FLAGS | 1, 0, 0)), SECCOMP_RET_KILL);
        assert_eq!(verdict(&p, call(NR_CLONE, THREAD_CLONE_FLAGS, 0, 0)), SECCOMP_RET_ALLOW);
    }
    assert_eq!(THREAD_CLONE_FLAGS, 0x003d_0f00);
}

#[test]
fn platform_specific_operation_is_unsupported() {
    let op = Operation::PlatformSpecific(PlatformOperation { code: 7 });
    assert!(!op.prohibition_supported());
    assert!(Profile::new(vec![op]).is_err());
}

#[test]
fn capget_is_not_reachable() {
    // capget is x86_64 system call 125
    for p in [empty_profile(), full_profile()] {
        assert_eq!(verdict(&p, call(125, 0, 0, 0)), SECCOMP_RET_KILL);
    }
}

#[test]
fn open_disallowed_flags_value() {
    assert_eq!(gaol::seccomp::OPEN_DISALLOWED_FLAGS, 0xfff7_f6ff);
}
