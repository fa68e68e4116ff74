//! A model of the kernel's classic BPF interpreter, restricted to the
//! instructions that the filter assembler emits, and the lemmas that give the
//! meaning of each emitted fragment.

use vstd::prelude::*;
use crate::seccomp::{
    allow_list, allow_seq, examine, guard_eq, guard_unset, load, ret, SockFilter, SyscallRecord,
    ARCH_NR_OFFSET, ARG_0_OFFSET, ARG_1_OFFSET, ARG_2_OFFSET, JMP_JEQ_K, JMP_JSET_K, LD_W_ABS,
    RET_K, SECCOMP_RET_ALLOW, SECCOMP_RET_KILL, SYSCALL_NR_OFFSET,
};

verus! {

/// The word of the record at `offset`. Offsets that the assembler never emits
/// read as zero in this model.
pub open spec fn load_word(d: SyscallRecord, offset: u32) -> u32 {
    if offset == SYSCALL_NR_OFFSET {
        d.nr
    } else if offset == ARCH_NR_OFFSET {
        d.arch
    } else if offset == ARG_0_OFFSET {
        d.arg0
    } else if offset == ARG_1_OFFSET {
        d.arg1
    } else if offset == ARG_2_OFFSET {
        d.arg2
    } else if offset == 40 {
        d.arg3
    } else if offset == 48 {
        d.arg4
    } else if offset == 56 {
        d.arg5
    } else {
        0
    }
}

/// What is left of `prog` after its first instruction and `offset` more.
/// Running off the end leaves nothing.
pub open spec fn after(prog: Seq<SockFilter>, offset: u8) -> Seq<SockFilter> {
    if 1 + offset <= prog.len() {
        prog.skip(1 + offset)
    } else {
        seq![]
    }
}

/// The value that `prog` returns on record `d` with accumulator `acc`.
/// Running off the end, or an instruction the assembler never emits, kills.
pub open spec fn run(prog: Seq<SockFilter>, acc: u32, d: SyscallRecord) -> u32
    decreases prog.len(),
{
    if prog.len() == 0 {
        SECCOMP_RET_KILL
    } else {
        let insn = prog[0];
        if insn.code == LD_W_ABS {
            run(prog.skip(1), load_word(d, insn.k), d)
        } else if insn.code == JMP_JEQ_K {
            if acc == insn.k {
                run(after(prog, insn.jt), acc, d)
            } else {
                run(after(prog, insn.jf), acc, d)
            }
        } else if insn.code == JMP_JSET_K {
            if acc & insn.k != 0 {
                run(after(prog, insn.jt), acc, d)
            } else {
                run(after(prog, insn.jf), acc, d)
            }
        } else if insn.code == RET_K {
            insn.k
        } else {
            SECCOMP_RET_KILL
        }
    }
}

/// The verdict of a whole program, which starts with a zero accumulator.
pub open spec fn verdict(prog: Seq<SockFilter>, d: SyscallRecord) -> u32 {
    run(prog, 0, d)
}

/// Whatever the accumulator, `prog` returns `v` on `d`.
pub open spec fn yields(prog: Seq<SockFilter>, d: SyscallRecord, v: u32) -> bool {
    forall|a: u32| #[trigger] run(prog, a, d) == v
}

pub proof fn lemma_ret(v: u32, rest: Seq<SockFilter>, d: SyscallRecord)
    ensures
        yields(seq![ret(v)] + rest, d, v),
{
    assert forall|a: u32| #[trigger] run(seq![ret(v)] + rest, a, d) == v by {
        assert((seq![ret(v)] + rest)[0] == ret(v));
    }
}

/// A guarded fragment returns what its body does when the test holds, and
/// what follows it otherwise.
pub proof fn lemma_examine_eq(
    offset: u32,
    value: u32,
    body: Seq<SockFilter>,
    rest: Seq<SockFilter>,
    d: SyscallRecord,
    w: u32,
    v: u32,
)
    requires
        body.len() <= 255,
        yields(body + rest, d, w),
        yields(rest, d, v),
    ensures
        yields(examine(offset, guard_eq(value, body)) + rest, d,
            if load_word(d, offset) == value { w } else { v }),
{
    let p = examine(offset, guard_eq(value, body)) + rest;
    let q = guard_eq(value, body) + rest;
    assert(p.skip(1) =~= q);
    assert(q.skip(1) =~= body + rest);
    assert(q.skip(1 + body.len() as int) =~= rest);
    assert(p[0] == load(offset));
    assert(q[0] == SockFilter { code: JMP_JEQ_K, jt: 0, jf: body.len() as u8, k: value });
    let x = load_word(d, offset);
    assert((body.len() as u8) as int == body.len());
    assert(after(q, 0) =~= body + rest);
    assert(after(q, body.len() as u8) =~= rest);
    if x == value {
        assert(run(q, x, d) == run(body + rest, x, d));
    } else {
        assert(run(q, x, d) == run(rest, x, d));
    }
    assert forall|a: u32| #[trigger] run(p, a, d) == (if x == value { w } else { v }) by {
        assert(run(p, a, d) == run(q, x, d));
    }
}

/// A fragment guarded by a bit test runs its body only when none of the bits
/// of `mask` is set.
pub proof fn lemma_examine_unset(
    offset: u32,
    mask: u32,
    body: Seq<SockFilter>,
    rest: Seq<SockFilter>,
    d: SyscallRecord,
    w: u32,
    v: u32,
)
    requires
        body.len() <= 255,
        yields(body + rest, d, w),
        yields(rest, d, v),
    ensures
        yields(examine(offset, guard_unset(mask, body)) + rest, d,
            if load_word(d, offset) & mask == 0 { w } else { v }),
{
    let p = examine(offset, guard_unset(mask, body)) + rest;
    let q = guard_unset(mask, body) + rest;
    assert(p.skip(1) =~= q);
    assert(q.skip(1) =~= body + rest);
    assert(q.skip(1 + body.len() as int) =~= rest);
    assert(p[0] == load(offset));
    assert(q[0] == SockFilter { code: JMP_JSET_K, jt: body.len() as u8, jf: 0, k: mask });
    let x = load_word(d, offset);
    assert((body.len() as u8) as int == body.len());
    assert(after(q, 0) =~= body + rest);
    assert(after(q, body.len() as u8) =~= rest);
    if x & mask == 0 {
        assert(run(q, x, d) == run(body + rest, x, d));
    } else {
        assert(run(q, x, d) == run(rest, x, d));
    }
    assert forall|a: u32| #[trigger] run(p, a, d) == (if x & mask == 0 { w } else { v }) by {
        assert(run(p, a, d) == run(q, x, d));
    }
}

/// A list of allowed numbers allows exactly the system calls it holds.
pub proof fn lemma_allow_list(nrs: Seq<u32>, rest: Seq<SockFilter>, d: SyscallRecord, v: u32)
    requires
        yields(rest, d, v),
    ensures
        yields(allow_list(nrs) + rest, d,
            if nrs.contains(d.nr) { SECCOMP_RET_ALLOW } else { v }),
    decreases nrs.len(),
{
    if nrs.len() == 0 {
        assert(allow_list(nrs) + rest =~= rest);
    } else {
        let init = nrs.drop_last();
        let blk = examine(SYSCALL_NR_OFFSET, guard_eq(nrs.last(), allow_seq()));
        lemma_ret(SECCOMP_RET_ALLOW, rest, d);
        assert(allow_seq() + rest =~= seq![ret(SECCOMP_RET_ALLOW)] + rest);
        lemma_examine_eq(SYSCALL_NR_OFFSET, nrs.last(), allow_seq(), rest, d, SECCOMP_RET_ALLOW, v);
        let v2 = if d.nr == nrs.last() { SECCOMP_RET_ALLOW } else { v };
        lemma_allow_list(init, blk + rest, d, v2);
        assert(allow_list(nrs) + rest =~= allow_list(init) + (blk + rest));
        assert(nrs =~= init.push(nrs.last()));
        if nrs.contains(d.nr) {
            let i = choose|i: int| 0 <= i < nrs.len() && nrs[i] == d.nr;
            if i < init.len() {
                assert(init[i] == d.nr);
            }
        } else {
            assert(nrs[nrs.len() - 1] != d.nr);
            assert forall|i: int| 0 <= i < init.len() implies init[i] != d.nr by {
                assert(nrs[i] == init[i]);
            }
        }
    }
}

/// An opcode that the assembler emits.
pub open spec fn known_code(code: u16) -> bool {
    code == LD_W_ABS || code == JMP_JEQ_K || code == JMP_JSET_K || code == RET_K
}

pub open spec fn is_jump(insn: SockFilter) -> bool {
    insn.code == JMP_JEQ_K || insn.code == JMP_JSET_K
}

/// Every instruction of `s` is one the assembler emits, and every jump in it
/// lands within `s` or just past its end.
pub open spec fn closed(s: Seq<SockFilter>) -> bool {
    forall|i: int|
        0 <= i < s.len() ==> known_code(#[trigger] s[i].code) && (is_jump(s[i]) ==> i + 1
            + s[i].jt <= s.len() && i + 1 + s[i].jf <= s.len())
}

pub proof fn lemma_closed_concat(a: Seq<SockFilter>, b: Seq<SockFilter>)
    requires
        closed(a),
        closed(b),
    ensures
        closed(a + b),
{
    let s = a + b;
    assert forall|i: int| 0 <= i < s.len() implies known_code(#[trigger] s[i].code) && (is_jump(
        s[i],
    ) ==> i + 1 + s[i].jt <= s.len() && i + 1 + s[i].jf <= s.len()) by {
        if i < a.len() {
            assert(s[i] == a[i]);
        } else {
            assert(s[i] == b[i - a.len()]);
            assert(known_code(b[i - a.len()].code));
        }
    }
}

pub proof fn lemma_closed_single(insn: SockFilter)
    requires
        known_code(insn.code),
        !is_jump(insn),
    ensures
        closed(seq![insn]),
{
    assert(seq![insn][0] == insn);
}

pub proof fn lemma_closed_guard_eq(value: u32, body: Seq<SockFilter>)
    requires
        closed(body),
        body.len() <= 255,
    ensures
        closed(guard_eq(value, body)),
{
    let s = guard_eq(value, body);
    assert forall|i: int| 0 <= i < s.len() implies known_code(#[trigger] s[i].code) && (is_jump(
        s[i],
    ) ==> i + 1 + s[i].jt <= s.len() && i + 1 + s[i].jf <= s.len()) by {
        if i > 0 {
            assert(s[i] == body[i - 1]);
            assert(known_code(body[i - 1].code));
        }
    }
}

pub proof fn lemma_closed_guard_unset(mask: u32, body: Seq<SockFilter>)
    requires
        closed(body),
        body.len() <= 255,
    ensures
        closed(guard_unset(mask, body)),
{
    let s = guard_unset(mask, body);
    assert forall|i: int| 0 <= i < s.len() implies known_code(#[trigger] s[i].code) && (is_jump(
        s[i],
    ) ==> i + 1 + s[i].jt <= s.len() && i + 1 + s[i].jf <= s.len()) by {
        if i > 0 {
            assert(s[i] == body[i - 1]);
            assert(known_code(body[i - 1].code));
        }
    }
}

pub proof fn lemma_closed_examine(offset: u32, test: Seq<SockFilter>)
    requires
        closed(test),
    ensures
        closed(examine(offset, test)),
{
    lemma_closed_single(load(offset));
    lemma_closed_concat(seq![load(offset)], test);
}

pub proof fn lemma_closed_allow_when(offset: u32, value: u32, body: Seq<SockFilter>)
    requires
        closed(body),
        body.len() <= 255,
    ensures
        closed(examine(offset, guard_eq(value, body))),
{
    lemma_closed_guard_eq(value, body);
    lemma_closed_examine(offset, guard_eq(value, body));
}

pub proof fn lemma_closed_allow()
    ensures
        closed(allow_seq()),
{
    lemma_closed_single(ret(SECCOMP_RET_ALLOW));
}

pub proof fn lemma_closed_allow_list(nrs: Seq<u32>)
    ensures
        closed(allow_list(nrs)),
    decreases nrs.len(),
{
    if nrs.len() > 0 {
        lemma_closed_allow_list(nrs.drop_last());
        lemma_closed_allow();
        lemma_closed_allow_when(SYSCALL_NR_OFFSET, nrs.last(), allow_seq());
        lemma_closed_concat(
            allow_list(nrs.drop_last()),
            examine(SYSCALL_NR_OFFSET, guard_eq(nrs.last(), allow_seq())),
        );
    }
}

} // verus!
