//! A small stack-based virtual machine.
//!
//! The crate has two layers. This root module is the execution contract: it
//! says, independently of any concrete opcode set, what a byte-coded opcode,
//! an instruction and a virtual machine are, and it provides the generic
//! fetch-decode-execute loop (`step`, `run`) that every concrete machine
//! inherits. The `stackvm` module is a concrete machine over an operand
//! stack, a constant pool and a flat memory bank; the `value` module holds
//! the machine's value domain, 64-bit floating-point values carried as bit
//! patterns.
//!
//! A machine's execution is modeled as a step relation rather than a step
//! function: most instructions are deterministic, but an instruction whose
//! result the platform does not pin down (the stack machine's `Pow`) may
//! step to more than one state. The run-loop theory below therefore comes in
//! two strengths: what holds of every run, and what more holds of runs whose
//! every step is single-valued.

use vstd::prelude::*;

pub mod stackvm;
pub mod value;

verus! {

/// An opcode tag that maps to and from a single byte.
///
/// The mapping may be partial in either direction, and the defaults are
/// permissive: every opcode encodes as zero and no byte decodes, so a
/// concrete opcode set may implement only the direction it needs.
pub trait ByteCode: Sized {
    /// Encode this opcode as a byte.
    fn to_byte(self) -> (r: u8) {
        0
    }

    /// Decode a byte back to an opcode; `None` where the byte matches no opcode.
    fn from_byte(_byte: u8) -> (r: Option<Self>) {
        None
    }
}

/// An instruction: an opcode together with a single integer operand.
///
/// The generic run loop only ever asks an instruction for its opcode and its
/// operand, so it never needs to know the concrete opcode enumeration.
pub trait Instr<O: ByteCode, A> {
    /// The opcode, as a specification-level value.
    spec fn opcode_spec(&self) -> O;

    /// The operand, as a specification-level value.
    spec fn args_spec(&self) -> A;

    /// The opcode this instruction performs.
    fn opcode(&self) -> (r: &O)
        ensures
            *r == self.opcode_spec(),
    ;

    /// The operand attached to this instruction.
    fn args(&self) -> (r: &A)
        ensures
            *r == self.args_spec(),
    ;
}

/// The model of a virtual machine: a state type together with the meaning of
/// one fetch and of one instruction's execution. Everything the generic run
/// loop guarantees is stated over this model.
pub trait VmModel<I, E>: Sized {
    /// Whether the machine should stop before executing another step.
    spec fn halted(self) -> bool;

    /// Whether fetching from this state succeeds.
    spec fn fetch_ok(self) -> bool;

    /// The instruction a successful fetch returns.
    spec fn fetch_instr(self) -> I;

    /// The state a successful fetch leaves behind (the advanced pointer).
    spec fn fetch_next(self) -> Self;

    /// The error a failing fetch returns.
    spec fn fetch_err(self) -> E;

    /// Whether this state can execute the instruction.
    spec fn handle_ok(self, i: I) -> bool;

    /// The states executing the instruction may leave behind: a relation,
    /// not a function, because an instruction's result need not be pinned
    /// down by the state (the stack machine's `Pow` is such a one).
    spec fn handle_rel(self, i: I, next: Self) -> bool;

    /// The error returned when the instruction cannot execute.
    spec fn handle_err(self, i: I) -> E;
}

/// Whether one whole step (fetch, then execute) succeeds from this state.
pub open spec fn vm_step_ok<I, E, S: VmModel<I, E>>(s: S) -> bool {
    &&& s.fetch_ok()
    &&& s.fetch_next().handle_ok(s.fetch_instr())
}

/// The states one whole successful step may leave behind.
pub open spec fn vm_step_rel<I, E, S: VmModel<I, E>>(s: S, next: S) -> bool {
    &&& s.fetch_ok()
    &&& s.fetch_next().handle_rel(s.fetch_instr(), next)
}

/// The error a failing step returns: the fetch's error where the fetch
/// fails, otherwise the execute's.
pub open spec fn vm_step_err<I, E, S: VmModel<I, E>>(s: S) -> E {
    if !s.fetch_ok() {
        s.fetch_err()
    } else {
        s.fetch_next().handle_err(s.fetch_instr())
    }
}

/// The state a failing step leaves behind: unchanged where the fetch fails,
/// else with only the fetch applied (the execute changed nothing).
pub open spec fn vm_step_fail<I, E, S: VmModel<I, E>>(s: S) -> S {
    if !s.fetch_ok() {
        s
    } else {
        s.fetch_next()
    }
}

/// Whether the step from this state is single-valued: all states it may
/// step to coincide.
pub open spec fn vm_step_det<I, E, S: VmModel<I, E>>(s: S) -> bool {
    forall|s1: S, s2: S|
        vm_step_rel::<I, E, S>(s, s1) && vm_step_rel::<I, E, S>(s, s2) ==> s1 == s2
}

/// `s2` may be reached from `s1` by exactly `n` successful steps, none of
/// them taken from a halted state.
pub open spec fn vm_runs_to<I, E, S: VmModel<I, E>>(s1: S, s2: S, n: nat) -> bool
    decreases n,
{
    if n == 0 {
        s1 == s2
    } else {
        exists|mid: S|
            {
                &&& vm_runs_to::<I, E, S>(s1, mid, (n - 1) as nat)
                &&& !mid.halted()
                &&& vm_step_ok::<I, E, S>(mid)
                &&& vm_step_rel::<I, E, S>(mid, s2)
            }
    }
}

/// `s2` may be reached from `s1` by some number of successful steps.
pub open spec fn vm_reaches<I, E, S: VmModel<I, E>>(s1: S, s2: S) -> bool {
    exists|n: nat| vm_runs_to::<I, E, S>(s1, s2, n)
}

/// `s2` is reached from `s1` by exactly `n` successful steps each of which
/// is single-valued: the run passes through no state whose step the platform
/// leaves open.
pub open spec fn vm_runs_det_to<I, E, S: VmModel<I, E>>(s1: S, s2: S, n: nat) -> bool
    decreases n,
{
    if n == 0 {
        s1 == s2
    } else {
        exists|mid: S|
            {
                &&& vm_runs_det_to::<I, E, S>(s1, mid, (n - 1) as nat)
                &&& !mid.halted()
                &&& vm_step_ok::<I, E, S>(mid)
                &&& vm_step_det::<I, E, S>(mid)
                &&& vm_step_rel::<I, E, S>(mid, s2)
            }
    }
}

/// `s2` is reached from `s1` by some number of single-valued steps.
pub open spec fn vm_reaches_det<I, E, S: VmModel<I, E>>(s1: S, s2: S) -> bool {
    exists|n: nat| vm_runs_det_to::<I, E, S>(s1, s2, n)
}

/// Stepping from `s` reaches, within at most `n` steps along every branch, a
/// state where the run loop stops: a halted state or one whose step fails.
pub open spec fn vm_settles_within<I, E, S: VmModel<I, E>>(s: S, n: nat) -> bool
    decreases n,
{
    if s.halted() || !vm_step_ok::<I, E, S>(s) {
        true
    } else {
        n > 0 && forall|s2: S|
            #[trigger] vm_step_rel::<I, E, S>(s, s2) ==> vm_settles_within::<I, E, S>(
                s2,
                (n - 1) as nat,
            )
    }
}

/// A virtual machine driven by a fetch-decode-execute loop.
///
/// A machine's behaviour is pinned down by the model of its view: whether it
/// has halted, what a fetch from a state returns and leaves behind, and
/// which states executing one instruction may leave behind. The exec methods
/// `halted`, `fetch_instr` and `handle_instr` must agree with the model;
/// `step` and `run` are then written, and verified, once for every machine.
pub trait VM<I, E>: Sized + View where Self::V: VmModel<I, E> {
    /// Pure query: whether the machine should stop. No side effects.
    fn halted(&self) -> (r: bool)
        ensures
            r == self@.halted(),
    ;

    /// Return the instruction to execute next and advance whatever pointer
    /// state determines "next"; a failing fetch changes nothing. Must not
    /// itself execute the instruction.
    fn fetch_instr(&mut self) -> (r: Result<I, E>)
        ensures
            old(self)@.fetch_ok() ==> (r matches Ok(i) && i == old(self)@.fetch_instr() && final(self)@ == old(self)@.fetch_next()),
            !old(self)@.fetch_ok() ==> (r matches Err(e) && e == old(self)@.fetch_err() && final(self)@ == old(self)@),
    ;

    /// Execute exactly one instruction's side effects. On failure nothing is
    /// changed: an instruction either fully applies its effects or none of
    /// them.
    fn handle_instr(&mut self, instr: I) -> (r: Result<(), E>)
        ensures
            old(self)@.handle_ok(instr) ==> (r is Ok && old(self)@.handle_rel(
                instr,
                final(self)@,
            )),
            !old(self)@.handle_ok(instr) ==> (r matches Err(e) && e == old(self)@.handle_err(instr)
                && final(self)@ == old(self)@),
    ;

    /// One fetch followed by one execute: the default, reusable step every
    /// concrete machine inherits.
    fn step(&mut self) -> (r: Result<(), E>)
        ensures
            vm_step_ok::<I, E, Self::V>(old(self)@) ==> (r is Ok && vm_step_rel::<I, E, Self::V>(
                old(self)@,
                final(self)@,
            )),
            !vm_step_ok::<I, E, Self::V>(old(self)@) ==> (r matches Err(e) && e == vm_step_err::<I, E, Self::V>(old(self)@) && final(self)@ == vm_step_fail::<I, E, Self::V>(old(self)@)),
    {
        let instr = match self.fetch_instr() {
            Ok(i) => i,
            Err(e) => {
                return Err(e);
            },
        };
        self.handle_instr(instr)
    }

    /// Repeat `step` while not halted: stop and return the first error, or
    /// return success once halted. On success the machine stands at a halted
    /// state a run from the start may reach; on failure it stands where the
    /// failing step left it.
    ///
    /// The precondition asks for a bound on the number of steps until the
    /// machine halts or a step fails, along every branch. A machine that
    /// could loop forever has no such bound and cannot be driven to
    /// completion by any verified caller.
    fn run(&mut self) -> (r: Result<(), E>)
        requires
            exists|n: nat| vm_settles_within::<I, E, Self::V>(old(self)@, n),
        ensures
            r is Ok ==> final(self)@.halted() && vm_reaches::<I, E, Self::V>(
                old(self)@,
                final(self)@,
            ),
            r matches Err(e) ==> (exists|m: Self::V|
                {
                    &&& vm_reaches::<I, E, Self::V>(old(self)@, m)
                    &&& !m.halted()
                    &&& !vm_step_ok::<I, E, Self::V>(m)
                    &&& e == vm_step_err::<I, E, Self::V>(m)
                    &&& final(self)@ == vm_step_fail::<I, E, Self::V>(m)
                }),
    {
        let ghost mut fuel: nat = choose|n: nat|
            vm_settles_within::<I, E, Self::V>(old(self)@, n);
        let ghost mut taken: nat = 0;
        while !self.halted()
            invariant
                vm_runs_to::<I, E, Self::V>(old(self)@, self@, taken),
                vm_settles_within::<I, E, Self::V>(self@, fuel),
            decreases fuel,
        {
            let ghost pre = self@;
            match self.step() {
                Ok(()) => {
                    proof {
                        assert(vm_runs_to::<I, E, Self::V>(old(self)@, self@, (taken + 1) as nat));
                        taken = (taken + 1) as nat;
                        fuel = (fuel - 1) as nat;
                    }
                },
                Err(e) => {
                    proof {
                        assert(vm_reaches::<I, E, Self::V>(old(self)@, pre));
                    }
                    return Err(e);
                },
            }
        }
        proof {
            assert(vm_reaches::<I, E, Self::V>(old(self)@, self@));
        }
        Ok(())
    }
}

/// A run of single-valued steps admits no other outcome of the same length:
/// any run of the same length from the same start ends in the same state.
pub proof fn lemma_vm_runs_to_unique<I, E, S: VmModel<I, E>>(s: S, a: S, b: S, n: nat)
    requires
        vm_runs_det_to::<I, E, S>(s, a, n),
        vm_runs_to::<I, E, S>(s, b, n),
    ensures
        a == b,
    decreases n,
{
    if n != 0 {
        let mid_a = choose|mid: S|
            {
                &&& vm_runs_det_to::<I, E, S>(s, mid, (n - 1) as nat)
                &&& !mid.halted()
                &&& vm_step_ok::<I, E, S>(mid)
                &&& vm_step_det::<I, E, S>(mid)
                &&& vm_step_rel::<I, E, S>(mid, a)
            };
        let mid_b = choose|mid: S|
            {
                &&& vm_runs_to::<I, E, S>(s, mid, (n - 1) as nat)
                &&& !mid.halted()
                &&& vm_step_ok::<I, E, S>(mid)
                &&& vm_step_rel::<I, E, S>(mid, b)
            };
        lemma_vm_runs_to_unique::<I, E, S>(s, mid_a, mid_b, (n - 1) as nat);
    }
}

/// A run passes through a state at every count up to its length, and is not
/// halted and can step at every count strictly before the end.
pub proof fn lemma_vm_runs_to_prefix<I, E, S: VmModel<I, E>>(s: S, m: S, j: nat, k: nat)
    requires
        vm_runs_to::<I, E, S>(s, m, j),
        k <= j,
    ensures
        exists|x: S|
            {
                &&& #[trigger] vm_runs_to::<I, E, S>(s, x, k)
                &&& (k < j ==> !x.halted() && vm_step_ok::<I, E, S>(x))
            },
    decreases j,
{
    if k == j {
        assert(vm_runs_to::<I, E, S>(s, m, k));
    } else {
        let mid = choose|mid: S|
            {
                &&& vm_runs_to::<I, E, S>(s, mid, (j - 1) as nat)
                &&& !mid.halted()
                &&& vm_step_ok::<I, E, S>(mid)
                &&& vm_step_rel::<I, E, S>(mid, m)
            };
        if k == j - 1 {
            assert(vm_runs_to::<I, E, S>(s, mid, k));
        } else {
            lemma_vm_runs_to_prefix::<I, E, S>(s, mid, (j - 1) as nat, k);
        }
    }
}

/// A state passed through strictly before the end of a single-valued run is
/// that run's own intermediate state: not halted, able to step, and itself
/// single-valued.
pub proof fn lemma_vm_mid_can_step<I, E, S: VmModel<I, E>>(s: S, t: S, n: nat, m: S, j: nat)
    requires
        vm_runs_det_to::<I, E, S>(s, t, n),
        vm_runs_to::<I, E, S>(s, m, j),
        j < n,
    ensures
        !m.halted(),
        vm_step_ok::<I, E, S>(m),
        vm_step_det::<I, E, S>(m),
    decreases n,
{
    let mid = choose|mid: S|
        {
            &&& vm_runs_det_to::<I, E, S>(s, mid, (n - 1) as nat)
            &&& !mid.halted()
            &&& vm_step_ok::<I, E, S>(mid)
            &&& vm_step_det::<I, E, S>(mid)
            &&& vm_step_rel::<I, E, S>(mid, t)
        };
    if j == n - 1 {
        lemma_vm_runs_to_unique::<I, E, S>(s, mid, m, j);
    } else {
        lemma_vm_mid_can_step::<I, E, S>(s, mid, (n - 1) as nat, m, j);
    }
}

/// Nothing is reachable beyond a halted state: a single-valued run to a
/// halted state in `n` steps bounds every run from the same start by `n`.
pub proof fn lemma_vm_not_beyond_halt<I, E, S: VmModel<I, E>>(s: S, h: S, n: nat, m: S, j: nat)
    requires
        vm_runs_det_to::<I, E, S>(s, h, n),
        h.halted(),
        vm_runs_to::<I, E, S>(s, m, j),
    ensures
        j <= n,
{
    if j > n {
        lemma_vm_runs_to_prefix::<I, E, S>(s, m, j, n);
        let x = choose|x: S|
            {
                &&& #[trigger] vm_runs_to::<I, E, S>(s, x, n)
                &&& (n < j ==> !x.halted() && vm_step_ok::<I, E, S>(x))
            };
        lemma_vm_runs_to_unique::<I, E, S>(s, h, x, n);
    }
}

/// A machine that can reach a halted state through single-valued steps
/// cannot fail: every reachable non-halted state can take a step, and the
/// halted state is the only reachable state where the run loop stops. With
/// `run`'s contract this says a run started at such a state never returns an
/// error, and on success stands exactly at that halted state.
pub proof fn lemma_vm_halt_excludes_failure<I, E, S: VmModel<I, E>>(s: S, h: S, m: S)
    requires
        vm_reaches_det::<I, E, S>(s, h),
        h.halted(),
        vm_reaches::<I, E, S>(s, m),
    ensures
        m.halted() ==> m == h,
        !m.halted() ==> vm_step_ok::<I, E, S>(m),
{
    let n = choose|n: nat| vm_runs_det_to::<I, E, S>(s, h, n);
    let j = choose|j: nat| vm_runs_to::<I, E, S>(s, m, j);
    lemma_vm_not_beyond_halt::<I, E, S>(s, h, n, m, j);
    if j == n {
        lemma_vm_runs_to_unique::<I, E, S>(s, h, m, n);
    } else {
        lemma_vm_mid_can_step::<I, E, S>(s, h, n, m, j);
    }
}

/// At most one state reachable through single-valued steps can stop the run
/// loop with a failure, and no other reachable state can: the failing state,
/// and with it the error `run` returns, is unique.
pub proof fn lemma_vm_fail_state_unique<I, E, S: VmModel<I, E>>(s: S, m1: S, m2: S)
    requires
        vm_reaches_det::<I, E, S>(s, m1),
        !m1.halted(),
        !vm_step_ok::<I, E, S>(m1),
        vm_reaches::<I, E, S>(s, m2),
        !m2.halted(),
        !vm_step_ok::<I, E, S>(m2),
    ensures
        m1 == m2,
{
    let n1 = choose|n: nat| vm_runs_det_to::<I, E, S>(s, m1, n);
    let n2 = choose|n: nat| vm_runs_to::<I, E, S>(s, m2, n);
    if n2 < n1 {
        lemma_vm_mid_can_step::<I, E, S>(s, m1, n1, m2, n2);
    } else if n1 < n2 {
        lemma_vm_runs_to_prefix::<I, E, S>(s, m2, n2, n1);
        let x = choose|x: S|
            {
                &&& #[trigger] vm_runs_to::<I, E, S>(s, x, n1)
                &&& (n1 < n2 ==> !x.halted() && vm_step_ok::<I, E, S>(x))
            };
        lemma_vm_runs_to_unique::<I, E, S>(s, m1, x, n1);
    } else {
        lemma_vm_runs_to_unique::<I, E, S>(s, m1, m2, n1);
    }
}

/// A single-valued run of `n > 0` steps starts with one single-valued step
/// from its first state, followed by such a run of `n - 1` steps.
pub proof fn lemma_vm_runs_det_to_front<I, E, S: VmModel<I, E>>(s: S, t: S, n: nat)
    requires
        vm_runs_det_to::<I, E, S>(s, t, n),
        n > 0,
    ensures
        !s.halted(),
        vm_step_ok::<I, E, S>(s),
        vm_step_det::<I, E, S>(s),
        exists|s1: S|
            #[trigger] vm_step_rel::<I, E, S>(s, s1) && vm_runs_det_to::<I, E, S>(
                s1,
                t,
                (n - 1) as nat,
            ),
    decreases n,
{
    let mid = choose|mid: S|
        {
            &&& vm_runs_det_to::<I, E, S>(s, mid, (n - 1) as nat)
            &&& !mid.halted()
            &&& vm_step_ok::<I, E, S>(mid)
            &&& vm_step_det::<I, E, S>(mid)
            &&& vm_step_rel::<I, E, S>(mid, t)
        };
    if n == 1 {
        assert(vm_runs_det_to::<I, E, S>(t, t, 0));
        assert(vm_step_rel::<I, E, S>(s, t) && vm_runs_det_to::<I, E, S>(t, t, 0));
    } else {
        lemma_vm_runs_det_to_front::<I, E, S>(s, mid, (n - 1) as nat);
        let s1 = choose|s1: S|
            #[trigger] vm_step_rel::<I, E, S>(s, s1) && vm_runs_det_to::<I, E, S>(
                s1,
                mid,
                (n - 2) as nat,
            );
        assert(vm_runs_det_to::<I, E, S>(s1, t, (n - 1) as nat));
    }
}

/// A machine that can reach a halted state through single-valued steps
/// settles: the bound `run` asks for exists, so such a machine can always be
/// driven to completion.
pub proof fn lemma_vm_halt_settles<I, E, S: VmModel<I, E>>(s: S, h: S, n: nat)
    requires
        vm_runs_det_to::<I, E, S>(s, h, n),
        h.halted(),
    ensures
        vm_settles_within::<I, E, S>(s, n),
    decreases n,
{
    if !s.halted() && vm_step_ok::<I, E, S>(s) {
        lemma_vm_runs_det_to_front::<I, E, S>(s, h, n);
        let s1 = choose|s1: S|
            #[trigger] vm_step_rel::<I, E, S>(s, s1) && vm_runs_det_to::<I, E, S>(
                s1,
                h,
                (n - 1) as nat,
            );
        lemma_vm_halt_settles::<I, E, S>(s1, h, (n - 1) as nat);
        assert forall|s2: S| #[trigger] vm_step_rel::<I, E, S>(s, s2) implies vm_settles_within::<
            I,
            E,
            S,
        >(s2, (n - 1) as nat) by {
            assert(s2 == s1);
        }
    }
}

} // verus!
