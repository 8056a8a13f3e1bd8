//! A virtual machine: the state that outlives a run of the interpreter,
//! and the passing of arguments and results between the host and the
//! bytecode.

use crate::interp::machine::{InterpView, Interpreter};
use crate::interp::regs::{FReg, VReg, XReg, SP};
use crate::interp::state::{
    Done, DoneReason, MachineState, StateView, DEFAULT_STACK_SIZE, HOST_RETURN_ADDR,
    MAX_STACK_SIZE,
};
use crate::interp::value::{RegType, Val};
use vstd::prelude::*;

verus! {

/// A virtual machine.
pub struct Vm {
    state: MachineState,
    executing_pc: u64,
}

/// The registers of each bank that arguments have taken, and the state
/// with the arguments in them.
pub ghost struct PlacedArgs {
    pub state: StateView,
    /// The number of integer registers taken.
    pub x: nat,
    /// The number of float registers taken.
    pub f: nat,
    /// The number of vector registers taken.
    pub v: nat,
}

/// Places each argument in the next register of its bank, from register 0
/// on.
pub open spec fn spec_place_args(st: StateView, args: Seq<Val>) -> PlacedArgs
    decreases args.len(),
{
    if args.len() == 0 {
        PlacedArgs { state: st, x: 0, f: 0, v: 0 }
    } else {
        let before = spec_place_args(st, args.drop_last());
        match args.last() {
            Val::XReg(val) => PlacedArgs {
                state: before.state.set_x(before.x as int, val),
                x: before.x + 1,
                ..before
            },
            Val::FReg(val) => PlacedArgs {
                state: before.state.set_f(before.f as int, val),
                f: before.f + 1,
                ..before
            },
            Val::VReg(val) => PlacedArgs {
                state: before.state.set_v(before.v as int, val),
                v: before.v + 1,
                ..before
            },
        }
    }
}

/// The results that have been read, and the registers of each bank that
/// they were read from.
pub ghost struct ReadRets {
    pub vals: Seq<Val>,
    pub x: nat,
    pub f: nat,
    pub v: nat,
}

/// Reads a result of each of the kinds `rets` from the next register of
/// its bank, from register 0 on.
pub open spec fn spec_read_rets(st: StateView, rets: Seq<RegType>) -> ReadRets
    decreases rets.len(),
{
    if rets.len() == 0 {
        ReadRets { vals: Seq::empty(), x: 0, f: 0, v: 0 }
    } else {
        let before = spec_read_rets(st, rets.drop_last());
        match rets.last() {
            RegType::XReg => ReadRets {
                vals: before.vals.push(Val::XReg(st.x[before.x as int])),
                x: before.x + 1,
                ..before
            },
            RegType::FReg => ReadRets {
                vals: before.vals.push(Val::FReg(st.f[before.f as int])),
                f: before.f + 1,
                ..before
            },
            RegType::VReg => ReadRets {
                vals: before.vals.push(Val::VReg(st.v[before.v as int])),
                v: before.v + 1,
                ..before
            },
        }
    }
}

/// A prefix of the arguments takes no more registers than all of them.
pub proof fn lemma_place_args_monotone(st: StateView, args: Seq<Val>, n: int)
    requires
        0 <= n <= args.len(),
    ensures
        spec_place_args(st, args.take(n)).x <= spec_place_args(st, args).x,
        spec_place_args(st, args.take(n)).f <= spec_place_args(st, args).f,
        spec_place_args(st, args.take(n)).v <= spec_place_args(st, args).v,
    decreases args.len() - n,
{
    if n < args.len() {
        assert(args.take(n + 1).drop_last() =~= args.take(n));
        lemma_place_args_monotone(st, args, n + 1);
    } else {
        assert(args.take(n) =~= args);
    }
}

/// Placing arguments changes registers of the three banks only.
pub proof fn lemma_place_args_keeps(st: StateView, args: Seq<Val>)
    ensures
        spec_place_args(st, args).state.lr == st.lr,
        spec_place_args(st, args).state.fp == st.fp,
        spec_place_args(st, args).state.stack == st.stack,
        spec_place_args(st, args).state.done_reason == st.done_reason,
    decreases args.len(),
{
    if args.len() > 0 {
        lemma_place_args_keeps(st, args.drop_last());
    }
}

/// A prefix of the results is read from no more registers than all of
/// them.
pub proof fn lemma_read_rets_monotone(st: StateView, rets: Seq<RegType>, n: int)
    requires
        0 <= n <= rets.len(),
    ensures
        spec_read_rets(st, rets.take(n)).x <= spec_read_rets(st, rets).x,
        spec_read_rets(st, rets.take(n)).f <= spec_read_rets(st, rets).f,
        spec_read_rets(st, rets.take(n)).v <= spec_read_rets(st, rets).v,
    decreases rets.len() - n,
{
    if n < rets.len() {
        assert(rets.take(n + 1).drop_last() =~= rets.take(n));
        lemma_read_rets_monotone(st, rets, n + 1);
    } else {
        assert(rets.take(n) =~= rets);
    }
}

impl Default for Vm {
    /// A machine with a stack of the default size.
    fn default() -> (vm: Vm)
        ensures
            vm.spec_state().wf(),
            vm.spec_state().stack.len() == DEFAULT_STACK_SIZE,
            vm.spec_state().sp() == vm.spec_state().stack_end(),
            forall|i: int| 0 <= i < 32 && i != SP ==> (#[trigger] vm.spec_state().x[i]).bits == 0,
            forall|i: int| 0 <= i < 32 ==> (#[trigger] vm.spec_state().f[i]).bits == 0,
            forall|i: int| 0 <= i < 32 ==> (#[trigger] vm.spec_state().v[i]).bits == 0,
            vm.spec_state().fp == HOST_RETURN_ADDR,
            vm.spec_state().lr == HOST_RETURN_ADDR,
            vm.spec_state().done_reason is None,
    {
        Vm::new()
    }
}

impl Vm {
    /// The machine state.
    pub closed spec fn spec_state(&self) -> StateView {
        self.state@
    }

    /// The address of the instruction that was last recorded as running.
    pub closed spec fn spec_executing_pc(&self) -> u64 {
        self.executing_pc
    }

    /// A machine with a stack of the default size.
    pub fn new() -> (vm: Vm)
        ensures
            vm.spec_state().wf(),
            vm.spec_state().stack.len() == DEFAULT_STACK_SIZE,
            vm.spec_state().sp() == vm.spec_state().stack_end(),
            forall|i: int| 0 <= i < 32 && i != SP ==> (#[trigger] vm.spec_state().x[i]).bits == 0,
            forall|i: int| 0 <= i < 32 ==> (#[trigger] vm.spec_state().f[i]).bits == 0,
            forall|i: int| 0 <= i < 32 ==> (#[trigger] vm.spec_state().v[i]).bits == 0,
            vm.spec_state().fp == HOST_RETURN_ADDR,
            vm.spec_state().lr == HOST_RETURN_ADDR,
            vm.spec_state().done_reason is None,
    {
        Self::with_stack(DEFAULT_STACK_SIZE)
    }

    /// A machine with a stack of at least `stack_size` bytes.
    pub fn with_stack(stack_size: usize) -> (vm: Vm)
        requires
            stack_size <= MAX_STACK_SIZE,
        ensures
            vm.spec_state().wf(),
            vm.spec_state().stack.len() == (stack_size + 15) / 16 * 16,
            vm.spec_state().sp() == vm.spec_state().stack_end(),
            forall|i: int| 0 <= i < 32 && i != SP ==> (#[trigger] vm.spec_state().x[i]).bits == 0,
            forall|i: int| 0 <= i < 32 ==> (#[trigger] vm.spec_state().f[i]).bits == 0,
            forall|i: int| 0 <= i < 32 ==> (#[trigger] vm.spec_state().v[i]).bits == 0,
            vm.spec_state().fp == HOST_RETURN_ADDR,
            vm.spec_state().lr == HOST_RETURN_ADDR,
            vm.spec_state().done_reason is None,
    {
        Vm { state: MachineState::with_stack(stack_size), executing_pc: 0 }
    }

    /// The machine state.
    pub fn state(&self) -> (state: &MachineState)
        ensures
            state@ == self.spec_state(),
    {
        &self.state
    }

    /// The machine state, to be changed.
    pub fn state_mut(&mut self) -> (state: &mut MachineState)
        ensures
            state@ == old(self).spec_state(),
            final(self).spec_state() == final(state)@,
            final(self).spec_executing_pc() == old(self).spec_executing_pc(),
    {
        &mut self.state
    }

    /// The frame pointer.
    pub fn fp(&self) -> (fp: u64)
        ensures
            fp == self.spec_state().fp,
    {
        self.state.fp()
    }

    /// The link register.
    pub fn lr(&self) -> (lr: u64)
        ensures
            lr == self.spec_state().lr,
    {
        self.state.lr()
    }

    /// Sets the frame pointer.
    pub fn set_fp(&mut self, fp: u64)
        ensures
            final(self).spec_state() == (StateView { fp, ..old(self).spec_state() }),
            final(self).spec_executing_pc() == old(self).spec_executing_pc(),
    {
        self.state.set_fp(fp);
    }

    /// Sets the link register.
    pub fn set_lr(&mut self, lr: u64)
        ensures
            final(self).spec_state() == (StateView { lr, ..old(self).spec_state() }),
            final(self).spec_executing_pc() == old(self).spec_executing_pc(),
    {
        self.state.set_lr(lr);
    }

    /// The address of the instruction that was last recorded as running,
    /// for a profiler to read.
    pub fn executing_pc(&self) -> (pc: u64)
        ensures
            pc == self.spec_executing_pc(),
    {
        self.executing_pc
    }

    /// Records the address of the instruction that is running.
    pub fn record_executing_pc(&mut self, pc: u64)
        ensures
            final(self).spec_executing_pc() == pc,
            final(self).spec_state() == old(self).spec_state(),
    {
        self.executing_pc = pc;
    }

    /// Begins a run of the bytecode at `pc`: the machine state goes to an
    /// interpreter, which the dispatch loop drives until a handler stops
    /// it.
    pub fn begin_run(self, pc: u64) -> (i: Interpreter)
        requires
            self.spec_state().done_reason is None,
        ensures
            i@ == (InterpView { state: self.spec_state(), pc }),
    {
        Interpreter::new(self.state, pc)
    }

    /// Ends a run that a handler stopped: the machine state comes back,
    /// with the reason of the stop taken out of it and returned. The
    /// place where the interpreter stopped is recorded as the place last
    /// running.
    pub fn end_run(i: Interpreter, done: Done) -> (r: (Vm, DoneReason<()>))
        requires
            i@.state.done_reason is Some,
        ensures
            Some(r.1) == i@.state.done_reason,
            r.0.spec_state() == (StateView { done_reason: None, ..i@.state }),
            r.0.spec_executing_pc() == i@.pc,
    {
        let executing_pc = i.pc();
        let mut state = i.into_state();
        let reason = state.done_decode(done);
        (Vm { state, executing_pc }, reason)
    }

    /// Begins a call from the host: each argument goes to the next
    /// register of its bank, and the link register is set to lead back to
    /// the host. Returns the link register's old value, for `call_end`.
    ///
    /// Each bank takes at most 16 arguments.
    pub fn call_start(&mut self, args: &Vec<Val>) -> (old_lr: u64)
        requires
            spec_place_args(old(self).spec_state(), args@).x <= 16,
            spec_place_args(old(self).spec_state(), args@).f <= 16,
            spec_place_args(old(self).spec_state(), args@).v <= 16,
        ensures
            old_lr == old(self).spec_state().lr,
            final(self).spec_state() == (StateView {
                lr: HOST_RETURN_ADDR,
                ..spec_place_args(old(self).spec_state(), args@).state
            }),
            final(self).spec_executing_pc() == old(self).spec_executing_pc(),
    {
        let ghost start = self.state@;
        let mut x: u8 = 0;
        let mut f: u8 = 0;
        let mut v: u8 = 0;
        let mut i: usize = 0;
        proof {
            assert(args@.take(0) =~= Seq::<Val>::empty());
        }
        while i < args.len()
            invariant
                i <= args@.len(),
                spec_place_args(start, args@).x <= 16,
                spec_place_args(start, args@).f <= 16,
                spec_place_args(start, args@).v <= 16,
                (PlacedArgs { state: self.state@, x: x as nat, f: f as nat, v: v as nat })
                    == spec_place_args(start, args@.take(i as int)),
                self.executing_pc == old(self).executing_pc,
            decreases args@.len() - i,
        {
            proof {
                assert(args@.take(i + 1).drop_last() =~= args@.take(i as int));
                assert(args@.take(i + 1).last() == args@[i as int]);
                lemma_place_args_monotone(start, args@, i + 1);
            }
            match args[i] {
                Val::XReg(val) => {
                    match XReg::new(x) {
                        Some(reg) => self.state.set_x(reg, val),
                        None => vstd::pervasive::unreached(),
                    }
                    x += 1;
                },
                Val::FReg(val) => {
                    match FReg::new(f) {
                        Some(reg) => self.state.set_f(reg, val),
                        None => vstd::pervasive::unreached(),
                    }
                    f += 1;
                },
                Val::VReg(val) => {
                    match VReg::new(v) {
                        Some(reg) => self.state.set_v(reg, val),
                        None => vstd::pervasive::unreached(),
                    }
                    v += 1;
                },
            }
            i += 1;
        }
        proof {
            assert(args@.take(args@.len() as int) =~= args@);
            lemma_place_args_keeps(start, args@);
        }
        let old_lr = self.state.lr();
        self.state.set_lr(HOST_RETURN_ADDR);
        old_lr
    }

    /// Ends a call from the host: the link register gets back its old
    /// value `old_ret`, and a result of each of the kinds `rets` is read
    /// from the next register of its bank.
    ///
    /// At most 15 results are integers, and at most 16 are of each other
    /// kind.
    pub fn call_end(&mut self, old_ret: u64, rets: &Vec<RegType>) -> (vals: Vec<Val>)
        requires
            spec_read_rets(old(self).spec_state(), rets@).x <= 15,
            spec_read_rets(old(self).spec_state(), rets@).f <= 16,
            spec_read_rets(old(self).spec_state(), rets@).v <= 16,
        ensures
            vals@ == spec_read_rets(old(self).spec_state(), rets@).vals,
            final(self).spec_state() == (StateView { lr: old_ret, ..old(self).spec_state() }),
            final(self).spec_executing_pc() == old(self).spec_executing_pc(),
    {
        let ghost start = self.state@;
        self.state.set_lr(old_ret);
        let mut vals: Vec<Val> = Vec::new();
        let mut x: u8 = 0;
        let mut f: u8 = 0;
        let mut v: u8 = 0;
        let mut i: usize = 0;
        proof {
            assert(rets@.take(0) =~= Seq::<RegType>::empty());
        }
        while i < rets.len()
            invariant
                i <= rets@.len(),
                spec_read_rets(start, rets@).x <= 15,
                spec_read_rets(start, rets@).f <= 16,
                spec_read_rets(start, rets@).v <= 16,
                self.state@ == (StateView { lr: old_ret, ..start }),
                (ReadRets { vals: vals@, x: x as nat, f: f as nat, v: v as nat }) == spec_read_rets(
                    start,
                    rets@.take(i as int),
                ),
            decreases rets@.len() - i,
        {
            proof {
                assert(rets@.take(i + 1).drop_last() =~= rets@.take(i as int));
                assert(rets@.take(i + 1).last() == rets@[i as int]);
                lemma_read_rets_monotone(start, rets@, i + 1);
            }
            match rets[i] {
                RegType::XReg => {
                    match XReg::new(x) {
                        Some(reg) => vals.push(Val::XReg(self.state.x(reg))),
                        None => vstd::pervasive::unreached(),
                    }
                    x += 1;
                },
                RegType::FReg => {
                    match FReg::new(f) {
                        Some(reg) => vals.push(Val::FReg(self.state.f(reg))),
                        None => vstd::pervasive::unreached(),
                    }
                    f += 1;
                },
                RegType::VReg => {
                    match VReg::new(v) {
                        Some(reg) => vals.push(Val::VReg(self.state.v(reg))),
                        None => vstd::pervasive::unreached(),
                    }
                    v += 1;
                },
            }
            i += 1;
        }
        proof {
            assert(rets@.take(rets@.len() as int) =~= rets@);
        }
        vals
    }
}

} // verus!
