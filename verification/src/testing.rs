//! Assembly of many chips into one batch of constraint systems, traces and
//! public values, and the order in which the memory argument is closed.

use vstd::prelude::*;
use crate::memory_bus::MemoryBus;
use crate::trace::{matrix_height, trace_height};
use p3_matrix::dense::RowMajorMatrix;

verus! {

/// The greatest height among `traces`, and 0 where there is none.
pub open spec fn max_height(traces: Seq<RowMajorMatrix<u32>>) -> nat
    decreases traces.len(),
{
    if traces.len() == 0 {
        0
    } else {
        let rest = max_height(traces.drop_last());
        let last = trace_height(traces.last());
        if last >= rest {
            last
        } else {
            rest
        }
    }
}

/// `max_height` is an upper bound of every height, and one of the traces
/// reaches it.
pub proof fn lemma_max_height_is_greatest(traces: Seq<RowMajorMatrix<u32>>)
    ensures
        forall|i: int| 0 <= i < traces.len() ==> #[trigger] trace_height(traces[i]) <= max_height(traces),
        traces.len() > 0 ==> exists|i: int|
            0 <= i < traces.len() && #[trigger] trace_height(traces[i]) == max_height(traces),
    decreases traces.len(),
{
    if traces.len() > 0 {
        let front = traces.drop_last();
        lemma_max_height_is_greatest(front);
        assert forall|i: int| 0 <= i < traces.len() implies #[trigger] trace_height(traces[i])
            <= max_height(traces) by {
            if i < front.len() {
                assert(front[i] == traces[i]);
            }
        }
        if trace_height(traces.last()) >= max_height(front) {
            assert(trace_height(traces[traces.len() - 1]) == max_height(traces));
        } else {
            let i = choose|i: int|
                0 <= i < front.len() && #[trigger] trace_height(front[i]) == max_height(front);
            assert(traces[i] == front[i]);
        }
    }
}

/// The greatest height among `traces`.
pub fn max_trace_height_of(traces: &Vec<RowMajorMatrix<u32>>) -> (height: usize)
    requires
        traces@.len() > 0,
    ensures
        height == max_height(traces@),
{
    let mut height: usize = 0;
    let mut i: usize = 0;
    while i < traces.len()
        invariant
            i <= traces@.len(),
            height == max_height(traces@.take(i as int)),
        decreases traces@.len() - i,
    {
        let h = matrix_height(&traces[i]);
        proof {
            let next = traces@.take(i + 1);
            assert(next.drop_last() =~= traces@.take(i as int));
            assert(next.last() == traces@[i as int]);
        }
        if h >= height {
            height = h;
        }
        i = i + 1;
    }
    assert(traces@.take(i as int) =~= traces@);
    height
}

/// Why a batch was rejected.
#[derive(Clone, Copy, Debug, PartialEq, Eq, Structural)]
pub enum VerificationError {
    /// The batch is not of the shape that the engine asks for.
    MalformedInput,
    /// A constraint does not hold on the traces.
    ConstraintUnsatisfied,
}

/// A component of the machine: it gives public values, a constraint
/// description of type `A`, and a trace over `F`.
pub trait MachineChip<A, F>: Sized {
    fn generate_public_values(&mut self) -> Vec<F>;

    fn air(&self) -> A;

    fn generate_trace(self) -> RowMajorMatrix<F>;
}

/// One chip of type `C` gave the constraint description `air` and then the
/// trace `trace`.
pub open spec fn given_by<A, F, C: MachineChip<A, F>>(air: A, trace: RowMajorMatrix<F>) -> bool {
    exists|asked: C|
        #![auto]
        call_ensures(C::air, (&asked,), air) && call_ensures(C::generate_trace, (asked,), trace)
}

/// The memory side of a machine under test. It is a chip itself, and it
/// gives the two chips that close the memory argument with it.
pub trait MemoryTester<A, F>: MachineChip<A, F> {
    type Manager: MachineChip<A, F>;

    type RangeChecker: MachineChip<A, F>;

    fn bus(&self) -> MemoryBus;

    /// The memory manager, which holds every cell's first and last state.
    fn manager(&self) -> Self::Manager;

    /// The range checker that the memory side shares with the other chips.
    fn range_checker(&self) -> Self::RangeChecker;

    fn read_cell(&mut self, address_space: usize, pointer: usize) -> F;

    fn write_cell(&mut self, address_space: usize, pointer: usize, value: F);

    fn read<const N: usize>(&mut self, address_space: usize, pointer: usize) -> [F; N];

    fn write<const N: usize>(&mut self, address_space: usize, pointer: usize, value: [F; N]);
}

/// The bus on which the chips hand execution on to each other.
#[derive(Clone, Copy, Debug, PartialEq, Eq, Structural)]
pub struct ExecutionBus(pub usize);

/// The execution side of a machine under test: a chip that stands for the
/// rest of the machine on the execution bus.
pub trait ExecutionTester<A, F>: MachineChip<A, F> {
    fn bus(&self) -> ExecutionBus;

    /// Lets `executor` execute one instruction against `memory`, and keeps
    /// for the trace what the execution bus has to hold of it.
    fn execute<M: MemoryTester<A, F>, I, X: InstructionExecutor<M, I>>(
        &mut self,
        memory: &mut M,
        executor: &mut X,
        instruction: I,
    );
}

/// A chip that executes instructions of type `I` against a memory side `M`.
pub trait InstructionExecutor<M, I> {
    fn execute(&mut self, memory: &mut M, instruction: I);
}

/// An engine that proves and verifies one batch.
pub trait StarkEngine<A>: Sized {
    type VerificationData;

    fn run_simple_test(
        &self,
        airs: &Vec<A>,
        traces: &Vec<RowMajorMatrix<u32>>,
        public_values: &Vec<Vec<u32>>,
    ) -> Result<Self::VerificationData, VerificationError>;
}

/// An engine that can be made from the greatest trace height alone.
pub trait DefaultEngine<A>: StarkEngine<A> {
    fn default_engine(max_trace_height: usize) -> Self;
}

/// What a position of the batch was loaded as.
#[derive(Clone, Copy, Debug, PartialEq, Eq, Structural)]
pub enum LoadedChip {
    Chip,
    MemoryTester,
    MemoryManager,
    RangeChecker,
}

/// The three loads that close the memory argument, in their order. The
/// range checker is last: the trace generation of every other chip adds to
/// its counts.
pub open spec fn memory_closing_loads() -> Seq<LoadedChip> {
    seq![LoadedChip::MemoryTester, LoadedChip::MemoryManager, LoadedChip::RangeChecker]
}

/// The batch under assembly: three parallel sequences in the order of the
/// loads, and the memory side as long as it is still to be closed.
pub struct MachineChipTester<A, M> {
    pub memory: Option<M>,
    pub airs: Vec<A>,
    pub traces: Vec<RowMajorMatrix<u32>>,
    pub public_values: Vec<Vec<u32>>,
    pub loads: Ghost<Seq<LoadedChip>>,
}

impl<A, M> Default for MachineChipTester<A, M> {
    /// An empty batch without a memory side.
    fn default() -> (tester: Self)
        ensures
            tester.memory is None,
            tester.airs@.len() == 0,
            tester.traces@.len() == 0,
            tester.public_values@.len() == 0,
            tester.loads@.len() == 0,
            tester.wf(),
    {
        MachineChipTester::new()
    }
}

impl<A, M> MachineChipTester<A, M> {
    /// The three sequences and the record of the loads are parallel.
    pub open spec fn wf(self) -> bool {
        &&& self.airs@.len() == self.traces@.len()
        &&& self.airs@.len() == self.public_values@.len()
        &&& self.airs@.len() == self.loads@.len()
    }

    /// `self` holds what `before` held, then `n` more loads, and the same
    /// memory side.
    pub open spec fn extends(self, before: Self, n: nat) -> bool {
        &&& self.airs@.len() == before.airs@.len() + n
        &&& self.traces@.len() == before.traces@.len() + n
        &&& self.public_values@.len() == before.public_values@.len() + n
        &&& self.loads@.len() == before.loads@.len() + n
        &&& self.airs@.take(before.airs@.len() as int) == before.airs@
        &&& self.traces@.take(before.traces@.len() as int) == before.traces@
        &&& self.public_values@.take(before.public_values@.len() as int) == before.public_values@
        &&& self.loads@.take(before.loads@.len() as int) == before.loads@
        &&& before.wf() ==> self.wf()
    }

    /// An empty batch without a memory side.
    pub fn new() -> (tester: Self)
        ensures
            tester.memory is None,
            tester.airs@.len() == 0,
            tester.traces@.len() == 0,
            tester.public_values@.len() == 0,
            tester.loads@.len() == 0,
            tester.wf(),
    {
        MachineChipTester {
            memory: None,
            airs: Vec::new(),
            traces: Vec::new(),
            public_values: Vec::new(),
            loads: Ghost(Seq::empty()),
        }
    }

    /// An empty batch whose memory side is still to be closed.
    pub fn with_memory(memory: M) -> (tester: Self)
        ensures
            tester.memory == Some(memory),
            tester.airs@.len() == 0,
            tester.traces@.len() == 0,
            tester.public_values@.len() == 0,
            tester.loads@.len() == 0,
            tester.wf(),
    {
        MachineChipTester {
            memory: Some(memory),
            airs: Vec::new(),
            traces: Vec::new(),
            public_values: Vec::new(),
            loads: Ghost(Seq::empty()),
        }
    }

    /// Appends what one chip gave to the three sequences.
    pub fn push_chip(self, air: A, trace: RowMajorMatrix<u32>, public_values: Vec<u32>) -> (tester:
        Self)
        ensures
            tester.memory == self.memory,
            tester.airs@ == self.airs@.push(air),
            tester.traces@ == self.traces@.push(trace),
            tester.public_values@ == self.public_values@.push(public_values),
            tester.loads@ == self.loads@.push(LoadedChip::Chip),
            tester.extends(self, 1),
    {
        self.push_loaded(air, trace, public_values, Ghost(LoadedChip::Chip))
    }

    fn push_loaded(
        self,
        air: A,
        trace: RowMajorMatrix<u32>,
        public_values: Vec<u32>,
        Ghost(loaded): Ghost<LoadedChip>,
    ) -> (tester: Self)
        ensures
            tester.memory == self.memory,
            tester.airs@ == self.airs@.push(air),
            tester.traces@ == self.traces@.push(trace),
            tester.public_values@ == self.public_values@.push(public_values),
            tester.loads@ == self.loads@.push(loaded),
            tester.extends(self, 1),
    {
        let ghost before = self;
        let mut tester = self;
        tester.public_values.push(public_values);
        tester.airs.push(air);
        tester.traces.push(trace);
        tester.loads = Ghost(tester.loads@.push(loaded));
        proof {
            assert(tester.airs@.take(before.airs@.len() as int) =~= before.airs@);
            assert(tester.traces@.take(before.traces@.len() as int) =~= before.traces@);
            assert(tester.public_values@.take(before.public_values@.len() as int)
                =~= before.public_values@);
            assert(tester.loads@.take(before.loads@.len() as int) =~= before.loads@);
        }
        tester
    }

    fn load_as<C: MachineChip<A, u32>>(self, chip: C, Ghost(loaded): Ghost<LoadedChip>) -> (tester:
        Self)
        ensures
            tester.memory == self.memory,
            tester.loads@ == self.loads@.push(loaded),
            tester.extends(self, 1),
            given_by::<A, u32, C>(tester.airs@.last(), tester.traces@.last()),
    {
        let mut chip = chip;
        let public_values = chip.generate_public_values();
        let ghost asked = chip;
        let air = chip.air();
        let trace = chip.generate_trace();
        let tester = self.push_loaded(air, trace, public_values, Ghost(loaded));
        proof {
            assert(call_ensures(C::air, (&asked,), air));
            assert(call_ensures(C::generate_trace, (asked,), trace));
            assert(tester.airs@.last() == air);
            assert(tester.traces@.last() == trace);
        }
        tester
    }

    /// Loads one chip: asks it for its public values, then its constraint
    /// description, then its trace, and appends the three.
    pub fn load<C: MachineChip<A, u32>>(self, chip: C) -> (tester: Self)
        ensures
            tester.memory == self.memory,
            tester.loads@ == self.loads@.push(LoadedChip::Chip),
            tester.extends(self, 1),
            given_by::<A, u32, C>(tester.airs@.last(), tester.traces@.last()),
    {
        self.load_as(chip, Ghost(LoadedChip::Chip))
    }

    /// Loads one chip with a trace that the caller gives in place of the
    /// chip's own.
    pub fn load_with_custom_trace<C: MachineChip<A, u32>>(
        self,
        chip: C,
        trace: RowMajorMatrix<u32>,
    ) -> (tester: Self)
        ensures
            tester.memory == self.memory,
            tester.traces@ == self.traces@.push(trace),
            tester.loads@ == self.loads@.push(LoadedChip::Chip),
            tester.extends(self, 1),
            exists|asked: C| #![auto] call_ensures(C::air, (&asked,), tester.airs@.last()),
    {
        let mut chip = chip;
        let public_values = chip.generate_public_values();
        let ghost asked = chip;
        let air = chip.air();
        let tester = self.push_loaded(air, trace, public_values, Ghost(LoadedChip::Chip));
        proof {
            assert(call_ensures(C::air, (&asked,), air));
            assert(tester.airs@.last() == air);
        }
        tester
    }

    /// The greatest height among the loaded traces.
    pub open spec fn spec_max_trace_height(self) -> nat {
        max_height(self.traces@)
    }

    /// The greatest height among the loaded traces.
    pub fn max_trace_height(&self) -> (height: usize)
        requires
            self.traces@.len() > 0,
        ensures
            height == self.spec_max_trace_height(),
            forall|i: int|
                0 <= i < self.traces@.len() ==> #[trigger] trace_height(self.traces@[i])
                    <= height,
            exists|i: int|
                0 <= i < self.traces@.len() && #[trigger] trace_height(self.traces@[i])
                    == height,
    {
        proof {
            lemma_max_height_is_greatest(self.traces@);
        }
        max_trace_height_of(&self.traces)
    }

    /// Hands the batch to the engine that `engine_provider` makes for the
    /// greatest trace height, and returns the engine's verdict as it is.
    pub fn test<E: StarkEngine<A>, P: Fn(usize) -> E>(&self, engine_provider: P) -> (result:
        Result<E::VerificationData, VerificationError>)
        requires
            self.memory is None,
            self.traces@.len() > 0,
            forall|height: usize|
                height == self.spec_max_trace_height() ==> engine_provider.requires((height,)),
        ensures
            exists|engine: E|
                #![auto]
                engine_provider.ensures((self.spec_max_trace_height() as usize,), engine)
                    && call_ensures(
                    E::run_simple_test,
                    (&engine, &self.airs, &self.traces, &self.public_values),
                    result,
                ),
    {
        let height = self.max_trace_height();
        let engine = engine_provider(height);
        engine.run_simple_test(&self.airs, &self.traces, &self.public_values)
    }
}

impl<A, M> MachineChipTester<A, M> {
    /// Hands the batch to the default engine of type `E` for the greatest
    /// trace height, and returns the engine's verdict as it is.
    pub fn simple_test<E: DefaultEngine<A>>(&self) -> (result: Result<
        E::VerificationData,
        VerificationError,
    >)
        requires
            self.memory is None,
            self.traces@.len() > 0,
        ensures
            exists|engine: E|
                #![auto]
                call_ensures(
                    E::default_engine,
                    (self.spec_max_trace_height() as usize,),
                    engine,
                ) && call_ensures(
                    E::run_simple_test,
                    (&engine, &self.airs, &self.traces, &self.public_values),
                    result,
                ),
    {
        let height = self.max_trace_height();
        let engine = E::default_engine(height);
        engine.run_simple_test(&self.airs, &self.traces, &self.public_values)
    }
}

impl<A, M: MemoryTester<A, u32>> MachineChipTester<A, M> {
    /// Closes the memory argument: loads the memory tester, then the memory
    /// manager, then the range checker, and leaves no memory side behind.
    pub fn finalize(self) -> (tester: Self)
        requires
            self.memory is Some,
        ensures
            tester.memory is None,
            tester.loads@ == self.loads@ + memory_closing_loads(),
            tester.loads@.last() == LoadedChip::RangeChecker,
            given_by::<A, u32, M>(
                tester.airs@[self.airs@.len() as int],
                tester.traces@[self.traces@.len() as int],
            ),
            given_by::<A, u32, M::Manager>(
                tester.airs@[self.airs@.len() as int + 1],
                tester.traces@[self.traces@.len() as int + 1],
            ),
            given_by::<A, u32, M::RangeChecker>(
                tester.airs@[self.airs@.len() as int + 2],
                tester.traces@[self.traces@.len() as int + 2],
            ),
            tester.airs@.len() == self.airs@.len() + 3,
            tester.traces@.len() == self.traces@.len() + 3,
            tester.public_values@.len() == self.public_values@.len() + 3,
            tester.airs@.take(self.airs@.len() as int) == self.airs@,
            tester.traces@.take(self.traces@.len() as int) == self.traces@,
            tester.public_values@.take(self.public_values@.len() as int) == self.public_values@,
            self.wf() ==> tester.wf(),
    {
        let ghost before = self;
        let mut tester = self;
        match tester.memory.take() {
            Some(memory_tester) => {
                let manager = memory_tester.manager();
                let range_checker = memory_tester.range_checker();
                tester = tester.load_as(memory_tester, Ghost(LoadedChip::MemoryTester));
                let ghost first = tester;
                tester = tester.load_as(manager, Ghost(LoadedChip::MemoryManager));
                let ghost second = tester;
                tester = tester.load_as(range_checker, Ghost(LoadedChip::RangeChecker));
                proof {
                    let n = before.airs@.len() as int;
                    assert(tester.loads@ =~= before.loads@ + memory_closing_loads());
                    assert(first.airs@.take(n) == before.airs@);
                    assert(second.airs@.take(n) =~= second.airs@.take(n + 1).take(n));
                    assert(tester.airs@.take(n) =~= tester.airs@.take(n + 2).take(n));
                    let t = before.traces@.len() as int;
                    assert(second.traces@.take(t) =~= second.traces@.take(t + 1).take(t));
                    assert(tester.traces@.take(t) =~= tester.traces@.take(t + 2).take(t));
                    let p = before.public_values@.len() as int;
                    assert(second.public_values@.take(p) =~= second.public_values@.take(p + 1).take(
                        p,
                    ));
                    assert(tester.public_values@.take(p) =~= tester.public_values@.take(
                        p + 2,
                    ).take(p));
                    assert(first.airs@.last() == second.airs@.take(n + 1)[n]);
                    assert(second.airs@[n] == tester.airs@.take(n + 2)[n]);
                    assert(second.airs@.last() == tester.airs@.take(n + 2)[n + 1]);
                    assert(first.traces@.last() == second.traces@.take(t + 1)[t]);
                    assert(second.traces@[t] == tester.traces@.take(t + 2)[t]);
                    assert(second.traces@.last() == tester.traces@.take(t + 2)[t + 1]);
                }
                tester
            },
            None => tester,
        }
    }
}

/// A machine under test before assembly: its memory side and its
/// execution side.
#[derive(Clone, Debug)]
pub struct MachineChipTestBuilder<M, E> {
    pub memory: M,
    pub execution: E,
}

impl<M, E> MachineChipTestBuilder<M, E> {
    pub fn new(memory: M, execution: E) -> (builder: Self)
        ensures
            builder.memory == memory,
            builder.execution == execution,
    {
        MachineChipTestBuilder { memory, execution }
    }

    /// Lets `executor` execute one instruction against the memory side: one
    /// call of the execution side's `execute`, on the memory side, the
    /// executor and the instruction. Both sides and the executor are left
    /// as that call left them.
    pub fn execute<A, F, I, X: InstructionExecutor<M, I>>(
        &mut self,
        executor: &mut X,
        instruction: I,
    ) where M: MemoryTester<A, F>, E: ExecutionTester<A, F>
        ensures
            exists|execution: &mut E, memory: &mut M, called: &mut X|
                #![auto]
                mut_ref_current(execution) == old(self).execution && mut_ref_future(execution)
                    == final(self).execution && mut_ref_current(memory) == old(self).memory
                    && mut_ref_future(memory) == final(self).memory && mut_ref_current(called)
                    == *old(executor) && mut_ref_future(called) == *final(executor)
                    && call_ensures(
                    E::execute::<M, I, X>,
                    (execution, memory, called, instruction),
                    (),
                ),
    {
        self.execution.execute(&mut self.memory, executor, instruction);
    }

    /// Reads one cell through the memory side: the value is what the memory
    /// side's `read_cell` gives at this address, and the memory side is
    /// left as that call left it.
    pub fn read_cell<A, F>(&mut self, address_space: usize, pointer: usize) -> (value: F) where
        M: MemoryTester<A, F>,

        ensures
            final(self).execution == old(self).execution,
            exists|memory: &mut M|
                #![auto]
                mut_ref_current(memory) == old(self).memory && mut_ref_future(memory)
                    == final(self).memory && call_ensures(
                    M::read_cell,
                    (memory, address_space, pointer),
                    value,
                ),
    {
        self.memory.read_cell(address_space, pointer)
    }

    /// Writes one cell through the memory side: one call of the memory
    /// side's `write_cell` with this address and value, and the memory side
    /// is left as that call left it.
    pub fn write_cell<A, F>(&mut self, address_space: usize, pointer: usize, value: F) where
        M: MemoryTester<A, F>,

        ensures
            final(self).execution == old(self).execution,
            exists|memory: &mut M|
                #![auto]
                mut_ref_current(memory) == old(self).memory && mut_ref_future(memory)
                    == final(self).memory && call_ensures(
                    M::write_cell,
                    (memory, address_space, pointer, value),
                    (),
                ),
    {
        self.memory.write_cell(address_space, pointer, value);
    }

    /// Reads `N` cells in a row through the memory side: the values are
    /// what the memory side's `read` gives from this address on, and the
    /// memory side is left as that call left it.
    pub fn read<A, F, const N: usize>(&mut self, address_space: usize, pointer: usize) -> (value:
        [F; N]) where M: MemoryTester<A, F>
        ensures
            final(self).execution == old(self).execution,
            exists|memory: &mut M|
                #![auto]
                mut_ref_current(memory) == old(self).memory && mut_ref_future(memory)
                    == final(self).memory && call_ensures(
                    M::read::<N>,
                    (memory, address_space, pointer),
                    value,
                ),
    {
        self.memory.read(address_space, pointer)
    }

    /// Writes `N` cells in a row through the memory side: one call of the
    /// memory side's `write` with this address and these values, and the
    /// memory side is left as that call left it.
    pub fn write<A, F, const N: usize>(
        &mut self,
        address_space: usize,
        pointer: usize,
        value: [F; N],
    ) where M: MemoryTester<A, F>
        ensures
            final(self).execution == old(self).execution,
            exists|memory: &mut M|
                #![auto]
                mut_ref_current(memory) == old(self).memory && mut_ref_future(memory)
                    == final(self).memory && call_ensures(
                    M::write::<N>,
                    (memory, address_space, pointer, value),
                    (),
                ),
    {
        self.memory.write(address_space, pointer, value);
    }

    /// The bus of the execution side.
    pub fn execution_bus<A, F>(&self) -> (bus: ExecutionBus) where E: ExecutionTester<A, F>
        ensures
            call_ensures(E::bus, (&self.execution,), bus),
    {
        self.execution.bus()
    }

    /// The bus of the memory side.
    pub fn memory_bus<A, F>(&self) -> (bus: MemoryBus) where M: MemoryTester<A, F>
        ensures
            call_ensures(M::bus, (&self.memory,), bus),
    {
        self.memory.bus()
    }

    /// The memory manager of the memory side.
    pub fn memory_chip<A, F>(&self) -> (manager: M::Manager) where M: MemoryTester<A, F>
        ensures
            call_ensures(M::manager, (&self.memory,), manager),
    {
        self.memory.manager()
    }

    /// Starts the assembly: the memory side is kept to be closed later, and
    /// the execution side is the first chip loaded.
    pub fn build<A>(self) -> (tester: MachineChipTester<A, M>) where
        M: MemoryTester<A, u32>,
        E: ExecutionTester<A, u32>,

        ensures
            tester.memory == Some(self.memory),
            tester.airs@.len() == 1,
            tester.traces@.len() == 1,
            tester.public_values@.len() == 1,
            tester.loads@ == seq![LoadedChip::Chip],
            given_by::<A, u32, E>(tester.airs@[0], tester.traces@[0]),
            tester.wf(),
    {
        let tester = MachineChipTester::with_memory(self.memory);
        let tester = tester.load(self.execution);
        assert(tester.loads@ =~= seq![LoadedChip::Chip]);
        assert(tester.airs@.last() == tester.airs@[0]);
        assert(tester.traces@.last() == tester.traces@[0]);
        tester
    }
}

/// In a batch that `finalize` has closed, the range checker holds the last
/// position: every other load of the batch comes before it.
pub proof fn lemma_range_checker_loaded_last(before: Seq<LoadedChip>)
    ensures
        (before + memory_closing_loads()).len() == before.len() + 3,
        (before + memory_closing_loads()).last() == LoadedChip::RangeChecker,
        (before + memory_closing_loads())[before.len() as int] == LoadedChip::MemoryTester,
        (before + memory_closing_loads())[before.len() as int + 1] == LoadedChip::MemoryManager,
        forall|i: int|
            0 <= i < before.len() ==> (before + memory_closing_loads())[i] == before[i],
{
}

} // verus!
