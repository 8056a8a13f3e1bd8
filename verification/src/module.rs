//! A WebAssembly module as compilation sees it: what it imports and
//! defines, in one index space for each kind of entity, imports first.

use vstd::prelude::*;

verus! {

/// The index of a function.
#[derive(Copy, Clone, PartialEq, Eq, Debug, Structural)]
pub struct FuncIndex(pub u32);

impl FuncIndex {
    /// The index with the given number, which is below the greatest
    /// 32-bit number: that one is kept for a missing index.
    pub fn new(index: usize) -> (r: Self)
        requires
            index < u32::MAX,
        ensures
            r.0 == index,
    {
        FuncIndex(index as u32)
    }

    /// The number of the index.
    pub fn index(self) -> (i: usize)
        ensures
            i == self.0,
    {
        self.0 as usize
    }
}

/// The index of a function that the module defines.
#[derive(Copy, Clone, PartialEq, Eq, Debug, Structural)]
pub struct DefinedFuncIndex(pub u32);

impl DefinedFuncIndex {
    /// The index with the given number, which is below the greatest
    /// 32-bit number: that one is kept for a missing index.
    pub fn new(index: usize) -> (r: Self)
        requires
            index < u32::MAX,
        ensures
            r.0 == index,
    {
        DefinedFuncIndex(index as u32)
    }

    /// The number of the index.
    pub fn index(self) -> (i: usize)
        ensures
            i == self.0,
    {
        self.0 as usize
    }
}

/// The index of a table.
#[derive(Copy, Clone, PartialEq, Eq, Debug, Structural)]
pub struct TableIndex(pub u32);

impl TableIndex {
    /// The index with the given number, which is below the greatest
    /// 32-bit number: that one is kept for a missing index.
    pub fn new(index: usize) -> (r: Self)
        requires
            index < u32::MAX,
        ensures
            r.0 == index,
    {
        TableIndex(index as u32)
    }

    /// The number of the index.
    pub fn index(self) -> (i: usize)
        ensures
            i == self.0,
    {
        self.0 as usize
    }
}

/// The index of a table that the module defines.
#[derive(Copy, Clone, PartialEq, Eq, Debug, Structural)]
pub struct DefinedTableIndex(pub u32);

impl DefinedTableIndex {
    /// The index with the given number, which is below the greatest
    /// 32-bit number: that one is kept for a missing index.
    pub fn new(index: usize) -> (r: Self)
        requires
            index < u32::MAX,
        ensures
            r.0 == index,
    {
        DefinedTableIndex(index as u32)
    }

    /// The number of the index.
    pub fn index(self) -> (i: usize)
        ensures
            i == self.0,
    {
        self.0 as usize
    }
}

/// The index of a memory.
#[derive(Copy, Clone, PartialEq, Eq, Debug, Structural)]
pub struct MemoryIndex(pub u32);

impl MemoryIndex {
    /// The index with the given number, which is below the greatest
    /// 32-bit number: that one is kept for a missing index.
    pub fn new(index: usize) -> (r: Self)
        requires
            index < u32::MAX,
        ensures
            r.0 == index,
    {
        MemoryIndex(index as u32)
    }

    /// The number of the index.
    pub fn index(self) -> (i: usize)
        ensures
            i == self.0,
    {
        self.0 as usize
    }
}

/// The index of a memory that the module defines.
#[derive(Copy, Clone, PartialEq, Eq, Debug, Structural)]
pub struct DefinedMemoryIndex(pub u32);

impl DefinedMemoryIndex {
    /// The index with the given number, which is below the greatest
    /// 32-bit number: that one is kept for a missing index.
    pub fn new(index: usize) -> (r: Self)
        requires
            index < u32::MAX,
        ensures
            r.0 == index,
    {
        DefinedMemoryIndex(index as u32)
    }

    /// The number of the index.
    pub fn index(self) -> (i: usize)
        ensures
            i == self.0,
    {
        self.0 as usize
    }
}

/// The index of a memory that the module defines and does not share.
#[derive(Copy, Clone, PartialEq, Eq, Debug, Structural)]
pub struct OwnedMemoryIndex(pub u32);

impl OwnedMemoryIndex {
    /// The index with the given number, which is below the greatest
    /// 32-bit number: that one is kept for a missing index.
    pub fn new(index: usize) -> (r: Self)
        requires
            index < u32::MAX,
        ensures
            r.0 == index,
    {
        OwnedMemoryIndex(index as u32)
    }

    /// The number of the index.
    pub fn index(self) -> (i: usize)
        ensures
            i == self.0,
    {
        self.0 as usize
    }
}

/// The index of a global.
#[derive(Copy, Clone, PartialEq, Eq, Debug, Structural)]
pub struct GlobalIndex(pub u32);

impl GlobalIndex {
    /// The index with the given number, which is below the greatest
    /// 32-bit number: that one is kept for a missing index.
    pub fn new(index: usize) -> (r: Self)
        requires
            index < u32::MAX,
        ensures
            r.0 == index,
    {
        GlobalIndex(index as u32)
    }

    /// The number of the index.
    pub fn index(self) -> (i: usize)
        ensures
            i == self.0,
    {
        self.0 as usize
    }
}

/// The index of a global that the module defines.
#[derive(Copy, Clone, PartialEq, Eq, Debug, Structural)]
pub struct DefinedGlobalIndex(pub u32);

impl DefinedGlobalIndex {
    /// The index with the given number, which is below the greatest
    /// 32-bit number: that one is kept for a missing index.
    pub fn new(index: usize) -> (r: Self)
        requires
            index < u32::MAX,
        ensures
            r.0 == index,
    {
        DefinedGlobalIndex(index as u32)
    }

    /// The number of the index.
    pub fn index(self) -> (i: usize)
        ensures
            i == self.0,
    {
        self.0 as usize
    }
}

/// The index of a tag.
#[derive(Copy, Clone, PartialEq, Eq, Debug, Structural)]
pub struct TagIndex(pub u32);

impl TagIndex {
    /// The index with the given number, which is below the greatest
    /// 32-bit number: that one is kept for a missing index.
    pub fn new(index: usize) -> (r: Self)
        requires
            index < u32::MAX,
        ensures
            r.0 == index,
    {
        TagIndex(index as u32)
    }

    /// The number of the index.
    pub fn index(self) -> (i: usize)
        ensures
            i == self.0,
    {
        self.0 as usize
    }
}

/// The index of a tag that the module defines.
#[derive(Copy, Clone, PartialEq, Eq, Debug, Structural)]
pub struct DefinedTagIndex(pub u32);

impl DefinedTagIndex {
    /// The index with the given number, which is below the greatest
    /// 32-bit number: that one is kept for a missing index.
    pub fn new(index: usize) -> (r: Self)
        requires
            index < u32::MAX,
        ensures
            r.0 == index,
    {
        DefinedTagIndex(index as u32)
    }

    /// The number of the index.
    pub fn index(self) -> (i: usize)
        ensures
            i == self.0,
    {
        self.0 as usize
    }
}

/// The index of a type.
#[derive(Copy, Clone, PartialEq, Eq, Debug, Structural)]
pub struct TypeIndex(pub u32);

impl TypeIndex {
    /// The index with the given number, which is below the greatest
    /// 32-bit number: that one is kept for a missing index.
    pub fn new(index: usize) -> (r: Self)
        requires
            index < u32::MAX,
        ensures
            r.0 == index,
    {
        TypeIndex(index as u32)
    }

    /// The number of the index.
    pub fn index(self) -> (i: usize)
        ensures
            i == self.0,
    {
        self.0 as usize
    }
}

/// The index of a passive element segment.
#[derive(Copy, Clone, PartialEq, Eq, Debug, Structural)]
pub struct ElemIndex(pub u32);

impl ElemIndex {
    /// The index with the given number, which is below the greatest
    /// 32-bit number: that one is kept for a missing index.
    pub fn new(index: usize) -> (r: Self)
        requires
            index < u32::MAX,
        ensures
            r.0 == index,
    {
        ElemIndex(index as u32)
    }

    /// The number of the index.
    pub fn index(self) -> (i: usize)
        ensures
            i == self.0,
    {
        self.0 as usize
    }
}

/// The index of a passive data segment.
#[derive(Copy, Clone, PartialEq, Eq, Debug, Structural)]
pub struct DataIndex(pub u32);

impl DataIndex {
    /// The index with the given number, which is below the greatest
    /// 32-bit number: that one is kept for a missing index.
    pub fn new(index: usize) -> (r: Self)
        requires
            index < u32::MAX,
        ensures
            r.0 == index,
    {
        DataIndex(index as u32)
    }

    /// The number of the index.
    pub fn index(self) -> (i: usize)
        ensures
            i == self.0,
    {
        self.0 as usize
    }
}

/// The index of a function reference.
#[derive(Copy, Clone, PartialEq, Eq, Debug, Structural)]
pub struct FuncRefIndex(pub u32);

impl FuncRefIndex {
    /// The index with the given number, which is below the greatest
    /// 32-bit number: that one is kept for a missing index.
    pub fn new(index: usize) -> (r: Self)
        requires
            index < u32::MAX,
        ensures
            r.0 == index,
    {
        FuncRefIndex(index as u32)
    }

    /// The number of the index.
    pub fn index(self) -> (i: usize)
        ensures
            i == self.0,
    {
        self.0 as usize
    }
}

impl FuncRefIndex {
    /// The index that stands for a missing one.
    pub fn reserved_value() -> (r: Self)
        ensures
            r.0 == u32::MAX,
    {
        FuncRefIndex(u32::MAX)
    }

    /// Does the index stand for a missing one?
    pub fn is_reserved_value(&self) -> (b: bool)
        ensures
            b == (self.0 == u32::MAX),
    {
        self.0 == u32::MAX
    }
}

/// The index of a type in an engine, in a module or in a recursion group.
#[derive(Copy, Clone, PartialEq, Eq, Debug, Structural)]
pub enum EngineOrModuleTypeIndex {
    Engine(u32),
    Module(u32),
    RecGroup(u32),
}

/// One step of a constant expression.
#[derive(Copy, Clone, PartialEq, Eq, Debug, Structural)]
pub enum ConstOp {
    I32Const(i32),
    I64Const(i64),
    GlobalGet(GlobalIndex),
    I32Add,
    I64Add,
}

/// A constant expression: its steps, in order.
#[derive(Clone, Debug)]
pub struct ConstExpr {
    pub ops: Vec<ConstOp>,
}

/// A table.
#[derive(Copy, Clone, PartialEq, Eq, Debug, Structural)]
pub struct Table {
    pub ref_type: EngineOrModuleTypeIndex,
    pub minimum: u64,
    pub maximum: Option<u64>,
}

/// A memory.
#[derive(Copy, Clone, PartialEq, Eq, Debug, Structural)]
pub struct Memory {
    pub minimum: u64,
    pub maximum: Option<u64>,
    pub shared: bool,
    pub page_size_log2: u8,
}

/// A global.
#[derive(Copy, Clone, PartialEq, Eq, Debug, Structural)]
pub struct Global {
    pub value_type: EngineOrModuleTypeIndex,
    pub mutability: bool,
}

/// A tag.
#[derive(Copy, Clone, PartialEq, Eq, Debug, Structural)]
pub struct Tag {
    pub signature: EngineOrModuleTypeIndex,
}

/// The index of an entity of any kind.
#[derive(Copy, Clone, PartialEq, Eq, Debug, Structural)]
pub enum EntityIndex {
    Function(FuncIndex),
    Table(TableIndex),
    Memory(MemoryIndex),
    Global(GlobalIndex),
    Tag(TagIndex),
}

/// The type of an entity of any kind.
#[derive(Copy, Clone, PartialEq, Eq, Debug, Structural)]
pub enum EntityType {
    Global(Global),
    Memory(Memory),
    Tag(Tag),
    Table(Table),
    Function(EngineOrModuleTypeIndex),
}

/// A run of the module's data section, from `start` up to `end`.
#[derive(Copy, Clone, PartialEq, Eq, Debug, Structural)]
pub struct DataRange {
    pub start: u32,
    pub end: u32,
}

impl DataRange {
    /// The number of bytes in the run.
    pub open spec fn spec_len(&self) -> nat {
        if self.start <= self.end {
            (self.end - self.start) as nat
        } else {
            0
        }
    }

    /// The number of bytes in the run.
    pub fn len(&self) -> (n: usize)
        ensures
            n == self.spec_len(),
    {
        if self.start <= self.end {
            (self.end - self.start) as usize
        } else {
            0
        }
    }
}

/// A piece of data for a memory, placed by a constant expression.
#[derive(Clone, Debug)]
pub struct MemoryInitializer {
    /// The memory.
    pub memory_index: MemoryIndex,
    /// The expression that gives the place in the memory.
    pub offset: ConstExpr,
    /// The data, as a run of the module's data section.
    pub data: DataRange,
}

/// A piece of data for a memory at a known place.
#[derive(Copy, Clone, PartialEq, Eq, Debug, Structural)]
pub struct StaticMemoryInitializer {
    /// The place in the memory.
    pub offset: u64,
    /// The data, as a run of the module's data section.
    pub data: DataRange,
}

/// How the memories of a module are filled at first.
#[derive(Debug)]
pub enum MemoryInitialization {
    /// Piece by piece, each placed when the module is instantiated.
    Segmented(Vec<MemoryInitializer>),
    /// At most one piece for each memory, at a known place.
    Static { map: Vec<Option<StaticMemoryInitializer>> },
}

impl Default for MemoryInitialization {
    /// No piece at all.
    fn default() -> (r: Self)
        ensures
            r is Segmented,
            r->Segmented_0@.len() == 0,
    {
        MemoryInitialization::Segmented(Vec::new())
    }
}

impl MemoryInitialization {
    /// Are the memories filled piece by piece?
    pub fn is_segmented(&self) -> (b: bool)
        ensures
            b == (self is Segmented),
    {
        match self {
            MemoryInitialization::Segmented(_) => true,
            _ => false,
        }
    }
}

/// The size of a memory does not fit 64 bits.
#[derive(Copy, Clone, PartialEq, Eq, Debug, Structural)]
pub struct SizeOverflow;

/// What is needed of the memories of an instance to fill them at first.
///
/// Each operation may change the state. What it returns and the state
/// that it leaves are functions of the state before, as its view shows
/// it, and of its arguments; the spec functions beside it name them.
pub trait InitMemory: View + Sized {
    spec fn spec_memory_size_in_bytes(state: Self::V, memory_index: MemoryIndex) -> Result<
        u64,
        SizeOverflow,
    >;

    spec fn after_memory_size_in_bytes(state: Self::V, memory_index: MemoryIndex) -> Self::V;

    /// The size of a memory in bytes.
    fn memory_size_in_bytes(&mut self, memory_index: MemoryIndex) -> (r: Result<u64, SizeOverflow>)
        ensures
            r == Self::spec_memory_size_in_bytes(old(self)@, memory_index),
            final(self)@ == Self::after_memory_size_in_bytes(old(self)@, memory_index),
    ;

    spec fn spec_eval_offset(state: Self::V, memory_index: MemoryIndex, expr: &ConstExpr) -> Option<
        u64,
    >;

    spec fn after_eval_offset(
        state: Self::V,
        memory_index: MemoryIndex,
        expr: &ConstExpr,
    ) -> Self::V;

    /// The value of the expression that places a piece of data in a
    /// memory, or none if it has none.
    fn eval_offset(&mut self, memory_index: MemoryIndex, expr: &ConstExpr) -> (r: Option<u64>)
        ensures
            r == Self::spec_eval_offset(old(self)@, memory_index, expr),
            final(self)@ == Self::after_eval_offset(old(self)@, memory_index, expr),
    ;

    spec fn spec_write(
        state: Self::V,
        memory_index: MemoryIndex,
        init: &StaticMemoryInitializer,
    ) -> bool;

    spec fn after_write(
        state: Self::V,
        memory_index: MemoryIndex,
        init: &StaticMemoryInitializer,
    ) -> Self::V;

    /// Writes a piece of data to a memory; false stops the filling.
    fn write(&mut self, memory_index: MemoryIndex, init: &StaticMemoryInitializer) -> (r: bool)
        ensures
            r == Self::spec_write(old(self)@, memory_index, init),
            final(self)@ == Self::after_write(old(self)@, memory_index, init),
    ;
}

/// A dry run of the filling of memories: it knows the size of each memory
/// and notes the pieces that would be written.
#[derive(Debug)]
pub struct MemoryPlan {
    /// The size of each memory in bytes.
    pub sizes: Vec<u64>,
    /// The pieces written so far, each with its memory, in order.
    pub written: Vec<(MemoryIndex, StaticMemoryInitializer)>,
}

/// A dry run as contracts see it.
pub ghost struct MemoryPlanView {
    pub sizes: Seq<u64>,
    pub written: Seq<(MemoryIndex, StaticMemoryInitializer)>,
}

impl View for MemoryPlan {
    type V = MemoryPlanView;

    open spec fn view(&self) -> MemoryPlanView {
        MemoryPlanView { sizes: self.sizes@, written: self.written@ }
    }
}

/// The value of an expression that is one constant: a 32-bit constant
/// counts as unsigned. Any other expression has no value in a dry run.
pub open spec fn spec_const_value(ops: Seq<ConstOp>) -> Option<u64> {
    if ops.len() != 1 {
        None
    } else {
        match ops[0] {
            ConstOp::I32Const(c) => Some((c as u32) as u64),
            ConstOp::I64Const(c) => Some(c as u64),
            _ => None,
        }
    }
}

/// Does the piece lie in a memory of the given size?
pub open spec fn spec_piece_fits(size: u64, init: &StaticMemoryInitializer) -> bool {
    init.offset + init.data.spec_len() <= size
}

impl MemoryPlan {
    /// A dry run for memories of the given sizes.
    pub fn new(sizes: Vec<u64>) -> (plan: MemoryPlan)
        ensures
            plan@ == (MemoryPlanView { sizes: sizes@, written: Seq::empty() }),
    {
        MemoryPlan { sizes, written: Vec::new() }
    }
}

impl InitMemory for MemoryPlan {
    /// The size of a memory that the plan knows; of any other the size is
    /// not known.
    open spec fn spec_memory_size_in_bytes(
        state: MemoryPlanView,
        memory_index: MemoryIndex,
    ) -> Result<
        u64,
        SizeOverflow,
    > {
        if memory_index.0 < state.sizes.len() {
            Ok(state.sizes[memory_index.0 as int])
        } else {
            Err(SizeOverflow)
        }
    }

    open spec fn after_memory_size_in_bytes(
        state: MemoryPlanView,
        memory_index: MemoryIndex,
    ) -> MemoryPlanView {
        state
    }

    fn memory_size_in_bytes(
        &mut self,
        memory_index: MemoryIndex,
    ) -> (r: Result<u64, SizeOverflow>) {
        if memory_index.index() < self.sizes.len() {
            Ok(self.sizes[memory_index.index()])
        } else {
            Err(SizeOverflow)
        }
    }

    open spec fn spec_eval_offset(
        state: MemoryPlanView,
        memory_index: MemoryIndex,
        expr: &ConstExpr,
    ) -> Option<u64> {
        spec_const_value(expr.ops@)
    }

    open spec fn after_eval_offset(
        state: MemoryPlanView,
        memory_index: MemoryIndex,
        expr: &ConstExpr,
    ) -> MemoryPlanView {
        state
    }

    fn eval_offset(&mut self, memory_index: MemoryIndex, expr: &ConstExpr) -> (r: Option<u64>) {
        if expr.ops.len() != 1 {
            return None;
        }
        match expr.ops[0] {
            ConstOp::I32Const(c) => Some(
                (#[verifier::truncate]
                (c as u32)) as u64,
            ),
            ConstOp::I64Const(c) => Some(
                #[verifier::truncate]
                (c as u64),
            ),
            _ => None,
        }
    }

    /// A piece is written if it lies in a memory that the plan knows.
    open spec fn spec_write(
        state: MemoryPlanView,
        memory_index: MemoryIndex,
        init: &StaticMemoryInitializer,
    ) -> bool {
        memory_index.0 < state.sizes.len() && spec_piece_fits(
            state.sizes[memory_index.0 as int],
            init,
        )
    }

    /// A piece that is written is the last one noted; one that is not
    /// changes nothing.
    open spec fn after_write(
        state: MemoryPlanView,
        memory_index: MemoryIndex,
        init: &StaticMemoryInitializer,
    ) -> MemoryPlanView {
        if Self::spec_write(state, memory_index, init) {
            MemoryPlanView { written: state.written.push((memory_index, *init)), ..state }
        } else {
            state
        }
    }

    fn write(&mut self, memory_index: MemoryIndex, init: &StaticMemoryInitializer) -> (r: bool) {
        if memory_index.index() >= self.sizes.len() {
            return false;
        }
        let size = self.sizes[memory_index.index()];
        let len = init.data.len() as u64;
        if len > size || init.offset > size - len {
            return false;
        }
        self.written.push((memory_index, *init));
        true
    }
}

/// Whether the filling went through, and the state that it left.
pub ghost struct Filled<S> {
    pub ok: bool,
    pub state: S,
}

/// Places one piece of data and writes it: the place is evaluated, the
/// end of the piece must not wrap around nor, where the size of the
/// memory is known, lie behind the end of the memory.
pub open spec fn spec_init_segment<S: InitMemory>(state: S::V, init: &MemoryInitializer) -> Filled<
    S::V,
> {
    let placed = S::after_eval_offset(state, init.memory_index, &init.offset);
    match S::spec_eval_offset(state, init.memory_index, &init.offset) {
        None => Filled { ok: false, state: placed },
        Some(start) => {
            if start + init.data.spec_len() > u64::MAX {
                Filled { ok: false, state: placed }
            } else {
                let end = (start + init.data.spec_len()) as u64;
                let sized = S::after_memory_size_in_bytes(placed, init.memory_index);
                let too_long = match S::spec_memory_size_in_bytes(placed, init.memory_index) {
                    Ok(max) => end > max,
                    Err(_) => false,
                };
                if too_long {
                    Filled { ok: false, state: sized }
                } else {
                    let piece = StaticMemoryInitializer { offset: start, data: init.data };
                    Filled {
                        ok: S::spec_write(sized, init.memory_index, &piece),
                        state: S::after_write(sized, init.memory_index, &piece),
                    }
                }
            }
        },
    }
}

/// Fills the memories piece by piece, from the first `n` pieces, until one
/// fails.
pub open spec fn spec_init_segmented<S: InitMemory>(
    state: S::V,
    list: Seq<MemoryInitializer>,
    n: nat,
) -> Filled<S::V>
    decreases n,
{
    if n == 0 {
        Filled { ok: true, state }
    } else {
        let before = spec_init_segmented::<S>(state, list, (n - 1) as nat);
        if before.ok {
            spec_init_segment::<S>(before.state, &list[n - 1])
        } else {
            before
        }
    }
}

/// Fills the first `n` memories, each with its piece if it has one, until
/// one fails.
pub open spec fn spec_init_static<S: InitMemory>(
    state: S::V,
    map: Seq<Option<StaticMemoryInitializer>>,
    n: nat,
) -> Filled<S::V>
    decreases n,
{
    if n == 0 {
        Filled { ok: true, state }
    } else {
        let before = spec_init_static::<S>(state, map, (n - 1) as nat);
        if !before.ok {
            before
        } else {
            match map[n - 1] {
                Some(init) => Filled {
                    ok: S::spec_write(before.state, MemoryIndex((n - 1) as u32), &init),
                    state: S::after_write(before.state, MemoryIndex((n - 1) as u32), &init),
                },
                None => before,
            }
        }
    }
}

impl MemoryInitialization {
    /// Fills the memories of an instance, and says whether all of it went
    /// through. The filling stops at the first piece that fails.
    pub open spec fn spec_init_memory<S: InitMemory>(&self, state: S::V) -> Filled<S::V> {
        match self {
            MemoryInitialization::Segmented(list) => spec_init_segmented::<S>(
                state,
                list@,
                list@.len(),
            ),
            MemoryInitialization::Static { map } => spec_init_static::<S>(state, map@, map@.len()),
        }
    }

    /// Fills the memories of an instance through `state`, and says
    /// whether all of it went through.
    pub fn init_memory<S: InitMemory>(&self, state: &mut S) -> (ok: bool)
        requires
            self is Static ==> self->Static_map@.len() < u32::MAX,
        ensures
            ok == self.spec_init_memory::<S>(old(state)@).ok,
            final(state)@ == self.spec_init_memory::<S>(old(state)@).state,
    {
        let initializers = match self {
            MemoryInitialization::Segmented(list) => list,
            MemoryInitialization::Static { map } => {
                let mut i: usize = 0;
                while i < map.len()
                    invariant
                        i <= map@.len(),
                        map@.len() < u32::MAX,
                        self is Static,
                        self->Static_map@ == map@,
                        (Filled { ok: true, state: state@ }) == spec_init_static::<S>(
                            old(state)@,
                            map@,
                            i as nat,
                        ),
                    decreases map@.len() - i,
                {
                    if let Some(init) = &map[i] {
                        let result = state.write(MemoryIndex::new(i), init);
                        if !result {
                            proof {
                                lemma_init_static_stops::<S>(
                                    old(state)@,
                                    map@,
                                    (i + 1) as nat,
                                    map@.len(),
                                );
                            }
                            return result;
                        }
                    }
                    i += 1;
                }
                return true;
            },
        };
        let mut i: usize = 0;
        while i < initializers.len()
            invariant
                i <= initializers@.len(),
                self is Segmented,
                self->Segmented_0@ == initializers@,
                (Filled { ok: true, state: state@ }) == spec_init_segmented::<S>(
                    old(state)@,
                    initializers@,
                    i as nat,
                ),
            decreases initializers@.len() - i,
        {
            let initializer = &initializers[i];
            proof {
                let step = spec_init_segmented::<S>(old(state)@, initializers@, (i + 1) as nat);
                if !step.ok {
                    lemma_init_segmented_stops::<S>(
                        old(state)@,
                        initializers@,
                        (i + 1) as nat,
                        initializers@.len(),
                    );
                }
            }
            let start = match state.eval_offset(initializer.memory_index, &initializer.offset) {
                Some(start) => start,
                None => {
                    return false;
                },
            };
            let len = initializer.data.len() as u64;
            let end = match start.checked_add(len) {
                Some(end) => end,
                None => {
                    return false;
                },
            };
            match state.memory_size_in_bytes(initializer.memory_index) {
                Ok(max) => {
                    if end > max {
                        return false;
                    }
                },
                Err(_) => {},
            }
            let init = StaticMemoryInitializer { offset: start, data: initializer.data };
            let result = state.write(initializer.memory_index, &init);
            if !result {
                return result;
            }
            i += 1;
        }
        true
    }
}

/// Once a piece has failed, the filling has failed, and the state stays
/// as the failure left it.
pub proof fn lemma_init_segmented_stops<S: InitMemory>(
    state: S::V,
    list: Seq<MemoryInitializer>,
    n: nat,
    m: nat,
)
    requires
        n <= m,
        !spec_init_segmented::<S>(state, list, n).ok,
    ensures
        spec_init_segmented::<S>(state, list, m) == spec_init_segmented::<S>(state, list, n),
    decreases m - n,
{
    if n < m {
        lemma_init_segmented_stops::<S>(state, list, n, (m - 1) as nat);
    }
}

/// Once a memory has failed, the filling has failed, and the state stays
/// as the failure left it.
pub proof fn lemma_init_static_stops<S: InitMemory>(
    state: S::V,
    map: Seq<Option<StaticMemoryInitializer>>,
    n: nat,
    m: nat,
)
    requires
        n <= m,
        !spec_init_static::<S>(state, map, n).ok,
    ensures
        spec_init_static::<S>(state, map, m) == spec_init_static::<S>(state, map, n),
    decreases m - n,
{
    if n < m {
        lemma_init_static_stops::<S>(state, map, n, (m - 1) as nat);
    }
}

/// The first value of each element of a table.
#[derive(Clone, Debug)]
pub enum TableInitialValue {
    /// Null, but for the leading elements given.
    Null { precomputed: Vec<FuncIndex> },
    /// The value of a constant expression.
    Expr(ConstExpr),
}

/// The elements of a table segment.
#[derive(Clone, Debug)]
pub enum TableSegmentElements {
    /// Functions, by index.
    Functions(Vec<FuncIndex>),
    /// The values of constant expressions.
    Expressions(Vec<ConstExpr>),
}

impl TableSegmentElements {
    /// The number of elements.
    pub open spec fn spec_len(&self) -> nat {
        match self {
            TableSegmentElements::Functions(s) => s@.len(),
            TableSegmentElements::Expressions(s) => s@.len(),
        }
    }

    /// The number of elements.
    pub fn len(&self) -> (n: u64)
        ensures
            n == self.spec_len(),
    {
        match self {
            TableSegmentElements::Functions(s) => s.len() as u64,
            TableSegmentElements::Expressions(s) => s.len() as u64,
        }
    }
}

/// A segment of elements for a table.
#[derive(Clone, Debug)]
pub struct TableSegment {
    pub table_index: TableIndex,
    pub offset: ConstExpr,
    pub elements: TableSegmentElements,
}

/// How the tables of a module are filled at first.
#[derive(Debug)]
pub struct TableInitialization {
    /// The first value of each defined table.
    pub initial_values: Vec<TableInitialValue>,
    /// The segments, in order.
    pub segments: Vec<TableSegment>,
}

/// Something that a module sets up when it is instantiated.
#[derive(Debug)]
pub enum Initializer {
    /// An import, with the index that it gets in its index space.
    Import { name: String, field: String, index: EntityIndex },
}

/// The type of a function and its place among the function references.
#[derive(Copy, Clone, PartialEq, Eq, Debug, Structural)]
pub struct FunctionType {
    pub signature: EngineOrModuleTypeIndex,
    pub func_ref: FuncRefIndex,
}

impl FunctionType {
    /// Is there a reference to the function?
    pub fn is_escaping(&self) -> (b: bool)
        ensures
            b == (self.func_ref.0 != u32::MAX),
    {
        !self.func_ref.is_reserved_value()
    }
}

/// A module.
#[derive(Debug)]
pub struct Module {
    pub name: Option<String>,
    pub initializers: Vec<Initializer>,
    pub exports: Vec<(String, EntityIndex)>,
    pub start_func: Option<FuncIndex>,
    pub table_initialization: TableInitialization,
    pub memory_initialization: MemoryInitialization,
    pub passive_elements: Vec<TableSegmentElements>,
    pub passive_elements_map: Vec<(ElemIndex, usize)>,
    pub passive_data_map: Vec<(DataIndex, DataRange)>,
    pub types: Vec<EngineOrModuleTypeIndex>,
    pub num_imported_funcs: usize,
    pub num_imported_tables: usize,
    pub num_imported_memories: usize,
    pub num_imported_globals: usize,
    pub num_imported_tags: usize,
    pub needs_gc_heap: bool,
    pub num_escaped_funcs: usize,
    pub functions: Vec<FunctionType>,
    pub tables: Vec<Table>,
    pub memories: Vec<Memory>,
    pub globals: Vec<Global>,
    pub global_initializers: Vec<ConstExpr>,
    pub tags: Vec<Tag>,
}

/// The number of memories among the first `n` of `memories` that are not
/// shared.
pub open spec fn spec_count_owned(memories: Seq<Memory>, n: nat) -> nat
    decreases n,
{
    if n == 0 {
        0
    } else {
        spec_count_owned(memories, (n - 1) as nat) + (if memories[n - 1].shared {
            0nat
        } else {
            1nat
        })
    }
}

impl Module {
    /// In each index space the imports are entities of that space, and
    /// every index fits 32 bits.
    pub open spec fn wf(&self) -> bool {
        &&& self.num_imported_funcs <= self.functions@.len() < u32::MAX
        &&& self.num_imported_tables <= self.tables@.len() < u32::MAX
        &&& self.num_imported_memories <= self.memories@.len() < u32::MAX
        &&& self.num_imported_globals <= self.globals@.len() < u32::MAX
        &&& self.num_imported_tags <= self.tags@.len() < u32::MAX
    }

    /// Does the index name an entity of the module?
    pub open spec fn has(&self, index: EntityIndex) -> bool {
        match index {
            EntityIndex::Global(i) => i.0 < self.globals@.len(),
            EntityIndex::Table(i) => i.0 < self.tables@.len(),
            EntityIndex::Memory(i) => i.0 < self.memories@.len(),
            EntityIndex::Function(i) => i.0 < self.functions@.len(),
            EntityIndex::Tag(i) => i.0 < self.tags@.len(),
        }
    }

    /// The type of the entity with the given index.
    pub open spec fn spec_type_of(&self, index: EntityIndex) -> EntityType {
        match index {
            EntityIndex::Global(i) => EntityType::Global(self.globals@[i.0 as int]),
            EntityIndex::Table(i) => EntityType::Table(self.tables@[i.0 as int]),
            EntityIndex::Memory(i) => EntityType::Memory(self.memories@[i.0 as int]),
            EntityIndex::Function(i) => EntityType::Function(
                self.functions@[i.0 as int].signature,
            ),
            EntityIndex::Tag(i) => EntityType::Tag(self.tags@[i.0 as int]),
        }
    }

    /// A module without anything.
    pub fn new() -> (m: Module)
        ensures
            m.wf(),
            m.name is None,
            m.initializers@.len() == 0,
            m.exports@.len() == 0,
            m.start_func is None,
            m.memory_initialization is Segmented,
            m.memory_initialization->Segmented_0@.len() == 0,
            m.types@.len() == 0,
            m.num_imported_funcs == 0,
            m.num_imported_tables == 0,
            m.num_imported_memories == 0,
            m.num_imported_globals == 0,
            m.num_imported_tags == 0,
            !m.needs_gc_heap,
            m.num_escaped_funcs == 0,
            m.functions@.len() == 0,
            m.tables@.len() == 0,
            m.memories@.len() == 0,
            m.globals@.len() == 0,
            m.tags@.len() == 0,
    {
        Module {
            name: None,
            initializers: Vec::new(),
            exports: Vec::new(),
            start_func: None,
            table_initialization: TableInitialization {
                initial_values: Vec::new(),
                segments: Vec::new(),
            },
            memory_initialization: MemoryInitialization::Segmented(Vec::new()),
            passive_elements: Vec::new(),
            passive_elements_map: Vec::new(),
            passive_data_map: Vec::new(),
            types: Vec::new(),
            num_imported_funcs: 0,
            num_imported_tables: 0,
            num_imported_memories: 0,
            num_imported_globals: 0,
            num_imported_tags: 0,
            needs_gc_heap: false,
            num_escaped_funcs: 0,
            functions: Vec::new(),
            tables: Vec::new(),
            memories: Vec::new(),
            globals: Vec::new(),
            global_initializers: Vec::new(),
            tags: Vec::new(),
        }
    }

    /// The index, among all functions, of the function with index
    /// `defined_func` among those that the module defines.
    pub fn func_index(&self, defined_func: DefinedFuncIndex) -> (r: FuncIndex)
        requires
            self.num_imported_funcs + defined_func.0 < u32::MAX,
        ensures
            r.0 == self.num_imported_funcs + defined_func.0,
            self.spec_defined_func_index(r) == Some(defined_func),
    {
        FuncIndex::new(self.num_imported_funcs + defined_func.index())
    }

    /// The index of a function among those that the module defines, or
    /// none for an import.
    pub open spec fn spec_defined_func_index(&self, func: FuncIndex) -> Option<DefinedFuncIndex> {
        if func.0 < self.num_imported_funcs {
            None
        } else {
            Some(DefinedFuncIndex((func.0 - self.num_imported_funcs) as u32))
        }
    }

    /// The index of a function among those that the module defines, or
    /// none for an import.
    pub fn defined_func_index(&self, func: FuncIndex) -> (r: Option<DefinedFuncIndex>)
        requires
            func.0 < u32::MAX,
        ensures
            r == self.spec_defined_func_index(func),
    {
        if func.index() < self.num_imported_funcs {
            None
        } else {
            Some(DefinedFuncIndex::new(func.index() - self.num_imported_funcs))
        }
    }

    /// Is the function an import?
    pub fn is_imported_function(&self, index: FuncIndex) -> (b: bool)
        ensures
            b == (index.0 < self.num_imported_funcs),
            b == (self.spec_defined_func_index(index) is None),
    {
        index.index() < self.num_imported_funcs
    }

    /// The index, among all tables, of the table with index
    /// `defined_table` among those that the module defines.
    pub fn table_index(&self, defined_table: DefinedTableIndex) -> (r: TableIndex)
        requires
            self.num_imported_tables + defined_table.0 < u32::MAX,
        ensures
            r.0 == self.num_imported_tables + defined_table.0,
            self.spec_defined_table_index(r) == Some(defined_table),
    {
        TableIndex::new(self.num_imported_tables + defined_table.index())
    }

    /// The index of a table among those that the module defines, or none
    /// for an import.
    pub open spec fn spec_defined_table_index(
        &self,
        table: TableIndex,
    ) -> Option<DefinedTableIndex> {
        if table.0 < self.num_imported_tables {
            None
        } else {
            Some(DefinedTableIndex((table.0 - self.num_imported_tables) as u32))
        }
    }

    /// The index of a table among those that the module defines, or none
    /// for an import.
    pub fn defined_table_index(&self, table: TableIndex) -> (r: Option<DefinedTableIndex>)
        requires
            table.0 < u32::MAX,
        ensures
            r == self.spec_defined_table_index(table),
    {
        if table.index() < self.num_imported_tables {
            None
        } else {
            Some(DefinedTableIndex::new(table.index() - self.num_imported_tables))
        }
    }

    /// Is the table an import?
    pub fn is_imported_table(&self, index: TableIndex) -> (b: bool)
        ensures
            b == (index.0 < self.num_imported_tables),
            b == (self.spec_defined_table_index(index) is None),
    {
        index.index() < self.num_imported_tables
    }

    /// The index, among all memories, of the memory with index
    /// `defined_memory` among those that the module defines.
    pub fn memory_index(&self, defined_memory: DefinedMemoryIndex) -> (r: MemoryIndex)
        requires
            self.num_imported_memories + defined_memory.0 < u32::MAX,
        ensures
            r.0 == self.num_imported_memories + defined_memory.0,
            self.spec_defined_memory_index(r) == Some(defined_memory),
    {
        MemoryIndex::new(self.num_imported_memories + defined_memory.index())
    }

    /// The index of a memory among those that the module defines, or none
    /// for an import.
    pub open spec fn spec_defined_memory_index(
        &self,
        memory: MemoryIndex,
    ) -> Option<DefinedMemoryIndex> {
        if memory.0 < self.num_imported_memories {
            None
        } else {
            Some(DefinedMemoryIndex((memory.0 - self.num_imported_memories) as u32))
        }
    }

    /// The index of a memory among those that the module defines, or none
    /// for an import.
    pub fn defined_memory_index(&self, memory: MemoryIndex) -> (r: Option<DefinedMemoryIndex>)
        requires
            memory.0 < u32::MAX,
        ensures
            r == self.spec_defined_memory_index(memory),
    {
        if memory.index() < self.num_imported_memories {
            None
        } else {
            Some(DefinedMemoryIndex::new(memory.index() - self.num_imported_memories))
        }
    }

    /// Is the memory an import?
    pub fn is_imported_memory(&self, index: MemoryIndex) -> (b: bool)
        ensures
            b == (index.0 < self.num_imported_memories),
            b == (self.spec_defined_memory_index(index) is None),
    {
        index.index() < self.num_imported_memories
    }

    /// The index, among all globals, of the global with index
    /// `defined_global` among those that the module defines.
    pub fn global_index(&self, defined_global: DefinedGlobalIndex) -> (r: GlobalIndex)
        requires
            self.num_imported_globals + defined_global.0 < u32::MAX,
        ensures
            r.0 == self.num_imported_globals + defined_global.0,
            self.spec_defined_global_index(r) == Some(defined_global),
    {
        GlobalIndex::new(self.num_imported_globals + defined_global.index())
    }

    /// The index of a global among those that the module defines, or none
    /// for an import.
    pub open spec fn spec_defined_global_index(
        &self,
        global: GlobalIndex,
    ) -> Option<DefinedGlobalIndex> {
        if global.0 < self.num_imported_globals {
            None
        } else {
            Some(DefinedGlobalIndex((global.0 - self.num_imported_globals) as u32))
        }
    }

    /// The index of a global among those that the module defines, or none
    /// for an import.
    pub fn defined_global_index(&self, global: GlobalIndex) -> (r: Option<DefinedGlobalIndex>)
        requires
            global.0 < u32::MAX,
        ensures
            r == self.spec_defined_global_index(global),
    {
        if global.index() < self.num_imported_globals {
            None
        } else {
            Some(DefinedGlobalIndex::new(global.index() - self.num_imported_globals))
        }
    }

    /// Is the global an import?
    pub fn is_imported_global(&self, index: GlobalIndex) -> (b: bool)
        ensures
            b == (index.0 < self.num_imported_globals),
            b == (self.spec_defined_global_index(index) is None),
    {
        index.index() < self.num_imported_globals
    }

    /// The index, among all tags, of the tag with index `defined_tag`
    /// among those that the module defines.
    pub fn tag_index(&self, defined_tag: DefinedTagIndex) -> (r: TagIndex)
        requires
            self.num_imported_tags + defined_tag.0 < u32::MAX,
        ensures
            r.0 == self.num_imported_tags + defined_tag.0,
            self.spec_defined_tag_index(r) == Some(defined_tag),
    {
        TagIndex::new(self.num_imported_tags + defined_tag.index())
    }

    /// The index of a tag among those that the module defines, or none
    /// for an import.
    pub open spec fn spec_defined_tag_index(&self, tag: TagIndex) -> Option<DefinedTagIndex> {
        if tag.0 < self.num_imported_tags {
            None
        } else {
            Some(DefinedTagIndex((tag.0 - self.num_imported_tags) as u32))
        }
    }

    /// The index of a tag among those that the module defines, or none
    /// for an import.
    pub fn defined_tag_index(&self, tag: TagIndex) -> (r: Option<DefinedTagIndex>)
        requires
            tag.0 < u32::MAX,
        ensures
            r == self.spec_defined_tag_index(tag),
    {
        if tag.index() < self.num_imported_tags {
            None
        } else {
            Some(DefinedTagIndex::new(tag.index() - self.num_imported_tags))
        }
    }

    /// Is the tag an import?
    pub fn is_imported_tag(&self, index: TagIndex) -> (b: bool)
        ensures
            b == (index.0 < self.num_imported_tags),
            b == (self.spec_defined_tag_index(index) is None),
    {
        index.index() < self.num_imported_tags
    }

    /// The index, among the memories that the module defines and does not
    /// share, of a memory that the module defines: the number of such
    /// memories before it.
    pub fn owned_memory_index(&self, memory: DefinedMemoryIndex) -> (r: OwnedMemoryIndex)
        requires
            self.wf(),
            memory.0 < self.memories@.len(),
        ensures
            r.0 == spec_count_owned(
                self.memories@.skip(self.num_imported_memories as int),
                if memory.0 <= self.memories@.len() - self.num_imported_memories {
                    memory.0 as nat
                } else {
                    (self.memories@.len() - self.num_imported_memories) as nat
                },
            ),
    {
        let defined = self.memories.len() - self.num_imported_memories;
        let limit = if memory.index() <= defined {
            memory.index()
        } else {
            defined
        };
        let ghost rest = self.memories@.skip(self.num_imported_memories as int);
        let mut count: usize = 0;
        let mut i: usize = 0;
        while i < limit
            invariant
                i <= limit,
                limit <= self.memories@.len() - self.num_imported_memories,
                rest == self.memories@.skip(self.num_imported_memories as int),
                count == spec_count_owned(rest, i as nat),
                count <= i,
                self.memories@.len() < u32::MAX,
            decreases limit - i,
        {
            if !self.memories[self.num_imported_memories + i].shared {
                count += 1;
            }
            i += 1;
        }
        OwnedMemoryIndex::new(count)
    }

    /// The imports, in order: for each its module name, its field name and
    /// the type of what is imported.
    pub fn imports(&self) -> (r: Vec<(&String, &String, EntityType)>)
        requires
            forall|i: int|
                0 <= i < self.initializers@.len() ==> self.has(
                    (#[trigger] self.initializers@[i])->Import_index,
                ),
        ensures
            r@.len() == self.initializers@.len(),
            forall|i: int|
                0 <= i < r@.len() ==> {
                    &&& *(#[trigger] r@[i]).0 == self.initializers@[i]->Import_name
                    &&& *r@[i].1 == self.initializers@[i]->Import_field
                    &&& r@[i].2 == self.spec_type_of(self.initializers@[i]->Import_index)
                },
    {
        let mut r: Vec<(&String, &String, EntityType)> = Vec::new();
        let mut i: usize = 0;
        while i < self.initializers.len()
            invariant
                i <= self.initializers@.len(),
                forall|k: int|
                    0 <= k < self.initializers@.len() ==> self.has(
                        (#[trigger] self.initializers@[k])->Import_index,
                    ),
                r@.len() == i,
                forall|k: int|
                    0 <= k < r@.len() ==> {
                        &&& *(#[trigger] r@[k]).0 == self.initializers@[k]->Import_name
                        &&& *r@[k].1 == self.initializers@[k]->Import_field
                        &&& r@[k].2 == self.spec_type_of(self.initializers@[k]->Import_index)
                    },
            decreases self.initializers@.len() - i,
        {
            match &self.initializers[i] {
                Initializer::Import { name, field, index } => {
                    r.push((name, field, self.type_of(*index)));
                },
            }
            i += 1;
        }
        r
    }

    /// Import `i`: its module name, its field name and the type of what
    /// is imported; none if there are not that many imports.
    pub fn import(&self, i: usize) -> (r: Option<(&String, &String, EntityType)>)
        requires
            i < self.initializers@.len() ==> self.has(self.initializers@[i as int]->Import_index),
        ensures
            match r {
                Some((name, field, ty)) => {
                    &&& i < self.initializers@.len()
                    &&& *name == self.initializers@[i as int]->Import_name
                    &&& *field == self.initializers@[i as int]->Import_field
                    &&& ty == self.spec_type_of(self.initializers@[i as int]->Import_index)
                },
                None => i >= self.initializers@.len(),
            },
    {
        if i >= self.initializers.len() {
            return None;
        }
        match &self.initializers[i] {
            Initializer::Import { name, field, index } => Some((name, field, self.type_of(*index))),
        }
    }

    /// The type of the entity with the given index.
    pub fn type_of(&self, index: EntityIndex) -> (ty: EntityType)
        requires
            self.has(index),
        ensures
            ty == self.spec_type_of(index),
    {
        match index {
            EntityIndex::Global(i) => EntityType::Global(self.globals[i.index()]),
            EntityIndex::Table(i) => EntityType::Table(self.tables[i.index()]),
            EntityIndex::Memory(i) => EntityType::Memory(self.memories[i.index()]),
            EntityIndex::Function(i) => EntityType::Function(self.functions[i.index()].signature),
            EntityIndex::Tag(i) => EntityType::Tag(self.tags[i.index()]),
        }
    }

    /// Adds a tag with the given signature and returns its index.
    pub fn push_tag(&mut self, signature: EngineOrModuleTypeIndex) -> (r: TagIndex)
        requires
            old(self).tags@.len() < u32::MAX,
        ensures
            r.0 == old(self).tags@.len(),
            final(self).tags@ == old(self).tags@.push(Tag { signature }),
            *final(self) == (Module { tags: final(self).tags, ..*old(self) }),
    {
        let index = TagIndex::new(self.tags.len());
        self.tags.push(Tag { signature });
        index
    }

    /// Adds a function with the given signature, to which no reference
    /// exists yet, and returns its index.
    pub fn push_function(&mut self, signature: EngineOrModuleTypeIndex) -> (r: FuncIndex)
        requires
            old(self).functions@.len() < u32::MAX,
        ensures
            r.0 == old(self).functions@.len(),
            final(self).functions@ == old(self).functions@.push(
                FunctionType { signature, func_ref: FuncRefIndex(u32::MAX) },
            ),
            *final(self) == (Module { functions: final(self).functions, ..*old(self) }),
    {
        let index = FuncIndex::new(self.functions.len());
        self.functions.push(FunctionType { signature, func_ref: FuncRefIndex::reserved_value() });
        index
    }

    /// The indices of the functions that the module defines, in order.
    pub fn defined_func_indices(&self) -> (r: Vec<DefinedFuncIndex>)
        requires
            self.wf(),
        ensures
            r@.len() == self.functions@.len() - self.num_imported_funcs,
            forall|i: int| 0 <= i < r@.len() ==> (#[trigger] r@[i]).0 == i,
    {
        let n = self.functions.len() - self.num_imported_funcs;
        let mut r: Vec<DefinedFuncIndex> = Vec::new();
        let mut i: usize = 0;
        while i < n
            invariant
                i <= n,
                n < u32::MAX,
                r@.len() == i,
                forall|k: int| 0 <= k < r@.len() ==> (#[trigger] r@[k]).0 == k,
            decreases n - i,
        {
            r.push(DefinedFuncIndex::new(i));
            i += 1;
        }
        r
    }

    /// The number of tables that the module defines.
    pub fn num_defined_tables(&self) -> (n: usize)
        requires
            self.wf(),
        ensures
            n == self.tables@.len() - self.num_imported_tables,
    {
        self.tables.len() - self.num_imported_tables
    }

    /// The number of memories that the module defines.
    pub fn num_defined_memories(&self) -> (n: usize)
        requires
            self.wf(),
        ensures
            n == self.memories@.len() - self.num_imported_memories,
    {
        self.memories.len() - self.num_imported_memories
    }

    /// The number of globals that the module defines.
    pub fn num_defined_globals(&self) -> (n: usize)
        requires
            self.wf(),
        ensures
            n == self.globals@.len() - self.num_imported_globals,
    {
        self.globals.len() - self.num_imported_globals
    }

    /// The number of tags that the module defines.
    pub fn num_defined_tags(&self) -> (n: usize)
        requires
            self.wf(),
        ensures
            n == self.tags@.len() - self.num_imported_tags,
    {
        self.tags.len() - self.num_imported_tags
    }
}

} // verus!
