use abi_interp::module::{
    ConstExpr, ConstOp, DataRange, DefinedFuncIndex, DefinedGlobalIndex, DefinedMemoryIndex,
    DefinedTableIndex, DefinedTagIndex, EngineOrModuleTypeIndex, EntityIndex, EntityType,
    FuncIndex, FuncRefIndex, FunctionType, Global, GlobalIndex, InitMemory, Initializer, Memory,
    MemoryIndex, MemoryInitialization, MemoryInitializer, MemoryPlan, Module, SizeOverflow,
    StaticMemoryInitializer, Table, TableIndex, TableSegmentElements, Tag, TagIndex,
};

fn memory(shared: bool) -> Memory {
    Memory { minimum: 1, maximum: None, shared, page_size_log2: 16 }
}

// A module with two imported and three defined functions, one imported
// and four defined memories, and one of everything else.
fn module() -> Module {
    let mut m = Module::new();
    for n in 0..5 {
        m.push_function(EngineOrModuleTypeIndex::Module(n));
    }
    m.num_imported_funcs = 2;
    m.memories = vec![memory(false), memory(false), memory(true), memory(false), memory(true)];
    m.num_imported_memories = 1;
    m.tables = vec![Table { ref_type: EngineOrModuleTypeIndex::Engine(0), minimum: 0, maximum: Some(9) }];
    m.globals = vec![Global { value_type: EngineOrModuleTypeIndex::Engine(1), mutability: true }];
    m.push_tag(EngineOrModuleTypeIndex::Module(3));
    m.initializers = vec![
        Initializer::Import {
            name: String::from("env"),
            field: String::from("f"),
            index: EntityIndex::Function(FuncIndex::new(1)),
        },
        Initializer::Import {
            name: String::from("env"),
            field: String::from("mem"),
            index: EntityIndex::Memory(MemoryIndex::new(0)),
        },
    ];
    m
}

#[test]
fn new_module_is_empty() {
    let m = Module::new();
    assert!(m.name.is_none());
    assert_eq!(m.functions.len(), 0);
    assert_eq!(m.num_imported_funcs, 0);
    assert!(m.memory_initialization.is_segmented());
    assert_eq!(m.num_defined_tables(), 0);
    assert_eq!(m.defined_func_indices().len(), 0);
}

#[test]
fn index_spaces_put_imports_first() {
    let m = module();
    assert_eq!(m.func_index(DefinedFuncIndex::new(0)), FuncIndex::new(2));
    assert_eq!(m.func_index(DefinedFuncIndex::new(2)), FuncIndex::new(4));
    assert_eq!(m.defined_func_index(FuncIndex::new(4)), Some(DefinedFuncIndex::new(2)));
    assert_eq!(m.defined_func_index(FuncIndex::new(2)), Some(DefinedFuncIndex::new(0)));
    assert_eq!(m.defined_func_index(FuncIndex::new(1)), None);
    assert!(m.is_imported_function(FuncIndex::new(1)));
    assert!(!m.is_imported_function(FuncIndex::new(2)));
    assert_eq!(m.memory_index(DefinedMemoryIndex::new(3)), MemoryIndex::new(4));
    assert_eq!(m.defined_memory_index(MemoryIndex::new(0)), None);
    assert_eq!(m.defined_memory_index(MemoryIndex::new(1)), Some(DefinedMemoryIndex::new(0)));
    assert!(m.is_imported_memory(MemoryIndex::new(0)));
    assert_eq!(m.table_index(DefinedTableIndex::new(0)), TableIndex::new(0));
    assert_eq!(m.defined_table_index(TableIndex::new(0)), Some(DefinedTableIndex::new(0)));
    assert!(!m.is_imported_table(TableIndex::new(0)));
    assert_eq!(m.global_index(DefinedGlobalIndex::new(5)), GlobalIndex::new(5));
    assert_eq!(m.defined_global_index(GlobalIndex::new(5)), Some(DefinedGlobalIndex::new(5)));
    assert!(!m.is_imported_global(GlobalIndex::new(0)));
    assert_eq!(m.tag_index(DefinedTagIndex::new(1)), TagIndex::new(1));
    assert_eq!(m.defined_tag_index(TagIndex::new(1)), Some(DefinedTagIndex::new(1)));
    assert!(!m.is_imported_tag(TagIndex::new(0)));
}

#[test]
fn defined_entities_are_counted() {
    let m = module();
    assert_eq!(m.num_defined_memories(), 4);
    assert_eq!(m.num_defined_tables(), 1);
    assert_eq!(m.num_defined_globals(), 1);
    assert_eq!(m.num_defined_tags(), 1);
    let defined: Vec<usize> = m.defined_func_indices().iter().map(|i| i.index()).collect();
    assert_eq!(defined, vec![0, 1, 2]);
}

#[test]
fn owned_memories_skip_shared_ones() {
    let m = module();
    // The defined memories are: owned, shared, owned, shared.
    assert_eq!(m.owned_memory_index(DefinedMemoryIndex::new(0)).index(), 0);
    assert_eq!(m.owned_memory_index(DefinedMemoryIndex::new(1)).index(), 1);
    assert_eq!(m.owned_memory_index(DefinedMemoryIndex::new(2)).index(), 1);
    assert_eq!(m.owned_memory_index(DefinedMemoryIndex::new(3)).index(), 2);
}

#[test]
fn imports_with_their_types() {
    let m = module();
    let imports = m.imports();
    assert_eq!(imports.len(), 2);
    assert_eq!(
        (imports[0].0.as_str(), imports[0].1.as_str(), imports[0].2),
        ("env", "f", EntityType::Function(EngineOrModuleTypeIndex::Module(1)))
    );
    assert_eq!(imports[1].2, EntityType::Memory(memory(false)));
    let second = m.import(1).unwrap();
    assert_eq!((second.0.as_str(), second.1.as_str()), ("env", "mem"));
    assert!(m.import(2).is_none());
    assert_eq!(
        m.type_of(EntityIndex::Tag(TagIndex::new(0))),
        EntityType::Tag(Tag { signature: EngineOrModuleTypeIndex::Module(3) })
    );
    assert_eq!(
        m.type_of(EntityIndex::Global(GlobalIndex::new(0))),
        EntityType::Global(
            Global { value_type: EngineOrModuleTypeIndex::Engine(1), mutability: true },
        )
    );
    assert_eq!(
        m.type_of(EntityIndex::Table(TableIndex::new(0))),
        EntityType::Table(
            Table { ref_type: EngineOrModuleTypeIndex::Engine(0), minimum: 0, maximum: Some(9) },
        )
    );
}

#[test]
fn pushed_entities_get_the_next_index() {
    let mut m = module();
    assert_eq!(m.push_function(EngineOrModuleTypeIndex::Engine(8)), FuncIndex::new(5));
    assert_eq!(
        m.functions[5],
        FunctionType { signature: EngineOrModuleTypeIndex::Engine(8), func_ref: FuncRefIndex::reserved_value() }
    );
    assert!(!m.functions[5].is_escaping());
    m.functions[5].func_ref = FuncRefIndex::new(0);
    assert!(m.functions[5].is_escaping());
    assert_eq!(m.push_tag(EngineOrModuleTypeIndex::Engine(2)), TagIndex::new(1));
    assert_eq!(m.tags.len(), 2);
}

#[test]
fn initialization_kinds() {
    let seg = MemoryInitialization::Segmented(Vec::new());
    assert!(seg.is_segmented());
    let fixed = MemoryInitialization::Static {
        map: vec![Some(StaticMemoryInitializer { offset: 8, data: DataRange { start: 4, end: 10 } })],
    };
    assert!(!fixed.is_segmented());
    assert_eq!(DataRange { start: 4, end: 10 }.len(), 6);
    assert_eq!(DataRange { start: 10, end: 4 }.len(), 0);
    assert_eq!(
        TableSegmentElements::Functions(vec![FuncIndex::new(1), FuncIndex::new(2)]).len(),
        2,
    );
    assert_eq!(TableSegmentElements::Expressions(Vec::new()).len(), 0);
}

fn piece(memory: usize, op: ConstOp, start: u32, end: u32) -> MemoryInitializer {
    MemoryInitializer {
        memory_index: MemoryIndex::new(memory),
        offset: ConstExpr { ops: vec![op] },
        data: DataRange { start, end },
    }
}

#[test]
fn plan_knows_its_memories() {
    let mut plan = MemoryPlan::new(vec![100, 8]);
    assert_eq!(plan.memory_size_in_bytes(MemoryIndex::new(1)), Ok(8));
    assert_eq!(plan.memory_size_in_bytes(MemoryIndex::new(2)), Err(SizeOverflow));
    assert_eq!(
        plan.eval_offset(MemoryIndex::new(0), &ConstExpr { ops: vec![ConstOp::I32Const(-1)] }),
        Some(u32::MAX as u64)
    );
    assert_eq!(
        plan.eval_offset(MemoryIndex::new(0), &ConstExpr { ops: vec![ConstOp::I64Const(-1)] }),
        Some(u64::MAX)
    );
    assert_eq!(
        plan.eval_offset(
            MemoryIndex::new(0),
            &ConstExpr { ops: vec![ConstOp::I32Const(1), ConstOp::I32Const(2), ConstOp::I32Add] }
        ),
        None
    );
    let fits = StaticMemoryInitializer { offset: 4, data: DataRange { start: 0, end: 4 } };
    let long = StaticMemoryInitializer { offset: 5, data: DataRange { start: 0, end: 4 } };
    assert!(plan.write(MemoryIndex::new(1), &fits));
    assert!(!plan.write(MemoryIndex::new(1), &long));
    assert!(!plan.write(MemoryIndex::new(2), &fits));
    assert_eq!(plan.written, vec![(MemoryIndex::new(1), fits)]);
}

#[test]
fn segmented_initialization_goes_piece_by_piece() {
    let init = MemoryInitialization::Segmented(vec![
        piece(0, ConstOp::I32Const(16), 0, 8),
        piece(1, ConstOp::I64Const(0), 8, 12),
    ]);
    let mut plan = MemoryPlan::new(vec![100, 8]);
    assert!(init.init_memory(&mut plan));
    assert_eq!(
        plan.written,
        vec![
            (MemoryIndex::new(0), StaticMemoryInitializer { offset: 16, data: DataRange { start: 0, end: 8 } }),
            (MemoryIndex::new(1), StaticMemoryInitializer { offset: 0, data: DataRange { start: 8, end: 12 } }),
        ]
    );
}

#[test]
fn segmented_initialization_stops_at_the_first_failure() {
    // The second piece ends behind its memory of eight bytes.
    let init = MemoryInitialization::Segmented(vec![
        piece(0, ConstOp::I32Const(16), 0, 8),
        piece(1, ConstOp::I64Const(5), 8, 12),
        piece(0, ConstOp::I32Const(0), 12, 13),
    ]);
    let mut plan = MemoryPlan::new(vec![100, 8]);
    assert!(!init.init_memory(&mut plan));
    assert_eq!(plan.written.len(), 1);
    // A place that cannot be evaluated fails.
    let init = MemoryInitialization::Segmented(vec![piece(0, ConstOp::I32Add, 0, 1)]);
    assert!(!init.init_memory(&mut plan));
    // An end that wraps around fails.
    let init = MemoryInitialization::Segmented(vec![piece(0, ConstOp::I64Const(-1), 0, 1)]);
    assert!(!init.init_memory(&mut plan));
    assert_eq!(plan.written.len(), 1);
}

#[test]
fn static_initialization_writes_each_memory_once() {
    let first = StaticMemoryInitializer { offset: 0, data: DataRange { start: 0, end: 50 } };
    let third = StaticMemoryInitializer { offset: 2, data: DataRange { start: 50, end: 52 } };
    let init = MemoryInitialization::Static { map: vec![Some(first), None, Some(third)] };
    let mut plan = MemoryPlan::new(vec![100, 8, 4]);
    assert!(init.init_memory(&mut plan));
    assert_eq!(plan.written, vec![(MemoryIndex::new(0), first), (MemoryIndex::new(2), third)]);
    let mut small = MemoryPlan::new(vec![10, 8, 4]);
    assert!(!init.init_memory(&mut small));
    assert_eq!(small.written.len(), 0);
}
