//! The walk over the types that a module mentions.
//!
//! A module mentions types in five places: its list of types, the
//! signatures of its functions, the element types of its tables, the
//! types of its globals and the signatures of its tags. A walk visits
//! them in that order, each list from its first item on, and stops at the
//! first visit that fails.

use crate::module::{EngineOrModuleTypeIndex, FunctionType, Global, Module, Table, Tag};
use vstd::prelude::*;

verus! {

impl FunctionType {
    /// Visits the signature of the function.
    pub fn trace<F, E>(&self, func: &F) -> (r: Result<(), E>) where
        F: Fn(EngineOrModuleTypeIndex) -> Result<(), E>,

        requires
            call_requires(func, (self.signature,)),
        ensures
            call_ensures(func, (self.signature,), r),
    {
        func(self.signature)
    }

    /// Replaces the signature of the function by what `func` makes of it.
    /// Where the visit fails the signature stays.
    pub fn trace_mut<F, E>(&mut self, func: &F) -> (r: Result<(), E>) where
        F: Fn(EngineOrModuleTypeIndex) -> Result<EngineOrModuleTypeIndex, E>,

        requires
            call_requires(func, (old(self).signature,)),
        ensures
            final(self).func_ref == old(self).func_ref,
            match r {
                Ok(()) => call_ensures(
                    func,
                    (old(self).signature,),
                    Ok(final(self).signature),
                ),
                Err(e) => {
                    &&& call_ensures(func, (old(self).signature,), Err(e))
                    &&& final(self).signature == old(self).signature
                },
            },
    {
        match func(self.signature) {
            Ok(v) => {
                self.signature = v;
                Ok(())
            },
            Err(e) => Err(e),
        }
    }
}

impl Module {
    /// The types that the module mentions, in the order of the walk.
    pub open spec fn spec_traced(&self) -> Seq<EngineOrModuleTypeIndex> {
        self.types@ + self.functions@.map_values(|f: FunctionType| f.signature)
            + self.tables@.map_values(|t: Table| t.ref_type) + self.globals@.map_values(
            |g: Global| g.value_type,
        ) + self.tags@.map_values(|t: Tag| t.signature)
    }

    /// Does `other` differ from the module in the types of the walk
    /// alone? The lists keep their lengths, and what else an item of a
    /// list holds stays.
    pub open spec fn same_but_types(&self, other: &Module) -> bool {
        &&& *other == (Module {
            types: other.types,
            functions: other.functions,
            tables: other.tables,
            globals: other.globals,
            tags: other.tags,
            ..*self
        })
        &&& other.types@.len() == self.types@.len()
        &&& other.functions@.len() == self.functions@.len()
        &&& other.tables@.len() == self.tables@.len()
        &&& other.globals@.len() == self.globals@.len()
        &&& other.tags@.len() == self.tags@.len()
        &&& forall|i: int|
            0 <= i < self.functions@.len() ==> (#[trigger] other.functions@[i]).func_ref
                == self.functions@[i].func_ref
        &&& forall|i: int|
            0 <= i < self.tables@.len() ==> (#[trigger] other.tables@[i]).minimum
                == self.tables@[i].minimum && other.tables@[i].maximum == self.tables@[i].maximum
        &&& forall|i: int|
            0 <= i < self.globals@.len() ==> (#[trigger] other.globals@[i]).mutability
                == self.globals@[i].mutability
    }

    /// Visits every type that the module mentions, in the order of the
    /// walk, until a visit fails.
    ///
    /// The walk succeeds if every visit does. It fails with the error of
    /// the first visit that fails, and visits nothing after it.
    pub fn trace<F, E>(&self, func: &F) -> (r: Result<(), E>) where
        F: Fn(EngineOrModuleTypeIndex) -> Result<(), E>,

        requires
            forall|i: int|
                0 <= i < self.spec_traced().len() ==> call_requires(
                    func,
                    (#[trigger] self.spec_traced()[i],),
                ),
        ensures
            match r {
                Ok(()) => forall|i: int|
                    0 <= i < self.spec_traced().len() ==> call_ensures(
                        func,
                        (#[trigger] self.spec_traced()[i],),
                        Ok(()),
                    ),
                Err(e) => exists|i: int|
                    {
                        &&& 0 <= i < self.spec_traced().len()
                        &&& call_ensures(func, (#[trigger] self.spec_traced()[i],), Err(e))
                        &&& forall|j: int|
                            0 <= j < i ==> call_ensures(
                                func,
                                (#[trigger] self.spec_traced()[j],),
                                Ok(()),
                            )
                    },
            },
    {
        let ghost all = self.spec_traced();
        let ghost n0 = self.types@.len() as int;
        let ghost n1 = n0 + self.functions@.len();
        let ghost n2 = n1 + self.tables@.len();
        let ghost n3 = n2 + self.globals@.len();
        let mut i: usize = 0;
        while i < self.types.len()
            invariant
                all == self.spec_traced(),
                i <= self.types@.len(),
                forall|j: int| 0 <= j < all.len() ==> call_requires(func, (#[trigger] all[j],)),
                forall|j: int| 0 <= j < i ==> call_ensures(func, (#[trigger] all[j],), Ok(())),
            decreases self.types@.len() - i,
        {
            assert(all[i as int] == self.types@[i as int]);
            let t = self.types[i];
            let r = func(t);
            match r {
                Ok(()) => {
                    assert(r->Ok_0 =~= ());
                },
                Err(e) => {
                    return Err(e);
                },
            }
            i += 1;
        }
        let mut i: usize = 0;
        while i < self.functions.len()
            invariant
                all == self.spec_traced(),
                n0 == self.types@.len(),
                i <= self.functions@.len(),
                forall|j: int| 0 <= j < all.len() ==> call_requires(func, (#[trigger] all[j],)),
                forall|j: int|
                    0 <= j < n0 + i ==> call_ensures(func, (#[trigger] all[j],), Ok(())),
            decreases self.functions@.len() - i,
        {
            assert(all[n0 + i] == self.functions@[i as int].signature);
            let t = self.functions[i].signature;
            let r = func(t);
            match r {
                Ok(()) => {
                    assert(r->Ok_0 =~= ());
                },
                Err(e) => {
                    return Err(e);
                },
            }
            i += 1;
        }
        let mut i: usize = 0;
        while i < self.tables.len()
            invariant
                all == self.spec_traced(),
                n0 == self.types@.len(),
                n1 == n0 + self.functions@.len(),
                i <= self.tables@.len(),
                forall|j: int| 0 <= j < all.len() ==> call_requires(func, (#[trigger] all[j],)),
                forall|j: int|
                    0 <= j < n1 + i ==> call_ensures(func, (#[trigger] all[j],), Ok(())),
            decreases self.tables@.len() - i,
        {
            assert(all[n1 + i] == self.tables@[i as int].ref_type);
            let t = self.tables[i].ref_type;
            let r = func(t);
            match r {
                Ok(()) => {
                    assert(r->Ok_0 =~= ());
                },
                Err(e) => {
                    return Err(e);
                },
            }
            i += 1;
        }
        let mut i: usize = 0;
        while i < self.globals.len()
            invariant
                all == self.spec_traced(),
                n0 == self.types@.len(),
                n1 == n0 + self.functions@.len(),
                n2 == n1 + self.tables@.len(),
                i <= self.globals@.len(),
                forall|j: int| 0 <= j < all.len() ==> call_requires(func, (#[trigger] all[j],)),
                forall|j: int|
                    0 <= j < n2 + i ==> call_ensures(func, (#[trigger] all[j],), Ok(())),
            decreases self.globals@.len() - i,
        {
            assert(all[n2 + i] == self.globals@[i as int].value_type);
            let t = self.globals[i].value_type;
            let r = func(t);
            match r {
                Ok(()) => {
                    assert(r->Ok_0 =~= ());
                },
                Err(e) => {
                    return Err(e);
                },
            }
            i += 1;
        }
        let mut i: usize = 0;
        while i < self.tags.len()
            invariant
                all == self.spec_traced(),
                n0 == self.types@.len(),
                n1 == n0 + self.functions@.len(),
                n2 == n1 + self.tables@.len(),
                n3 == n2 + self.globals@.len(),
                i <= self.tags@.len(),
                forall|j: int| 0 <= j < all.len() ==> call_requires(func, (#[trigger] all[j],)),
                forall|j: int|
                    0 <= j < n3 + i ==> call_ensures(func, (#[trigger] all[j],), Ok(())),
            decreases self.tags@.len() - i,
        {
            assert(all[n3 + i] == self.tags@[i as int].signature);
            let t = self.tags[i].signature;
            let r = func(t);
            match r {
                Ok(()) => {
                    assert(r->Ok_0 =~= ());
                },
                Err(e) => {
                    return Err(e);
                },
            }
            i += 1;
        }
        Ok(())
    }

    /// Where each type of the walk comes from.
    pub proof fn lemma_traced(&self)
        ensures
            self.spec_traced().len() == self.types@.len() + self.functions@.len()
                + self.tables@.len() + self.globals@.len() + self.tags@.len(),
            forall|k: int|
                0 <= k < self.types@.len() ==> #[trigger] self.spec_traced()[k] == self.types@[k],
            forall|k: int|
                #![trigger self.spec_traced()[k]]
                {
                    let base = self.types@.len();
                    base <= k < base + self.functions@.len() ==> self.spec_traced()[k]
                        == self.functions@[k - base].signature
                },
            forall|k: int|
                #![trigger self.spec_traced()[k]]
                {
                    let base = self.types@.len() + self.functions@.len();
                    base <= k < base + self.tables@.len() ==> self.spec_traced()[k]
                        == self.tables@[k - base].ref_type
                },
            forall|k: int|
                #![trigger self.spec_traced()[k]]
                {
                    let base = self.types@.len() + self.functions@.len() + self.tables@.len();
                    base <= k < base + self.globals@.len() ==> self.spec_traced()[k]
                        == self.globals@[k - base].value_type
                },
            forall|k: int|
                #![trigger self.spec_traced()[k]]
                {
                    let base = self.types@.len() + self.functions@.len() + self.tables@.len()
                        + self.globals@.len();
                    base <= k < base + self.tags@.len() ==> self.spec_traced()[k]
                        == self.tags@[k - base].signature
                },
    {
    }

    /// Replaces every type that the module mentions by what `func` makes
    /// of it, in the order of the walk, until a visit fails.
    ///
    /// The walk succeeds if every visit does. It fails with the error of
    /// the first visit that fails: the types before that one are
    /// replaced, that one and those after it stay. Nothing but the types
    /// of the walk changes.
    pub fn trace_mut<F, E>(&mut self, func: &F) -> (r: Result<(), E>) where
        F: Fn(EngineOrModuleTypeIndex) -> Result<EngineOrModuleTypeIndex, E>,

        requires
            forall|i: int|
                0 <= i < old(self).spec_traced().len() ==> call_requires(
                    func,
                    (#[trigger] old(self).spec_traced()[i],),
                ),
        ensures
            old(self).same_but_types(final(self)),
            final(self).spec_traced().len() == old(self).spec_traced().len(),
            match r {
                Ok(()) => forall|i: int|
                    0 <= i < old(self).spec_traced().len() ==> call_ensures(
                        func,
                        (#[trigger] old(self).spec_traced()[i],),
                        Ok(final(self).spec_traced()[i]),
                    ),
                Err(e) => exists|i: int|
                    {
                        &&& 0 <= i < old(self).spec_traced().len()
                        &&& call_ensures(func, (#[trigger] old(self).spec_traced()[i],), Err(e))
                        &&& forall|j: int|
                            0 <= j < i ==> call_ensures(
                                func,
                                (#[trigger] old(self).spec_traced()[j],),
                                Ok(final(self).spec_traced()[j]),
                            )
                        &&& forall|j: int|
                            i <= j < old(self).spec_traced().len() ==> (#[trigger] final(self)
                                .spec_traced()[j]) == old(self).spec_traced()[j]
                    },
            },
    {
        let ghost before = old(self).spec_traced();
        let ghost n0 = self.types@.len() as int;
        let ghost n1 = n0 + self.functions@.len();
        let ghost n2 = n1 + self.tables@.len();
        let ghost n3 = n2 + self.globals@.len();
        let ghost n4 = n3 + self.tags@.len();
        proof {
            self.lemma_traced();
        }
        let mut i: usize = 0;
        while i < self.types.len()
            invariant
                before == old(self).spec_traced(),
                before.len() == n4,
                n0 == old(self).types@.len(),
                n1 == n0 + old(self).functions@.len(),
                n2 == n1 + old(self).tables@.len(),
                n3 == n2 + old(self).globals@.len(),
                n4 == n3 + old(self).tags@.len(),
                old(self).same_but_types(self),
                self.spec_traced().len() == n4,
                i <= self.types@.len(),
                forall|j: int| 0 <= j < n4 ==> call_requires(func, (#[trigger] before[j],)),
                forall|j: int|
                    0 <= j < i ==> call_ensures(
                        func,
                        (#[trigger] before[j],),
                        Ok(self.spec_traced()[j]),
                    ),
                forall|j: int|
                    i <= j < n4 ==> #[trigger] self.spec_traced()[j] == before[j],
            decreases self.types@.len() - i,
        {
            let ghost prev = *self;
            proof {
                prev.lemma_traced();
            }
            let t = self.types[i];
            assert(prev.spec_traced()[i as int] == t);
            assert(before[i as int] == t);
            let visited = func(t);
            match visited {
                Ok(v) => {
                    self.types.set(i, v);
                    proof {
                        self.lemma_traced();
                        assert(self.spec_traced()[i as int] == v);
                        assert(call_ensures(func, (before[i as int],), visited));
                        assert forall|j: int| 0 <= j < n4 && j != i implies #[trigger] self
                            .spec_traced()[j] == prev.spec_traced()[j] by {}
                    }
                },
                Err(e) => {
                    assert(call_ensures(func, (before[i as int],), visited));
                    return Err(e);
                },
            }
            i += 1;
        }
        let mut i: usize = 0;
        while i < self.functions.len()
            invariant
                before == old(self).spec_traced(),
                before.len() == n4,
                n0 == old(self).types@.len(),
                n1 == n0 + old(self).functions@.len(),
                n2 == n1 + old(self).tables@.len(),
                n3 == n2 + old(self).globals@.len(),
                n4 == n3 + old(self).tags@.len(),
                old(self).same_but_types(self),
                self.spec_traced().len() == n4,
                i <= self.functions@.len(),
                forall|j: int| 0 <= j < n4 ==> call_requires(func, (#[trigger] before[j],)),
                forall|j: int|
                    0 <= j < n0 + i ==> call_ensures(
                        func,
                        (#[trigger] before[j],),
                        Ok(self.spec_traced()[j]),
                    ),
                forall|j: int|
                    n0 + i <= j < n4 ==> #[trigger] self.spec_traced()[j] == before[j],
            decreases self.functions@.len() - i,
        {
            let ghost prev = *self;
            proof {
                prev.lemma_traced();
            }
            let item = self.functions[i];
            let t = item.signature;
            assert(prev.spec_traced()[n0 + i] == t);
            assert(before[n0 + i] == t);
            let visited = func(t);
            match visited {
                Ok(v) => {
                    self.functions.set(i, FunctionType { signature: v, func_ref: item.func_ref });
                    proof {
                        self.lemma_traced();
                        assert(self.spec_traced()[n0 + i] == v);
                        assert(call_ensures(func, (before[n0 + i],), visited));
                        assert forall|j: int| 0 <= j < n4 && j != n0 + i implies #[trigger] self
                            .spec_traced()[j] == prev.spec_traced()[j] by {}
                    }
                },
                Err(e) => {
                    assert(call_ensures(func, (before[n0 + i],), visited));
                    return Err(e);
                },
            }
            i += 1;
        }
        let mut i: usize = 0;
        while i < self.tables.len()
            invariant
                before == old(self).spec_traced(),
                before.len() == n4,
                n0 == old(self).types@.len(),
                n1 == n0 + old(self).functions@.len(),
                n2 == n1 + old(self).tables@.len(),
                n3 == n2 + old(self).globals@.len(),
                n4 == n3 + old(self).tags@.len(),
                old(self).same_but_types(self),
                self.spec_traced().len() == n4,
                i <= self.tables@.len(),
                forall|j: int| 0 <= j < n4 ==> call_requires(func, (#[trigger] before[j],)),
                forall|j: int|
                    0 <= j < n1 + i ==> call_ensures(
                        func,
                        (#[trigger] before[j],),
                        Ok(self.spec_traced()[j]),
                    ),
                forall|j: int|
                    n1 + i <= j < n4 ==> #[trigger] self.spec_traced()[j] == before[j],
            decreases self.tables@.len() - i,
        {
            let ghost prev = *self;
            proof {
                prev.lemma_traced();
            }
            let item = self.tables[i];
            let t = item.ref_type;
            assert(prev.spec_traced()[n1 + i] == t);
            assert(before[n1 + i] == t);
            let visited = func(t);
            match visited {
                Ok(v) => {
                    self.tables.set(
                        i,
                        Table { ref_type: v, minimum: item.minimum, maximum: item.maximum },
                    );
                    proof {
                        self.lemma_traced();
                        assert(self.spec_traced()[n1 + i] == v);
                        assert(call_ensures(func, (before[n1 + i],), visited));
                        assert forall|j: int| 0 <= j < n4 && j != n1 + i implies #[trigger] self
                            .spec_traced()[j] == prev.spec_traced()[j] by {}
                    }
                },
                Err(e) => {
                    assert(call_ensures(func, (before[n1 + i],), visited));
                    return Err(e);
                },
            }
            i += 1;
        }
        let mut i: usize = 0;
        while i < self.globals.len()
            invariant
                before == old(self).spec_traced(),
                before.len() == n4,
                n0 == old(self).types@.len(),
                n1 == n0 + old(self).functions@.len(),
                n2 == n1 + old(self).tables@.len(),
                n3 == n2 + old(self).globals@.len(),
                n4 == n3 + old(self).tags@.len(),
                old(self).same_but_types(self),
                self.spec_traced().len() == n4,
                i <= self.globals@.len(),
                forall|j: int| 0 <= j < n4 ==> call_requires(func, (#[trigger] before[j],)),
                forall|j: int|
                    0 <= j < n2 + i ==> call_ensures(
                        func,
                        (#[trigger] before[j],),
                        Ok(self.spec_traced()[j]),
                    ),
                forall|j: int|
                    n2 + i <= j < n4 ==> #[trigger] self.spec_traced()[j] == before[j],
            decreases self.globals@.len() - i,
        {
            let ghost prev = *self;
            proof {
                prev.lemma_traced();
            }
            let item = self.globals[i];
            let t = item.value_type;
            assert(prev.spec_traced()[n2 + i] == t);
            assert(before[n2 + i] == t);
            let visited = func(t);
            match visited {
                Ok(v) => {
                    self.globals.set(i, Global { value_type: v, mutability: item.mutability });
                    proof {
                        self.lemma_traced();
                        assert(self.spec_traced()[n2 + i] == v);
                        assert(call_ensures(func, (before[n2 + i],), visited));
                        assert forall|j: int| 0 <= j < n4 && j != n2 + i implies #[trigger] self
                            .spec_traced()[j] == prev.spec_traced()[j] by {}
                    }
                },
                Err(e) => {
                    assert(call_ensures(func, (before[n2 + i],), visited));
                    return Err(e);
                },
            }
            i += 1;
        }
        let mut i: usize = 0;
        while i < self.tags.len()
            invariant
                before == old(self).spec_traced(),
                before.len() == n4,
                n0 == old(self).types@.len(),
                n1 == n0 + old(self).functions@.len(),
                n2 == n1 + old(self).tables@.len(),
                n3 == n2 + old(self).globals@.len(),
                n4 == n3 + old(self).tags@.len(),
                old(self).same_but_types(self),
                self.spec_traced().len() == n4,
                i <= self.tags@.len(),
                forall|j: int| 0 <= j < n4 ==> call_requires(func, (#[trigger] before[j],)),
                forall|j: int|
                    0 <= j < n3 + i ==> call_ensures(
                        func,
                        (#[trigger] before[j],),
                        Ok(self.spec_traced()[j]),
                    ),
                forall|j: int|
                    n3 + i <= j < n4 ==> #[trigger] self.spec_traced()[j] == before[j],
            decreases self.tags@.len() - i,
        {
            let ghost prev = *self;
            proof {
                prev.lemma_traced();
            }
            let item = self.tags[i];
            let t = item.signature;
            assert(prev.spec_traced()[n3 + i] == t);
            assert(before[n3 + i] == t);
            let visited = func(t);
            match visited {
                Ok(v) => {
                    self.tags.set(i, Tag { signature: v });
                    proof {
                        self.lemma_traced();
                        assert(self.spec_traced()[n3 + i] == v);
                        assert(call_ensures(func, (before[n3 + i],), visited));
                        assert forall|j: int| 0 <= j < n4 && j != n3 + i implies #[trigger] self
                            .spec_traced()[j] == prev.spec_traced()[j] by {}
                    }
                },
                Err(e) => {
                    assert(call_ensures(func, (before[n3 + i],), visited));
                    return Err(e);
                },
            }
            i += 1;
        }
        Ok(())
    }
}

} // verus!
