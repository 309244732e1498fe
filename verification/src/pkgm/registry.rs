//! The registry: which adapter is handed out for which kind of tool.

use super::manager::Manager;
use super::types::{type_label, ManagerType, PackageManager};
use crate::utils::error::{Error, ErrorView};
use vstd::prelude::*;

verus! {

/// A table from kinds of tools to adapters. Creating a manager hands out a
/// copy of the adapter that was registered for its kind.
pub struct ManagerRegistry<M> {
    factories: Vec<(ManagerType, M)>,
}

/// The position of a kind among the entries, if it has one.
spec fn position_of<M>(entries: Seq<(ManagerType, M)>, manager_type: ManagerType) -> Option<int> {
    if exists|i: int| 0 <= i < entries.len() && entries[i].0 == manager_type {
        Some(choose|i: int| 0 <= i < entries.len() && entries[i].0 == manager_type)
    } else {
        None
    }
}

/// No kind has two entries.
spec fn distinct_kinds<M>(entries: Seq<(ManagerType, M)>) -> bool {
    forall|i: int, j: int|
        0 <= i < entries.len() && 0 <= j < entries.len() && i != j ==> entries[i].0
            != entries[j].0
}

/// The table that a list of entries without repeated kinds stands for.
spec fn table_of<M>(entries: Seq<(ManagerType, M)>) -> Map<ManagerType, M> {
    Map::new(
        |k: ManagerType| position_of(entries, k) is Some,
        |k: ManagerType| entries[position_of(entries, k)->Some_0].1,
    )
}

/// The kinds of a list of entries, in order.
spec fn kinds_of<M>(entries: Seq<(ManagerType, M)>) -> Seq<ManagerType> {
    Seq::new(entries.len(), |i: int| entries[i].0)
}

impl<M> View for ManagerRegistry<M> {
    type V = Map<ManagerType, M>;

    closed spec fn view(&self) -> Map<ManagerType, M> {
        table_of(self.factories@)
    }
}

impl<M> ManagerRegistry<M> {
    #[verifier::type_invariant]
    spec fn distinct(&self) -> bool {
        distinct_kinds(self.factories@)
    }
}

impl<M: PackageManager + Copy> ManagerRegistry<M> {
    /// A registry with nothing registered.
    pub fn new() -> (registry: Self)
        ensures
            registry@ == Map::<ManagerType, M>::empty(),
    {
        let registry = Self { factories: Vec::new() };
        assert(registry@ =~= Map::<ManagerType, M>::empty());
        registry
    }

    fn find(&self, manager_type: &ManagerType) -> (at: Option<usize>)
        ensures
            match at {
                Some(i) => i < self.factories@.len() && self.factories@[i as int].0
                    == *manager_type && self@.contains_key(*manager_type) && self@[*manager_type]
                    == self.factories@[i as int].1,
                None => !self@.contains_key(*manager_type) && forall|k: int|
                    0 <= k < self.factories@.len() ==> self.factories@[k].0 != *manager_type,
            },
    {
        proof {
            use_type_invariant(self);
        }
        let mut i: usize = 0;
        while i < self.factories.len()
            invariant
                i <= self.factories@.len(),
                distinct_kinds(self.factories@),
                forall|k: int| 0 <= k < i ==> self.factories@[k].0 != *manager_type,
            decreases self.factories@.len() - i,
        {
            if self.factories[i].0 == *manager_type {
                proof {
                    let entries = self.factories@;
                    assert(0 <= i < entries.len() && entries[i as int].0 == *manager_type);
                    let at = position_of(entries, *manager_type)->Some_0;
                    assert(at == i);
                }
                return Some(i);
            }
            i += 1;
        }
        None
    }

    fn entries_with(&self, at: Option<usize>, entry: (ManagerType, M)) -> (entries: Vec<
        (ManagerType, M),
    >)
        requires
            at matches Some(i) ==> i < self.factories@.len(),
        ensures
            entries@ == match at {
                Some(i) => self.factories@.update(i as int, entry),
                None => self.factories@.push(entry),
            },
    {
        let mut entries: Vec<(ManagerType, M)> = Vec::new();
        let mut k: usize = 0;
        while k < self.factories.len()
            invariant
                k <= self.factories@.len(),
                at matches Some(i) ==> i < self.factories@.len(),
                entries@.len() == k,
                forall|j: int|
                    0 <= j < k ==> entries@[j] == if at == Some(j as usize) {
                        entry
                    } else {
                        self.factories@[j]
                    },
            decreases self.factories@.len() - k,
        {
            let replace = match at {
                Some(i) => i == k,
                None => false,
            };
            if replace {
                entries.push(entry);
            } else {
                entries.push(self.factories[k]);
            }
            k += 1;
        }
        if at.is_none() {
            entries.push(entry);
        }
        proof {
            match at {
                Some(i) => {
                    assert(entries@ =~= self.factories@.update(i as int, entry));
                },
                None => {
                    assert(entries@ =~= self.factories@.push(entry));
                },
            }
        }
        entries
    }

    /// Registers an adapter for a kind, in place of the one that was
    /// registered for it before, if any.
    pub fn register(&mut self, manager_type: ManagerType, factory: M)
        ensures
            final(self)@ == old(self)@.insert(manager_type, factory),
    {
        proof {
            use_type_invariant(&*self);
        }
        let ghost before = self.factories@;
        let at = self.find(&manager_type);
        let entries = self.entries_with(at, (manager_type, factory));
        match at {
            Some(i) => {
                proof {
                    let after = entries@;
                    assert(distinct_kinds(after));
                    assert forall|k: ManagerType|
                        #[trigger] table_of(after).contains_key(k) == table_of(before).insert(
                            manager_type,
                            factory,
                        ).contains_key(k) by {
                        if position_of(before, k) is Some {
                            let p = position_of(before, k)->Some_0;
                            assert(after[p].0 == k);
                        }
                        if position_of(after, k) is Some {
                            let p = position_of(after, k)->Some_0;
                            assert(before[p].0 == k);
                        }
                    }
                    assert forall|k: ManagerType| #[trigger]
                        table_of(after).contains_key(k) implies table_of(after)[k] == table_of(
                        before,
                    ).insert(manager_type, factory)[k] by {
                        let p = position_of(after, k)->Some_0;
                        if k != manager_type {
                            assert(before[p].0 == k);
                            let q = position_of(before, k)->Some_0;
                            assert(q == p);
                        } else {
                            assert(p == i);
                        }
                    }
                    assert(table_of(after) =~= table_of(before).insert(manager_type, factory));
                }
            },
            None => {
                proof {
                    let after = entries@;
                    let last = before.len() as int;
                    assert(after[last].0 == manager_type);
                    assert(distinct_kinds(after));
                    assert forall|k: ManagerType|
                        #[trigger] table_of(after).contains_key(k) == table_of(before).insert(
                            manager_type,
                            factory,
                        ).contains_key(k) by {
                        if position_of(before, k) is Some {
                            let p = position_of(before, k)->Some_0;
                            assert(after[p].0 == k);
                        }
                        if position_of(after, k) is Some {
                            let p = position_of(after, k)->Some_0;
                            if p != last {
                                assert(before[p].0 == k);
                            }
                        }
                    }
                    assert forall|k: ManagerType| #[trigger]
                        table_of(after).contains_key(k) implies table_of(after)[k] == table_of(
                        before,
                    ).insert(manager_type, factory)[k] by {
                        let p = position_of(after, k)->Some_0;
                        if k != manager_type {
                            assert(p != last);
                            assert(before[p].0 == k);
                            let q = position_of(before, k)->Some_0;
                            assert(after[q].0 == k);
                            assert(q == p);
                        } else {
                            assert(p == last);
                        }
                    }
                    assert(table_of(after) =~= table_of(before).insert(manager_type, factory));
                }
            },
        }
        *self = ManagerRegistry { factories: entries };
    }

    /// The adapter registered for a kind; a kind with none is unsupported.
    pub fn create(&self, manager_type: &ManagerType) -> (created: Result<M, Error>)
        ensures
            match created {
                Ok(manager) => self@.contains_key(*manager_type) && manager
                    == self@[*manager_type],
                Err(e) => !self@.contains_key(*manager_type) && e@
                    == (ErrorView::UnsupportedManager { name: type_label(*manager_type) }),
            },
    {
        match self.find(manager_type) {
            Some(i) => Ok(self.factories[i].1),
            None => Err(Error::UnsupportedManager { name: manager_type.label().to_owned() }),
        }
    }

    /// Whether an adapter is registered for a kind.
    pub fn is_registered(&self, manager_type: &ManagerType) -> (yes: bool)
        ensures
            yes == self@.contains_key(*manager_type),
    {
        self.find(manager_type).is_some()
    }

    /// The kinds that have an adapter, each once.
    pub fn registered_managers(&self) -> (kinds: Vec<ManagerType>)
        ensures
            kinds@.no_duplicates(),
            forall|k: ManagerType| kinds@.contains(k) <==> self@.contains_key(k),
    {
        proof {
            use_type_invariant(self);
        }
        let mut kinds: Vec<ManagerType> = Vec::new();
        let mut i: usize = 0;
        while i < self.factories.len()
            invariant
                i <= self.factories@.len(),
                kinds@ == kinds_of(self.factories@.take(i as int)),
            decreases self.factories@.len() - i,
        {
            kinds.push(self.factories[i].0);
            assert(kinds@ =~= kinds_of(self.factories@.take(i + 1)));
            i += 1;
        }
        proof {
            let entries = self.factories@;
            assert(entries.take(entries.len() as int) =~= entries);
            assert forall|k: ManagerType| kinds@.contains(k) <==> self@.contains_key(k) by {
                if kinds@.contains(k) {
                    let p = choose|p: int| 0 <= p < kinds@.len() && kinds@[p] == k;
                    assert(entries[p].0 == k);
                }
                if self@.contains_key(k) {
                    let p = position_of(entries, k)->Some_0;
                    assert(kinds@[p] == k);
                }
            }
        }
        kinds
    }
}

impl ManagerRegistry<Manager> {
    /// The registry every process starts with: each kind with its built-in
    /// adapter.
    pub fn builtin() -> (registry: Self)
        ensures
            forall|k: ManagerType| #[trigger]
                registry@.contains_key(k) && registry@[k].kind() == k,
    {
        let mut registry = Self::new();
        registry.register(ManagerType::Cargo, Manager::of(ManagerType::Cargo));
        registry.register(ManagerType::Npm, Manager::of(ManagerType::Npm));
        registry.register(ManagerType::Pnpm, Manager::of(ManagerType::Pnpm));
        registry.register(ManagerType::Bun, Manager::of(ManagerType::Bun));
        registry.register(ManagerType::Yarn, Manager::of(ManagerType::Yarn));
        registry.register(ManagerType::Pip, Manager::of(ManagerType::Pip));
        registry.register(ManagerType::Pdm, Manager::of(ManagerType::Pdm));
        registry.register(ManagerType::Poetry, Manager::of(ManagerType::Poetry));
        registry
    }
}

/// The adapter that a registry hands out for a kind.
pub fn create_manager<M: PackageManager + Copy>(
    registry: &ManagerRegistry<M>,
    manager_type: &ManagerType,
) -> (created: Result<M, Error>)
    ensures
        match created {
            Ok(manager) => registry@.contains_key(*manager_type) && manager
                == registry@[*manager_type],
            Err(e) => !registry@.contains_key(*manager_type) && e@
                == (ErrorView::UnsupportedManager { name: type_label(*manager_type) }),
        },
{
    registry.create(manager_type)
}

/// Registers an adapter for a kind in a registry. This cannot fail.
pub fn register_manager<M: PackageManager + Copy>(
    registry: &mut ManagerRegistry<M>,
    manager_type: ManagerType,
    factory: M,
) -> (done: Result<(), Error>)
    ensures
        done is Ok,
        final(registry)@ == old(registry)@.insert(manager_type, factory),
{
    registry.register(manager_type, factory);
    Ok(())
}

} // verus!
