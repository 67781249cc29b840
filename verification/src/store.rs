//! The variable store: the caller-owned name-to-value mapping that lives
//! across evaluations, with its name-to-type reading.

use vstd::prelude::*;
use vstd::string::StrSliceExecFns;
use vstd::string::StringExecFns;
use crate::text::str_eq;
use crate::value::{spec_type_of, SilverType, SilverValue};

verus! {

/// The mathematical model of a variable symbol.
pub ghost struct SymbolModel {
    pub name: Seq<char>,
    pub ty: SilverType,
}

/// A variable's identity: its name and its declared static type.
pub struct VariableSymbol {
    name: String,
    ty: SilverType,
}

impl View for VariableSymbol {
    type V = SymbolModel;

    closed spec fn view(&self) -> SymbolModel {
        SymbolModel { name: self.name@, ty: self.ty }
    }
}

impl VariableSymbol {
    pub fn new(name: String, ty: SilverType) -> (r: VariableSymbol)
        ensures
            r@ == (SymbolModel { name: name@, ty }),
    {
        VariableSymbol { name, ty }
    }

    pub fn name(&self) -> (r: &str)
        ensures
            r@ == self@.name,
    {
        self.name.as_str()
    }

    pub fn ty(&self) -> (r: SilverType)
        ensures
            r == self@.ty,
    {
        self.ty
    }
}

/// The name-to-type pairs of a sequence of symbols.
pub open spec fn symbol_models(symbols: Seq<VariableSymbol>) -> Seq<(Seq<char>, SilverType)> {
    symbols.map_values(|s: VariableSymbol| (s@.name, s@.ty))
}

/// Look a name up in an association list: the first entry with that name
/// decides.
pub open spec fn spec_assoc_get<V>(entries: Seq<(Seq<char>, V)>, name: Seq<char>) -> Option<V>
    decreases entries.len(),
{
    if entries.len() == 0 {
        None
    } else if entries[0].0 == name {
        Some(entries[0].1)
    } else {
        spec_assoc_get(entries.drop_first(), name)
    }
}

/// Replace the first entry with that name, or append a new one.
pub open spec fn spec_assoc_update<V>(
    entries: Seq<(Seq<char>, V)>,
    name: Seq<char>,
    value: V,
) -> Seq<(Seq<char>, V)>
    decreases entries.len(),
{
    if entries.len() == 0 {
        seq![(name, value)]
    } else if entries[0].0 == name {
        seq![(name, value)] + entries.drop_first()
    } else {
        seq![entries[0]] + spec_assoc_update(entries.drop_first(), name, value)
    }
}

/// An updated list holds the new value under the updated name and keeps
/// every other name unchanged.
pub proof fn lemma_assoc_update_get<V>(
    entries: Seq<(Seq<char>, V)>,
    name: Seq<char>,
    value: V,
    probe: Seq<char>,
)
    ensures
        spec_assoc_get(spec_assoc_update(entries, name, value), probe) == if probe == name {
            Some(value)
        } else {
            spec_assoc_get(entries, probe)
        },
    decreases entries.len(),
{
    if entries.len() == 0 {
        let updated = spec_assoc_update(entries, name, value);
        assert(updated == seq![(name, value)]);
        assert(updated[0] == (name, value));
        assert(updated.drop_first() =~= Seq::<(Seq<char>, V)>::empty());
        assert(spec_assoc_get(updated.drop_first(), probe) is None);
    } else if entries[0].0 == name {
        let updated = spec_assoc_update(entries, name, value);
        assert(updated[0] == (name, value));
        assert(updated.drop_first() =~= entries.drop_first());
        assert(spec_assoc_get(updated.drop_first(), probe) == spec_assoc_get(
            entries.drop_first(),
            probe,
        ));
    } else {
        lemma_assoc_update_get(entries.drop_first(), name, value, probe);
        let updated = spec_assoc_update(entries, name, value);
        assert(updated[0] == entries[0]);
        assert(updated.drop_first() =~= spec_assoc_update(entries.drop_first(), name, value));
        assert(spec_assoc_get(updated.drop_first(), probe) == spec_assoc_get(
            spec_assoc_update(entries.drop_first(), name, value),
            probe,
        ));
    }
}

/// The name-to-type reading of a store: each value replaced by its type
/// tag.
pub open spec fn spec_types_of(store: Seq<(Seq<char>, SilverValue)>) -> Seq<
    (Seq<char>, SilverType),
> {
    store.map_values(|p: (Seq<char>, SilverValue)| (p.0, spec_type_of(p.1)))
}

/// Reading the type table commutes with looking a name up.
pub proof fn lemma_types_of_get(store: Seq<(Seq<char>, SilverValue)>, name: Seq<char>)
    ensures
        spec_assoc_get(spec_types_of(store), name) == match spec_assoc_get(store, name) {
            Some(v) => Some(spec_type_of(v)),
            None => None,
        },
    decreases store.len(),
{
    if store.len() > 0 {
        lemma_types_of_get(store.drop_first(), name);
        assert(spec_types_of(store).drop_first() =~= spec_types_of(store.drop_first()));
    }
}

/// Reading the type table commutes with updating a name.
pub proof fn lemma_types_of_update(
    store: Seq<(Seq<char>, SilverValue)>,
    name: Seq<char>,
    value: SilverValue,
)
    ensures
        spec_types_of(spec_assoc_update(store, name, value)) == spec_assoc_update(
            spec_types_of(store),
            name,
            spec_type_of(value),
        ),
    decreases store.len(),
{
    if store.len() == 0 {
        assert(spec_types_of(spec_assoc_update(store, name, value)) =~= spec_assoc_update(
            spec_types_of(store),
            name,
            spec_type_of(value),
        ));
    } else if store[0].0 == name {
        assert(spec_types_of(spec_assoc_update(store, name, value)) =~= spec_assoc_update(
            spec_types_of(store),
            name,
            spec_type_of(value),
        ));
    } else {
        lemma_types_of_update(store.drop_first(), name, value);
        assert(spec_types_of(store).drop_first() =~= spec_types_of(store.drop_first()));
        assert(spec_types_of(store)[0] == (store[0].0, spec_type_of(store[0].1)));
        assert(spec_types_of(spec_assoc_update(store, name, value)) =~= spec_assoc_update(
            spec_types_of(store),
            name,
            spec_type_of(value),
        ));
    }
}

struct StoreEntry {
    name: String,
    value: SilverValue,
}

/// The variable store: name-to-value pairs, owned by the caller and
/// shared across evaluations, so a session accumulates variables turn by
/// turn. A name's static type is the tag of its current value.
pub struct VariableStore {
    entries: Vec<StoreEntry>,
}

impl View for VariableStore {
    type V = Seq<(Seq<char>, SilverValue)>;

    closed spec fn view(&self) -> Seq<(Seq<char>, SilverValue)> {
        self.entries@.map_values(|e: StoreEntry| (e.name@, e.value))
    }
}

impl VariableStore {
    /// An empty store.
    pub fn new() -> (r: VariableStore)
        ensures
            r@ == Seq::<(Seq<char>, SilverValue)>::empty(),
    {
        let store = VariableStore { entries: Vec::new() };
        proof {
            assert(store@ =~= Seq::<(Seq<char>, SilverValue)>::empty());
        }
        store
    }

    /// The current value of `name`, if any.
    pub fn get(&self, name: &str) -> (r: Option<SilverValue>)
        ensures
            r == spec_assoc_get(self@, name@),
    {
        let n = self.entries.len();
        let mut i: usize = 0;
        proof {
            assert(self@.skip(0) =~= self@);
        }
        while i < n
            invariant
                i <= n,
                n == self.entries@.len(),
                spec_assoc_get(self@, name@) == spec_assoc_get(self@.skip(i as int), name@),
            decreases n - i,
        {
            proof {
                assert(self@.skip(i as int)[0] == (self.entries@[i as int].name@,
                self.entries@[i as int].value));
                assert(self@.skip(i as int).drop_first() =~= self@.skip(i + 1));
            }
            if str_eq(self.entries[i].name.as_str(), name) {
                return Some(self.entries[i].value);
            }
            i += 1;
        }
        proof {
            assert(self@.skip(n as int) =~= Seq::<(Seq<char>, SilverValue)>::empty());
        }
        None
    }

    /// The declared variables: one symbol per entry, typed by the tag of
    /// its current value.
    pub fn symbols(&self) -> (r: Vec<VariableSymbol>)
        ensures
            symbol_models(r@) == spec_types_of(self@),
    {
        let mut out: Vec<VariableSymbol> = Vec::new();
        let n = self.entries.len();
        let mut i: usize = 0;
        proof {
            assert(symbol_models(out@) =~= spec_types_of(self@).take(0));
        }
        while i < n
            invariant
                i <= n,
                n == self.entries@.len(),
                symbol_models(out@) == spec_types_of(self@).take(i as int),
            decreases n - i,
        {
            let ghost prev = symbol_models(out@);
            let entry = &self.entries[i];
            out.push(VariableSymbol::new(entry.name.clone(), entry.value.silver_type()));
            proof {
                assert(self@[i as int] == (self.entries@[i as int].name@,
                self.entries@[i as int].value));
                assert(spec_types_of(self@)[i as int] == (self@[i as int].0, spec_type_of(
                    self@[i as int].1,
                )));
                assert(symbol_models(out@) =~= prev.push(
                    (self.entries@[i as int].name@, spec_type_of(self.entries@[i as int].value)),
                ));
                assert(symbol_models(out@) =~= spec_types_of(self@).take(i + 1));
            }
            i += 1;
        }
        proof {
            assert(spec_types_of(self@).take(n as int) =~= spec_types_of(self@));
        }
        out
    }

    /// Set `name` to `value`: replace its entry, or append one.
    pub fn set(&mut self, name: &str, value: SilverValue)
        ensures
            final(self)@ == spec_assoc_update(old(self)@, name@, value),
    {
        let n = self.entries.len();
        let mut i: usize = 0;
        while i < n
            invariant
                i <= n,
                n == self.entries@.len(),
                self.entries@ == old(self).entries@,
                forall|j: int| 0 <= j < i ==> old(self)@[j].0 != name@,
            decreases n - i,
        {
            if str_eq(self.entries[i].name.as_str(), name) {
                self.entries.set(i, StoreEntry { name: name.to_owned(), value });
                proof {
                    lemma_assoc_update_found(old(self)@, name@, value, i as int);
                    assert(final(self)@ =~= old(self)@.update(i as int, (name@, value)));
                }
                return ;
            }
            i += 1;
        }
        self.entries.push(StoreEntry { name: name.to_owned(), value });
        proof {
            lemma_assoc_update_missing(old(self)@, name@, value);
            assert(final(self)@ =~= old(self)@.push((name@, value)));
        }
    }
}

/// Updating a name that stands at position `i`, with no earlier entry of
/// that name, replaces exactly that entry.
pub(crate) proof fn lemma_assoc_update_found<V>(
    entries: Seq<(Seq<char>, V)>,
    name: Seq<char>,
    value: V,
    i: int,
)
    requires
        0 <= i < entries.len(),
        entries[i].0 == name,
        forall|j: int| 0 <= j < i ==> entries[j].0 != name,
    ensures
        spec_assoc_update(entries, name, value) == entries.update(i, (name, value)),
    decreases entries.len(),
{
    if i == 0 {
        assert(seq![(name, value)] + entries.drop_first() =~= entries.update(0, (name, value)));
    } else {
        assert(forall|j: int|
            0 <= j < i - 1 ==> entries.drop_first()[j].0 == entries[j + 1].0 && entries[j + 1].0
                != name);
        lemma_assoc_update_found(entries.drop_first(), name, value, i - 1);
        assert(seq![entries[0]] + entries.drop_first().update(i - 1, (name, value))
            =~= entries.update(i, (name, value)));
    }
}

/// Updating a name that no entry holds appends a new entry.
pub(crate) proof fn lemma_assoc_update_missing<V>(entries: Seq<(Seq<char>, V)>, name: Seq<char>, value: V)
    requires
        forall|j: int| 0 <= j < entries.len() ==> entries[j].0 != name,
    ensures
        spec_assoc_update(entries, name, value) == entries.push((name, value)),
    decreases entries.len(),
{
    if entries.len() == 0 {
        assert(spec_assoc_update(entries, name, value) =~= entries.push((name, value)));
    } else {
        assert(forall|j: int|
            0 <= j < entries.drop_first().len() ==> entries.drop_first()[j].0 == entries[j
                + 1].0 && entries[j + 1].0 != name);
        lemma_assoc_update_missing(entries.drop_first(), name, value);
        assert(seq![entries[0]] + entries.drop_first().push((name, value)) =~= entries.push(
            (name, value),
        ));
    }
}

} // verus!
