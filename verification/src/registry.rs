//! The metadata registry: an insertion-ordered collection of pallets plus
//! the derived lookup structures that map a pallet index to its event and
//! error variants. Construction validates the naming and indexing
//! invariants; afterwards the registry is read-only and every lookup is a
//! pure, total function of it.

use vstd::prelude::*;

use crate::types::{
    ErrorMetadata, EventMetadata, PalletMetadata, SpecCallMetadata, SpecConstantMetadata,
    SpecErrorMetadata, SpecEventMetadata, SpecPalletMetadata, SpecStorageMetadata,
};

verus! {

/// The event variants registered for one pallet index, in insertion order.
pub struct EventGroup {
    pub pallet_index: u8,
    pub events: Vec<EventMetadata>,
}

pub struct SpecEventGroup {
    pub pallet_index: u8,
    pub events: Seq<SpecEventMetadata>,
}

impl View for EventGroup {
    type V = SpecEventGroup;

    open spec fn view(&self) -> SpecEventGroup {
        SpecEventGroup {
            pallet_index: self.pallet_index,
            events: self.events@.map_values(|e: EventMetadata| e@),
        }
    }
}

/// The error variants registered for one pallet index, in insertion order.
pub struct ErrorGroup {
    pub pallet_index: u8,
    pub errors: Vec<ErrorMetadata>,
}

pub struct SpecErrorGroup {
    pub pallet_index: u8,
    pub errors: Seq<SpecErrorMetadata>,
}

impl View for ErrorGroup {
    type V = SpecErrorGroup;

    open spec fn view(&self) -> SpecErrorGroup {
        SpecErrorGroup {
            pallet_index: self.pallet_index,
            errors: self.errors@.map_values(|e: ErrorMetadata| e@),
        }
    }
}

/// Why a registry build was rejected.
///
/// `DuplicateName` carries the name of the offending pallet or entry: a
/// pallet whose name or numeric index is already taken, or a storage, call
/// or constant entry whose name collides within its category.
/// `UnknownPalletIndex` carries a derived-lookup index that is repeated or
/// matches no pallet. `InconsistentModifier` carries the name of a
/// `Default`-modifier storage entry that has no default bytes.
#[derive(PartialEq, Eq, Debug)]
pub enum MetadataError {
    DuplicateName(String),
    UnknownPalletIndex(u8),
    InconsistentModifier(String),
}

/// The complete, immutable, queryable description of all pallets and their
/// indexed event and error variants.
pub struct Metadata {
    pallets: Vec<PalletMetadata>,
    events_by_index: Vec<EventGroup>,
    errors_by_index: Vec<ErrorGroup>,
}

pub struct SpecMetadata {
    pub pallets: Seq<SpecPalletMetadata>,
    pub events_by_index: Seq<SpecEventGroup>,
    pub errors_by_index: Seq<SpecErrorGroup>,
}

impl View for Metadata {
    type V = SpecMetadata;

    closed spec fn view(&self) -> SpecMetadata {
        SpecMetadata {
            pallets: self.pallets@.map_values(|p: PalletMetadata| p@),
            events_by_index: self.events_by_index@.map_values(|g: EventGroup| g@),
            errors_by_index: self.errors_by_index@.map_values(|g: ErrorGroup| g@),
        }
    }
}

impl SpecMetadata {
    /// Pallet names and pallet indices are unique, every pallet satisfies
    /// its local invariants, and each derived lookup structure maps each of
    /// its indices exactly once and only to indices that pallets carry.
    pub open spec fn wf(self) -> bool {
        &&& (forall|i: int, j: int|
            0 <= i < j < self.pallets.len() ==> self.pallets[i].name != self.pallets[j].name)
        &&& (forall|i: int, j: int|
            0 <= i < j < self.pallets.len() ==> self.pallets[i].index != self.pallets[j].index)
        &&& (forall|i: int| 0 <= i < self.pallets.len() ==> self.pallets[i].wf())
        &&& (forall|i: int, j: int|
            0 <= i < j < self.events_by_index.len() ==> self.events_by_index[i].pallet_index
                != self.events_by_index[j].pallet_index)
        &&& (forall|i: int|
            0 <= i < self.events_by_index.len() ==> spec_key_known(
                (#[trigger] self.events_by_index[i]).pallet_index,
                self.pallets,
            ))
        &&& (forall|i: int, j: int|
            0 <= i < j < self.errors_by_index.len() ==> self.errors_by_index[i].pallet_index
                != self.errors_by_index[j].pallet_index)
        &&& (forall|i: int|
            0 <= i < self.errors_by_index.len() ==> spec_key_known(
                (#[trigger] self.errors_by_index[i]).pallet_index,
                self.pallets,
            ))
    }
}

/// The event sequence registered under `index`: that of the first group
/// carrying `index`, or empty where no group does.
pub open spec fn spec_lookup_events(groups: Seq<SpecEventGroup>, index: u8) -> Seq<
    SpecEventMetadata,
>
    decreases groups.len(),
{
    if groups.len() == 0 {
        Seq::empty()
    } else if groups[0].pallet_index == index {
        groups[0].events
    } else {
        spec_lookup_events(groups.drop_first(), index)
    }
}

/// The error sequence registered under `index`, symmetric to
/// [`spec_lookup_events`].
pub open spec fn spec_lookup_errors(groups: Seq<SpecErrorGroup>, index: u8) -> Seq<
    SpecErrorMetadata,
>
    decreases groups.len(),
{
    if groups.len() == 0 {
        Seq::empty()
    } else if groups[0].pallet_index == index {
        groups[0].errors
    } else {
        spec_lookup_errors(groups.drop_first(), index)
    }
}

/// The views of a pallet collection.
pub open spec fn spec_pallet_views(ps: Seq<PalletMetadata>) -> Seq<SpecPalletMetadata> {
    ps.map_values(|p: PalletMetadata| p@)
}

/// The views of an event-group collection.
pub open spec fn spec_event_group_views(gs: Seq<EventGroup>) -> Seq<SpecEventGroup> {
    gs.map_values(|g: EventGroup| g@)
}

/// The views of an error-group collection.
pub open spec fn spec_error_group_views(gs: Seq<ErrorGroup>) -> Seq<SpecErrorGroup> {
    gs.map_values(|g: ErrorGroup| g@)
}

/// The pallet indices an event-group collection is keyed by, in order.
pub open spec fn spec_event_keys(gs: Seq<SpecEventGroup>) -> Seq<u8> {
    gs.map_values(|g: SpecEventGroup| g.pallet_index)
}

/// The pallet indices an error-group collection is keyed by, in order.
pub open spec fn spec_error_keys(gs: Seq<SpecErrorGroup>) -> Seq<u8> {
    gs.map_values(|g: SpecErrorGroup| g.pallet_index)
}

/// A name collision somewhere in the pallet collection: two pallets sharing
/// a name or a numeric index, or one pallet with a repeated name inside one
/// of its own categories.
pub open spec fn spec_has_duplicate(ps: Seq<SpecPalletMetadata>) -> bool {
    ||| exists|i: int, j: int|
        0 <= i < j < ps.len() && ((#[trigger] ps[i]).name == (#[trigger] ps[j]).name || ps[i].index
            == ps[j].index)
    ||| exists|i: int| 0 <= i < ps.len() && !(#[trigger] ps[i]).names_unique()
}

/// `n` names a colliding entry inside the single pallet `p`: a storage,
/// call or constant name repeated within its category.
pub open spec fn spec_pallet_duplicate_named(p: SpecPalletMetadata, n: Seq<char>) -> bool {
    ||| exists|a: int, b: int|
        0 <= a < b < p.storage.len() && (#[trigger] p.storage[a]).name == (
        #[trigger] p.storage[b]).name && p.storage[b].name == n
    ||| exists|a: int, b: int|
        0 <= a < b < p.calls.len() && (#[trigger] p.calls[a]).name == (#[trigger] p.calls[b]).name
            && p.calls[b].name == n
    ||| exists|a: int, b: int|
        0 <= a < b < p.constants.len() && (#[trigger] p.constants[a]).name == (
        #[trigger] p.constants[b]).name && p.constants[b].name == n
}

/// `n` names an offender of [`spec_has_duplicate`]: a pallet whose name or
/// numeric index repeats an earlier pallet's, or an entry whose name
/// repeats within its category.
pub open spec fn spec_duplicate_named(ps: Seq<SpecPalletMetadata>, n: Seq<char>) -> bool {
    ||| exists|i: int, j: int|
        0 <= i < j < ps.len() && ((#[trigger] ps[i]).name == (#[trigger] ps[j]).name || ps[i].index
            == ps[j].index) && ps[j].name == n
    ||| exists|j: int| 0 <= j < ps.len() && spec_pallet_duplicate_named(#[trigger] ps[j], n)
}

/// Some pallet holds a `Default`-modifier storage entry without default
/// bytes.
pub open spec fn spec_has_inconsistent_modifier(ps: Seq<SpecPalletMetadata>) -> bool {
    exists|i: int| 0 <= i < ps.len() && !(#[trigger] ps[i]).modifiers_consistent()
}

/// `n` names a `Default`-modifier storage entry of some pallet that carries
/// no default bytes.
pub open spec fn spec_inconsistent_named(ps: Seq<SpecPalletMetadata>, n: Seq<char>) -> bool {
    exists|j: int, k: int|
        0 <= j < ps.len() && 0 <= k < (#[trigger] ps[j]).storage.len() && !(#[trigger] ps[
        j].storage[k]).modifier_consistent() && ps[j].storage[k].name == n
}

/// Some pallet of `ps` carries the index `key`.
pub open spec fn spec_key_known(key: u8, ps: Seq<SpecPalletMetadata>) -> bool {
    exists|k: int| 0 <= k < ps.len() && (#[trigger] ps[k]).index == key
}

/// A derived lookup keyed by `keys` is faulty over the pallets `ps`: a key
/// repeats, or a key matches no pallet's index.
pub open spec fn spec_keys_faulty(keys: Seq<u8>, ps: Seq<SpecPalletMetadata>) -> bool {
    ||| exists|i: int, j: int| 0 <= i < j < keys.len() && keys[i] == keys[j]
    ||| exists|i: int| 0 <= i < keys.len() && !spec_key_known(#[trigger] keys[i], ps)
}

/// `key` is an offender of [`spec_keys_faulty`]: a repeated lookup key, or
/// one that matches no pallet's index.
pub open spec fn spec_faulty_key(keys: Seq<u8>, ps: Seq<SpecPalletMetadata>, key: u8) -> bool {
    ||| exists|i: int, j: int| 0 <= i < j < keys.len() && keys[i] == keys[j] && keys[j] == key
    ||| exists|i: int| 0 <= i < keys.len() && (#[trigger] keys[i]) == key && !spec_key_known(
        key,
        ps,
    )
}

fn find_dup_name(names: &Vec<String>) -> (r: Option<usize>)
    ensures
        match r {
            Some(j) => j < names@.len() && exists|k: int|
                0 <= k < j && (#[trigger] names@[k])@ == names@[j as int]@,
            None => forall|i: int, j: int|
                0 <= i < j < names@.len() ==> (#[trigger] names@[i])@ != (#[trigger] names@[j])@,
        },
{
    let mut j: usize = 0;
    while j < names.len()
        invariant
            j <= names.len(),
            forall|a: int, b: int|
                0 <= a < b < j ==> (#[trigger] names@[a])@ != (#[trigger] names@[b])@,
        decreases names.len() - j,
    {
        let mut k: usize = 0;
        while k < j
            invariant
                k <= j < names.len(),
                forall|a: int| 0 <= a < k ==> (#[trigger] names@[a])@ != names@[j as int]@,
            decreases j - k,
        {
            if names[k] == names[j] {
                return Some(j);
            }
            k += 1;
        }
        j += 1;
    }
    None
}

fn pallet_index_present(pallets: &Vec<PalletMetadata>, index: u8) -> (r: bool)
    ensures
        r == spec_key_known(index, spec_pallet_views(pallets@)),
{
    let mut k: usize = 0;
    while k < pallets.len()
        invariant
            k <= pallets.len(),
            forall|a: int| 0 <= a < k ==> (#[trigger] spec_pallet_views(pallets@)[a]).index != index,
        decreases pallets.len() - k,
    {
        if pallets[k].index == index {
            proof {
                assert((#[trigger] spec_pallet_views(pallets@)[k as int]).index == index);
            }
            return true;
        }
        k += 1;
    }
    false
}

/// The name of a colliding pallet or entry, if the collection holds one.
fn find_duplicate(pallets: &Vec<PalletMetadata>) -> (r: Option<String>)
    ensures
        r is Some <==> spec_has_duplicate(spec_pallet_views(pallets@)),
        r matches Some(n) ==> spec_duplicate_named(spec_pallet_views(pallets@), n@),
{
    let ghost ps = spec_pallet_views(pallets@);
    let mut j: usize = 0;
    while j < pallets.len()
        invariant
            j <= pallets.len(),
            ps == spec_pallet_views(pallets@),
            forall|a: int, b: int|
                0 <= a < b < j ==> (#[trigger] ps[a]).name != (#[trigger] ps[b]).name && ps[a].index
                    != ps[b].index,
            forall|a: int| 0 <= a < j ==> (#[trigger] ps[a]).names_unique(),
        decreases pallets.len() - j,
    {
        let mut k: usize = 0;
        while k < j
            invariant
                k <= j < pallets.len(),
                ps == spec_pallet_views(pallets@),
                forall|a: int|
                    0 <= a < k ==> (#[trigger] ps[a]).name != ps[j as int].name && ps[a].index
                        != ps[j as int].index,
            decreases j - k,
        {
            if pallets[k].name == pallets[j].name || pallets[k].index == pallets[j].index {
                proof {
                    assert(ps[j as int] == pallets@[j as int]@);
                    assert(0 <= k < j && ((#[trigger] ps[k as int]).name == (#[trigger] ps[
                        j as int]).name || ps[k as int].index == ps[j as int].index));
                    assert(spec_duplicate_named(ps, ps[j as int].name));
                }
                return Some(pallets[j].name.clone());
            }
            k += 1;
        }
        let storage_names = pallets[j].storage_names();
        if let Some(d) = find_dup_name(&storage_names) {
            proof {
                let stor = ps[j as int].storage;
                assert(ps[j as int] == pallets@[j as int]@);
                assert(storage_names@.map_values(|s: String| s@).len() == storage_names@.len());
                assert(stor.map_values(|s: SpecStorageMetadata| s.name).len() == stor.len());
                let w = choose|w: int|
                    0 <= w < d && (#[trigger] storage_names@[w])@ == storage_names@[d as int]@;
                assert(storage_names@.map_values(|s: String| s@)[w] == storage_names@[w]@);
                assert(storage_names@.map_values(|s: String| s@)[d as int] == storage_names@[
                    d as int]@);
                assert(stor.map_values(|s: SpecStorageMetadata| s.name)[w] == stor[w].name);
                assert(stor.map_values(|s: SpecStorageMetadata| s.name)[d as int] == stor[
                    d as int].name);
                assert(stor[w].name == stor[d as int].name);
                assert(!ps[j as int].names_unique());
                assert(spec_pallet_duplicate_named(ps[j as int], stor[d as int].name));
                assert(spec_duplicate_named(ps, stor[d as int].name));
                assert(storage_names@[d as int]@ == stor[d as int].name);
            }
            return Some(storage_names[d].clone());
        }
        let call_names = pallets[j].call_names();
        if let Some(d) = find_dup_name(&call_names) {
            proof {
                let cls = ps[j as int].calls;
                assert(ps[j as int] == pallets@[j as int]@);
                assert(call_names@.map_values(|s: String| s@).len() == call_names@.len());
                assert(cls.map_values(|c: SpecCallMetadata| c.name).len() == cls.len());
                let w = choose|w: int|
                    0 <= w < d && (#[trigger] call_names@[w])@ == call_names@[d as int]@;
                assert(call_names@.map_values(|s: String| s@)[w] == call_names@[w]@);
                assert(call_names@.map_values(|s: String| s@)[d as int] == call_names@[d as int]@);
                assert(cls.map_values(|c: SpecCallMetadata| c.name)[w] == cls[w].name);
                assert(cls.map_values(|c: SpecCallMetadata| c.name)[d as int] == cls[d as int].name);
                assert(cls[w].name == cls[d as int].name);
                assert(!ps[j as int].names_unique());
                assert(spec_pallet_duplicate_named(ps[j as int], cls[d as int].name));
                assert(spec_duplicate_named(ps, cls[d as int].name));
                assert(call_names@[d as int]@ == cls[d as int].name);
            }
            return Some(call_names[d].clone());
        }
        let constant_names = pallets[j].constant_names();
        if let Some(d) = find_dup_name(&constant_names) {
            proof {
                let cns = ps[j as int].constants;
                assert(ps[j as int] == pallets@[j as int]@);
                assert(constant_names@.map_values(|s: String| s@).len() == constant_names@.len());
                assert(cns.map_values(|c: SpecConstantMetadata| c.name).len() == cns.len());
                let w = choose|w: int|
                    0 <= w < d && (#[trigger] constant_names@[w])@ == constant_names@[d as int]@;
                assert(constant_names@.map_values(|s: String| s@)[w] == constant_names@[w]@);
                assert(constant_names@.map_values(|s: String| s@)[d as int] == constant_names@[
                    d as int]@);
                assert(cns.map_values(|c: SpecConstantMetadata| c.name)[w] == cns[w].name);
                assert(cns.map_values(|c: SpecConstantMetadata| c.name)[d as int] == cns[
                    d as int].name);
                assert(cns[w].name == cns[d as int].name);
                assert(!ps[j as int].names_unique());
                assert(spec_pallet_duplicate_named(ps[j as int], cns[d as int].name));
                assert(spec_duplicate_named(ps, cns[d as int].name));
                assert(constant_names@[d as int]@ == cns[d as int].name);
            }
            return Some(constant_names[d].clone());
        }
        proof {
            assert(ps[j as int] == pallets@[j as int]@);
            let stor = ps[j as int].storage;
            assert(storage_names@.map_values(|s: String| s@).len() == storage_names@.len());
            assert(stor.map_values(|s: SpecStorageMetadata| s.name).len() == stor.len());
            assert forall|a: int, b: int| 0 <= a < b < stor.len() implies (#[trigger] stor[a]).name
                != (#[trigger] stor[b]).name by {
                assert(storage_names@.len() == stor.len());
                assert(storage_names@.map_values(|s: String| s@)[a] == storage_names@[a]@);
                assert(storage_names@.map_values(|s: String| s@)[b] == storage_names@[b]@);
                assert(stor.map_values(|s: SpecStorageMetadata| s.name)[a] == stor[a].name);
                assert(stor.map_values(|s: SpecStorageMetadata| s.name)[b] == stor[b].name);
            }
            let cls = ps[j as int].calls;
            assert(call_names@.map_values(|s: String| s@).len() == call_names@.len());
            assert(cls.map_values(|c: SpecCallMetadata| c.name).len() == cls.len());
            assert forall|a: int, b: int| 0 <= a < b < cls.len() implies (#[trigger] cls[a]).name
                != (#[trigger] cls[b]).name by {
                assert(call_names@.len() == cls.len());
                assert(call_names@.map_values(|s: String| s@)[a] == call_names@[a]@);
                assert(call_names@.map_values(|s: String| s@)[b] == call_names@[b]@);
                assert(cls.map_values(|c: SpecCallMetadata| c.name)[a] == cls[a].name);
                assert(cls.map_values(|c: SpecCallMetadata| c.name)[b] == cls[b].name);
            }
            let cns = ps[j as int].constants;
            assert(constant_names@.map_values(|s: String| s@).len() == constant_names@.len());
            assert(cns.map_values(|c: SpecConstantMetadata| c.name).len() == cns.len());
            assert forall|a: int, b: int| 0 <= a < b < cns.len() implies (#[trigger] cns[a]).name
                != (#[trigger] cns[b]).name by {
                assert(constant_names@.len() == cns.len());
                assert(constant_names@.map_values(|s: String| s@)[a] == constant_names@[a]@);
                assert(constant_names@.map_values(|s: String| s@)[b] == constant_names@[b]@);
                assert(cns.map_values(|c: SpecConstantMetadata| c.name)[a] == cns[a].name);
                assert(cns.map_values(|c: SpecConstantMetadata| c.name)[b] == cns[b].name);
            }
            assert(ps[j as int].names_unique());
        }
        j += 1;
    }
    None
}

/// The name of a `Default`-modifier storage entry without default bytes, if
/// any pallet holds one.
fn find_inconsistent_modifier(pallets: &Vec<PalletMetadata>) -> (r: Option<String>)
    ensures
        r is Some <==> spec_has_inconsistent_modifier(spec_pallet_views(pallets@)),
        r matches Some(n) ==> spec_inconsistent_named(spec_pallet_views(pallets@), n@),
{
    let ghost ps = spec_pallet_views(pallets@);
    let mut j: usize = 0;
    while j < pallets.len()
        invariant
            j <= pallets.len(),
            ps == spec_pallet_views(pallets@),
            forall|a: int| 0 <= a < j ==> (#[trigger] ps[a]).modifiers_consistent(),
        decreases pallets.len() - j,
    {
        let p = &pallets[j];
        let mut k: usize = 0;
        while k < p.storage.len()
            invariant
                k <= p.storage.len(),
                j < pallets.len(),
                ps == spec_pallet_views(pallets@),
                p@ == ps[j as int],
                forall|a: int| 0 <= a < k ==> (#[trigger] p@.storage[a]).modifier_consistent(),
            decreases p.storage.len() - k,
        {
            let is_default = match p.storage[k].modifier {
                crate::types::StorageModifier::Default => true,
                crate::types::StorageModifier::Optional => false,
            };
            if is_default && p.storage[k].default.is_none() {
                proof {
                    assert(ps.len() == pallets@.len());
                    assert(ps[j as int] == p@);
                    assert(ps[j as int].storage[k as int].modifier
                        == crate::types::StorageModifier::Default);
                    assert(ps[j as int].storage[k as int].default is None);
                    assert(!ps[j as int].storage[k as int].modifier_consistent());
                    assert(!(#[trigger] ps[j as int]).modifiers_consistent());
                    assert(spec_inconsistent_named(ps, ps[j as int].storage[k as int].name));
                    assert(p.storage@[k as int]@.name == ps[j as int].storage[k as int].name);
                }
                return Some(p.storage[k].name.clone());
            }
            k += 1;
        }
        j += 1;
    }
    None
}

fn event_group_keys(groups: &Vec<EventGroup>) -> (r: Vec<u8>)
    ensures
        r@ == spec_event_keys(spec_event_group_views(groups@)),
{
    let mut r: Vec<u8> = Vec::new();
    let mut i: usize = 0;
    while i < groups.len()
        invariant
            i <= groups.len(),
            r@.len() == i,
            forall|k: int| 0 <= k < i ==> r@[k] == groups@[k]@.pallet_index,
        decreases groups.len() - i,
    {
        r.push(groups[i].pallet_index);
        i += 1;
    }
    proof {
        assert(r@ =~= spec_event_keys(spec_event_group_views(groups@)));
    }
    r
}

fn error_group_keys(groups: &Vec<ErrorGroup>) -> (r: Vec<u8>)
    ensures
        r@ == spec_error_keys(spec_error_group_views(groups@)),
{
    let mut r: Vec<u8> = Vec::new();
    let mut i: usize = 0;
    while i < groups.len()
        invariant
            i <= groups.len(),
            r@.len() == i,
            forall|k: int| 0 <= k < i ==> r@[k] == groups@[k]@.pallet_index,
        decreases groups.len() - i,
    {
        r.push(groups[i].pallet_index);
        i += 1;
    }
    proof {
        assert(r@ =~= spec_error_keys(spec_error_group_views(groups@)));
    }
    r
}

/// A repeated or dangling lookup key, if `keys` holds one over `pallets`.
fn find_key_fault(keys: &Vec<u8>, pallets: &Vec<PalletMetadata>) -> (r: Option<u8>)
    ensures
        r is Some <==> spec_keys_faulty(keys@, spec_pallet_views(pallets@)),
        r matches Some(k) ==> spec_faulty_key(keys@, spec_pallet_views(pallets@), k),
{
    let ghost ps = spec_pallet_views(pallets@);
    let mut i: usize = 0;
    while i < keys.len()
        invariant
            i <= keys.len(),
            ps == spec_pallet_views(pallets@),
            forall|a: int, b: int| 0 <= a < b < i ==> keys@[a] != keys@[b],
            forall|a: int| 0 <= a < i ==> spec_key_known(#[trigger] keys@[a], ps),
        decreases keys.len() - i,
    {
        let mut k: usize = 0;
        while k < i
            invariant
                k <= i < keys.len(),
                forall|a: int| 0 <= a < k ==> keys@[a] != keys@[i as int],
            decreases i - k,
        {
            if keys[k] == keys[i] {
                proof {
                    assert(0 <= k < i < keys@.len() && keys@[k as int] == keys@[i as int]);
                    assert(spec_faulty_key(keys@, ps, keys@[i as int]));
                }
                return Some(keys[i]);
            }
            k += 1;
        }
        if !pallet_index_present(pallets, keys[i]) {
            proof {
                assert(0 <= i < keys@.len() && !spec_key_known(keys@[i as int], ps));
                assert(spec_faulty_key(keys@, ps, keys@[i as int]));
            }
            return Some(keys[i]);
        }
        i += 1;
    }
    None
}

proof fn lemma_lookup_events_absent(groups: Seq<SpecEventGroup>, index: u8)
    requires
        forall|i: int| 0 <= i < groups.len() ==> (#[trigger] groups[i]).pallet_index != index,
    ensures
        spec_lookup_events(groups, index) == Seq::<SpecEventMetadata>::empty(),
    decreases groups.len(),
{
    if groups.len() > 0 {
        let rest = groups.drop_first();
        assert forall|i: int| 0 <= i < rest.len() implies (#[trigger] rest[i]).pallet_index
            != index by {
            assert(rest[i] == groups[i + 1]);
        }
        lemma_lookup_events_absent(rest, index);
    }
}

proof fn lemma_lookup_errors_absent(groups: Seq<SpecErrorGroup>, index: u8)
    requires
        forall|i: int| 0 <= i < groups.len() ==> (#[trigger] groups[i]).pallet_index != index,
    ensures
        spec_lookup_errors(groups, index) == Seq::<SpecErrorMetadata>::empty(),
    decreases groups.len(),
{
    if groups.len() > 0 {
        let rest = groups.drop_first();
        assert forall|i: int| 0 <= i < rest.len() implies (#[trigger] rest[i]).pallet_index
            != index by {
            assert(rest[i] == groups[i + 1]);
        }
        lemma_lookup_errors_absent(rest, index);
    }
}

/// Looking up a pallet index that no pallet of a well-formed registry
/// carries yields the empty sequence, for events and for errors alike:
/// absence is a valid result, never a failure.
pub proof fn lemma_unknown_index_yields_empty(m: SpecMetadata, index: u8)
    requires
        m.wf(),
        forall|k: int| 0 <= k < m.pallets.len() ==> (#[trigger] m.pallets[k]).index != index,
    ensures
        spec_lookup_events(m.events_by_index, index) == Seq::<SpecEventMetadata>::empty(),
        spec_lookup_errors(m.errors_by_index, index) == Seq::<SpecErrorMetadata>::empty(),
{
    assert forall|i: int| 0 <= i < m.events_by_index.len() implies (#[trigger] m.events_by_index[
        i]).pallet_index != index by {
        assert(spec_key_known(m.events_by_index[i].pallet_index, m.pallets));
        let k = choose|k: int|
            0 <= k < m.pallets.len() && (#[trigger] m.pallets[k]).index == m.events_by_index[
                i].pallet_index;
        assert(m.pallets[k].index != index);
    }
    lemma_lookup_events_absent(m.events_by_index, index);
    assert forall|i: int| 0 <= i < m.errors_by_index.len() implies (#[trigger] m.errors_by_index[
        i]).pallet_index != index by {
        assert(spec_key_known(m.errors_by_index[i].pallet_index, m.pallets));
        let k = choose|k: int|
            0 <= k < m.pallets.len() && (#[trigger] m.pallets[k]).index == m.errors_by_index[
                i].pallet_index;
        assert(m.pallets[k].index != index);
    }
    lemma_lookup_errors_absent(m.errors_by_index, index);
}

/// In a well-formed registry, looking up the index of a registered event
/// group returns exactly the variant sequence registered for it: the same
/// variants, in the same insertion order.
pub proof fn lemma_events_lookup_preserves_registration(m: SpecMetadata, i: int)
    requires
        m.wf(),
        0 <= i < m.events_by_index.len(),
    ensures
        spec_lookup_events(m.events_by_index, m.events_by_index[i].pallet_index)
            == m.events_by_index[i].events,
{
    lemma_lookup_events_found(m.events_by_index, i);
}

proof fn lemma_lookup_events_found(groups: Seq<SpecEventGroup>, i: int)
    requires
        0 <= i < groups.len(),
        forall|a: int, b: int|
            0 <= a < b < groups.len() ==> (#[trigger] groups[a]).pallet_index != (
            #[trigger] groups[b]).pallet_index,
    ensures
        spec_lookup_events(groups, groups[i].pallet_index) == groups[i].events,
    decreases groups.len(),
{
    if i > 0 {
        assert(groups[0].pallet_index != groups[i].pallet_index);
        let rest = groups.drop_first();
        assert forall|a: int, b: int| 0 <= a < b < rest.len() implies (
        #[trigger] rest[a]).pallet_index != (#[trigger] rest[b]).pallet_index by {
            assert(rest[a] == groups[a + 1]);
            assert(rest[b] == groups[b + 1]);
        }
        assert(rest[i - 1] == groups[i]);
        lemma_lookup_events_found(rest, i - 1);
    }
}

/// The twin of [`lemma_events_lookup_preserves_registration`] for error
/// groups.
pub proof fn lemma_errors_lookup_preserves_registration(m: SpecMetadata, i: int)
    requires
        m.wf(),
        0 <= i < m.errors_by_index.len(),
    ensures
        spec_lookup_errors(m.errors_by_index, m.errors_by_index[i].pallet_index)
            == m.errors_by_index[i].errors,
{
    lemma_lookup_errors_found(m.errors_by_index, i);
}

proof fn lemma_lookup_errors_found(groups: Seq<SpecErrorGroup>, i: int)
    requires
        0 <= i < groups.len(),
        forall|a: int, b: int|
            0 <= a < b < groups.len() ==> (#[trigger] groups[a]).pallet_index != (
            #[trigger] groups[b]).pallet_index,
    ensures
        spec_lookup_errors(groups, groups[i].pallet_index) == groups[i].errors,
    decreases groups.len(),
{
    if i > 0 {
        assert(groups[0].pallet_index != groups[i].pallet_index);
        let rest = groups.drop_first();
        assert forall|a: int, b: int| 0 <= a < b < rest.len() implies (
        #[trigger] rest[a]).pallet_index != (#[trigger] rest[b]).pallet_index by {
            assert(rest[a] == groups[a + 1]);
            assert(rest[b] == groups[b + 1]);
        }
        assert(rest[i - 1] == groups[i]);
        lemma_lookup_errors_found(rest, i - 1);
    }
}

/// For every pallet of a well-formed registry, the event lookup on the
/// pallet's index returns exactly what construction registered for that
/// index: where a group carries the index, that group's own variant
/// sequence, unchanged and in insertion order; where none does, the empty
/// sequence.
pub proof fn lemma_pallet_events_faithful(m: SpecMetadata, k: int)
    requires
        m.wf(),
        0 <= k < m.pallets.len(),
    ensures
        (exists|i: int|
            0 <= i < m.events_by_index.len() && (#[trigger] m.events_by_index[i]).pallet_index
                == m.pallets[k].index) ==> exists|i: int|
            0 <= i < m.events_by_index.len() && (#[trigger] m.events_by_index[i]).pallet_index
                == m.pallets[k].index && spec_lookup_events(m.events_by_index, m.pallets[k].index)
                == m.events_by_index[i].events,
        (forall|i: int|
            0 <= i < m.events_by_index.len() ==> (#[trigger] m.events_by_index[i]).pallet_index
                != m.pallets[k].index) ==> spec_lookup_events(m.events_by_index, m.pallets[k].index)
            == Seq::<SpecEventMetadata>::empty(),
{
    if exists|i: int|
        0 <= i < m.events_by_index.len() && (#[trigger] m.events_by_index[i]).pallet_index
            == m.pallets[k].index {
        let i = choose|i: int|
            0 <= i < m.events_by_index.len() && (#[trigger] m.events_by_index[i]).pallet_index
                == m.pallets[k].index;
        lemma_events_lookup_preserves_registration(m, i);
    } else {
        lemma_lookup_events_absent(m.events_by_index, m.pallets[k].index);
    }
}

/// The twin of [`lemma_pallet_events_faithful`] for error variants.
pub proof fn lemma_pallet_errors_faithful(m: SpecMetadata, k: int)
    requires
        m.wf(),
        0 <= k < m.pallets.len(),
    ensures
        (exists|i: int|
            0 <= i < m.errors_by_index.len() && (#[trigger] m.errors_by_index[i]).pallet_index
                == m.pallets[k].index) ==> exists|i: int|
            0 <= i < m.errors_by_index.len() && (#[trigger] m.errors_by_index[i]).pallet_index
                == m.pallets[k].index && spec_lookup_errors(m.errors_by_index, m.pallets[k].index)
                == m.errors_by_index[i].errors,
        (forall|i: int|
            0 <= i < m.errors_by_index.len() ==> (#[trigger] m.errors_by_index[i]).pallet_index
                != m.pallets[k].index) ==> spec_lookup_errors(m.errors_by_index, m.pallets[k].index)
            == Seq::<SpecErrorMetadata>::empty(),
{
    if exists|i: int|
        0 <= i < m.errors_by_index.len() && (#[trigger] m.errors_by_index[i]).pallet_index
            == m.pallets[k].index {
        let i = choose|i: int|
            0 <= i < m.errors_by_index.len() && (#[trigger] m.errors_by_index[i]).pallet_index
                == m.pallets[k].index;
        lemma_errors_lookup_preserves_registration(m, i);
    } else {
        lemma_lookup_errors_absent(m.errors_by_index, m.pallets[k].index);
    }
}

/// Two pallets sharing one numeric index are a collision, so
/// [`Metadata::new`] can only reject such input with a `DuplicateName`
/// error — never silently merge it into a registry.
pub proof fn lemma_duplicate_index_is_rejected(ps: Seq<SpecPalletMetadata>, i: int, j: int)
    requires
        0 <= i < j < ps.len(),
        ps[i].index == ps[j].index,
    ensures
        spec_has_duplicate(ps),
{
    assert(0 <= i < j < ps.len() && ((#[trigger] ps[i]).name == (#[trigger] ps[j]).name || ps[
        i].index == ps[j].index));
}

fn clone_events(v: &Vec<EventMetadata>) -> (r: Vec<EventMetadata>)
    ensures
        r@.map_values(|e: EventMetadata| e@) == v@.map_values(|e: EventMetadata| e@),
{
    let mut r: Vec<EventMetadata> = Vec::new();
    let mut i: usize = 0;
    while i < v.len()
        invariant
            i <= v.len(),
            r@.len() == i,
            forall|k: int| 0 <= k < i ==> r@[k]@ == v@[k]@,
        decreases v.len() - i,
    {
        r.push(v[i].duplicate());
        i += 1;
    }
    proof {
        assert(r@.map_values(|e: EventMetadata| e@) =~= v@.map_values(|e: EventMetadata| e@));
    }
    r
}

fn clone_errors(v: &Vec<ErrorMetadata>) -> (r: Vec<ErrorMetadata>)
    ensures
        r@.map_values(|e: ErrorMetadata| e@) == v@.map_values(|e: ErrorMetadata| e@),
{
    let mut r: Vec<ErrorMetadata> = Vec::new();
    let mut i: usize = 0;
    while i < v.len()
        invariant
            i <= v.len(),
            r@.len() == i,
            forall|k: int| 0 <= k < i ==> r@[k]@ == v@[k]@,
        decreases v.len() - i,
    {
        r.push(v[i].duplicate());
        i += 1;
    }
    proof {
        assert(r@.map_values(|e: ErrorMetadata| e@) =~= v@.map_values(|e: ErrorMetadata| e@));
    }
    r
}

impl Metadata {
    /// Builds a registry from the decoded pallets and the derived event and
    /// error lookups, validating every construction-time invariant:
    /// `DuplicateName` for a pallet whose name or index is already taken or
    /// an entry name repeated within its category, `InconsistentModifier`
    /// for a `Default`-modifier storage entry without default bytes, and
    /// `UnknownPalletIndex` for a lookup index that is repeated or matches
    /// no pallet. On success the registry holds exactly the given data,
    /// unchanged and in the given order, and is well-formed.
    pub fn new(pallets: Vec<PalletMetadata>, events: Vec<EventGroup>, errors: Vec<ErrorGroup>) -> (r:
        Result<Metadata, MetadataError>)
        ensures
            (r matches Err(MetadataError::DuplicateName(_))) <==> spec_has_duplicate(
                spec_pallet_views(pallets@),
            ),
            (r matches Err(MetadataError::InconsistentModifier(_))) <==> (!spec_has_duplicate(
                spec_pallet_views(pallets@),
            ) && spec_has_inconsistent_modifier(spec_pallet_views(pallets@))),
            (r matches Err(MetadataError::UnknownPalletIndex(_))) <==> (!spec_has_duplicate(
                spec_pallet_views(pallets@),
            ) && !spec_has_inconsistent_modifier(spec_pallet_views(pallets@)) && (spec_keys_faulty(
                spec_event_keys(spec_event_group_views(events@)),
                spec_pallet_views(pallets@),
            ) || spec_keys_faulty(
                spec_error_keys(spec_error_group_views(errors@)),
                spec_pallet_views(pallets@),
            ))),
            r is Ok <==> (!spec_has_duplicate(spec_pallet_views(pallets@))
                && !spec_has_inconsistent_modifier(spec_pallet_views(pallets@))
                && !spec_keys_faulty(
                spec_event_keys(spec_event_group_views(events@)),
                spec_pallet_views(pallets@),
            ) && !spec_keys_faulty(
                spec_error_keys(spec_error_group_views(errors@)),
                spec_pallet_views(pallets@),
            )),
            r matches Ok(m) ==> m@.pallets == spec_pallet_views(pallets@) && m@.events_by_index
                == spec_event_group_views(events@) && m@.errors_by_index == spec_error_group_views(
                errors@,
            ) && m@.wf(),
            r matches Err(MetadataError::DuplicateName(n)) ==> spec_duplicate_named(
                spec_pallet_views(pallets@),
                n@,
            ),
            r matches Err(MetadataError::InconsistentModifier(n)) ==> spec_inconsistent_named(
                spec_pallet_views(pallets@),
                n@,
            ),
            r matches Err(MetadataError::UnknownPalletIndex(k)) ==> (spec_faulty_key(
                spec_event_keys(spec_event_group_views(events@)),
                spec_pallet_views(pallets@),
                k,
            ) || spec_faulty_key(
                spec_error_keys(spec_error_group_views(errors@)),
                spec_pallet_views(pallets@),
                k,
            )),
    {
        let ghost ps = spec_pallet_views(pallets@);
        if let Some(n) = find_duplicate(&pallets) {
            return Err(MetadataError::DuplicateName(n));
        }
        if let Some(n) = find_inconsistent_modifier(&pallets) {
            return Err(MetadataError::InconsistentModifier(n));
        }
        let event_keys = event_group_keys(&events);
        if let Some(k) = find_key_fault(&event_keys, &pallets) {
            return Err(MetadataError::UnknownPalletIndex(k));
        }
        let error_keys = error_group_keys(&errors);
        if let Some(k) = find_key_fault(&error_keys, &pallets) {
            return Err(MetadataError::UnknownPalletIndex(k));
        }
        let m = Metadata { pallets, events_by_index: events, errors_by_index: errors };
        proof {
            let mps = m@.pallets;
            assert(mps =~= ps);
            assert forall|i: int, j: int| 0 <= i < j < mps.len() implies (#[trigger] mps[i]).name
                != (#[trigger] mps[j]).name by {
                if ps[i].name == ps[j].name {
                    assert(spec_has_duplicate(ps));
                }
            }
            assert forall|i: int, j: int| 0 <= i < j < mps.len() implies (#[trigger] mps[i]).index
                != (#[trigger] mps[j]).index by {
                if ps[i].index == ps[j].index {
                    assert(spec_has_duplicate(ps));
                }
            }
            assert forall|i: int| 0 <= i < mps.len() implies (#[trigger] mps[i]).wf() by {
                if !ps[i].names_unique() {
                    assert(spec_has_duplicate(ps));
                }
                if !ps[i].modifiers_consistent() {
                    assert(spec_has_inconsistent_modifier(ps));
                }
            }
            let egs = m@.events_by_index;
            let rgs = m@.errors_by_index;
            assert forall|i: int, j: int| 0 <= i < j < egs.len() implies (
            #[trigger] egs[i]).pallet_index != (#[trigger] egs[j]).pallet_index by {
                assert(spec_event_keys(egs)[i] == egs[i].pallet_index);
                assert(spec_event_keys(egs)[j] == egs[j].pallet_index);
            }
            assert forall|i: int| 0 <= i < egs.len() implies spec_key_known(
                (#[trigger] egs[i]).pallet_index,
                mps,
            ) by {
                assert(spec_event_keys(egs)[i] == egs[i].pallet_index);
                assert(spec_key_known(egs[i].pallet_index, ps));
            }
            assert forall|i: int, j: int| 0 <= i < j < rgs.len() implies (
            #[trigger] rgs[i]).pallet_index != (#[trigger] rgs[j]).pallet_index by {
                assert(spec_error_keys(rgs)[i] == rgs[i].pallet_index);
                assert(spec_error_keys(rgs)[j] == rgs[j].pallet_index);
            }
            assert forall|i: int| 0 <= i < rgs.len() implies spec_key_known(
                (#[trigger] rgs[i]).pallet_index,
                mps,
            ) by {
                assert(spec_error_keys(rgs)[i] == rgs[i].pallet_index);
                assert(spec_key_known(rgs[i].pallet_index, ps));
            }
            assert(m@.wf());
        }
        Ok(m)
    }

    /// The pallets, in insertion order.
    pub fn pallets(&self) -> (r: &Vec<PalletMetadata>)
        ensures
            r@.map_values(|p: PalletMetadata| p@) == self@.pallets,
    {
        &self.pallets
    }

    /// The event variants registered for `pallet_index`, in insertion
    /// order; empty where the index carries none. A pure read: absence is a
    /// valid result, never an error.
    pub fn events(&self, pallet_index: u8) -> (r: Vec<EventMetadata>)
        ensures
            r@.map_values(|e: EventMetadata| e@) == spec_lookup_events(
                self@.events_by_index,
                pallet_index,
            ),
    {
        let mut i: usize = 0;
        proof {
            assert(self@.events_by_index.skip(0) =~= self@.events_by_index);
        }
        while i < self.events_by_index.len()
            invariant
                i <= self.events_by_index.len(),
                spec_lookup_events(self@.events_by_index, pallet_index) == spec_lookup_events(
                    self@.events_by_index.skip(i as int),
                    pallet_index,
                ),
            decreases self.events_by_index.len() - i,
        {
            if self.events_by_index[i].pallet_index == pallet_index {
                return clone_events(&self.events_by_index[i].events);
            }
            proof {
                assert(self@.events_by_index.skip(i as int).drop_first() =~= self@.events_by_index
                    .skip(i as int + 1));
            }
            i += 1;
        }
        let r: Vec<EventMetadata> = Vec::new();
        proof {
            assert(r@.map_values(|e: EventMetadata| e@) =~= Seq::<SpecEventMetadata>::empty());
        }
        r
    }

    /// The error variants registered for `pallet_index`, symmetric to
    /// [`Metadata::events`].
    pub fn errors(&self, pallet_index: u8) -> (r: Vec<ErrorMetadata>)
        ensures
            r@.map_values(|e: ErrorMetadata| e@) == spec_lookup_errors(
                self@.errors_by_index,
                pallet_index,
            ),
    {
        let mut i: usize = 0;
        proof {
            assert(self@.errors_by_index.skip(0) =~= self@.errors_by_index);
        }
        while i < self.errors_by_index.len()
            invariant
                i <= self.errors_by_index.len(),
                spec_lookup_errors(self@.errors_by_index, pallet_index) == spec_lookup_errors(
                    self@.errors_by_index.skip(i as int),
                    pallet_index,
                ),
            decreases self.errors_by_index.len() - i,
        {
            if self.errors_by_index[i].pallet_index == pallet_index {
                return clone_errors(&self.errors_by_index[i].errors);
            }
            proof {
                assert(self@.errors_by_index.skip(i as int).drop_first() =~= self@.errors_by_index
                    .skip(i as int + 1));
            }
            i += 1;
        }
        let r: Vec<ErrorMetadata> = Vec::new();
        proof {
            assert(r@.map_values(|e: ErrorMetadata| e@) =~= Seq::<SpecErrorMetadata>::empty());
        }
        r
    }
}

} // verus!
