//! Value types of the metadata model: storage items, calls, constants,
//! event variants and error variants, and the pallet record that aggregates
//! them. Each executable type has a spec-level mirror reached through its
//! view, and the contracts of the whole crate are stated over those mirrors.

use vstd::prelude::*;

verus! {

/// Whether absence of a stored value is itself valid (`Optional`) or implies
/// a caller-visible default (`Default`, which requires default bytes to be
/// present in the entry).
#[derive(Clone, Copy, PartialEq, Eq, Structural, Debug)]
pub enum StorageModifier {
    Optional,
    Default,
}

/// A named, typed slot a pallet can persist state in.
pub struct StorageMetadata {
    pub name: String,
    pub modifier: StorageModifier,
    pub ty: String,
    pub default: Option<Vec<u8>>,
}

pub struct SpecStorageMetadata {
    pub name: Seq<char>,
    pub modifier: StorageModifier,
    pub ty: Seq<char>,
    pub default: Option<Seq<u8>>,
}

impl View for StorageMetadata {
    type V = SpecStorageMetadata;

    open spec fn view(&self) -> SpecStorageMetadata {
        SpecStorageMetadata {
            name: self.name@,
            modifier: self.modifier,
            ty: self.ty@,
            default: match self.default {
                Some(ref b) => Some(b@),
                None => None,
            },
        }
    }
}

impl SpecStorageMetadata {
    /// A `Default`-modifier entry must carry default bytes.
    pub open spec fn modifier_consistent(self) -> bool {
        self.modifier == StorageModifier::Default ==> self.default is Some
    }
}

/// A named operation a pallet exposes as externally invocable, with its
/// numeric call index.
pub struct CallMetadata {
    pub name: String,
    pub index: u8,
}

pub struct SpecCallMetadata {
    pub name: Seq<char>,
    pub index: u8,
}

impl View for CallMetadata {
    type V = SpecCallMetadata;

    open spec fn view(&self) -> SpecCallMetadata {
        SpecCallMetadata { name: self.name@, index: self.index }
    }
}

/// A named constant a pallet declares, with its type descriptor and literal
/// value bytes.
pub struct ConstantMetadata {
    pub name: String,
    pub ty: String,
    pub value: Vec<u8>,
}

pub struct SpecConstantMetadata {
    pub name: Seq<char>,
    pub ty: Seq<char>,
    pub value: Seq<u8>,
}

impl View for ConstantMetadata {
    type V = SpecConstantMetadata;

    open spec fn view(&self) -> SpecConstantMetadata {
        SpecConstantMetadata { name: self.name@, ty: self.ty@, value: self.value@ }
    }
}

/// One case of a pallet's event enumeration: a variant name and the
/// structural description of its fields.
pub struct EventMetadata {
    pub event: String,
    pub variant: Vec<String>,
}

pub struct SpecEventMetadata {
    pub event: Seq<char>,
    pub variant: Seq<Seq<char>>,
}

impl View for EventMetadata {
    type V = SpecEventMetadata;

    open spec fn view(&self) -> SpecEventMetadata {
        SpecEventMetadata {
            event: self.event@,
            variant: self.variant@.map_values(|f: String| f@),
        }
    }
}

fn clone_strings(v: &Vec<String>) -> (r: Vec<String>)
    ensures
        r@.map_values(|s: String| s@) == v@.map_values(|s: String| s@),
{
    let mut r: Vec<String> = Vec::new();
    let mut i: usize = 0;
    while i < v.len()
        invariant
            i <= v.len(),
            r@.len() == i,
            forall|k: int| 0 <= k < i ==> r@[k]@ == v@[k]@,
        decreases v.len() - i,
    {
        r.push(v[i].clone());
        i += 1;
    }
    proof {
        assert(r@.map_values(|s: String| s@) =~= v@.map_values(|s: String| s@));
    }
    r
}

impl EventMetadata {
    /// A copy with the same view.
    pub fn duplicate(&self) -> (r: EventMetadata)
        ensures
            r@ == self@,
    {
        EventMetadata { event: self.event.clone(), variant: clone_strings(&self.variant) }
    }

    /// The variant's name.
    pub fn event(&self) -> (r: &String)
        ensures
            r@ == self@.event,
    {
        &self.event
    }

    /// The structural description of the variant's fields.
    pub fn variant(&self) -> (r: &Vec<String>)
        ensures
            r@.map_values(|f: String| f@) == self@.variant,
    {
        &self.variant
    }
}

/// One case of a pallet's error enumeration: a variant name and an optional
/// human description.
pub struct ErrorMetadata {
    pub error: String,
    pub description: Option<String>,
}

pub struct SpecErrorMetadata {
    pub error: Seq<char>,
    pub description: Option<Seq<char>>,
}

impl View for ErrorMetadata {
    type V = SpecErrorMetadata;

    open spec fn view(&self) -> SpecErrorMetadata {
        SpecErrorMetadata {
            error: self.error@,
            description: match self.description {
                Some(ref d) => Some(d@),
                None => None,
            },
        }
    }
}

impl ErrorMetadata {
    /// A copy with the same view.
    pub fn duplicate(&self) -> (r: ErrorMetadata)
        ensures
            r@ == self@,
    {
        ErrorMetadata {
            error: self.error.clone(),
            description: match &self.description {
                Some(d) => Some(d.clone()),
                None => None,
            },
        }
    }

    /// The variant's name.
    pub fn error(&self) -> (r: &String)
        ensures
            r@ == self@.error,
    {
        &self.error
    }

    /// The variant's optional human description.
    pub fn description(&self) -> (r: &Option<String>)
        ensures
            (match r {
                Some(d) => self@.description == Some(d@),
                None => self@.description is None,
            }),
    {
        &self.description
    }
}

/// A named, indexed module of the runtime: its storage items, calls and
/// constants, each an insertion-ordered collection with names unique within
/// their own category.
pub struct PalletMetadata {
    pub name: String,
    pub index: u8,
    pub storage: Vec<StorageMetadata>,
    pub calls: Vec<CallMetadata>,
    pub constants: Vec<ConstantMetadata>,
}

pub struct SpecPalletMetadata {
    pub name: Seq<char>,
    pub index: u8,
    pub storage: Seq<SpecStorageMetadata>,
    pub calls: Seq<SpecCallMetadata>,
    pub constants: Seq<SpecConstantMetadata>,
}

impl View for PalletMetadata {
    type V = SpecPalletMetadata;

    open spec fn view(&self) -> SpecPalletMetadata {
        SpecPalletMetadata {
            name: self.name@,
            index: self.index,
            storage: self.storage@.map_values(|s: StorageMetadata| s@),
            calls: self.calls@.map_values(|c: CallMetadata| c@),
            constants: self.constants@.map_values(|c: ConstantMetadata| c@),
        }
    }
}

impl PalletMetadata {
    /// The storage entry names, in insertion order.
    pub fn storage_names(&self) -> (r: Vec<String>)
        ensures
            r@.map_values(|s: String| s@) == self@.storage.map_values(
                |s: SpecStorageMetadata| s.name,
            ),
    {
        let mut r: Vec<String> = Vec::new();
        let mut i: usize = 0;
        while i < self.storage.len()
            invariant
                i <= self.storage.len(),
                r@.len() == i,
                forall|k: int| 0 <= k < i ==> r@[k]@ == self@.storage[k].name,
            decreases self.storage.len() - i,
        {
            r.push(self.storage[i].name.clone());
            i += 1;
        }
        proof {
            assert(r@.map_values(|s: String| s@) =~= self@.storage.map_values(
                |s: SpecStorageMetadata| s.name,
            ));
        }
        r
    }

    /// The call names, in insertion order.
    pub fn call_names(&self) -> (r: Vec<String>)
        ensures
            r@.map_values(|s: String| s@) == self@.calls.map_values(|c: SpecCallMetadata| c.name),
    {
        let mut r: Vec<String> = Vec::new();
        let mut i: usize = 0;
        while i < self.calls.len()
            invariant
                i <= self.calls.len(),
                r@.len() == i,
                forall|k: int| 0 <= k < i ==> r@[k]@ == self@.calls[k].name,
            decreases self.calls.len() - i,
        {
            r.push(self.calls[i].name.clone());
            i += 1;
        }
        proof {
            assert(r@.map_values(|s: String| s@) =~= self@.calls.map_values(
                |c: SpecCallMetadata| c.name,
            ));
        }
        r
    }

    /// The constant names, in insertion order.
    pub fn constant_names(&self) -> (r: Vec<String>)
        ensures
            r@.map_values(|s: String| s@) == self@.constants.map_values(
                |c: SpecConstantMetadata| c.name,
            ),
    {
        let mut r: Vec<String> = Vec::new();
        let mut i: usize = 0;
        while i < self.constants.len()
            invariant
                i <= self.constants.len(),
                r@.len() == i,
                forall|k: int| 0 <= k < i ==> r@[k]@ == self@.constants[k].name,
            decreases self.constants.len() - i,
        {
            r.push(self.constants[i].name.clone());
            i += 1;
        }
        proof {
            assert(r@.map_values(|s: String| s@) =~= self@.constants.map_values(
                |c: SpecConstantMetadata| c.name,
            ));
        }
        r
    }
}

impl SpecPalletMetadata {
    /// Storage, call and constant names are each unique within their own
    /// category.
    pub open spec fn names_unique(self) -> bool {
        &&& (forall|i: int, j: int|
            0 <= i < j < self.storage.len() ==> self.storage[i].name != self.storage[j].name)
        &&& (forall|i: int, j: int|
            0 <= i < j < self.calls.len() ==> self.calls[i].name != self.calls[j].name)
        &&& (forall|i: int, j: int|
            0 <= i < j < self.constants.len() ==> self.constants[i].name != self.constants[j].name)
    }

    /// Every `Default`-modifier storage entry carries default bytes.
    pub open spec fn modifiers_consistent(self) -> bool {
        forall|i: int| 0 <= i < self.storage.len() ==> self.storage[i].modifier_consistent()
    }

    /// The pallet-local invariants together.
    pub open spec fn wf(self) -> bool {
        self.names_unique() && self.modifiers_consistent()
    }
}

} // verus!
