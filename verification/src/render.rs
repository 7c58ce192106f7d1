//! Textual rendering of the metadata model. Every function returns the text
//! it renders — writing it to a terminal, log or buffer is the caller's
//! choice — and is proved to return exactly the text that its spec-level
//! counterpart describes, so rendering is a pure function of the registry's
//! abstract state.

use vstd::prelude::*;
use vstd::string::StringExecFns;

use crate::text::{
    describe_bytes, describe_modifier, describe_opt_bytes, describe_opt_str, describe_str_list,
    quoted, spec_dec, spec_describe_bytes, spec_describe_modifier, spec_describe_opt_bytes,
    spec_describe_opt_str, spec_describe_str_list, spec_opt_bytes_view, spec_opt_str_view,
    spec_quoted, u8_dec,
};
use crate::registry::{spec_lookup_errors, spec_lookup_events, Metadata, SpecMetadata};
use crate::types::{
    ErrorMetadata, EventMetadata, PalletMetadata, SpecCallMetadata, SpecConstantMetadata,
    SpecErrorMetadata, SpecEventMetadata, SpecPalletMetadata, SpecStorageMetadata, StorageMetadata,
};

verus! {

/// The text of one event variant: its name and its variant shape, each on a
/// line, then a blank line.
pub open spec fn spec_event_text(e: SpecEventMetadata) -> Seq<char> {
    "Name: "@ + e.event + "\n"@ + "Variant: "@ + spec_describe_str_list(e.variant) + "\n\n"@
}

/// The text of one error variant: its name and its optional description,
/// each on a line, then a blank line.
pub open spec fn spec_error_text(e: SpecErrorMetadata) -> Seq<char> {
    "Name: "@ + e.error + "\n"@ + "Description: "@ + spec_describe_opt_str(e.description) + "\n\n"@
}

/// The header block of one pallet: its quoted name and its numeric id.
pub open spec fn spec_pallet_text(p: SpecPalletMetadata) -> Seq<char> {
    "----------------- Pallet: '"@ + p.name + "' -----------------\n\n"@ + "Pallet id: "@
        + spec_dec(p.index as nat) + "\n"@
}

/// The line of one call: its name and its call index.
pub open spec fn spec_call_line(c: SpecCallMetadata) -> Seq<char> {
    "Name: "@ + c.name + ", index "@ + spec_dec(c.index as nat) + "\n"@
}

/// The lines of a call collection, in insertion order.
pub open spec fn spec_call_lines(cs: Seq<SpecCallMetadata>) -> Seq<char>
    decreases cs.len(),
{
    if cs.len() == 0 {
        Seq::empty()
    } else {
        spec_call_lines(cs.drop_last()) + spec_call_line(cs.last())
    }
}

/// The calls section of one pallet: a header, the call lines, a blank line.
pub open spec fn spec_calls_text(p: SpecPalletMetadata) -> Seq<char> {
    "----------------- Calls for Pallet: "@ + p.name + " -----------------\n\n"@ + spec_call_lines(
        p.calls,
    ) + "\n"@
}

/// The line of one constant: its name, type descriptor and value bytes.
pub open spec fn spec_constant_line(c: SpecConstantMetadata) -> Seq<char> {
    "Name: "@ + c.name + ", Type "@ + spec_quoted(c.ty) + ", Value "@ + spec_describe_bytes(c.value)
        + "\n"@
}

/// The lines of a constant collection, in insertion order.
pub open spec fn spec_constant_lines(cs: Seq<SpecConstantMetadata>) -> Seq<char>
    decreases cs.len(),
{
    if cs.len() == 0 {
        Seq::empty()
    } else {
        spec_constant_lines(cs.drop_last()) + spec_constant_line(cs.last())
    }
}

/// The constants section of one pallet.
pub open spec fn spec_constants_text(p: SpecPalletMetadata) -> Seq<char> {
    "----------------- Constants for Pallet: "@ + p.name + " -----------------\n\n"@
        + spec_constant_lines(p.constants) + "\n"@
}

/// The line of one storage entry: its name, modifier, type descriptor and
/// optional default bytes.
pub open spec fn spec_storage_line(s: SpecStorageMetadata) -> Seq<char> {
    "Name: "@ + s.name + ", Modifier: "@ + spec_describe_modifier(s.modifier) + ", Type "@
        + spec_quoted(s.ty) + ", Default "@ + spec_describe_opt_bytes(s.default) + "\n"@
}

/// The lines of a storage collection, in insertion order.
pub open spec fn spec_storage_lines(ss: Seq<SpecStorageMetadata>) -> Seq<char>
    decreases ss.len(),
{
    if ss.len() == 0 {
        Seq::empty()
    } else {
        spec_storage_lines(ss.drop_last()) + spec_storage_line(ss.last())
    }
}

/// The storage section of one pallet.
pub open spec fn spec_storages_text(p: SpecPalletMetadata) -> Seq<char> {
    "----------------- Storages for Pallet: "@ + p.name + " -----------------\n\n"@
        + spec_storage_lines(p.storage) + "\n"@
}

/// The header blocks of all pallets, in insertion order.
pub open spec fn spec_render_pallets(ps: Seq<SpecPalletMetadata>) -> Seq<char>
    decreases ps.len(),
{
    if ps.len() == 0 {
        Seq::empty()
    } else {
        spec_render_pallets(ps.drop_last()) + spec_pallet_text(ps.last())
    }
}

/// The calls sections of the pallets that have calls, in insertion order;
/// a pallet without calls contributes nothing.
pub open spec fn spec_render_pallets_with_calls(ps: Seq<SpecPalletMetadata>) -> Seq<char>
    decreases ps.len(),
{
    if ps.len() == 0 {
        Seq::empty()
    } else {
        spec_render_pallets_with_calls(ps.drop_last()) + (if ps.last().calls.len() > 0 {
            spec_calls_text(ps.last())
        } else {
            Seq::empty()
        })
    }
}

/// The constants sections of the pallets that have constants, in insertion
/// order; a pallet without constants contributes nothing.
pub open spec fn spec_render_pallets_with_constants(ps: Seq<SpecPalletMetadata>) -> Seq<char>
    decreases ps.len(),
{
    if ps.len() == 0 {
        Seq::empty()
    } else {
        spec_render_pallets_with_constants(ps.drop_last()) + (if ps.last().constants.len() > 0 {
            spec_constants_text(ps.last())
        } else {
            Seq::empty()
        })
    }
}

/// The storage sections of the pallets that have storage, in insertion
/// order; a pallet without storage contributes nothing.
pub open spec fn spec_render_pallets_with_storages(ps: Seq<SpecPalletMetadata>) -> Seq<char>
    decreases ps.len(),
{
    if ps.len() == 0 {
        Seq::empty()
    } else {
        spec_render_pallets_with_storages(ps.drop_last()) + (if ps.last().storage.len() > 0 {
            spec_storages_text(ps.last())
        } else {
            Seq::empty()
        })
    }
}

/// The texts of a sequence of event variants, in order.
pub open spec fn spec_event_texts(es: Seq<SpecEventMetadata>) -> Seq<char>
    decreases es.len(),
{
    if es.len() == 0 {
        Seq::empty()
    } else {
        spec_event_texts(es.drop_last()) + spec_event_text(es.last())
    }
}

/// The texts of a sequence of error variants, in order.
pub open spec fn spec_error_texts(es: Seq<SpecErrorMetadata>) -> Seq<char>
    decreases es.len(),
{
    if es.len() == 0 {
        Seq::empty()
    } else {
        spec_error_texts(es.drop_last()) + spec_error_text(es.last())
    }
}

/// One pallet's events section: a labeled header, then the text of every
/// event variant registered for the pallet's index, then a blank line. The
/// section is rendered for every pallet, also where the lookup is empty.
pub open spec fn spec_events_section(m: SpecMetadata, p: SpecPalletMetadata) -> Seq<char> {
    "----------------- Events for Pallet: "@ + p.name + " -----------------\n\n"@
        + spec_event_texts(spec_lookup_events(m.events_by_index, p.index)) + "\n"@
}

/// One pallet's errors section, symmetric to [`spec_events_section`].
pub open spec fn spec_errors_section(m: SpecMetadata, p: SpecPalletMetadata) -> Seq<char> {
    "----------------- Errors for Pallet: "@ + p.name + " -----------------\n\n"@
        + spec_error_texts(spec_lookup_errors(m.errors_by_index, p.index)) + "\n"@
}

/// The events sections of all pallets of `ps`, in insertion order.
pub open spec fn spec_render_events_sections(m: SpecMetadata, ps: Seq<SpecPalletMetadata>) -> Seq<
    char,
>
    decreases ps.len(),
{
    if ps.len() == 0 {
        Seq::empty()
    } else {
        spec_render_events_sections(m, ps.drop_last()) + spec_events_section(m, ps.last())
    }
}

/// The errors sections of all pallets of `ps`, in insertion order.
pub open spec fn spec_render_errors_sections(m: SpecMetadata, ps: Seq<SpecPalletMetadata>) -> Seq<
    char,
>
    decreases ps.len(),
{
    if ps.len() == 0 {
        Seq::empty()
    } else {
        spec_render_errors_sections(m, ps.drop_last()) + spec_errors_section(m, ps.last())
    }
}

/// Lines of the form `{prefix}{name}\n`, one per name, in order.
pub open spec fn spec_name_lines(prefix: Seq<char>, names: Seq<Seq<char>>) -> Seq<char>
    decreases names.len(),
{
    if names.len() == 0 {
        Seq::empty()
    } else {
        spec_name_lines(prefix, names.drop_last()) + prefix + names.last() + "\n"@
    }
}

/// One pallet's overview block: its name, then one tagged line per storage,
/// call and constant name, then per event and error variant name registered
/// for the pallet's index.
pub open spec fn spec_overview_pallet(m: SpecMetadata, p: SpecPalletMetadata) -> Seq<char> {
    p.name + "\n"@ + spec_name_lines(
        " s  "@,
        p.storage.map_values(|s: SpecStorageMetadata| s.name),
    ) + spec_name_lines(" c  "@, p.calls.map_values(|c: SpecCallMetadata| c.name))
        + spec_name_lines(" cst  "@, p.constants.map_values(|c: SpecConstantMetadata| c.name))
        + spec_name_lines(
        " e  "@,
        spec_lookup_events(m.events_by_index, p.index).map_values(
            |e: SpecEventMetadata| e.event,
        ),
    ) + spec_name_lines(
        " err  "@,
        spec_lookup_errors(m.errors_by_index, p.index).map_values(
            |e: SpecErrorMetadata| e.error,
        ),
    )
}

/// The overview blocks of all pallets of `ps`, in insertion order.
pub open spec fn spec_overview_pallets(m: SpecMetadata, ps: Seq<SpecPalletMetadata>) -> Seq<char>
    decreases ps.len(),
{
    if ps.len() == 0 {
        Seq::empty()
    } else {
        spec_overview_pallets(m, ps.drop_last()) + spec_overview_pallet(m, ps.last())
    }
}

/// The full overview of a registry.
pub open spec fn spec_overview(m: SpecMetadata) -> Seq<char> {
    spec_overview_pallets(m, m.pallets)
}

fn storage_line(s: &StorageMetadata) -> (r: String)
    ensures
        r@ == spec_storage_line(s@),
{
    let mut r = "Name: ".to_owned();
    r.append(s.name.as_str());
    r.append(", Modifier: ");
    r.append(describe_modifier(&s.modifier));
    r.append(", Type ");
    let t = quoted(s.ty.as_str());
    r.append(t.as_str());
    r.append(", Default ");
    let d = describe_opt_bytes(&s.default);
    r.append(d.as_str());
    r.append("\n");
    proof {
        assert(spec_opt_bytes_view(s.default) == s@.default);
        assert(r@ =~= spec_storage_line(s@));
    }
    r
}

impl EventMetadata {
    /// Renders this event variant as [`spec_event_text`] describes.
    pub fn print(&self) -> (r: String)
        ensures
            r@ == spec_event_text(self@),
    {
        let mut r = "Name: ".to_owned();
        r.append(self.event.as_str());
        r.append("\n");
        r.append("Variant: ");
        let shape = describe_str_list(&self.variant);
        r.append(shape.as_str());
        r.append("\n\n");
        proof {
            assert(r@ =~= spec_event_text(self@));
        }
        r
    }
}

impl ErrorMetadata {
    /// Renders this error variant as [`spec_error_text`] describes.
    pub fn print(&self) -> (r: String)
        ensures
            r@ == spec_error_text(self@),
    {
        let mut r = "Name: ".to_owned();
        r.append(self.error.as_str());
        r.append("\n");
        r.append("Description: ");
        let d = describe_opt_str(&self.description);
        r.append(d.as_str());
        r.append("\n\n");
        proof {
            assert(spec_opt_str_view(self.description) == self@.description);
            assert(r@ =~= spec_error_text(self@));
        }
        r
    }
}

impl PalletMetadata {
    /// Renders this pallet's header block as [`spec_pallet_text`] describes.
    pub fn print(&self) -> (r: String)
        ensures
            r@ == spec_pallet_text(self@),
    {
        let mut r = "----------------- Pallet: '".to_owned();
        r.append(self.name.as_str());
        r.append("' -----------------\n\n");
        r.append("Pallet id: ");
        let d = u8_dec(self.index);
        r.append(d.as_str());
        r.append("\n");
        proof {
            assert(r@ =~= spec_pallet_text(self@));
        }
        r
    }

    /// Renders this pallet's calls section as [`spec_calls_text`] describes.
    pub fn print_calls(&self) -> (r: String)
        ensures
            r@ == spec_calls_text(self@),
    {
        let ghost header = "----------------- Calls for Pallet: "@ + self@.name
            + " -----------------\n\n"@;
        let mut r = "----------------- Calls for Pallet: ".to_owned();
        r.append(self.name.as_str());
        r.append(" -----------------\n\n");
        proof {
            assert(r@ =~= header + spec_call_lines(self@.calls.take(0)));
        }
        let mut i: usize = 0;
        while i < self.calls.len()
            invariant
                i <= self.calls.len(),
                header == "----------------- Calls for Pallet: "@ + self@.name
                    + " -----------------\n\n"@,
                r@ == header + spec_call_lines(self@.calls.take(i as int)),
            decreases self.calls.len() - i,
        {
            r.append("Name: ");
            r.append(self.calls[i].name.as_str());
            r.append(", index ");
            let d = u8_dec(self.calls[i].index);
            r.append(d.as_str());
            r.append("\n");
            proof {
                assert(self@.calls.take(i as int + 1).drop_last() =~= self@.calls.take(i as int));
                assert(self@.calls.take(i as int + 1).last() == self@.calls[i as int]);
                assert(self@.calls[i as int] == self.calls@[i as int]@);
                assert(r@ =~= header + spec_call_lines(self@.calls.take(i as int + 1)));
            }
            i += 1;
        }
        proof {
            assert(self@.calls.take(self@.calls.len() as int) =~= self@.calls);
        }
        r.append("\n");
        proof {
            assert(r@ =~= spec_calls_text(self@));
        }
        r
    }

    /// Renders this pallet's constants section as [`spec_constants_text`]
    /// describes.
    pub fn print_constants(&self) -> (r: String)
        ensures
            r@ == spec_constants_text(self@),
    {
        let ghost header = "----------------- Constants for Pallet: "@ + self@.name
            + " -----------------\n\n"@;
        let mut r = "----------------- Constants for Pallet: ".to_owned();
        r.append(self.name.as_str());
        r.append(" -----------------\n\n");
        proof {
            assert(r@ =~= header + spec_constant_lines(self@.constants.take(0)));
        }
        let mut i: usize = 0;
        while i < self.constants.len()
            invariant
                i <= self.constants.len(),
                header == "----------------- Constants for Pallet: "@ + self@.name
                    + " -----------------\n\n"@,
                r@ == header + spec_constant_lines(self@.constants.take(i as int)),
            decreases self.constants.len() - i,
        {
            let c = &self.constants[i];
            r.append("Name: ");
            r.append(c.name.as_str());
            r.append(", Type ");
            let t = quoted(c.ty.as_str());
            r.append(t.as_str());
            r.append(", Value ");
            let v = describe_bytes(&c.value);
            r.append(v.as_str());
            r.append("\n");
            proof {
                assert(self@.constants.take(i as int + 1).drop_last() =~= self@.constants.take(
                    i as int,
                ));
                assert(self@.constants.take(i as int + 1).last() == self@.constants[i as int]);
                assert(self@.constants[i as int] == self.constants@[i as int]@);
                assert(r@ =~= header + spec_constant_lines(self@.constants.take(i as int + 1)));
            }
            i += 1;
        }
        proof {
            assert(self@.constants.take(self@.constants.len() as int) =~= self@.constants);
        }
        r.append("\n");
        proof {
            assert(r@ =~= spec_constants_text(self@));
        }
        r
    }

    /// Renders this pallet's storage section as [`spec_storages_text`]
    /// describes.
    pub fn print_storages(&self) -> (r: String)
        ensures
            r@ == spec_storages_text(self@),
    {
        let ghost header = "----------------- Storages for Pallet: "@ + self@.name
            + " -----------------\n\n"@;
        let mut r = "----------------- Storages for Pallet: ".to_owned();
        r.append(self.name.as_str());
        r.append(" -----------------\n\n");
        proof {
            assert(r@ =~= header + spec_storage_lines(self@.storage.take(0)));
        }
        let mut i: usize = 0;
        while i < self.storage.len()
            invariant
                i <= self.storage.len(),
                header == "----------------- Storages for Pallet: "@ + self@.name
                    + " -----------------\n\n"@,
                r@ == header + spec_storage_lines(self@.storage.take(i as int)),
            decreases self.storage.len() - i,
        {
            let line = storage_line(&self.storage[i]);
            r.append(line.as_str());
            proof {
                assert(self@.storage.take(i as int + 1).drop_last() =~= self@.storage.take(
                    i as int,
                ));
                assert(self@.storage.take(i as int + 1).last() == self@.storage[i as int]);
                assert(self@.storage[i as int] == self.storage@[i as int]@);
                assert(r@ =~= header + spec_storage_lines(self@.storage.take(i as int + 1)));
            }
            i += 1;
        }
        proof {
            assert(self@.storage.take(self@.storage.len() as int) =~= self@.storage);
        }
        r.append("\n");
        proof {
            assert(r@ =~= spec_storages_text(self@));
        }
        r
    }
}

/// Rendering is deterministic: every render is a pure function of the
/// registry's abstract state, so rendering equal registries — in particular
/// the same registry twice — yields byte-identical text.
pub proof fn lemma_render_deterministic(a: SpecMetadata, b: SpecMetadata)
    requires
        a == b,
    ensures
        spec_overview(a) == spec_overview(b),
        spec_render_pallets(a.pallets) == spec_render_pallets(b.pallets),
        spec_render_pallets_with_calls(a.pallets) == spec_render_pallets_with_calls(b.pallets),
        spec_render_pallets_with_constants(a.pallets) == spec_render_pallets_with_constants(
            b.pallets,
        ),
        spec_render_pallets_with_storages(a.pallets) == spec_render_pallets_with_storages(
            b.pallets,
        ),
        spec_render_events_sections(a, a.pallets) == spec_render_events_sections(b, b.pallets),
        spec_render_errors_sections(a, a.pallets) == spec_render_errors_sections(b, b.pallets),
{
}

/// The pallets of `ps` whose calls category is non-empty, in order.
pub open spec fn spec_pallets_having_calls(ps: Seq<SpecPalletMetadata>) -> Seq<SpecPalletMetadata>
    decreases ps.len(),
{
    if ps.len() == 0 {
        ps
    } else if ps.last().calls.len() > 0 {
        spec_pallets_having_calls(ps.drop_last()).push(ps.last())
    } else {
        spec_pallets_having_calls(ps.drop_last())
    }
}

/// The pallets of `ps` whose constants category is non-empty, in order.
pub open spec fn spec_pallets_having_constants(ps: Seq<SpecPalletMetadata>) -> Seq<
    SpecPalletMetadata,
>
    decreases ps.len(),
{
    if ps.len() == 0 {
        ps
    } else if ps.last().constants.len() > 0 {
        spec_pallets_having_constants(ps.drop_last()).push(ps.last())
    } else {
        spec_pallets_having_constants(ps.drop_last())
    }
}

/// The pallets of `ps` whose storage category is non-empty, in order.
pub open spec fn spec_pallets_having_storages(ps: Seq<SpecPalletMetadata>) -> Seq<
    SpecPalletMetadata,
>
    decreases ps.len(),
{
    if ps.len() == 0 {
        ps
    } else if ps.last().storage.len() > 0 {
        spec_pallets_having_storages(ps.drop_last()).push(ps.last())
    } else {
        spec_pallets_having_storages(ps.drop_last())
    }
}

/// Every member of the calls-filtered pallet collection has calls.
pub proof fn lemma_pallets_having_calls_nonempty(ps: Seq<SpecPalletMetadata>, k: int)
    requires
        0 <= k < spec_pallets_having_calls(ps).len(),
    ensures
        spec_pallets_having_calls(ps)[k].calls.len() > 0,
    decreases ps.len(),
{
    if ps.len() > 0 {
        let kept = spec_pallets_having_calls(ps.drop_last());
        if ps.last().calls.len() > 0 {
            if k < kept.len() {
                lemma_pallets_having_calls_nonempty(ps.drop_last(), k);
            }
        } else {
            lemma_pallets_having_calls_nonempty(ps.drop_last(), k);
        }
    }
}

/// Every member of the constants-filtered pallet collection has constants.
pub proof fn lemma_pallets_having_constants_nonempty(ps: Seq<SpecPalletMetadata>, k: int)
    requires
        0 <= k < spec_pallets_having_constants(ps).len(),
    ensures
        spec_pallets_having_constants(ps)[k].constants.len() > 0,
    decreases ps.len(),
{
    if ps.len() > 0 {
        let kept = spec_pallets_having_constants(ps.drop_last());
        if ps.last().constants.len() > 0 {
            if k < kept.len() {
                lemma_pallets_having_constants_nonempty(ps.drop_last(), k);
            }
        } else {
            lemma_pallets_having_constants_nonempty(ps.drop_last(), k);
        }
    }
}

/// Every member of the storage-filtered pallet collection has storage.
pub proof fn lemma_pallets_having_storages_nonempty(ps: Seq<SpecPalletMetadata>, k: int)
    requires
        0 <= k < spec_pallets_having_storages(ps).len(),
    ensures
        spec_pallets_having_storages(ps)[k].storage.len() > 0,
    decreases ps.len(),
{
    if ps.len() > 0 {
        let kept = spec_pallets_having_storages(ps.drop_last());
        if ps.last().storage.len() > 0 {
            if k < kept.len() {
                lemma_pallets_having_storages_nonempty(ps.drop_last(), k);
            }
        } else {
            lemma_pallets_having_storages_nonempty(ps.drop_last(), k);
        }
    }
}

/// The calls render never includes a pallet whose calls category is empty:
/// it equals the same render over only the pallets that have calls.
pub proof fn lemma_calls_render_skips_empty(ps: Seq<SpecPalletMetadata>)
    ensures
        spec_render_pallets_with_calls(ps) == spec_render_pallets_with_calls(
            spec_pallets_having_calls(ps),
        ),
    decreases ps.len(),
{
    if ps.len() > 0 {
        let dl = ps.drop_last();
        lemma_calls_render_skips_empty(dl);
        let kept = spec_pallets_having_calls(dl);
        if ps.last().calls.len() > 0 {
            let fl = kept.push(ps.last());
            assert(fl.drop_last() =~= kept);
            assert(fl.last() == ps.last());
        } else {
            assert(spec_render_pallets_with_calls(dl) + Seq::<char>::empty()
                =~= spec_render_pallets_with_calls(dl));
        }
    }
}

/// The constants render never includes a pallet whose constants category is
/// empty: it equals the same render over only the pallets that have
/// constants.
pub proof fn lemma_constants_render_skips_empty(ps: Seq<SpecPalletMetadata>)
    ensures
        spec_render_pallets_with_constants(ps) == spec_render_pallets_with_constants(
            spec_pallets_having_constants(ps),
        ),
    decreases ps.len(),
{
    if ps.len() > 0 {
        let dl = ps.drop_last();
        lemma_constants_render_skips_empty(dl);
        let kept = spec_pallets_having_constants(dl);
        if ps.last().constants.len() > 0 {
            let fl = kept.push(ps.last());
            assert(fl.drop_last() =~= kept);
            assert(fl.last() == ps.last());
        } else {
            assert(spec_render_pallets_with_constants(dl) + Seq::<char>::empty()
                =~= spec_render_pallets_with_constants(dl));
        }
    }
}

/// The storage render never includes a pallet whose storage category is
/// empty: it equals the same render over only the pallets that have storage.
pub proof fn lemma_storages_render_skips_empty(ps: Seq<SpecPalletMetadata>)
    ensures
        spec_render_pallets_with_storages(ps) == spec_render_pallets_with_storages(
            spec_pallets_having_storages(ps),
        ),
    decreases ps.len(),
{
    if ps.len() > 0 {
        let dl = ps.drop_last();
        lemma_storages_render_skips_empty(dl);
        let kept = spec_pallets_having_storages(dl);
        if ps.last().storage.len() > 0 {
            let fl = kept.push(ps.last());
            assert(fl.drop_last() =~= kept);
            assert(fl.last() == ps.last());
        } else {
            assert(spec_render_pallets_with_storages(dl) + Seq::<char>::empty()
                =~= spec_render_pallets_with_storages(dl));
        }
    }
}

fn append_name_lines(out: &mut String, prefix: &str, names: &Vec<String>)
    ensures
        final (out)@ == old(out)@ + spec_name_lines(
            prefix@,
            names@.map_values(|s: String| s@),
        ),
{
    let ghost m = names@.map_values(|s: String| s@);
    let ghost base = out@;
    proof {
        assert(out@ =~= base + spec_name_lines(prefix@, m.take(0)));
    }
    let mut i: usize = 0;
    while i < names.len()
        invariant
            i <= names.len(),
            m == names@.map_values(|s: String| s@),
            out@ == base + spec_name_lines(prefix@, m.take(i as int)),
        decreases names.len() - i,
    {
        out.append(prefix);
        out.append(names[i].as_str());
        out.append("\n");
        proof {
            assert(m.take(i as int + 1).drop_last() =~= m.take(i as int));
            assert(m.take(i as int + 1).last() == m[i as int]);
            assert(m[i as int] == names@[i as int]@);
            assert(out@ =~= base + spec_name_lines(prefix@, m.take(i as int + 1)));
        }
        i += 1;
    }
    proof {
        assert(m.take(m.len() as int) =~= m);
    }
}

fn event_names(v: &Vec<EventMetadata>) -> (r: Vec<String>)
    ensures
        r@.len() == v@.len(),
        forall|k: int| 0 <= k < v@.len() ==> r@[k]@ == v@[k]@.event,
{
    let mut r: Vec<String> = Vec::new();
    let mut i: usize = 0;
    while i < v.len()
        invariant
            i <= v.len(),
            r@.len() == i,
            forall|k: int| 0 <= k < i ==> r@[k]@ == v@[k]@.event,
        decreases v.len() - i,
    {
        r.push(v[i].event.clone());
        i += 1;
    }
    r
}

fn error_names(v: &Vec<ErrorMetadata>) -> (r: Vec<String>)
    ensures
        r@.len() == v@.len(),
        forall|k: int| 0 <= k < v@.len() ==> r@[k]@ == v@[k]@.error,
{
    let mut r: Vec<String> = Vec::new();
    let mut i: usize = 0;
    while i < v.len()
        invariant
            i <= v.len(),
            r@.len() == i,
            forall|k: int| 0 <= k < i ==> r@[k]@ == v@[k]@.error,
        decreases v.len() - i,
    {
        r.push(v[i].error.clone());
        i += 1;
    }
    r
}

impl Metadata {
    /// Renders every pallet's header block, in insertion order.
    pub fn print_pallets(&self) -> (r: String)
        ensures
            r@ == spec_render_pallets(self@.pallets),
    {
        let pallets = self.pallets();
        let mut r = String::new();
        proof {
            assert(r@ =~= spec_render_pallets(self@.pallets.take(0)));
        }
        let mut i: usize = 0;
        while i < pallets.len()
            invariant
                i <= pallets.len(),
                pallets@.map_values(|p: PalletMetadata| p@) == self@.pallets,
                pallets@.len() == self@.pallets.len(),
                r@ == spec_render_pallets(self@.pallets.take(i as int)),
            decreases pallets.len() - i,
        {
            let t = pallets[i].print();
            r.append(t.as_str());
            proof {
                assert(pallets@.map_values(|p: PalletMetadata| p@)[i as int] == pallets@[
                    i as int]@);
                assert(self@.pallets.take(i as int + 1).drop_last() =~= self@.pallets.take(
                    i as int,
                ));
                assert(self@.pallets.take(i as int + 1).last() == self@.pallets[i as int]);
                assert(r@ =~= spec_render_pallets(self@.pallets.take(i as int + 1)));
            }
            i += 1;
        }
        proof {
            assert(self@.pallets.take(self@.pallets.len() as int) =~= self@.pallets);
        }
        r
    }

    /// Renders the calls section of every pallet that has calls, skipping
    /// pallets whose calls category is empty.
    pub fn print_pallets_with_calls(&self) -> (r: String)
        ensures
            r@ == spec_render_pallets_with_calls(self@.pallets),
    {
        let pallets = self.pallets();
        let mut r = String::new();
        proof {
            assert(r@ =~= spec_render_pallets_with_calls(self@.pallets.take(0)));
        }
        let mut i: usize = 0;
        while i < pallets.len()
            invariant
                i <= pallets.len(),
                pallets@.map_values(|p: PalletMetadata| p@) == self@.pallets,
                pallets@.len() == self@.pallets.len(),
                r@ == spec_render_pallets_with_calls(self@.pallets.take(i as int)),
            decreases pallets.len() - i,
        {
            proof {
                assert(pallets@.map_values(|p: PalletMetadata| p@)[i as int] == pallets@[
                    i as int]@);
                assert(self@.pallets[i as int].calls.len() == pallets@[i as int]@.calls.len());
            }
            if pallets[i].calls.len() > 0 {
                let t = pallets[i].print_calls();
                r.append(t.as_str());
            }
            proof {
                assert(self@.pallets.take(i as int + 1).drop_last() =~= self@.pallets.take(
                    i as int,
                ));
                assert(self@.pallets.take(i as int + 1).last() == self@.pallets[i as int]);
                assert(r@ =~= spec_render_pallets_with_calls(self@.pallets.take(i as int + 1)));
            }
            i += 1;
        }
        proof {
            assert(self@.pallets.take(self@.pallets.len() as int) =~= self@.pallets);
        }
        r
    }

    /// Renders the constants section of every pallet that has constants,
    /// skipping pallets whose constants category is empty.
    pub fn print_pallets_with_constants(&self) -> (r: String)
        ensures
            r@ == spec_render_pallets_with_constants(self@.pallets),
    {
        let pallets = self.pallets();
        let mut r = String::new();
        proof {
            assert(r@ =~= spec_render_pallets_with_constants(self@.pallets.take(0)));
        }
        let mut i: usize = 0;
        while i < pallets.len()
            invariant
                i <= pallets.len(),
                pallets@.map_values(|p: PalletMetadata| p@) == self@.pallets,
                pallets@.len() == self@.pallets.len(),
                r@ == spec_render_pallets_with_constants(self@.pallets.take(i as int)),
            decreases pallets.len() - i,
        {
            proof {
                assert(pallets@.map_values(|p: PalletMetadata| p@)[i as int] == pallets@[
                    i as int]@);
                assert(self@.pallets[i as int].constants.len() == pallets@[
                    i as int]@.constants.len());
            }
            if pallets[i].constants.len() > 0 {
                let t = pallets[i].print_constants();
                r.append(t.as_str());
            }
            proof {
                assert(self@.pallets.take(i as int + 1).drop_last() =~= self@.pallets.take(
                    i as int,
                ));
                assert(self@.pallets.take(i as int + 1).last() == self@.pallets[i as int]);
                assert(r@ =~= spec_render_pallets_with_constants(self@.pallets.take(i as int + 1)));
            }
            i += 1;
        }
        proof {
            assert(self@.pallets.take(self@.pallets.len() as int) =~= self@.pallets);
        }
        r
    }

    /// Renders the storage section of every pallet that has storage,
    /// skipping pallets whose storage category is empty.
    pub fn print_pallet_with_storages(&self) -> (r: String)
        ensures
            r@ == spec_render_pallets_with_storages(self@.pallets),
    {
        let pallets = self.pallets();
        let mut r = String::new();
        proof {
            assert(r@ =~= spec_render_pallets_with_storages(self@.pallets.take(0)));
        }
        let mut i: usize = 0;
        while i < pallets.len()
            invariant
                i <= pallets.len(),
                pallets@.map_values(|p: PalletMetadata| p@) == self@.pallets,
                pallets@.len() == self@.pallets.len(),
                r@ == spec_render_pallets_with_storages(self@.pallets.take(i as int)),
            decreases pallets.len() - i,
        {
            proof {
                assert(pallets@.map_values(|p: PalletMetadata| p@)[i as int] == pallets@[
                    i as int]@);
                assert(self@.pallets[i as int].storage.len() == pallets@[i as int]@.storage.len());
            }
            if pallets[i].storage.len() > 0 {
                let t = pallets[i].print_storages();
                r.append(t.as_str());
            }
            proof {
                assert(self@.pallets.take(i as int + 1).drop_last() =~= self@.pallets.take(
                    i as int,
                ));
                assert(self@.pallets.take(i as int + 1).last() == self@.pallets[i as int]);
                assert(r@ =~= spec_render_pallets_with_storages(self@.pallets.take(i as int + 1)));
            }
            i += 1;
        }
        proof {
            assert(self@.pallets.take(self@.pallets.len() as int) =~= self@.pallets);
        }
        r
    }

    /// Renders, for every pallet (also one with no registered events), a
    /// labeled events section.
    pub fn print_pallets_with_events(&self) -> (r: String)
        ensures
            r@ == spec_render_events_sections(self@, self@.pallets),
    {
        let pallets = self.pallets();
        let mut r = String::new();
        proof {
            assert(r@ =~= spec_render_events_sections(self@, self@.pallets.take(0)));
        }
        let mut i: usize = 0;
        while i < pallets.len()
            invariant
                i <= pallets.len(),
                pallets@.map_values(|p: PalletMetadata| p@) == self@.pallets,
                pallets@.len() == self@.pallets.len(),
                r@ == spec_render_events_sections(self@, self@.pallets.take(i as int)),
            decreases pallets.len() - i,
        {
            let p = &pallets[i];
            let ghost sp = self@.pallets[i as int];
            proof {
                assert(pallets@.map_values(|q: PalletMetadata| q@)[i as int] == pallets@[
                    i as int]@);
                assert(p@ == sp);
            }
            r.append("----------------- Events for Pallet: ");
            r.append(p.name.as_str());
            r.append(" -----------------\n\n");
            let evs = self.events(p.index);
            let ghost lk = spec_lookup_events(self@.events_by_index, sp.index);
            let ghost base = r@;
            proof {
                assert(evs@.map_values(|e: EventMetadata| e@) == lk);
                assert(r@ =~= base + spec_event_texts(lk.take(0)));
            }
            let mut k: usize = 0;
            while k < evs.len()
                invariant
                    k <= evs.len(),
                    evs@.map_values(|e: EventMetadata| e@) == lk,
                    evs@.len() == lk.len(),
                    r@ == base + spec_event_texts(lk.take(k as int)),
                decreases evs.len() - k,
            {
                let t = evs[k].print();
                r.append(t.as_str());
                proof {
                    assert(evs@.map_values(|e: EventMetadata| e@)[k as int] == evs@[k as int]@);
                    assert(lk.take(k as int + 1).drop_last() =~= lk.take(k as int));
                    assert(lk.take(k as int + 1).last() == lk[k as int]);
                    assert(r@ =~= base + spec_event_texts(lk.take(k as int + 1)));
                }
                k += 1;
            }
            proof {
                assert(lk.take(lk.len() as int) =~= lk);
            }
            r.append("\n");
            proof {
                assert(self@.pallets.take(i as int + 1).drop_last() =~= self@.pallets.take(
                    i as int,
                ));
                assert(self@.pallets.take(i as int + 1).last() == sp);
                assert(r@ =~= spec_render_events_sections(self@, self@.pallets.take(i as int + 1)));
            }
            i += 1;
        }
        proof {
            assert(self@.pallets.take(self@.pallets.len() as int) =~= self@.pallets);
        }
        r
    }

    /// Renders, for every pallet (also one with no registered errors), a
    /// labeled errors section.
    pub fn print_pallets_with_errors(&self) -> (r: String)
        ensures
            r@ == spec_render_errors_sections(self@, self@.pallets),
    {
        let pallets = self.pallets();
        let mut r = String::new();
        proof {
            assert(r@ =~= spec_render_errors_sections(self@, self@.pallets.take(0)));
        }
        let mut i: usize = 0;
        while i < pallets.len()
            invariant
                i <= pallets.len(),
                pallets@.map_values(|p: PalletMetadata| p@) == self@.pallets,
                pallets@.len() == self@.pallets.len(),
                r@ == spec_render_errors_sections(self@, self@.pallets.take(i as int)),
            decreases pallets.len() - i,
        {
            let p = &pallets[i];
            let ghost sp = self@.pallets[i as int];
            proof {
                assert(pallets@.map_values(|q: PalletMetadata| q@)[i as int] == pallets@[
                    i as int]@);
                assert(p@ == sp);
            }
            r.append("----------------- Errors for Pallet: ");
            r.append(p.name.as_str());
            r.append(" -----------------\n\n");
            let ers = self.errors(p.index);
            let ghost lk = spec_lookup_errors(self@.errors_by_index, sp.index);
            let ghost base = r@;
            proof {
                assert(ers@.map_values(|e: ErrorMetadata| e@) == lk);
                assert(r@ =~= base + spec_error_texts(lk.take(0)));
            }
            let mut k: usize = 0;
            while k < ers.len()
                invariant
                    k <= ers.len(),
                    ers@.map_values(|e: ErrorMetadata| e@) == lk,
                    ers@.len() == lk.len(),
                    r@ == base + spec_error_texts(lk.take(k as int)),
                decreases ers.len() - k,
            {
                let t = ers[k].print();
                r.append(t.as_str());
                proof {
                    assert(ers@.map_values(|e: ErrorMetadata| e@)[k as int] == ers@[k as int]@);
                    assert(lk.take(k as int + 1).drop_last() =~= lk.take(k as int));
                    assert(lk.take(k as int + 1).last() == lk[k as int]);
                    assert(r@ =~= base + spec_error_texts(lk.take(k as int + 1)));
                }
                k += 1;
            }
            proof {
                assert(lk.take(lk.len() as int) =~= lk);
            }
            r.append("\n");
            proof {
                assert(self@.pallets.take(i as int + 1).drop_last() =~= self@.pallets.take(
                    i as int,
                ));
                assert(self@.pallets.take(i as int + 1).last() == sp);
                assert(r@ =~= spec_render_errors_sections(self@, self@.pallets.take(i as int + 1)));
            }
            i += 1;
        }
        proof {
            assert(self@.pallets.take(self@.pallets.len() as int) =~= self@.pallets);
        }
        r
    }

    /// Renders the full overview: for each pallet in insertion order, its
    /// name and the tagged names of its storage items, calls, constants, and
    /// of the event and error variants registered for its index.
    #[verifier::rlimit(100)]
    pub fn print_overview(&self) -> (r: String)
        ensures
            r@ == spec_overview(self@),
    {
        let pallets = self.pallets();
        let mut r = String::new();
        proof {
            assert(r@ =~= spec_overview_pallets(self@, self@.pallets.take(0)));
        }
        let mut i: usize = 0;
        while i < pallets.len()
            invariant
                i <= pallets.len(),
                pallets@.map_values(|p: PalletMetadata| p@) == self@.pallets,
                pallets@.len() == self@.pallets.len(),
                r@ == spec_overview_pallets(self@, self@.pallets.take(i as int)),
            decreases pallets.len() - i,
        {
            let p = &pallets[i];
            let ghost sp = self@.pallets[i as int];
            proof {
                assert(pallets@.map_values(|q: PalletMetadata| q@)[i as int] == pallets@[
                    i as int]@);
                assert(p@ == sp);
            }
            r.append(p.name.as_str());
            r.append("\n");
            let sn = p.storage_names();
            append_name_lines(&mut r, " s  ", &sn);
            proof {
                assert(sn@.map_values(|s: String| s@) =~= sp.storage.map_values(
                    |s: SpecStorageMetadata| s.name,
                ));
            }
            let cn = p.call_names();
            append_name_lines(&mut r, " c  ", &cn);
            proof {
                assert(cn@.map_values(|s: String| s@) =~= sp.calls.map_values(
                    |c: SpecCallMetadata| c.name,
                ));
            }
            let kn = p.constant_names();
            append_name_lines(&mut r, " cst  ", &kn);
            proof {
                assert(kn@.map_values(|s: String| s@) =~= sp.constants.map_values(
                    |c: SpecConstantMetadata| c.name,
                ));
            }
            let evs = self.events(p.index);
            let en = event_names(&evs);
            proof {
                let lk = spec_lookup_events(self@.events_by_index, sp.index);
                assert(evs@.map_values(|e: EventMetadata| e@) == lk);
                assert(evs@.len() == lk.len());
                assert forall|k: int| 0 <= k < lk.len() implies (#[trigger] en@[k])@
                    == lk[k].event by {
                    assert(evs@.map_values(|e: EventMetadata| e@)[k] == evs@[k]@);
                }
                assert(en@.map_values(|s: String| s@) =~= lk.map_values(
                    |e: SpecEventMetadata| e.event,
                ));
            }
            append_name_lines(&mut r, " e  ", &en);
            let ers = self.errors(p.index);
            let rn = error_names(&ers);
            proof {
                let lk = spec_lookup_errors(self@.errors_by_index, sp.index);
                assert(ers@.map_values(|e: ErrorMetadata| e@) == lk);
                assert(ers@.len() == lk.len());
                assert forall|k: int| 0 <= k < lk.len() implies (#[trigger] rn@[k])@
                    == lk[k].error by {
                    assert(ers@.map_values(|e: ErrorMetadata| e@)[k] == ers@[k]@);
                }
                assert(rn@.map_values(|s: String| s@) =~= lk.map_values(
                    |e: SpecErrorMetadata| e.error,
                ));
            }
            append_name_lines(&mut r, " err  ", &rn);
            proof {
                assert(self@.pallets.take(i as int + 1).drop_last() =~= self@.pallets.take(
                    i as int,
                ));
                assert(self@.pallets.take(i as int + 1).last() == sp);
                assert(r@ =~= spec_overview_pallets(self@, self@.pallets.take(i as int + 1)));
            }
            i += 1;
        }
        proof {
            assert(self@.pallets.take(self@.pallets.len() as int) =~= self@.pallets);
        }
        r
    }
}

} // verus!
