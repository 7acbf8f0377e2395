//! Field discovery: narrowing the tenant-wide field catalog by field kind
//! and by a case-insensitive search term, the one place where matching is a
//! substring search rather than an exact one.

use vstd::prelude::*;
use crate::model::FieldDescriptor;
use crate::text::contains_ci;
use crate::text::contains_sub;
use crate::text::lower_seq;
use crate::text::str_eq;

verus! {

/// Whether a field passes the field-kind filter: `custom` keeps custom
/// fields, `system` keeps the rest, and anything else keeps everything.
pub open spec fn kind_keeps(f: FieldDescriptor, field_type: Option<String>) -> bool {
    match field_type {
        None => true,
        Some(t) => if t@ == "custom"@ {
            f.is_custom
        } else if t@ == "system"@ {
            !f.is_custom
        } else {
            true
        },
    }
}

/// Whether a field passes the search filter: its display name or its
/// identifier holds the term, compared case-insensitively.
pub open spec fn search_keeps(f: FieldDescriptor, search_term: Option<String>) -> bool {
    match search_term {
        None => true,
        Some(t) => contains_sub(lower_seq(f.display_name@), lower_seq(t@)) || contains_sub(
            lower_seq(f.id@),
            lower_seq(t@),
        ),
    }
}

/// The combined discovery filter.
pub open spec fn discovery_keeps(
    field_type: Option<String>,
    search_term: Option<String>,
) -> spec_fn(FieldDescriptor) -> bool {
    (|f: FieldDescriptor| kind_keeps(f, field_type) && search_keeps(f, search_term))
}

/// Narrows the field catalog by kind and by search term, keeping catalog
/// order.
pub fn discover_fields(
    fields: &Vec<FieldDescriptor>,
    field_type: &Option<String>,
    search_term: &Option<String>,
) -> (r: Vec<FieldDescriptor>)
    ensures
        r@ == fields@.filter(discovery_keeps(*field_type, *search_term)),
{
    let ghost keeps = discovery_keeps(*field_type, *search_term);
    let mut out: Vec<FieldDescriptor> = Vec::new();
    let mut i: usize = 0;
    assert(fields@.take(0).filter(keeps) =~= Seq::<FieldDescriptor>::empty());
    while i < fields.len()
        invariant
            i <= fields@.len(),
            keeps == discovery_keeps(*field_type, *search_term),
            out@ == fields@.take(i as int).filter(keeps),
        decreases fields@.len() - i,
    {
        let f = &fields[i];
        let kind_ok = match field_type {
            None => true,
            Some(t) => {
                if str_eq(t.as_str(), "custom") {
                    f.is_custom
                } else if str_eq(t.as_str(), "system") {
                    !f.is_custom
                } else {
                    true
                }
            },
        };
        let search_ok = match search_term {
            None => true,
            Some(t) => contains_ci(f.display_name.as_str(), t.as_str()) || contains_ci(
                f.id.as_str(),
                t.as_str(),
            ),
        };
        proof {
            reveal(Seq::filter);
            assert(fields@.take(i as int + 1).drop_last() =~= fields@.take(i as int));
            assert(fields@.take(i as int + 1).last() == fields@[i as int]);
            assert((kind_ok && search_ok) == keeps(fields@[i as int]));
        }
        if kind_ok && search_ok {
            out.push(f.clone());
            assert(out@ =~= fields@.take(i as int + 1).filter(keeps));
        } else {
            assert(out@ =~= fields@.take(i as int + 1).filter(keeps));
        }
        i += 1;
    }
    assert(fields@.take(fields@.len() as int) =~= fields@);
    out
}

} // verus!
