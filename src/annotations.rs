use vstd::prelude::*;
use crate::format::{ElementKind, Format};
use crate::layout::{FieldSpec, LayoutError};
use crate::names::{format_name, kind_named};

verus! {

/// One layout annotation written on a field.
#[derive(Debug, PartialEq, Eq)]
pub enum Annotation {
    /// Asks for the normalized format of the field's kind.
    Norm,
    /// Names the format to take in place of the inferred one.
    Format(String),
    /// Gives the field's shader slot.
    Location(u32),
}

/// Picks the annotations that ask for normalization.
pub open spec fn norm_marks() -> spec_fn(Annotation) -> bool {
    |x: Annotation| x is Norm
}

/// Picks the annotations that name a format.
pub open spec fn format_marks() -> spec_fn(Annotation) -> bool {
    |x: Annotation| x is Format
}

/// Picks the annotations that give a slot.
pub open spec fn location_marks() -> spec_fn(Annotation) -> bool {
    |x: Annotation| x is Location
}

/// A format annotation whose name is no format's name.
pub open spec fn names_no_format(x: Annotation) -> bool {
    x matches Annotation::Format(s) && forall|f: Format| format_name(f) != s@
}

/// The number of annotations of `a` that satisfy `p`.
pub open spec fn count_matching(a: Seq<Annotation>, p: spec_fn(Annotation) -> bool) -> nat
    decreases a.len(),
{
    if a.len() == 0 {
        0
    } else {
        count_matching(a.drop_last(), p) + if p(a.last()) {
            1nat
        } else {
            0nat
        }
    }
}

/// A field's annotations conflict where one kind of them is repeated or a
/// format annotation names no format.
pub open spec fn annotations_conflict(a: Seq<Annotation>) -> bool {
    ||| count_matching(a, norm_marks()) > 1
    ||| count_matching(a, format_marks()) > 1
    ||| count_matching(a, location_marks()) > 1
    ||| exists|i: int| 0 <= i < a.len() && names_no_format(#[trigger] a[i])
}

/// The overrides of a field agree with one of its annotations.
pub open spec fn agrees(x: Annotation, format: Option<Format>, slot: Option<u32>) -> bool {
    match x {
        Annotation::Format(s) => format matches Some(g) && format_name(g) == s@,
        Annotation::Location(v) => slot == Some(v),
        Annotation::Norm => true,
    }
}

/// `f` describes a field of the element type and array length given, with
/// the annotations `a`: normalized where `a` asks for it, with the format and
/// slot that `a` names, and without overrides where `a` gives none.
pub open spec fn describes(
    f: FieldSpec,
    element_type: Seq<char>,
    array_length: usize,
    a: Seq<Annotation>,
) -> bool {
    &&& f.element_kind == kind_named(element_type)
    &&& f.array_length == array_length
    &&& f.normalize == (count_matching(a, norm_marks()) == 1)
    &&& (f.format_override is Some) == (count_matching(a, format_marks()) == 1)
    &&& (f.slot_override is Some) == (count_matching(a, location_marks()) == 1)
    &&& forall|i: int| 0 <= i < a.len() ==> agrees(#[trigger] a[i], f.format_override, f.slot_override)
}

/// A prefix has no more matching annotations than the whole.
proof fn lemma_count_prefix(a: Seq<Annotation>, p: spec_fn(Annotation) -> bool, i: int)
    requires
        0 <= i <= a.len(),
    ensures
        count_matching(a.subrange(0, i), p) <= count_matching(a, p),
    decreases a.len(),
{
    if i < a.len() {
        lemma_count_prefix(a.drop_last(), p, i);
        assert(a.drop_last().subrange(0, i) =~= a.subrange(0, i));
    } else {
        assert(a.subrange(0, i) =~= a);
    }
}

impl FieldSpec {
    /// The description of field `index`, of element type `element_type` and
    /// array length `array_length`, with its layout annotations; fails where
    /// the annotations conflict.
    pub fn from_annotations(
        index: usize,
        element_type: &str,
        array_length: usize,
        annotations: &Vec<Annotation>,
    ) -> (r: Result<FieldSpec, LayoutError>)
        ensures
            r is Err <==> annotations_conflict(annotations@),
            r matches Err(e) ==> e == (LayoutError::ConflictingOverride { field: index }),
            r matches Ok(f) ==> describes(f, element_type@, array_length, annotations@),
    {
        let ghost a = annotations@;
        let mut normalize = false;
        let mut format_override: Option<Format> = None;
        let mut slot_override: Option<u32> = None;
        let mut i: usize = 0;
        while i < annotations.len()
            invariant
                a == annotations@,
                0 <= i <= a.len(),
                normalize == (count_matching(a.subrange(0, i as int), norm_marks()) == 1),
                count_matching(a.subrange(0, i as int), norm_marks()) <= 1,
                (format_override is Some) == (count_matching(a.subrange(0, i as int), format_marks()) == 1),
                count_matching(a.subrange(0, i as int), format_marks()) <= 1,
                (slot_override is Some) == (count_matching(a.subrange(0, i as int), location_marks())
                    == 1),
                count_matching(a.subrange(0, i as int), location_marks()) <= 1,
                forall|j: int| 0 <= j < i ==> !names_no_format(#[trigger] a[j]),
                forall|j: int| 0 <= j < i ==> agrees(#[trigger] a[j], format_override, slot_override),
            decreases a.len() - i,
        {
            proof {
                assert(a.subrange(0, i + 1).drop_last() =~= a.subrange(0, i as int));
                lemma_count_prefix(a, norm_marks(), i + 1);
                lemma_count_prefix(a, format_marks(), i + 1);
                lemma_count_prefix(a, location_marks(), i + 1);
            }
            match &annotations[i] {
                Annotation::Norm => {
                    if normalize {
                        return Err(LayoutError::ConflictingOverride { field: index });
                    }
                    normalize = true;
                },
                Annotation::Format(name) => {
                    if format_override.is_some() {
                        return Err(LayoutError::ConflictingOverride { field: index });
                    }
                    match Format::from_name(name.as_str()) {
                        None => {
                            assert(names_no_format(a[i as int]));
                            return Err(LayoutError::ConflictingOverride { field: index });
                        },
                        Some(f) => {
                            format_override = Some(f);
                        },
                    }
                },
                Annotation::Location(v) => {
                    if slot_override.is_some() {
                        return Err(LayoutError::ConflictingOverride { field: index });
                    }
                    slot_override = Some(*v);
                },
            }
            i = i + 1;
        }
        proof {
            assert(a.subrange(0, a.len() as int) =~= a);
        }
        let element_kind = ElementKind::from_name(element_type);
        Ok(FieldSpec { element_kind, array_length, normalize, format_override, slot_override })
    }
}

} // verus!
