use vstd::prelude::*;
use crate::format::{
    ElementKind, Format, component_bytes, format_for, inferred_family, kind_bytes, lemma_format_for, normalizable,
};

verus! {

/// Whether the record advances once per vertex or once per instance.
#[derive(Clone, Copy, Debug, PartialEq, Eq, Structural)]
pub enum StepMode {
    Vertex,
    Instance,
}

/// The description of one field of a record, in declaration order.
#[derive(Clone, Copy, Debug, PartialEq, Eq, Structural)]
pub struct FieldSpec {
    pub element_kind: ElementKind,
    /// 1 for a scalar field, the length for a fixed-size array field.
    pub array_length: usize,
    /// Asks for the normalized family of the element kind.
    pub normalize: bool,
    /// A format taken as it is, in place of the inferred one.
    pub format_override: Option<Format>,
    /// A shader slot for the field; later fields count on from it.
    pub slot_override: Option<u32>,
}

/// One resolved attribute of a record.
#[derive(Clone, Copy, Debug, PartialEq, Eq, Structural)]
pub struct ResolvedAttribute {
    pub format: Format,
    pub byte_offset: u64,
    pub shader_slot: u32,
}

/// The resolved layout of a whole record.
#[derive(Debug, PartialEq, Eq)]
pub struct ResolvedLayout {
    pub step_mode: StepMode,
    pub stride_bytes: u64,
    pub attributes: Vec<ResolvedAttribute>,
}

/// Why a record's description cannot be resolved; `field` is the index of
/// the offending field.
#[derive(Clone, Copy, Debug, PartialEq, Eq, Structural)]
pub enum LayoutError {
    /// The field's element type is not one of the known scalar kinds.
    UnsupportedElementKind { field: usize },
    /// Normalization was asked for a kind that has no normalized family.
    InvalidNormalization { field: usize, kind: ElementKind },
    /// The kind's family has no format with `length` components.
    InvalidArity { field: usize, kind: ElementKind, length: usize },
    /// The field's overrides are malformed or repeated.
    ConflictingOverride { field: usize },
    /// The step mode is neither of the two known ones.
    InvalidStepMode,
    /// The field's shape is not a scalar or a fixed-size array of one.
    UnsupportedFieldShape { field: usize },
    /// The field's counted slot does not fit in 32 bits.
    SlotOverflow { field: usize },
    /// The record's size up to the end of the field does not fit in 64 bits.
    OffsetOverflow { field: usize },
}

/// The format of the field at `index`, or why it has none.
pub open spec fn field_result(f: FieldSpec, index: usize) -> Result<Format, LayoutError> {
    match f.format_override {
        Some(fmt) => Ok(fmt),
        None => {
            if f.normalize && !normalizable(f.element_kind) {
                Err(LayoutError::InvalidNormalization { field: index, kind: f.element_kind })
            } else {
                match inferred_family(f.element_kind, f.normalize) {
                    None => Err(LayoutError::UnsupportedElementKind { field: index }),
                    Some(fam) => match format_for(fam, f.array_length as int) {
                        Some(fmt) => Ok(fmt),
                        None => Err(
                            LayoutError::InvalidArity {
                                field: index,
                                kind: f.element_kind,
                                length: f.array_length,
                            },
                        ),
                    },
                }
            }
        },
    }
}

/// The format of a field that has one.
pub open spec fn field_format(f: FieldSpec) -> Format {
    field_result(f, 0)->Ok_0
}

/// The bytes that a field takes; 0 for a field that has no format.
pub open spec fn field_size(f: FieldSpec) -> nat {
    match field_result(f, 0) {
        Ok(fmt) => fmt.byte_size(),
        Err(_) => 0,
    }
}

/// The byte offset of field `i`: the sizes of the fields before it, summed.
pub open spec fn offset_at(fields: Seq<FieldSpec>, i: int) -> nat
    decreases i,
{
    if i <= 0 {
        0
    } else {
        offset_at(fields, i - 1) + field_size(fields[i - 1])
    }
}

/// The shader slot of field `i`: its own override, else one past the slot of
/// the field before it, else 0 for the first field.
pub open spec fn slot_at(fields: Seq<FieldSpec>, i: int) -> nat
    decreases i,
{
    if i < 0 {
        0
    } else {
        match fields[i].slot_override {
            Some(v) => v as nat,
            None => if i == 0 {
                0
            } else {
                slot_at(fields, i - 1) + 1
            },
        }
    }
}

/// The error that field `i` raises, if any.
pub open spec fn error_at(fields: Seq<FieldSpec>, i: int) -> Option<LayoutError> {
    match field_result(fields[i], i as usize) {
        Err(e) => Some(e),
        Ok(_) => if slot_at(fields, i) > u32::MAX {
            Some(LayoutError::SlotOverflow { field: i as usize })
        } else if offset_at(fields, i + 1) > u64::MAX {
            Some(LayoutError::OffsetOverflow { field: i as usize })
        } else {
            None
        },
    }
}

/// The error of the first of the first `n` fields that raises one.
pub open spec fn first_error(fields: Seq<FieldSpec>, n: int) -> Option<LayoutError>
    decreases n,
{
    if n <= 0 {
        None
    } else {
        match first_error(fields, n - 1) {
            Some(e) => Some(e),
            None => error_at(fields, n - 1),
        }
    }
}

/// The resolved attribute of field `i`.
pub open spec fn attribute_at(fields: Seq<FieldSpec>, i: int) -> ResolvedAttribute {
    ResolvedAttribute {
        format: field_format(fields[i]),
        byte_offset: offset_at(fields, i) as u64,
        shader_slot: slot_at(fields, i) as u32,
    }
}

/// Once some field has failed, the first error stays the same over any longer
/// prefix.
proof fn lemma_first_error_stays(fields: Seq<FieldSpec>, k: int, m: int)
    requires
        0 <= k <= m,
        first_error(fields, k) is Some,
    ensures
        first_error(fields, m) == first_error(fields, k),
    decreases m - k,
{
    if m > k {
        lemma_first_error_stays(fields, k, m - 1);
    }
}

/// Resolves the format of the field at `index`: its override where it has
/// one, else the format inferred from its kind, normalization and length.
pub fn resolve_field(field: &FieldSpec, index: usize) -> (r: Result<Format, LayoutError>)
    ensures
        r == field_result(*field, index),
{
    match field.format_override {
        Some(fmt) => Ok(fmt),
        None => {
            let kind = field.element_kind;
            if field.normalize && !kind.is_normalizable() {
                return Err(LayoutError::InvalidNormalization { field: index, kind });
            }
            match kind.family(field.normalize) {
                None => Err(LayoutError::UnsupportedElementKind { field: index }),
                Some(fam) => match Format::from_parts(fam, field.array_length) {
                    Some(fmt) => Ok(fmt),
                    None => Err(
                        LayoutError::InvalidArity { field: index, kind, length: field.array_length },
                    ),
                },
            }
        },
    }
}

/// Resolves a record's fields, in order, into attributes: each gets its
/// field's format, the sum of the sizes before it as offset, and its slot;
/// the stride is the sum of all sizes. Fails with the first field's error.
pub fn vertex_layout(step_mode: StepMode, fields: &Vec<FieldSpec>) -> (r: Result<
    ResolvedLayout,
    LayoutError,
>)
    ensures
        r is Err <==> first_error(fields@, fields@.len() as int) is Some,
        r matches Err(e) ==> first_error(fields@, fields@.len() as int) == Some(e),
        r matches Ok(l) ==> {
            &&& l.step_mode == step_mode
            &&& l.stride_bytes == offset_at(fields@, fields@.len() as int)
            &&& l.attributes@ == Seq::new(fields@.len(), |i: int| attribute_at(fields@, i))
        },
{
    let mut attributes: Vec<ResolvedAttribute> = Vec::new();
    let mut offset: u64 = 0;
    let mut next_slot: u64 = 0;
    let mut i: usize = 0;
    while i < fields.len()
        invariant
            0 <= i <= fields@.len(),
            first_error(fields@, i as int) is None,
            offset == offset_at(fields@, i as int),
            next_slot == (if i == 0 {
                0
            } else {
                slot_at(fields@, i - 1) + 1
            }),
            next_slot <= u32::MAX + 1,
            attributes@ == Seq::new(i as nat, |j: int| attribute_at(fields@, j)),
        decreases fields@.len() - i,
    {
        let field = &fields[i];
        let format = match resolve_field(field, i) {
            Ok(fmt) => fmt,
            Err(e) => {
                proof {
                    lemma_first_error_stays(fields@, i + 1, fields@.len() as int);
                }
                return Err(e);
            },
        };
        let slot: u32 = match field.slot_override {
            Some(v) => v,
            None => {
                if next_slot > u32::MAX as u64 {
                    proof {
                        lemma_first_error_stays(fields@, i + 1, fields@.len() as int);
                    }
                    return Err(LayoutError::SlotOverflow { field: i });
                }
                next_slot as u32
            },
        };
        let size = format.size();
        if size > u64::MAX - offset {
            proof {
                lemma_first_error_stays(fields@, i + 1, fields@.len() as int);
            }
            return Err(LayoutError::OffsetOverflow { field: i });
        }
        attributes.push(ResolvedAttribute { format, byte_offset: offset, shader_slot: slot });
        offset = offset + size;
        next_slot = slot as u64 + 1;
        i = i + 1;
        proof {
            assert(attributes@ =~= Seq::new(i as nat, |j: int| attribute_at(fields@, j)));
        }
    }
    Ok(ResolvedLayout { step_mode, stride_bytes: offset, attributes })
}

/// A field inferred without normalization takes the bytes of its element
/// kind times its array length.
pub proof fn lemma_inferred_size(f: FieldSpec)
    requires
        f.format_override is None,
        !f.normalize,
        field_result(f, 0) is Ok,
    ensures
        field_size(f) == kind_bytes(f.element_kind) * f.array_length,
{
    let fam = inferred_family(f.element_kind, false)->0;
    lemma_format_for(fam, f.array_length as int);
}

/// Normalization changes how a field is read, not its size: where it is
/// allowed, the raw field resolves too, to a format of the same size.
pub proof fn lemma_normalize_keeps_size(f: FieldSpec)
    requires
        f.format_override is None,
        f.normalize,
        field_result(f, 0) is Ok,
    ensures
        field_result(FieldSpec { normalize: false, ..f }, 0) is Ok,
        field_size(FieldSpec { normalize: false, ..f }) == field_size(f),
{
    let raw = FieldSpec { normalize: false, ..f };
    let n = f.array_length as int;
    lemma_format_for(inferred_family(f.element_kind, true)->0, n);
    lemma_format_for(inferred_family(f.element_kind, false)->0, n);
}

/// Without slot overrides, the fields take the slots 0, 1, 2, ... in order.
pub proof fn lemma_slots_count_up(fields: Seq<FieldSpec>, i: int)
    requires
        forall|j: int| 0 <= j < fields.len() ==> (#[trigger] fields[j]).slot_override is None,
        0 <= i < fields.len(),
    ensures
        slot_at(fields, i) == i,
    decreases i,
{
    if i > 0 {
        lemma_slots_count_up(fields, i - 1);
    }
}

/// An 8-bit integer field has no format of 3 components, and has one of 2
/// and of 4.
pub proof fn lemma_eight_bit_arity(f: FieldSpec, index: usize)
    requires
        f.format_override is None,
        f.element_kind == ElementKind::U8 || f.element_kind == ElementKind::I8,
    ensures
        f.array_length == 3 ==> field_result(f, index) == Err::<Format, LayoutError>(
            LayoutError::InvalidArity { field: index, kind: f.element_kind, length: 3 },
        ),
        f.array_length == 2 || f.array_length == 4 ==> field_result(f, index) is Ok,
{
}

/// Normalization of a kind that has no normalized family fails, whatever the
/// array length.
pub proof fn lemma_normalize_rejected(f: FieldSpec, index: usize)
    requires
        f.format_override is None,
        f.normalize,
        !normalizable(f.element_kind),
    ensures
        field_result(f, index) == Err::<Format, LayoutError>(
            LayoutError::InvalidNormalization { field: index, kind: f.element_kind },
        ),
{
}

/// A format override is taken as it is, whatever the kind, normalization and
/// array length.
pub proof fn lemma_override_taken(f: FieldSpec, index: usize, fmt: Format)
    requires
        f.format_override == Some(fmt),
    ensures
        field_result(f, index) == Ok::<Format, LayoutError>(fmt),
{
}

/// Offsets strictly increase along fields that resolve: each one starts
/// after the previous field's bytes, with nothing in between.
pub proof fn lemma_offsets_increase(fields: Seq<FieldSpec>, i: int)
    requires
        0 <= i < fields.len(),
        field_result(fields[i], 0) is Ok,
    ensures
        offset_at(fields, i + 1) == offset_at(fields, i) + field_format(fields[i]).byte_size(),
        offset_at(fields, i + 1) > offset_at(fields, i),
{
    let fmt = field_format(fields[i]);
    assert(fmt.byte_size() >= 1) by (nonlinear_arith)
        requires
            fmt.byte_size() == component_bytes(fmt.family_of()) * fmt.arity_of(),
            component_bytes(fmt.family_of()) >= 1,
            fmt.arity_of() >= 1,
    ;
}

/// Once the fields before `i` pass, the first error of the whole record is
/// that of field `i`, where it has one.
pub proof fn lemma_first_error_is_at(fields: Seq<FieldSpec>, i: int)
    requires
        0 <= i < fields.len(),
        first_error(fields, i) is None,
        error_at(fields, i) is Some,
    ensures
        first_error(fields, fields.len() as int) == error_at(fields, i),
{
    lemma_first_error_stays(fields, i + 1, fields.len() as int);
}

/// A record fails with `InvalidNormalization` at a field that asks to
/// normalize a kind with no normalized family, whatever its length and slot,
/// once the fields before it pass.
pub proof fn lemma_layout_rejects_normalization(fields: Seq<FieldSpec>, i: int)
    requires
        0 <= i < fields.len() <= usize::MAX,
        first_error(fields, i) is None,
        fields[i].format_override is None,
        fields[i].normalize,
        !normalizable(fields[i].element_kind),
    ensures
        first_error(fields, fields.len() as int) == Some(
            LayoutError::InvalidNormalization { field: i as usize, kind: fields[i].element_kind },
        ),
{
    lemma_normalize_rejected(fields[i], i as usize);
    lemma_first_error_is_at(fields, i);
}

/// A prefix of fields that all resolve and carry no slot override has no
/// error, and takes at most 32 bytes a field.
proof fn lemma_unnumbered_prefix(fields: Seq<FieldSpec>, k: int)
    requires
        0 <= k <= fields.len() <= u32::MAX + 1,
        forall|j: int| 0 <= j < fields.len() ==> (#[trigger] fields[j]).slot_override is None,
        forall|j: int| 0 <= j < fields.len() ==> field_result(#[trigger] fields[j], 0) is Ok,
    ensures
        first_error(fields, k) is None,
        offset_at(fields, k) <= 32 * k,
    decreases k,
{
    if k > 0 {
        lemma_unnumbered_prefix(fields, k - 1);
        lemma_slots_count_up(fields, k - 1);
        let f = fields[k - 1];
        let fmt = field_format(f);
        assert(field_result(f, (k - 1) as usize) is Ok);
        assert(fmt.byte_size() <= 32) by (nonlinear_arith)
            requires
                fmt.byte_size() == component_bytes(fmt.family_of()) * fmt.arity_of(),
                component_bytes(fmt.family_of()) <= 8,
                fmt.arity_of() <= 4,
        ;
    }
}

/// A record of at most 2^32 fields that all resolve and carry no slot
/// override resolves, and its fields take the slots 0, 1, 2, ... in order,
/// one slot each whatever their array length.
pub proof fn lemma_unnumbered_layout(fields: Seq<FieldSpec>)
    requires
        fields.len() <= u32::MAX + 1,
        forall|j: int| 0 <= j < fields.len() ==> (#[trigger] fields[j]).slot_override is None,
        forall|j: int| 0 <= j < fields.len() ==> field_result(#[trigger] fields[j], 0) is Ok,
    ensures
        first_error(fields, fields.len() as int) is None,
        forall|i: int| 0 <= i < fields.len() ==> (#[trigger] attribute_at(fields, i)).shader_slot == i,
{
    lemma_unnumbered_prefix(fields, fields.len() as int);
    assert forall|i: int| 0 <= i < fields.len() implies (#[trigger] attribute_at(fields, i)).shader_slot
        == i by {
        lemma_slots_count_up(fields, i);
    }
}

} // verus!
