use vertex_layout::{
    vertex_layout, Annotation, ElementKind, FieldSpec, Format, LayoutError, ResolvedAttribute,
    StepMode,
};

fn field(kind: ElementKind, len: usize) -> FieldSpec {
    FieldSpec {
        element_kind: kind,
        array_length: len,
        normalize: false,
        format_override: None,
        slot_override: None,
    }
}

fn normalized(kind: ElementKind, len: usize) -> FieldSpec {
    FieldSpec { normalize: true, ..field(kind, len) }
}

fn overridden(kind: ElementKind, len: usize, format: Format) -> FieldSpec {
    FieldSpec { format_override: Some(format), ..field(kind, len) }
}

fn at_slot(f: FieldSpec, slot: u32) -> FieldSpec {
    FieldSpec { slot_override: Some(slot), ..f }
}

fn attr(format: Format, byte_offset: u64, shader_slot: u32) -> ResolvedAttribute {
    ResolvedAttribute { format, byte_offset, shader_slot }
}

#[test]
fn test() {
    let fields = vec![
        normalized(ElementKind::U8, 2),
        at_slot(overridden(ElementKind::F32, 2, Format::Float64), 6),
        field(ElementKind::U16, 2),
        field(ElementKind::F64, 1),
        at_slot(field(ElementKind::U32, 1), 10),
        field(ElementKind::U32, 1),
        field(ElementKind::F32, 1),
    ];
    let layout = vertex_layout(StepMode::Vertex, &fields).unwrap();
    let a = Format::Unorm8x2.size();
    let b = a + Format::Float64.size();
    let c = b + Format::Uint16x2.size();
    let d = c + Format::Float64.size();
    let e = d + Format::Uint32.size();
    let f = e + Format::Uint32.size();
    assert_eq!(layout.step_mode, StepMode::Vertex);
    assert_eq!(
        layout.attributes,
        vec![
            attr(Format::Unorm8x2, 0, 0),
            attr(Format::Float64, a, 6),
            attr(Format::Uint16x2, b, 7),
            attr(Format::Float64, c, 8),
            attr(Format::Uint32, d, 10),
            attr(Format::Uint32, e, 11),
            attr(Format::Float32, f, 12),
        ]
    );
    assert_eq!(layout.stride_bytes, f + Format::Float32.size());
    assert_eq!(layout.stride_bytes, 34);
}

#[test]
fn inferred_size_is_kind_bytes_times_length() {
    let cases: Vec<(ElementKind, u64, Vec<usize>)> = vec![
        (ElementKind::U8, 1, vec![2, 4]),
        (ElementKind::I8, 1, vec![2, 4]),
        (ElementKind::U16, 2, vec![2, 4]),
        (ElementKind::I16, 2, vec![2, 4]),
        (ElementKind::U32, 4, vec![1, 2, 3, 4]),
        (ElementKind::I32, 4, vec![1, 2, 3, 4]),
        (ElementKind::F32, 4, vec![1, 2, 3, 4]),
        (ElementKind::F64, 8, vec![1, 2, 3, 4]),
    ];
    for (kind, bytes, lengths) in cases {
        for len in lengths {
            let format = vertex_layout::resolve_field(&field(kind, len), 0).unwrap();
            assert_eq!(format.size(), bytes * len as u64);
            assert_eq!(format.arity() as usize, len);
        }
    }
}

#[test]
fn normalized_size_equals_raw_size() {
    for kind in [ElementKind::U8, ElementKind::I8, ElementKind::U16, ElementKind::I16] {
        for len in [2usize, 4] {
            let norm = vertex_layout::resolve_field(&normalized(kind, len), 0).unwrap();
            let raw = vertex_layout::resolve_field(&field(kind, len), 0).unwrap();
            assert_ne!(norm, raw);
            assert_eq!(norm.size(), raw.size());
        }
    }
    let norm = vertex_layout::resolve_field(&normalized(ElementKind::I16, 4), 0).unwrap();
    assert_eq!(norm, Format::Snorm16x4);
    assert_eq!(norm.size(), 8);
}

#[test]
fn slots_count_up_without_overrides() {
    let fields = vec![
        field(ElementKind::F32, 3),
        field(ElementKind::U8, 4),
        field(ElementKind::F64, 1),
        field(ElementKind::I32, 2),
    ];
    let layout = vertex_layout(StepMode::Instance, &fields).unwrap();
    let slots: Vec<u32> = layout.attributes.iter().map(|a| a.shader_slot).collect();
    assert_eq!(slots, vec![0, 1, 2, 3]);
    assert_eq!(layout.step_mode, StepMode::Instance);
}

#[test]
fn slot_override_resumes_counting() {
    let fields = vec![
        field(ElementKind::F32, 1),
        at_slot(field(ElementKind::F32, 1), 6),
        field(ElementKind::F32, 1),
        field(ElementKind::F32, 1),
    ];
    let layout = vertex_layout(StepMode::Vertex, &fields).unwrap();
    let slots: Vec<u32> = layout.attributes.iter().map(|a| a.shader_slot).collect();
    assert_eq!(slots, vec![0, 6, 7, 8]);
}

#[test]
fn slot_override_may_go_back() {
    let fields = vec![
        at_slot(field(ElementKind::F32, 1), 5),
        field(ElementKind::F32, 1),
        at_slot(field(ElementKind::F32, 1), 0),
        field(ElementKind::F32, 1),
    ];
    let layout = vertex_layout(StepMode::Vertex, &fields).unwrap();
    let slots: Vec<u32> = layout.attributes.iter().map(|a| a.shader_slot).collect();
    assert_eq!(slots, vec![5, 6, 0, 1]);
}

#[test]
fn offsets_accumulate() {
    let fields = vec![
        normalized(ElementKind::U8, 2),
        field(ElementKind::F64, 1),
        field(ElementKind::U16, 2),
    ];
    let layout = vertex_layout(StepMode::Vertex, &fields).unwrap();
    let offsets: Vec<u64> = layout.attributes.iter().map(|a| a.byte_offset).collect();
    assert_eq!(offsets, vec![0, 2, 10]);
    assert_eq!(layout.stride_bytes, 14);
}

#[test]
fn empty_record() {
    let layout = vertex_layout(StepMode::Vertex, &vec![]).unwrap();
    assert_eq!(layout.stride_bytes, 0);
    assert!(layout.attributes.is_empty());
}

#[test]
fn eight_bit_arity() {
    for kind in [ElementKind::U8, ElementKind::I8] {
        for norm in [false, true] {
            let f = FieldSpec { normalize: norm, ..field(kind, 3) };
            assert_eq!(
                vertex_layout::resolve_field(&f, 4),
                Err(LayoutError::InvalidArity { field: 4, kind, length: 3 })
            );
            for len in [2usize, 4] {
                let f = FieldSpec { normalize: norm, ..field(kind, len) };
                assert!(vertex_layout::resolve_field(&f, 4).is_ok());
            }
        }
    }
    let r = vertex_layout(StepMode::Vertex, &vec![field(ElementKind::U8, 3)]);
    assert_eq!(r, Err(LayoutError::InvalidArity { field: 0, kind: ElementKind::U8, length: 3 }));
}

#[test]
fn arity_out_of_table() {
    for len in [0usize, 5, 16] {
        let r = vertex_layout::resolve_field(&field(ElementKind::F32, len), 1);
        assert_eq!(r, Err(LayoutError::InvalidArity { field: 1, kind: ElementKind::F32, length: len }));
    }
    let r = vertex_layout::resolve_field(&field(ElementKind::U16, 1), 0);
    assert_eq!(r, Err(LayoutError::InvalidArity { field: 0, kind: ElementKind::U16, length: 1 }));
}

#[test]
fn float_normalization_rejected() {
    let r = vertex_layout(StepMode::Vertex, &vec![normalized(ElementKind::F32, 2)]);
    assert_eq!(r, Err(LayoutError::InvalidNormalization { field: 0, kind: ElementKind::F32 }));
    let r = vertex_layout::resolve_field(&normalized(ElementKind::U32, 1), 2);
    assert_eq!(r, Err(LayoutError::InvalidNormalization { field: 2, kind: ElementKind::U32 }));
}

#[test]
fn format_override_bypasses_inference() {
    let f = overridden(ElementKind::F32, 2, Format::Uint16x4);
    assert_eq!(vertex_layout::resolve_field(&f, 0), Ok(Format::Uint16x4));
    let f = FieldSpec { normalize: true, ..overridden(ElementKind::Other, 7, Format::Sint32x3) };
    assert_eq!(vertex_layout::resolve_field(&f, 0), Ok(Format::Sint32x3));
}

#[test]
fn worked_example() {
    let fields = vec![
        normalized(ElementKind::U8, 2),
        overridden(ElementKind::F32, 2, Format::Float64),
        field(ElementKind::U16, 2),
        field(ElementKind::F64, 1),
    ];
    let layout = vertex_layout(StepMode::Vertex, &fields).unwrap();
    assert_eq!(
        layout.attributes,
        vec![
            attr(Format::Unorm8x2, 0, 0),
            attr(Format::Float64, 2, 1),
            attr(Format::Uint16x2, 10, 2),
            attr(Format::Float64, 14, 3),
        ]
    );
    assert_eq!(layout.stride_bytes, 22);
    assert_eq!(layout.step_mode, StepMode::Vertex);
}

#[test]
fn unsupported_element_kinds() {
    for kind in [ElementKind::U64, ElementKind::I64, ElementKind::Other] {
        let r = vertex_layout(StepMode::Vertex, &vec![field(ElementKind::F32, 1), field(kind, 2)]);
        assert_eq!(r, Err(LayoutError::UnsupportedElementKind { field: 1 }));
        let r = vertex_layout::resolve_field(&normalized(kind, 2), 0);
        assert_eq!(r, Err(LayoutError::InvalidNormalization { field: 0, kind }));
    }
}

#[test]
fn first_failing_field_is_reported() {
    let fields = vec![
        field(ElementKind::F32, 1),
        normalized(ElementKind::F64, 1),
        field(ElementKind::U8, 3),
    ];
    let r = vertex_layout(StepMode::Vertex, &fields);
    assert_eq!(r, Err(LayoutError::InvalidNormalization { field: 1, kind: ElementKind::F64 }));
}

#[test]
fn slot_overflow() {
    let last = vec![at_slot(field(ElementKind::F32, 1), u32::MAX)];
    let layout = vertex_layout(StepMode::Vertex, &last).unwrap();
    assert_eq!(layout.attributes[0].shader_slot, u32::MAX);
    let fields = vec![
        at_slot(field(ElementKind::F32, 1), u32::MAX),
        field(ElementKind::F32, 1),
    ];
    let r = vertex_layout(StepMode::Vertex, &fields);
    assert_eq!(r, Err(LayoutError::SlotOverflow { field: 1 }));
}

#[test]
fn annotations_build_a_field() {
    let notes = vec![
        Annotation::Location(6),
        Annotation::Format(String::from("Float64")),
    ];
    let f = FieldSpec::from_annotations(1, "f32", 2, &notes).unwrap();
    assert_eq!(f, at_slot(overridden(ElementKind::F32, 2, Format::Float64), 6));
    let f = FieldSpec::from_annotations(0, "u8", 2, &vec![Annotation::Norm]).unwrap();
    assert_eq!(f, normalized(ElementKind::U8, 2));
    let f = FieldSpec::from_annotations(0, "Vec3", 1, &vec![]).unwrap();
    assert_eq!(f, field(ElementKind::Other, 1));
}

#[test]
fn annotations_conflict() {
    let twice = vec![
        Annotation::Format(String::from("Uint8x2")),
        Annotation::Format(String::from("Uint8x4")),
    ];
    assert_eq!(
        FieldSpec::from_annotations(3, "u8", 2, &twice),
        Err(LayoutError::ConflictingOverride { field: 3 })
    );
    let unknown = vec![Annotation::Format(String::from("Uint8x3"))];
    assert_eq!(
        FieldSpec::from_annotations(2, "u8", 3, &unknown),
        Err(LayoutError::ConflictingOverride { field: 2 })
    );
    let slots = vec![Annotation::Location(1), Annotation::Norm, Annotation::Location(2)];
    assert_eq!(
        FieldSpec::from_annotations(0, "u8", 2, &slots),
        Err(LayoutError::ConflictingOverride { field: 0 })
    );
    let norms = vec![Annotation::Norm, Annotation::Norm];
    assert_eq!(
        FieldSpec::from_annotations(0, "u8", 2, &norms),
        Err(LayoutError::ConflictingOverride { field: 0 })
    );
}

#[test]
fn half_float_override() {
    let notes = vec![Annotation::Format(String::from("Float16x4"))];
    let f = FieldSpec::from_annotations(0, "u16", 4, &notes).unwrap();
    assert_eq!(f.format_override, Some(Format::Float16x4));
    assert_eq!(vertex_layout::resolve_field(&f, 0), Ok(Format::Float16x4));
    let fields = vec![f, field(ElementKind::F32, 1)];
    let layout = vertex_layout(StepMode::Vertex, &fields).unwrap();
    assert_eq!(
        layout.attributes,
        vec![attr(Format::Float16x4, 0, 0), attr(Format::Float32, 8, 1)]
    );
    assert_eq!(layout.stride_bytes, 12);
}

#[test]
fn normalized_float_fails_after_valid_fields() {
    let fields = vec![
        at_slot(field(ElementKind::U32, 1), 3),
        field(ElementKind::U8, 2),
        at_slot(normalized(ElementKind::F32, 9), 1),
    ];
    let r = vertex_layout(StepMode::Instance, &fields);
    assert_eq!(r, Err(LayoutError::InvalidNormalization { field: 2, kind: ElementKind::F32 }));
}
