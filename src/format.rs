use vstd::prelude::*;

verus! {

/// The scalar element type of a record field.
#[derive(Clone, Copy, Debug, PartialEq, Eq, Structural)]
pub enum ElementKind {
    U8,
    I8,
    U16,
    I16,
    U32,
    I32,
    U64,
    I64,
    F32,
    F64,
    /// Any type that is none of the above.
    Other,
}

/// A family of wire formats: one component type, at some arity.
#[derive(Clone, Copy, Debug, PartialEq, Eq, Structural)]
pub enum Family {
    Uint8,
    Sint8,
    Unorm8,
    Snorm8,
    Uint16,
    Sint16,
    Unorm16,
    Snorm16,
    Uint32,
    Sint32,
    Float32,
    Float64,
    /// Half-precision floats; no element kind infers them.
    Float16,
}

/// Bytes taken by one component of a format of the family.
pub open spec fn component_bytes(f: Family) -> nat {
    match f {
        Family::Uint8 | Family::Sint8 | Family::Unorm8 | Family::Snorm8 => 1,
        Family::Uint16 | Family::Sint16 | Family::Unorm16 | Family::Snorm16 | Family::Float16 => 2,
        Family::Uint32 | Family::Sint32 | Family::Float32 => 4,
        Family::Float64 => 8,
    }
}

/// The arities at which a family has a format: 2 or 4 for the 8- and 16-bit
/// families and half floats, 1 to 4 for the 32- and 64-bit ones.
pub open spec fn arity_allowed(f: Family, n: int) -> bool {
    if component_bytes(f) <= 2 {
        n == 2 || n == 4
    } else {
        1 <= n <= 4
    }
}

/// A vertex wire format: a family at one of the arities it allows.
#[derive(Clone, Copy, Debug, PartialEq, Eq, Structural)]
pub enum Format {
    Uint8x2,
    Uint8x4,
    Sint8x2,
    Sint8x4,
    Unorm8x2,
    Unorm8x4,
    Snorm8x2,
    Snorm8x4,
    Uint16x2,
    Uint16x4,
    Sint16x2,
    Sint16x4,
    Unorm16x2,
    Unorm16x4,
    Snorm16x2,
    Snorm16x4,
    Uint32,
    Uint32x2,
    Uint32x3,
    Uint32x4,
    Sint32,
    Sint32x2,
    Sint32x3,
    Sint32x4,
    Float32,
    Float32x2,
    Float32x3,
    Float32x4,
    Float64,
    Float64x2,
    Float64x3,
    Float64x4,
    Float16x2,
    Float16x4,
}

/// The format of a family at an arity, where the family has one there.
pub open spec fn format_for(f: Family, n: int) -> Option<Format> {
    match f {
        Family::Uint8 => {
            if n == 2 {
                Some(Format::Uint8x2)
            } else if n == 4 {
                Some(Format::Uint8x4)
            } else {
                None
            }
        },
        Family::Sint8 => {
            if n == 2 {
                Some(Format::Sint8x2)
            } else if n == 4 {
                Some(Format::Sint8x4)
            } else {
                None
            }
        },
        Family::Unorm8 => {
            if n == 2 {
                Some(Format::Unorm8x2)
            } else if n == 4 {
                Some(Format::Unorm8x4)
            } else {
                None
            }
        },
        Family::Snorm8 => {
            if n == 2 {
                Some(Format::Snorm8x2)
            } else if n == 4 {
                Some(Format::Snorm8x4)
            } else {
                None
            }
        },
        Family::Uint16 => {
            if n == 2 {
                Some(Format::Uint16x2)
            } else if n == 4 {
                Some(Format::Uint16x4)
            } else {
                None
            }
        },
        Family::Sint16 => {
            if n == 2 {
                Some(Format::Sint16x2)
            } else if n == 4 {
                Some(Format::Sint16x4)
            } else {
                None
            }
        },
        Family::Unorm16 => {
            if n == 2 {
                Some(Format::Unorm16x2)
            } else if n == 4 {
                Some(Format::Unorm16x4)
            } else {
                None
            }
        },
        Family::Snorm16 => {
            if n == 2 {
                Some(Format::Snorm16x2)
            } else if n == 4 {
                Some(Format::Snorm16x4)
            } else {
                None
            }
        },
        Family::Uint32 => {
            if n == 1 {
                Some(Format::Uint32)
            } else if n == 2 {
                Some(Format::Uint32x2)
            } else if n == 3 {
                Some(Format::Uint32x3)
            } else if n == 4 {
                Some(Format::Uint32x4)
            } else {
                None
            }
        },
        Family::Sint32 => {
            if n == 1 {
                Some(Format::Sint32)
            } else if n == 2 {
                Some(Format::Sint32x2)
            } else if n == 3 {
                Some(Format::Sint32x3)
            } else if n == 4 {
                Some(Format::Sint32x4)
            } else {
                None
            }
        },
        Family::Float32 => {
            if n == 1 {
                Some(Format::Float32)
            } else if n == 2 {
                Some(Format::Float32x2)
            } else if n == 3 {
                Some(Format::Float32x3)
            } else if n == 4 {
                Some(Format::Float32x4)
            } else {
                None
            }
        },
        Family::Float64 => {
            if n == 1 {
                Some(Format::Float64)
            } else if n == 2 {
                Some(Format::Float64x2)
            } else if n == 3 {
                Some(Format::Float64x3)
            } else if n == 4 {
                Some(Format::Float64x4)
            } else {
                None
            }
        },
        Family::Float16 => {
            if n == 2 {
                Some(Format::Float16x2)
            } else if n == 4 {
                Some(Format::Float16x4)
            } else {
                None
            }
        },
    }
}

impl Format {
    /// The family of the format.
    pub open spec fn family_of(self) -> Family {
        match self {
            Format::Uint8x2 => Family::Uint8,
            Format::Uint8x4 => Family::Uint8,
            Format::Sint8x2 => Family::Sint8,
            Format::Sint8x4 => Family::Sint8,
            Format::Unorm8x2 => Family::Unorm8,
            Format::Unorm8x4 => Family::Unorm8,
            Format::Snorm8x2 => Family::Snorm8,
            Format::Snorm8x4 => Family::Snorm8,
            Format::Uint16x2 => Family::Uint16,
            Format::Uint16x4 => Family::Uint16,
            Format::Sint16x2 => Family::Sint16,
            Format::Sint16x4 => Family::Sint16,
            Format::Unorm16x2 => Family::Unorm16,
            Format::Unorm16x4 => Family::Unorm16,
            Format::Snorm16x2 => Family::Snorm16,
            Format::Snorm16x4 => Family::Snorm16,
            Format::Uint32 => Family::Uint32,
            Format::Uint32x2 => Family::Uint32,
            Format::Uint32x3 => Family::Uint32,
            Format::Uint32x4 => Family::Uint32,
            Format::Sint32 => Family::Sint32,
            Format::Sint32x2 => Family::Sint32,
            Format::Sint32x3 => Family::Sint32,
            Format::Sint32x4 => Family::Sint32,
            Format::Float32 => Family::Float32,
            Format::Float32x2 => Family::Float32,
            Format::Float32x3 => Family::Float32,
            Format::Float32x4 => Family::Float32,
            Format::Float64 => Family::Float64,
            Format::Float64x2 => Family::Float64,
            Format::Float64x3 => Family::Float64,
            Format::Float64x4 => Family::Float64,
            Format::Float16x2 => Family::Float16,
            Format::Float16x4 => Family::Float16,
        }
    }

    /// The number of components of the format.
    pub open spec fn arity_of(self) -> nat {
        match self {
            Format::Uint8x2 => 2,
            Format::Uint8x4 => 4,
            Format::Sint8x2 => 2,
            Format::Sint8x4 => 4,
            Format::Unorm8x2 => 2,
            Format::Unorm8x4 => 4,
            Format::Snorm8x2 => 2,
            Format::Snorm8x4 => 4,
            Format::Uint16x2 => 2,
            Format::Uint16x4 => 4,
            Format::Sint16x2 => 2,
            Format::Sint16x4 => 4,
            Format::Unorm16x2 => 2,
            Format::Unorm16x4 => 4,
            Format::Snorm16x2 => 2,
            Format::Snorm16x4 => 4,
            Format::Uint32 => 1,
            Format::Uint32x2 => 2,
            Format::Uint32x3 => 3,
            Format::Uint32x4 => 4,
            Format::Sint32 => 1,
            Format::Sint32x2 => 2,
            Format::Sint32x3 => 3,
            Format::Sint32x4 => 4,
            Format::Float32 => 1,
            Format::Float32x2 => 2,
            Format::Float32x3 => 3,
            Format::Float32x4 => 4,
            Format::Float64 => 1,
            Format::Float64x2 => 2,
            Format::Float64x3 => 3,
            Format::Float64x4 => 4,
            Format::Float16x2 => 2,
            Format::Float16x4 => 4,
        }
    }


    /// The bytes that one value of the format takes.
    pub open spec fn byte_size(self) -> nat {
        component_bytes(self.family_of()) * self.arity_of()
    }

    /// The family of the format.
    pub fn family(&self) -> (r: Family)
        ensures
            r == self.family_of(),
    {
        match self {
            Format::Uint8x2 => Family::Uint8,
            Format::Uint8x4 => Family::Uint8,
            Format::Sint8x2 => Family::Sint8,
            Format::Sint8x4 => Family::Sint8,
            Format::Unorm8x2 => Family::Unorm8,
            Format::Unorm8x4 => Family::Unorm8,
            Format::Snorm8x2 => Family::Snorm8,
            Format::Snorm8x4 => Family::Snorm8,
            Format::Uint16x2 => Family::Uint16,
            Format::Uint16x4 => Family::Uint16,
            Format::Sint16x2 => Family::Sint16,
            Format::Sint16x4 => Family::Sint16,
            Format::Unorm16x2 => Family::Unorm16,
            Format::Unorm16x4 => Family::Unorm16,
            Format::Snorm16x2 => Family::Snorm16,
            Format::Snorm16x4 => Family::Snorm16,
            Format::Uint32 => Family::Uint32,
            Format::Uint32x2 => Family::Uint32,
            Format::Uint32x3 => Family::Uint32,
            Format::Uint32x4 => Family::Uint32,
            Format::Sint32 => Family::Sint32,
            Format::Sint32x2 => Family::Sint32,
            Format::Sint32x3 => Family::Sint32,
            Format::Sint32x4 => Family::Sint32,
            Format::Float32 => Family::Float32,
            Format::Float32x2 => Family::Float32,
            Format::Float32x3 => Family::Float32,
            Format::Float32x4 => Family::Float32,
            Format::Float64 => Family::Float64,
            Format::Float64x2 => Family::Float64,
            Format::Float64x3 => Family::Float64,
            Format::Float64x4 => Family::Float64,
            Format::Float16x2 => Family::Float16,
            Format::Float16x4 => Family::Float16,
        }
    }

    /// The number of components of the format.
    pub fn arity(&self) -> (r: u32)
        ensures
            r == self.arity_of(),
    {
        match self {
            Format::Uint8x2 => 2,
            Format::Uint8x4 => 4,
            Format::Sint8x2 => 2,
            Format::Sint8x4 => 4,
            Format::Unorm8x2 => 2,
            Format::Unorm8x4 => 4,
            Format::Snorm8x2 => 2,
            Format::Snorm8x4 => 4,
            Format::Uint16x2 => 2,
            Format::Uint16x4 => 4,
            Format::Sint16x2 => 2,
            Format::Sint16x4 => 4,
            Format::Unorm16x2 => 2,
            Format::Unorm16x4 => 4,
            Format::Snorm16x2 => 2,
            Format::Snorm16x4 => 4,
            Format::Uint32 => 1,
            Format::Uint32x2 => 2,
            Format::Uint32x3 => 3,
            Format::Uint32x4 => 4,
            Format::Sint32 => 1,
            Format::Sint32x2 => 2,
            Format::Sint32x3 => 3,
            Format::Sint32x4 => 4,
            Format::Float32 => 1,
            Format::Float32x2 => 2,
            Format::Float32x3 => 3,
            Format::Float32x4 => 4,
            Format::Float64 => 1,
            Format::Float64x2 => 2,
            Format::Float64x3 => 3,
            Format::Float64x4 => 4,
            Format::Float16x2 => 2,
            Format::Float16x4 => 4,
        }
    }

    /// The bytes that one value of the format takes.
    pub fn size(&self) -> (r: u64)
        ensures
            r == self.byte_size(),
    {
        let arity = self.arity();
        let component: u64 = match self.family() {
            Family::Uint8 | Family::Sint8 | Family::Unorm8 | Family::Snorm8 => 1,
            Family::Uint16 | Family::Sint16 | Family::Unorm16 | Family::Snorm16 | Family::Float16 => 2,
            Family::Uint32 | Family::Sint32 | Family::Float32 => 4,
            Family::Float64 => 8,
        };
        component * arity as u64
    }

    /// The format of `family` with `arity` components, or `None` where the
    /// family has no format of that arity.
    pub fn from_parts(family: Family, arity: usize) -> (r: Option<Format>)
        ensures
            r == format_for(family, arity as int),
    {
        match family {
            Family::Uint8 => match arity {
                2 => Some(Format::Uint8x2),
                4 => Some(Format::Uint8x4),
                _ => None,
            },
            Family::Sint8 => match arity {
                2 => Some(Format::Sint8x2),
                4 => Some(Format::Sint8x4),
                _ => None,
            },
            Family::Unorm8 => match arity {
                2 => Some(Format::Unorm8x2),
                4 => Some(Format::Unorm8x4),
                _ => None,
            },
            Family::Snorm8 => match arity {
                2 => Some(Format::Snorm8x2),
                4 => Some(Format::Snorm8x4),
                _ => None,
            },
            Family::Uint16 => match arity {
                2 => Some(Format::Uint16x2),
                4 => Some(Format::Uint16x4),
                _ => None,
            },
            Family::Sint16 => match arity {
                2 => Some(Format::Sint16x2),
                4 => Some(Format::Sint16x4),
                _ => None,
            },
            Family::Unorm16 => match arity {
                2 => Some(Format::Unorm16x2),
                4 => Some(Format::Unorm16x4),
                _ => None,
            },
            Family::Snorm16 => match arity {
                2 => Some(Format::Snorm16x2),
                4 => Some(Format::Snorm16x4),
                _ => None,
            },
            Family::Uint32 => match arity {
                1 => Some(Format::Uint32),
                2 => Some(Format::Uint32x2),
                3 => Some(Format::Uint32x3),
                4 => Some(Format::Uint32x4),
                _ => None,
            },
            Family::Sint32 => match arity {
                1 => Some(Format::Sint32),
                2 => Some(Format::Sint32x2),
                3 => Some(Format::Sint32x3),
                4 => Some(Format::Sint32x4),
                _ => None,
            },
            Family::Float32 => match arity {
                1 => Some(Format::Float32),
                2 => Some(Format::Float32x2),
                3 => Some(Format::Float32x3),
                4 => Some(Format::Float32x4),
                _ => None,
            },
            Family::Float64 => match arity {
                1 => Some(Format::Float64),
                2 => Some(Format::Float64x2),
                3 => Some(Format::Float64x3),
                4 => Some(Format::Float64x4),
                _ => None,
            },
            Family::Float16 => match arity {
                2 => Some(Format::Float16x2),
                4 => Some(Format::Float16x4),
                _ => None,
            },
        }
    }
}


/// Every format that `format_for` gives has that family and arity, and the
/// family has a format at exactly the arities it allows.
pub proof fn lemma_format_for(f: Family, n: int)
    ensures
        format_for(f, n) is Some <==> arity_allowed(f, n),
        format_for(f, n) matches Some(fmt) ==> fmt.family_of() == f && fmt.arity_of() == n,
{
}

/// The element kinds that have a normalized family.
pub open spec fn normalizable(k: ElementKind) -> bool {
    match k {
        ElementKind::U8 | ElementKind::I8 | ElementKind::U16 | ElementKind::I16 => true,
        _ => false,
    }
}

/// Bytes taken by one value of the element kind.
pub open spec fn kind_bytes(k: ElementKind) -> nat {
    match k {
        ElementKind::U8 | ElementKind::I8 => 1,
        ElementKind::U16 | ElementKind::I16 => 2,
        ElementKind::U32 | ElementKind::I32 | ElementKind::F32 => 4,
        ElementKind::U64 | ElementKind::I64 | ElementKind::F64 => 8,
        ElementKind::Other => 0,
    }
}

/// The family inferred from an element kind, raw or normalized; `None` where
/// the kind has no such family.
pub open spec fn inferred_family(k: ElementKind, normalize: bool) -> Option<Family> {
    match (k, normalize) {
        (ElementKind::U8, false) => Some(Family::Uint8),
        (ElementKind::U8, true) => Some(Family::Unorm8),
        (ElementKind::I8, false) => Some(Family::Sint8),
        (ElementKind::I8, true) => Some(Family::Snorm8),
        (ElementKind::U16, false) => Some(Family::Uint16),
        (ElementKind::U16, true) => Some(Family::Unorm16),
        (ElementKind::I16, false) => Some(Family::Sint16),
        (ElementKind::I16, true) => Some(Family::Snorm16),
        (ElementKind::U32, false) => Some(Family::Uint32),
        (ElementKind::I32, false) => Some(Family::Sint32),
        (ElementKind::F32, false) => Some(Family::Float32),
        (ElementKind::F64, false) => Some(Family::Float64),
        _ => None,
    }
}

impl ElementKind {
    /// Whether the kind has a normalized family.
    pub fn is_normalizable(&self) -> (r: bool)
        ensures
            r == normalizable(*self),
    {
        match self {
            ElementKind::U8 | ElementKind::I8 | ElementKind::U16 | ElementKind::I16 => true,
            _ => false,
        }
    }

    /// The family inferred from the kind, raw or normalized.
    pub fn family(&self, normalize: bool) -> (r: Option<Family>)
        ensures
            r == inferred_family(*self, normalize),
    {
        match (self, normalize) {
            (ElementKind::U8, false) => Some(Family::Uint8),
            (ElementKind::U8, true) => Some(Family::Unorm8),
            (ElementKind::I8, false) => Some(Family::Sint8),
            (ElementKind::I8, true) => Some(Family::Snorm8),
            (ElementKind::U16, false) => Some(Family::Uint16),
            (ElementKind::U16, true) => Some(Family::Unorm16),
            (ElementKind::I16, false) => Some(Family::Sint16),
            (ElementKind::I16, true) => Some(Family::Snorm16),
            (ElementKind::U32, false) => Some(Family::Uint32),
            (ElementKind::I32, false) => Some(Family::Sint32),
            (ElementKind::F32, false) => Some(Family::Float32),
            (ElementKind::F64, false) => Some(Family::Float64),
            _ => None,
        }
    }
}

} // verus!
