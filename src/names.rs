use vstd::prelude::*;
use crate::format::{ElementKind, Family, Format, format_for, lemma_format_for};
use crate::layout::{LayoutError, StepMode};

verus! {

/// Whether two strings hold the same characters.
pub fn same_text(a: &str, b: &str) -> (r: bool)
    ensures
        r == (a@ == b@),
{
    let n = a.unicode_len();
    if n != b.unicode_len() {
        return false;
    }
    let mut i: usize = 0;
    while i < n
        invariant
            n == a@.len(),
            n == b@.len(),
            i <= n,
            forall|j: int| 0 <= j < i ==> a@[j] == b@[j],
        decreases n - i,
    {
        if a.get_char(i) != b.get_char(i) {
            return false;
        }
        i = i + 1;
    }
    proof {
        assert(a@ =~= b@);
    }
    true
}

/// The element kind of the type called `s`.
pub open spec fn kind_named(s: Seq<char>) -> ElementKind {
    if s == "u8"@ {
        ElementKind::U8
    } else if s == "i8"@ {
        ElementKind::I8
    } else if s == "u16"@ {
        ElementKind::U16
    } else if s == "i16"@ {
        ElementKind::I16
    } else if s == "u32"@ {
        ElementKind::U32
    } else if s == "i32"@ {
        ElementKind::I32
    } else if s == "u64"@ {
        ElementKind::U64
    } else if s == "i64"@ {
        ElementKind::I64
    } else if s == "f32"@ {
        ElementKind::F32
    } else if s == "f64"@ {
        ElementKind::F64
    } else {
        ElementKind::Other
    }
}

/// The name of a step mode.
pub open spec fn step_mode_name(m: StepMode) -> Seq<char> {
    match m {
        StepMode::Vertex => "Vertex"@,
        StepMode::Instance => "Instance"@,
    }
}

impl ElementKind {
    /// The element kind of the type called `name`.
    pub fn from_name(name: &str) -> (r: ElementKind)
        ensures
            r == kind_named(name@),
    {
        if same_text(name, "u8") {
            ElementKind::U8
        } else if same_text(name, "i8") {
            ElementKind::I8
        } else if same_text(name, "u16") {
            ElementKind::U16
        } else if same_text(name, "i16") {
            ElementKind::I16
        } else if same_text(name, "u32") {
            ElementKind::U32
        } else if same_text(name, "i32") {
            ElementKind::I32
        } else if same_text(name, "u64") {
            ElementKind::U64
        } else if same_text(name, "i64") {
            ElementKind::I64
        } else if same_text(name, "f32") {
            ElementKind::F32
        } else if same_text(name, "f64") {
            ElementKind::F64
        } else {
            ElementKind::Other
        }
    }
}

/// The step mode that a record selects: per vertex where it selects none,
/// else the mode of that name; any other name is an error.
pub fn step_mode_from_selection(selection: Option<&str>) -> (r: Result<StepMode, LayoutError>)
    ensures
        selection is None ==> r == Ok::<StepMode, LayoutError>(StepMode::Vertex),
        selection matches Some(s) ==> match r {
            Ok(m) => step_mode_name(m) == s@,
            Err(e) => e == LayoutError::InvalidStepMode && forall|m: StepMode|
                step_mode_name(m) != s@,
        },
{
    match selection {
        None => Ok(StepMode::Vertex),
        Some(s) => {
            if same_text(s, "Vertex") {
                Ok(StepMode::Vertex)
            } else if same_text(s, "Instance") {
                Ok(StepMode::Instance)
            } else {
                Err(LayoutError::InvalidStepMode)
            }
        },
    }
}

/// The name of a format family, which is also the name of its format of one
/// component.
pub open spec fn family_name(f: Family) -> Seq<char> {
    match f {
        Family::Uint8 => "Uint8"@,
        Family::Sint8 => "Sint8"@,
        Family::Unorm8 => "Unorm8"@,
        Family::Snorm8 => "Snorm8"@,
        Family::Uint16 => "Uint16"@,
        Family::Sint16 => "Sint16"@,
        Family::Unorm16 => "Unorm16"@,
        Family::Snorm16 => "Snorm16"@,
        Family::Uint32 => "Uint32"@,
        Family::Sint32 => "Sint32"@,
        Family::Float32 => "Float32"@,
        Family::Float64 => "Float64"@,
        Family::Float16 => "Float16"@,
    }
}

/// The digit that names an arity of 2 to 4.
pub open spec fn arity_digit(n: nat) -> char {
    if n == 2 {
        '2'
    } else if n == 3 {
        '3'
    } else {
        '4'
    }
}

/// The name of a format: its family's name, followed by `x` and the arity
/// where that is more than one.
pub open spec fn format_name(fmt: Format) -> Seq<char> {
    if fmt.arity_of() == 1 {
        family_name(fmt.family_of())
    } else {
        family_name(fmt.family_of()) + seq!['x', arity_digit(fmt.arity_of())]
    }
}

/// No two families share a name, and no family name ends in `x` and a digit
/// of 2 to 4.
proof fn lemma_family_names(f: Family, g: Family)
    ensures
        family_name(f) == family_name(g) ==> f == g,
        family_name(f).len() >= 2,
        family_name(f)[family_name(f).len() - 2] != 'x',
{
    reveal_strlit("Uint8");
    reveal_strlit("Sint8");
    reveal_strlit("Unorm8");
    reveal_strlit("Snorm8");
    reveal_strlit("Uint16");
    reveal_strlit("Sint16");
    reveal_strlit("Unorm16");
    reveal_strlit("Snorm16");
    reveal_strlit("Uint32");
    reveal_strlit("Sint32");
    reveal_strlit("Float32");
    reveal_strlit("Float64");
    reveal_strlit("Float16");
    if family_name(f) == family_name(g) && f != g {
        let a = family_name(f);
        let b = family_name(g);
        assert(a[0] == b[0] && a[1] == b[1] && a[2] == b[2] && a[3] == b[3] && a[4] == b[4]);
        if a.len() > 5 {
            assert(a[5] == b[5]);
        }
    }
}

impl Family {
    /// The family called `name`, if any.
    pub fn from_name(name: &str) -> (r: Option<Family>)
        ensures
            r matches Some(f) ==> family_name(f) == name@,
            r is None ==> forall|f: Family| family_name(f) != name@,
    {
        if same_text(name, "Uint8") {
            Some(Family::Uint8)
        } else if same_text(name, "Sint8") {
            Some(Family::Sint8)
        } else if same_text(name, "Unorm8") {
            Some(Family::Unorm8)
        } else if same_text(name, "Snorm8") {
            Some(Family::Snorm8)
        } else if same_text(name, "Uint16") {
            Some(Family::Uint16)
        } else if same_text(name, "Sint16") {
            Some(Family::Sint16)
        } else if same_text(name, "Unorm16") {
            Some(Family::Unorm16)
        } else if same_text(name, "Snorm16") {
            Some(Family::Snorm16)
        } else if same_text(name, "Uint32") {
            Some(Family::Uint32)
        } else if same_text(name, "Sint32") {
            Some(Family::Sint32)
        } else if same_text(name, "Float32") {
            Some(Family::Float32)
        } else if same_text(name, "Float64") {
            Some(Family::Float64)
        } else if same_text(name, "Float16") {
            Some(Family::Float16)
        } else {
            None
        }
    }
}

/// Every format is the one that its family has at its arity.
proof fn lemma_format_parts(fmt: Format)
    ensures
        format_for(fmt.family_of(), fmt.arity_of() as int) == Some(fmt),
{
}

impl Format {
    /// The format called `name`, if any.
    pub fn from_name(name: &str) -> (r: Option<Format>)
        ensures
            r matches Some(f) ==> format_name(f) == name@,
            r is None ==> forall|f: Format| format_name(f) != name@,
    {
        let n = name.unicode_len();
        let mut arity: usize = 1;
        let mut base_len: usize = n;
        if n >= 2 && name.get_char(n - 2) == 'x' {
            let last = name.get_char(n - 1);
            if last == '2' {
                arity = 2;
            } else if last == '3' {
                arity = 3;
            } else if last == '4' {
                arity = 4;
            }
            if arity > 1 {
                base_len = n - 2;
            }
        }
        let base = name.substring_char(0, base_len);
        let found = Family::from_name(base);
        let r = match found {
            None => None,
            Some(fam) => Format::from_parts(fam, arity),
        };
        proof {
            if arity > 1 {
                assert(name@ =~= base@ + seq!['x', arity_digit(arity as nat)]);
            } else {
                assert(base@ =~= name@);
            }
            if let Some(f) = r {
                lemma_format_for(f.family_of(), arity as int);
            }
            assert forall|f: Format| r is None implies format_name(f) != name@ by {
                if format_name(f) == name@ {
                    let fam = f.family_of();
                    lemma_format_parts(f);
                    lemma_family_names(fam, fam);
                    if f.arity_of() == 1 {
                        assert(base@ == family_name(fam));
                    } else {
                        assert(name@[n - 2] == 'x');
                        assert(name@[n - 1] == arity_digit(f.arity_of()));
                        assert(base@ =~= family_name(fam));
                    }
                    if let Some(g) = found {
                        lemma_family_names(g, fam);
                    }
                }
            }
        }
        r
    }
}

} // verus!
