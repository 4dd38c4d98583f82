//! The integer-width model: the twelve primitive integer representations an
//! enum may declare as its backing type, with their bit masks, signedness,
//! literal ranges and wraparound increment.
//!
//! A discriminant is carried as a `u128` bit pattern confined to the width's
//! mask; [`value_of`] gives the integer the pattern denotes (two's complement
//! for the signed widths). Pointer-sized widths are modeled as 64 bits wide.
use vstd::prelude::*;

verus! {

/// The twelve primitive integer representations an enum may declare.
#[derive(Debug, Clone, Copy, PartialEq, Eq, Structural)]
pub enum PrimitiveRepresentation {
    U8,
    U16,
    U32,
    U64,
    U128,
    Usize,
    I8,
    I16,
    I32,
    I64,
    I128,
    Isize,
}

/// The width's bit mask: every bit pattern of the width is at most this.
pub open spec fn mask_of(w: PrimitiveRepresentation) -> nat {
    match w {
        PrimitiveRepresentation::U8 | PrimitiveRepresentation::I8 => 0xff,
        PrimitiveRepresentation::U16 | PrimitiveRepresentation::I16 => 0xffff,
        PrimitiveRepresentation::U32 | PrimitiveRepresentation::I32 => 0xffff_ffff,
        PrimitiveRepresentation::U64
        | PrimitiveRepresentation::I64
        | PrimitiveRepresentation::Usize
        | PrimitiveRepresentation::Isize => 0xffff_ffff_ffff_ffff,
        PrimitiveRepresentation::U128 | PrimitiveRepresentation::I128 => u128::MAX as nat,
    }
}

/// Whether the width is a signed representation.
pub open spec fn is_signed(w: PrimitiveRepresentation) -> bool {
    match w {
        PrimitiveRepresentation::I8
        | PrimitiveRepresentation::I16
        | PrimitiveRepresentation::I32
        | PrimitiveRepresentation::I64
        | PrimitiveRepresentation::I128
        | PrimitiveRepresentation::Isize => true,
        _ => false,
    }
}

/// The largest value an explicit discriminant literal may take for the
/// width: the width's maximum representable value.
pub open spec fn literal_max(w: PrimitiveRepresentation) -> nat {
    if is_signed(w) {
        mask_of(w) / 2
    } else {
        mask_of(w)
    }
}

/// Wraparound increment of a bit pattern within the width: the mask (the
/// maximum pattern) rolls over to zero.
pub open spec fn wrap_inc(w: PrimitiveRepresentation, bits: nat) -> nat
    recommends
        bits <= mask_of(w),
{
    if bits >= mask_of(w) {
        0
    } else {
        bits + 1
    }
}

/// The integer a bit pattern denotes in the width: the pattern itself for
/// unsigned widths, two's complement for signed ones.
pub open spec fn value_of(w: PrimitiveRepresentation, bits: nat) -> int
    recommends
        bits <= mask_of(w),
{
    if is_signed(w) && bits > mask_of(w) / 2 {
        bits - (mask_of(w) + 1)
    } else {
        bits as int
    }
}

/// The width named by a spelling, if the spelling is one of the twelve
/// recognized ones.
pub open spec fn width_of_spelling(s: Seq<char>) -> Option<PrimitiveRepresentation> {
    if s == "u8"@ {
        Some(PrimitiveRepresentation::U8)
    } else if s == "u16"@ {
        Some(PrimitiveRepresentation::U16)
    } else if s == "u32"@ {
        Some(PrimitiveRepresentation::U32)
    } else if s == "u64"@ {
        Some(PrimitiveRepresentation::U64)
    } else if s == "u128"@ {
        Some(PrimitiveRepresentation::U128)
    } else if s == "usize"@ {
        Some(PrimitiveRepresentation::Usize)
    } else if s == "i8"@ {
        Some(PrimitiveRepresentation::I8)
    } else if s == "i16"@ {
        Some(PrimitiveRepresentation::I16)
    } else if s == "i32"@ {
        Some(PrimitiveRepresentation::I32)
    } else if s == "i64"@ {
        Some(PrimitiveRepresentation::I64)
    } else if s == "i128"@ {
        Some(PrimitiveRepresentation::I128)
    } else if s == "isize"@ {
        Some(PrimitiveRepresentation::Isize)
    } else {
        None
    }
}

/// Character-for-character equality of two string slices.
fn str_eq(a: &str, b: &str) -> (r: bool)
    ensures
        r == (a@ == b@),
{
    let a_len = a.unicode_len();
    let b_len = b.unicode_len();
    if a_len != b_len {
        return false;
    }
    let mut i: usize = 0;
    while i < a_len
        invariant
            0 <= i <= a_len,
            a_len == a@.len(),
            a_len == b@.len(),
            forall|j: int| 0 <= j < i ==> a@[j] == b@[j],
        decreases a_len - i,
    {
        if a.get_char(i) != b.get_char(i) {
            return false;
        }
        i = i + 1;
    }
    proof {
        assert(a@ =~= b@);
    }
    true
}

impl PrimitiveRepresentation {
    /// Parses one of the twelve recognized width spellings; any other
    /// spelling is an unrecognized primitive representation.
    pub fn from_str(s: &str) -> (r: Result<Self, &'static str>)
        ensures
            r matches Ok(w) ==> width_of_spelling(s@) == Some(w),
            r is Err ==> width_of_spelling(s@) is None,
            r matches Err(m) ==> m@ == "Invalid primitive representation"@,
    {
        if str_eq(s, "u8") {
            Ok(PrimitiveRepresentation::U8)
        } else if str_eq(s, "u16") {
            Ok(PrimitiveRepresentation::U16)
        } else if str_eq(s, "u32") {
            Ok(PrimitiveRepresentation::U32)
        } else if str_eq(s, "u64") {
            Ok(PrimitiveRepresentation::U64)
        } else if str_eq(s, "u128") {
            Ok(PrimitiveRepresentation::U128)
        } else if str_eq(s, "usize") {
            Ok(PrimitiveRepresentation::Usize)
        } else if str_eq(s, "i8") {
            Ok(PrimitiveRepresentation::I8)
        } else if str_eq(s, "i16") {
            Ok(PrimitiveRepresentation::I16)
        } else if str_eq(s, "i32") {
            Ok(PrimitiveRepresentation::I32)
        } else if str_eq(s, "i64") {
            Ok(PrimitiveRepresentation::I64)
        } else if str_eq(s, "i128") {
            Ok(PrimitiveRepresentation::I128)
        } else if str_eq(s, "isize") {
            Ok(PrimitiveRepresentation::Isize)
        } else {
            Err("Invalid primitive representation")
        }
    }

    /// The width's bit mask as a machine value.
    pub fn mask(&self) -> (m: u128)
        ensures
            m == mask_of(*self),
    {
        match self {
            PrimitiveRepresentation::U8 | PrimitiveRepresentation::I8 => 0xff,
            PrimitiveRepresentation::U16 | PrimitiveRepresentation::I16 => 0xffff,
            PrimitiveRepresentation::U32 | PrimitiveRepresentation::I32 => 0xffff_ffff,
            PrimitiveRepresentation::U64
            | PrimitiveRepresentation::I64
            | PrimitiveRepresentation::Usize
            | PrimitiveRepresentation::Isize => 0xffff_ffff_ffff_ffff,
            PrimitiveRepresentation::U128 | PrimitiveRepresentation::I128 => u128::MAX,
        }
    }

    /// Whether the width is a signed representation.
    pub fn signed(&self) -> (r: bool)
        ensures
            r == is_signed(*self),
    {
        match self {
            PrimitiveRepresentation::I8
            | PrimitiveRepresentation::I16
            | PrimitiveRepresentation::I32
            | PrimitiveRepresentation::I64
            | PrimitiveRepresentation::I128
            | PrimitiveRepresentation::Isize => true,
            _ => false,
        }
    }

    /// The largest value an explicit discriminant literal may take.
    pub fn literal_limit(&self) -> (r: u128)
        ensures
            r == literal_max(*self),
    {
        let m = self.mask();
        if self.signed() {
            m / 2
        } else {
            m
        }
    }

    /// The width's zero value: where an enum's first variant starts.
    pub fn zero(&self) -> (r: u128)
        ensures
            r == 0,
    {
        0
    }

    /// Wraparound increment of a bit pattern within the width; the maximum
    /// pattern rolls over to zero, never an error.
    pub fn increment(&self, bits: u128) -> (r: u128)
        requires
            bits <= mask_of(*self),
        ensures
            r == wrap_inc(*self, bits as nat),
            r <= mask_of(*self),
    {
        let m = self.mask();
        if bits >= m {
            0
        } else {
            bits + 1
        }
    }
}

} // verus!
