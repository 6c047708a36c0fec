//! Route input parameters: their kinds, their identifiers, their values and
//! the ordered collections that hold them.
//!
//! Floating-point quantities are held as their IEEE 754 bit patterns
//! (`f32::to_bits`, `f64::to_bits`).
use indexmap::IndexMap;
use vstd::prelude::*;
use vstd::string::{StringExecFns, StringSliceAdditionalSpecFns};

use crate::laws::lemma_read_after_write;
use crate::parse::{decimal, unsigned_text};
use crate::collections::{
    has_key, inserted, key_index, keys_unique, kind_entries, kinds_get, kinds_get_index, kinds_insert,
    kinds_len, kinds_new, lemma_inserted_unique, value_entries, values_get, values_get_index,
    values_insert, values_len, values_new,
};

verus! {

/// Whether an `u8` bound is the largest `u8`: a minimum left unset.
pub fn is_u8_max(value: &u8) -> (is_max: bool)
    ensures
        is_max == (*value == u8::MAX),
{
    *value == u8::MAX
}

/// Whether an `u8` bound is the smallest `u8`: a maximum left unset.
pub fn is_u8_min(value: &u8) -> (is_min: bool)
    ensures
        is_min == (*value == u8::MIN),
{
    *value == u8::MIN
}

/// The largest `u8`, the maximum of an `u8` parameter read without one.
pub fn u8_max() -> (max: u8)
    ensures
        max == u8::MAX,
{
    u8::MAX
}

/// Whether an `u16` bound is the largest `u16`: a minimum left unset.
pub fn is_u16_max(value: &u16) -> (is_max: bool)
    ensures
        is_max == (*value == u16::MAX),
{
    *value == u16::MAX
}

/// Whether an `u16` bound is the smallest `u16`: a maximum left unset.
pub fn is_u16_min(value: &u16) -> (is_min: bool)
    ensures
        is_min == (*value == u16::MIN),
{
    *value == u16::MIN
}

/// The largest `u16`, the maximum of an `u16` parameter read without one.
pub fn u16_max() -> (max: u16)
    ensures
        max == u16::MAX,
{
    u16::MAX
}

/// Whether an `u32` bound is the largest `u32`: a minimum left unset.
pub fn is_u32_max(value: &u32) -> (is_max: bool)
    ensures
        is_max == (*value == u32::MAX),
{
    *value == u32::MAX
}

/// Whether an `u32` bound is the smallest `u32`: a maximum left unset.
pub fn is_u32_min(value: &u32) -> (is_min: bool)
    ensures
        is_min == (*value == u32::MIN),
{
    *value == u32::MIN
}

/// The largest `u32`, the maximum of an `u32` parameter read without one.
pub fn u32_max() -> (max: u32)
    ensures
        max == u32::MAX,
{
    u32::MAX
}

/// Whether an `u64` bound is the largest `u64`: a minimum left unset.
pub fn is_u64_max(value: &u64) -> (is_max: bool)
    ensures
        is_max == (*value == u64::MAX),
{
    *value == u64::MAX
}

/// Whether an `u64` bound is the smallest `u64`: a maximum left unset.
pub fn is_u64_min(value: &u64) -> (is_min: bool)
    ensures
        is_min == (*value == u64::MIN),
{
    *value == u64::MIN
}

/// The largest `u64`, the maximum of an `u64` parameter read without one.
pub fn u64_max() -> (max: u64)
    ensures
        max == u64::MAX,
{
    u64::MAX
}

/// All route input parameters identifiers.
#[derive(Debug, Clone, Copy, PartialEq, Eq, Structural)]
pub enum ParameterId {
    /// A `bool` value.
    Bool,
    /// An `u8` value.
    U8,
    /// An `u16` value.
    U16,
    /// An `u32` value.
    U32,
    /// An `u64` value.
    U64,
    /// A range of `u64`.
    RangeU64,
    /// A `f32` value.
    F32,
    /// A `f64` value.
    F64,
    /// A range of `f64`.
    RangeF64,
    /// A characters sequence.
    CharsSequence,
}

/// All supported kinds of route input parameters.
#[derive(Debug)]
#[allow(inconsistent_fields)]
pub enum ParameterKind {
    /// A `bool` value.
    Bool {
        /// The initial value, also used when the parameter is missing.
        default: bool,
    },
    /// An `u8` value.
    U8 {
        /// The initial value, also used when the parameter is missing.
        default: u8,
        /// The minimum value allowed.
        min: u8,
        /// The maximum value allowed.
        max: u8,
    },
    /// An `u16` value.
    U16 {
        /// The initial value, also used when the parameter is missing.
        default: u16,
        /// The minimum value allowed.
        min: u16,
        /// The maximum value allowed.
        max: u16,
    },
    /// An `u32` value.
    U32 {
        /// The initial value, also used when the parameter is missing.
        default: u32,
        /// The minimum value allowed.
        min: u32,
        /// The maximum value allowed.
        max: u32,
    },
    /// An `u64` value.
    U64 {
        /// The initial value, also used when the parameter is missing.
        default: u64,
        /// The minimum value allowed.
        min: u64,
        /// The maximum value allowed.
        max: u64,
    },
    /// A `f32` value, each field a bit pattern.
    F32 {
        /// The initial value, also used when the parameter is missing.
        default: u32,
        /// The minimum value allowed.
        min: u32,
        /// The maximum value allowed.
        max: u32,
        /// The decimal step of the value.
        step: u32,
    },
    /// A `f64` value, each field a bit pattern.
    F64 {
        /// The initial value, also used when the parameter is missing.
        default: u64,
        /// The minimum value allowed.
        min: u64,
        /// The maximum value allowed.
        max: u64,
        /// The decimal step of the value.
        step: u64,
    },
    /// A range of `u64` values.
    RangeU64 {
        /// Minimum value allowed.
        min: u64,
        /// Maximum value allowed.
        max: u64,
        /// The step from one allowed value to the next.
        step: u64,
        /// Initial value.
        default: u64,
    },
    /// A range of `f64` values, each field a bit pattern.
    RangeF64 {
        /// Minimum value allowed.
        min: u64,
        /// Maximum value allowed.
        max: u64,
        /// The step from one allowed value to the next; never negative.
        step: u64,
        /// Initial value.
        default: u64,
    },
    /// A characters sequence.
    CharsSequence {
        /// Initial characters sequence, also the default value.
        default: String,
        /// The length in bytes of the characters sequence.
        length: usize,
    },
}

impl Clone for ParameterKind {
    fn clone(&self) -> (kind: Self)
        ensures
            kind == *self,
    {
        match self {
            ParameterKind::Bool { default } => ParameterKind::Bool { default: *default },
            ParameterKind::U8 { default, min, max } => ParameterKind::U8 {
                default: *default,
                min: *min,
                max: *max,
            },
            ParameterKind::U16 { default, min, max } => ParameterKind::U16 {
                default: *default,
                min: *min,
                max: *max,
            },
            ParameterKind::U32 { default, min, max } => ParameterKind::U32 {
                default: *default,
                min: *min,
                max: *max,
            },
            ParameterKind::U64 { default, min, max } => ParameterKind::U64 {
                default: *default,
                min: *min,
                max: *max,
            },
            ParameterKind::F32 { default, min, max, step } => ParameterKind::F32 {
                default: *default,
                min: *min,
                max: *max,
                step: *step,
            },
            ParameterKind::F64 { default, min, max, step } => ParameterKind::F64 {
                default: *default,
                min: *min,
                max: *max,
                step: *step,
            },
            ParameterKind::RangeU64 { min, max, step, default } => ParameterKind::RangeU64 {
                min: *min,
                max: *max,
                step: *step,
                default: *default,
            },
            ParameterKind::RangeF64 { min, max, step, default } => ParameterKind::RangeF64 {
                min: *min,
                max: *max,
                step: *step,
                default: *default,
            },
            ParameterKind::CharsSequence { default, length } => ParameterKind::CharsSequence {
                default: default.clone(),
                length: *length,
            },
        }
    }
}

/// All supported parameter values extracted from or used to construct a
/// request.
#[derive(Debug, PartialEq)]
pub enum ParameterValue {
    /// A `bool` value.
    Bool(bool),
    /// An `u8` value.
    U8(u8),
    /// An `u16` value.
    U16(u16),
    /// An `u32` value.
    U32(u32),
    /// An `u64` value.
    U64(u64),
    /// A `f32` value, as its bit pattern.
    F32(u32),
    /// A `f64` value, as its bit pattern.
    F64(u64),
    /// A characters sequence.
    CharsSequence(String),
}

impl Clone for ParameterValue {
    fn clone(&self) -> (value: Self)
        ensures
            value == *self,
    {
        match self {
            ParameterValue::Bool(v) => ParameterValue::Bool(*v),
            ParameterValue::U8(v) => ParameterValue::U8(*v),
            ParameterValue::U16(v) => ParameterValue::U16(*v),
            ParameterValue::U32(v) => ParameterValue::U32(*v),
            ParameterValue::U64(v) => ParameterValue::U64(*v),
            ParameterValue::F32(v) => ParameterValue::F32(*v),
            ParameterValue::F64(v) => ParameterValue::F64(*v),
            ParameterValue::CharsSequence(v) => ParameterValue::CharsSequence(v.clone()),
        }
    }
}

/// The text that writes a value into a request path: `true` or `false`, an
/// integer in decimal, a characters sequence as it is. A floating-point
/// value has none here: its text is written by the caller.
pub open spec fn value_text(value: ParameterValue) -> Option<Seq<char>> {
    match value {
        ParameterValue::Bool(b) => Some(if b { "true"@ } else { "false"@ }),
        ParameterValue::U8(v) => Some(decimal(v as nat)),
        ParameterValue::U16(v) => Some(decimal(v as nat)),
        ParameterValue::U32(v) => Some(decimal(v as nat)),
        ParameterValue::U64(v) => Some(decimal(v as nat)),
        ParameterValue::F32(_) => None,
        ParameterValue::F64(_) => None,
        ParameterValue::CharsSequence(s) => Some(s@),
    }
}

impl ParameterValue {
    /// Returns the text that writes the value into a request path, or `None`
    /// for a floating-point value.
    pub fn as_string(&self) -> (text: Option<String>)
        ensures
            match value_text(*self) {
                Some(t) => text is Some && text->0@ == t,
                None => text is None,
            },
    {
        match self {
            ParameterValue::Bool(b) => {
                if *b {
                    Some(String::from_str("true"))
                } else {
                    Some(String::from_str("false"))
                }
            },
            ParameterValue::U8(v) => Some(unsigned_text(*v as u64)),
            ParameterValue::U16(v) => Some(unsigned_text(*v as u64)),
            ParameterValue::U32(v) => Some(unsigned_text(*v as u64)),
            ParameterValue::U64(v) => Some(unsigned_text(*v)),
            ParameterValue::F32(_) => None,
            ParameterValue::F64(_) => None,
            ParameterValue::CharsSequence(s) => Some(s.clone()),
        }
    }
}

/// The identifier of a parameter kind.
pub open spec fn kind_id(kind: ParameterKind) -> ParameterId {
    match kind {
        ParameterKind::Bool { .. } => ParameterId::Bool,
        ParameterKind::U8 { .. } => ParameterId::U8,
        ParameterKind::U16 { .. } => ParameterId::U16,
        ParameterKind::U32 { .. } => ParameterId::U32,
        ParameterKind::U64 { .. } => ParameterId::U64,
        ParameterKind::RangeU64 { .. } => ParameterId::RangeU64,
        ParameterKind::F32 { .. } => ParameterId::F32,
        ParameterKind::F64 { .. } => ParameterId::F64,
        ParameterKind::RangeF64 { .. } => ParameterId::RangeF64,
        ParameterKind::CharsSequence { .. } => ParameterId::CharsSequence,
    }
}

/// The identifier of a parameter value. A value carries no range, so no
/// value has a range identifier.
pub open spec fn value_id(value: ParameterValue) -> ParameterId {
    match value {
        ParameterValue::Bool(_) => ParameterId::Bool,
        ParameterValue::U8(_) => ParameterId::U8,
        ParameterValue::U16(_) => ParameterId::U16,
        ParameterValue::U32(_) => ParameterId::U32,
        ParameterValue::U64(_) => ParameterId::U64,
        ParameterValue::F32(_) => ParameterId::F32,
        ParameterValue::F64(_) => ParameterId::F64,
        ParameterValue::CharsSequence(_) => ParameterId::CharsSequence,
    }
}

impl ParameterId {
    /// The name of the identifier.
    pub open spec fn name(self) -> Seq<char> {
        match self {
            ParameterId::Bool => "Bool"@,
            ParameterId::U8 => "U8"@,
            ParameterId::U16 => "U16"@,
            ParameterId::U32 => "U32"@,
            ParameterId::U64 => "U64"@,
            ParameterId::RangeU64 => "RangeU64"@,
            ParameterId::F32 => "F32"@,
            ParameterId::F64 => "F64"@,
            ParameterId::RangeF64 => "RangeF64"@,
            ParameterId::CharsSequence => "String"@,
        }
    }

    /// The Rust type that carries values of the identifier; a range carries
    /// values of its bound type.
    pub open spec fn carrier_type(self) -> Seq<char> {
        match self {
            ParameterId::Bool => "bool"@,
            ParameterId::U8 => "u8"@,
            ParameterId::U16 => "u16"@,
            ParameterId::U32 => "u32"@,
            ParameterId::U64 | ParameterId::RangeU64 => "u64"@,
            ParameterId::F32 => "f32"@,
            ParameterId::F64 | ParameterId::RangeF64 => "f64"@,
            ParameterId::CharsSequence => "String"@,
        }
    }

    /// Converts a [`ParameterKind`] into a [`ParameterId`].
    pub fn from_parameter_kind(parameter_kind: &ParameterKind) -> (id: Self)
        ensures
            id == kind_id(*parameter_kind),
    {
        match parameter_kind {
            ParameterKind::Bool { .. } => ParameterId::Bool,
            ParameterKind::U8 { .. } => ParameterId::U8,
            ParameterKind::U16 { .. } => ParameterId::U16,
            ParameterKind::U32 { .. } => ParameterId::U32,
            ParameterKind::U64 { .. } => ParameterId::U64,
            ParameterKind::RangeU64 { .. } => ParameterId::RangeU64,
            ParameterKind::F32 { .. } => ParameterId::F32,
            ParameterKind::F64 { .. } => ParameterId::F64,
            ParameterKind::RangeF64 { .. } => ParameterId::RangeF64,
            ParameterKind::CharsSequence { .. } => ParameterId::CharsSequence,
        }
    }

    /// Converts a [`ParameterValue`] into a [`ParameterId`].
    pub fn from_parameter_value(parameter_value: &ParameterValue) -> (id: Self)
        ensures
            id == value_id(*parameter_value),
    {
        match parameter_value {
            ParameterValue::Bool(_) => ParameterId::Bool,
            ParameterValue::U8(_) => ParameterId::U8,
            ParameterValue::U16(_) => ParameterId::U16,
            ParameterValue::U32(_) => ParameterId::U32,
            ParameterValue::U64(_) => ParameterId::U64,
            ParameterValue::F32(_) => ParameterId::F32,
            ParameterValue::F64(_) => ParameterId::F64,
            ParameterValue::CharsSequence(_) => ParameterId::CharsSequence,
        }
    }

    /// Shows a [`ParameterId`] as a `&str`.
    pub fn to_str(&self) -> (name: &'static str)
        ensures
            name@ == self.name(),
    {
        match self {
            ParameterId::Bool => "Bool",
            ParameterId::U8 => "U8",
            ParameterId::U16 => "U16",
            ParameterId::U32 => "U32",
            ParameterId::U64 => "U64",
            ParameterId::RangeU64 => "RangeU64",
            ParameterId::F32 => "F32",
            ParameterId::F64 => "F64",
            ParameterId::RangeF64 => "RangeF64",
            ParameterId::CharsSequence => "String",
        }
    }

    /// The type associated with a [`ParameterId`], as a `&str`.
    pub fn as_type(&self) -> (name: &'static str)
        ensures
            name@ == self.carrier_type(),
    {
        match self {
            ParameterId::Bool => "bool",
            ParameterId::U8 => "u8",
            ParameterId::U16 => "u16",
            ParameterId::U32 => "u32",
            ParameterId::U64 | ParameterId::RangeU64 => "u64",
            ParameterId::F32 => "f32",
            ParameterId::F64 | ParameterId::RangeF64 => "f64",
            ParameterId::CharsSequence => "String",
        }
    }
}

/// The value a parameter of the given kind takes by default.
pub open spec fn default_value(kind: ParameterKind) -> ParameterValue {
    match kind {
        ParameterKind::Bool { default } => ParameterValue::Bool(default),
        ParameterKind::U8 { default, .. } => ParameterValue::U8(default),
        ParameterKind::U16 { default, .. } => ParameterValue::U16(default),
        ParameterKind::U32 { default, .. } => ParameterValue::U32(default),
        ParameterKind::U64 { default, .. } => ParameterValue::U64(default),
        ParameterKind::RangeU64 { default, .. } => ParameterValue::U64(default),
        ParameterKind::F32 { default, .. } => ParameterValue::F32(default),
        ParameterKind::F64 { default, .. } => ParameterValue::F64(default),
        ParameterKind::RangeF64 { default, .. } => ParameterValue::F64(default),
        ParameterKind::CharsSequence { default, .. } => ParameterValue::CharsSequence(default),
    }
}

impl ParameterValue {
    /// Creates a [`ParameterValue`] from the default of a [`ParameterKind`].
    pub fn from_parameter_kind(parameter_kind: &ParameterKind) -> (value: Self)
        ensures
            value == default_value(*parameter_kind),
    {
        match parameter_kind {
            ParameterKind::Bool { default } => ParameterValue::Bool(*default),
            ParameterKind::U8 { default, .. } => ParameterValue::U8(*default),
            ParameterKind::U16 { default, .. } => ParameterValue::U16(*default),
            ParameterKind::U32 { default, .. } => ParameterValue::U32(*default),
            ParameterKind::U64 { default, .. } => ParameterValue::U64(*default),
            ParameterKind::RangeU64 { default, .. } => ParameterValue::U64(*default),
            ParameterKind::F32 { default, .. } => ParameterValue::F32(*default),
            ParameterKind::F64 { default, .. } => ParameterValue::F64(*default),
            ParameterKind::RangeF64 { default, .. } => ParameterValue::F64(*default),
            ParameterKind::CharsSequence { default, .. } => ParameterValue::CharsSequence(
                default.clone(),
            ),
        }
    }
}

/// Floating point decimal precision.
#[derive(Debug, Clone, Copy, PartialEq, Eq, Structural)]
pub enum DecimalPrecision {
    /// One digit.
    OneDigit,
    /// Two digits.
    TwoDigits,
    /// Three digits.
    ThreeDigits,
    /// Any digits.
    Any,
}

impl DecimalPrecision {
    /// The step of the precision as a `f32` bit pattern: `0.1`, `0.01`,
    /// `0.001`, or `0` for any precision.
    pub fn to_f32_bits(self) -> (bits: u32)
        ensures
            bits == match self {
                DecimalPrecision::OneDigit => 0x3dcc_cccdu32,
                DecimalPrecision::TwoDigits => 0x3c23_d70au32,
                DecimalPrecision::ThreeDigits => 0x3a83_126fu32,
                DecimalPrecision::Any => 0u32,
            },
    {
        match self {
            DecimalPrecision::OneDigit => 0x3dcc_cccd,
            DecimalPrecision::TwoDigits => 0x3c23_d70a,
            DecimalPrecision::ThreeDigits => 0x3a83_126f,
            DecimalPrecision::Any => 0,
        }
    }

    /// The step of the precision as a `f64` bit pattern: `0.1`, `0.01`,
    /// `0.001`, or `0` for any precision.
    pub fn to_f64_bits(self) -> (bits: u64)
        ensures
            bits == match self {
                DecimalPrecision::OneDigit => 0x3fb9_9999_9999_999au64,
                DecimalPrecision::TwoDigits => 0x3f84_7ae1_47ae_147bu64,
                DecimalPrecision::ThreeDigits => 0x3f50_624d_d2f1_a9fcu64,
                DecimalPrecision::Any => 0u64,
            },
    {
        match self {
            DecimalPrecision::OneDigit => 0x3fb9_9999_9999_999a,
            DecimalPrecision::TwoDigits => 0x3f84_7ae1_47ae_147b,
            DecimalPrecision::ThreeDigits => 0x3f50_624d_d2f1_a9fc,
            DecimalPrecision::Any => 0,
        }
    }
}

/// The bit pattern of the absolute value of the `f64` with bit pattern `bits`:
/// the sign bit cleared.
pub open spec fn f64_abs_bits(bits: u64) -> u64 {
    bits & 0x7fff_ffff_ffff_ffffu64
}

/// A map of route parameter kinds, in insertion order.
pub struct ParametersData(IndexMap<String, ParameterKind>);

impl ParametersData {
    #[verifier::type_invariant]
    spec fn unique_names(self) -> bool {
        keys_unique(kind_entries(self.0))
    }

    /// The named kinds, in insertion order.
    pub closed spec fn entries(&self) -> Seq<(Seq<char>, ParameterKind)> {
        kind_entries(self.0)
    }

    /// Creates an empty [`ParametersData`].
    pub fn new() -> (data: Self)
        ensures
            data.entries() == Seq::<(Seq<char>, ParameterKind)>::empty(),
    {
        ParametersData(kinds_new())
    }

    /// Inserts a kind under a name: an existing name keeps its place and
    /// takes the new kind, a new name goes last.
    pub fn insert(self, name: String, kind: ParameterKind) -> (data: Self)
        ensures
            data.entries() == inserted(self.entries(), name@, kind),
            has_key(data.entries(), name@),
            data.entries()[key_index(data.entries(), name@)].1 == kind,
    {
        proof {
            use_type_invariant(&self);
            lemma_inserted_unique(self.entries(), name@, kind);
            lemma_read_after_write(self.entries(), name@, kind);
        }
        let ParametersData(mut map) = self;
        kinds_insert(&mut map, name, kind);
        ParametersData(map)
    }

    /// Whether no kind is held.
    pub fn is_empty(&self) -> (empty: bool)
        ensures
            empty == (self.entries().len() == 0),
    {
        kinds_len(&self.0) == 0
    }

    /// The number of kinds held.
    pub fn len(&self) -> (n: usize)
        ensures
            n == self.entries().len(),
    {
        kinds_len(&self.0)
    }

    /// The kind held under a name, if any.
    pub fn get(&self, name: &str) -> (kind: Option<&ParameterKind>)
        ensures
            match kind {
                Some(k) => has_key(self.entries(), name@) && *k == self.entries()[key_index(
                    self.entries(),
                    name@,
                )].1,
                None => !has_key(self.entries(), name@),
            },
    {
        proof {
            use_type_invariant(self);
        }
        kinds_get(&self.0, name)
    }

    /// The name and kind at a position of the insertion order, if any.
    pub fn get_index(&self, index: usize) -> (entry: Option<(&String, &ParameterKind)>)
        ensures
            index < self.entries().len() <==> entry is Some,
            entry matches Some(e) ==> e.0@ == self.entries()[index as int].0 && *e.1
                == self.entries()[index as int].1,
    {
        kinds_get_index(&self.0, index)
    }
}

/// Route input parameters.
pub struct Parameters(IndexMap<String, ParameterKind>);

impl Parameters {
    #[verifier::type_invariant]
    spec fn unique_names(self) -> bool {
        keys_unique(kind_entries(self.0))
    }

    /// The named kinds, in insertion order.
    pub closed spec fn entries(&self) -> Seq<(Seq<char>, ParameterKind)> {
        kind_entries(self.0)
    }

    /// Creates a [`Parameters`].
    pub fn new() -> (parameters: Self)
        ensures
            parameters.entries() == Seq::<(Seq<char>, ParameterKind)>::empty(),
    {
        Parameters(kinds_new())
    }

    /// Adds a `bool` parameter.
    pub fn bool(self, name: &str, default: bool) -> (parameters: Self)
        ensures
            parameters.entries() == inserted(
                self.entries(),
                name@,
                ParameterKind::Bool { default },
            ),
    {
        self.create_parameter(name, ParameterKind::Bool { default })
    }

    /// Adds an `u8` parameter without limits: its minimum is the largest
    /// `u8` and its maximum the smallest.
    pub fn u8(self, name: &str, default: u8) -> (parameters: Self)
        ensures
            parameters.entries() == inserted(
                self.entries(),
                name@,
                ParameterKind::U8 { default, min: u8::MAX, max: u8::MIN },
            ),
    {
        self.create_parameter(name, ParameterKind::U8 { default, min: u8::MAX, max: u8::MIN })
    }

    /// Adds an `u8` parameter with limits.
    pub fn u8_with_limits(self, name: &str, default: u8, min: u8, max: u8) -> (parameters: Self)
        ensures
            parameters.entries() == inserted(
                self.entries(),
                name@,
                ParameterKind::U8 { default, min, max },
            ),
    {
        self.create_parameter(name, ParameterKind::U8 { default, min, max })
    }

    /// Adds an `u16` parameter without limits: its minimum is the largest
    /// `u16` and its maximum the smallest.
    pub fn u16(self, name: &str, default: u16) -> (parameters: Self)
        ensures
            parameters.entries() == inserted(
                self.entries(),
                name@,
                ParameterKind::U16 { default, min: u16::MAX, max: u16::MIN },
            ),
    {
        self.create_parameter(name, ParameterKind::U16 { default, min: u16::MAX, max: u16::MIN })
    }

    /// Adds an `u16` parameter with limits.
    pub fn u16_with_limits(self, name: &str, default: u16, min: u16, max: u16) -> (parameters: Self)
        ensures
            parameters.entries() == inserted(
                self.entries(),
                name@,
                ParameterKind::U16 { default, min, max },
            ),
    {
        self.create_parameter(name, ParameterKind::U16 { default, min, max })
    }

    /// Adds an `u32` parameter without limits: its minimum is the largest
    /// `u32` and its maximum the smallest.
    pub fn u32(self, name: &str, default: u32) -> (parameters: Self)
        ensures
            parameters.entries() == inserted(
                self.entries(),
                name@,
                ParameterKind::U32 { default, min: u32::MAX, max: u32::MIN },
            ),
    {
        self.create_parameter(name, ParameterKind::U32 { default, min: u32::MAX, max: u32::MIN })
    }

    /// Adds an `u32` parameter with limits.
    pub fn u32_with_limits(self, name: &str, default: u32, min: u32, max: u32) -> (parameters: Self)
        ensures
            parameters.entries() == inserted(
                self.entries(),
                name@,
                ParameterKind::U32 { default, min, max },
            ),
    {
        self.create_parameter(name, ParameterKind::U32 { default, min, max })
    }

    /// Adds an `u64` parameter without limits: its minimum is the largest
    /// `u64` and its maximum the smallest.
    pub fn u64(self, name: &str, default: u64) -> (parameters: Self)
        ensures
            parameters.entries() == inserted(
                self.entries(),
                name@,
                ParameterKind::U64 { default, min: u64::MAX, max: u64::MIN },
            ),
    {
        self.create_parameter(name, ParameterKind::U64 { default, min: u64::MAX, max: u64::MIN })
    }

    /// Adds an `u64` parameter with limits.
    pub fn u64_with_limits(self, name: &str, default: u64, min: u64, max: u64) -> (parameters: Self)
        ensures
            parameters.entries() == inserted(
                self.entries(),
                name@,
                ParameterKind::U64 { default, min, max },
            ),
    {
        self.create_parameter(name, ParameterKind::U64 { default, min, max })
    }

    /// Adds a `f32` parameter without limits, given the bit pattern of its
    /// default: its minimum is the largest finite `f32` (`0x7f7f_ffff`), its
    /// maximum the lowest (`0xff7f_ffff`), and its step zero.
    pub fn f32_bits(self, name: &str, default: u32) -> (parameters: Self)
        ensures
            parameters.entries() == inserted(
                self.entries(),
                name@,
                ParameterKind::F32 { default, min: 0x7f7f_ffff, max: 0xff7f_ffff, step: 0 },
            ),
    {
        self.create_parameter(
            name,
            ParameterKind::F32 { default, min: 0x7f7f_ffff, max: 0xff7f_ffff, step: 0 },
        )
    }

    /// Adds a `f32` parameter with limits and a decimal precision, all given
    /// as bit patterns.
    pub fn f32_with_limits(
        self,
        name: &str,
        default: u32,
        min: u32,
        max: u32,
        decimal_precision: DecimalPrecision,
    ) -> (parameters: Self)
        ensures
            parameters.entries() == inserted(
                self.entries(),
                name@,
                ParameterKind::F32 {
                    default,
                    min,
                    max,
                    step: match decimal_precision {
                        DecimalPrecision::OneDigit => 0x3dcc_cccdu32,
                        DecimalPrecision::TwoDigits => 0x3c23_d70au32,
                        DecimalPrecision::ThreeDigits => 0x3a83_126fu32,
                        DecimalPrecision::Any => 0u32,
                    },
                },
            ),
    {
        let step = decimal_precision.to_f32_bits();
        self.create_parameter(name, ParameterKind::F32 { default, min, max, step })
    }

    /// Adds a `f64` parameter without limits, given the bit pattern of its
    /// default: its minimum is the largest finite `f64`, its maximum the
    /// lowest, and its step zero.
    pub fn f64_bits(self, name: &str, default: u64) -> (parameters: Self)
        ensures
            parameters.entries() == inserted(
                self.entries(),
                name@,
                ParameterKind::F64 {
                    default,
                    min: 0x7fef_ffff_ffff_ffff,
                    max: 0xffef_ffff_ffff_ffff,
                    step: 0,
                },
            ),
    {
        self.create_parameter(
            name,
            ParameterKind::F64 {
                default,
                min: 0x7fef_ffff_ffff_ffff,
                max: 0xffef_ffff_ffff_ffff,
                step: 0,
            },
        )
    }

    /// Adds a `f64` parameter with limits and a decimal precision, all given
    /// as bit patterns.
    pub fn f64_with_limits(
        self,
        name: &str,
        default: u64,
        min: u64,
        max: u64,
        decimal_precision: DecimalPrecision,
    ) -> (parameters: Self)
        ensures
            parameters.entries() == inserted(
                self.entries(),
                name@,
                ParameterKind::F64 {
                    default,
                    min,
                    max,
                    step: match decimal_precision {
                        DecimalPrecision::OneDigit => 0x3fb9_9999_9999_999au64,
                        DecimalPrecision::TwoDigits => 0x3f84_7ae1_47ae_147bu64,
                        DecimalPrecision::ThreeDigits => 0x3f50_624d_d2f1_a9fcu64,
                        DecimalPrecision::Any => 0u64,
                    },
                },
            ),
    {
        let step = decimal_precision.to_f64_bits();
        self.create_parameter(name, ParameterKind::F64 { default, min, max, step })
    }

    /// Adds an `u64` range with a zero default.
    pub fn rangeu64(self, name: &str, range: (u64, u64, u64)) -> (parameters: Self)
        ensures
            parameters.entries() == inserted(
                self.entries(),
                name@,
                ParameterKind::RangeU64 { min: range.0, max: range.1, step: range.2, default: 0 },
            ),
    {
        self.rangeu64_with_default(name, range, 0)
    }

    /// Adds an `u64` range with a default value.
    pub fn rangeu64_with_default(self, name: &str, range: (u64, u64, u64), default: u64) -> (parameters: Self)
        ensures
            parameters.entries() == inserted(
                self.entries(),
                name@,
                ParameterKind::RangeU64 { min: range.0, max: range.1, step: range.2, default },
            ),
    {
        self.create_parameter(
            name,
            ParameterKind::RangeU64 { min: range.0, max: range.1, step: range.2, default },
        )
    }

    /// Adds a `f64` range, as bit patterns, with a zero default.
    pub fn rangef64(self, name: &str, range: (u64, u64, u64)) -> (parameters: Self)
        ensures
            parameters.entries() == inserted(
                self.entries(),
                name@,
                ParameterKind::RangeF64 {
                    min: range.0,
                    max: range.1,
                    step: f64_abs_bits(range.2),
                    default: 0,
                },
            ),
    {
        self.rangef64_with_default(name, range, 0)
    }

    /// Adds a `f64` range with a default value, as bit patterns; the step
    /// is taken as its absolute value.
    pub fn rangef64_with_default(self, name: &str, range: (u64, u64, u64), default: u64) -> (parameters: Self)
        ensures
            parameters.entries() == inserted(
                self.entries(),
                name@,
                ParameterKind::RangeF64 {
                    min: range.0,
                    max: range.1,
                    step: f64_abs_bits(range.2),
                    default,
                },
            ),
    {
        let step = range.2 & 0x7fff_ffff_ffff_ffff;
        self.create_parameter(
            name,
            ParameterKind::RangeF64 { min: range.0, max: range.1, step, default },
        )
    }

    /// Adds a characters sequence whose length is that of its default, in
    /// bytes.
    pub fn characters_sequence(self, name: &str, default: &str) -> (parameters: Self)
        ensures
            exists|kind: ParameterKind|
                {
                    &&& kind matches ParameterKind::CharsSequence { default: text, length }
                    &&& text@ == default@
                    &&& length == default.len()
                    &&& parameters.entries() == #[trigger] inserted(self.entries(), name@, kind)
                },
    {
        let length = default.len();
        let value = String::from_str(default);
        let kind = ParameterKind::CharsSequence { default: value, length };
        let ghost witness = kind;
        let parameters = self.create_parameter(name, kind);
        assert(parameters.entries() == inserted(self.entries(), name@, witness));
        parameters
    }

    /// Serializes [`Parameters`] data, keeping its order.
    pub fn serialize_data(self) -> (data: ParametersData)
        ensures
            data.entries() == self.entries(),
    {
        proof {
            use_type_invariant(&self);
        }
        let Parameters(map) = self;
        ParametersData(map)
    }

    /// Inserts a kind under a name: an existing name keeps its place and
    /// takes the new kind, a new name goes last.
    pub fn create_parameter(self, name: &str, parameter_kind: ParameterKind) -> (parameters: Self)
        ensures
            parameters.entries() == inserted(self.entries(), name@, parameter_kind),
            has_key(parameters.entries(), name@),
            parameters.entries()[key_index(parameters.entries(), name@)].1 == parameter_kind,
    {
        proof {
            use_type_invariant(&self);
            lemma_inserted_unique(self.entries(), name@, parameter_kind);
            lemma_read_after_write(self.entries(), name@, parameter_kind);
        }
        let Parameters(mut map) = self;
        kinds_insert(&mut map, String::from_str(name), parameter_kind);
        Parameters(map)
    }
}

/// Route input parameters values.
pub struct ParametersValues(IndexMap<String, ParameterValue>);

impl ParametersValues {
    #[verifier::type_invariant]
    spec fn unique_names(self) -> bool {
        keys_unique(value_entries(self.0))
    }

    /// The named values, in insertion order.
    pub closed spec fn entries(&self) -> Seq<(Seq<char>, ParameterValue)> {
        value_entries(self.0)
    }

    /// Creates [`ParametersValues`].
    pub fn new() -> (values: Self)
        ensures
            values.entries() == Seq::<(Seq<char>, ParameterValue)>::empty(),
    {
        ParametersValues(values_new())
    }

    /// Adds a [`ParameterValue`]: an existing name keeps its place and takes
    /// the new value, a new name goes last.
    pub fn parameter_value(&mut self, name: &str, parameter_value: ParameterValue)
        ensures
            final(self).entries() == inserted(old(self).entries(), name@, parameter_value),
            has_key(final(self).entries(), name@),
            final(self).entries()[key_index(final(self).entries(), name@)].1 == parameter_value,
    {
        proof {
            use_type_invariant(&*self);
            lemma_inserted_unique(self.entries(), name@, parameter_value);
            lemma_read_after_write(self.entries(), name@, parameter_value);
        }
        let mut map = values_new();
        std::mem::swap(&mut map, &mut self.0);
        values_insert(&mut map, String::from_str(name), parameter_value);
        self.0 = map;
    }

    /// Adds a `bool` value.
    pub fn bool(&mut self, name: &str, value: bool)
        ensures
            final(self).entries() == inserted(
                old(self).entries(),
                name@,
                ParameterValue::Bool(value),
            ),
    {
        self.parameter_value(name, ParameterValue::Bool(value))
    }

    /// Adds an `u8` value.
    pub fn u8(&mut self, name: &str, value: u8)
        ensures
            final(self).entries() == inserted(old(self).entries(), name@, ParameterValue::U8(value)),
    {
        self.parameter_value(name, ParameterValue::U8(value))
    }

    /// Adds an `u16` value.
    pub fn u16(&mut self, name: &str, value: u16)
        ensures
            final(self).entries() == inserted(
                old(self).entries(),
                name@,
                ParameterValue::U16(value),
            ),
    {
        self.parameter_value(name, ParameterValue::U16(value))
    }

    /// Adds an `u32` value.
    pub fn u32(&mut self, name: &str, value: u32)
        ensures
            final(self).entries() == inserted(
                old(self).entries(),
                name@,
                ParameterValue::U32(value),
            ),
    {
        self.parameter_value(name, ParameterValue::U32(value))
    }

    /// Adds an `u64` value.
    pub fn u64(&mut self, name: &str, value: u64)
        ensures
            final(self).entries() == inserted(
                old(self).entries(),
                name@,
                ParameterValue::U64(value),
            ),
    {
        self.parameter_value(name, ParameterValue::U64(value))
    }

    /// Adds a `f32` value, as its bit pattern.
    pub fn f32_bits(&mut self, name: &str, value: u32)
        ensures
            final(self).entries() == inserted(
                old(self).entries(),
                name@,
                ParameterValue::F32(value),
            ),
    {
        self.parameter_value(name, ParameterValue::F32(value))
    }

    /// Adds a `f64` value, as its bit pattern.
    pub fn f64_bits(&mut self, name: &str, value: u64)
        ensures
            final(self).entries() == inserted(
                old(self).entries(),
                name@,
                ParameterValue::F64(value),
            ),
    {
        self.parameter_value(name, ParameterValue::F64(value))
    }

    /// Adds a characters sequence.
    pub fn characters_sequence(&mut self, name: &str, value: String)
        ensures
            final(self).entries() == inserted(
                old(self).entries(),
                name@,
                ParameterValue::CharsSequence(value),
            ),
    {
        self.parameter_value(name, ParameterValue::CharsSequence(value))
    }

    /// Retrieves the [`ParameterValue`] by name; [`None`] when the parameter
    /// does not exist.
    pub fn get(&self, name: &str) -> (value: Option<&ParameterValue>)
        ensures
            match value {
                Some(v) => has_key(self.entries(), name@) && *v == self.entries()[key_index(
                    self.entries(),
                    name@,
                )].1,
                None => !has_key(self.entries(), name@),
            },
    {
        proof {
            use_type_invariant(self);
        }
        values_get(&self.0, name)
    }

    /// The number of values held.
    pub fn len(&self) -> (n: usize)
        ensures
            n == self.entries().len(),
    {
        values_len(&self.0)
    }

    /// The name and value at a position of the insertion order, if any.
    pub fn get_index(&self, index: usize) -> (entry: Option<(&String, &ParameterValue)>)
        ensures
            index < self.entries().len() <==> entry is Some,
            entry matches Some(e) ==> e.0@ == self.entries()[index as int].0 && *e.1
                == self.entries()[index as int].1,
    {
        values_get_index(&self.0, index)
    }
}

} // verus!
