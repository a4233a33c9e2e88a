//! Tensor metadata reported by a compiled engine.
use vstd::prelude::*;

verus! {

/// Element type of an engine's I/O tensor.
#[derive(Copy, Clone, Debug, PartialEq, Eq, Structural)]
pub enum DataType {
    /// 32-bit floating point format.
    Float,
    /// IEEE 16-bit floating point format.
    Half,
    /// Signed 8-bit integer representing a quantized floating point value.
    Int8,
    /// Signed 32-bit integer format.
    Int32,
    /// 8-bit boolean.
    Bool,
    /// Unsigned 8-bit integer format.
    Uint8,
    /// Signed 8-bit floating point with 4 exponent and 3 mantissa bits.
    Fp8,
    /// Brain float: 8 exponent bits and 8 significand bits.
    Bf16,
    /// Signed 64-bit integer type.
    Int64,
    /// Signed 4-bit integer type.
    Int4,
    /// 4-bit floating point type.
    Fp4,
}

/// The native library's numeric code for each data type.
pub open spec fn data_type_code(t: DataType) -> int {
    match t {
        DataType::Float => 0,
        DataType::Half => 1,
        DataType::Int8 => 2,
        DataType::Int32 => 3,
        DataType::Bool => 4,
        DataType::Uint8 => 5,
        DataType::Fp8 => 6,
        DataType::Bf16 => 7,
        DataType::Int64 => 8,
        DataType::Int4 => 9,
        DataType::Fp4 => 10,
    }
}

/// Codes that name a data type this library knows.
pub open spec fn known_data_type_code(code: int) -> bool {
    0 <= code <= 10
}

impl DataType {
    /// Whether `code` is a native data-type code that this library can decode.
    pub fn is_known_code(code: i32) -> (r: bool)
        ensures
            r == known_data_type_code(code as int),
    {
        0 <= code && code <= 10
    }

    /// Decodes a native data-type code.
    ///
    /// An unknown code means the native library is of a version this wrapper
    /// does not support; callers must treat it as fatal before calling.
    pub fn from_code(code: i32) -> (r: DataType)
        requires
            known_data_type_code(code as int),
        ensures
            data_type_code(r) == code as int,
    {
        match code {
            0 => DataType::Float,
            1 => DataType::Half,
            2 => DataType::Int8,
            3 => DataType::Int32,
            4 => DataType::Bool,
            5 => DataType::Uint8,
            6 => DataType::Fp8,
            7 => DataType::Bf16,
            8 => DataType::Int64,
            9 => DataType::Int4,
            _ => DataType::Fp4,
        }
    }
}

/// Whether a tensor is an input, an output, or neither.
#[derive(Copy, Clone, Debug, PartialEq, Eq, Structural)]
pub enum TensorIoMode {
    Neither,
    Input,
    Output,
}

/// The I/O mode a native mode code stands for: 1 is input, 2 is output, and
/// every other code means the tensor is not an I/O tensor.
pub open spec fn io_mode_of(value: int) -> TensorIoMode {
    if value == 1 {
        TensorIoMode::Input
    } else if value == 2 {
        TensorIoMode::Output
    } else {
        TensorIoMode::Neither
    }
}

impl TensorIoMode {
    /// Create a [`TensorIoMode`] from its integer representation.
    pub fn from_i32(value: i32) -> (r: TensorIoMode)
        ensures
            r == io_mode_of(value as int),
    {
        match value {
            1 => TensorIoMode::Input,
            2 => TensorIoMode::Output,
            _ => TensorIoMode::Neither,
        }
    }
}

/// Shape of a tensor as reported natively: the first `nb_dims` entries of
/// `d`, each read as an unsigned size (no entries when `nb_dims` is negative).
pub open spec fn shape_of(nb_dims: int, d: Seq<i64>) -> Seq<usize> {
    Seq::new(if nb_dims < 0 { 0 } else { nb_dims as nat }, |i: int| #[verifier::truncate] (d[i] as usize))
}

/// Converts a native dimension record into a tensor shape.
pub fn shape_from_dims(nb_dims: i32, d: &[i64]) -> (r: Vec<usize>)
    requires
        nb_dims <= d@.len(),
    ensures
        r@ == shape_of(nb_dims as int, d@),
{
    let mut dimensions: Vec<usize> = Vec::new();
    let mut i: i32 = 0;
    while i < nb_dims
        invariant
            0 <= i,
            nb_dims <= d@.len(),
            nb_dims < 0 ==> i == 0,
            nb_dims >= 0 ==> i <= nb_dims,
            dimensions@.len() == i,
            forall|j: int| 0 <= j < i ==> dimensions@[j] == #[verifier::truncate] (d@[j] as usize),
        decreases nb_dims - i,
    {
        let v: i64 = d[i as usize];
        let dim: usize = #[verifier::truncate] (v as usize);
        dimensions.push(dim);
        i = i + 1;
    }
    assert(dimensions@ =~= shape_of(nb_dims as int, d@));
    dimensions
}

} // verus!
