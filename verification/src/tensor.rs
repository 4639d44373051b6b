//! Descriptions of the buffers that a request can carry into the engine.

use vstd::prelude::*;
use vstd::slice::slice_to_vec;
use crate::error::{Error, ErrorKind, wrapped};

verus! {

/// How the elements of a tensor are encoded.
#[derive(Clone, Copy, Debug, PartialEq, Eq, Structural)]
pub enum DataType {
    Bool,
    Uint8,
    Int8,
    Int32,
    Int64,
    Bf16,
    Fp8,
    Fp16,
    Fp32,
    Unknown,
}

/// The topology of a model, fixed when its engine is opened.
#[derive(Clone, Copy, Debug, PartialEq, Eq, Structural)]
pub enum ModelType {
    DecoderOnly,
    EncoderOnly,
    EncoderDecoder,
}

/// The dimension sizes of a tensor, outermost first.
#[derive(Debug)]
pub struct Shape {
    dims: Vec<usize>,
}

impl View for Shape {
    type V = Seq<usize>;

    closed spec fn view(&self) -> Seq<usize> {
        self.dims@
    }
}

impl Shape {
    /// A shape with the given dimension sizes.
    pub fn new(dims: &[usize]) -> (s: Shape)
        ensures
            s@ == dims@,
    {
        Shape { dims: slice_to_vec(dims) }
    }

    /// The dimension sizes.
    pub fn dims(&self) -> (d: &[usize])
        ensures
            d@ == self@,
    {
        self.dims.as_slice()
    }

    /// The number of dimensions.
    pub fn rank(&self) -> (n: usize)
        ensures
            n == self@.len(),
    {
        self.dims.len()
    }
}

/// A buffer of the engine's, known here by its element type and its shape.
/// The shape it was made of belongs to it.
#[derive(Debug)]
pub struct Tensor {
    data_type: DataType,
    shape: Shape,
}

/// A tensor as a mathematical value.
pub struct TensorView {
    pub data_type: DataType,
    pub shape: Seq<usize>,
}

impl View for Tensor {
    type V = TensorView;

    closed spec fn view(&self) -> TensorView {
        TensorView { data_type: self.data_type, shape: self.shape@ }
    }
}

impl Tensor {
    /// Records the tensor that the engine made of `shape`, or the engine's
    /// refusal to make it. The shape is consumed either way.
    pub fn of(
        data_type: DataType,
        shape: Shape,
        verdict: Result<(), String>,
    ) -> (r: Result<Tensor, Error>)
        ensures
            match verdict {
                Ok(_) => r is Ok && r->Ok_0@ == (TensorView { data_type, shape: shape@ }),
                Err(reason) => r is Err && r->Err_0.kind == ErrorKind::ConfigurationError
                    && r->Err_0.message@ == wrapped("Failed to create tensor"@, reason@),
            },
    {
        match verdict {
            Ok(_) => Ok(Tensor { data_type, shape }),
            Err(reason) => Err(
                Error::wrap(ErrorKind::ConfigurationError, "Failed to create tensor", reason.as_str()),
            ),
        }
    }

    /// The element type.
    pub fn data_type(&self) -> (d: DataType)
        ensures
            d == self@.data_type,
    {
        self.data_type
    }

    /// The shape.
    pub fn shape(&self) -> (s: &Shape)
        ensures
            s@ == self@.shape,
    {
        &self.shape
    }
}

} // verus!
