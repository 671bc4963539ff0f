//! Shape and element type of a buffer handed to the native engine.
use vstd::prelude::*;

verus! {

/// The most dimensions that the native tensor descriptor can hold.
pub const MAX_RANK: usize = 8;

/// Memory layout of a tensor, as the native engine names it.
#[derive(Clone, Copy, Debug, PartialEq, Eq, Structural)]
pub enum Layout {
    ANY,
    NCHW,
    NHWC,
    NCDHW,
    NDHWC,
    OIHW,
    SCALAR,
    C,
    CHW,
    HW,
    NC,
    CN,
    BLOCKED,
}

/// Element type of a tensor, as the native engine names it.
#[derive(Clone, Copy, Debug, PartialEq, Eq, Structural)]
pub enum Precision {
    UNSPECIFIED,
    MIXED,
    FP32,
    FP16,
    FP64,
    Q78,
    I16,
    U4,
    U8,
    I4,
    I8,
    U16,
    I32,
    I64,
    U64,
    U32,
    BIN,
    CUSTOM,
}

/// A tensor's layout, dimensions and element type.
#[derive(Debug)]
pub struct TensorDesc {
    layout: Layout,
    dims: Vec<usize>,
    precision: Precision,
}

/// What a descriptor states: layout, dimensions (outermost first), element type.
pub struct TensorShape {
    pub layout: Layout,
    pub dims: Seq<usize>,
    pub precision: Precision,
}

impl View for TensorDesc {
    type V = TensorShape;

    closed spec fn view(&self) -> TensorShape {
        TensorShape { layout: self.layout, dims: self.dims@, precision: self.precision }
    }
}

impl TensorDesc {
    /// A descriptor holds no more dimensions than the native descriptor has room for.
    #[verifier::type_invariant]
    closed spec fn wf(&self) -> bool {
        self.dims@.len() <= MAX_RANK
    }

    /// Describe a tensor of the given layout, dimensions and element type.
    pub fn new(layout: Layout, dimensions: &[usize], precision: Precision) -> (r: TensorDesc)
        requires
            dimensions@.len() <= MAX_RANK,
        ensures
            r@.layout == layout,
            r@.dims == dimensions@,
            r@.precision == precision,
    {
        let mut dims: Vec<usize> = Vec::new();
        let mut i: usize = 0;
        while i < dimensions.len()
            invariant
                i <= dimensions@.len(),
                dims@ == dimensions@.subrange(0, i as int),
            decreases dimensions@.len() - i,
        {
            dims.push(dimensions[i]);
            i = i + 1;
        }
        assert(dims@ == dimensions@);
        TensorDesc { layout, dims, precision }
    }

    /// The memory layout.
    pub fn layout(&self) -> (r: Layout)
        ensures
            r == self@.layout,
    {
        self.layout
    }

    /// The dimensions, outermost first.
    pub fn dims(&self) -> (r: &[usize])
        ensures
            r@ == self@.dims,
            r@.len() <= MAX_RANK,
    {
        proof {
            use_type_invariant(self);
        }
        self.dims.as_slice()
    }

    /// The element type.
    pub fn precision(&self) -> (r: Precision)
        ensures
            r == self@.precision,
    {
        self.precision
    }
}

} // verus!
