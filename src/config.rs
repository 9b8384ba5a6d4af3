use vstd::prelude::*;

verus! {

/// Address that the capture agent binds its send endpoint to.
pub const CAPTURE_BIND_ADDRESS: &'static str = "tcp://*:5555";

/// Address that the inference agent connects to when none is configured.
pub const DEFAULT_CHANNEL_ADDRESS: &'static str = "tcp://localhost:5555";

/// Model file that the inference agent loads when none is configured.
pub const DEFAULT_MODEL_PATH: &'static str = "model.onnx";

/// The configured value when there is one, else the default.
pub fn setting_or(value: Option<String>, default: &str) -> (r: String)
    ensures
        r@ == match value {
            Some(v) => v@,
            None => default@,
        },
{
    match value {
        Some(v) => v,
        None => default.to_string(),
    }
}

/// Why a tensor shape is refused.
#[derive(Clone, Copy, Debug, PartialEq, Eq, Structural)]
pub enum ShapeError {
    /// The shape has no dimension.
    NoDimensions,
    /// A dimension has extent zero.
    ZeroExtent,
    /// The number of elements does not fit in `usize`.
    TooLarge,
}

/// The number of elements of a tensor with these extents.
pub open spec fn dims_product(dims: Seq<usize>) -> int
    decreases dims.len(),
{
    if dims.len() == 0 {
        1
    } else {
        dims_product(dims.drop_last()) * dims.last() as int
    }
}

/// Whether some extent is zero.
pub open spec fn has_zero_extent(dims: Seq<usize>) -> bool {
    exists|i: int| 0 <= i < dims.len() && dims[i] == 0
}

/// With no zero extent, the product of a prefix is at most the product of the whole.
proof fn lemma_prefix_product_le(dims: Seq<usize>, k: int)
    requires
        0 <= k <= dims.len(),
        !has_zero_extent(dims),
    ensures
        1 <= dims_product(dims.subrange(0, k)) <= dims_product(dims),
    decreases dims.len() - k,
{
    if k < dims.len() {
        lemma_prefix_product_le(dims, k + 1);
        let p = dims.subrange(0, k + 1);
        assert(p.drop_last() =~= dims.subrange(0, k));
        assert(p.last() == dims[k]);
        assert(dims[k] != 0);
        let q = dims.subrange(0, k);
        assert(!has_zero_extent(q)) by {
            assert forall|i: int| 0 <= i < q.len() implies q[i] != 0 by {
                assert(q[i] == dims[i]);
            }
        }
        lemma_product_positive(q);
        let a = dims_product(q);
        let b = dims[k] as int;
        assert(a * b >= a) by (nonlinear_arith)
            requires
                a >= 1,
                b >= 1,
        ;
    } else {
        assert(dims.subrange(0, k) =~= dims);
        lemma_product_positive(dims);
    }
}

proof fn lemma_product_positive(dims: Seq<usize>)
    requires
        !has_zero_extent(dims),
    ensures
        dims_product(dims) >= 1,
    decreases dims.len(),
{
    if dims.len() > 0 {
        let d = dims.drop_last();
        assert(!has_zero_extent(d)) by {
            assert forall|i: int| 0 <= i < d.len() implies d[i] != 0 by {
                assert(d[i] == dims[i]);
            }
        }
        lemma_product_positive(d);
        assert(dims[dims.len() - 1] != 0);
        let a = dims_product(d);
        let b = dims.last() as int;
        assert(a * b >= 1) by (nonlinear_arith)
            requires
                a >= 1,
                b >= 1,
        ;
    }
}

/// The shape of the model's input tensor, checked once at startup.
pub struct InputShape {
    dims: Vec<usize>,
    elements: usize,
}

impl View for InputShape {
    type V = Seq<usize>;

    closed spec fn view(&self) -> Seq<usize> {
        self.dims@
    }
}

impl InputShape {
    /// The extents hold the stored element count, none of them is zero and there is one at least.
    pub closed spec fn wf(&self) -> bool {
        &&& self.dims@.len() > 0
        &&& !has_zero_extent(self.dims@)
        &&& self.elements as int == dims_product(self.dims@)
    }

    /// Checks the extents: refused when there is none, when one is zero, or
    /// when the element count does not fit in `usize`.
    pub fn new(dims: Vec<usize>) -> (r: Result<InputShape, ShapeError>)
        ensures
            dims@.len() == 0 <==> r == Err::<InputShape, ShapeError>(ShapeError::NoDimensions),
            (dims@.len() > 0 && has_zero_extent(dims@)) <==> r == Err::<InputShape, ShapeError>(
                ShapeError::ZeroExtent,
            ),
            (dims@.len() > 0 && !has_zero_extent(dims@) && dims_product(dims@) > usize::MAX)
                <==> r == Err::<InputShape, ShapeError>(ShapeError::TooLarge),
            r is Ok ==> r->Ok_0.wf() && r->Ok_0@ == dims@,
    {
        if dims.len() == 0 {
            return Err(ShapeError::NoDimensions);
        }
        let mut i: usize = 0;
        while i < dims.len()
            invariant
                0 <= i <= dims@.len(),
                forall|j: int| 0 <= j < i ==> dims@[j] != 0,
            decreases dims@.len() - i,
        {
            if dims[i] == 0 {
                return Err(ShapeError::ZeroExtent);
            }
            i = i + 1;
        }
        let mut product: usize = 1;
        let mut k: usize = 0;
        while k < dims.len()
            invariant
                0 <= k <= dims@.len(),
                !has_zero_extent(dims@),
                product as int == dims_product(dims@.subrange(0, k as int)),
            decreases dims@.len() - k,
        {
            proof {
                let p = dims@.subrange(0, k + 1);
                assert(p.drop_last() =~= dims@.subrange(0, k as int));
            }
            match product.checked_mul(dims[k]) {
                Some(p) => {
                    product = p;
                },
                None => {
                    proof {
                        lemma_prefix_product_le(dims@, k + 1);
                    }
                    return Err(ShapeError::TooLarge);
                },
            }
            k = k + 1;
        }
        proof {
            assert(dims@.subrange(0, dims@.len() as int) =~= dims@);
        }
        Ok(InputShape { dims, elements: product })
    }

    /// The input that the model expects: one image of three channels, 224 by 224.
    pub fn model_input() -> (r: InputShape)
        ensures
            r.wf(),
            r@ == seq![1usize, 3, 224, 224],
            dims_product(r@) == 150528,
    {
        let dims: Vec<usize> = vec![1, 3, 224, 224];
        proof {
            let d = dims@;
            assert(d =~= seq![1usize, 3, 224, 224]);
            let d3 = d.drop_last();
            let d2 = d3.drop_last();
            let d1 = d2.drop_last();
            assert(d1 =~= seq![1usize]);
            assert(d1.drop_last() =~= Seq::<usize>::empty());
            assert(dims_product(Seq::<usize>::empty()) == 1);
            assert(d1.last() == 1);
            assert(d2.last() == 3);
            assert(d3.last() == 224);
            assert(d.last() == 224);
            assert(dims_product(d1) == 1);
            assert(dims_product(d2) == 3);
            assert(dims_product(d3) == 672);
            assert(dims_product(d) == 150528);
            assert(!has_zero_extent(d)) by {
                assert forall|i: int| 0 <= i < d.len() implies d[i] != 0 by {}
            }
        }
        InputShape { dims, elements: 150528 }
    }

    /// The number of elements of a tensor of this shape.
    pub fn elements(&self) -> (r: usize)
        requires
            self.wf(),
        ensures
            r as int == dims_product(self@),
    {
        self.elements
    }

    /// The extents, outermost first.
    pub fn dims(&self) -> (r: &Vec<usize>)
        ensures
            r@ == self@,
    {
        &self.dims
    }
}

} // verus!
