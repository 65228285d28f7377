//! A fixed-width batch of complex numbers stored as parallel real and
//! imaginary lane vectors, its elementwise arithmetic, and the chunking
//! function that groups a sequence of scalar complex numbers into batches.

use vstd::prelude::*;

use crate::complex::{spec_add, spec_div, spec_mul, spec_sub, Complex};

verus! {

/// A complex number vector: `LANES` independent complex numbers processed
/// in lockstep. Lane `i` of `re` and `im` together form one logical
/// complex number.
#[derive(Debug, Clone, PartialEq)]
pub struct ComplexSIMD<const LANES: usize> {
    /// The real parts of the complex numbers, one per lane.
    pub re: Vec<num_bigfloat::BigFloat>,
    /// The imaginary parts of the complex numbers, one per lane.
    pub im: Vec<num_bigfloat::BigFloat>,
}

/// The sequence whose element `i` is the componentwise sum of `x[i]` and `y[i]`.
pub open spec fn elementwise_add(x: Seq<Complex>, y: Seq<Complex>) -> Seq<Complex> {
    Seq::new(x.len(), |i: int| spec_add(x[i], y[i]))
}

/// The sequence whose element `i` is the componentwise difference of `x[i]` and `y[i]`.
pub open spec fn elementwise_sub(x: Seq<Complex>, y: Seq<Complex>) -> Seq<Complex> {
    Seq::new(x.len(), |i: int| spec_sub(x[i], y[i]))
}

/// The sequence whose element `i` is the complex product of `x[i]` and `y[i]`.
pub open spec fn elementwise_mul(x: Seq<Complex>, y: Seq<Complex>) -> Seq<Complex> {
    Seq::new(x.len(), |i: int| spec_mul(x[i], y[i]))
}

/// The sequence whose element `i` is the complex quotient of `x[i]` and `y[i]`.
pub open spec fn elementwise_div(x: Seq<Complex>, y: Seq<Complex>) -> Seq<Complex> {
    Seq::new(x.len(), |i: int| spec_div(x[i], y[i]))
}

impl<const LANES: usize> ComplexSIMD<LANES> {
    /// Both lane vectors hold exactly `LANES` scalars.
    pub open spec fn wf(self) -> bool {
        self.re@.len() == LANES && self.im@.len() == LANES
    }

    /// The complex number held in lane `i`.
    pub open spec fn lane(self, i: int) -> Complex {
        Complex { re: self.re@[i], im: self.im@[i] }
    }

    /// The complex numbers of the batch, in lane order.
    pub open spec fn lanes(self) -> Seq<Complex> {
        Seq::new(self.re@.len(), |i: int| self.lane(i))
    }

    /// Create a new complex number vector from its real and imaginary lanes.
    pub fn new(re: Vec<num_bigfloat::BigFloat>, im: Vec<num_bigfloat::BigFloat>) -> (v: Self)
        requires
            re@.len() == LANES,
            im@.len() == LANES,
        ensures
            v == (ComplexSIMD::<LANES> { re, im }),
            v.wf(),
    {
        Self { re, im }
    }

    /// Elementwise addition: lane `i` of the result is the sum of lane `i`
    /// of `self` and lane `i` of `rhs`. No cross-lane interaction.
    pub fn add(&self, rhs: &Self) -> (v: Self)
        requires
            self.wf(),
            rhs.wf(),
        ensures
            v.wf(),
            v.lanes() == elementwise_add(self.lanes(), rhs.lanes()),
    {
        let mut re: Vec<num_bigfloat::BigFloat> = Vec::new();
        let mut im: Vec<num_bigfloat::BigFloat> = Vec::new();
        let mut i: usize = 0;
        while i < LANES
            invariant
                self.wf(),
                rhs.wf(),
                i <= LANES,
                re@.len() == i,
                im@.len() == i,
                forall|j: int|
                    0 <= j < i ==> re@[j] == spec_add(self.lane(j), rhs.lane(j)).re && im@[j]
                        == spec_add(self.lane(j), rhs.lane(j)).im,
            decreases LANES - i,
        {
            let a = Complex::new(self.re[i], self.im[i]);
            let b = Complex::new(rhs.re[i], rhs.im[i]);
            let c = a.add(b);
            re.push(c.re);
            im.push(c.im);
            i = i + 1;
        }
        let v = Self { re, im };
        proof {
            assert(v.lanes() =~= elementwise_add(self.lanes(), rhs.lanes()));
        }
        v
    }

    /// Elementwise subtraction, lane by lane.
    pub fn sub(&self, rhs: &Self) -> (v: Self)
        requires
            self.wf(),
            rhs.wf(),
        ensures
            v.wf(),
            v.lanes() == elementwise_sub(self.lanes(), rhs.lanes()),
    {
        let mut re: Vec<num_bigfloat::BigFloat> = Vec::new();
        let mut im: Vec<num_bigfloat::BigFloat> = Vec::new();
        let mut i: usize = 0;
        while i < LANES
            invariant
                self.wf(),
                rhs.wf(),
                i <= LANES,
                re@.len() == i,
                im@.len() == i,
                forall|j: int|
                    0 <= j < i ==> re@[j] == spec_sub(self.lane(j), rhs.lane(j)).re && im@[j]
                        == spec_sub(self.lane(j), rhs.lane(j)).im,
            decreases LANES - i,
        {
            let a = Complex::new(self.re[i], self.im[i]);
            let b = Complex::new(rhs.re[i], rhs.im[i]);
            let c = a.sub(b);
            re.push(c.re);
            im.push(c.im);
            i = i + 1;
        }
        let v = Self { re, im };
        proof {
            assert(v.lanes() =~= elementwise_sub(self.lanes(), rhs.lanes()));
        }
        v
    }

    /// Elementwise complex multiplication, lane by lane.
    pub fn mul(&self, rhs: &Self) -> (v: Self)
        requires
            self.wf(),
            rhs.wf(),
        ensures
            v.wf(),
            v.lanes() == elementwise_mul(self.lanes(), rhs.lanes()),
    {
        let mut re: Vec<num_bigfloat::BigFloat> = Vec::new();
        let mut im: Vec<num_bigfloat::BigFloat> = Vec::new();
        let mut i: usize = 0;
        while i < LANES
            invariant
                self.wf(),
                rhs.wf(),
                i <= LANES,
                re@.len() == i,
                im@.len() == i,
                forall|j: int|
                    0 <= j < i ==> re@[j] == spec_mul(self.lane(j), rhs.lane(j)).re && im@[j]
                        == spec_mul(self.lane(j), rhs.lane(j)).im,
            decreases LANES - i,
        {
            let a = Complex::new(self.re[i], self.im[i]);
            let b = Complex::new(rhs.re[i], rhs.im[i]);
            let c = a.mul(b);
            re.push(c.re);
            im.push(c.im);
            i = i + 1;
        }
        let v = Self { re, im };
        proof {
            assert(v.lanes() =~= elementwise_mul(self.lanes(), rhs.lanes()));
        }
        v
    }

    /// Elementwise complex division, lane by lane.
    pub fn div(&self, rhs: &Self) -> (v: Self)
        requires
            self.wf(),
            rhs.wf(),
        ensures
            v.wf(),
            v.lanes() == elementwise_div(self.lanes(), rhs.lanes()),
    {
        let mut re: Vec<num_bigfloat::BigFloat> = Vec::new();
        let mut im: Vec<num_bigfloat::BigFloat> = Vec::new();
        let mut i: usize = 0;
        while i < LANES
            invariant
                self.wf(),
                rhs.wf(),
                i <= LANES,
                re@.len() == i,
                im@.len() == i,
                forall|j: int|
                    0 <= j < i ==> re@[j] == spec_div(self.lane(j), rhs.lane(j)).re && im@[j]
                        == spec_div(self.lane(j), rhs.lane(j)).im,
            decreases LANES - i,
        {
            let a = Complex::new(self.re[i], self.im[i]);
            let b = Complex::new(rhs.re[i], rhs.im[i]);
            let c = a.div(b);
            re.push(c.re);
            im.push(c.im);
            i = i + 1;
        }
        let v = Self { re, im };
        proof {
            assert(v.lanes() =~= elementwise_div(self.lanes(), rhs.lanes()));
        }
        v
    }
}

/// Take a slice of scalar complex numbers whose length is an exact multiple
/// of `LANES` and return the same data chunked into batches of `LANES`
/// lanes: group `g` of the result holds, in lane order, the elements
/// `g * LANES ..= g * LANES + LANES - 1` of the input.
pub fn chunk_complex<const LANES: usize>(complex: &[Complex]) -> (out: Vec<ComplexSIMD<LANES>>)
    requires
        LANES > 0,
        complex@.len() as int % (LANES as int) == 0,
    ensures
        out@.len() == complex@.len() as int / (LANES as int),
        forall|g: int| 0 <= g < out@.len() ==> (#[trigger] out@[g]).wf(),
        forall|g: int|
            0 <= g < out@.len() ==> (#[trigger] out@[g]).lanes() == complex@.subrange(
                g * (LANES as int),
                (g + 1) * (LANES as int),
            ),
{
    let length = complex.len();
    let mut output: Vec<ComplexSIMD<LANES>> = Vec::new();
    let mut start: usize = 0;
    proof {
        assert(output@.len() as int * (LANES as int) == 0) by (nonlinear_arith)
            requires
                output@.len() == 0,
        {
        }
    }
    while start < length
        invariant
            LANES > 0,
            length == complex@.len(),
            complex@.len() as int % (LANES as int) == 0,
            start <= length,
            start == output@.len() as int * (LANES as int),
            forall|g: int| 0 <= g < output@.len() ==> (#[trigger] output@[g]).wf(),
            forall|g: int|
                0 <= g < output@.len() ==> (#[trigger] output@[g]).lanes() == complex@.subrange(
                    g * (LANES as int),
                    (g + 1) * (LANES as int),
                ),
        decreases length - start,
    {
        proof {
            assert(start + LANES <= length) by (nonlinear_arith)
                requires
                    LANES > 0,
                    start < length,
                    start == output@.len() as int * (LANES as int),
                    complex@.len() as int % (LANES as int) == 0,
                    length == complex@.len(),
            {
            }
        }
        let mut re: Vec<num_bigfloat::BigFloat> = Vec::new();
        let mut im: Vec<num_bigfloat::BigFloat> = Vec::new();
        let mut i: usize = 0;
        while i < LANES
            invariant
                i <= LANES,
                start + LANES <= length,
                length == complex@.len(),
                re@.len() == i,
                im@.len() == i,
                forall|j: int|
                    0 <= j < i ==> re@[j] == complex@[start + j].re && im@[j] == complex@[start
                        + j].im,
            decreases LANES - i,
        {
            let z = complex[start + i];
            re.push(z.re);
            im.push(z.im);
            i = i + 1;
        }
        let batch = ComplexSIMD::<LANES> { re, im };
        proof {
            let g = output@.len() as int;
            let width = LANES as int;
            assert((g + 1) * width == g * width + width) by (nonlinear_arith);
            assert forall|j: int| 0 <= j < width implies batch.lanes()[j] == complex@.subrange(
                g * width,
                (g + 1) * width,
            )[j] by {
                let z = complex@[start + j];
                assert(z == (Complex { re: z.re, im: z.im }));
            }
            assert(batch.lanes() =~= complex@.subrange(g * width, (g + 1) * width));
        }
        output.push(batch);
        start = start + LANES;
    }
    proof {
        assert(output@.len() == complex@.len() as int / (LANES as int)) by (nonlinear_arith)
            requires
                LANES > 0,
                start == output@.len() as int * (LANES as int),
                start == complex@.len(),
        {
        }
    }
    output
}

/// Elementwise law: lane `i` of a batch operation is the corresponding
/// scalar operation applied to lane `i` of each operand, for each of the
/// four arithmetic operations.
pub proof fn lemma_elementwise_lane(x: Seq<Complex>, y: Seq<Complex>, i: int)
    requires
        x.len() == y.len(),
        0 <= i < x.len(),
    ensures
        elementwise_add(x, y)[i] == spec_add(x[i], y[i]),
        elementwise_sub(x, y)[i] == spec_sub(x[i], y[i]),
        elementwise_mul(x, y)[i] == spec_mul(x[i], y[i]),
        elementwise_div(x, y)[i] == spec_div(x[i], y[i]),
{
}

/// Elementwise law for batches built by chunking: when two batches hold the
/// groups `g` of inputs `a` and `b`, lane `l` of a batch operation equals
/// the scalar operation applied to `a[g * lanes + l]` and `b[g * lanes + l]`.
pub proof fn lemma_chunk_elementwise(
    a: Seq<Complex>,
    b: Seq<Complex>,
    batch_a: Seq<Complex>,
    batch_b: Seq<Complex>,
    lanes: int,
    g: int,
    l: int,
)
    requires
        lanes > 0,
        0 <= g,
        (g + 1) * lanes <= a.len(),
        (g + 1) * lanes <= b.len(),
        batch_a == a.subrange(g * lanes, (g + 1) * lanes),
        batch_b == b.subrange(g * lanes, (g + 1) * lanes),
        0 <= l < lanes,
    ensures
        elementwise_add(batch_a, batch_b)[l] == spec_add(a[g * lanes + l], b[g * lanes + l]),
        elementwise_sub(batch_a, batch_b)[l] == spec_sub(a[g * lanes + l], b[g * lanes + l]),
        elementwise_mul(batch_a, batch_b)[l] == spec_mul(a[g * lanes + l], b[g * lanes + l]),
        elementwise_div(batch_a, batch_b)[l] == spec_div(a[g * lanes + l], b[g * lanes + l]),
{
    assert((g + 1) * lanes == g * lanes + lanes) by (nonlinear_arith);
    assert(batch_a.len() == lanes);
    assert(batch_b.len() == lanes);
    assert(batch_a[l] == a[g * lanes + l]);
    assert(batch_b[l] == b[g * lanes + l]);
}

} // verus!
