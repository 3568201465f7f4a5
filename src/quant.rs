use vstd::prelude::*;

verus! {

/// Largest bit pattern of a positive binary32 value: that of positive infinity.
/// Above it the patterns are NaNs; with the sign bit set they are negative.
pub const POSITIVE_INFINITY_BITS: u32 = 0x7f80_0000;

/// Whether `bits`, read as an IEEE-754 binary32 value, is strictly positive:
/// the sign bit is clear, the value is not zero and not a NaN.
pub open spec fn is_positive_scale(bits: u32) -> bool {
    0 < bits && bits <= POSITIVE_INFINITY_BITS
}

/// Why a quantized tensor could not be built.
#[derive(Debug, Clone, Copy, PartialEq, Eq, Structural)]
pub enum QuantError {
    /// The scale is zero, negative or not a number.
    NonPositiveScale,
}

/// An affine-quantized tensor: element `i` stands for
/// `(data[i] - zero_point) * scale`, where `scale` is the binary32 value whose
/// bits are `scale_bits`.
#[derive(Debug)]
pub struct QuantizedTensor {
    pub data: Vec<i8>,
    pub scale_bits: u32,
    pub zero_point: i32,
}

impl QuantizedTensor {
    pub open spec fn wf(&self) -> bool {
        is_positive_scale(self.scale_bits)
    }

    /// Whether `o` holds the same elements, scale and zero point.
    pub open spec fn same_as(&self, o: &QuantizedTensor) -> bool {
        self.data@ == o.data@ && self.scale_bits == o.scale_bits && self.zero_point == o.zero_point
    }

    /// The integer factor of the value that element `i` stands for.
    pub open spec fn spec_offset(&self, i: int) -> int {
        self.data@[i] - self.zero_point
    }

    /// Builds a tensor, refusing a scale that is not strictly positive.
    pub fn new(data: Vec<i8>, scale_bits: u32, zero_point: i32) -> (r: Result<QuantizedTensor, QuantError>)
        ensures
            is_positive_scale(scale_bits) <==> r is Ok,
            r is Ok ==> r->Ok_0.wf() && r->Ok_0.data@ == data@ && r->Ok_0.scale_bits == scale_bits
                && r->Ok_0.zero_point == zero_point,
            r is Err ==> r->Err_0 == QuantError::NonPositiveScale,
    {
        if 0 < scale_bits && scale_bits <= POSITIVE_INFINITY_BITS {
            Ok(QuantizedTensor { data, scale_bits, zero_point })
        } else {
            Err(QuantError::NonPositiveScale)
        }
    }

    pub fn len(&self) -> (r: usize)
        ensures
            r == self.data@.len(),
    {
        self.data.len()
    }

    /// `data[i] - zero_point`: what multiplies the scale to give element `i`.
    pub fn offset(&self, i: usize) -> (r: i64)
        requires
            i < self.data@.len(),
        ensures
            r == self.spec_offset(i as int),
    {
        self.data[i] as i64 - self.zero_point as i64
    }

    /// A copy with its own buffer, equal to `self` in every field.
    pub fn duplicate(&self) -> (r: QuantizedTensor)
        ensures
            r.same_as(self),
    {
        let mut data: Vec<i8> = Vec::with_capacity(self.data.len());
        let mut i: usize = 0;
        while i < self.data.len()
            invariant
                i <= self.data@.len(),
                data@ == self.data@.subrange(0, i as int),
            decreases self.data@.len() - i,
        {
            data.push(self.data[i]);
            i = i + 1;
        }
        assert(data@ == self.data@);
        QuantizedTensor { data, scale_bits: self.scale_bits, zero_point: self.zero_point }
    }
}

} // verus!
