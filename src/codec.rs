use candle_core::quantized::GgmlDType;
use vstd::prelude::*;

verus! {

#[verifier::external_type_specification]
pub struct ExGgmlDType(GgmlDType);

/// Number of elements in one block of each encoding, as candle's
/// `GgmlDType::block_size` defines it.
pub open spec fn ggml_block_size(d: GgmlDType) -> usize {
    match d {
        GgmlDType::F32 | GgmlDType::F16 => 1,
        GgmlDType::Q4_0 | GgmlDType::Q4_1 | GgmlDType::Q5_0 | GgmlDType::Q5_1 => 32,
        GgmlDType::Q8_0 | GgmlDType::Q8_1 => 32,
        GgmlDType::Q2K | GgmlDType::Q3K | GgmlDType::Q4K => 256,
        GgmlDType::Q5K | GgmlDType::Q6K | GgmlDType::Q8K => 256,
    }
}

/// Relies on candle's `GgmlDType::block_size`: a fixed table, `QK4_0` .. `QK8_1`
/// being 32 and `QK_K` 256.
pub assume_specification[ GgmlDType::block_size ](d: &GgmlDType) -> (r: usize)
    ensures
        r == ggml_block_size(*d),
;

/// The codec a tensor can be encoded with: twelve block schemes and two
/// float pass-through encodings.
#[derive(Debug, Clone, Copy, PartialEq, Eq, Structural)]
pub enum Quantization {
    Q4_0,
    Q4_1,
    Q5_0,
    Q5_1,
    Q8_0,
    Q8_1,
    Q2k,
    Q3k,
    Q4k,
    Q5k,
    Q6k,
    Q8k,
    F16,
    F32,
}

impl Quantization {
    /// The candle encoding that implements this codec.
    pub open spec fn spec_dtype(self) -> GgmlDType {
        match self {
            Quantization::Q4_0 => GgmlDType::Q4_0,
            Quantization::Q4_1 => GgmlDType::Q4_1,
            Quantization::Q5_0 => GgmlDType::Q5_0,
            Quantization::Q5_1 => GgmlDType::Q5_1,
            Quantization::Q8_0 => GgmlDType::Q8_0,
            Quantization::Q8_1 => GgmlDType::Q8_1,
            Quantization::Q2k => GgmlDType::Q2K,
            Quantization::Q3k => GgmlDType::Q3K,
            Quantization::Q4k => GgmlDType::Q4K,
            Quantization::Q5k => GgmlDType::Q5K,
            Quantization::Q6k => GgmlDType::Q6K,
            Quantization::Q8k => GgmlDType::Q8K,
            Quantization::F16 => GgmlDType::F16,
            Quantization::F32 => GgmlDType::F32,
        }
    }

    /// Elements per block: 1 for the float encodings, 32 for the legacy
    /// block schemes, 256 for the k-family.
    pub open spec fn spec_block_size(self) -> usize {
        ggml_block_size(self.spec_dtype())
    }

    pub fn dtype(&self) -> (r: GgmlDType)
        ensures
            r == self.spec_dtype(),
    {
        match self {
            Quantization::Q4_0 => GgmlDType::Q4_0,
            Quantization::Q4_1 => GgmlDType::Q4_1,
            Quantization::Q5_0 => GgmlDType::Q5_0,
            Quantization::Q5_1 => GgmlDType::Q5_1,
            Quantization::Q8_0 => GgmlDType::Q8_0,
            Quantization::Q8_1 => GgmlDType::Q8_1,
            Quantization::Q2k => GgmlDType::Q2K,
            Quantization::Q3k => GgmlDType::Q3K,
            Quantization::Q4k => GgmlDType::Q4K,
            Quantization::Q5k => GgmlDType::Q5K,
            Quantization::Q6k => GgmlDType::Q6K,
            Quantization::Q8k => GgmlDType::Q8K,
            Quantization::F16 => GgmlDType::F16,
            Quantization::F32 => GgmlDType::F32,
        }
    }

    pub fn block_size(&self) -> (r: usize)
        ensures
            r == self.spec_block_size(),
            r >= 1,
    {
        self.dtype().block_size()
    }
}

} // verus!
