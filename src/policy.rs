use crate::codec::Quantization;
use vstd::prelude::*;

verus! {

/// What happens to one tensor: it is kept exactly as it was read, or it is
/// encoded with a codec.
#[derive(Debug, Clone, Copy, PartialEq, Eq, Structural)]
pub enum Treatment {
    Kept,
    Encoded(Quantization),
}

/// A tensor of this shape can take `q`: it has rank 2 and its last dimension
/// is a whole number of `q`'s blocks.
pub open spec fn fits_codec(dims: Seq<usize>, q: Quantization) -> bool {
    dims.len() == 2 && dims[1] % q.spec_block_size() == 0
}

/// The codec of the plain rule: the requested one where it fits, else the
/// 32-bit float pass-through.
pub open spec fn spec_baseline_codec(dims: Seq<usize>, requested: Quantization) -> Quantization {
    if fits_codec(dims, requested) {
        requested
    } else {
        Quantization::F32
    }
}

pub fn baseline_codec(dims: &[usize], requested: Quantization) -> (r: Quantization)
    ensures
        r == spec_baseline_codec(dims@, requested),
{
    if dims.len() == 2 && dims[1] % requested.block_size() == 0 {
        requested
    } else {
        Quantization::F32
    }
}

pub open spec fn is_suffix(suffix: Seq<char>, s: Seq<char>) -> bool {
    suffix.len() <= s.len() && s.subrange(s.len() - suffix.len(), s.len() as int) == suffix
}

/// Relies on `str::ends_with` with a `&str` pattern: true exactly when
/// `suffix` is a suffix of `s`.
#[verifier::external_body]
fn ends_with(s: &str, suffix: &str) -> (r: bool)
    ensures
        r == is_suffix(suffix@, s@),
{
    s.ends_with(suffix)
}

/// Strategy that decides, from a tensor's name and rank, how it is treated.
#[derive(Debug, Clone, Copy, PartialEq, Eq, Structural)]
pub enum QuantizationMode {
    /// The default quantization includes all 2d tensors, except the output
    /// tensor which always uses Q6_K.
    Llama,
}

impl QuantizationMode {
    /// Llama mode encodes only the rank-2 tensors whose name ends in
    /// `.weight`: `output.weight` with the 6-bit k-family codec, the others
    /// with the requested one, each falling back to 32-bit floats where the
    /// codec does not fit the shape. Every other tensor is kept as read.
    pub open spec fn spec_decide(self, name: Seq<char>, dims: Seq<usize>, requested: Quantization) -> Treatment {
        match self {
            QuantizationMode::Llama => {
                if is_suffix(".weight"@, name) && dims.len() == 2 {
                    let codec = if name == "output.weight"@ {
                        Quantization::Q6k
                    } else {
                        requested
                    };
                    Treatment::Encoded(spec_baseline_codec(dims, codec))
                } else {
                    Treatment::Kept
                }
            },
        }
    }

    pub fn decide(&self, name: &str, dims: &[usize], requested: Quantization) -> (r: Treatment)
        ensures
            r == self.spec_decide(name@, dims@, requested),
    {
        match self {
            QuantizationMode::Llama => {
                if ends_with(name, ".weight") && dims.len() == 2 {
                    let own = name.to_owned();
                    let output = String::from_str("output.weight");
                    let codec = if own == output {
                        Quantization::Q6k
                    } else {
                        requested
                    };
                    Treatment::Encoded(baseline_codec(dims, codec))
                } else {
                    Treatment::Kept
                }
            },
        }
    }
}

} // verus!
