use crate::codec::{ggml_block_size, Quantization};
use crate::policy::{baseline_codec, spec_baseline_codec, QuantizationMode, Treatment};
use candle_core::quantized::{GgmlDType, QTensor};
use candle_core::{Error, Tensor};
use vstd::prelude::*;

verus! {

#[verifier::external_type_specification]
#[verifier::external_body]
pub struct ExTensor(Tensor);

#[verifier::external_type_specification]
#[verifier::external_body]
pub struct ExQTensor(QTensor);

#[verifier::external_type_specification]
#[verifier::external_body]
pub struct ExError(Error);

/// The dimensions of a candle tensor.
pub uninterp spec fn tensor_shape(t: Tensor) -> Seq<usize>;

/// The dimensions of an encoded candle tensor.
pub uninterp spec fn qtensor_shape(t: QTensor) -> Seq<usize>;

/// The encoding an encoded candle tensor is stored in.
pub uninterp spec fn qtensor_dtype(t: QTensor) -> GgmlDType;

/// Whether candle's `QTensor::quantize` succeeds on a tensor and an encoding.
pub uninterp spec fn quantize_ok(src: Tensor, dtype: GgmlDType) -> bool;

/// Whether candle's `QTensor::dequantize` succeeds on an encoded tensor.
pub uninterp spec fn dequantize_ok(t: QTensor) -> bool;

/// Relies on candle's `QTensor::quantize`: its outcome depends on its
/// arguments alone; it fails on a scalar and on a last dimension that is not
/// a whole number of blocks; what it returns keeps the source's shape and is
/// stored in the requested encoding.
pub assume_specification[ QTensor::quantize ](src: &Tensor, dtype: GgmlDType) -> (r:
    candle_core::Result<QTensor>)
    ensures
        r is Ok <==> quantize_ok(*src, dtype),
        tensor_shape(*src).len() == 0 || tensor_shape(*src).last() % ggml_block_size(dtype) != 0
            ==> r is Err,
        r matches Ok(q) ==> qtensor_shape(q) == tensor_shape(*src) && qtensor_dtype(q) == dtype,
;

/// Relies on candle's `QTensor::dtype`: the encoding the tensor is stored in.
pub assume_specification[ QTensor::dtype ](t: &QTensor) -> (r: GgmlDType)
    ensures
        r == qtensor_dtype(*t),
;

/// Relies on candle's `Tensor::dims`: the shape of a tensor.
#[verifier::external_body]
fn tensor_dims(t: &Tensor) -> (r: Vec<usize>)
    ensures
        r@ == tensor_shape(*t),
{
    t.dims().to_vec()
}

/// Relies on candle's `QTensor::shape`: the shape of an encoded tensor.
#[verifier::external_body]
fn qtensor_dims(t: &QTensor) -> (r: Vec<usize>)
    ensures
        r@ == qtensor_shape(*t),
{
    t.shape().dims().to_vec()
}

/// Relies on candle's `QTensor::dequantize`: its outcome depends on the
/// tensor alone; it restores full-precision values on the CPU, with the same
/// shape, into fresh contiguous storage that holds exactly those values, so
/// that encoding them fails only on the shape check. Candle has no decoder
/// for Q8_1 and panics on it.
#[verifier::external_body]
fn dequantize_on_cpu(t: &QTensor) -> (r: candle_core::Result<Tensor>)
    requires
        qtensor_dtype(*t) != GgmlDType::Q8_1,
    ensures
        r is Ok <==> dequantize_ok(*t),
        r matches Ok(f) ==> tensor_shape(f) == qtensor_shape(*t),
        r matches Ok(f) ==> forall|d: GgmlDType|
            tensor_shape(f).len() > 0 && tensor_shape(f).last() % ggml_block_size(d) == 0
                ==> #[trigger] quantize_ok(f, d),
{
    t.dequantize(&candle_core::Device::Cpu)
}

/// Relies on candle's `Error::Msg`: an error that carries a message.
#[verifier::external_body]
fn message_error(text: &str) -> Error {
    Error::Msg(text.to_string())
}

/// One tensor of the output, with the treatment it received and its shape.
pub struct Converted {
    pub treatment: Treatment,
    pub shape: Vec<usize>,
    pub tensor: QTensor,
}

/// Encodes one tensor of a flat tensor file: with the requested codec where
/// its shape fits it, else as 32-bit floats.
pub fn quantize_tensor(tensor: &Tensor, requested: Quantization) -> (r: Result<Converted, Error>)
    ensures
        r is Ok <==> quantize_ok(
            *tensor,
            spec_baseline_codec(tensor_shape(*tensor), requested).spec_dtype(),
        ),
        r matches Ok(c) ==> {
            &&& c.shape@ == tensor_shape(*tensor)
            &&& c.treatment == Treatment::Encoded(spec_baseline_codec(c.shape@, requested))
            &&& qtensor_dtype(c.tensor) == spec_baseline_codec(c.shape@, requested).spec_dtype()
            &&& qtensor_shape(c.tensor) == c.shape@
        },
{
    let shape = tensor_dims(tensor);
    let codec = baseline_codec(shape.as_slice(), requested);
    match QTensor::quantize(tensor, codec.dtype()) {
        Ok(t) => Ok(Converted { treatment: Treatment::Encoded(codec), shape, tensor: t }),
        Err(e) => Err(e),
    }
}

impl QuantizationMode {
    /// Treats one tensor of a container as this mode decides: kept as read,
    /// or restored to full precision and encoded anew. A tensor stored as
    /// Q8_1 cannot be restored and is refused.
    pub fn quantize(&self, name: &str, tensor: QTensor, default: Quantization) -> (r: Result<
        Converted,
        Error,
    >)
        ensures
            match r {
                Ok(c) => {
                    &&& c.shape@ == qtensor_shape(tensor)
                    &&& c.treatment == self.spec_decide(name@, c.shape@, default)
                    &&& c.treatment is Kept ==> c.tensor == tensor
                    &&& c.treatment matches Treatment::Encoded(q) ==> qtensor_dtype(c.tensor)
                        == q.spec_dtype() && qtensor_shape(c.tensor) == c.shape@
                },
                Err(_) => self.spec_decide(name@, qtensor_shape(tensor), default) is Encoded,
            },
            self.spec_decide(name@, qtensor_shape(tensor), default) is Encoded ==> (r is Ok <==> (
            qtensor_dtype(tensor) != GgmlDType::Q8_1 && dequantize_ok(tensor))),
    {
        let shape = qtensor_dims(&tensor);
        match self.decide(name, shape.as_slice(), default) {
            Treatment::Kept => Ok(Converted { treatment: Treatment::Kept, shape, tensor }),
            Treatment::Encoded(codec) => {
                if let GgmlDType::Q8_1 = tensor.dtype() {
                    return Err(message_error("cannot restore a tensor stored as q8_1"));
                }
                let full = match dequantize_on_cpu(&tensor) {
                    Ok(full) => full,
                    Err(e) => return Err(e),
                };
                assert(quantize_ok(full, codec.spec_dtype()));
                match QTensor::quantize(&full, codec.dtype()) {
                    Ok(t) => Ok(Converted { treatment: Treatment::Encoded(codec), shape, tensor: t }),
                    Err(e) => Err(e),
                }
            },
        }
    }
}

} // verus!
