use candle_core::quantized::{GgmlDType, QTensor};
use candle_core::{DType, Device, Tensor};
use tensor_quantize::{quantize_tensor, Quantization, QuantizationMode, Treatment};

fn ramp(rows: usize, cols: usize) -> Tensor {
    let data: Vec<f32> = (0..rows * cols).map(|i| (i % 17) as f32 * 0.25 - 2.0).collect();
    Tensor::from_vec(data, (rows, cols), &Device::Cpu).unwrap()
}

#[test]
fn flat_tensor_encoded_with_requested_codec() {
    let t = ramp(4, 64);
    let c = quantize_tensor(&t, Quantization::Q4_0).unwrap();
    assert_eq!(c.treatment, Treatment::Encoded(Quantization::Q4_0));
    assert_eq!(c.shape, vec![4, 64]);
    assert_eq!(c.tensor.dtype(), GgmlDType::Q4_0);
}

#[test]
fn flat_tensor_rank_one_falls_back_to_f32() {
    let t = Tensor::zeros(64, DType::F32, &Device::Cpu).unwrap();
    let c = quantize_tensor(&t, Quantization::Q8_0).unwrap();
    assert_eq!(c.treatment, Treatment::Encoded(Quantization::F32));
    assert_eq!(c.tensor.dtype(), GgmlDType::F32);
}

#[test]
fn flat_tensor_indivisible_falls_back_to_f32() {
    let t = ramp(2, 48);
    let c = quantize_tensor(&t, Quantization::Q4_1).unwrap();
    assert_eq!(c.treatment, Treatment::Encoded(Quantization::F32));
    assert_eq!(c.tensor.dtype(), GgmlDType::F32);
}

#[test]
fn flat_tensor_k_family() {
    let t = ramp(2, 256);
    let c = quantize_tensor(&t, Quantization::Q6k).unwrap();
    assert_eq!(c.tensor.dtype(), GgmlDType::Q6K);
}

#[test]
fn llama_output_weight_encoded_q6k() {
    let q = QTensor::quantize(&ramp(2, 256), GgmlDType::F32).unwrap();
    let c = QuantizationMode::Llama.quantize("output.weight", q, Quantization::Q4_0).unwrap();
    assert_eq!(c.treatment, Treatment::Encoded(Quantization::Q6k));
    assert_eq!(c.tensor.dtype(), GgmlDType::Q6K);
    assert_eq!(c.shape, vec![2, 256]);
}

#[test]
fn llama_weight_requantized_from_packed_source() {
    let q = QTensor::quantize(&ramp(2, 64), GgmlDType::Q8_0).unwrap();
    let c = QuantizationMode::Llama.quantize("layers.0.weight", q, Quantization::Q4_1).unwrap();
    assert_eq!(c.treatment, Treatment::Encoded(Quantization::Q4_1));
    assert_eq!(c.tensor.dtype(), GgmlDType::Q4_1);
}

#[test]
fn llama_bias_kept_as_read() {
    let q = QTensor::quantize(&ramp(2, 64), GgmlDType::F16).unwrap();
    let c = QuantizationMode::Llama.quantize("layers.0.bias", q, Quantization::Q4_0).unwrap();
    assert_eq!(c.treatment, Treatment::Kept);
    assert_eq!(c.tensor.dtype(), GgmlDType::F16);
}

#[test]
fn llama_weight_indivisible_falls_back_to_f32_tensor() {
    let q = QTensor::quantize(&ramp(2, 48), GgmlDType::F16).unwrap();
    let c = QuantizationMode::Llama.quantize("layers.0.weight", q, Quantization::Q4_0).unwrap();
    assert_eq!(c.treatment, Treatment::Encoded(Quantization::F32));
    assert_eq!(c.tensor.dtype(), GgmlDType::F32);
    assert_eq!(c.shape, vec![2, 48]);
}

#[test]
fn llama_output_weight_indivisible_falls_back_to_f32_tensor() {
    let q = QTensor::quantize(&ramp(4, 64), GgmlDType::Q4_0).unwrap();
    let c = QuantizationMode::Llama.quantize("output.weight", q, Quantization::Q4_0).unwrap();
    assert_eq!(c.treatment, Treatment::Encoded(Quantization::F32));
    assert_eq!(c.tensor.dtype(), GgmlDType::F32);
}

#[test]
fn llama_layer_weight_of_shape_4_256() {
    let q = QTensor::quantize(&Tensor::zeros((4, 256), DType::F32, &Device::Cpu).unwrap(), GgmlDType::F32)
        .unwrap();
    let c = QuantizationMode::Llama.quantize("layers.0.weight", q, Quantization::Q4_0).unwrap();
    assert_eq!(c.treatment, Treatment::Encoded(Quantization::Q4_0));
    assert_eq!(c.tensor.dtype(), GgmlDType::Q4_0);
    assert_eq!(c.tensor.shape().dims(), &[4, 256]);
}

#[test]
fn llama_weight_stored_as_q8_1_is_refused() {
    let q = QTensor::quantize(&ramp(2, 64), GgmlDType::Q8_1).unwrap();
    assert!(QuantizationMode::Llama.quantize("layers.0.weight", q, Quantization::Q4_0).is_err());
}

#[test]
fn llama_bias_stored_as_q8_1_is_kept() {
    let q = QTensor::quantize(&ramp(2, 64), GgmlDType::Q8_1).unwrap();
    let c = QuantizationMode::Llama.quantize("layers.0.bias", q, Quantization::Q4_0).unwrap();
    assert_eq!(c.treatment, Treatment::Kept);
    assert_eq!(c.tensor.dtype(), GgmlDType::Q8_1);
    assert_eq!(c.shape, vec![2, 64]);
}

#[test]
fn flat_scalar_tensor_is_an_error() {
    let t = Tensor::new(1.5f32, &Device::Cpu).unwrap();
    assert!(quantize_tensor(&t, Quantization::Q4_0).is_err());
}

#[test]
fn encoded_shape_is_kept() {
    let c = quantize_tensor(&ramp(3, 32), Quantization::Q8_0).unwrap();
    assert_eq!(c.tensor.shape().dims(), &[3, 32]);
    assert_eq!(c.shape, vec![3, 32]);
}
