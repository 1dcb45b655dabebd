//! Decision and orchestration layer of a model-weight quantizer: which codec
//! each tensor gets, how the inputs of a conversion are validated, how flat
//! tensor files are merged, and how per-tensor results are gathered.

pub mod codec;
pub mod collect;
pub mod format;
pub mod laws;
pub mod merge;
pub mod policy;
pub mod quantize;
pub mod route;

pub use codec::Quantization;
pub use collect::{assemble, assemble_flat, collect_results, Container, TensorFailure};
pub use format::Format;
pub use merge::merge_last_wins;
pub use policy::{baseline_codec, QuantizationMode, Treatment};
pub use quantize::{quantize_tensor, Converted};
pub use route::{plan, plan_from_extensions, Route, UsageError};
