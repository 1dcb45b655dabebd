use crate::format::{extension_of, path_extension};
use vstd::prelude::*;

verus! {

/// How a conversion reads its inputs.
#[derive(Debug, Clone, Copy, PartialEq, Eq, Structural)]
pub enum Route {
    /// One or more safetensors files, merged; no metadata.
    FlatTensors,
    /// A single gguf container, whose metadata is carried over.
    Container,
}

/// A request that is refused before any file is touched.
#[derive(Debug, Clone, Copy, PartialEq, Eq, Structural)]
pub enum UsageError {
    NoInputs,
    FlatTensorOutput,
    ContainerInputCount(usize),
}

impl UsageError {
    pub open spec fn spec_message(self) -> Seq<char> {
        match self {
            UsageError::NoInputs => "no specified input files"@,
            UsageError::FlatTensorOutput => "the generated file cannot use the safetensors extension"@,
            UsageError::ContainerInputCount(_) => "only a single in-file can be used when quantizing gguf files"@,
        }
    }

    /// A description of the refusal for the user.
    pub fn message(&self) -> (r: String)
        ensures
            r@ == self.spec_message(),
    {
        match self {
            UsageError::NoInputs => String::from_str("no specified input files"),
            UsageError::FlatTensorOutput => String::from_str(
                "the generated file cannot use the safetensors extension",
            ),
            UsageError::ContainerInputCount(_) => String::from_str(
                "only a single in-file can be used when quantizing gguf files",
            ),
        }
    }
}

pub open spec fn is_flat_extension(ext: Option<Seq<char>>) -> bool {
    ext == Some("safetensors"@)
}

/// The route of a conversion with `n_inputs` inputs, the first having
/// extension `first_input`, writing to a file with extension `output`.
pub open spec fn spec_plan(
    n_inputs: nat,
    first_input: Option<Seq<char>>,
    output: Option<Seq<char>>,
) -> Result<Route, UsageError> {
    if n_inputs == 0 {
        Err(UsageError::NoInputs)
    } else if is_flat_extension(output) {
        Err(UsageError::FlatTensorOutput)
    } else if is_flat_extension(first_input) {
        Ok(Route::FlatTensors)
    } else if n_inputs != 1 {
        Err(UsageError::ContainerInputCount(n_inputs as usize))
    } else {
        Ok(Route::Container)
    }
}

fn is_flat(ext: &Option<String>) -> (r: bool)
    ensures
        r == is_flat_extension(opt_view(*ext)),
{
    match ext {
        Some(e) => *e == String::from_str("safetensors"),
        None => false,
    }
}

pub open spec fn opt_view(ext: Option<String>) -> Option<Seq<char>> {
    match ext {
        Some(e) => Some(e@),
        None => None,
    }
}

/// Validates a request given the extensions of its first input and of its
/// output.
pub fn plan_from_extensions(
    n_inputs: usize,
    first_input: &Option<String>,
    output: &Option<String>,
) -> (r: Result<Route, UsageError>)
    ensures
        r == spec_plan(n_inputs as nat, opt_view(*first_input), opt_view(*output)),
{
    if n_inputs == 0 {
        Err(UsageError::NoInputs)
    } else if is_flat(output) {
        Err(UsageError::FlatTensorOutput)
    } else if is_flat(first_input) {
        Ok(Route::FlatTensors)
    } else if n_inputs != 1 {
        Err(UsageError::ContainerInputCount(n_inputs))
    } else {
        Ok(Route::Container)
    }
}

/// Validates a request from its input and output paths.
pub fn plan(in_files: &[String], out_file: &str) -> (r: Result<Route, UsageError>)
    ensures
        r == spec_plan(
            in_files@.len(),
            if in_files@.len() > 0 {
                extension_of(in_files@[0]@)
            } else {
                None
            },
            extension_of(out_file@),
        ),
{
    let out_ext = path_extension(out_file);
    if in_files.len() == 0 {
        let none: Option<String> = None;
        plan_from_extensions(0, &none, &out_ext)
    } else {
        let first_ext = path_extension(in_files[0].as_str());
        plan_from_extensions(in_files.len(), &first_ext, &out_ext)
    }
}

} // verus!
