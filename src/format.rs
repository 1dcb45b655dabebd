use vstd::prelude::*;

verus! {

/// What `std::path::Path::extension` gives for a path written as text.
pub uninterp spec fn extension_of(path: Seq<char>) -> Option<Seq<char>>;

/// Relies on `std::path::Path::extension`: the part of the file name after its
/// last dot, a function of the path's text alone. A `&str` path is valid UTF-8,
/// so is its extension.
#[verifier::external_body]
pub(crate) fn path_extension(path: &str) -> (r: Option<String>)
    ensures
        match r {
            Some(e) => extension_of(path@) == Some(e@),
            None => extension_of(path@) == None::<Seq<char>>,
        },
{
    std::path::Path::new(path).extension().and_then(|e| e.to_str()).map(|e| e.to_string())
}

/// The model file formats that can be told apart by extension.
#[derive(Debug, Clone, Copy, PartialEq, Eq, Structural)]
pub enum Format {
    Safetensors,
    Npz,
    Ggml,
    Gguf,
    Pth,
    Pickle,
}

impl Format {
    /// The format that a file extension names. `.bin` names none: it is used
    /// for ggml, gguf and pytorch files alike.
    pub open spec fn spec_from_extension(ext: Seq<char>) -> Option<Format> {
        if ext == "safetensors"@ || ext == "safetensor"@ {
            Some(Format::Safetensors)
        } else if ext == "npz"@ {
            Some(Format::Npz)
        } else if ext == "pth"@ || ext == "pt"@ {
            Some(Format::Pth)
        } else if ext == "ggml"@ {
            Some(Format::Ggml)
        } else if ext == "gguf"@ {
            Some(Format::Gguf)
        } else {
            None
        }
    }

    pub open spec fn spec_infer(path: Seq<char>) -> Option<Format> {
        match extension_of(path) {
            Some(e) => Format::spec_from_extension(e),
            None => None,
        }
    }

    pub fn from_extension(ext: &str) -> (r: Option<Format>)
        ensures
            r == Format::spec_from_extension(ext@),
    {
        let e = ext.to_owned();
        if e == String::from_str("safetensors") || e == String::from_str("safetensor") {
            Some(Format::Safetensors)
        } else if e == String::from_str("npz") {
            Some(Format::Npz)
        } else if e == String::from_str("pth") || e == String::from_str("pt") {
            Some(Format::Pth)
        } else if e == String::from_str("ggml") {
            Some(Format::Ggml)
        } else if e == String::from_str("gguf") {
            Some(Format::Gguf)
        } else {
            None
        }
    }

    /// The format of a file, inferred from its extension.
    pub fn infer(path: &str) -> (r: Option<Format>)
        ensures
            r == Format::spec_infer(path@),
    {
        match path_extension(path) {
            Some(e) => Format::from_extension(e.as_str()),
            None => None,
        }
    }
}

} // verus!
