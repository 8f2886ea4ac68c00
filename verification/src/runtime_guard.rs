//! Decides whether the ONNX Runtime shared library is available before any
//! session loading is attempted: loading with the library missing hangs
//! instead of failing, so availability is settled before any loading.
//!
//! The library's path is the one given explicitly, else the value of the
//! `ORT_DYLIB_PATH` environment variable; the path must name a file. The
//! caller reads the environment and the file system and hands the results in.

use vstd::prelude::*;

use crate::error::HybridError;

verus! {

/// The library path to check, or the error when there is none.
pub fn runtime_library_path(explicit_path: Option<&str>, env_path: Option<String>) -> (path: Result<
    String,
    HybridError,
>)
    ensures
        match explicit_path {
            Some(p) => path matches Ok(s) && s@ == p@,
            None => match env_path {
                Some(v) => path == Ok::<String, HybridError>(v),
                None => path matches Err(HybridError::OrtRuntimeUnavailable(text)) && text@
                    == "ORT_DYLIB_PATH is not set"@,
            },
        },
{
    match explicit_path {
        Some(p) => Ok(String::from_str(p)),
        None => match env_path {
            Some(v) => Ok(v),
            None => Err(HybridError::OrtRuntimeUnavailable(String::from_str("ORT_DYLIB_PATH is not set"))),
        },
    }
}

/// Accepts the path when it names a file.
pub fn check_runtime_library(path: &str, is_file: bool) -> (result: Result<(), HybridError>)
    ensures
        is_file ==> result is Ok,
        !is_file ==> (result matches Err(HybridError::OrtRuntimeUnavailable(text)) && text@ == path@
            + " does not point at a file"@),
{
    if is_file {
        Ok(())
    } else {
        let mut text = String::from_str(path);
        text.append(" does not point at a file");
        Err(HybridError::OrtRuntimeUnavailable(text))
    }
}

} // verus!
