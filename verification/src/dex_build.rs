//! Build-script helper for compiling Java/Kotlin sources to DEX.
use vstd::prelude::*;

verus! {

#[verifier::external_type_specification]
#[verifier::external_body]
pub struct ExPathBuf(std::path::PathBuf);

/// The message of the error that `compile_dex` returns.
pub open spec fn compile_dex_message() -> Seq<char> {
    "jni-high-build: compile_dex is not yet implemented; supply a pre-compiled .dex file"@
}

/// Compile a `.java` or `.kt` source file into a DEX blob and write it to `out_path`.
///
/// Not implemented: downstream crates supply pre-compiled DEX files via `include_bytes!`
/// and pass them as the `dex =` argument of `android_bridge!`. Always returns an error.
pub fn compile_dex(_source: &std::path::PathBuf, _out_path: &std::path::PathBuf) -> (r: Result<(), String>)
    ensures
        r matches Err(m) && m@ == compile_dex_message(),
{
    Err(String::from_str("jni-high-build: compile_dex is not yet implemented; supply a pre-compiled .dex file"))
}

} // verus!
