//! Loading the bridge's DEX file.
use vstd::prelude::*;
use crate::text::{append_str, chars_of, string_of};

verus! {

/// The file the DEX is written to for the `DexClassLoader` fallback, under the code cache.
pub open spec fn spec_dex_file(dir: Seq<char>) -> Seq<char> {
    dir + "/jni_high_bridge.dex"@
}

/// The optimized-output directory of the `DexClassLoader` fallback, under the code cache.
pub open spec fn spec_oats_dir(dir: Seq<char>) -> Seq<char> {
    dir + "/oats"@
}

/// The path of the DEX file written under the code cache directory `dir`.
pub fn dex_file_path(dir: &str) -> (r: String)
    ensures
        r@ == spec_dex_file(dir@),
{
    let mut v = chars_of(dir);
    append_str(&mut v, "/jni_high_bridge.dex");
    string_of(&v)
}

/// The optimized-output directory under the code cache directory `dir`.
pub fn oats_dir_path(dir: &str) -> (r: String)
    ensures
        r@ == spec_oats_dir(dir@),
{
    let mut v = chars_of(dir);
    append_str(&mut v, "/oats");
    string_of(&v)
}

} // verus!
