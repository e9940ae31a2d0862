//! Recognising the game's libraries by file name.
use vstd::prelude::*;

use crate::text::{contains, ends_with, str_contains, str_ends_with};

verus! {

/// File name test for the IL2CPP library, bundled as `GameAssembly` on iOS.
pub open spec fn is_il2cpp_name(filename: Seq<char>) -> bool {
    contains(filename, "GameAssembly"@) || ends_with(filename, "libil2cpp.dylib"@)
}

/// File name test for the CRI Ware middleware library.
pub open spec fn is_criware_name(filename: Seq<char>) -> bool {
    contains(filename, "cri_ware"@) || ends_with(filename, "libcri_ware_unity.dylib"@)
}

/// Whether `filename` names the IL2CPP library.
pub fn is_il2cpp_lib(filename: &str) -> (r: bool)
    ensures
        r == is_il2cpp_name(filename@),
        contains(filename@, "GameAssembly"@) ==> r,
        ends_with(filename@, "libil2cpp.dylib"@) ==> r,
{
    str_contains(filename, "GameAssembly") || str_ends_with(filename, "libil2cpp.dylib")
}

/// Whether `filename` names the CRI Ware middleware library.
pub fn is_criware_lib(filename: &str) -> (r: bool)
    ensures
        r == is_criware_name(filename@),
        contains(filename@, "cri_ware"@) ==> r,
        ends_with(filename@, "libcri_ware_unity.dylib"@) ==> r,
{
    str_contains(filename, "cri_ware") || str_ends_with(filename, "libcri_ware_unity.dylib")
}

/// Any file name in which `GameAssembly` occurs, or that ends with
/// `libil2cpp.dylib`, names the IL2CPP library, and no other does.
pub proof fn law_il2cpp_names(filename: Seq<char>)
    ensures
        contains(filename, "GameAssembly"@) ==> is_il2cpp_name(filename),
        ends_with(filename, "libil2cpp.dylib"@) ==> is_il2cpp_name(filename),
        !contains(filename, "GameAssembly"@) && !ends_with(filename, "libil2cpp.dylib"@)
            ==> !is_il2cpp_name(filename),
{
}

/// Any file name in which `cri_ware` occurs, or that ends with
/// `libcri_ware_unity.dylib`, names the CRI Ware library, and no other does.
pub proof fn law_criware_names(filename: Seq<char>)
    ensures
        contains(filename, "cri_ware"@) ==> is_criware_name(filename),
        ends_with(filename, "libcri_ware_unity.dylib"@) ==> is_criware_name(filename),
        !contains(filename, "cri_ware"@) && !ends_with(filename, "libcri_ware_unity.dylib"@)
            ==> !is_criware_name(filename),
{
}

} // verus!
