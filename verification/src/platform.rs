//! What this library takes on trust from the `jni` crate.

use vstd::prelude::*;

verus! {

/// The JNI interface version that the load hook reports to the host: 1.6.
pub open spec fn version_1_6() -> i32 {
    0x0001_0006
}

/// Reads `jni::sys::JNI_VERSION_1_6`.
///
/// Trusted, not proved: that the constant of `jni-sys` which `jni` re-exports
/// under this name holds the number `0x00010006`.
#[verifier::external_body]
pub(crate) fn jni_version_1_6() -> (token: i32)
    ensures
        token == version_1_6(),
{
    jni::sys::JNI_VERSION_1_6
}

} // verus!
