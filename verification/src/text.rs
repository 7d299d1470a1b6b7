//! The fixed diagnostic texts the bridge can resolve with.
//!
//! Each text exists twice: a spec function giving the characters that the
//! contracts speak of, and an executable constructor proved to return exactly
//! those characters.

use vstd::prelude::*;

verus! {

/// The error text of the command-level entry point on a platform without the
/// capability.
pub open spec fn unsupported_platform_text() -> Seq<char> {
    "Biometric authentication is only supported on macOS"@
}

pub fn unsupported_platform_message() -> (r: String)
    ensures
        r@ == unsupported_platform_text(),
{
    "Biometric authentication is only supported on macOS".to_owned()
}

/// The failure text of the bridge itself on a platform without the capability.
pub open spec fn unsupported_capability_text() -> Seq<char> {
    "capability not supported on this platform"@
}

pub fn unsupported_capability_message() -> (r: String)
    ensures
        r@ == unsupported_capability_text(),
{
    "capability not supported on this platform".to_owned()
}

/// The fallback failure text when the policy pre-check says evaluation is
/// impossible and the platform supplied no diagnostic of its own.
pub open spec fn unavailable_text() -> Seq<char> {
    "Biometric authentication not available on this device"@
}

pub fn unavailable_message() -> (r: String)
    ensures
        r@ == unavailable_text(),
{
    "Biometric authentication not available on this device".to_owned()
}

/// The fallback failure text when the completion callback reports failure and
/// carries no decodable diagnostic.
pub open spec fn generic_failure_text() -> Seq<char> {
    "Authentication failed"@
}

pub fn generic_failure_message() -> (r: String)
    ensures
        r@ == generic_failure_text(),
{
    "Authentication failed".to_owned()
}

/// The failure text when the worker terminated without delivering an outcome:
/// a defect of the bridge's own bookkeeping, surfaced instead of a hang.
pub open spec fn internal_error_text() -> Seq<char> {
    "internal communication error"@
}

pub fn internal_error_message() -> (r: String)
    ensures
        r@ == internal_error_text(),
{
    "internal communication error".to_owned()
}

/// The message of the flat result shape when authentication succeeded.
pub open spec fn success_text() -> Seq<char> {
    "Authentication successful"@
}

pub fn success_message() -> (r: String)
    ensures
        r@ == success_text(),
{
    "Authentication successful".to_owned()
}

/// None of the failure texts is empty, so a resolved failure always carries a
/// readable message.
pub proof fn lemma_texts_nonempty()
    ensures
        unsupported_platform_text().len() > 0,
        unsupported_capability_text().len() > 0,
        unavailable_text().len() > 0,
        generic_failure_text().len() > 0,
        internal_error_text().len() > 0,
        success_text().len() > 0,
{
    reveal_strlit("Biometric authentication is only supported on macOS");
    reveal_strlit("capability not supported on this platform");
    reveal_strlit("Biometric authentication not available on this device");
    reveal_strlit("Authentication failed");
    reveal_strlit("internal communication error");
    reveal_strlit("Authentication successful");
}

} // verus!
