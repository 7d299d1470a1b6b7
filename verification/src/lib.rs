//! A bridge from a callback-based, platform-native biometric-authentication
//! capability to a single awaited outcome.
//!
//! The bridge itself performs no biometric matching and no I/O: it decides.
//! Given what the platform capability reported during one run — the policy
//! pre-check, the completion callback's values, or the loss of the worker —
//! it resolves exactly one [`outcome::AuthOutcome`]. The unverified shell
//! around the library spawns the worker, makes the native call, and feeds
//! every observation through these functions.

pub mod bridge;
pub mod outcome;
pub mod text;
