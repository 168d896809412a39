//! Verified core of an OpenAL-style audio buffer layer.
//!
//! The crate models the native audio subsystem (handle table, error
//! register, capability set, current-context lock) as explicit state, and
//! verifies the buffer lifecycle, the sample-format resolution table, the
//! capability gating and the generic property-access protocol against it.
//! The real native calls are issued by an unverified shell that reuses the
//! decision functions proved here.

pub mod buffer;
pub mod context;
pub mod data;
pub mod error;
pub mod extension;
pub mod properties;
