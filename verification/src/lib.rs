//! Reference-counted, type-tagged handles over objects of a COM-style native
//! layer, together with a linear interface-version chain built on those
//! handles.
//!
//! The native layer itself (an externally managed table of objects, each with
//! a strong-reference count and a set of supported interface identities) is
//! modeled explicitly by [`native::NativeLayer`], so that every lifecycle
//! operation a handle performs — acquire, release, negotiation — is verified
//! to keep the client-visible ownership operations in exact one-to-one
//! correspondence with the native reference-count operations.

pub mod chain;
pub mod handle;
pub mod laws;
pub mod native;
