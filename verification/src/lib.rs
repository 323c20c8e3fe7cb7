//! Resolution of parcel tracking numbers against a third-party tracking
//! aggregator.
//!
//! The heart of the crate is the resolution protocol in [`protocol`]: carrier
//! discovery, lazy registration of unknown tracking codes, and the single
//! retry after registration, together with the error taxonomy each step can
//! produce.  The protocol is a verified state machine over plain values; the
//! caller performs the outbound requests it asks for and feeds the decoded
//! responses back in.

pub mod decode;
pub mod model;
pub mod protocol;
pub mod text;
