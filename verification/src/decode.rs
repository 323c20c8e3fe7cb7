//! Structural union decoding of aggregator response bodies.
//!
//! The aggregator answers with one of two JSON shapes that share no
//! discriminant field: a success object or an error object.  The caller
//! attempts to decode a body as each shape and hands both attempts here;
//! these functions turn the pair into the one event the protocol consumes,
//! preferring the success shape when both attempts somehow match.  The
//! classification is a function of its inputs alone, so classifying the
//! same decoded payload twice yields equal events.

use vstd::prelude::*;

use crate::model::{PosylkaAnswer, UpstreamError};
use crate::protocol::{FetchEvent, RegisterEvent};

verus! {

/// The event a tracking-fetch body yields: the successfully decoded answer
/// if the success shape matched, the upstream failure if only the error
/// shape matched, and a fault if neither did.
pub open spec fn spec_classify_track(
    success: Option<PosylkaAnswer>,
    failure: Option<UpstreamError>,
) -> FetchEvent {
    match success {
        Some(answer) => FetchEvent::Success { answer },
        None => match failure {
            Some(e) => FetchEvent::Failure { status: e.status, error: e.error },
            None => FetchEvent::Fault,
        },
    }
}

/// Classify the two decode attempts of a tracking-fetch body.
pub fn classify_track_body(success: Option<PosylkaAnswer>, failure: Option<UpstreamError>) -> (ev:
    FetchEvent)
    ensures
        ev == spec_classify_track(success, failure),
{
    match success {
        Some(answer) => FetchEvent::Success { answer },
        None => match failure {
            Some(e) => FetchEvent::Failure { status: e.status, error: e.error },
            None => FetchEvent::Fault,
        },
    }
}

/// The event a registration body yields: the aggregator's verdict if the
/// success shape matched, the upstream failure if only the error shape
/// matched, and an undecodable body if neither did.
pub open spec fn spec_classify_register(
    acknowledged: Option<String>,
    failure: Option<UpstreamError>,
) -> RegisterEvent {
    match acknowledged {
        Some(result) => RegisterEvent::Acknowledged { result },
        None => match failure {
            Some(e) => RegisterEvent::UpstreamFailure { status: e.status, error: e.error },
            None => RegisterEvent::BodyUndecodable,
        },
    }
}

/// Classify the two decode attempts of a registration body.
pub fn classify_register_body(acknowledged: Option<String>, failure: Option<UpstreamError>) -> (ev:
    RegisterEvent)
    ensures
        ev == spec_classify_register(acknowledged, failure),
{
    match acknowledged {
        Some(result) => RegisterEvent::Acknowledged { result },
        None => match failure {
            Some(e) => RegisterEvent::UpstreamFailure { status: e.status, error: e.error },
            None => RegisterEvent::BodyUndecodable,
        },
    }
}

} // verus!
