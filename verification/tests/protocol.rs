//! Tests driving the resolution state machine through every path of the
//! protocol: rejection of short codes, carrier lookup outcomes, lazy
//! registration, and the single post-registration refetch.

use moyaposylka::model::{Attributes, PosylkaAnswer, PosylkaEvent};
use moyaposylka::protocol::{
    Action, FetchEvent, LookupEvent, Phase, RegisterEvent, RegistrationFault, Resolution,
    ResolutionFailure, Step, LookupFault, MIN_CODE_CHARS, SETTLING_DELAY_SECS,
};

fn begin(code: &str) -> (Resolution, Action) {
    Resolution::begin(code.to_string(), "key".to_string()).expect("begin should succeed")
}

fn sample_answer(delivered: bool) -> PosylkaAnswer {
    PosylkaAnswer {
        attributes: Attributes {
            recipient: "Ivan".to_string(),
            estimated_delivery: "2024-01-01".to_string(),
        },
        events: vec![PosylkaEvent {
            event_date: 1700000000000,
            operation: "Delivered".to_string(),
            location: "Moscow".to_string(),
        }],
        delivered,
    }
}

#[test]
fn short_code_is_invalid_input() {
    for code in ["", "1", "123456", "цифры"] {
        match Resolution::begin(code.to_string(), "key".to_string()) {
            Err(ResolutionFailure::InvalidInput { code: c }) => assert_eq!(c, code),
            other => panic!("expected InvalidInput for {code:?}, got {other:?}"),
        }
    }
}

#[test]
fn minimum_length_counts_characters() {
    // Seven Cyrillic characters are more than seven bytes but still a valid code.
    let (m, a) = begin("АБВГДЕЖ");
    assert!(matches!(m.phase, Phase::Lookup));
    assert!(matches!(a, Action::LookupCarriers { code } if code == "АБВГДЕЖ"));
    assert_eq!(MIN_CODE_CHARS, 7);
}

#[test]
fn empty_carrier_set_is_lookup_failure() {
    let (mut m, _) = begin("9999999");
    let step = m.on_lookup(LookupEvent::Carriers { codes: vec![] });
    match step {
        Step::Finished(Err(ResolutionFailure::LookupFailure {
            fault: LookupFault::NoCarrierData,
        })) => {}
        other => panic!("expected LookupFailure, got {other:?}"),
    }
    assert!(matches!(m.phase, Phase::Done));
}

#[test]
fn lookup_transport_failure_carries_status_and_url() {
    let (mut m, _) = begin("1234567");
    let step = m.on_lookup(LookupEvent::TransportFailure {
        status: 503,
        url: "https://host/carriers/1234567".to_string(),
    });
    match step {
        Step::Finished(Err(ResolutionFailure::LookupFailure {
            fault: LookupFault::Transport { status, url },
        })) => {
            assert_eq!(status, 503);
            assert_eq!(url, "https://host/carriers/1234567");
        }
        other => panic!("expected transport LookupFailure, got {other:?}"),
    }
}

#[test]
fn undecodable_lookup_body_is_decoding_failure() {
    let (mut m, _) = begin("1234567");
    match m.on_lookup(LookupEvent::BodyUndecodable) {
        Step::Finished(Err(ResolutionFailure::DecodingFailure)) => {}
        other => panic!("expected DecodingFailure, got {other:?}"),
    }
}

#[test]
fn first_carrier_is_taken() {
    let (mut m, _) = begin("1234567");
    let step = m.on_lookup(LookupEvent::Carriers {
        codes: vec!["cdek".to_string(), "pochta".to_string()],
    });
    match step {
        Step::Continue(Action::FetchTracking { carrier, code }) => {
            assert_eq!(carrier, "cdek");
            assert_eq!(code, "1234567");
        }
        other => panic!("expected FetchTracking, got {other:?}"),
    }
    assert!(matches!(m.phase, Phase::Fetch));
}

#[test]
fn successful_fetch_passes_answer_through() {
    let (mut m, _) = begin("1234567");
    m.on_lookup(LookupEvent::Carriers { codes: vec!["cdek".to_string()] });
    let step = m.on_fetch(FetchEvent::Success { answer: sample_answer(true) });
    match step {
        Step::Finished(Ok(answer)) => {
            assert!(answer.delivered);
            assert_eq!(answer.events.len(), 1);
            assert_eq!(answer.events[0].operation, "Delivered");
            assert_eq!(answer.events[0].event_date, 1700000000000);
            assert_eq!(answer.attributes.recipient, "Ivan");
            assert_eq!(answer.attributes.estimated_delivery, "2024-01-01");
            assert_eq!(answer, sample_answer(true));
        }
        other => panic!("expected success, got {other:?}"),
    }
    assert!(matches!(m.phase, Phase::Done));
}

#[test]
fn non_404_error_is_upstream_rejected() {
    let (mut m, _) = begin("1234567");
    m.on_lookup(LookupEvent::Carriers { codes: vec!["cdek".to_string()] });
    let step = m.on_fetch(FetchEvent::Failure { status: 500, error: "boom".to_string() });
    match step {
        Step::Finished(Err(ResolutionFailure::UpstreamRejected { message })) => {
            assert_eq!(message, "boom");
        }
        other => panic!("expected UpstreamRejected, got {other:?}"),
    }
}

#[test]
fn fetch_404_triggers_registration_with_headers() {
    let (mut m, _) = begin("1234567");
    m.on_lookup(LookupEvent::Carriers { codes: vec!["cdek".to_string()] });
    let step = m.on_fetch(FetchEvent::Failure { status: 404, error: "not found".to_string() });
    match step {
        Step::Continue(Action::RegisterTracking { carrier, code, headers }) => {
            assert_eq!(carrier, "cdek");
            assert_eq!(code, "1234567");
            assert_eq!(headers.len(), 2);
            assert_eq!(headers[0].0, "X-Api-Key");
            assert_eq!(headers[0].1, "key");
            assert_eq!(headers[1].0, "Content-Type");
            assert_eq!(headers[1].1, "application/json");
        }
        other => panic!("expected RegisterTracking, got {other:?}"),
    }
    assert!(matches!(m.phase, Phase::Register));
}

#[test]
fn fetch_fault_is_decoding_failure() {
    let (mut m, _) = begin("1234567");
    m.on_lookup(LookupEvent::Carriers { codes: vec!["cdek".to_string()] });
    match m.on_fetch(FetchEvent::Fault) {
        Step::Finished(Err(ResolutionFailure::DecodingFailure)) => {}
        other => panic!("expected DecodingFailure, got {other:?}"),
    }
}

fn up_to_register(code: &str) -> Resolution {
    let (mut m, _) = begin(code);
    m.on_lookup(LookupEvent::Carriers { codes: vec!["cdek".to_string()] });
    m.on_fetch(FetchEvent::Failure { status: 404, error: "not found".to_string() });
    assert!(matches!(m.phase, Phase::Register));
    m
}

#[test]
fn successful_registration_schedules_one_delayed_refetch() {
    let mut m = up_to_register("1234567");
    let step = m.on_register(RegisterEvent::Acknowledged { result: "success".to_string() });
    match step {
        Step::Continue(Action::DelayAndRefetch { carrier, code, delay_secs }) => {
            assert_eq!(carrier, "cdek");
            assert_eq!(code, "1234567");
            assert_eq!(delay_secs, SETTLING_DELAY_SECS);
            assert_eq!(delay_secs, 5);
        }
        other => panic!("expected DelayAndRefetch, got {other:?}"),
    }
    assert!(matches!(m.phase, Phase::Refetch));
}

#[test]
fn unacknowledged_registration_fails_without_refetch() {
    let mut m = up_to_register("1234567");
    let step = m.on_register(RegisterEvent::Acknowledged { result: "pending".to_string() });
    match step {
        Step::Finished(Err(ResolutionFailure::RegistrationFailed {
            fault: RegistrationFault::Unacknowledged { result },
        })) => assert_eq!(result, "pending"),
        other => panic!("expected RegistrationFailed, got {other:?}"),
    }
    assert!(matches!(m.phase, Phase::Done));
}

#[test]
fn registration_http_failure_carries_status() {
    let mut m = up_to_register("1234567");
    match m.on_register(RegisterEvent::HttpFailure { status: 403 }) {
        Step::Finished(Err(ResolutionFailure::RegistrationFailed {
            fault: RegistrationFault::Http { status },
        })) => assert_eq!(status, 403),
        other => panic!("expected RegistrationFailed, got {other:?}"),
    }
}

#[test]
fn registration_transport_failure_is_registration_failed() {
    let mut m = up_to_register("1234567");
    match m.on_register(RegisterEvent::TransportFailure) {
        Step::Finished(Err(ResolutionFailure::RegistrationFailed {
            fault: RegistrationFault::Transport,
        })) => {}
        other => panic!("expected RegistrationFailed, got {other:?}"),
    }
}

#[test]
fn registration_upstream_error_carries_message() {
    let mut m = up_to_register("1234567");
    let step = m.on_register(RegisterEvent::UpstreamFailure {
        status: 400,
        error: "bad carrier".to_string(),
    });
    match step {
        Step::Finished(Err(ResolutionFailure::RegistrationFailed {
            fault: RegistrationFault::Upstream { message },
        })) => assert_eq!(message, "bad carrier"),
        other => panic!("expected RegistrationFailed, got {other:?}"),
    }
}

#[test]
fn undecodable_registration_body_is_decoding_failure() {
    let mut m = up_to_register("1234567");
    match m.on_register(RegisterEvent::BodyUndecodable) {
        Step::Finished(Err(ResolutionFailure::DecodingFailure)) => {}
        other => panic!("expected DecodingFailure, got {other:?}"),
    }
}

fn up_to_refetch(code: &str) -> Resolution {
    let mut m = up_to_register(code);
    m.on_register(RegisterEvent::Acknowledged { result: "success".to_string() });
    assert!(matches!(m.phase, Phase::Refetch));
    m
}

#[test]
fn refetch_success_is_final() {
    let mut m = up_to_refetch("1234567");
    match m.on_refetch(FetchEvent::Success { answer: sample_answer(false) }) {
        Step::Finished(Ok(answer)) => assert!(!answer.delivered),
        other => panic!("expected success, got {other:?}"),
    }
    assert!(matches!(m.phase, Phase::Done));
}

#[test]
fn refetch_404_does_not_register_again() {
    let mut m = up_to_refetch("1234567");
    let step = m.on_refetch(FetchEvent::Failure { status: 404, error: "not found".to_string() });
    match step {
        Step::Finished(Err(ResolutionFailure::PostRegistrationFetchFailed { code, message })) => {
            assert_eq!(code, "1234567");
            assert_eq!(message, "not found");
        }
        other => panic!("expected PostRegistrationFetchFailed, got {other:?}"),
    }
    assert!(matches!(m.phase, Phase::Done));
}

#[test]
fn scenario_delivered_parcel() {
    // Code "1234567": the carrier lookup finds cdek and the first fetch
    // already carries the delivered answer with one event.
    let (mut m, a) = begin("1234567");
    assert!(matches!(a, Action::LookupCarriers { code } if code == "1234567"));
    let step = m.on_lookup(LookupEvent::Carriers { codes: vec!["cdek".to_string()] });
    assert!(matches!(step, Step::Continue(Action::FetchTracking { .. })));
    let step = m.on_fetch(FetchEvent::Success { answer: sample_answer(true) });
    match step {
        Step::Finished(Ok(answer)) => {
            assert!(answer.delivered);
            assert_eq!(answer.events.len(), 1);
        }
        other => panic!("expected success, got {other:?}"),
    }
}

#[test]
fn scenario_refetch_still_failing() {
    // Code "5555555": first fetch reports 404, registration succeeds, the
    // delayed refetch reports 500 "boom" and that failure is final.
    let (mut m, _) = begin("5555555");
    m.on_lookup(LookupEvent::Carriers { codes: vec!["cdek".to_string()] });
    let step = m.on_fetch(FetchEvent::Failure { status: 404, error: "not found".to_string() });
    assert!(matches!(step, Step::Continue(Action::RegisterTracking { .. })));
    let step = m.on_register(RegisterEvent::Acknowledged { result: "success".to_string() });
    assert!(matches!(step, Step::Continue(Action::DelayAndRefetch { .. })));
    let step = m.on_refetch(FetchEvent::Failure { status: 500, error: "boom".to_string() });
    match step {
        Step::Finished(Err(ResolutionFailure::PostRegistrationFetchFailed { code, message })) => {
            assert_eq!(code, "5555555");
            assert_eq!(message, "boom");
        }
        other => panic!("expected PostRegistrationFetchFailed, got {other:?}"),
    }
}
