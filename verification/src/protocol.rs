//! The resolution protocol: carrier discovery, lazy registration of a
//! tracking code the aggregator does not know yet, and the single refetch
//! after registration.
//!
//! [`Resolution`] is a state machine over plain values.  The caller asks it
//! what to do next, performs the outbound request described by the returned
//! [`Action`], decodes the response into an event, and hands the event back.
//! The machine decides everything: which request comes next, when the run is
//! over, and which error of the taxonomy describes a failure.  The phase
//! only ever advances, so each kind of request is issued at most once per
//! resolution call.

use vstd::prelude::*;
use vstd::string::{StrSliceExecFns, StringExecFns};

use crate::model::PosylkaAnswer;

verus! {

/// Seconds the caller must wait after a successful registration before the
/// one refetch: the aggregator needs time to ingest a newly registered code.
pub const SETTLING_DELAY_SECS: u64 = 5;

/// Tracking codes shorter than this are rejected before any request is made.
pub const MIN_CODE_CHARS: usize = 7;

/// Where a resolution run stands.
#[derive(Clone, Copy, Debug, PartialEq, Eq, Structural)]
pub enum Phase {
    /// The carrier of the code is not known yet.
    Lookup,
    /// A carrier is chosen; the first tracking fetch is due.
    Fetch,
    /// The aggregator did not know the code; registration is due.
    Register,
    /// Registration succeeded; the one post-registration fetch is due.
    Refetch,
    /// The run is over, successfully or not.
    Done,
}

/// How far a phase lies along the protocol.  Every transition strictly
/// increases this rank.
pub open spec fn phase_rank(p: Phase) -> int {
    match p {
        Phase::Lookup => 0,
        Phase::Fetch => 1,
        Phase::Register => 2,
        Phase::Refetch => 3,
        Phase::Done => 4,
    }
}

/// The outbound request the caller must perform next.
#[derive(Debug)]
pub enum Action {
    /// `GET {base}/carriers/{code}`.
    LookupCarriers { code: String },
    /// `GET {base}/trackers/{carrier}/{code}`.
    FetchTracking { carrier: String, code: String },
    /// `POST {base}/trackers/{carrier}/{code}` with the given headers.
    RegisterTracking { carrier: String, code: String, headers: Vec<(String, String)> },
    /// Wait `delay_secs`, then `GET {base}/trackers/{carrier}/{code}` once.
    DelayAndRefetch { carrier: String, code: String, delay_secs: u64 },
}

/// What the carrier-lookup request produced.
#[derive(Debug)]
pub enum LookupEvent {
    /// Transport or HTTP failure, with the status and the resolved request
    /// URL for diagnostics.
    TransportFailure { status: u16, url: String },
    /// A decoded carrier list; may be empty.
    Carriers { codes: Vec<String> },
    /// The response body matched no expected shape, or the request itself
    /// faulted below the HTTP level.
    BodyUndecodable,
}

/// What a tracking fetch (first or post-registration) produced.
#[derive(Debug)]
pub enum FetchEvent {
    /// The success shape of the body: a resolved answer.
    Success { answer: PosylkaAnswer },
    /// The error shape of the body: an aggregator-reported failure.
    Failure { status: u16, error: String },
    /// The body matched neither shape, or the request itself faulted.
    Fault,
}

/// What the registration request produced.
#[derive(Debug)]
pub enum RegisterEvent {
    /// The request itself failed below the HTTP level.
    TransportFailure,
    /// The HTTP response carried a non-success status.
    HttpFailure { status: u16 },
    /// The body was the success shape; `result` is the aggregator's verdict.
    Acknowledged { result: String },
    /// The body was the error shape.
    UpstreamFailure { status: u16, error: String },
    /// The body matched neither shape.
    BodyUndecodable,
}

/// Why carrier lookup failed.
#[derive(Debug)]
pub enum LookupFault {
    /// Non-success transport/HTTP response.
    Transport { status: u16, url: String },
    /// The lookup succeeded but returned zero carriers: a semantic failure,
    /// not an empty-but-valid result.
    NoCarrierData,
}

/// Why registration failed.
#[derive(Debug)]
pub enum RegistrationFault {
    /// The request failed below the HTTP level.
    Transport,
    /// Non-success HTTP status.
    Http { status: u16 },
    /// The aggregator answered with its error shape.
    Upstream { message: String },
    /// The aggregator acknowledged the request but its verdict was not
    /// `"success"`.
    Unacknowledged { result: String },
}

/// The error taxonomy of a resolution run.  Every failure is local to the
/// call and carries what the caller needs for a readable message.
#[derive(Debug)]
pub enum ResolutionFailure {
    /// The tracking code is shorter than [`MIN_CODE_CHARS`]; nothing was
    /// sent upstream.
    InvalidInput { code: String },
    /// Carrier lookup failed, or returned no carriers.
    LookupFailure { fault: LookupFault },
    /// The tracking fetch returned an aggregator error other than
    /// "not found".
    UpstreamRejected { message: String },
    /// Registration failed at the transport level, at the HTTP level, or
    /// was acknowledged but not with `"success"`.
    RegistrationFailed { fault: RegistrationFault },
    /// The mandatory refetch after a successful registration still failed.
    PostRegistrationFetchFailed { code: String, message: String },
    /// A response body matched no expected shape.
    DecodingFailure,
}

/// What one step of the machine tells the caller: either the next request
/// to perform, or the final outcome of the run.
#[derive(Debug)]
pub enum Step {
    Continue(Action),
    Finished(Result<PosylkaAnswer, ResolutionFailure>),
}

/// One resolution run for one tracking code.  Holds the code, the API key
/// supplied at construction, the carrier once discovered, and the phase.
#[derive(Debug)]
pub struct Resolution {
    pub code: String,
    pub apikey: String,
    pub carrier: Option<String>,
    pub phase: Phase,
}

/// The headers a registration request must carry: the API key and a JSON
/// content type.
pub open spec fn registration_headers_ok(headers: Seq<(String, String)>, apikey: String) -> bool {
    &&& headers.len() == 2
    &&& headers[0].0@ == "X-Api-Key"@
    &&& headers[0].1 == apikey
    &&& headers[1].0@ == "Content-Type"@
    &&& headers[1].1@ == "application/json"@
}

impl Resolution {
    /// Once a carrier-dependent phase is reached, the carrier is known.
    pub open spec fn wf(self) -> bool {
        (self.phase is Fetch || self.phase is Register || self.phase is Refetch)
            ==> self.carrier is Some
    }

    /// The code and the API key never change over a run.
    pub open spec fn identity_kept(pre: Resolution, post: Resolution) -> bool {
        &&& post.code == pre.code
        &&& post.apikey == pre.apikey
    }

    /// A freshly begun run: nothing discovered yet, lookup due.
    pub open spec fn begun(code: String, apikey: String, m: Resolution, a: Action) -> bool {
        &&& m.code == code
        &&& m.apikey == apikey
        &&& m.carrier is None
        &&& m.phase is Lookup
        &&& a matches Action::LookupCarriers { code: c } && c == code
    }

    /// Start resolving `code`.  A code shorter than [`MIN_CODE_CHARS`]
    /// characters is rejected here, before any request exists to perform.
    pub fn begin(code: String, apikey: String) -> (r: Result<(Resolution, Action), ResolutionFailure>)
        ensures
            code@.len() >= MIN_CODE_CHARS ==> (r matches Ok(p) && Self::begun(
                code,
                apikey,
                p.0,
                p.1,
            ) && p.0.wf()),
            code@.len() < MIN_CODE_CHARS ==> (r matches Err(e)
                && e matches ResolutionFailure::InvalidInput { code: c } && c == code),
    {
        if code.as_str().unicode_len() < MIN_CODE_CHARS {
            Err(ResolutionFailure::InvalidInput { code })
        } else {
            let action = Action::LookupCarriers { code: code.clone() };
            let m = Resolution { code, apikey, carrier: None, phase: Phase::Lookup };
            Ok((m, action))
        }
    }

    /// What handling a lookup event must yield: a transport failure or an
    /// empty carrier list end the run with a `LookupFailure`; an undecodable
    /// body ends it with `DecodingFailure`; otherwise the first returned
    /// carrier is taken — a documented ambiguity — and the tracking fetch is
    /// due.
    pub open spec fn lookup_transition(
        pre: Resolution,
        ev: LookupEvent,
        post: Resolution,
        step: Step,
    ) -> bool {
        match ev {
            LookupEvent::TransportFailure { status, url } => {
                &&& post.phase is Done
                &&& step matches Step::Finished(r)
                &&& r matches Err(e)
                &&& e matches ResolutionFailure::LookupFailure { fault }
                &&& fault matches LookupFault::Transport { status: s, url: u }
                &&& s == status
                &&& u == url
            },
            LookupEvent::Carriers { codes } => {
                if codes@.len() == 0 {
                    &&& post.phase is Done
                    &&& step matches Step::Finished(r)
                    &&& r matches Err(e)
                    &&& e matches ResolutionFailure::LookupFailure { fault }
                    &&& fault is NoCarrierData
                } else {
                    &&& post.phase is Fetch
                    &&& post.carrier matches Some(c) && c == codes@[0]
                    &&& step matches Step::Continue(a)
                    &&& a matches Action::FetchTracking { carrier, code }
                    &&& carrier == codes@[0]
                    &&& code == pre.code
                }
            },
            LookupEvent::BodyUndecodable => {
                &&& post.phase is Done
                &&& step matches Step::Finished(r)
                &&& r matches Err(e)
                &&& e is DecodingFailure
            },
        }
    }

    /// Feed the outcome of the carrier lookup into the machine.
    pub fn on_lookup(&mut self, ev: LookupEvent) -> (step: Step)
        requires
            old(self).wf(),
            old(self).phase is Lookup,
        ensures
            final(self).wf(),
            Self::identity_kept(*old(self), *final(self)),
            phase_rank(final(self).phase) > phase_rank(old(self).phase),
            Self::lookup_transition(*old(self), ev, *final(self), step),
    {
        match ev {
            LookupEvent::TransportFailure { status, url } => {
                self.phase = Phase::Done;
                Step::Finished(
                    Err(
                        ResolutionFailure::LookupFailure {
                            fault: LookupFault::Transport { status, url },
                        },
                    ),
                )
            },
            LookupEvent::Carriers { codes } => {
                if codes.len() == 0 {
                    self.phase = Phase::Done;
                    Step::Finished(
                        Err(ResolutionFailure::LookupFailure { fault: LookupFault::NoCarrierData }),
                    )
                } else {
                    let carrier = codes[0].clone();
                    self.carrier = Some(carrier.clone());
                    self.phase = Phase::Fetch;
                    Step::Continue(Action::FetchTracking { carrier, code: self.code.clone() })
                }
            },
            LookupEvent::BodyUndecodable => {
                self.phase = Phase::Done;
                Step::Finished(Err(ResolutionFailure::DecodingFailure))
            },
        }
    }

    /// What handling the first fetch must yield: the success shape ends the
    /// run at once with the answer passed through unchanged; the error shape
    /// with status 404 makes registration due, with both required headers in
    /// the action; any other aggregator error ends the run with
    /// `UpstreamRejected`; an undecodable body with `DecodingFailure`.
    pub open spec fn fetch_transition(
        pre: Resolution,
        ev: FetchEvent,
        post: Resolution,
        step: Step,
    ) -> bool {
        match ev {
            FetchEvent::Success { answer } => {
                &&& post.phase is Done
                &&& step matches Step::Finished(r)
                &&& r matches Ok(a)
                &&& a == answer
            },
            FetchEvent::Failure { status, error } => {
                if status == 404 {
                    &&& post.phase is Register
                    &&& post.carrier == pre.carrier
                    &&& step matches Step::Continue(a)
                    &&& a matches Action::RegisterTracking { carrier, code, headers }
                    &&& pre.carrier matches Some(c) && carrier == c
                    &&& code == pre.code
                    &&& registration_headers_ok(headers@, pre.apikey)
                } else {
                    &&& post.phase is Done
                    &&& step matches Step::Finished(r)
                    &&& r matches Err(e)
                    &&& e matches ResolutionFailure::UpstreamRejected { message }
                    &&& message == error
                }
            },
            FetchEvent::Fault => {
                &&& post.phase is Done
                &&& step matches Step::Finished(r)
                &&& r matches Err(e)
                &&& e is DecodingFailure
            },
        }
    }

    /// Feed the outcome of the first tracking fetch into the machine.
    pub fn on_fetch(&mut self, ev: FetchEvent) -> (step: Step)
        requires
            old(self).wf(),
            old(self).phase is Fetch,
        ensures
            final(self).wf(),
            Self::identity_kept(*old(self), *final(self)),
            final(self).carrier == old(self).carrier,
            phase_rank(final(self).phase) > phase_rank(old(self).phase),
            Self::fetch_transition(*old(self), ev, *final(self), step),
    {
        match ev {
            FetchEvent::Success { answer } => {
                self.phase = Phase::Done;
                Step::Finished(Ok(answer))
            },
            FetchEvent::Failure { status, error } => {
                if status == 404 {
                    let carrier = self.carrier_value();
                    let headers = registration_headers(&self.apikey);
                    self.phase = Phase::Register;
                    Step::Continue(
                        Action::RegisterTracking { carrier, code: self.code.clone(), headers },
                    )
                } else {
                    self.phase = Phase::Done;
                    Step::Finished(Err(ResolutionFailure::UpstreamRejected { message: error }))
                }
            },
            FetchEvent::Fault => {
                self.phase = Phase::Done;
                Step::Finished(Err(ResolutionFailure::DecodingFailure))
            },
        }
    }

    /// What handling a registration event must yield: anything but an
    /// acknowledged `"success"` ends the run — transport, HTTP and upstream
    /// failures and a foreign verdict all map to `RegistrationFailed`, an
    /// undecodable body to `DecodingFailure` — while `"success"` makes the
    /// one delayed refetch due.
    pub open spec fn register_transition(
        pre: Resolution,
        ev: RegisterEvent,
        post: Resolution,
        step: Step,
    ) -> bool {
        match ev {
            RegisterEvent::TransportFailure => {
                &&& post.phase is Done
                &&& step matches Step::Finished(r)
                &&& r matches Err(e)
                &&& e matches ResolutionFailure::RegistrationFailed { fault }
                &&& fault is Transport
            },
            RegisterEvent::HttpFailure { status } => {
                &&& post.phase is Done
                &&& step matches Step::Finished(r)
                &&& r matches Err(e)
                &&& e matches ResolutionFailure::RegistrationFailed { fault }
                &&& fault matches RegistrationFault::Http { status: s }
                &&& s == status
            },
            RegisterEvent::Acknowledged { result } => {
                if result@ == "success"@ {
                    &&& post.phase is Refetch
                    &&& post.carrier == pre.carrier
                    &&& step matches Step::Continue(a)
                    &&& a matches Action::DelayAndRefetch { carrier, code, delay_secs }
                    &&& pre.carrier matches Some(c) && carrier == c
                    &&& code == pre.code
                    &&& delay_secs == SETTLING_DELAY_SECS
                } else {
                    &&& post.phase is Done
                    &&& step matches Step::Finished(r)
                    &&& r matches Err(e)
                    &&& e matches ResolutionFailure::RegistrationFailed { fault }
                    &&& fault matches RegistrationFault::Unacknowledged { result: res }
                    &&& res == result
                }
            },
            RegisterEvent::UpstreamFailure { status: _, error } => {
                &&& post.phase is Done
                &&& step matches Step::Finished(r)
                &&& r matches Err(e)
                &&& e matches ResolutionFailure::RegistrationFailed { fault }
                &&& fault matches RegistrationFault::Upstream { message }
                &&& message == error
            },
            RegisterEvent::BodyUndecodable => {
                &&& post.phase is Done
                &&& step matches Step::Finished(r)
                &&& r matches Err(e)
                &&& e is DecodingFailure
            },
        }
    }

    /// Feed the outcome of the registration request into the machine.
    pub fn on_register(&mut self, ev: RegisterEvent) -> (step: Step)
        requires
            old(self).wf(),
            old(self).phase is Register,
        ensures
            final(self).wf(),
            Self::identity_kept(*old(self), *final(self)),
            final(self).carrier == old(self).carrier,
            phase_rank(final(self).phase) > phase_rank(old(self).phase),
            Self::register_transition(*old(self), ev, *final(self), step),
    {
        match ev {
            RegisterEvent::TransportFailure => {
                self.phase = Phase::Done;
                Step::Finished(
                    Err(
                        ResolutionFailure::RegistrationFailed {
                            fault: RegistrationFault::Transport,
                        },
                    ),
                )
            },
            RegisterEvent::HttpFailure { status } => {
                self.phase = Phase::Done;
                Step::Finished(
                    Err(
                        ResolutionFailure::RegistrationFailed {
                            fault: RegistrationFault::Http { status },
                        },
                    ),
                )
            },
            RegisterEvent::Acknowledged { result } => {
                if is_success_verdict(&result) {
                    let carrier = self.carrier_value();
                    self.phase = Phase::Refetch;
                    Step::Continue(
                        Action::DelayAndRefetch {
                            carrier,
                            code: self.code.clone(),
                            delay_secs: SETTLING_DELAY_SECS,
                        },
                    )
                } else {
                    self.phase = Phase::Done;
                    Step::Finished(
                        Err(
                            ResolutionFailure::RegistrationFailed {
                                fault: RegistrationFault::Unacknowledged { result },
                            },
                        ),
                    )
                }
            },
            RegisterEvent::UpstreamFailure { status: _, error } => {
                self.phase = Phase::Done;
                Step::Finished(
                    Err(
                        ResolutionFailure::RegistrationFailed {
                            fault: RegistrationFault::Upstream { message: error },
                        },
                    ),
                )
            },
            RegisterEvent::BodyUndecodable => {
                self.phase = Phase::Done;
                Step::Finished(Err(ResolutionFailure::DecodingFailure))
            },
        }
    }

    /// What handling the post-registration fetch must yield: the run ends
    /// here whatever came back — the answer on the success shape, and
    /// `PostRegistrationFetchFailed` on the error shape with any status,
    /// 404 included: there is no second registration or refetch.
    pub open spec fn refetch_transition(
        pre: Resolution,
        ev: FetchEvent,
        post: Resolution,
        step: Step,
    ) -> bool {
        match ev {
            FetchEvent::Success { answer } => {
                &&& step matches Step::Finished(r)
                &&& r matches Ok(a)
                &&& a == answer
            },
            FetchEvent::Failure { status: _, error } => {
                &&& step matches Step::Finished(r)
                &&& r matches Err(e)
                &&& e matches ResolutionFailure::PostRegistrationFetchFailed { code, message }
                &&& code == pre.code
                &&& message == error
            },
            FetchEvent::Fault => {
                &&& step matches Step::Finished(r)
                &&& r matches Err(e)
                &&& e is DecodingFailure
            },
        }
    }

    /// Feed the outcome of the post-registration fetch into the machine.
    /// This phase is terminal: the machine is done whatever the event was.
    pub fn on_refetch(&mut self, ev: FetchEvent) -> (step: Step)
        requires
            old(self).wf(),
            old(self).phase is Refetch,
        ensures
            final(self).wf(),
            Self::identity_kept(*old(self), *final(self)),
            final(self).carrier == old(self).carrier,
            final(self).phase is Done,
            phase_rank(final(self).phase) > phase_rank(old(self).phase),
            Self::refetch_transition(*old(self), ev, *final(self), step),
    {
        self.phase = Phase::Done;
        match ev {
            FetchEvent::Success { answer } => Step::Finished(Ok(answer)),
            FetchEvent::Failure { status: _, error } => Step::Finished(
                Err(
                    ResolutionFailure::PostRegistrationFetchFailed {
                        code: self.code.clone(),
                        message: error,
                    },
                ),
            ),
            FetchEvent::Fault => Step::Finished(Err(ResolutionFailure::DecodingFailure)),
        }
    }

    /// The discovered carrier, in a phase where it must exist.
    fn carrier_value(&self) -> (c: String)
        requires
            self.carrier is Some,
        ensures
            self.carrier matches Some(cc) && c == cc,
    {
        match &self.carrier {
            Some(c) => c.clone(),
            None => vstd::pervasive::unreached(),
        }
    }
}

/// Whether the aggregator's registration verdict is the literal `"success"`.
fn is_success_verdict(result: &String) -> (b: bool)
    ensures
        b == (result@ == "success"@),
{
    let expected = String::from_str("success");
    *result == expected
}

/// The two headers every registration request carries.
fn registration_headers(apikey: &String) -> (h: Vec<(String, String)>)
    ensures
        registration_headers_ok(h@, *apikey),
{
    let mut h: Vec<(String, String)> = Vec::new();
    h.push((String::from_str("X-Api-Key"), apikey.clone()));
    h.push((String::from_str("Content-Type"), String::from_str("application/json")));
    h
}

/// Every adjacent pair of phases in `trace` strictly advances, as each
/// transition of [`Resolution`] guarantees.
pub open spec fn rank_increases(trace: Seq<Phase>) -> bool {
    forall|i: int|
        0 <= i < trace.len() - 1 ==> phase_rank(#[trigger] trace[i]) < phase_rank(trace[i + 1])
}

/// Rank keeps growing over any distance, not only between neighbours.
proof fn lemma_rank_chain(trace: Seq<Phase>, i: int, j: int)
    requires
        rank_increases(trace),
        0 <= i < j < trace.len(),
    ensures
        phase_rank(trace[i]) < phase_rank(trace[j]),
    decreases j - i,
{
    if i + 1 < j {
        lemma_rank_chain(trace, i + 1, j);
    }
}

/// Law: along one resolution run the phase strictly advances, so no phase
/// ever recurs — in particular, registration is issued at most once and the
/// post-registration fetch happens at most once, whatever events arrive.
pub proof fn lemma_no_phase_repeats(trace: Seq<Phase>)
    requires
        rank_increases(trace),
    ensures
        forall|i: int, j: int| 0 <= i < j < trace.len() ==> trace[i] != trace[j],
{
    assert forall|i: int, j: int| 0 <= i < j < trace.len() implies trace[i] != trace[j] by {
        lemma_rank_chain(trace, i, j);
    }
}

} // verus!
