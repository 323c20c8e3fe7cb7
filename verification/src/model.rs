//! Value objects exchanged with the tracking aggregator: the resolved state
//! of a parcel, its history entries, and the shape of an upstream-reported
//! failure.  All of them live for one resolution call and are never shared.

use vstd::prelude::*;

verus! {

/// Recipient and schedule details of a parcel, as the aggregator reports
/// them.  Both fields may be empty.
#[derive(Debug, PartialEq, Eq)]
pub struct Attributes {
    pub recipient: String,
    pub estimated_delivery: String,
}

/// Mathematical model of [`Attributes`].
pub struct AttributesModel {
    pub recipient: Seq<char>,
    pub estimated_delivery: Seq<char>,
}

impl View for Attributes {
    type V = AttributesModel;

    open spec fn view(&self) -> AttributesModel {
        AttributesModel {
            recipient: self.recipient@,
            estimated_delivery: self.estimated_delivery@,
        }
    }
}

/// One history entry of a parcel.  `event_date` is an epoch-milliseconds
/// timestamp; the core never interprets or localizes it.
#[derive(Debug, PartialEq, Eq)]
pub struct PosylkaEvent {
    pub event_date: i64,
    pub operation: String,
    pub location: String,
}

/// Mathematical model of [`PosylkaEvent`].
pub struct PosylkaEventModel {
    pub event_date: int,
    pub operation: Seq<char>,
    pub location: Seq<char>,
}

impl View for PosylkaEvent {
    type V = PosylkaEventModel;

    open spec fn view(&self) -> PosylkaEventModel {
        PosylkaEventModel {
            event_date: self.event_date as int,
            operation: self.operation@,
            location: self.location@,
        }
    }
}

/// The resolved state of a parcel: who receives it, whether it was
/// delivered, and its history newest first, exactly as the aggregator
/// ordered it.
#[derive(Debug, PartialEq, Eq)]
pub struct PosylkaAnswer {
    pub attributes: Attributes,
    pub events: Vec<PosylkaEvent>,
    pub delivered: bool,
}

/// Mathematical model of [`PosylkaAnswer`].
pub struct PosylkaAnswerModel {
    pub attributes: AttributesModel,
    pub events: Seq<PosylkaEventModel>,
    pub delivered: bool,
}

impl View for PosylkaAnswer {
    type V = PosylkaAnswerModel;

    open spec fn view(&self) -> PosylkaAnswerModel {
        PosylkaAnswerModel {
            attributes: self.attributes@,
            events: self.events@.map_values(|e: PosylkaEvent| e@),
            delivered: self.delivered,
        }
    }
}

/// An aggregator-reported failure: an integer status code and a free-text
/// message.  Never handed to the caller directly; the protocol translates it
/// into its own error taxonomy.
#[derive(Debug, PartialEq, Eq)]
pub struct UpstreamError {
    pub status: u16,
    pub error: String,
}

} // verus!
