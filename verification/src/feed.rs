//! The decoded real-time feed, as far as the arrival lines read it.
//!
//! A feed is a sequence of entities; an entity may carry a trip update; a trip
//! update is a sequence of stop-time updates, in the order the provider gave.

use vstd::prelude::*;

verus! {

/// The predicted arrival at a stop: epoch seconds, and the delay in seconds.
#[derive(Clone, Copy, Debug)]
pub struct StopTimeEvent {
    pub time: Option<i64>,
    pub delay: Option<i32>,
}

/// The update for one stop of a trip. One without a stop identifier yields no
/// arrival line.
#[derive(Clone, Debug)]
pub struct StopTimeUpdate {
    pub stop_id: Option<String>,
    pub arrival: Option<StopTimeEvent>,
}

/// The predicted schedule of one trip.
#[derive(Clone, Debug)]
pub struct TripUpdate {
    pub stop_time_update: Vec<StopTimeUpdate>,
}

/// One element of the feed. Entities without a trip update are passed over.
#[derive(Clone, Debug)]
pub struct FeedEntity {
    pub trip_update: Option<TripUpdate>,
}

/// The decoded feed document. It may be empty.
#[derive(Clone, Debug)]
pub struct FeedMessage {
    pub entity: Vec<FeedEntity>,
}

} // verus!
