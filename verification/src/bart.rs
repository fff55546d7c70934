//! The request and the response of the next-train endpoint.

use vstd::prelude::*;
use vstd::string::StringExecFns;
use crate::arrival::{decimal_string, decimal_text};
use crate::assembler::{all_lines, assemble_response, slot_text};
use crate::feed::FeedMessage;

verus! {

/// Where the provider publishes its real-time feed.
pub const FEED_URL: &'static str = "https://api.bart.gov/gtfsrt/tripupdate.aspx";

/// The status of a reply that carries the arrival lines.
pub const STATUS_OK: u16 = 200;

/// The status of a reply to a request whose body was not valid.
pub const STATUS_BAD_REQUEST: u16 = 400;

/// The status of a reply when the feed could not be had or read.
pub const STATUS_SERVER_ERROR: u16 = 500;

/// What a rider asks: a direction, a station, a line, and whether times are
/// wanted as clock times rather than minutes.
#[derive(Clone, Debug)]
pub struct BartIncomingRequest {
    pub direction: i8,
    pub station: String,
    pub line: String,
    pub show_time_not_minutes: bool,
}

/// What a rider is told: one outbound slot and three inbound slots. Each holds
/// an arrival line, or the text that says that there is none.
#[derive(Clone, Debug)]
pub struct BartOutgoingResponse {
    pub outbound_train: String,
    pub inbound_train_0: String,
    pub inbound_train_1: String,
    pub inbound_train_2: String,
}

/// Why a request was not answered with arrival lines. Each failure carries the
/// detail that its source reported.
#[derive(Clone, Debug)]
pub enum FeedError {
    /// The request body did not have the expected shape.
    RequestValidation(String),
    /// The provider could not be reached, or answered with a status that is not
    /// a success.
    UpstreamUnavailable(String),
    /// The provider's bytes are not a feed document.
    MalformedFeed(String),
}

/// What the feed client saw of its one attempt.
#[derive(Clone, Debug)]
pub enum FetchOutcome {
    /// A response arrived, with this status and this body.
    Response { status: u16, bytes: Vec<u8> },
    /// No response arrived: the connection failed or the deadline passed.
    ConnectFailed(String),
    /// A response began and its body could not be read to the end.
    ReadFailed(String),
}

/// The body of a reply.
#[derive(Clone, Debug)]
pub enum ReplyBody {
    /// The four slots, sent as a JSON object.
    Trains(BartOutgoingResponse),
    /// A plain-text message.
    Text(String),
}

/// A reply to the rider: a status and a body.
#[derive(Clone, Debug)]
pub struct HttpReply {
    pub status: u16,
    pub body: ReplyBody,
}

/// What has just happened while a request is handled.
#[derive(Debug)]
pub enum HandlerEvent {
    /// The request body was read: the request, or what was wrong with the body.
    RequestParsed(Result<BartIncomingRequest, String>),
    /// The feed client finished its attempt.
    Fetched(FetchOutcome),
    /// The provider's bytes were decoded: the feed, or why they are none.
    Decoded(Result<FeedMessage, String>),
}

/// What is to be done next for a request.
#[derive(Clone, Debug)]
pub enum HandlerAction {
    /// Make one GET request to `FEED_URL`.
    Fetch,
    /// Decode these bytes as a feed document.
    Decode(Vec<u8>),
    /// Send this reply; the request is finished.
    Reply(HttpReply),
}

/// Whether a status is a success.
pub open spec fn is_success_status(status: u16) -> bool {
    200 <= status < 300
}

/// The status that a failure is reported with.
pub open spec fn error_status(error: FeedError) -> u16 {
    match error {
        FeedError::RequestValidation(_) => STATUS_BAD_REQUEST,
        FeedError::UpstreamUnavailable(_) => STATUS_SERVER_ERROR,
        FeedError::MalformedFeed(_) => STATUS_SERVER_ERROR,
    }
}

/// The message that a failure is reported with: what failed, then the detail.
pub open spec fn error_message(error: FeedError) -> Seq<char> {
    match error {
        FeedError::RequestValidation(detail) => "Invalid request body: "@ + detail@,
        FeedError::UpstreamUnavailable(detail) => "Failed to fetch BART data: "@ + detail@,
        FeedError::MalformedFeed(detail) => "Failed to decode protobuf: "@ + detail@,
    }
}

/// The detail reported for a failed fetch.
pub open spec fn fetch_failure_detail(outcome: FetchOutcome) -> Seq<char> {
    match outcome {
        FetchOutcome::Response { status, bytes } => "HTTP status "@ + decimal_text(status as nat),
        FetchOutcome::ConnectFailed(detail) => detail@,
        FetchOutcome::ReadFailed(detail) => "could not read the response: "@ + detail@,
    }
}

/// Whether a fetch brought a feed document's bytes.
pub open spec fn fetch_succeeded(outcome: FetchOutcome) -> bool {
    outcome matches FetchOutcome::Response { status, bytes } && is_success_status(status)
}

/// `reply` reports `error`: its status and its message.
pub open spec fn reply_reports(reply: HttpReply, error: FeedError) -> bool {
    &&& reply.status == error_status(error)
    &&& reply.body matches ReplyBody::Text(text) && text@ == error_message(error)
}

/// `reply` carries the response for `feed`: status 200 and the first four
/// arrival lines of the feed, each missing one replaced by the text that says so.
pub open spec fn reply_carries(reply: HttpReply, feed: FeedMessage) -> bool {
    &&& reply.status == STATUS_OK
    &&& reply.body matches ReplyBody::Trains(trains) && {
        &&& trains.outbound_train@ == slot_text(all_lines(feed), 0)
        &&& trains.inbound_train_0@ == slot_text(all_lines(feed), 1)
        &&& trains.inbound_train_1@ == slot_text(all_lines(feed), 2)
        &&& trains.inbound_train_2@ == slot_text(all_lines(feed), 3)
    }
}

impl FeedError {
    /// The status that this failure is reported with: 400 for a request that was
    /// not valid, 500 for everything that went wrong upstream.
    pub fn status_code(&self) -> (r: u16)
        ensures
            r == error_status(*self),
    {
        match self {
            FeedError::RequestValidation(_) => STATUS_BAD_REQUEST,
            FeedError::UpstreamUnavailable(_) => STATUS_SERVER_ERROR,
            FeedError::MalformedFeed(_) => STATUS_SERVER_ERROR,
        }
    }

    /// The message that this failure is reported with.
    pub fn message(&self) -> (r: String)
        ensures
            r@ == error_message(*self),
    {
        match self {
            FeedError::RequestValidation(detail) => {
                let mut text = "Invalid request body: ".to_owned();
                text.append(detail.as_str());
                text
            },
            FeedError::UpstreamUnavailable(detail) => {
                let mut text = "Failed to fetch BART data: ".to_owned();
                text.append(detail.as_str());
                text
            },
            FeedError::MalformedFeed(detail) => {
                let mut text = "Failed to decode protobuf: ".to_owned();
                text.append(detail.as_str());
                text
            },
        }
    }

    /// The reply that reports this failure.
    pub fn into_reply(self) -> (r: HttpReply)
        ensures
            reply_reports(r, self),
    {
        HttpReply { status: self.status_code(), body: ReplyBody::Text(self.message()) }
    }
}

/// Judges what the feed client saw: a response with a success status yields
/// its body; every other outcome is the provider being unavailable.
pub fn classify_fetch(outcome: FetchOutcome) -> (r: Result<Vec<u8>, FeedError>)
    ensures
        match r {
            Ok(body) => outcome matches FetchOutcome::Response { status, bytes }
                && is_success_status(status) && body@ == bytes@,
            Err(error) => {
                &&& !fetch_succeeded(outcome)
                &&& error matches FeedError::UpstreamUnavailable(detail)
                &&& detail@ == fetch_failure_detail(outcome)
            },
        },
{
    match outcome {
        FetchOutcome::Response { status, bytes } => {
            if 200 <= status && status < 300 {
                Ok(bytes)
            } else {
                let mut detail = "HTTP status ".to_owned();
                let number = decimal_string(status as u32);
                detail.append(number.as_str());
                Err(FeedError::UpstreamUnavailable(detail))
            }
        },
        FetchOutcome::ConnectFailed(detail) => Err(FeedError::UpstreamUnavailable(detail)),
        FetchOutcome::ReadFailed(detail) => {
            let mut text = "could not read the response: ".to_owned();
            text.append(detail.as_str());
            Err(FeedError::UpstreamUnavailable(text))
        },
    }
}

/// What follows an event, as a relation between the event and the action.
pub open spec fn action_follows(event: HandlerEvent, action: HandlerAction) -> bool {
    match event {
        HandlerEvent::RequestParsed(Ok(_)) => action is Fetch,
        HandlerEvent::RequestParsed(Err(detail)) => action matches HandlerAction::Reply(reply)
            && reply_reports(reply, FeedError::RequestValidation(detail)),
        HandlerEvent::Fetched(outcome) => if fetch_succeeded(outcome) {
            action matches HandlerAction::Decode(body) && body@ == outcome->bytes@
        } else {
            &&& action matches HandlerAction::Reply(reply)
            &&& exists|detail: String|
                detail@ == fetch_failure_detail(outcome) && #[trigger] reply_reports(
                    reply,
                    FeedError::UpstreamUnavailable(detail),
                )
        },
        HandlerEvent::Decoded(Ok(feed)) => action matches HandlerAction::Reply(reply)
            && reply_carries(reply, feed),
        HandlerEvent::Decoded(Err(detail)) => action matches HandlerAction::Reply(reply)
            && reply_reports(reply, FeedError::MalformedFeed(detail)),
    }
}

/// Decides what is done next for a request. A request whose body was valid is
/// followed by one fetch; bytes that arrived with a success status are decoded;
/// a decoded feed is answered with its arrival lines. Every failure ends the
/// request with the reply that reports it; nothing is tried twice.
pub fn next_action(event: HandlerEvent) -> (action: HandlerAction)
    ensures
        action_follows(event, action),
{
    match event {
        HandlerEvent::RequestParsed(Ok(_)) => HandlerAction::Fetch,
        HandlerEvent::RequestParsed(Err(detail)) => HandlerAction::Reply(
            FeedError::RequestValidation(detail).into_reply(),
        ),
        HandlerEvent::Fetched(outcome) => match classify_fetch(outcome) {
            Ok(body) => HandlerAction::Decode(body),
            Err(error) => HandlerAction::Reply(error.into_reply()),
        },
        HandlerEvent::Decoded(Ok(feed)) => HandlerAction::Reply(
            HttpReply { status: STATUS_OK, body: ReplyBody::Trains(assemble_response(&feed)) },
        ),
        HandlerEvent::Decoded(Err(detail)) => HandlerAction::Reply(
            FeedError::MalformedFeed(detail).into_reply(),
        ),
    }
}

} // verus!
