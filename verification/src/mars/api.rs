//! The decisions of the weather service: what its endpoints answer and how its
//! refresher alternates fetching, publishing and waiting.

use vstd::prelude::*;

use crate::mars::weather::WeatherSample;

verus! {

/// HTTP status `200 OK`.
pub const STATUS_OK: u16 = 200;
/// HTTP status `503 Service Unavailable`.
pub const STATUS_SERVICE_UNAVAILABLE: u16 = 503;

/// The status of `GET /health`: the service is alive, so always `200 OK`.
pub fn health_status() -> (r: u16)
    ensures
        r == STATUS_OK,
        r == 200,
{
    STATUS_OK
}

/// The answer of `GET /weather`.
#[derive(Clone, Copy, Debug)]
pub enum WeatherReply {
    /// The latest sample, sent as JSON with `200 OK`.
    Sample(WeatherSample),
    /// No sample has been published yet: `503 Service Unavailable`.
    Unavailable,
}

impl WeatherReply {
    /// Answers `GET /weather` from the latest published sample, if any.
    pub fn for_latest(latest: Option<WeatherSample>) -> (r: WeatherReply)
        ensures
            latest matches Some(s) ==> r matches WeatherReply::Sample(t) && t == s,
            latest is None ==> r is Unavailable,
    {
        match latest {
            Some(sample) => WeatherReply::Sample(sample),
            None => WeatherReply::Unavailable,
        }
    }

    /// The HTTP status of the answer.
    pub fn status(&self) -> (r: u16)
        ensures
            self is Sample ==> r == STATUS_OK,
            self is Unavailable ==> r == STATUS_SERVICE_UNAVAILABLE,
            self is Sample ==> r == 200,
            self is Unavailable ==> r == 503,
    {
        match self {
            WeatherReply::Sample(_) => STATUS_OK,
            WeatherReply::Unavailable => STATUS_SERVICE_UNAVAILABLE,
        }
    }

    /// The body sent when no sample is available yet.
    pub fn unavailable_text() -> (r: String)
        ensures
            r@ == "Weather data not yet available"@,
    {
        "Weather data not yet available".to_owned()
    }
}

/// What happened in the refresher since its last action.
#[derive(Clone, Copy, Debug, PartialEq, Eq, Structural)]
pub enum RefreshEvent {
    /// The refresher has just been started.
    Started,
    /// A weather sample was fetched.
    Fetched,
    /// Fetching the weather failed.
    FetchFailed,
    /// The fetched sample was handed to the endpoints.
    Published,
    /// Nobody listens for samples any more.
    PublishRejected,
    /// The wait between two refreshes is over.
    Slept,
}

/// What the refresher does next.
#[derive(Clone, Copy, Debug, PartialEq, Eq, Structural)]
pub enum RefreshAction {
    /// Fetch the latest sol from the feed.
    Fetch,
    /// Hand the fetched sample to the endpoints.
    Publish,
    /// Wait this many seconds.
    Sleep(u64),
    /// End the refresher.
    Stop,
}

/// The refresher's rule: fetch at once, publish what was fetched, wait one
/// interval after each attempt, and stop when nobody listens.
pub open spec fn refresh_rule(interval_secs: u64, event: RefreshEvent) -> RefreshAction {
    match event {
        RefreshEvent::Started => RefreshAction::Fetch,
        RefreshEvent::Fetched => RefreshAction::Publish,
        RefreshEvent::FetchFailed => RefreshAction::Sleep(interval_secs),
        RefreshEvent::Published => RefreshAction::Sleep(interval_secs),
        RefreshEvent::PublishRejected => RefreshAction::Stop,
        RefreshEvent::Slept => RefreshAction::Fetch,
    }
}

/// The refresher fetches as soon as it starts, and after every attempt, whether
/// the fetch failed or its sample was published, it waits exactly one interval
/// before it fetches again.
pub proof fn lemma_refresh_waits_one_interval_between_fetches(interval_secs: u64)
    ensures
        refresh_rule(interval_secs, RefreshEvent::Started) == RefreshAction::Fetch,
        refresh_rule(interval_secs, RefreshEvent::Fetched) == RefreshAction::Publish,
        refresh_rule(interval_secs, RefreshEvent::Published) == RefreshAction::Sleep(interval_secs),
        refresh_rule(interval_secs, RefreshEvent::FetchFailed) == RefreshAction::Sleep(interval_secs),
        refresh_rule(interval_secs, RefreshEvent::Slept) == RefreshAction::Fetch,
        forall|e: RefreshEvent| #[trigger] refresh_rule(interval_secs, e) == RefreshAction::Stop
            <==> e == RefreshEvent::PublishRejected,
{
}

/// The schedule of the refresher that keeps the latest sample up to date.
#[derive(Clone, Copy, Debug, PartialEq, Eq, Structural)]
pub struct RefreshSchedule {
    pub interval_secs: u64,
}

impl RefreshSchedule {
    /// A schedule that refreshes every `interval_secs` seconds.
    pub fn new(interval_secs: u64) -> (r: RefreshSchedule)
        ensures
            r.interval_secs == interval_secs,
    {
        RefreshSchedule { interval_secs }
    }

    /// The refresher's next action after `event`.
    pub fn next(&self, event: RefreshEvent) -> (r: RefreshAction)
        ensures
            r == refresh_rule(self.interval_secs, event),
            (event == RefreshEvent::Started || event == RefreshEvent::Slept) <==> r == RefreshAction::Fetch,
            event == RefreshEvent::Fetched <==> r == RefreshAction::Publish,
            (event == RefreshEvent::FetchFailed || event == RefreshEvent::Published) <==> r
                == RefreshAction::Sleep(self.interval_secs),
            event == RefreshEvent::PublishRejected <==> r == RefreshAction::Stop,
    {
        match event {
            RefreshEvent::Started => RefreshAction::Fetch,
            RefreshEvent::Fetched => RefreshAction::Publish,
            RefreshEvent::FetchFailed => RefreshAction::Sleep(self.interval_secs),
            RefreshEvent::Published => RefreshAction::Sleep(self.interval_secs),
            RefreshEvent::PublishRejected => RefreshAction::Stop,
            RefreshEvent::Slept => RefreshAction::Fetch,
        }
    }
}

} // verus!
