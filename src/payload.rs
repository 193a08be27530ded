//! Payloads: a batch of events with its destination, and the HTTP request
//! that delivers it.

use vstd::prelude::*;
use vstd::string::*;
use crate::event::{collector_url_text, events_to_json, CollectorUrl, Event, EventModel};
use crate::json::{decimal, decimal_text};
use crate::wire::events_json;

verus! {

/// The `User-Agent` of every request: the library's name and version.
pub const USER_AGENT: &'static str = "echoloc/0.1.0";

/// The method of every request.
pub const METHOD: &'static str = "POST";

/// A batch of events, where to send it, and an optional logging handle of
/// type `L` that hears how the delivery went.
#[derive(Clone, Debug)]
pub struct Payload<L> {
    url: CollectorUrl,
    events: Vec<Event>,
    logger: Option<L>,
    error_count: usize,
    retry_count: usize,
}

impl<L> Default for Payload<L> {
    fn default() -> (r: Payload<L>)
        ensures
            r.spec_url() == CollectorUrl::Stage,
            r.spec_events() == Seq::<EventModel>::empty(),
            r.spec_logger() is None,
            r.spec_error_count() == 0,
            r.spec_retry_count() == 0,
    {
        let r = Payload {
            url: CollectorUrl::Stage,
            events: Vec::new(),
            logger: None,
            error_count: 0,
            retry_count: 0,
        };
        proof {
            assert(r.spec_events() =~= Seq::<EventModel>::empty());
        }
        r
    }
}

impl<L> Payload<L> {
    pub closed spec fn spec_url(&self) -> CollectorUrl {
        self.url
    }

    pub closed spec fn spec_events(&self) -> Seq<EventModel> {
        self.events@.map_values(|e: Event| e@)
    }

    pub closed spec fn spec_logger(&self) -> Option<L> {
        self.logger
    }

    pub closed spec fn spec_error_count(&self) -> usize {
        self.error_count
    }

    pub closed spec fn spec_retry_count(&self) -> usize {
        self.retry_count
    }

    /// Sets the collector to send to.
    pub fn set_url(&mut self, url: CollectorUrl) -> (r: &mut Self)
        ensures
            r.spec_url() == url,
            r.spec_events() == old(self).spec_events(),
            r.spec_logger() == old(self).spec_logger(),
            r.spec_error_count() == old(self).spec_error_count(),
            r.spec_retry_count() == old(self).spec_retry_count(),
            *final(self) == *final(r),
    {
        self.url = url;
        self
    }

    /// Sets the batch of events.
    pub fn set_events(&mut self, events: Vec<Event>) -> (r: &mut Self)
        ensures
            r.spec_url() == old(self).spec_url(),
            r.spec_events() == events@.map_values(|e: Event| e@),
            r.spec_logger() == old(self).spec_logger(),
            r.spec_error_count() == old(self).spec_error_count(),
            r.spec_retry_count() == old(self).spec_retry_count(),
            *final(self) == *final(r),
    {
        self.events = events;
        self
    }

    /// Sets the logging handle.
    pub fn set_logger(&mut self, logger: Option<L>) -> (r: &mut Self)
        ensures
            r.spec_url() == old(self).spec_url(),
            r.spec_events() == old(self).spec_events(),
            r.spec_logger() == logger,
            r.spec_error_count() == old(self).spec_error_count(),
            r.spec_retry_count() == old(self).spec_retry_count(),
            *final(self) == *final(r),
    {
        self.logger = logger;
        self
    }

    /// The collector to send to.
    pub fn url(&self) -> (r: CollectorUrl)
        ensures
            r == self.spec_url(),
    {
        self.url
    }

    /// The batch of events.
    pub fn events(&self) -> (r: &Vec<Event>)
        ensures
            r@.map_values(|e: Event| e@) == self.spec_events(),
    {
        &self.events
    }

    /// The logging handle.
    pub fn logger(&self) -> (r: &Option<L>)
        ensures
            *r == self.spec_logger(),
    {
        &self.logger
    }

    /// The count of failed deliveries; nothing in this library changes it.
    pub fn error_count(&self) -> (r: usize)
        ensures
            r == self.spec_error_count(),
    {
        self.error_count
    }

    /// The count of retries; nothing in this library changes it.
    pub fn retry_count(&self) -> (r: usize)
        ensures
            r == self.spec_retry_count(),
    {
        self.retry_count
    }

    /// The request that delivers the batch: its body is the JSON array of the
    /// events, sent to the collector's address.
    pub fn request(&self) -> (r: OutgoingRequest)
        ensures
            r.url@ == collector_url_text(self.spec_url()),
            r.body@ == events_json(self.spec_events()),
            r.headers@.map_values(|h: (String, String)| (h.0@, h.1@)) == request_headers(r.body@),
    {
        let body = events_to_json(&self.events);
        let headers = headers_for(&body);
        OutgoingRequest { url: String::from_str(self.url.as_str()), headers, body }
    }
}

/// The number of bytes of a text in UTF-8.
pub open spec fn utf8_len(s: Seq<char>) -> nat {
    vstd::utf8::encode_utf8(s).len()
}

/// The headers of a request with the given body, in order.
pub open spec fn request_headers(body: Seq<char>) -> Seq<(Seq<char>, Seq<char>)> {
    seq![
        ("User-Agent"@, USER_AGENT@),
        ("Content-Type"@, "application/json"@),
        ("Content-Length"@, decimal(utf8_len(body))),
    ]
}

/// An HTTP `POST` of a batch: where it goes, its headers and its body.
#[derive(Clone, Debug)]
pub struct OutgoingRequest {
    pub url: String,
    pub headers: Vec<(String, String)>,
    pub body: String,
}

/// The headers of a request with the given body.
fn headers_for(body: &String) -> (r: Vec<(String, String)>)
    ensures
        r@.map_values(|h: (String, String)| (h.0@, h.1@)) == request_headers(body@),
{
    let n = body.as_str().as_bytes().len();
    let mut r: Vec<(String, String)> = Vec::new();
    r.push((String::from_str("User-Agent"), String::from_str(USER_AGENT)));
    r.push((String::from_str("Content-Type"), String::from_str("application/json")));
    r.push((String::from_str("Content-Length"), decimal_text(n as u64)));
    proof {
        let m = r@.map_values(|h: (String, String)| (h.0@, h.1@));
        assert(n as nat == utf8_len(body@));
        assert(m[2].1 == decimal(utf8_len(body@)));
        assert(m =~= request_headers(body@));
    }
    r
}

} // verus!
