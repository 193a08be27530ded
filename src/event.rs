//! Events, their kinds, and the collector endpoints that receive them.

use vstd::prelude::*;
use vstd::string::*;
use crate::correlation::CorrelationId;
use crate::detail::{DetailEntries, MessageDetail};
use crate::json::{decimal_text, elements_text, members_text, plain_quoted, quoted, signed_decimal_text};
use crate::wire::{
    detail_to_json, event_json, event_slots, events_json, opt_decimal, opt_quoted, present_members,
    push_slot,
};

verus! {

/// The collector endpoints.
#[derive(Clone, Copy, Debug, PartialEq, Eq, Structural)]
pub enum CollectorUrl {
    /// The staging collector.
    Stage,
    /// The production collector.
    Prod,
}

/// The address of a collector endpoint.
pub open spec fn collector_url_text(u: CollectorUrl) -> Seq<char> {
    match u {
        CollectorUrl::Stage => "https://echocollector-stage.kroger.com/echo/messages"@,
        CollectorUrl::Prod => "https://echocollector.kroger.com/echo/messages"@,
    }
}

impl Default for CollectorUrl {
    fn default() -> (r: CollectorUrl)
        ensures
            r == CollectorUrl::Stage,
    {
        CollectorUrl::Stage
    }
}

impl CollectorUrl {
    /// The address of the endpoint.
    pub fn as_str(self) -> (r: &'static str)
        ensures
            r@ == collector_url_text(self),
    {
        match self {
            CollectorUrl::Stage => "https://echocollector-stage.kroger.com/echo/messages",
            CollectorUrl::Prod => "https://echocollector.kroger.com/echo/messages",
        }
    }
}

/// A character that may stand in a host name: an ASCII letter or digit, a
/// hyphen or a dot; so no slash and no whitespace.
pub open spec fn host_char(c: char) -> bool {
    ('a' <= c <= 'z') || ('A' <= c <= 'Z') || ('0' <= c <= '9') || c == '-' || c == '.'
}

/// The host part of a collector address: what stands between `https://`
/// and `/echo/messages`.
pub open spec fn collector_host(u: CollectorUrl) -> Seq<char> {
    let t = collector_url_text(u);
    t.subrange(8, t.len() - 14)
}

/// The two collector addresses differ, and each is `https://`, then a
/// non-empty host without slashes or whitespace, then `/echo/messages`.
pub proof fn lemma_collector_urls()
    ensures
        collector_url_text(CollectorUrl::Stage) != collector_url_text(CollectorUrl::Prod),
        forall|u: CollectorUrl|
            #![trigger collector_url_text(u)]
            collector_url_text(u).len() > 22 && collector_url_text(u) == "https://"@ + collector_host(
                u,
            ) + "/echo/messages"@,
        forall|u: CollectorUrl, i: int|
            0 <= i < collector_host(u).len() ==> host_char(#[trigger] collector_host(u)[i]),
{
    reveal_strlit("https://echocollector-stage.kroger.com/echo/messages");
    reveal_strlit("https://echocollector.kroger.com/echo/messages");
    reveal_strlit("https://");
    reveal_strlit("/echo/messages");
    let s = collector_url_text(CollectorUrl::Stage);
    let p = collector_url_text(CollectorUrl::Prod);
    assert(s.len() != p.len());
    assert(s =~= "https://"@ + collector_host(CollectorUrl::Stage) + "/echo/messages"@);
    assert(p =~= "https://"@ + collector_host(CollectorUrl::Prod) + "/echo/messages"@);
    assert forall|u: CollectorUrl, i: int|
        0 <= i < collector_host(u).len() implies host_char(#[trigger] collector_host(u)[i]) by {
        let t = collector_url_text(u);
        assert(collector_host(u)[i] == t[i + 8]);
    }
}

/// The kind of an event.
#[derive(Clone, Copy, Debug, PartialEq, Eq, Structural)]
pub enum EventType {
    /// Something abnormal that the system handled.
    Error,
    /// Something normal that the system handled.
    Info,
    /// How long the system took over something.
    Performance,
    /// A link between two or more otherwise unrelated events.
    Tracking,
    /// Measurements of the client machine.
    System,
}

/// The name of an event kind on the wire.
pub open spec fn event_type_name(t: EventType) -> Seq<char> {
    match t {
        EventType::Error => "ERROR"@,
        EventType::Info => "INFO"@,
        EventType::Performance => "PERFORMANCE"@,
        EventType::Tracking => "TRACKING"@,
        EventType::System => "SYSTEM"@,
    }
}

impl Default for EventType {
    fn default() -> (r: EventType)
        ensures
            r == EventType::Info,
    {
        EventType::Info
    }
}

impl EventType {
    /// The name of the kind on the wire.
    pub fn name(&self) -> (r: &'static str)
        ensures
            r@ == event_type_name(*self),
    {
        match self {
            EventType::Error => "ERROR",
            EventType::Info => "INFO",
            EventType::Performance => "PERFORMANCE",
            EventType::Tracking => "TRACKING",
            EventType::System => "SYSTEM",
        }
    }
}

/// A generic outcome, for events where an HTTP status does not fit.
#[derive(Clone, Copy, Debug, PartialEq, Eq, Structural)]
pub enum Response {
    /// The action succeeded.
    Success,
    /// The action failed.
    Failure,
}

/// The name of an outcome on the wire.
pub open spec fn response_name(r: Response) -> Seq<char> {
    match r {
        Response::Success => "success"@,
        Response::Failure => "failure"@,
    }
}

impl Default for Response {
    fn default() -> (r: Response)
        ensures
            r == Response::Success,
    {
        Response::Success
    }
}

impl Response {
    /// The name of the outcome on the wire.
    pub fn name(&self) -> (r: &'static str)
        ensures
            r@ == response_name(*self),
    {
        match self {
            Response::Success => "success",
            Response::Failure => "failure",
        }
    }
}

/// What an event holds.
pub struct EventModel {
    pub routing_key: Seq<char>,
    pub event_type: EventType,
    pub message: Seq<char>,
    pub correlation_id: Option<Seq<u8>>,
    pub timestamp: Option<i64>,
    pub message_detail: Option<DetailEntries>,
    pub host: Option<Seq<char>>,
    pub application_version: Option<Seq<char>>,
    pub data_center: Option<Seq<char>>,
    pub client_host_name: Option<Seq<char>>,
    pub destination_host_name: Option<Seq<char>>,
    pub destination_path: Option<Seq<char>>,
    pub start_timestamp: Option<u64>,
    pub finish_timestamp: Option<u64>,
    pub duration: Option<u64>,
    pub duration_in_ms: Option<u64>,
    pub response_code: Option<u16>,
    pub response: Option<Response>,
}

/// The text of an optional string.
pub open spec fn opt_text(o: Option<String>) -> Option<Seq<char>> {
    match o {
        Some(s) => Some(s@),
        None => None,
    }
}

/// The text of an optional string argument.
pub open spec fn opt_str(o: Option<&str>) -> Option<Seq<char>> {
    match o {
        Some(s) => Some(s@),
        None => None,
    }
}

/// An event with every field absent or empty, of kind `Info`.
pub open spec fn default_event() -> EventModel {
    EventModel {
        routing_key: Seq::empty(),
        event_type: EventType::Info,
        message: Seq::empty(),
        correlation_id: None,
        timestamp: None,
        message_detail: None,
        host: None,
        application_version: None,
        data_center: None,
        client_host_name: None,
        destination_host_name: None,
        destination_path: None,
        start_timestamp: None,
        finish_timestamp: None,
        duration: None,
        duration_in_ms: None,
        response_code: None,
        response: None,
    }
}

/// One telemetry event.
#[derive(Clone, Debug)]
pub struct Event {
    routing_key: String,
    event_type: EventType,
    message: String,
    correlation_id: Option<CorrelationId>,
    timestamp: Option<i64>,
    message_detail: Option<MessageDetail>,
    host: Option<String>,
    application_version: Option<String>,
    data_center: Option<String>,
    client_host_name: Option<String>,
    destination_host_name: Option<String>,
    destination_path: Option<String>,
    start_timestamp: Option<u64>,
    finish_timestamp: Option<u64>,
    duration: Option<u64>,
    duration_in_ms: Option<u64>,
    response_code: Option<u16>,
    response: Option<Response>,
}

impl View for Event {
    type V = EventModel;

    closed spec fn view(&self) -> EventModel {
        EventModel {
            routing_key: self.routing_key@,
            event_type: self.event_type,
            message: self.message@,
            correlation_id: match self.correlation_id {
                Some(c) => Some(c.spec_octets()),
                None => None,
            },
            timestamp: self.timestamp,
            message_detail: match self.message_detail {
                Some(d) => Some(d@),
                None => None,
            },
            host: opt_text(self.host),
            application_version: opt_text(self.application_version),
            data_center: opt_text(self.data_center),
            client_host_name: opt_text(self.client_host_name),
            destination_host_name: opt_text(self.destination_host_name),
            destination_path: opt_text(self.destination_path),
            start_timestamp: self.start_timestamp,
            finish_timestamp: self.finish_timestamp,
            duration: self.duration,
            duration_in_ms: self.duration_in_ms,
            response_code: self.response_code,
            response: self.response,
        }
    }
}

/// An owned copy of an optional string argument.
fn opt_string(o: Option<&str>) -> (r: Option<String>)
    ensures
        opt_text(r) == opt_str(o),
{
    match o {
        Some(s) => Some(String::from_str(s)),
        None => None,
    }
}

impl Default for Event {
    fn default() -> (r: Event)
        ensures
            r@ == default_event(),
    {
        let r = Event {
            routing_key: String::new(),
            event_type: EventType::Info,
            message: String::new(),
            correlation_id: None,
            timestamp: None,
            message_detail: None,
            host: None,
            application_version: None,
            data_center: None,
            client_host_name: None,
            destination_host_name: None,
            destination_path: None,
            start_timestamp: None,
            finish_timestamp: None,
            duration: None,
            duration_in_ms: None,
            response_code: None,
            response: None,
        };
        proof {
            assert(r@.routing_key =~= Seq::<char>::empty());
            assert(r@.message =~= Seq::<char>::empty());
        }
        r
    }
}

/// The octets of an optional correlation identifier.
pub open spec fn opt_octets(o: Option<CorrelationId>) -> Option<Seq<u8>> {
    match o {
        Some(c) => Some(c.spec_octets()),
        None => None,
    }
}

/// The pairs of an optional message detail.
pub open spec fn opt_detail(o: Option<MessageDetail>) -> Option<DetailEntries> {
    match o {
        Some(d) => Some(d@),
        None => None,
    }
}

impl Event {
    /// Sets the routing key, `<group>-<name>-<environment>` by convention; its form is not validated.
    pub fn set_routing_key(&mut self, routing_key: &str) -> (r: &mut Self)
        ensures
            r@ == (EventModel { routing_key: routing_key@, ..old(self)@ }),
            final(self)@ == final(r)@,
    {
        self.routing_key = String::from_str(routing_key);
        self
    }

    /// Sets the kind.
    pub fn set_event_type(&mut self, event_type: EventType) -> (r: &mut Self)
        ensures
            r@ == (EventModel { event_type: event_type, ..old(self)@ }),
            final(self)@ == final(r)@,
    {
        self.event_type = event_type;
        self
    }

    /// Sets the message.
    pub fn set_message(&mut self, message: &str) -> (r: &mut Self)
        ensures
            r@ == (EventModel { message: message@, ..old(self)@ }),
            final(self)@ == final(r)@,
    {
        self.message = String::from_str(message);
        self
    }

    /// Sets the correlation identifier.
    pub fn set_correlation_id(&mut self, correlation_id: Option<CorrelationId>) -> (r: &mut Self)
        ensures
            r@ == (EventModel { correlation_id: opt_octets(correlation_id), ..old(self)@ }),
            final(self)@ == final(r)@,
    {
        self.correlation_id = correlation_id;
        self
    }

    /// Sets the time of the event, in milliseconds since the epoch.
    pub fn set_timestamp(&mut self, timestamp: Option<i64>) -> (r: &mut Self)
        ensures
            r@ == (EventModel { timestamp: timestamp, ..old(self)@ }),
            final(self)@ == final(r)@,
    {
        self.timestamp = timestamp;
        self
    }

    /// Sets the custom key/value pairs.
    pub fn set_message_detail(&mut self, message_detail: Option<MessageDetail>) -> (r: &mut Self)
        ensures
            r@ == (EventModel { message_detail: opt_detail(message_detail), ..old(self)@ }),
            final(self)@ == final(r)@,
    {
        self.message_detail = message_detail;
        self
    }

    /// Sets the host where the event arose.
    pub fn set_host(&mut self, host: Option<&str>) -> (r: &mut Self)
        ensures
            r@ == (EventModel { host: opt_str(host), ..old(self)@ }),
            final(self)@ == final(r)@,
    {
        self.host = opt_string(host);
        self
    }

    /// Sets the version of the application.
    pub fn set_application_version(&mut self, application_version: Option<&str>) -> (r: &mut Self)
        ensures
            r@ == (EventModel { application_version: opt_str(application_version), ..old(self)@ }),
            final(self)@ == final(r)@,
    {
        self.application_version = opt_string(application_version);
        self
    }

    /// Sets the data center of the application.
    pub fn set_data_center(&mut self, data_center: Option<&str>) -> (r: &mut Self)
        ensures
            r@ == (EventModel { data_center: opt_str(data_center), ..old(self)@ }),
            final(self)@ == final(r)@,
    {
        self.data_center = opt_string(data_center);
        self
    }

    /// Sets the host name of a client calling in.
    pub fn set_client_host_name(&mut self, client_host_name: Option<&str>) -> (r: &mut Self)
        ensures
            r@ == (EventModel { client_host_name: opt_str(client_host_name), ..old(self)@ }),
            final(self)@ == final(r)@,
    {
        self.client_host_name = opt_string(client_host_name);
        self
    }

    /// Sets the host name of a system called out to.
    pub fn set_destination_host_name(&mut self, destination_host_name: Option<&str>) -> (r: &mut Self)
        ensures
            r@ == (EventModel { destination_host_name: opt_str(destination_host_name), ..old(self)@ }),
            final(self)@ == final(r)@,
    {
        self.destination_host_name = opt_string(destination_host_name);
        self
    }

    /// Sets the path called on a system called out to.
    pub fn set_destination_path(&mut self, destination_path: Option<&str>) -> (r: &mut Self)
        ensures
            r@ == (EventModel { destination_path: opt_str(destination_path), ..old(self)@ }),
            final(self)@ == final(r)@,
    {
        self.destination_path = opt_string(destination_path);
        self
    }

    /// Sets the start time, in milliseconds since the epoch.
    pub fn set_start_timestamp(&mut self, start_timestamp: Option<u64>) -> (r: &mut Self)
        ensures
            r@ == (EventModel { start_timestamp: start_timestamp, ..old(self)@ }),
            final(self)@ == final(r)@,
    {
        self.start_timestamp = start_timestamp;
        self
    }

    /// Sets the finish time, in milliseconds since the epoch.
    pub fn set_finish_timestamp(&mut self, finish_timestamp: Option<u64>) -> (r: &mut Self)
        ensures
            r@ == (EventModel { finish_timestamp: finish_timestamp, ..old(self)@ }),
            final(self)@ == final(r)@,
    {
        self.finish_timestamp = finish_timestamp;
        self
    }

    /// Sets the duration, in milliseconds.
    pub fn set_duration(&mut self, duration: Option<u64>) -> (r: &mut Self)
        ensures
            r@ == (EventModel { duration: duration, ..old(self)@ }),
            final(self)@ == final(r)@,
    {
        self.duration = duration;
        self
    }

    /// Sets the duration, in milliseconds.
    pub fn set_duration_in_ms(&mut self, duration_in_ms: Option<u64>) -> (r: &mut Self)
        ensures
            r@ == (EventModel { duration_in_ms: duration_in_ms, ..old(self)@ }),
            final(self)@ == final(r)@,
    {
        self.duration_in_ms = duration_in_ms;
        self
    }

    /// Sets the HTTP status of the action.
    pub fn set_response_code(&mut self, response_code: Option<u16>) -> (r: &mut Self)
        ensures
            r@ == (EventModel { response_code: response_code, ..old(self)@ }),
            final(self)@ == final(r)@,
    {
        self.response_code = response_code;
        self
    }

    /// Sets the generic outcome of the action.
    pub fn set_response(&mut self, response: Option<Response>) -> (r: &mut Self)
        ensures
            r@ == (EventModel { response: response, ..old(self)@ }),
            final(self)@ == final(r)@,
    {
        self.response = response;
        self
    }
}

/// Whether two optional values are equal.
fn same_text(a: &Option<String>, b: &Option<String>) -> (r: bool)
    ensures
        r == (opt_text(*a) == opt_text(*b)),
{
    match (a, b) {
        (Some(x), Some(y)) => x.eq(y),
        (None, None) => true,
        _ => false,
    }
}

/// Whether two optional values are equal.
fn same_id(a: &Option<CorrelationId>, b: &Option<CorrelationId>) -> (r: bool)
    ensures
        r == (opt_octets(*a) == opt_octets(*b)),
{
    match (a, b) {
        (Some(x), Some(y)) => x.eq(y),
        (None, None) => true,
        _ => false,
    }
}

/// Whether two optional values are equal.
fn same_detail(a: &Option<MessageDetail>, b: &Option<MessageDetail>) -> (r: bool)
    ensures
        r == (opt_detail(*a) == opt_detail(*b)),
{
    match (a, b) {
        (Some(x), Some(y)) => x.eq(y),
        (None, None) => true,
        _ => false,
    }
}

/// Whether two optional values are equal.
fn same_u64(a: &Option<u64>, b: &Option<u64>) -> (r: bool)
    ensures
        r == (*a == *b),
{
    match (a, b) {
        (Some(x), Some(y)) => *x == *y,
        (None, None) => true,
        _ => false,
    }
}

/// Whether two optional values are equal.
fn same_i64(a: &Option<i64>, b: &Option<i64>) -> (r: bool)
    ensures
        r == (*a == *b),
{
    match (a, b) {
        (Some(x), Some(y)) => *x == *y,
        (None, None) => true,
        _ => false,
    }
}

/// Whether two optional values are equal.
fn same_u16(a: &Option<u16>, b: &Option<u16>) -> (r: bool)
    ensures
        r == (*a == *b),
{
    match (a, b) {
        (Some(x), Some(y)) => *x == *y,
        (None, None) => true,
        _ => false,
    }
}

/// Whether two optional values are equal.
fn same_response(a: &Option<Response>, b: &Option<Response>) -> (r: bool)
    ensures
        r == (*a == *b),
{
    match (a, b) {
        (Some(x), Some(y)) => *x == *y,
        (None, None) => true,
        _ => false,
    }
}

impl PartialEq for Event {
    /// The same value in every field.
    fn eq(&self, other: &Event) -> (r: bool) {
        let r = self.routing_key.eq(&other.routing_key) && self.event_type == other.event_type
            && self.message.eq(&other.message) && same_id(&self.correlation_id, &other.correlation_id)
            && same_i64(&self.timestamp, &other.timestamp) && same_detail(
            &self.message_detail,
            &other.message_detail,
        ) && same_text(&self.host, &other.host) && same_text(
            &self.application_version,
            &other.application_version,
        ) && same_text(&self.data_center, &other.data_center) && same_text(
            &self.client_host_name,
            &other.client_host_name,
        ) && same_text(&self.destination_host_name, &other.destination_host_name) && same_text(
            &self.destination_path,
            &other.destination_path,
        ) && same_u64(&self.start_timestamp, &other.start_timestamp) && same_u64(
            &self.finish_timestamp,
            &other.finish_timestamp,
        ) && same_u64(&self.duration, &other.duration) && same_u64(
            &self.duration_in_ms,
            &other.duration_in_ms,
        ) && same_u16(&self.response_code, &other.response_code) && same_response(
            &self.response,
            &other.response,
        );
        proof {
            if r {
                assert(self@ == other@);
            } else {
                assert(self@ != other@) by {
                    if self@ == other@ {
                        assert(self@.routing_key == other@.routing_key);
                        assert(self@.host == other@.host);
                    }
                }
            }
        }
        r
    }
}

impl vstd::std_specs::cmp::PartialEqSpecImpl for Event {
    open spec fn obeys_eq_spec() -> bool {
        true
    }

    open spec fn eq_spec(&self, other: &Event) -> bool {
        self@ == other@
    }
}

/// A name that needs no escaping, between quotes.
fn plain_quoted_text(s: &str) -> (r: String)
    ensures
        r@ == plain_quoted(s@),
{
    let mut out = String::new();
    out.append("\"");
    out.append(s);
    out.append("\"");
    proof {
        reveal_strlit("\"");
        assert(out@ =~= plain_quoted(s@));
    }
    out
}

/// An optional string as a JSON string literal.
fn opt_quoted_text(o: &Option<String>) -> (r: Option<String>)
    ensures
        opt_text(r) == opt_quoted(opt_text(*o)),
{
    match o {
        Some(s) => Some(quoted(s.as_str())),
        None => None,
    }
}

/// An optional unsigned integer in decimal.
fn opt_decimal_text(o: Option<u64>) -> (r: Option<String>)
    ensures
        opt_text(r) == opt_decimal(o),
{
    match o {
        Some(n) => Some(decimal_text(n)),
        None => None,
    }
}

impl Event {
    /// The JSON object of the event: its members in the fixed order, with a
    /// member for an optional field only where that field is present.
    pub fn to_json(&self) -> (r: String)
        ensures
            r@ == event_json(self@),
    {
        let ghost slots = event_slots(self@);
        let mut out = String::new();
        out.append("{");
        proof {
            reveal_strlit("{");
            assert(out@ =~= seq!['{'] + members_text(present_members(slots.take(0))));
        }
        push_slot(&mut out, true, "routingKey", Some(quoted(self.routing_key.as_str())), Ghost(slots), 0);
        push_slot(&mut out, false, "type", Some(plain_quoted_text(self.event_type.name())), Ghost(slots), 1);
        push_slot(&mut out, false, "message", Some(quoted(self.message.as_str())), Ghost(slots), 2);
        push_slot(&mut out, false, "correlationId", match &self.correlation_id { Some(c) => Some(plain_quoted_text(c.to_hyphenated().as_str())), None => None }, Ghost(slots), 3);
        push_slot(&mut out, false, "timestamp", match self.timestamp { Some(t) => Some(signed_decimal_text(t)), None => None }, Ghost(slots), 4);
        push_slot(&mut out, false, "messageDetail", match &self.message_detail { Some(d) => Some(detail_to_json(d)), None => None }, Ghost(slots), 5);
        push_slot(&mut out, false, "host", opt_quoted_text(&self.host), Ghost(slots), 6);
        push_slot(&mut out, false, "applicationVersion", opt_quoted_text(&self.application_version), Ghost(slots), 7);
        push_slot(&mut out, false, "dataCenter", opt_quoted_text(&self.data_center), Ghost(slots), 8);
        push_slot(&mut out, false, "clientHostName", opt_quoted_text(&self.client_host_name), Ghost(slots), 9);
        push_slot(&mut out, false, "destinationHostName", opt_quoted_text(&self.destination_host_name), Ghost(slots), 10);
        push_slot(&mut out, false, "destinationPath", opt_quoted_text(&self.destination_path), Ghost(slots), 11);
        push_slot(&mut out, false, "startTimestamp", opt_decimal_text(self.start_timestamp), Ghost(slots), 12);
        push_slot(&mut out, false, "finishTimestamp", opt_decimal_text(self.finish_timestamp), Ghost(slots), 13);
        push_slot(&mut out, false, "duration", opt_decimal_text(self.duration), Ghost(slots), 14);
        push_slot(&mut out, false, "durationInMs", opt_decimal_text(self.duration_in_ms), Ghost(slots), 15);
        push_slot(&mut out, false, "responseCode", match self.response_code { Some(c) => Some(decimal_text(c as u64)), None => None }, Ghost(slots), 16);
        push_slot(&mut out, false, "response", match &self.response { Some(r) => Some(plain_quoted_text(r.name())), None => None }, Ghost(slots), 17);
        out.append("}");
        proof {
            reveal_strlit("}");
            assert(slots.take(18) =~= slots);
            assert(out@ =~= event_json(self@));
        }
        out
    }
}

/// The JSON array of a batch of events, in order.
pub fn events_to_json(events: &Vec<Event>) -> (r: String)
    ensures
        r@ == events_json(events@.map_values(|e: Event| e@)),
{
    let ghost xs = events@.map_values(|e: Event| e@).map_values(|e: EventModel| event_json(e));
    let mut out = String::new();
    out.append("[");
    proof {
        reveal_strlit("[");
        assert(xs.take(0) =~= Seq::<Seq<char>>::empty());
    }
    let mut i: usize = 0;
    while i < events.len()
        invariant
            i <= events.len() == xs.len(),
            xs == events@.map_values(|e: Event| e@).map_values(|e: EventModel| event_json(e)),
            out@ == seq!['['] + elements_text(xs.take(i as int)),
        decreases events.len() - i,
    {
        if i > 0 {
            out.append(",");
        }
        let t = events[i].to_json();
        out.append(t.as_str());
        proof {
            reveal_strlit(",");
            assert(xs[i as int] == t@);
            let p = xs.take(i + 1);
            assert(p.drop_last() =~= xs.take(i as int));
            if i == 0 {
                assert(p =~= seq![t@]);
            }
            assert(out@ =~= seq!['['] + elements_text(p));
        }
        i = i + 1;
    }
    out.append("]");
    proof {
        reveal_strlit("]");
        assert(xs.take(events.len() as int) =~= xs);
        assert(out@ =~= events_json(events@.map_values(|e: Event| e@)));
    }
    out
}

} // verus!
