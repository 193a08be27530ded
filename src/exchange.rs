//! The decisions of one delivery: what the answer of the collector means,
//! what is logged, and when the exchange is over. The caller performs the
//! network work and reports each step here.

use vstd::prelude::*;
use vstd::string::*;
use vstd::utf8::{decode_utf8, valid_utf8};
use crate::error::{describes, own_description, ErrKind};

verus! {

/// The class of an HTTP status.
#[derive(Clone, Copy, Debug, PartialEq, Eq, Structural)]
pub enum StatusClass {
    /// 2xx.
    Success,
    /// 4xx.
    Client,
    /// 5xx.
    Server,
    /// Anything else.
    Unknown,
}

/// The class of a status code.
pub open spec fn status_class(code: u16) -> StatusClass {
    if 200 <= code < 300 {
        StatusClass::Success
    } else if 400 <= code < 500 {
        StatusClass::Client
    } else if 500 <= code < 600 {
        StatusClass::Server
    } else {
        StatusClass::Unknown
    }
}

/// The word that names a class in the log.
pub open spec fn class_word(c: StatusClass) -> Seq<char> {
    match c {
        StatusClass::Success => "Success"@,
        StatusClass::Client => "Client"@,
        StatusClass::Server => "Server"@,
        StatusClass::Unknown => "Unknown"@,
    }
}

/// The class of a status code.
pub fn classify_status(code: u16) -> (r: StatusClass)
    ensures
        r == status_class(code),
{
    if 200 <= code && code < 300 {
        StatusClass::Success
    } else if 400 <= code && code < 500 {
        StatusClass::Client
    } else if 500 <= code && code < 600 {
        StatusClass::Server
    } else {
        StatusClass::Unknown
    }
}

impl StatusClass {
    /// The word that names the class in the log.
    pub fn word(&self) -> (r: &'static str)
        ensures
            r@ == class_word(*self),
    {
        match self {
            StatusClass::Success => "Success",
            StatusClass::Client => "Client",
            StatusClass::Server => "Server",
            StatusClass::Unknown => "Unknown",
        }
    }
}

/// The level of a log line.
#[derive(Clone, Copy, Debug, PartialEq, Eq, Structural)]
pub enum LogLevel {
    Trace,
    Error,
}

/// One line for the logging handle.
#[derive(Clone, Debug)]
pub struct LogEntry {
    pub level: LogLevel,
    pub text: String,
}

/// The level and text of each line.
pub open spec fn log_view(v: Seq<LogEntry>) -> Seq<(LogLevel, Seq<char>)> {
    v.map_values(|e: LogEntry| (e.level, e.text@))
}

/// The line logged when the collector accepted a batch.
pub const DELIVERED: &'static str = "Successfully sent payload to echo";

/// The line logged when the collector answered with a status other than
/// success: the class, then the status as the client writes it.
pub open spec fn rejected_text(c: StatusClass, status: Seq<char>) -> Seq<char> {
    class_word(c) + " error sending Echo Payload: "@ + status
}

/// The text of a response body, read as UTF-8 with each invalid sequence
/// replaced.
pub uninterp spec fn lossy_text_of(b: Seq<u8>) -> Seq<char>;

/// Relies on String::from_utf8_lossy: the text depends on the bytes alone,
/// and valid UTF-8 is decoded as it stands.
#[verifier::external_body]
fn lossy_text(b: &[u8]) -> (r: String)
    ensures
        r@ == lossy_text_of(b@),
        valid_utf8(b@) ==> r@ == decode_utf8(b@),
{
    String::from_utf8_lossy(b).into_owned()
}

/// Where a delivery stands.
#[derive(Clone, Copy, Debug, PartialEq, Eq, Structural)]
pub enum Phase {
    /// The request is out; no answer yet.
    Sending,
    /// The collector refused the batch; its body is being read.
    Draining,
    /// The collector accepted the batch.
    Delivered,
    /// The delivery failed.
    Failed,
}

/// One delivery: its phase, the part of a refusal's body read so far, and
/// why it failed, once it has.
#[derive(Debug)]
pub struct Exchange {
    phase: Phase,
    body: Vec<u8>,
    failure: Option<ErrKind>,
}

impl View for Exchange {
    type V = (Phase, Seq<u8>);

    closed spec fn view(&self) -> (Phase, Seq<u8>) {
        (self.phase, self.body@)
    }
}

impl Exchange {
    /// Why the delivery failed: `Run` for a refusal whose body was read to
    /// the end, the transport's kind for a transport failure.
    pub closed spec fn spec_failure(&self) -> Option<ErrKind> {
        self.failure
    }

    /// A delivery whose request has just been sent.
    pub fn new() -> (r: Exchange)
        ensures
            r@ == (Phase::Sending, Seq::<u8>::empty()),
            r.spec_failure() is None,
    {
        Exchange { phase: Phase::Sending, body: Vec::new(), failure: None }
    }

    /// Why the delivery failed, once it has.
    pub fn failure(&self) -> (r: &Option<ErrKind>)
        ensures
            *r == self.spec_failure(),
    {
        &self.failure
    }

    /// The phase of the delivery.
    pub fn phase(&self) -> (r: Phase)
        ensures
            r == self@.0,
    {
        self.phase
    }

    /// Whether the delivery is over.
    pub fn is_finished(&self) -> (r: bool)
        ensures
            r == (self@.0 == Phase::Delivered || self@.0 == Phase::Failed),
    {
        self.phase == Phase::Delivered || self.phase == Phase::Failed
    }

    /// The collector answered with status `code`, which the client writes as
    /// `status`. A success ends the delivery with a trace line; anything else
    /// logs an error line naming the class and asks for the body. Outside the
    /// sending phase nothing changes.
    pub fn on_status(&mut self, code: u16, status: &str) -> (r: Vec<LogEntry>)
        ensures
            final(self).spec_failure() == old(self).spec_failure(),
            old(self)@.0 != Phase::Sending ==> final(self)@ == old(self)@ && r@.len() == 0,
            old(self)@.0 == Phase::Sending && status_class(code) == StatusClass::Success ==> final(self)@.0 == Phase::Delivered && log_view(r@) == seq![(LogLevel::Trace, DELIVERED@)],
            old(self)@.0 == Phase::Sending && status_class(code) != StatusClass::Success ==> final(self)@ == (Phase::Draining, Seq::<u8>::empty()) && log_view(r@) == seq![
                (LogLevel::Error, rejected_text(status_class(code), status@)),
            ],
    {
        let mut r: Vec<LogEntry> = Vec::new();
        if self.phase != Phase::Sending {
            return r;
        }
        let class = classify_status(code);
        if class == StatusClass::Success {
            self.phase = Phase::Delivered;
            r.push(LogEntry { level: LogLevel::Trace, text: String::from_str(DELIVERED) });
        } else {
            self.phase = Phase::Draining;
            self.body = Vec::new();
            let mut text = String::from_str(class.word());
            text.append(" error sending Echo Payload: ");
            text.append(status);
            r.push(LogEntry { level: LogLevel::Error, text });
        }
        proof {
            assert(log_view(r@) =~= seq![(r@[0].level, r@[0].text@)]);
            if class != StatusClass::Success {
                assert(self.body@ =~= Seq::<u8>::empty());
            }
        }
        r
    }

    /// A piece of a refused batch's body arrived. Outside the draining phase
    /// nothing changes.
    pub fn on_chunk(&mut self, chunk: &[u8])
        ensures
            final(self).spec_failure() == old(self).spec_failure(),
            old(self)@.0 == Phase::Draining ==> final(self)@ == (Phase::Draining, old(self)@.1
                + chunk@),
            old(self)@.0 != Phase::Draining ==> final(self)@ == old(self)@,
    {
        if self.phase != Phase::Draining {
            return;
        }
        let ghost before = self.body@;
        let mut i: usize = 0;
        while i < chunk.len()
            invariant
                i <= chunk@.len(),
                self.phase == Phase::Draining,
                self.failure == old(self).spec_failure(),
                self.body@ == before + chunk@.take(i as int),
            decreases chunk.len() - i,
        {
            self.body.push(chunk[i]);
            proof {
                assert(chunk@.take(i + 1) =~= chunk@.take(i as int).push(chunk@[i as int]));
            }
            i = i + 1;
        }
        proof {
            assert(chunk@.take(chunk@.len() as int) =~= chunk@);
        }
    }

    /// The body of a refusal has been read: it is logged as an error line and
    /// the delivery has failed with kind `Run`. Outside the draining phase
    /// nothing changes.
    pub fn on_body_end(&mut self) -> (r: Vec<LogEntry>)
        ensures
            old(self)@.0 == Phase::Draining ==> final(self).spec_failure() == Some(ErrKind::Run),
            old(self)@.0 != Phase::Draining ==> final(self).spec_failure() == old(
                self,
            ).spec_failure(),
            old(self)@.0 == Phase::Draining ==> final(self)@.0 == Phase::Failed && log_view(r@)
                == seq![(LogLevel::Error, lossy_text_of(old(self)@.1))],
            old(self)@.0 == Phase::Draining && valid_utf8(old(self)@.1) ==> log_view(r@) == seq![
                (LogLevel::Error, decode_utf8(old(self)@.1)),
            ],
            old(self)@.0 != Phase::Draining ==> final(self)@ == old(self)@ && r@.len() == 0,
    {
        let mut r: Vec<LogEntry> = Vec::new();
        if self.phase != Phase::Draining {
            return r;
        }
        let text = lossy_text(self.body.as_slice());
        self.phase = Phase::Failed;
        self.failure = Some(ErrKind::Run);
        r.push(LogEntry { level: LogLevel::Error, text });
        proof {
            assert(log_view(r@) =~= seq![(r@[0].level, r@[0].text@)]);
        }
        r
    }

    /// The transport failed (no connection, a malformed answer, a broken
    /// body): the failure is logged as an error line and the delivery has
    /// failed with the transport's kind. Once the delivery is over nothing
    /// changes.
    pub fn on_failure(&mut self, err: ErrKind) -> (r: Vec<LogEntry>)
        ensures
            old(self)@.0 == Phase::Sending || old(self)@.0 == Phase::Draining ==> final(self)@.0
                == Phase::Failed && final(self)@.1 == old(self)@.1 && r@.len() == 1 && r@[0].level
                == LogLevel::Error && describes(&err, r@[0].text) && final(self).spec_failure()
                == Some(err),
            (old(self)@.0 == Phase::Sending || old(self)@.0 == Phase::Draining) && own_description(
                &err,
            ) is Some ==> log_view(r@) == seq![(LogLevel::Error, own_description(&err)->0)],
            old(self)@.0 == Phase::Delivered || old(self)@.0 == Phase::Failed ==> final(self)@
                == old(self)@ && r@.len() == 0 && final(self).spec_failure() == old(
                self,
            ).spec_failure(),
    {
        let mut r: Vec<LogEntry> = Vec::new();
        if self.phase == Phase::Delivered || self.phase == Phase::Failed {
            return r;
        }
        self.phase = Phase::Failed;
        r.push(LogEntry { level: LogLevel::Error, text: err.description() });
        self.failure = Some(err);
        proof {
            assert(log_view(r@) =~= seq![(r@[0].level, r@[0].text@)]);
        }
        r
    }
}

} // verus!
