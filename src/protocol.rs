//! The progress protocol: each progress item travels as an event with an
//! identifier (`log`, `stage` or `error`) and JSON data; the receiving side
//! turns events back into progress items or a remote error.

use vstd::prelude::*;

use crate::json::{json_member, json_string_value, json_text, quote, read_member, read_string};
use crate::progress::{self, error_message, error_name, error_of_name, stage_name, stage_of_name, Log, Progress, Stage};
use crate::deploy::{self, cause_of, error_of, kind_of};
use crate::text::{join3, opt_view, same_text};

verus! {

/// One message of the progress stream.
#[derive(Clone, Debug, PartialEq, Eq)]
pub struct Event {
    pub id: String,
    pub data: String,
}

/// Why a progress stream could not be followed to its end.
#[derive(Clone, Debug, PartialEq, Eq)]
pub enum Error {
    /// The connection failed; the text says how.
    Transport(String),
    /// The server refused the credential.
    Unauthorized,
    /// The server knows no such site.
    SiteNotFound,
    /// The server answered with another unexpected status.
    InvalidResponse(u16),
    /// An event with an unknown identifier: the identifier and the data.
    InvalidEvent(String),
    /// An event whose data could not be read: the data.
    Decoding(String),
    /// The stream closed before the deployment was reported live.
    Interrupted,
}

/// The data of a log event.
pub open spec fn log_data(l: Log) -> Seq<char> {
    match l {
        Log::Info(t) => "{\"type\":\"Info\",\"log\":"@ + json_text(t@) + "}"@,
        Log::Error(t) => "{\"type\":\"Error\",\"log\":"@ + json_text(t@) + "}"@,
    }
}

/// The data of a stage event.
pub open spec fn stage_data(s: Stage) -> Seq<char> {
    json_text(stage_name(s))
}

/// The data of an error event.
pub open spec fn error_data(e: progress::Error) -> Seq<char> {
    "{\"error\":"@ + json_text(error_name(e)) + ",\"message\":"@ + json_text(error_message(e)) + "}"@
}

/// The event that carries a progress item or a failure.
pub open spec fn is_event_of(ev: Event, item: Result<Progress, progress::Error>) -> bool {
    match item {
        Ok(Progress::Log(l)) => ev.id@ == "log"@ && ev.data@ == log_data(l),
        Ok(Progress::Stage(s)) => ev.id@ == "stage"@ && ev.data@ == stage_data(s),
        Err(e) => ev.id@ == "error"@ && ev.data@ == error_data(e),
    }
}

/// Encodes a log line.
pub fn encode_log(l: &Log) -> (r: Event)
    ensures
        is_event_of(r, Ok(Progress::Log(*l))),
{
    let data = match l {
        Log::Info(t) => join3("{\"type\":\"Info\",\"log\":", quote(t.as_str()).as_str(), "}"),
        Log::Error(t) => join3("{\"type\":\"Error\",\"log\":", quote(t.as_str()).as_str(), "}"),
    };
    Event { id: String::from_str("log"), data }
}

/// Encodes a stage checkpoint.
pub fn encode_stage(s: Stage) -> (r: Event)
    ensures
        is_event_of(r, Ok(Progress::Stage(s))),
{
    Event { id: String::from_str("stage"), data: quote(s.name().as_str()) }
}

/// Encodes a failure by its kind and message.
pub fn encode_error(e: progress::Error) -> (r: Event)
    ensures
        is_event_of(r, Err(e)),
{
    let head = join3("{\"error\":", quote(e.name().as_str()).as_str(), ",\"message\":");
    let data = join3(head.as_str(), quote(e.message().as_str()).as_str(), "}");
    Event { id: String::from_str("error"), data }
}

/// Encodes a progress item or a failure.
pub fn encode(item: &Result<Progress, progress::Error>) -> (r: Event)
    ensures
        is_event_of(r, *item),
{
    match item {
        Ok(Progress::Log(l)) => encode_log(l),
        Ok(Progress::Stage(s)) => encode_stage(*s),
        Err(e) => encode_error(*e),
    }
}

/// The log line that the members `type` and `log` of a log event describe.
pub open spec fn is_log_of(r: Option<Log>, ty: Option<Seq<char>>, text: Option<Seq<char>>) -> bool {
    match (ty, text) {
        (Some(t), Some(x)) => if t == "Info"@ {
            r matches Some(Log::Info(s)) && s@ == x
        } else if t == "Error"@ {
            r matches Some(Log::Error(s)) && s@ == x
        } else {
            r is None
        },
        _ => r is None,
    }
}

/// Builds a log line from the members `type` and `log` of a log event.
pub fn log_from_members(ty: Option<String>, text: Option<String>) -> (r: Option<Log>)
    ensures
        is_log_of(r, opt_view(ty), opt_view(text)),
{
    match (ty, text) {
        (Some(t), Some(x)) => {
            if same_text(t.as_str(), "Info") {
                Some(Log::Info(x))
            } else if same_text(t.as_str(), "Error") {
                Some(Log::Error(x))
            } else {
                None
            }
        },
        _ => None,
    }
}

/// What the receiving side makes of an event with identifier `id` and data `d`.
pub open spec fn is_decoding_of(r: Result<Result<Progress, progress::Error>, Error>, id: Seq<char>, d: Seq<char>) -> bool {
    if id == "log"@ {
        match r {
            Ok(Ok(Progress::Log(l))) => is_log_of(Some(l), json_member(d, "type"@), json_member(d, "log"@)),
            Err(Error::Decoding(x)) => x@ == d && is_log_of(None, json_member(d, "type"@), json_member(d, "log"@)),
            _ => false,
        }
    } else if id == "stage"@ {
        match json_string_value(d) {
            Some(n) => match stage_of_name(n) {
                Some(s) => r == Ok::<Result<Progress, progress::Error>, Error>(Ok(Progress::Stage(s))),
                None => r matches Err(Error::Decoding(x)) && x@ == d,
            },
            None => r matches Err(Error::Decoding(x)) && x@ == d,
        }
    } else if id == "error"@ {
        match json_member(d, "error"@) {
            Some(n) => match error_of_name(n) {
                Some(e) => r == Ok::<Result<Progress, progress::Error>, Error>(Err(e)),
                None => r matches Err(Error::Decoding(x)) && x@ == d,
            },
            None => r matches Err(Error::Decoding(x)) && x@ == d,
        }
    } else {
        r matches Err(Error::InvalidEvent(x)) && x@ == id + ": "@ + d
    }
}

/// Turns an event back into a progress item, a remote failure, or a decoding error.
pub fn decode(id: &str, d: &str) -> (r: Result<Result<Progress, progress::Error>, Error>)
    ensures
        is_decoding_of(r, id@, d@),
{
    if same_text(id, "log") {
        let ty = read_member(d, "type");
        let text = read_member(d, "log");
        match log_from_members(ty, text) {
            Some(l) => Ok(Ok(Progress::Log(l))),
            None => Err(Error::Decoding(String::from_str(d))),
        }
    } else if same_text(id, "stage") {
        match read_string(d) {
            Some(n) => match Stage::from_name(n.as_str()) {
                Some(s) => Ok(Ok(Progress::Stage(s))),
                None => Err(Error::Decoding(String::from_str(d))),
            },
            None => Err(Error::Decoding(String::from_str(d))),
        }
    } else if same_text(id, "error") {
        match read_member(d, "error") {
            Some(n) => match progress::Error::from_name(n.as_str()) {
                Some(e) => Ok(Err(e)),
                None => Err(Error::Decoding(String::from_str(d))),
            },
            None => Err(Error::Decoding(String::from_str(d))),
        }
    } else {
        Err(Error::InvalidEvent(join3(id, ": ", d)))
    }
}

/// The failure that an HTTP status at stream opening means, if any.
pub open spec fn status_failure(code: u16) -> Option<Error> {
    if 200 <= code < 300 {
        None
    } else if code == 404 {
        Some(Error::SiteNotFound)
    } else if code == 401 || code == 403 {
        Some(Error::Unauthorized)
    } else {
        Some(Error::InvalidResponse(code))
    }
}

/// Checks the HTTP status with which the server opened the stream.
pub fn check_status(code: u16) -> (r: Result<(), Error>)
    ensures
        match status_failure(code) {
            None => r is Ok,
            Some(e) => r == Err::<(), Error>(e),
        },
{
    if 200 <= code && code < 300 {
        Ok(())
    } else if code == 404 {
        Err(Error::SiteNotFound)
    } else if code == 401 || code == 403 {
        Err(Error::Unauthorized)
    } else {
        Err(Error::InvalidResponse(code))
    }
}

/// The receiving side of a progress stream: remembers whether the last item
/// seen was the final `Deployed` checkpoint, which alone makes a close a success.
#[derive(Clone, Copy, Debug)]
pub struct Receiver {
    pub last_was_deployed: bool,
}

impl Receiver {
    /// A receiver that has seen nothing.
    pub fn new() -> (r: Receiver)
        ensures
            !r.last_was_deployed,
    {
        Receiver { last_was_deployed: false }
    }

    /// Records an item of the stream.
    pub fn observe(&mut self, item: &Result<Progress, progress::Error>)
        ensures
            final(self).last_was_deployed == (*item == Ok::<Progress, progress::Error>(Progress::Stage(Stage::Deployed))),
    {
        self.last_was_deployed = match item {
            Ok(Progress::Stage(Stage::Deployed)) => true,
            _ => false,
        };
    }

    /// What a clean close of the stream means now: success only after `Deployed`.
    pub fn close(&self) -> (r: Result<(), Error>)
        ensures
            self.last_was_deployed ==> r is Ok,
            !self.last_was_deployed ==> r == Err::<(), Error>(Error::Interrupted),
    {
        if self.last_was_deployed {
            Ok(())
        } else {
            Err(Error::Interrupted)
        }
    }
}

/// Error mapping: every failure has exactly one wire kind, which keeps all but
/// the cause (kind and cause give the failure back), and an error event whose
/// `error` member is that kind's wire name decodes to the same kind.
pub proof fn lemma_error_round_trip(e: deploy::Error, d: Seq<char>, r: Result<Result<Progress, progress::Error>, Error>)
    ensures
        error_of(kind_of(e), cause_of(e)) == e,
        error_of_name(error_name(kind_of(e))) == Some(kind_of(e)),
        json_member(d, "error"@) == Some(error_name(kind_of(e))) && is_decoding_of(r, "error"@, d)
            ==> r == Ok::<Result<Progress, progress::Error>, Error>(Err(kind_of(e))),
{
    reveal_strlit("log");
    reveal_strlit("stage");
    reveal_strlit("error");
    assert("log"@[0] == 'l');
    assert("stage"@[0] == 's');
    assert("error"@[0] == 'e');
    progress::lemma_error_name_round_trip(kind_of(e));
}

} // verus!
