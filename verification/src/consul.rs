//! The watch source: a key of a Consul agent that holds the descriptor.
//!
//! The agent is asked with a blocking read that names the index seen last.
//! This module words the question and reads the answer; asking is left to
//! whoever holds the connection.

use crate::human_uri::{
    pairs_appended, path_replaced, query_replaced, segments_of, segments_pushed, HumanURI,
};
use crate::json::{json_document, Json, JsonValue};
use crate::utils::{decimal, decimal_text, error_details, Reply};
use vstd::prelude::*;
use vstd::string::StringExecFns;

verus! {

/// Why a read of the key gave nothing.
#[derive(Debug, Clone, PartialEq, Eq)]
pub enum ConsulError {
    /// The agent answered with another status than 200: the status and the
    /// body.
    HTTPError(String, String),
    /// The agent could not be reached: the failure and its details.
    IOError(String, String),
    /// The answer lacks something.
    DataError(String),
}

/// What a read of the key gave.
#[derive(Debug, Clone, PartialEq, Eq)]
pub enum ConsulKeyResponse {
    /// The key is as it was at the index that was named.
    NoNewContent,
    /// The value of the key and the index at which it was read.
    Key(String, i64),
}

impl ConsulError {
    /// The failure in a few words.
    pub open spec fn summary(self) -> Seq<char> {
        match self {
            ConsulError::HTTPError(msg, _) => msg@,
            ConsulError::IOError(_, details) => details@,
            ConsulError::DataError(msg) => msg@,
        }
    }

    /// The failure behind this one, where there is one.
    pub open spec fn origin(self) -> Option<Seq<char>> {
        match self {
            ConsulError::IOError(failure, _) => Some(failure@),
            _ => None,
        }
    }

    /// The failure as it is shown.
    pub open spec fn shown(self) -> Seq<char> {
        match self {
            ConsulError::HTTPError(msg, body) => msg@ + body@,
            ConsulError::IOError(_, details) => "Consul IO error: "@ + details@,
            ConsulError::DataError(msg) => msg@,
        }
    }

    pub fn description(&self) -> (r: &str)
        ensures
            r@ == self.summary(),
    {
        match self {
            ConsulError::HTTPError(msg, _) => msg.as_str(),
            ConsulError::IOError(_, details) => details.as_str(),
            ConsulError::DataError(msg) => msg.as_str(),
        }
    }

    pub fn cause(&self) -> (r: Option<&str>)
        ensures
            match r {
                Some(failure) => self.origin() == Some(failure@),
                None => self.origin() is None,
            },
    {
        match self {
            ConsulError::IOError(failure, _) => Some(failure.as_str()),
            _ => None,
        }
    }

    pub fn to_text(&self) -> (r: String)
        ensures
            r@ == self.shown(),
    {
        match self {
            ConsulError::HTTPError(msg, body) => msg.clone().concat(body.as_str()),
            ConsulError::IOError(_, details) => "Consul IO error: ".to_owned().concat(
                details.as_str(),
            ),
            ConsulError::DataError(msg) => msg.clone(),
        }
    }

    /// The error for a failure of the transport, given the failure's own
    /// message and the message of its cause.
    pub fn from_transport(message: &str, cause: Option<&str>) -> (r: ConsulError)
        ensures
            r matches ConsulError::IOError(failure, details) && failure@ == message@ && details@
                == match cause {
                Some(inner) => inner@,
                None => message@,
            },
    {
        let details = error_details(message, cause);
        ConsulError::IOError(message.to_owned(), details)
    }
}

/// What is done after a read of the key.
#[derive(Debug, Clone, PartialEq, Eq)]
pub enum WatchAction {
    /// Hand the payload on to the decoder.
    Deliver(String),
    /// Nothing new: hand on nothing.
    Idle,
    /// The read failed: report it and hand on nothing.
    Report(ConsulError),
}

/// The seconds between two reads of the key, whatever the first one gave.
pub const RETRY_SECONDS: u64 = 5;

/// The index to name in the next read.
pub open spec fn next_index(index: i64, outcome: Result<ConsulKeyResponse, ConsulError>) -> i64 {
    match outcome {
        Ok(ConsulKeyResponse::Key(_, new_index)) => new_index,
        _ => index,
    }
}

/// What to do with the outcome of a read.
pub open spec fn action_for(outcome: Result<ConsulKeyResponse, ConsulError>) -> WatchAction {
    match outcome {
        Ok(ConsulKeyResponse::Key(payload, _)) => WatchAction::Deliver(payload),
        Ok(ConsulKeyResponse::NoNewContent) => WatchAction::Idle,
        Err(error) => WatchAction::Report(error),
    }
}

/// The value of the key in the document that the agent answers with: the
/// document is an array of one object, and the value is the text under
/// `Value`.
pub open spec fn value_in(document: JsonValue) -> Option<Seq<char>> {
    match document.items() {
        Some(entries) if entries.len() == 1 && entries[0] is Object => match entries[0].member(
            "Value"@,
        ) {
            Some(value) => value.text(),
            None => None,
        },
        _ => None,
    }
}

/// Whether `outcome` is what the body of an answer holds, read at
/// `new_index`: the value of the key; an error that carries the reader's
/// message where the body is no JSON document; an error where the document
/// holds no value.
pub open spec fn reads_value(
    outcome: Result<ConsulKeyResponse, ConsulError>,
    body: Seq<char>,
    new_index: i64,
) -> bool {
    match json_document(body) {
        Ok(document) => match value_in(document) {
            Some(payload) => outcome matches Ok(ConsulKeyResponse::Key(text, at)) && text@
                == payload && at == new_index,
            None => outcome matches Err(ConsulError::DataError(msg)) && msg@
                == "No Value Received"@,
        },
        Err(message) => outcome matches Err(ConsulError::DataError(msg)) && msg@ == message,
    }
}

/// Whether `outcome` is what the answer to a read that named `index`
/// means. A status other than 200 is an error that carries status and
/// body. An answer without an index is an error. An index that has not
/// moved means that nothing is new, whatever the body holds; one that has
/// moved comes with the key's value.
pub open spec fn reads_answer(
    outcome: Result<ConsulKeyResponse, ConsulError>,
    index: i64,
    reply: Reply,
    consul_index: Option<i64>,
) -> bool {
    if !reply.is_ok() {
        outcome == Err::<ConsulKeyResponse, ConsulError>(
            ConsulError::HTTPError(reply.status_text, reply.body),
        )
    } else {
        match consul_index {
            Some(new_index) => if new_index == index {
                outcome == Ok::<ConsulKeyResponse, ConsulError>(ConsulKeyResponse::NoNewContent)
            } else {
                reads_value(outcome, reply.body@, new_index)
            },
            None => outcome matches Err(ConsulError::DataError(msg)) && msg@
                == "No Index Received"@,
        }
    }
}

/// Finds the value of the key in the document that the agent answered
/// with.
pub fn key_value(document: &Json) -> (r: Option<String>)
    ensures
        r.deep_view() == value_in(document@),
{
    let entries = match document.as_array() {
        Some(entries) => entries,
        None => {
            return None;
        },
    };
    if entries.len() != 1 || !entries[0].is_object() {
        return None;
    }
    match entries[0].get("Value") {
        Some(value) => match value.as_str() {
            Some(text) => Some(text.clone()),
            None => None,
        },
        None => None,
    }
}

/// The text of the URL that asks `endpoint` for `key`, naming `index`: the
/// path `/v1/kv` and the key behind it, the query `wait=10s` and the index
/// behind it. `None` where the URL would grow too long.
pub open spec fn key_url_text(endpoint: Seq<char>, key: Seq<char>, index: i64) -> Option<
    Seq<char>,
> {
    let at_store = path_replaced(endpoint, segments_of("/v1/kv"@));
    let at_key = if at_store is Some {
        segments_pushed(at_store->0, segments_of(key))
    } else {
        None
    };
    let waiting = if at_key is Some {
        query_replaced(at_key->0, seq![("wait"@, "10s"@)])
    } else {
        None
    };
    if waiting is Some {
        pairs_appended(waiting->0, seq![("index"@, decimal_text(index as int))])
    } else {
        None
    }
}

/// A read that finds the index where it was hands nothing on and leaves
/// the index where it was, whatever the body of the answer holds.
pub proof fn theorem_unchanged_index_delivers_nothing(
    index: i64,
    reply: Reply,
    outcome: Result<ConsulKeyResponse, ConsulError>,
)
    requires
        reply.is_ok(),
        reads_answer(outcome, index, reply, Some(index)),
    ensures
        action_for(outcome) == WatchAction::Idle,
        next_index(index, outcome) == index,
{
}

/// A Consul agent.
pub struct Consul {
    pub endpoint: HumanURI,
}

impl Consul {
    /// The agent at `raw_uri`; `None` where that is no address.
    #[inline]
    pub fn new(raw_uri: &str) -> (r: Option<Consul>)
        ensures
            match r {
                Some(consul) => HumanURI::parse_spec(raw_uri@) == Some(consul.endpoint@),
                None => HumanURI::parse_spec(raw_uri@) is None,
            },
    {
        match HumanURI::parse(raw_uri) {
            Some(endpoint) => Some(Consul { endpoint }),
            None => None,
        }
    }

    /// The URL of the blocking read of `key` that names `index`.
    pub fn key_url(&self, key: &str, index: i64) -> (r: Option<HumanURI>)
        ensures
            match r {
                Some(url) => key_url_text(self.endpoint@, key@, index) == Some(url@),
                None => key_url_text(self.endpoint@, key@, index) is None,
            },
    {
        let at_store = match self.endpoint.with_path("/v1/kv") {
            Some(url) => url,
            None => {
                return None;
            },
        };
        let at_key = match at_store.add_path(key) {
            Some(url) => url,
            None => {
                return None;
            },
        };
        let mut wait: Vec<(String, String)> = Vec::new();
        wait.push(("wait".to_owned(), "10s".to_owned()));
        assert(wait.deep_view() =~= seq![("wait"@, "10s"@)]);
        let waiting = match at_key.with_query_params(&wait) {
            Some(url) => url,
            None => {
                return None;
            },
        };
        let mut named: Vec<(String, String)> = Vec::new();
        named.push(("index".to_owned(), decimal(index)));
        assert(named.deep_view() =~= seq![("index"@, decimal_text(index as int))]);
        waiting.add_query_params(&named)
    }

    /// Reads the answer to a read that named `index`.
    pub fn get_key(&self, index: i64, reply: Reply, consul_index: Option<i64>) -> (r: Result<
        ConsulKeyResponse,
        ConsulError,
    >)
        ensures
            reads_answer(r, index, reply, consul_index),
    {
        if !reply.ok() {
            return Err(ConsulError::HTTPError(reply.status_text, reply.body));
        }
        match consul_index {
            Some(new_index) => {
                if new_index == index {
                    Ok(ConsulKeyResponse::NoNewContent)
                } else {
                    match Json::parse(reply.body.as_str()) {
                        Ok(document) => match key_value(&document) {
                            Some(payload) => Ok(ConsulKeyResponse::Key(payload, new_index)),
                            None => Err(ConsulError::DataError("No Value Received".to_owned())),
                        },
                        Err(message) => Err(ConsulError::DataError(message)),
                    }
                }
            },
            None => Err(ConsulError::DataError("No Index Received".to_owned())),
        }
    }

    /// One turn of the watch: given the index that the last read named and
    /// what that read gave, the index to name next and what to do now. Only
    /// a value read at a new index is handed on, and only then does the
    /// index move.
    pub fn watch_key(index: i64, outcome: Result<ConsulKeyResponse, ConsulError>) -> (r: (
        i64,
        WatchAction,
    ))
        ensures
            r.0 == next_index(index, outcome),
            r.1 == action_for(outcome),
    {
        match outcome {
            Err(error) => (index, WatchAction::Report(error)),
            Ok(ConsulKeyResponse::NoNewContent) => (index, WatchAction::Idle),
            Ok(ConsulKeyResponse::Key(payload, new_index)) => (
                new_index,
                WatchAction::Deliver(payload),
            ),
        }
    }
}

} // verus!
