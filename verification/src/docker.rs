//! The container engine: pulling an image and learning its id.
//!
//! This module words the requests and reads the answers; sending them is
//! left to whoever holds the connection.

use crate::human_uri::{path_replaced, query_replaced, segments_of, segments_pushed, HumanURI};
use crate::json::{json_document, stream_item, Json, JsonValue, StreamItemView};
use crate::spec::Image;
use crate::utils::{error_details, iter_to_stream, Reply};
use vstd::prelude::*;
use vstd::string::{StrSliceExecFns, StringExecFns};
use vstd::utf8::encode_utf8;

verus! {

/// Why the engine did not do what it was asked.
#[derive(Debug, Clone, PartialEq, Eq)]
pub enum DockerError {
    /// The engine answered with another status than 200: the status and
    /// the body.
    HTTPError(String, String),
    /// The engine could not be reached: the failure and its details.
    IOError(String, String),
    /// The answer is not what the protocol lays down: the failure of the
    /// reader, where it was the reader that failed, and the details.
    ProtocolError(Option<String>, String),
    /// The engine refused the request: its own words.
    RequestError(String),
}

impl DockerError {
    /// The failure in a few words.
    pub open spec fn summary(self) -> Seq<char> {
        match self {
            DockerError::HTTPError(msg, _) => msg@,
            DockerError::IOError(_, details) => details@,
            DockerError::ProtocolError(_, details) => details@,
            DockerError::RequestError(details) => details@,
        }
    }

    /// The failure behind this one, where there is one.
    pub open spec fn origin(self) -> Option<Seq<char>> {
        match self {
            DockerError::IOError(failure, _) => Some(failure@),
            DockerError::ProtocolError(Some(failure), _) => Some(failure@),
            _ => None,
        }
    }

    /// The failure as it is shown.
    pub open spec fn shown(self) -> Seq<char> {
        match self {
            DockerError::HTTPError(msg, _) => "Docker HTTP Error: "@ + msg@,
            DockerError::IOError(_, details) => "Docker IO error: "@ + details@,
            DockerError::ProtocolError(_, details) => "Docker protocol error: "@ + details@,
            DockerError::RequestError(details) => "Docker request error: "@ + details@,
        }
    }

    pub fn description(&self) -> (r: &str)
        ensures
            r@ == self.summary(),
    {
        match self {
            DockerError::HTTPError(msg, _) => msg.as_str(),
            DockerError::IOError(_, details) => details.as_str(),
            DockerError::ProtocolError(_, details) => details.as_str(),
            DockerError::RequestError(details) => details.as_str(),
        }
    }

    pub fn cause(&self) -> (r: Option<&str>)
        ensures
            match r {
                Some(failure) => self.origin() == Some(failure@),
                None => self.origin() is None,
            },
    {
        match self {
            DockerError::IOError(failure, _) => Some(failure.as_str()),
            DockerError::ProtocolError(maybe_failure, _) => match maybe_failure {
                Some(failure) => Some(failure.as_str()),
                None => None,
            },
            _ => None,
        }
    }

    pub fn to_text(&self) -> (r: String)
        ensures
            r@ == self.shown(),
    {
        match self {
            DockerError::HTTPError(msg, _) => "Docker HTTP Error: ".to_owned().concat(
                msg.as_str(),
            ),
            DockerError::IOError(_, details) => "Docker IO error: ".to_owned().concat(
                details.as_str(),
            ),
            DockerError::ProtocolError(_, details) => "Docker protocol error: ".to_owned().concat(
                details.as_str(),
            ),
            DockerError::RequestError(details) => "Docker request error: ".to_owned().concat(
                details.as_str(),
            ),
        }
    }

    /// The error for a failure of the transport, given the failure's own
    /// message and the message of its cause.
    pub fn from_transport(message: &str, cause: Option<&str>) -> (r: DockerError)
        ensures
            r matches DockerError::IOError(failure, details) && failure@ == message@ && details@
                == match cause {
                Some(inner) => inner@,
                None => message@,
            },
    {
        let details = error_details(message, cause);
        DockerError::IOError(message.to_owned(), details)
    }

    /// The error for a failure of the JSON reader, given the failure's own
    /// message and the message of its cause.
    pub fn from_reader(message: &str, cause: Option<&str>) -> (r: DockerError)
        ensures
            r matches DockerError::ProtocolError(Some(failure), details) && failure@ == message@
                && details@ == match cause {
                Some(inner) => inner@,
                None => message@,
            },
    {
        let details = error_details(message, cause);
        DockerError::ProtocolError(Some(message.to_owned()), details)
    }
}

/// What ends a pull before its end.
pub ghost enum PullFailure {
    /// The progress report cannot be read: the reader's message.
    Unreadable(Seq<char>),
    /// A progress object carries an error: the engine's words.
    Refused(Seq<char>),
    /// A progress object carries an error that is no text.
    Malformed,
}

/// What is wrong with one progress object: nothing, unless it has a member
/// `error`.
pub open spec fn failure_in(progress: JsonValue) -> Option<PullFailure> {
    match progress.member("error"@) {
        Some(JsonValue::String(words)) => Some(PullFailure::Refused(words)),
        Some(_) => Some(PullFailure::Malformed),
        None => None,
    }
}

/// The first thing that is wrong in the progress report `input`, read from
/// `from` on: progress objects are read one after the other up to the end
/// of the input, and the first that cannot be read or carries an `error`
/// member ends the pull. `None` where the report is read to its end.
pub open spec fn first_failure(input: Seq<u8>, from: int) -> Option<PullFailure>
    decreases input.len() - from,
{
    match stream_item(input, from) {
        StreamItemView::End => None,
        StreamItemView::Invalid(message) => Some(PullFailure::Unreadable(message)),
        StreamItemView::Document(json, used) => if failure_in(json) is Some {
            failure_in(json)
        } else if 0 < used <= input.len() - from {
            first_failure(input, from + used)
        } else {
            None
        },
    }
}

/// Whether `error` reports `failure`.
pub open spec fn reports(error: DockerError, failure: PullFailure) -> bool {
    match failure {
        PullFailure::Unreadable(message) => error matches DockerError::ProtocolError(
            Some(failure),
            details,
        ) && failure@ == message && details@ == message,
        PullFailure::Refused(words) => error matches DockerError::RequestError(details)
            && details@ == words,
        PullFailure::Malformed => error matches DockerError::ProtocolError(None, details)
            && details@ == "Invalid error value"@,
    }
}

/// Whether `outcome` is the end of a pull in which `failure` was the first
/// thing wrong, if anything was.
pub open spec fn ends_pull(outcome: Result<(), DockerError>, failure: Option<PullFailure>) -> bool {
    match failure {
        None => outcome is Ok,
        Some(failure) => outcome matches Err(error) && reports(error, failure),
    }
}

/// Looks at one progress object: an `error` member that is a text is the
/// engine's refusal, one that is anything else breaks the protocol.
pub fn check_status(progress: &Json) -> (r: Option<DockerError>)
    ensures
        match failure_in(progress@) {
            None => r is None,
            Some(failure) => r matches Some(error) && reports(error, failure),
        },
{
    match progress.get("error") {
        Some(value) => match value.as_str() {
            Some(words) => Some(DockerError::RequestError(words.clone())),
            None => Some(DockerError::ProtocolError(None, "Invalid error value".to_owned())),
        },
        None => None,
    }
}

/// Reads a progress report to its end or to the first thing wrong in it.
pub fn check_progress(report: &str) -> (r: Result<(), DockerError>)
    ensures
        ends_pull(r, first_failure(encode_utf8(report@), 0)),
{
    let mut stream = iter_to_stream(report.as_bytes_vec());
    let ghost input = encode_utf8(report@);
    loop
        invariant
            input == encode_utf8(report@),
            stream.input() == input,
            stream.position() <= input.len(),
            !stream.failed(),
            first_failure(input, 0) == first_failure(input, stream.position() as int),
        decreases stream.remaining(),
    {
        match stream.next() {
            None => {
                return Ok(());
            },
            Some(Err(message)) => {
                return Err(DockerError::from_reader(message.as_str(), None));
            },
            Some(Ok(progress)) => match check_status(&progress) {
                Some(error) => {
                    return Err(error);
                },
                None => {},
            },
        }
    }
}

/// Whether `outcome` is what a document says of an image's id: the text
/// under `Id` where there is one, and a protocol error where `Id` is no
/// text or is not there.
pub open spec fn names_image_id(outcome: Result<String, DockerError>, document: JsonValue) -> bool {
    match document.member("Id"@) {
        Some(JsonValue::String(id)) => outcome matches Ok(text) && text@ == id,
        Some(_) => outcome matches Err(DockerError::ProtocolError(None, details)) && details@
            == "Invalid id value"@,
        None => outcome matches Err(DockerError::ProtocolError(None, details)) && details@
            == "No id value found"@,
    }
}

/// Whether `outcome` is what the answer to the question after an image's
/// id means: the reader's failure where the body is no JSON document, else
/// what the document says.
pub open spec fn reads_image_id(outcome: Result<String, DockerError>, body: Seq<char>) -> bool {
    match json_document(body) {
        Err(message) => outcome matches Err(error) && reports(
            error,
            PullFailure::Unreadable(message),
        ),
        Ok(document) => names_image_id(outcome, document),
    }
}

/// Finds the id of an image in the document that describes the image.
pub fn image_id(document: &Json) -> (r: Result<String, DockerError>)
    ensures
        names_image_id(r, document@),
{
    match document.get("Id") {
        Some(id) => match id.as_str() {
            Some(text) => Ok(text.clone()),
            None => Err(DockerError::ProtocolError(None, "Invalid id value".to_owned())),
        },
        None => Err(DockerError::ProtocolError(None, "No id value found".to_owned())),
    }
}

/// The text of the URL that asks `endpoint` to pull an image: the path
/// `/images/create`, the query `fromImage` and `tag`.
pub open spec fn pull_url_text(endpoint: Seq<char>, name: Seq<char>, tag: Seq<char>) -> Option<
    Seq<char>,
> {
    let at_create = path_replaced(endpoint, segments_of("/images/create"@));
    if at_create is Some {
        query_replaced(at_create->0, seq![("fromImage"@, name), ("tag"@, tag)])
    } else {
        None
    }
}

/// The text of the URL that asks `endpoint` about an image: the path
/// `images`, then `name:tag`, then `json`.
pub open spec fn image_url_text(endpoint: Seq<char>, name: Seq<char>, tag: Seq<char>) -> Option<
    Seq<char>,
> {
    let at_images = path_replaced(endpoint, segments_of("images"@));
    let at_image = if at_images is Some {
        segments_pushed(at_images->0, segments_of(name + ":"@ + tag))
    } else {
        None
    };
    if at_image is Some {
        segments_pushed(at_image->0, segments_of("json"@))
    } else {
        None
    }
}

/// A container engine.
pub struct Docker {
    pub endpoint: HumanURI,
}

impl Docker {
    /// The engine at `raw_uri`; `None` where that is no address.
    #[inline]
    pub fn new(raw_uri: &str) -> (r: Option<Docker>)
        ensures
            match r {
                Some(docker) => HumanURI::parse_spec(raw_uri@) == Some(docker.endpoint@),
                None => HumanURI::parse_spec(raw_uri@) is None,
            },
    {
        match HumanURI::parse(raw_uri) {
            Some(endpoint) => Some(Docker { endpoint }),
            None => None,
        }
    }

    /// The URL to post to for a pull of `image`.
    pub fn pull_url(&self, image: &Image) -> (r: Option<HumanURI>)
        ensures
            match r {
                Some(url) => pull_url_text(self.endpoint@, image.name@, image.tag@) == Some(url@),
                None => pull_url_text(self.endpoint@, image.name@, image.tag@) is None,
            },
    {
        let at_create = match self.endpoint.with_path("/images/create") {
            Some(url) => url,
            None => {
                return None;
            },
        };
        let mut params: Vec<(String, String)> = Vec::new();
        params.push(("fromImage".to_owned(), image.name.clone()));
        params.push(("tag".to_owned(), image.tag.clone()));
        assert(params.deep_view() =~= seq![("fromImage"@, image.name@), ("tag"@, image.tag@)]);
        at_create.with_query_params(&params)
    }

    /// The URL to get for the id of `image`.
    pub fn image_url(&self, image: &Image) -> (r: Option<HumanURI>)
        ensures
            match r {
                Some(url) => image_url_text(self.endpoint@, image.name@, image.tag@) == Some(
                    url@,
                ),
                None => image_url_text(self.endpoint@, image.name@, image.tag@) is None,
            },
    {
        let at_images = match self.endpoint.with_path("images") {
            Some(url) => url,
            None => {
                return None;
            },
        };
        let reference = image.name.clone().concat(":").concat(image.tag.as_str());
        let at_image = match at_images.add_path(reference.as_str()) {
            Some(url) => url,
            None => {
                return None;
            },
        };
        at_image.add_path("json")
    }

    /// Reads the answer to a pull: a status other than 200 is an error
    /// that carries status and body; else the body is the progress report,
    /// and the first thing wrong in it is the error.
    pub fn pull_image(&self, reply: Reply) -> (r: Result<(), DockerError>)
        ensures
            if reply.is_ok() {
                ends_pull(r, first_failure(encode_utf8(reply.body@), 0))
            } else {
                r == Err::<(), DockerError>(DockerError::HTTPError(reply.status_text, reply.body))
            },
    {
        if !reply.ok() {
            return Err(DockerError::HTTPError(reply.status_text, reply.body));
        }
        check_progress(reply.body.as_str())
    }

    /// Reads the answer to the question after an image's id: a status
    /// other than 200 is an error that carries status and body; else the
    /// body is a JSON document with the id under `Id`.
    pub fn receive_image_id(&self, reply: Reply) -> (r: Result<String, DockerError>)
        ensures
            if reply.is_ok() {
                reads_image_id(r, reply.body@)
            } else {
                r == Err::<String, DockerError>(
                    DockerError::HTTPError(reply.status_text, reply.body),
                )
            },
    {
        if !reply.ok() {
            return Err(DockerError::HTTPError(reply.status_text, reply.body));
        }
        match Json::parse(reply.body.as_str()) {
            Ok(document) => image_id(&document),
            Err(message) => Err(DockerError::from_reader(message.as_str(), None)),
        }
    }
}

} // verus!
