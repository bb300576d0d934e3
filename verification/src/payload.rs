//! The descriptor payload: how a deployment descriptor is written in JSON.
//!
//! A descriptor is an object. A member that the descriptor does not need
//! may be absent or `null`; a member that it does not know is passed over.
//! A stop policy is an array that begins with its tag, `["Before"]` or
//! `["AfterTimeout", seconds]`, and so is a check method: `["Script", cmd]`,
//! `["Http", url]` or `["HttpPath", path]`.

use crate::decode::{
    agrees, defaulted, optional, read_defaulted, read_optional, read_required,
    read_required_list, required, required_list, DecodeError, FromJson,
};
use crate::encode::{
    encoded_each, encoded_optional, lemma_round_trip_list, lemma_round_trip_member,
    lemma_round_trip_optional, writable_each, writable_optional, write_each, write_optional,
    ToJson,
};
use crate::json::{json_document, lemma_array_view, lemma_object_view, Json, JsonValue};
use crate::spec::{
    Check, CheckMethod, CheckMethodView, CheckView, Discovery, DiscoveryView, EnvVar, EnvVarView,
    Image, ImageView, Log, LogView, Service, ServiceView, Spec, SpecView, Stop, Volume,
    VolumeView,
};
use vstd::prelude::*;

verus! {

/// Whether `text` reads `word`.
fn reads(text: &String, word: &str) -> (r: bool)
    ensures
        r == (text@ == word@),
{
    let word = word.to_owned();
    *text == word
}

impl FromJson for EnvVar {
    open spec fn decoded(json: JsonValue, place: &'static str) -> Result<EnvVarView, DecodeError> {
        let name = required::<String>(json, "name");
        let value = required::<String>(json, "value");
        if !(json is Object) {
            Err(DecodeError::TypeMismatch(place))
        } else if name is Err {
            Err(name->Err_0)
        } else if value is Err {
            Err(value->Err_0)
        } else {
            Ok(EnvVarView { name: name->Ok_0, value: value->Ok_0 })
        }
    }

    fn from_json(json: &Json, place: &'static str) -> (r: Result<EnvVar, DecodeError>) {
        if !json.is_object() {
            return Err(DecodeError::TypeMismatch(place));
        }
        let name = match read_required::<String>(json, "name") {
            Ok(v) => v,
            Err(e) => {
                return Err(e);
            },
        };
        let value = match read_required::<String>(json, "value") {
            Ok(v) => v,
            Err(e) => {
                return Err(e);
            },
        };
        Ok(EnvVar { name, value })
    }
}

impl FromJson for Image {
    open spec fn decoded(json: JsonValue, place: &'static str) -> Result<ImageView, DecodeError> {
        let name = required::<String>(json, "name");
        let tag = required::<String>(json, "tag");
        if !(json is Object) {
            Err(DecodeError::TypeMismatch(place))
        } else if name is Err {
            Err(name->Err_0)
        } else if tag is Err {
            Err(tag->Err_0)
        } else {
            Ok(ImageView { name: name->Ok_0, tag: tag->Ok_0 })
        }
    }

    fn from_json(json: &Json, place: &'static str) -> (r: Result<Image, DecodeError>) {
        if !json.is_object() {
            return Err(DecodeError::TypeMismatch(place));
        }
        let name = match read_required::<String>(json, "name") {
            Ok(v) => v,
            Err(e) => {
                return Err(e);
            },
        };
        let tag = match read_required::<String>(json, "tag") {
            Ok(v) => v,
            Err(e) => {
                return Err(e);
            },
        };
        Ok(Image { name, tag })
    }
}

impl FromJson for Volume {
    open spec fn decoded(json: JsonValue, place: &'static str) -> Result<VolumeView, DecodeError> {
        let from = required::<String>(json, "from");
        let to = required::<String>(json, "to");
        if !(json is Object) {
            Err(DecodeError::TypeMismatch(place))
        } else if from is Err {
            Err(from->Err_0)
        } else if to is Err {
            Err(to->Err_0)
        } else {
            Ok(VolumeView { from: from->Ok_0, to: to->Ok_0 })
        }
    }

    fn from_json(json: &Json, place: &'static str) -> (r: Result<Volume, DecodeError>) {
        if !json.is_object() {
            return Err(DecodeError::TypeMismatch(place));
        }
        let from = match read_required::<String>(json, "from") {
            Ok(v) => v,
            Err(e) => {
                return Err(e);
            },
        };
        let to = match read_required::<String>(json, "to") {
            Ok(v) => v,
            Err(e) => {
                return Err(e);
            },
        };
        Ok(Volume { from, to })
    }
}

/// The check method that the tag names, with its argument.
pub open spec fn check_method_of(tag: Seq<char>, argument: Seq<char>) -> Option<CheckMethodView> {
    if tag == "Script"@ {
        Some(CheckMethodView::Script(argument))
    } else if tag == "Http"@ {
        Some(CheckMethodView::Http(argument))
    } else if tag == "HttpPath"@ {
        Some(CheckMethodView::HttpPath(argument))
    } else {
        None
    }
}

impl FromJson for CheckMethod {
    /// A check method is an array of two strings, a known tag and its
    /// argument. An array that is empty or longer than two has the wrong
    /// length; a tag that is not known is an unknown variant; anything
    /// else that is amiss, a missing argument too, is a type mismatch.
    open spec fn decoded(json: JsonValue, place: &'static str) -> Result<
        CheckMethodView,
        DecodeError,
    > {
        match json.items() {
            None => Err(DecodeError::TypeMismatch(place)),
            Some(items) => if items.len() == 0 {
                Err(DecodeError::LengthMismatch(place))
            } else {
                match items[0].text() {
                    None => Err(DecodeError::TypeMismatch(place)),
                    Some(tag) => if check_method_of(tag, Seq::empty()) is None {
                        Err(DecodeError::UnknownVariant(place))
                    } else if items.len() < 2 {
                        Err(DecodeError::TypeMismatch(place))
                    } else {
                        match items[1].text() {
                            None => Err(DecodeError::TypeMismatch(place)),
                            Some(argument) => if items.len() > 2 {
                                Err(DecodeError::LengthMismatch(place))
                            } else {
                                Ok(check_method_of(tag, argument)->0)
                            },
                        }
                    },
                }
            },
        }
    }

    fn from_json(json: &Json, place: &'static str) -> (r: Result<CheckMethod, DecodeError>) {
        let items = match json.as_array() {
            Some(items) => items,
            None => {
                return Err(DecodeError::TypeMismatch(place));
            },
        };
        if items.len() == 0 {
            return Err(DecodeError::LengthMismatch(place));
        }
        let tag = match items[0].as_str() {
            Some(tag) => tag,
            None => {
                return Err(DecodeError::TypeMismatch(place));
            },
        };
        let script = reads(tag, "Script");
        let http = reads(tag, "Http");
        let http_path = reads(tag, "HttpPath");
        if !script && !http && !http_path {
            return Err(DecodeError::UnknownVariant(place));
        }
        if items.len() < 2 {
            return Err(DecodeError::TypeMismatch(place));
        }
        let argument = match items[1].as_str() {
            Some(argument) => argument.clone(),
            None => {
                return Err(DecodeError::TypeMismatch(place));
            },
        };
        if items.len() > 2 {
            return Err(DecodeError::LengthMismatch(place));
        }
        if script {
            Ok(CheckMethod::Script(argument))
        } else if http {
            Ok(CheckMethod::Http(argument))
        } else {
            Ok(CheckMethod::HttpPath(argument))
        }
    }
}

impl FromJson for Stop {
    /// A stop policy is an array that holds the tag `Before` alone, or the
    /// tag `AfterTimeout` and a number of seconds. An array with fewer or
    /// more elements than its tag asks for has the wrong length; a tag that
    /// is not known is an unknown variant; anything else that is amiss is a
    /// type mismatch.
    open spec fn decoded(json: JsonValue, place: &'static str) -> Result<Stop, DecodeError> {
        match json.items() {
            None => Err(DecodeError::TypeMismatch(place)),
            Some(items) => if items.len() == 0 {
                Err(DecodeError::LengthMismatch(place))
            } else {
                match items[0].text() {
                    None => Err(DecodeError::TypeMismatch(place)),
                    Some(tag) => if tag == "Before"@ {
                        if items.len() > 1 {
                            Err(DecodeError::LengthMismatch(place))
                        } else {
                            Ok(Stop::Before)
                        }
                    } else if tag == "AfterTimeout"@ {
                        if items.len() < 2 {
                            Err(DecodeError::LengthMismatch(place))
                        } else {
                            match items[1].small() {
                                None => Err(DecodeError::TypeMismatch(place)),
                                Some(seconds) => if items.len() > 2 {
                                    Err(DecodeError::LengthMismatch(place))
                                } else {
                                    Ok(Stop::AfterTimeout(seconds))
                                },
                            }
                        }
                    } else {
                        Err(DecodeError::UnknownVariant(place))
                    },
                }
            },
        }
    }

    fn from_json(json: &Json, place: &'static str) -> (r: Result<Stop, DecodeError>) {
        let items = match json.as_array() {
            Some(items) => items,
            None => {
                return Err(DecodeError::TypeMismatch(place));
            },
        };
        if items.len() == 0 {
            return Err(DecodeError::LengthMismatch(place));
        }
        let tag = match items[0].as_str() {
            Some(tag) => tag,
            None => {
                return Err(DecodeError::TypeMismatch(place));
            },
        };
        if reads(tag, "Before") {
            if items.len() > 1 {
                return Err(DecodeError::LengthMismatch(place));
            }
            Ok(Stop::Before)
        } else if reads(tag, "AfterTimeout") {
            if items.len() < 2 {
                return Err(DecodeError::LengthMismatch(place));
            }
            let seconds = match items[1].as_u16() {
                Some(seconds) => seconds,
                None => {
                    return Err(DecodeError::TypeMismatch(place));
                },
            };
            if items.len() > 2 {
                return Err(DecodeError::LengthMismatch(place));
            }
            Ok(Stop::AfterTimeout(seconds))
        } else {
            Err(DecodeError::UnknownVariant(place))
        }
    }
}

impl FromJson for Check {
    open spec fn decoded(json: JsonValue, place: &'static str) -> Result<CheckView, DecodeError> {
        let method = required::<CheckMethod>(json, "method");
        let interval = required::<u16>(json, "interval");
        let timeout = required::<u16>(json, "timeout");
        if !(json is Object) {
            Err(DecodeError::TypeMismatch(place))
        } else if method is Err {
            Err(method->Err_0)
        } else if interval is Err {
            Err(interval->Err_0)
        } else if timeout is Err {
            Err(timeout->Err_0)
        } else {
            Ok(
                CheckView {
                    method: method->Ok_0,
                    interval: interval->Ok_0,
                    timeout: timeout->Ok_0,
                },
            )
        }
    }

    fn from_json(json: &Json, place: &'static str) -> (r: Result<Check, DecodeError>) {
        if !json.is_object() {
            return Err(DecodeError::TypeMismatch(place));
        }
        let method = match read_required::<CheckMethod>(json, "method") {
            Ok(v) => v,
            Err(e) => {
                return Err(e);
            },
        };
        let interval = match read_required::<u16>(json, "interval") {
            Ok(v) => v,
            Err(e) => {
                return Err(e);
            },
        };
        let timeout = match read_required::<u16>(json, "timeout") {
            Ok(v) => v,
            Err(e) => {
                return Err(e);
            },
        };
        Ok(Check { method, interval, timeout })
    }
}

impl FromJson for Service {
    open spec fn decoded(json: JsonValue, place: &'static str) -> Result<ServiceView, DecodeError> {
        let name = required::<String>(json, "name");
        let port = required::<u16>(json, "port");
        let tags = required_list::<String>(json, "tags");
        let check = required::<Check>(json, "check");
        let udp = defaulted::<bool>(json, "udp", false);
        let host_port = optional::<u16>(json, "host_port");
        if !(json is Object) {
            Err(DecodeError::TypeMismatch(place))
        } else if name is Err {
            Err(name->Err_0)
        } else if port is Err {
            Err(port->Err_0)
        } else if tags is Err {
            Err(tags->Err_0)
        } else if check is Err {
            Err(check->Err_0)
        } else if udp is Err {
            Err(udp->Err_0)
        } else if host_port is Err {
            Err(host_port->Err_0)
        } else {
            Ok(
                ServiceView {
                    name: name->Ok_0,
                    port: port->Ok_0,
                    tags: tags->Ok_0,
                    check: check->Ok_0,
                    udp: udp->Ok_0,
                    host_port: host_port->Ok_0,
                },
            )
        }
    }

    fn from_json(json: &Json, place: &'static str) -> (r: Result<Service, DecodeError>) {
        if !json.is_object() {
            return Err(DecodeError::TypeMismatch(place));
        }
        let name = match read_required::<String>(json, "name") {
            Ok(v) => v,
            Err(e) => {
                return Err(e);
            },
        };
        let port = match read_required::<u16>(json, "port") {
            Ok(v) => v,
            Err(e) => {
                return Err(e);
            },
        };
        let tags = match read_required_list::<String>(json, "tags") {
            Ok(v) => v,
            Err(e) => {
                return Err(e);
            },
        };
        let check = match read_required::<Check>(json, "check") {
            Ok(v) => v,
            Err(e) => {
                return Err(e);
            },
        };
        let udp = match read_defaulted::<bool>(json, "udp", false) {
            Ok(v) => v,
            Err(e) => {
                return Err(e);
            },
        };
        let host_port = match read_optional::<u16>(json, "host_port") {
            Ok(v) => v,
            Err(e) => {
                return Err(e);
            },
        };
        Ok(Service { name, port, tags, check, udp, host_port })
    }
}

impl FromJson for Discovery {
    open spec fn decoded(json: JsonValue, place: &'static str) -> Result<
        DiscoveryView,
        DecodeError,
    > {
        let service = required::<String>(json, "service");
        let env = required::<String>(json, "env");
        let multiple = defaulted::<bool>(json, "multiple", false);
        let tag = optional::<String>(json, "tag");
        if !(json is Object) {
            Err(DecodeError::TypeMismatch(place))
        } else if service is Err {
            Err(service->Err_0)
        } else if env is Err {
            Err(env->Err_0)
        } else if multiple is Err {
            Err(multiple->Err_0)
        } else if tag is Err {
            Err(tag->Err_0)
        } else {
            Ok(
                DiscoveryView {
                    service: service->Ok_0,
                    env: env->Ok_0,
                    multiple: multiple->Ok_0,
                    tag: tag->Ok_0,
                },
            )
        }
    }

    fn from_json(json: &Json, place: &'static str) -> (r: Result<Discovery, DecodeError>) {
        if !json.is_object() {
            return Err(DecodeError::TypeMismatch(place));
        }
        let service = match read_required::<String>(json, "service") {
            Ok(v) => v,
            Err(e) => {
                return Err(e);
            },
        };
        let env = match read_required::<String>(json, "env") {
            Ok(v) => v,
            Err(e) => {
                return Err(e);
            },
        };
        let multiple = match read_defaulted::<bool>(json, "multiple", false) {
            Ok(v) => v,
            Err(e) => {
                return Err(e);
            },
        };
        let tag = match read_optional::<String>(json, "tag") {
            Ok(v) => v,
            Err(e) => {
                return Err(e);
            },
        };
        Ok(Discovery { service, env, multiple, tag })
    }
}

impl FromJson for Log {
    open spec fn decoded(json: JsonValue, place: &'static str) -> Result<LogView, DecodeError> {
        let log_type = required::<String>(json, "type");
        let config = optional::<Json>(json, "config");
        if !(json is Object) {
            Err(DecodeError::TypeMismatch(place))
        } else if log_type is Err {
            Err(log_type->Err_0)
        } else if config is Err {
            Err(config->Err_0)
        } else {
            Ok(LogView { log_type: log_type->Ok_0, config: config->Ok_0 })
        }
    }

    fn from_json(json: &Json, place: &'static str) -> (r: Result<Log, DecodeError>) {
        if !json.is_object() {
            return Err(DecodeError::TypeMismatch(place));
        }
        let log_type = match read_required::<String>(json, "type") {
            Ok(v) => v,
            Err(e) => {
                return Err(e);
            },
        };
        let config = match read_optional::<Json>(json, "config") {
            Ok(v) => v,
            Err(e) => {
                return Err(e);
            },
        };
        Ok(Log { log_type, config })
    }
}

impl FromJson for Spec {
    /// The members of a descriptor are read in the order in which the
    /// descriptor declares them; the first that fails gives the error.
    open spec fn decoded(json: JsonValue, place: &'static str) -> Result<SpecView, DecodeError> {
        let image = required::<Image>(json, "image");
        let cmd = required_list::<String>(json, "cmd");
        let services = required_list::<Service>(json, "services");
        let envs = required_list::<EnvVar>(json, "envs");
        let discoveries = required_list::<Discovery>(json, "discoveries");
        let name = optional::<String>(json, "name");
        let host = optional::<String>(json, "host");
        let user = optional::<String>(json, "user");
        let privileged = defaulted::<bool>(json, "privileged", false);
        let network_mode = optional::<String>(json, "network_mode");
        let stop = defaulted::<Stop>(json, "stop", Stop::AfterTimeout(10));
        let kill_timeout = optional::<u16>(json, "kill_timeout");
        let log = optional::<Log>(json, "log");
        if !(json is Object) {
            Err(DecodeError::TypeMismatch(place))
        } else if image is Err {
            Err(image->Err_0)
        } else if cmd is Err {
            Err(cmd->Err_0)
        } else if services is Err {
            Err(services->Err_0)
        } else if envs is Err {
            Err(envs->Err_0)
        } else if discoveries is Err {
            Err(discoveries->Err_0)
        } else if name is Err {
            Err(name->Err_0)
        } else if host is Err {
            Err(host->Err_0)
        } else if user is Err {
            Err(user->Err_0)
        } else if privileged is Err {
            Err(privileged->Err_0)
        } else if network_mode is Err {
            Err(network_mode->Err_0)
        } else if stop is Err {
            Err(stop->Err_0)
        } else if kill_timeout is Err {
            Err(kill_timeout->Err_0)
        } else if log is Err {
            Err(log->Err_0)
        } else {
            Ok(
                SpecView {
                    image: image->Ok_0,
                    cmd: cmd->Ok_0,
                    services: services->Ok_0,
                    envs: envs->Ok_0,
                    discoveries: discoveries->Ok_0,
                    name: name->Ok_0,
                    host: host->Ok_0,
                    user: user->Ok_0,
                    privileged: privileged->Ok_0,
                    network_mode: network_mode->Ok_0,
                    stop: stop->Ok_0,
                    kill_timeout: kill_timeout->Ok_0,
                    log: log->Ok_0,
                },
            )
        }
    }

    fn from_json(json: &Json, place: &'static str) -> (r: Result<Spec, DecodeError>) {
        if !json.is_object() {
            return Err(DecodeError::TypeMismatch(place));
        }
        let image = match read_required::<Image>(json, "image") {
            Ok(v) => v,
            Err(e) => {
                return Err(e);
            },
        };
        let cmd = match read_required_list::<String>(json, "cmd") {
            Ok(v) => v,
            Err(e) => {
                return Err(e);
            },
        };
        let services = match read_required_list::<Service>(json, "services") {
            Ok(v) => v,
            Err(e) => {
                return Err(e);
            },
        };
        let envs = match read_required_list::<EnvVar>(json, "envs") {
            Ok(v) => v,
            Err(e) => {
                return Err(e);
            },
        };
        let discoveries = match read_required_list::<Discovery>(json, "discoveries") {
            Ok(v) => v,
            Err(e) => {
                return Err(e);
            },
        };
        let name = match read_optional::<String>(json, "name") {
            Ok(v) => v,
            Err(e) => {
                return Err(e);
            },
        };
        let host = match read_optional::<String>(json, "host") {
            Ok(v) => v,
            Err(e) => {
                return Err(e);
            },
        };
        let user = match read_optional::<String>(json, "user") {
            Ok(v) => v,
            Err(e) => {
                return Err(e);
            },
        };
        let privileged = match read_defaulted::<bool>(json, "privileged", false) {
            Ok(v) => v,
            Err(e) => {
                return Err(e);
            },
        };
        let network_mode = match read_optional::<String>(json, "network_mode") {
            Ok(v) => v,
            Err(e) => {
                return Err(e);
            },
        };
        let stop = match read_defaulted::<Stop>(json, "stop", Stop::default()) {
            Ok(v) => v,
            Err(e) => {
                return Err(e);
            },
        };
        let kill_timeout = match read_optional::<u16>(json, "kill_timeout") {
            Ok(v) => v,
            Err(e) => {
                return Err(e);
            },
        };
        let log = match read_optional::<Log>(json, "log") {
            Ok(v) => v,
            Err(e) => {
                return Err(e);
            },
        };
        Ok(
            Spec {
                image,
                cmd,
                services,
                envs,
                discoveries,
                name,
                host,
                user,
                privileged,
                network_mode,
                stop,
                kill_timeout,
                log,
            },
        )
    }
}

/// What a text holds as a descriptor: a syntax error where it is no JSON
/// document, else what the document holds.
pub open spec fn decoded_text(text: Seq<char>) -> Result<SpecView, DecodeError> {
    match json_document(text) {
        Ok(json) => Spec::decoded(json, "spec"),
        Err(_) => Err(DecodeError::Syntax),
    }
}

impl Spec {
    /// Decodes a descriptor from its text.
    pub fn from_str(text: &str) -> (r: Result<Spec, DecodeError>)
        ensures
            agrees(r, decoded_text(text@)),
    {
        match Json::parse(text) {
            Ok(json) => Spec::from_json(&json, "spec"),
            Err(_) => Err(DecodeError::Syntax),
        }
    }
}

impl ToJson for EnvVar {
    open spec fn writable(value: EnvVarView) -> bool {
        true
    }

    open spec fn encoded(value: EnvVarView) -> JsonValue {
        JsonValue::Object(
            seq![("name"@, String::encoded(value.name)), ("value"@, String::encoded(value.value))],
        )
    }

    fn to_json(&self) -> (r: Json) {
        let mut members: Vec<(String, Json)> = Vec::new();
        members.push(("name".to_owned(), self.name.to_json()));
        members.push(("value".to_owned(), self.value.to_json()));
        proof {
            lemma_object_view(members);
            assert(members.deep_view() =~= Self::encoded(self.deep_view())->Object_0);
        }
        Json::Object(members)
    }

    proof fn lemma_round_trip(value: EnvVarView, place: &'static str) {
        reveal_strlit("name");
        assert("name"@.len() == 4 && "name"@[0] == 'n');
        reveal_strlit("value");
        assert("value"@.len() == 5 && "value"@[0] == 'v');
        let members = Self::encoded(value)->Object_0;
        lemma_round_trip_member::<String>(members, 0, "name", value.name);
        lemma_round_trip_member::<String>(members, 1, "value", value.value);
    }
}

impl ToJson for Image {
    open spec fn writable(value: ImageView) -> bool {
        true
    }

    open spec fn encoded(value: ImageView) -> JsonValue {
        JsonValue::Object(
            seq![("name"@, String::encoded(value.name)), ("tag"@, String::encoded(value.tag))],
        )
    }

    fn to_json(&self) -> (r: Json) {
        let mut members: Vec<(String, Json)> = Vec::new();
        members.push(("name".to_owned(), self.name.to_json()));
        members.push(("tag".to_owned(), self.tag.to_json()));
        proof {
            lemma_object_view(members);
            assert(members.deep_view() =~= Self::encoded(self.deep_view())->Object_0);
        }
        Json::Object(members)
    }

    proof fn lemma_round_trip(value: ImageView, place: &'static str) {
        reveal_strlit("name");
        assert("name"@.len() == 4 && "name"@[0] == 'n');
        reveal_strlit("tag");
        assert("tag"@.len() == 3 && "tag"@[0] == 't');
        let members = Self::encoded(value)->Object_0;
        lemma_round_trip_member::<String>(members, 0, "name", value.name);
        lemma_round_trip_member::<String>(members, 1, "tag", value.tag);
    }
}

impl ToJson for Volume {
    open spec fn writable(value: VolumeView) -> bool {
        true
    }

    open spec fn encoded(value: VolumeView) -> JsonValue {
        JsonValue::Object(
            seq![("from"@, String::encoded(value.from)), ("to"@, String::encoded(value.to))],
        )
    }

    fn to_json(&self) -> (r: Json) {
        let mut members: Vec<(String, Json)> = Vec::new();
        members.push(("from".to_owned(), self.from.to_json()));
        members.push(("to".to_owned(), self.to.to_json()));
        proof {
            lemma_object_view(members);
            assert(members.deep_view() =~= Self::encoded(self.deep_view())->Object_0);
        }
        Json::Object(members)
    }

    proof fn lemma_round_trip(value: VolumeView, place: &'static str) {
        reveal_strlit("from");
        assert("from"@.len() == 4 && "from"@[0] == 'f');
        reveal_strlit("to");
        assert("to"@.len() == 2 && "to"@[0] == 't');
        let members = Self::encoded(value)->Object_0;
        lemma_round_trip_member::<String>(members, 0, "from", value.from);
        lemma_round_trip_member::<String>(members, 1, "to", value.to);
    }
}

impl ToJson for CheckMethod {
    open spec fn writable(value: CheckMethodView) -> bool {
        true
    }

    open spec fn encoded(value: CheckMethodView) -> JsonValue {
        match value {
            CheckMethodView::Script(cmd) => JsonValue::Array(
                seq![JsonValue::String("Script"@), JsonValue::String(cmd)],
            ),
            CheckMethodView::Http(url) => JsonValue::Array(
                seq![JsonValue::String("Http"@), JsonValue::String(url)],
            ),
            CheckMethodView::HttpPath(path) => JsonValue::Array(
                seq![JsonValue::String("HttpPath"@), JsonValue::String(path)],
            ),
        }
    }

    fn to_json(&self) -> (r: Json) {
        let mut items: Vec<Json> = Vec::new();
        match self {
            CheckMethod::Script(cmd) => {
                items.push(Json::String("Script".to_owned()));
                items.push(Json::String(cmd.clone()));
            },
            CheckMethod::Http(url) => {
                items.push(Json::String("Http".to_owned()));
                items.push(Json::String(url.clone()));
            },
            CheckMethod::HttpPath(path) => {
                items.push(Json::String("HttpPath".to_owned()));
                items.push(Json::String(path.clone()));
            },
        }
        proof {
            lemma_array_view(items);
            assert(items.deep_view() =~= Self::encoded(self.deep_view())->Array_0);
        }
        Json::Array(items)
    }

    proof fn lemma_round_trip(value: CheckMethodView, place: &'static str) {
        reveal_strlit("Script");
        assert("Script"@.len() == 6 && "Script"@[0] == 'S');
        reveal_strlit("Http");
        assert("Http"@.len() == 4 && "Http"@[0] == 'H');
        reveal_strlit("HttpPath");
        assert("HttpPath"@.len() == 8 && "HttpPath"@[0] == 'H');
    }
}

impl ToJson for Stop {
    open spec fn writable(value: Stop) -> bool {
        true
    }

    open spec fn encoded(value: Stop) -> JsonValue {
        match value {
            Stop::Before => JsonValue::Array(seq![JsonValue::String("Before"@)]),
            Stop::AfterTimeout(seconds) => JsonValue::Array(
                seq![JsonValue::String("AfterTimeout"@), u16::encoded(seconds)],
            ),
        }
    }

    fn to_json(&self) -> (r: Json) {
        let mut items: Vec<Json> = Vec::new();
        match self {
            Stop::Before => {
                items.push(Json::String("Before".to_owned()));
            },
            Stop::AfterTimeout(seconds) => {
                items.push(Json::String("AfterTimeout".to_owned()));
                items.push(seconds.to_json());
            },
        }
        proof {
            lemma_array_view(items);
            assert(items.deep_view() =~= Self::encoded(self.deep_view())->Array_0);
        }
        Json::Array(items)
    }

    proof fn lemma_round_trip(value: Stop, place: &'static str) {
        reveal_strlit("Before");
        assert("Before"@.len() == 6 && "Before"@[0] == 'B');
        reveal_strlit("AfterTimeout");
        assert("AfterTimeout"@.len() == 12 && "AfterTimeout"@[0] == 'A');
    }
}

impl ToJson for Check {
    open spec fn writable(value: CheckView) -> bool {
        true
    }

    open spec fn encoded(value: CheckView) -> JsonValue {
        JsonValue::Object(
            seq![
                ("method"@, CheckMethod::encoded(value.method)),
                ("interval"@, u16::encoded(value.interval)),
                ("timeout"@, u16::encoded(value.timeout)),
            ],
        )
    }

    fn to_json(&self) -> (r: Json) {
        let mut members: Vec<(String, Json)> = Vec::new();
        members.push(("method".to_owned(), self.method.to_json()));
        members.push(("interval".to_owned(), self.interval.to_json()));
        members.push(("timeout".to_owned(), self.timeout.to_json()));
        proof {
            lemma_object_view(members);
            assert(members.deep_view() =~= Self::encoded(self.deep_view())->Object_0);
        }
        Json::Object(members)
    }

    proof fn lemma_round_trip(value: CheckView, place: &'static str) {
        reveal_strlit("method");
        assert("method"@.len() == 6 && "method"@[0] == 'm');
        reveal_strlit("interval");
        assert("interval"@.len() == 8 && "interval"@[0] == 'i');
        reveal_strlit("timeout");
        assert("timeout"@.len() == 7 && "timeout"@[0] == 't');
        let members = Self::encoded(value)->Object_0;
        lemma_round_trip_member::<CheckMethod>(members, 0, "method", value.method);
        lemma_round_trip_member::<u16>(members, 1, "interval", value.interval);
        lemma_round_trip_member::<u16>(members, 2, "timeout", value.timeout);
    }
}

impl ToJson for Service {
    open spec fn writable(value: ServiceView) -> bool {
        true
    }

    open spec fn encoded(value: ServiceView) -> JsonValue {
        JsonValue::Object(
            seq![
                ("name"@, String::encoded(value.name)),
                ("port"@, u16::encoded(value.port)),
                ("tags"@, JsonValue::Array(encoded_each::<String>(value.tags))),
                ("check"@, Check::encoded(value.check)),
                ("udp"@, bool::encoded(value.udp)),
                ("host_port"@, encoded_optional::<u16>(value.host_port)),
            ],
        )
    }

    fn to_json(&self) -> (r: Json) {
        let mut members: Vec<(String, Json)> = Vec::new();
        members.push(("name".to_owned(), self.name.to_json()));
        members.push(("port".to_owned(), self.port.to_json()));
        members.push(("tags".to_owned(), write_each::<String>(&self.tags)));
        members.push(("check".to_owned(), self.check.to_json()));
        members.push(("udp".to_owned(), self.udp.to_json()));
        members.push(("host_port".to_owned(), write_optional::<u16>(&self.host_port)));
        proof {
            lemma_object_view(members);
            assert(members.deep_view() =~= Self::encoded(self.deep_view())->Object_0);
        }
        Json::Object(members)
    }

    proof fn lemma_round_trip(value: ServiceView, place: &'static str) {
        reveal_strlit("name");
        assert("name"@.len() == 4 && "name"@[0] == 'n');
        reveal_strlit("port");
        assert("port"@.len() == 4 && "port"@[0] == 'p');
        reveal_strlit("tags");
        assert("tags"@.len() == 4 && "tags"@[0] == 't');
        reveal_strlit("check");
        assert("check"@.len() == 5 && "check"@[0] == 'c');
        reveal_strlit("udp");
        assert("udp"@.len() == 3 && "udp"@[0] == 'u');
        reveal_strlit("host_port");
        assert("host_port"@.len() == 9 && "host_port"@[0] == 'h');
        let members = Self::encoded(value)->Object_0;
        lemma_round_trip_member::<String>(members, 0, "name", value.name);
        lemma_round_trip_member::<u16>(members, 1, "port", value.port);
        lemma_round_trip_list::<String>(members, 2, "tags", value.tags);
        lemma_round_trip_member::<Check>(members, 3, "check", value.check);
        lemma_round_trip_member::<bool>(members, 4, "udp", value.udp);
        lemma_round_trip_optional::<u16>(members, 5, "host_port", value.host_port);
    }
}

impl ToJson for Discovery {
    open spec fn writable(value: DiscoveryView) -> bool {
        true
    }

    open spec fn encoded(value: DiscoveryView) -> JsonValue {
        JsonValue::Object(
            seq![
                ("service"@, String::encoded(value.service)),
                ("env"@, String::encoded(value.env)),
                ("multiple"@, bool::encoded(value.multiple)),
                ("tag"@, encoded_optional::<String>(value.tag)),
            ],
        )
    }

    fn to_json(&self) -> (r: Json) {
        let mut members: Vec<(String, Json)> = Vec::new();
        members.push(("service".to_owned(), self.service.to_json()));
        members.push(("env".to_owned(), self.env.to_json()));
        members.push(("multiple".to_owned(), self.multiple.to_json()));
        members.push(("tag".to_owned(), write_optional::<String>(&self.tag)));
        proof {
            lemma_object_view(members);
            assert(members.deep_view() =~= Self::encoded(self.deep_view())->Object_0);
        }
        Json::Object(members)
    }

    proof fn lemma_round_trip(value: DiscoveryView, place: &'static str) {
        reveal_strlit("service");
        assert("service"@.len() == 7 && "service"@[0] == 's');
        reveal_strlit("env");
        assert("env"@.len() == 3 && "env"@[0] == 'e');
        reveal_strlit("multiple");
        assert("multiple"@.len() == 8 && "multiple"@[0] == 'm');
        reveal_strlit("tag");
        assert("tag"@.len() == 3 && "tag"@[0] == 't');
        let members = Self::encoded(value)->Object_0;
        lemma_round_trip_member::<String>(members, 0, "service", value.service);
        lemma_round_trip_member::<String>(members, 1, "env", value.env);
        lemma_round_trip_member::<bool>(members, 2, "multiple", value.multiple);
        lemma_round_trip_optional::<String>(members, 3, "tag", value.tag);
    }
}

impl ToJson for Log {
    open spec fn writable(value: LogView) -> bool {
        writable_optional::<Json>(value.config)
    }

    open spec fn encoded(value: LogView) -> JsonValue {
        JsonValue::Object(
            seq![
                ("type"@, String::encoded(value.log_type)),
                ("config"@, encoded_optional::<Json>(value.config)),
            ],
        )
    }

    fn to_json(&self) -> (r: Json) {
        let mut members: Vec<(String, Json)> = Vec::new();
        members.push(("type".to_owned(), self.log_type.to_json()));
        members.push(("config".to_owned(), write_optional::<Json>(&self.config)));
        proof {
            lemma_object_view(members);
            assert(members.deep_view() =~= Self::encoded(self.deep_view())->Object_0);
        }
        Json::Object(members)
    }

    proof fn lemma_round_trip(value: LogView, place: &'static str) {
        reveal_strlit("type");
        assert("type"@.len() == 4 && "type"@[0] == 't');
        reveal_strlit("config");
        assert("config"@.len() == 6 && "config"@[0] == 'c');
        let members = Self::encoded(value)->Object_0;
        lemma_round_trip_member::<String>(members, 0, "type", value.log_type);
        lemma_round_trip_optional::<Json>(members, 1, "config", value.config);
    }
}

impl ToJson for Spec {
    /// Every descriptor is writable but one whose log configuration is the
    /// document `null`.
    open spec fn writable(value: SpecView) -> bool {
        writable_optional::<Log>(value.log)
    }

    open spec fn encoded(value: SpecView) -> JsonValue {
        JsonValue::Object(
            seq![
                ("image"@, Image::encoded(value.image)),
                ("cmd"@, JsonValue::Array(encoded_each::<String>(value.cmd))),
                ("services"@, JsonValue::Array(encoded_each::<Service>(value.services))),
                ("envs"@, JsonValue::Array(encoded_each::<EnvVar>(value.envs))),
                ("discoveries"@, JsonValue::Array(encoded_each::<Discovery>(value.discoveries))),
                ("name"@, encoded_optional::<String>(value.name)),
                ("host"@, encoded_optional::<String>(value.host)),
                ("user"@, encoded_optional::<String>(value.user)),
                ("privileged"@, bool::encoded(value.privileged)),
                ("network_mode"@, encoded_optional::<String>(value.network_mode)),
                ("stop"@, Stop::encoded(value.stop)),
                ("kill_timeout"@, encoded_optional::<u16>(value.kill_timeout)),
                ("log"@, encoded_optional::<Log>(value.log)),
            ],
        )
    }

    fn to_json(&self) -> (r: Json) {
        let mut members: Vec<(String, Json)> = Vec::new();
        members.push(("image".to_owned(), self.image.to_json()));
        members.push(("cmd".to_owned(), write_each::<String>(&self.cmd)));
        members.push(("services".to_owned(), write_each::<Service>(&self.services)));
        members.push(("envs".to_owned(), write_each::<EnvVar>(&self.envs)));
        members.push(("discoveries".to_owned(), write_each::<Discovery>(&self.discoveries)));
        members.push(("name".to_owned(), write_optional::<String>(&self.name)));
        members.push(("host".to_owned(), write_optional::<String>(&self.host)));
        members.push(("user".to_owned(), write_optional::<String>(&self.user)));
        members.push(("privileged".to_owned(), self.privileged.to_json()));
        members.push(("network_mode".to_owned(), write_optional::<String>(&self.network_mode)));
        members.push(("stop".to_owned(), self.stop.to_json()));
        members.push(("kill_timeout".to_owned(), write_optional::<u16>(&self.kill_timeout)));
        members.push(("log".to_owned(), write_optional::<Log>(&self.log)));
        proof {
            lemma_object_view(members);
            assert(members.deep_view() =~= Self::encoded(self.deep_view())->Object_0);
        }
        Json::Object(members)
    }

    proof fn lemma_round_trip(value: SpecView, place: &'static str) {
        reveal_strlit("image");
        assert("image"@.len() == 5 && "image"@[0] == 'i');
        reveal_strlit("cmd");
        assert("cmd"@.len() == 3 && "cmd"@[0] == 'c');
        reveal_strlit("services");
        assert("services"@.len() == 8 && "services"@[0] == 's');
        reveal_strlit("envs");
        assert("envs"@.len() == 4 && "envs"@[0] == 'e');
        reveal_strlit("discoveries");
        assert("discoveries"@.len() == 11 && "discoveries"@[0] == 'd');
        reveal_strlit("name");
        assert("name"@.len() == 4 && "name"@[0] == 'n');
        reveal_strlit("host");
        assert("host"@.len() == 4 && "host"@[0] == 'h');
        reveal_strlit("user");
        assert("user"@.len() == 4 && "user"@[0] == 'u');
        reveal_strlit("privileged");
        assert("privileged"@.len() == 10 && "privileged"@[0] == 'p');
        reveal_strlit("network_mode");
        assert("network_mode"@.len() == 12 && "network_mode"@[0] == 'n');
        reveal_strlit("stop");
        assert("stop"@.len() == 4 && "stop"@[0] == 's');
        reveal_strlit("kill_timeout");
        assert("kill_timeout"@.len() == 12 && "kill_timeout"@[0] == 'k');
        reveal_strlit("log");
        assert("log"@.len() == 3 && "log"@[0] == 'l');
        let members = Self::encoded(value)->Object_0;
        lemma_round_trip_member::<Image>(members, 0, "image", value.image);
        lemma_round_trip_list::<String>(members, 1, "cmd", value.cmd);
        lemma_round_trip_list::<Service>(members, 2, "services", value.services);
        lemma_round_trip_list::<EnvVar>(members, 3, "envs", value.envs);
        lemma_round_trip_list::<Discovery>(members, 4, "discoveries", value.discoveries);
        lemma_round_trip_optional::<String>(members, 5, "name", value.name);
        lemma_round_trip_optional::<String>(members, 6, "host", value.host);
        lemma_round_trip_optional::<String>(members, 7, "user", value.user);
        lemma_round_trip_member::<bool>(members, 8, "privileged", value.privileged);
        lemma_round_trip_optional::<String>(members, 9, "network_mode", value.network_mode);
        lemma_round_trip_member::<Stop>(members, 10, "stop", value.stop);
        lemma_round_trip_optional::<u16>(members, 11, "kill_timeout", value.kill_timeout);
        lemma_round_trip_optional::<Log>(members, 12, "log", value.log);
    }
}

/// A descriptor that is written and then read is the descriptor that was
/// written, member for member.
pub proof fn theorem_descriptor_round_trip(spec: SpecView)
    requires
        Spec::writable(spec),
    ensures
        Spec::decoded(Spec::encoded(spec), "spec") == Ok::<SpecView, DecodeError>(spec),
{
    Spec::lemma_round_trip(spec, "spec");
}

/// A stop policy whose tag is not a known one is turned away, whatever
/// else the document holds: no descriptor comes of it.
pub proof fn theorem_unknown_stop_tag_is_an_error(json: JsonValue, tag: Seq<char>)
    requires
        json is Object,
        json.member("stop"@) matches Some(stop) && stop.items() matches Some(items) && items.len()
            > 0 && items[0].text() == Some(tag),
        tag != "Before"@,
        tag != "AfterTimeout"@,
    ensures
        Spec::decoded(json, "spec") is Err,
{
}

/// A descriptor that lacks one of its required members is turned away: no
/// descriptor comes of it, with the other members or without.
pub proof fn theorem_missing_member_is_an_error(json: JsonValue)
    requires
        json.member("image"@) is None || json.member("cmd"@) is None || json.member("services"@)
            is None || json.member("envs"@) is None || json.member("discoveries"@) is None,
    ensures
        Spec::decoded(json, "spec") is Err,
{
}

} // verus!
