use condo::condo::Condo;
use condo::consul::{key_value, Consul, ConsulError, ConsulKeyResponse, WatchAction, RETRY_SECONDS};
use condo::docker::{check_progress, check_status, image_id, Docker, DockerError};
use condo::json::Json;
use condo::event::Event;
use condo::spec::{Image, Stop};
use condo::utils::Reply;

const SMALL: &str = r#"{"image": {"name": "busybox", "tag": "latest"}, "cmd": [], "services": [], "envs": [], "discoveries": []}"#;

fn reply(status: u16, status_text: &str, body: &str) -> Reply {
    Reply { status, status_text: status_text.to_string(), body: body.to_string() }
}

fn image() -> Image {
    Image { name: "library/nginx".to_string(), tag: "1.9".to_string() }
}

#[test]
fn payloads_become_events_and_malformed_ones_are_passed_over() {
    let with_stop = format!("{}, \"stop\": [\"Before\"]}}", &SMALL[..SMALL.len() - 1]);
    let payloads = vec![
        SMALL.to_string(),
        "{ not json".to_string(),
        with_stop,
        r#"{"image": 1}"#.to_string(),
        SMALL.to_string(),
    ];
    let events = Condo::new(payloads).start();
    assert_eq!(events.len(), 3);
    assert!(matches!(&events[0], Event::NewSpec(spec) if spec.stop == Stop::AfterTimeout(10)));
    assert!(matches!(&events[1], Event::NewSpec(spec) if spec.stop == Stop::Before));
    assert_eq!(events[0], events[2]);
    assert!(Condo::new(vec![]).start().is_empty());
}

#[test]
fn key_url_names_key_wait_and_index() {
    let consul = Consul::new("127.0.0.1:8500").unwrap();
    assert_eq!(
        consul.key_url("services/web", 0).unwrap().to_text(),
        "http://127.0.0.1:8500/v1/kv/services/web?wait=10s&index=0"
    );
    assert_eq!(
        consul.key_url("/web", 9223372036854775807).unwrap().to_text(),
        "http://127.0.0.1:8500/v1/kv/web?wait=10s&index=9223372036854775807"
    );
    assert_eq!(
        consul.key_url("web", -12).unwrap().to_text(),
        "http://127.0.0.1:8500/v1/kv/web?wait=10s&index=-12"
    );
    assert!(Consul::new("http://").is_none());
}

#[test]
fn answer_to_a_read_is_understood() {
    let consul = Consul::new("127.0.0.1:8500").unwrap();
    let body = r#"[{"Key": "web", "Flags": 0, "Value": "{\"image\": 1}", "ModifyIndex": 8}]"#;
    assert_eq!(
        consul.get_key(7, reply(200, "200 OK", body), Some(7)),
        Ok(ConsulKeyResponse::NoNewContent)
    );
    assert_eq!(
        consul.get_key(7, reply(200, "200 OK", "not even json"), Some(7)),
        Ok(ConsulKeyResponse::NoNewContent)
    );
    assert_eq!(
        consul.get_key(7, reply(200, "200 OK", body), Some(8)),
        Ok(ConsulKeyResponse::Key(r#"{"image": 1}"#.to_string(), 8))
    );
    assert_eq!(
        consul.get_key(7, reply(200, "200 OK", body), Some(3)),
        Ok(ConsulKeyResponse::Key(r#"{"image": 1}"#.to_string(), 3))
    );
    assert_eq!(
        consul.get_key(7, reply(200, "200 OK", body), None),
        Err(ConsulError::DataError("No Index Received".to_string()))
    );
    assert_eq!(
        consul.get_key(7, reply(404, "404 Not Found", "no such key"), Some(8)),
        Err(ConsulError::HTTPError("404 Not Found".to_string(), "no such key".to_string()))
    );
}

#[test]
fn answer_without_a_value_is_an_error() {
    let consul = Consul::new("127.0.0.1:8500").unwrap();
    let no_value = Err(ConsulError::DataError("No Value Received".to_string()));
    for body in [
        r#"[]"#,
        r#"[{"Value": "a"}, {"Value": "b"}]"#,
        r#"[{"Key": "web"}]"#,
        r#"[{"Value": null}]"#,
        r#"[{"Value": 7}]"#,
        r#"[["Value"]]"#,
        r#"{"Value": "a"}"#,
        r#""a""#,
    ] {
        assert_eq!(consul.get_key(7, reply(200, "200 OK", body), Some(8)), no_value, "{}", body);
    }
    let r = consul.get_key(7, reply(200, "200 OK", "[{\"Value\": "), Some(8));
    assert!(matches!(r, Err(ConsulError::DataError(message)) if message.contains("line 1")));
}

#[test]
fn value_is_found_in_the_answer() {
    let document = Json::parse(r#"[{"Value": "payload", "Key": "k"}]"#).unwrap();
    assert_eq!(key_value(&document), Some("payload".to_string()));
    assert_eq!(key_value(&Json::Array(vec![])), None);
    assert_eq!(key_value(&Json::Null), None);
}

#[test]
fn watch_moves_the_index_only_with_new_content() {
    assert_eq!(RETRY_SECONDS, 5);
    assert_eq!(
        Consul::watch_key(4, Ok(ConsulKeyResponse::Key("payload".to_string(), 9))),
        (9, WatchAction::Deliver("payload".to_string()))
    );
    assert_eq!(Consul::watch_key(4, Ok(ConsulKeyResponse::NoNewContent)), (4, WatchAction::Idle));
    let error = ConsulError::DataError("No Index Received".to_string());
    assert_eq!(Consul::watch_key(4, Err(error.clone())), (4, WatchAction::Report(error)));
}

#[test]
fn consul_errors_are_worded() {
    let http = ConsulError::HTTPError("500 ".to_string(), "boom".to_string());
    assert_eq!(http.description(), "500 ");
    assert_eq!(http.cause(), None);
    assert_eq!(http.to_text(), "500 boom");
    let io = ConsulError::from_transport("connection failed", Some("refused"));
    assert_eq!(io, ConsulError::IOError("connection failed".to_string(), "refused".to_string()));
    assert_eq!(io.description(), "refused");
    assert_eq!(io.cause(), Some("connection failed"));
    assert_eq!(io.to_text(), "Consul IO error: refused");
    let io = ConsulError::from_transport("connection failed", None);
    assert_eq!(io.to_text(), "Consul IO error: connection failed");
    let data = ConsulError::DataError("No Index Received".to_string());
    assert_eq!(data.description(), "No Index Received");
    assert_eq!(data.cause(), None);
    assert_eq!(data.to_text(), "No Index Received");
}

#[test]
fn docker_urls_name_the_image() {
    let docker = Docker::new("127.0.0.1:2376").unwrap();
    assert_eq!(
        docker.pull_url(&image()).unwrap().to_text(),
        "http://127.0.0.1:2376/images/create?fromImage=library%2Fnginx&tag=1.9"
    );
    assert_eq!(
        docker.image_url(&image()).unwrap().to_text(),
        "http://127.0.0.1:2376/images/library/nginx:1.9/json"
    );
    assert!(Docker::new("http://").is_none());
}

#[test]
fn progress_report_without_error_is_a_pull() {
    let docker = Docker::new("127.0.0.1:2376").unwrap();
    let body = "{\"status\": \"Pulling\"}\r\n{\"status\": \"Done\", \"progress\": {\"n\": 1}}\r\n";
    assert_eq!(docker.pull_image(reply(200, "200 OK", body)), Ok(()));
    assert_eq!(docker.pull_image(reply(200, "200 OK", "")), Ok(()));
    assert_eq!(check_progress("17 \"text\" []"), Ok(()));
}

#[test]
fn progress_object_with_error_ends_the_pull() {
    let docker = Docker::new("127.0.0.1:2376").unwrap();
    let body = "{\"status\": \"Pulling\"}{\"error\": \"no such image\"}{\"error\": 5} garbage";
    assert_eq!(
        docker.pull_image(reply(200, "200 OK", body)),
        Err(DockerError::RequestError("no such image".to_string()))
    );
    let body = "{\"status\": \"Pulling\"}{\"error\": {\"code\": 5}}";
    assert_eq!(
        docker.pull_image(reply(200, "200 OK", body)),
        Err(DockerError::ProtocolError(None, "Invalid error value".to_string()))
    );
}

#[test]
fn unreadable_progress_report_is_a_protocol_error() {
    let r = check_progress("{\"status\": \"Pulling\"} {\"status\": ");
    assert!(matches!(r, Err(DockerError::ProtocolError(Some(failure), details))
        if failure == details && failure.contains("EOF")));
}

#[test]
fn pull_that_is_refused_carries_status_and_body() {
    let docker = Docker::new("127.0.0.1:2376").unwrap();
    assert_eq!(
        docker.pull_image(reply(500, "500 Internal Server Error", "{\"error\": \"x\"}")),
        Err(DockerError::HTTPError("500 Internal Server Error".to_string(), "{\"error\": \"x\"}".to_string()))
    );
    assert_eq!(
        docker.receive_image_id(reply(404, "404 Not Found", "gone")),
        Err(DockerError::HTTPError("404 Not Found".to_string(), "gone".to_string()))
    );
}

#[test]
fn image_id_is_read() {
    let docker = Docker::new("127.0.0.1:2376").unwrap();
    assert_eq!(
        docker.receive_image_id(reply(200, "200 OK", r#"{"Id": "sha256:abc", "Size": 3}"#)),
        Ok("sha256:abc".to_string())
    );
    assert_eq!(
        docker.receive_image_id(reply(200, "200 OK", r#"{"Id": 7}"#)),
        Err(DockerError::ProtocolError(None, "Invalid id value".to_string()))
    );
    assert_eq!(
        docker.receive_image_id(reply(200, "200 OK", r#"{"id": "lower"}"#)),
        Err(DockerError::ProtocolError(None, "No id value found".to_string()))
    );
    assert_eq!(
        docker.receive_image_id(reply(200, "200 OK", r#"["Id"]"#)),
        Err(DockerError::ProtocolError(None, "No id value found".to_string()))
    );
    let r = docker.receive_image_id(reply(200, "200 OK", "not json"));
    assert!(matches!(r, Err(DockerError::ProtocolError(Some(failure), details)) if failure == details));
}

#[test]
fn docker_errors_are_worded() {
    let http = DockerError::HTTPError("500".to_string(), "body".to_string());
    assert_eq!(http.description(), "500");
    assert_eq!(http.cause(), None);
    assert_eq!(http.to_text(), "Docker HTTP Error: 500");
    let io = DockerError::from_transport("failed", Some("refused"));
    assert_eq!(io, DockerError::IOError("failed".to_string(), "refused".to_string()));
    assert_eq!(io.description(), "refused");
    assert_eq!(io.cause(), Some("failed"));
    assert_eq!(io.to_text(), "Docker IO error: refused");
    let reader = DockerError::from_reader("EOF while parsing", None);
    assert_eq!(
        reader,
        DockerError::ProtocolError(Some("EOF while parsing".to_string()), "EOF while parsing".to_string())
    );
    assert_eq!(reader.cause(), Some("EOF while parsing"));
    assert_eq!(reader.to_text(), "Docker protocol error: EOF while parsing");
    let protocol = DockerError::ProtocolError(None, "Invalid id value".to_string());
    assert_eq!(protocol.description(), "Invalid id value");
    assert_eq!(protocol.cause(), None);
    let request = DockerError::RequestError("denied".to_string());
    assert_eq!(request.description(), "denied");
    assert_eq!(request.cause(), None);
    assert_eq!(request.to_text(), "Docker request error: denied");
}

#[test]
fn single_progress_object_is_judged() {
    let judge = |text: &str| check_status(&Json::parse(text).unwrap());
    assert_eq!(judge(r#"{"status": "ok"}"#), None);
    assert_eq!(judge(r#"[1]"#), None);
    assert_eq!(judge(r#"{"error": "no"}"#), Some(DockerError::RequestError("no".to_string())));
    assert_eq!(
        judge(r#"{"error": null}"#),
        Some(DockerError::ProtocolError(None, "Invalid error value".to_string()))
    );
}

#[test]
fn image_id_is_found_in_the_document() {
    let find = |text: &str| image_id(&Json::parse(text).unwrap());
    assert_eq!(find(r#"{"Id": "abc"}"#), Ok("abc".to_string()));
    assert_eq!(
        find(r#"{"Id": ["abc"]}"#),
        Err(DockerError::ProtocolError(None, "Invalid id value".to_string()))
    );
    assert_eq!(find(r#"{}"#), Err(DockerError::ProtocolError(None, "No id value found".to_string())));
}
