use condo::decode::{DecodeError, FromJson};
use condo::encode::ToJson;
use condo::json::{Json, JsonNumber};
use condo::spec::{
    Check, CheckMethod, Discovery, EnvVar, Image, Log, Service, Spec, Stop, Volume,
};

const FULL: &str = r#"{
    "image": {"name": "nginx", "tag": "1.9"},
    "cmd": ["nginx", "-g", "daemon off;"],
    "services": [
        {"name": "web", "port": 80, "tags": ["a", "b"],
         "check": {"method": ["HttpPath", "/health"], "interval": 5, "timeout": 2},
         "udp": true, "host_port": 8080},
        {"name": "admin", "port": 81, "tags": [],
         "check": {"method": ["Script", "true"], "interval": 10, "timeout": 3}}
    ],
    "envs": [{"name": "MODE", "value": "prod"}],
    "discoveries": [
        {"service": "db", "env": "DB", "multiple": true, "tag": "master"},
        {"service": "cache", "env": "CACHE"}
    ],
    "name": "front",
    "host": "h1",
    "user": "www",
    "privileged": true,
    "network_mode": "host",
    "stop": ["Before"],
    "kill_timeout": 30,
    "log": {"type": "syslog", "config": {"tag": "front", "level": 3}},
    "extra": "passed over"
}"#;

const SMALL: &str = r#"{
    "image": {"name": "busybox", "tag": "latest"},
    "cmd": [],
    "services": [],
    "envs": [],
    "discoveries": []
}"#;

fn with_member(member: &str) -> String {
    format!(
        r#"{{"image": {{"name": "busybox", "tag": "latest"}}, "cmd": [], "services": [], "envs": [], "discoveries": [], {}}}"#,
        member
    )
}

fn full_spec() -> Spec {
    Spec {
        image: Image { name: "nginx".to_string(), tag: "1.9".to_string() },
        cmd: vec!["nginx".to_string(), "-g".to_string(), "daemon off;".to_string()],
        services: vec![
            Service {
                name: "web".to_string(),
                port: 80,
                tags: vec!["a".to_string(), "b".to_string()],
                check: Check {
                    method: CheckMethod::HttpPath("/health".to_string()),
                    interval: 5,
                    timeout: 2,
                },
                udp: true,
                host_port: Some(8080),
            },
            Service {
                name: "admin".to_string(),
                port: 81,
                tags: vec![],
                check: Check { method: CheckMethod::Script("true".to_string()), interval: 10, timeout: 3 },
                udp: false,
                host_port: None,
            },
        ],
        envs: vec![EnvVar { name: "MODE".to_string(), value: "prod".to_string() }],
        discoveries: vec![
            Discovery {
                service: "db".to_string(),
                env: "DB".to_string(),
                multiple: true,
                tag: Some("master".to_string()),
            },
            Discovery { service: "cache".to_string(), env: "CACHE".to_string(), multiple: false, tag: None },
        ],
        name: Some("front".to_string()),
        host: Some("h1".to_string()),
        user: Some("www".to_string()),
        privileged: true,
        network_mode: Some("host".to_string()),
        stop: Stop::Before,
        kill_timeout: Some(30),
        log: Some(Log {
            log_type: "syslog".to_string(),
            config: Some(Json::Object(vec![
                ("level".to_string(), Json::Number(JsonNumber::Unsigned(3))),
                ("tag".to_string(), Json::String("front".to_string())),
            ])),
        }),
    }
}

#[test]
fn full_descriptor_is_decoded() {
    assert_eq!(Spec::from_str(FULL).unwrap(), full_spec());
}

#[test]
fn small_descriptor_gets_the_defaults() {
    let spec = Spec::from_str(SMALL).unwrap();
    assert_eq!(spec.image, Image { name: "busybox".to_string(), tag: "latest".to_string() });
    assert!(spec.cmd.is_empty() && spec.services.is_empty() && spec.envs.is_empty());
    assert!(spec.discoveries.is_empty());
    assert_eq!(spec.name, None);
    assert_eq!(spec.host, None);
    assert_eq!(spec.user, None);
    assert_eq!(spec.network_mode, None);
    assert!(!spec.privileged);
    assert_eq!(spec.stop, Stop::AfterTimeout(10));
    assert_eq!(spec.kill_timeout, None);
    assert_eq!(spec.log, None);
}

#[test]
fn absent_and_null_are_both_nothing() {
    let spec = Spec::from_str(&with_member(r#""name": null, "kill_timeout": null, "log": null"#)).unwrap();
    assert_eq!(spec.name, None);
    assert_eq!(spec.kill_timeout, None);
    assert_eq!(spec.log, None);
}

#[test]
fn stop_after_timeout_is_decoded() {
    let spec = Spec::from_str(&with_member(r#""stop": ["AfterTimeout", 42]"#)).unwrap();
    assert_eq!(spec.stop, Stop::AfterTimeout(42));
}

#[test]
fn text_that_is_no_json_is_a_syntax_error() {
    assert_eq!(Spec::from_str("{").unwrap_err(), DecodeError::Syntax);
    assert_eq!(Spec::from_str("").unwrap_err(), DecodeError::Syntax);
    assert_eq!(Spec::from_str(&format!("{} trailing", SMALL)).unwrap_err(), DecodeError::Syntax);
}

#[test]
fn document_that_is_no_object_is_a_type_mismatch() {
    assert_eq!(Spec::from_str("[1, 2]").unwrap_err(), DecodeError::TypeMismatch("spec"));
    assert_eq!(Spec::from_str("null").unwrap_err(), DecodeError::TypeMismatch("spec"));
}

#[test]
fn missing_required_member_is_an_error() {
    for key in ["image", "cmd", "services", "envs", "discoveries"] {
        let mut members = vec![
            ("image", r#"{"name": "busybox", "tag": "latest"}"#),
            ("cmd", "[]"),
            ("services", "[]"),
            ("envs", "[]"),
            ("discoveries", "[]"),
        ];
        members.retain(|(k, _)| *k != key);
        let text = format!(
            "{{{}}}",
            members.iter().map(|(k, v)| format!("\"{}\": {}", k, v)).collect::<Vec<_>>().join(", ")
        );
        assert_eq!(Spec::from_str(&text).unwrap_err(), DecodeError::MissingField(key));
    }
    let text = r#"{"image": {"name": "busybox"}, "cmd": [], "services": [], "envs": [], "discoveries": []}"#;
    assert_eq!(Spec::from_str(text).unwrap_err(), DecodeError::MissingField("tag"));
}

#[test]
fn unknown_stop_tag_is_an_error() {
    let r = Spec::from_str(&with_member(r#""stop": ["Never"]"#));
    assert_eq!(r.unwrap_err(), DecodeError::UnknownVariant("stop"));
    let r = Spec::from_str(&with_member(r#""stop": ["before"]"#));
    assert_eq!(r.unwrap_err(), DecodeError::UnknownVariant("stop"));
}

#[test]
fn stop_of_the_wrong_shape_is_an_error() {
    let cases = [
        (r#""stop": "Before""#, DecodeError::TypeMismatch("stop")),
        (r#""stop": null"#, DecodeError::TypeMismatch("stop")),
        (r#""stop": []"#, DecodeError::LengthMismatch("stop")),
        (r#""stop": [1]"#, DecodeError::TypeMismatch("stop")),
        (r#""stop": ["Before", 1]"#, DecodeError::LengthMismatch("stop")),
        (r#""stop": ["AfterTimeout"]"#, DecodeError::LengthMismatch("stop")),
        (r#""stop": ["AfterTimeout", "10"]"#, DecodeError::TypeMismatch("stop")),
        (r#""stop": ["AfterTimeout", 70000]"#, DecodeError::TypeMismatch("stop")),
        (r#""stop": ["AfterTimeout", -1]"#, DecodeError::TypeMismatch("stop")),
        (r#""stop": ["AfterTimeout", 1.5]"#, DecodeError::TypeMismatch("stop")),
        (r#""stop": ["AfterTimeout", 1, 2]"#, DecodeError::LengthMismatch("stop")),
    ];
    for (member, error) in cases {
        assert_eq!(Spec::from_str(&with_member(member)).unwrap_err(), error, "{}", member);
    }
}

#[test]
fn non_numeric_port_is_an_error() {
    let member = r#""services": [{"name": "web", "port": "80", "tags": [],
        "check": {"method": ["Http", "http://x"], "interval": 1, "timeout": 1}}]"#;
    let text = format!(
        r#"{{"image": {{"name": "b", "tag": "l"}}, "cmd": [], {}, "envs": [], "discoveries": []}}"#,
        member
    );
    assert_eq!(Spec::from_str(&text).unwrap_err(), DecodeError::TypeMismatch("port"));
}

#[test]
fn other_type_mismatches_are_errors() {
    let cases = [
        (r#""privileged": "yes""#, DecodeError::TypeMismatch("privileged")),
        (r#""privileged": null"#, DecodeError::TypeMismatch("privileged")),
        (r#""name": 7"#, DecodeError::TypeMismatch("name")),
        (r#""kill_timeout": "soon""#, DecodeError::TypeMismatch("kill_timeout")),
        (r#""log": []"#, DecodeError::TypeMismatch("log")),
        (r#""log": {}"#, DecodeError::MissingField("type")),
    ];
    for (member, error) in cases {
        assert_eq!(Spec::from_str(&with_member(member)).unwrap_err(), error, "{}", member);
    }
    let text = r#"{"image": {"name": "b", "tag": "l"}, "cmd": ["a", 1], "services": [], "envs": [], "discoveries": []}"#;
    assert_eq!(Spec::from_str(text).unwrap_err(), DecodeError::TypeMismatch("cmd"));
    let text = r#"{"image": {"name": "b", "tag": "l"}, "cmd": {}, "services": [], "envs": [], "discoveries": []}"#;
    assert_eq!(Spec::from_str(text).unwrap_err(), DecodeError::TypeMismatch("cmd"));
}

#[test]
fn first_failing_member_gives_the_error() {
    let text = r#"{"image": 1, "cmd": 2, "stop": ["Never"]}"#;
    assert_eq!(Spec::from_str(text).unwrap_err(), DecodeError::TypeMismatch("image"));
}

#[test]
fn check_method_is_decoded() {
    let read = |text: &str| CheckMethod::from_json(&Json::parse(text).unwrap(), "method");
    assert_eq!(read(r#"["Script", "echo ok"]"#).unwrap(), CheckMethod::Script("echo ok".to_string()));
    assert_eq!(read(r#"["Http", "http://x/"]"#).unwrap(), CheckMethod::Http("http://x/".to_string()));
    assert_eq!(read(r#"["HttpPath", "/p"]"#).unwrap(), CheckMethod::HttpPath("/p".to_string()));
    assert_eq!(read(r#"["Tcp", "x"]"#).unwrap_err(), DecodeError::UnknownVariant("method"));
    assert_eq!(read(r#"["Tcp"]"#).unwrap_err(), DecodeError::UnknownVariant("method"));
    assert_eq!(read(r#"[]"#).unwrap_err(), DecodeError::LengthMismatch("method"));
    assert_eq!(read(r#"["Script"]"#).unwrap_err(), DecodeError::TypeMismatch("method"));
    assert_eq!(read(r#"["Script", 1]"#).unwrap_err(), DecodeError::TypeMismatch("method"));
    assert_eq!(read(r#"[1, "x"]"#).unwrap_err(), DecodeError::TypeMismatch("method"));
    assert_eq!(read(r#"["Script", "a", "b"]"#).unwrap_err(), DecodeError::LengthMismatch("method"));
    assert_eq!(read(r#""Script""#).unwrap_err(), DecodeError::TypeMismatch("method"));
}

#[test]
fn defaults_are_as_documented() {
    assert_eq!(Stop::default(), Stop::AfterTimeout(10));
    assert_eq!(CheckMethod::default(), CheckMethod::Script("echo".to_string()));
}

#[test]
fn volume_is_decoded() {
    let json = Json::parse(r#"{"from": "/data", "to": "/var/data"}"#).unwrap();
    let volume = Volume::from_json(&json, "volume").unwrap();
    assert_eq!(volume, Volume { from: "/data".to_string(), to: "/var/data".to_string() });
    assert_eq!(volume.to_json(), json);
    let json = Json::parse(r#"{"from": "/data"}"#).unwrap();
    assert_eq!(Volume::from_json(&json, "volume").unwrap_err(), DecodeError::MissingField("to"));
}

#[test]
fn written_descriptor_reads_back_as_itself() {
    let spec = full_spec();
    assert_eq!(Spec::from_json(&spec.to_json(), "spec").unwrap(), spec);
    let small = Spec::from_str(SMALL).unwrap();
    assert_eq!(Spec::from_json(&small.to_json(), "spec").unwrap(), small);
    for stop in [Stop::Before, Stop::AfterTimeout(0), Stop::AfterTimeout(65535)] {
        assert_eq!(Stop::from_json(&stop.to_json(), "stop").unwrap(), stop);
    }
}

#[test]
fn written_descriptor_has_the_documented_shape() {
    let small = Spec::from_str(SMALL).unwrap().to_json();
    assert_eq!(
        small.get("stop"),
        Some(&Json::Array(vec![
            Json::String("AfterTimeout".to_string()),
            Json::Number(JsonNumber::Unsigned(10)),
        ]))
    );
    assert_eq!(small.get("name"), Some(&Json::Null));
    assert_eq!(small.get("privileged"), Some(&Json::Bool(false)));
    assert_eq!(Stop::Before.to_json(), Json::Array(vec![Json::String("Before".to_string())]));
    assert_eq!(
        CheckMethod::Http("u".to_string()).to_json(),
        Json::Array(vec![Json::String("Http".to_string()), Json::String("u".to_string())])
    );
}

#[test]
fn null_log_configuration_reads_back_as_absent() {
    let log = Log { log_type: "syslog".to_string(), config: Some(Json::Null) };
    let back = Log::from_json(&log.to_json(), "log").unwrap();
    assert_eq!(back, Log { log_type: "syslog".to_string(), config: None });
}
