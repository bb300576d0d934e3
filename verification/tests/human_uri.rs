use condo::human_uri::HumanURI;

fn pairs(items: &[(&str, &str)]) -> Vec<(String, String)> {
    items.iter().map(|(k, v)| (k.to_string(), v.to_string())).collect()
}

fn words(items: &[&str]) -> Vec<String> {
    items.iter().map(|s| s.to_string()).collect()
}

#[test]
fn address_without_scheme_is_http() {
    let uri = HumanURI::parse("127.0.0.1:8500").unwrap();
    assert_eq!(uri.to_text(), "http://127.0.0.1:8500/");
}

#[test]
fn address_with_scheme_is_kept() {
    assert_eq!(HumanURI::parse("http://consul.local:8500").unwrap().to_text(), "http://consul.local:8500/");
    assert_eq!(HumanURI::parse("https://docker.local/").unwrap().to_text(), "https://docker.local/");
}

#[test]
fn nonsense_is_no_address() {
    assert!(HumanURI::parse("http://").is_none());
    assert!(HumanURI::parse("exa mple").is_none());
}

#[test]
fn with_path_replaces_the_path() {
    let uri = HumanURI::parse("localhost:2376/old/path").unwrap();
    assert_eq!(uri.with_path("/images/create").unwrap().to_text(), "http://localhost:2376/images/create");
    assert_eq!(uri.with_path("images").unwrap().to_text(), "http://localhost:2376/images");
    assert_eq!(uri.with_path("//v1/kv").unwrap().to_text(), "http://localhost:2376/v1/kv");
    assert_eq!(uri.to_text(), "http://localhost:2376/old/path");
}

#[test]
fn add_path_appends_segments() {
    let uri = HumanURI::parse("localhost:8500").unwrap().with_path("/v1/kv").unwrap();
    assert_eq!(uri.add_path("services/web").unwrap().to_text(), "http://localhost:8500/v1/kv/services/web");
    assert_eq!(uri.add_path("/json").unwrap().to_text(), "http://localhost:8500/v1/kv/json");
}

#[test]
fn path_components_are_escaped() {
    let uri = HumanURI::parse("localhost").unwrap();
    let with = uri.with_path_components(&words(&["images", "nginx:1.9", "a/b"])).unwrap();
    assert_eq!(with.to_text(), "http://localhost/images/nginx:1.9/a%2Fb");
    let more = with.add_path_components(&words(&["json"])).unwrap();
    assert_eq!(more.to_text(), "http://localhost/images/nginx:1.9/a%2Fb/json");
}

#[test]
fn with_query_params_replaces_the_query() {
    let uri = HumanURI::parse("localhost:8500/v1/kv/key?stale=1").unwrap();
    let with = uri.with_query_params(&pairs(&[("wait", "10s"), ("raw", "")])).unwrap();
    assert_eq!(with.to_text(), "http://localhost:8500/v1/kv/key?wait=10s&raw=");
}

#[test]
fn add_query_params_keeps_the_query() {
    let uri = HumanURI::parse("localhost:8500/v1/kv/key?wait=10s").unwrap();
    let with = uri.add_query_params(&pairs(&[("index", "42"), ("q", "a b&c")])).unwrap();
    assert_eq!(with.to_text(), "http://localhost:8500/v1/kv/key?wait=10s&index=42&q=a+b%26c");
}

#[test]
fn into_url_hands_out_the_url() {
    let url = HumanURI::parse("localhost:8500/v1").unwrap().into_url();
    assert_eq!(url.as_str(), "http://localhost:8500/v1");
    assert_eq!(url.port(), Some(8500));
}
