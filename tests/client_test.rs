use docker_client::client::{check_version_number, UnixDockerClient};
use docker_client::container::{Container, ListContainersParameters};
use docker_client::endpoint::DockerEndpoint;
use docker_client::error::ClientError;
use docker_client::response::DockerResponse;
use docker_client::text::decimal_text;

fn client() -> UnixDockerClient {
    UnixDockerClient::new("/var/run/docker.sock", 200, Some(String::from("1.41"))).unwrap()
}

fn limit_only(n: i32) -> ListContainersParameters {
    ListContainersParameters {
        all: None,
        limit: Some(n),
        size: None,
        filters: None,
    }
}

#[test]
fn endpoint_paths() {
    assert_eq!(DockerEndpoint::Ping.path(), "/_ping");
    assert_eq!(DockerEndpoint::Version.path(), "/version");
    assert_eq!(DockerEndpoint::ListContainers.path(), "/containers/json");
    assert_eq!(DockerEndpoint::ListImages.path(), "/images/json");
}

#[test]
fn decimal_numerals() {
    assert_eq!(decimal_text(0), "0");
    assert_eq!(decimal_text(7), "7");
    assert_eq!(decimal_text(10), "10");
    assert_eq!(decimal_text(-42), "-42");
    assert_eq!(decimal_text(i32::MAX), "2147483647");
    assert_eq!(decimal_text(i32::MIN), "-2147483648");
}

#[test]
fn query_with_limit_only_has_one_key() {
    let q = limit_only(5).to_query_string().unwrap();
    assert_eq!(q, "limit=5");
    assert_eq!(q.split('&').count(), 1);
}

#[test]
fn query_with_negative_limit() {
    assert_eq!(limit_only(-3).to_query_string(), Some(String::from("limit=-3")));
}

#[test]
fn query_with_all_four_filters() {
    let params = ListContainersParameters {
        all: Some(true),
        limit: Some(10),
        size: Some(true),
        filters: Some(String::from(r#"{"status":["running"]}"#)),
    };
    let q = params.to_query_string().unwrap();
    assert_eq!(
        q,
        "all=true&limit=10&size=true&filters=%7B%22status%22%3A%5B%22running%22%5D%7D"
    );
    for key in ["all=", "limit=", "size=", "filters="] {
        assert!(q.contains(key));
    }
}

#[test]
fn query_with_false_flags() {
    let params = ListContainersParameters {
        all: Some(false),
        limit: None,
        size: Some(false),
        filters: None,
    };
    assert_eq!(params.to_query_string().unwrap(), "all=false&size=false");
}

#[test]
fn query_without_fields_is_empty() {
    let params = ListContainersParameters::default();
    assert_eq!(params.query_pairs().len(), 0);
    assert_eq!(params.to_query_string().unwrap(), "");
}

#[test]
fn query_encodes_spaces_and_non_ascii() {
    let params = ListContainersParameters {
        all: None,
        limit: None,
        size: None,
        filters: Some(String::from("a b/é*-._~")),
    };
    assert_eq!(params.to_query_string().unwrap(), "filters=a+b%2F%C3%A9*-._%7E");
}

#[test]
fn query_encodes_reserved_characters() {
    let params = ListContainersParameters {
        all: None,
        limit: None,
        size: None,
        filters: Some(String::from("x&y=z+1")),
    };
    assert_eq!(params.to_query_string().unwrap(), "filters=x%26y%3Dz%2B1");
}

#[test]
fn query_pairs_in_field_order() {
    let params = ListContainersParameters {
        all: Some(true),
        limit: Some(2),
        size: None,
        filters: Some(String::from("f")),
    };
    let pairs = params.query_pairs();
    assert_eq!(
        pairs,
        vec![
            (String::from("all"), String::from("true")),
            (String::from("limit"), String::from("2")),
            (String::from("filters"), String::from("f")),
        ]
    );
}

#[test]
fn version_numbers() {
    assert!(check_version_number("1.41"));
    assert!(check_version_number("10.0"));
    assert!(!check_version_number(""));
    assert!(!check_version_number("141"));
    assert!(!check_version_number(".41"));
    assert!(!check_version_number("1."));
    assert!(!check_version_number("1.4.1"));
    assert!(!check_version_number("1.x"));
    assert!(!check_version_number("v1.41"));
}

#[test]
fn construct_prefixes_the_version() {
    let c = client();
    assert_eq!(c.api_version, "v1.41");
    assert_eq!(c.socket, "/var/run/docker.sock");
    assert!(!c.api_version.is_empty());
}

#[test]
fn construct_fails_without_a_usable_version() {
    let sock = "/nonexistent/docker.sock";
    let cases = [
        (500u16, Some("1.41")),
        (199, Some("1.41")),
        (300, Some("1.41")),
        (200, None),
        (200, Some("")),
        (200, Some("1.x")),
        (200, Some("latest")),
    ];
    for (status, reported) in cases {
        let r = UnixDockerClient::new(sock, status, reported.map(String::from));
        assert!(matches!(r, Err(ClientError::VersionNegotiation)));
    }
    assert!(UnixDockerClient::new(sock, 299, Some(String::from("1.24"))).is_ok());
}

#[test]
fn versioned_paths() {
    let c = client();
    assert_eq!(c.versioned_path("/info"), "/v1.41/info");
    assert_eq!(c.ping_path(), "/v1.41/_ping");
    assert_eq!(c.list_containers_path(None), "/v1.41/containers/json");
    assert_eq!(
        c.list_containers_path(Some(limit_only(5))),
        "/v1.41/containers/json?limit=5"
    );
    assert_eq!(
        c.list_containers_path(Some(ListContainersParameters::default())),
        "/v1.41/containers/json"
    );
}

#[test]
fn status_checks() {
    assert_eq!(DockerResponse::new(200, vec![]).check_status(), Ok(()));
    assert_eq!(DockerResponse::new(204, vec![]).check_status(), Ok(()));
    assert_eq!(
        DockerResponse::new(404, vec![]).check_status(),
        Err(ClientError::HttpStatus(404))
    );
    assert!(!DockerResponse::new(500, vec![]).is_success());
}

#[test]
fn ping_body_as_text() {
    let r = DockerResponse::new(200, b"OK".to_vec());
    assert_eq!(r.into_text(), Ok(String::from("OK")));
    let r = DockerResponse::new(200, vec![0xc3, 0xa9]);
    assert_eq!(r.into_text(), Ok(String::from("é")));
    let r = DockerResponse::new(200, vec![0xff, 0x4f]);
    assert_eq!(r.into_text(), Err(ClientError::Decode));
}

#[test]
fn list_bodies() {
    let body = br#"[{"Id":"abc","Names":["/web"],"Image":"nginx","Extra":1},{"Id":"def","Names":[],"Image":"redis"}]"#;
    assert_eq!(DockerResponse::new(200, body.to_vec()).list_len(), Ok(2));
    assert_eq!(DockerResponse::new(200, b" [ ] ".to_vec()).list_len(), Ok(0));
}

#[test]
fn object_body_is_not_a_list() {
    let body = br#"{"message":"page not found"}"#;
    assert_eq!(
        DockerResponse::new(200, body.to_vec()).list_len(),
        Err(ClientError::Decode)
    );
    assert_eq!(DockerResponse::new(200, vec![]).list_len(), Err(ClientError::Decode));
    assert_eq!(
        DockerResponse::new(200, b"not json".to_vec()).list_len(),
        Err(ClientError::Decode)
    );
}

#[test]
fn container_record_fields() {
    let c = Container {
        container_id: String::from("abc"),
        names: vec![String::from("/web")],
        image: String::from("nginx"),
        image_id: None,
    };
    assert!(!c.container_id.is_empty());
    assert_eq!(c.names.len(), 1);
}
