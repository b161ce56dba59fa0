use dockup::agent::registry::{
    begin_fetch, extract_param, is_docker_hub, json_fields, parse_image, status_text, token_url, update_available,
    CheckStart, DigestCache, HeaderField, HttpMethod, JsonField, JsonFields, RegistryChecker,
    RegistryError, RegistryFetch, RegistryReply, RegistryStep,
};
use dockup::ids::Instant;

fn parsed(image: &str) -> (String, String, String) {
    parse_image(image)
}

fn at(secs: i64, nanos: u32) -> Instant {
    Instant { secs, nanos }
}

fn fields(token: JsonField, access_token: JsonField, first: JsonField, digest: JsonField) -> JsonFields {
    JsonFields { token, access_token, first_image_digest: first, digest }
}

fn text(s: &str) -> JsonField {
    JsonField::Text(s.to_string())
}

#[test]
fn official_image_defaults_to_library_and_latest() {
    assert_eq!(
        parsed("nginx"),
        ("docker.io".to_string(), "library/nginx".to_string(), "latest".to_string())
    );
}

#[test]
fn official_image_with_tag() {
    assert_eq!(
        parsed("nginx:1.25"),
        ("docker.io".to_string(), "library/nginx".to_string(), "1.25".to_string())
    );
}

#[test]
fn hub_user_repository() {
    assert_eq!(
        parsed("grafana/grafana:10.2.0"),
        ("docker.io".to_string(), "grafana/grafana".to_string(), "10.2.0".to_string())
    );
}

#[test]
fn registry_with_dot_is_kept() {
    assert_eq!(
        parsed("ghcr.io/owner/app:1.0"),
        ("ghcr.io".to_string(), "owner/app".to_string(), "1.0".to_string())
    );
}

#[test]
fn registry_with_port_and_tag() {
    assert_eq!(
        parsed("registry.example.com:5000/team/app:2"),
        ("registry.example.com:5000".to_string(), "team/app".to_string(), "2".to_string())
    );
}

#[test]
fn localhost_registry() {
    assert_eq!(
        parsed("localhost/img:1"),
        ("localhost".to_string(), "img".to_string(), "1".to_string())
    );
}

#[test]
fn host_port_without_tag_stays_with_the_registry() {
    // A colon followed by a path is the registry's port, not a tag separator.
    assert_eq!(
        parsed("localhost:5000/img"),
        ("localhost:5000".to_string(), "img".to_string(), "latest".to_string())
    );
    assert_eq!(
        parsed("registry.example.com:5000/team/app@sha256:00"),
        ("registry.example.com:5000".to_string(), "team/app".to_string(), "latest".to_string())
    );
}

#[test]
fn digest_is_ignored() {
    assert_eq!(parsed("nginx:1.25@sha256:abcdef"), parsed("nginx:1.25"));
    assert_eq!(
        parsed("ghcr.io/a/b@sha256:00"),
        ("ghcr.io".to_string(), "a/b".to_string(), "latest".to_string())
    );
}

#[test]
fn parsed_parts_are_clean() {
    for image in [
        "nginx",
        "nginx:1.25@sha256:abc:def",
        "user/app:v1@sha256:00",
        "localhost:5000/team/app",
        "registry.example.com:5000/a/b:c",
        "a:b:c",
        "host.io/x@y@z",
    ] {
        let (registry, repo, tag) = parsed(image);
        assert!(!registry.contains('@') && !repo.contains('@') && !tag.contains('@'));
        assert!(!tag.contains(':') && !tag.contains('/'));
        assert!(!registry.contains('/'));
        assert!(
            registry == "docker.io"
                || registry.contains('.')
                || registry.contains(':')
                || registry == "localhost"
        );
        if !image.split('@').next().unwrap().contains(':') {
            assert_eq!(tag, "latest");
        }
    }
    assert_eq!(
        parsed("localhost:5000/team/app:3"),
        ("localhost:5000".to_string(), "team/app".to_string(), "3".to_string())
    );
}

#[test]
fn extract_param_reads_quoted_values() {
    let h = "Bearer realm=\"https://auth.example.io/token\",service=\"registry.example.io\",scope=\"repository:a/b:pull\"";
    assert_eq!(extract_param(h, "realm"), Some("https://auth.example.io/token".to_string()));
    assert_eq!(extract_param(h, "service"), Some("registry.example.io".to_string()));
    assert_eq!(extract_param(h, "scope"), Some("repository:a/b:pull".to_string()));
    assert_eq!(extract_param(h, "missing"), None);
    assert_eq!(extract_param("Bearer realm=\"open", "realm"), None);
}

#[test]
fn token_url_from_challenge() {
    let h = "Bearer realm=\"https://auth.example.io/token\",service=\"reg\",scope=\"repository:a/b:pull\"";
    assert_eq!(
        token_url(h),
        "https://auth.example.io/token?service=reg&scope=repository:a/b:pull"
    );
    assert_eq!(token_url(""), "?service=&scope=");
}

#[test]
fn update_available_needs_known_differing_digest() {
    assert!(update_available(Some("sha256:a"), "sha256:b"));
    assert!(!update_available(Some("sha256:a"), "sha256:a"));
    assert!(!update_available(None, "sha256:b"));
}

#[test]
fn docker_hub_names() {
    assert!(is_docker_hub("docker.io"));
    assert!(is_docker_hub("registry-1.docker.io"));
    assert!(!is_docker_hub("ghcr.io"));
}

#[test]
fn cache_serves_fresh_digest_for_an_hour() {
    let mut cache = DigestCache::new();
    cache.insert("nginx", "sha256:1".to_string(), at(1000, 0));
    assert_eq!(cache.lookup("nginx", at(1000, 0)), Some("sha256:1".to_string()));
    assert_eq!(cache.lookup("nginx", at(4599, 999_999_999)), Some("sha256:1".to_string()));
    assert_eq!(cache.lookup("nginx", at(4600, 0)), None);
    assert_eq!(cache.lookup("redis", at(1000, 0)), None);
    // a clock that went back still counts as fresh
    assert_eq!(cache.lookup("nginx", at(10, 0)), Some("sha256:1".to_string()));
}

#[test]
fn cache_insert_replaces_earlier_digest() {
    let mut cache = DigestCache::new();
    cache.insert("nginx", "sha256:1".to_string(), at(0, 0));
    cache.insert("redis", "sha256:r".to_string(), at(0, 0));
    cache.insert("nginx", "sha256:2".to_string(), at(5000, 0));
    assert_eq!(cache.lookup("nginx", at(5000, 0)), Some("sha256:2".to_string()));
    assert_eq!(cache.lookup("redis", at(10, 0)), Some("sha256:r".to_string()));
}

#[test]
fn hub_lookup_with_manifest_digest() {
    let (phase, req) = begin_fetch("docker.io".to_string(), "library/nginx".to_string(), "latest".to_string());
    assert_eq!(req.method, HttpMethod::Get);
    assert_eq!(
        req.url,
        "https://auth.docker.io/token?service=registry.docker.io&scope=repository:library/nginx:pull"
    );
    assert!(req.read_json);
    assert!(!req.accept_manifests);
    assert!(req.bearer.is_none());
    let step = phase.step(RegistryReply::Json(fields(text("tok"), JsonField::Absent, JsonField::Absent, JsonField::Absent)));
    let (phase, req) = match step {
        RegistryStep::Send(p, r) => (p, r),
        other => panic!("unexpected {:?}", other),
    };
    assert_eq!(req.url, "https://registry-1.docker.io/v2/library/nginx/manifests/latest");
    assert_eq!(req.bearer, Some("tok".to_string()));
    assert!(req.accept_manifests);
    assert!(!req.read_json);
    let step = phase.step(RegistryReply::Headers {
        status: 200,
        digest: HeaderField::Text("sha256:abc".to_string()),
        www_authenticate: HeaderField::Absent,
    });
    match step {
        RegistryStep::Done(Ok(d)) => assert_eq!(d, "sha256:abc"),
        other => panic!("unexpected {:?}", other),
    }
}

#[test]
fn hub_lookup_falls_back_to_tag_info() {
    let phase = RegistryFetch::HubManifest { repo: "grafana/grafana".to_string(), tag: "10".to_string() };
    let step = phase.step(RegistryReply::Headers {
        status: 200,
        digest: HeaderField::Absent,
        www_authenticate: HeaderField::Absent,
    });
    let (phase, req) = match step {
        RegistryStep::Send(p, r) => (p, r),
        other => panic!("unexpected {:?}", other),
    };
    assert_eq!(req.url, "https://hub.docker.com/v2/repositories/grafana/grafana/tags/10");
    assert!(req.read_json);
    match phase.step(RegistryReply::Json(fields(JsonField::Absent, JsonField::Absent, JsonField::Absent, text("sha256:d")))) {
        RegistryStep::Done(Ok(d)) => assert_eq!(d, "sha256:d"),
        other => panic!("unexpected {:?}", other),
    }
    let phase = RegistryFetch::HubTagInfo;
    match phase.step(RegistryReply::Json(fields(JsonField::Absent, JsonField::Absent, text("sha256:i"), text("sha256:d")))) {
        RegistryStep::Done(Ok(d)) => assert_eq!(d, "sha256:i"),
        other => panic!("unexpected {:?}", other),
    }
    // a first image digest that is not a string hides the top-level digest
    let phase = RegistryFetch::HubTagInfo;
    match phase.step(RegistryReply::Json(fields(JsonField::Absent, JsonField::Absent, JsonField::Other, text("sha256:d")))) {
        RegistryStep::Done(Err(RegistryError::NoHubDigest)) => {}
        other => panic!("unexpected {:?}", other),
    }
}

#[test]
fn hub_lookup_without_token_fails() {
    let phase = RegistryFetch::HubToken { repo: "library/nginx".to_string(), tag: "latest".to_string() };
    match phase.step(RegistryReply::Json(fields(JsonField::Other, text("t"), JsonField::Absent, JsonField::Absent))) {
        RegistryStep::Done(Err(RegistryError::NoHubToken)) => {}
        other => panic!("unexpected {:?}", other),
    }
}

#[test]
fn registry_lookup_with_authentication() {
    let (phase, req) = begin_fetch("ghcr.io".to_string(), "owner/app".to_string(), "1.0".to_string());
    assert_eq!(req.method, HttpMethod::Head);
    assert_eq!(req.url, "https://ghcr.io/v2/owner/app/manifests/1.0");
    assert!(req.accept_manifests);
    let step = phase.step(RegistryReply::Headers {
        status: 401,
        digest: HeaderField::Absent,
        www_authenticate: HeaderField::Text(
            "Bearer realm=\"https://ghcr.io/token\",service=\"ghcr.io\",scope=\"repository:owner/app:pull\"".to_string(),
        ),
    });
    let (phase, req) = match step {
        RegistryStep::Send(p, r) => (p, r),
        other => panic!("unexpected {:?}", other),
    };
    assert_eq!(req.url, "https://ghcr.io/token?service=ghcr.io&scope=repository:owner/app:pull");
    assert!(req.read_json);
    let step = phase.step(RegistryReply::Json(fields(JsonField::Absent, text("at"), JsonField::Absent, JsonField::Absent)));
    let (phase, req) = match step {
        RegistryStep::Send(p, r) => (p, r),
        other => panic!("unexpected {:?}", other),
    };
    assert_eq!(req.method, HttpMethod::Head);
    assert_eq!(req.bearer, Some("at".to_string()));
    assert_eq!(req.url, "https://ghcr.io/v2/owner/app/manifests/1.0");
    match phase.step(RegistryReply::Headers { status: 200, digest: HeaderField::Absent, www_authenticate: HeaderField::Absent }) {
        RegistryStep::Done(Err(RegistryError::NoDigestAfterAuth { registry })) => assert_eq!(registry, "ghcr.io"),
        other => panic!("unexpected {:?}", other),
    }
}

#[test]
fn registry_lookup_errors() {
    let probe = || RegistryFetch::OciProbe {
        registry: "r.io".to_string(),
        manifest_url: "https://r.io/v2/a/manifests/1".to_string(),
    };
    match probe().step(RegistryReply::Headers { status: 404, digest: HeaderField::Absent, www_authenticate: HeaderField::Absent }) {
        RegistryStep::Done(Err(RegistryError::UnexpectedStatus { registry, status, url })) => {
            assert_eq!(registry, "r.io");
            assert_eq!(status, 404);
            assert_eq!(url, "https://r.io/v2/a/manifests/1");
        }
        other => panic!("unexpected {:?}", other),
    }
    match probe().step(RegistryReply::Failed("refused".to_string())) {
        RegistryStep::Done(Err(RegistryError::Transport(e))) => assert_eq!(e, "refused"),
        other => panic!("unexpected {:?}", other),
    }
    match probe().step(RegistryReply::Headers { status: 200, digest: HeaderField::Unreadable, www_authenticate: HeaderField::Absent }) {
        RegistryStep::Done(Err(RegistryError::UnreadableDigest)) => {}
        other => panic!("unexpected {:?}", other),
    }
    match probe().step(RegistryReply::Headers { status: 204, digest: HeaderField::Text("sha256:x".to_string()), www_authenticate: HeaderField::Absent }) {
        RegistryStep::Done(Ok(d)) => assert_eq!(d, "sha256:x"),
        other => panic!("unexpected {:?}", other),
    }
    let step = probe().step(RegistryReply::Headers { status: 200, digest: HeaderField::Absent, www_authenticate: HeaderField::Absent });
    let phase = match step {
        RegistryStep::Send(p, r) => {
            assert_eq!(r.method, HttpMethod::Get);
            assert!(r.bearer.is_none());
            p
        }
        other => panic!("unexpected {:?}", other),
    };
    match phase.step(RegistryReply::Headers { status: 200, digest: HeaderField::Absent, www_authenticate: HeaderField::Absent }) {
        RegistryStep::Done(Err(RegistryError::NoDigest { registry })) => assert_eq!(registry, "r.io"),
        other => panic!("unexpected {:?}", other),
    }
    let token_phase = RegistryFetch::OciToken { registry: "r.io".to_string(), manifest_url: "u".to_string() };
    match token_phase.step(RegistryReply::Json(fields(JsonField::Absent, JsonField::Absent, JsonField::Absent, JsonField::Absent))) {
        RegistryStep::Done(Err(RegistryError::NoRegistryToken)) => {}
        other => panic!("unexpected {:?}", other),
    }
}

#[test]
fn checker_uses_cache_then_registry() {
    let mut checker = RegistryChecker::new();
    match checker.begin_check("nginx:1.25", Some("sha256:old"), at(0, 0)) {
        CheckStart::Fetch(_, req) => {
            assert_eq!(req.url, "https://auth.docker.io/token?service=registry.docker.io&scope=repository:library/nginx:pull")
        }
        other => panic!("unexpected {:?}", other),
    }
    let res = checker.complete_check("nginx:1.25", Some("sha256:old"), "sha256:new".to_string(), at(0, 0));
    assert_eq!(res.latest_digest, "sha256:new");
    assert!(res.update_available);
    match checker.begin_check("nginx:1.25", Some("sha256:new"), at(60, 0)) {
        CheckStart::Cached(r) => {
            assert_eq!(r.latest_digest, "sha256:new");
            assert!(!r.update_available);
        }
        other => panic!("unexpected {:?}", other),
    }
    match checker.begin_check("nginx:1.25", None, at(3600, 0)) {
        CheckStart::Fetch(..) => {}
        other => panic!("unexpected {:?}", other),
    }
}

#[test]
fn checker_reads_the_clock() {
    let mut checker = RegistryChecker::new();
    let (res, _t) = checker.complete_check_now("redis", None, "sha256:r".to_string());
    assert!(!res.update_available);
    match checker.begin_check_now("redis", Some("sha256:q")) {
        (CheckStart::Cached(r), _) => {
            assert_eq!(r.latest_digest, "sha256:r");
            assert!(r.update_available);
        }
        other => panic!("unexpected {:?}", other.0),
    }
}

#[test]
fn status_codes_print_with_their_reason() {
    assert_eq!(status_text(404), "404 Not Found");
    assert_eq!(status_text(500), "500 Internal Server Error");
    assert_eq!(status_text(599), "599 <unknown status code>");
    assert_eq!(status_text(42), "42");
}

#[test]
fn lookup_failures_have_texts() {
    let status = RegistryError::UnexpectedStatus {
        registry: "ghcr.io".to_string(),
        status: 403,
        url: "https://ghcr.io/v2/a/b/manifests/1".to_string(),
    };
    assert_eq!(status.message(), "Registry ghcr.io returned status 403 Forbidden for https://ghcr.io/v2/a/b/manifests/1");
    assert_eq!(RegistryError::Transport("timed out".to_string()).message(), "timed out");
    assert_eq!(RegistryError::NoHubToken.message(), "No token in Docker Hub response");
    assert_eq!(RegistryError::UnreadableDigest.message(), "failed to convert header to a str");
    assert_eq!(RegistryError::NoHubDigest.message(), "Could not determine digest from Docker Hub");
    assert_eq!(
        RegistryError::NoDigest { registry: "r.io".to_string() }.message(),
        "No Docker-Content-Digest header from r.io"
    );
    assert_eq!(
        RegistryError::NoDigestAfterAuth { registry: "r.io".to_string() }.message(),
        "No Docker-Content-Digest header after auth from r.io"
    );
    assert_eq!(RegistryError::NoRegistryToken.message(), "No token in registry auth response");
}

fn field(f: &JsonField) -> Option<&str> {
    match f {
        JsonField::Text(t) => Some(t.as_str()),
        JsonField::Absent => None,
        JsonField::Other => Some("<other>"),
    }
}

#[test]
fn reply_bodies_are_read_for_the_protocol_fields() {
    let f = json_fields(r#"{"token": "t1", "access_token": 5, "expires_in": 300}"#).unwrap();
    assert_eq!(field(&f.token), Some("t1"));
    assert_eq!(field(&f.access_token), Some("<other>"));
    assert_eq!(field(&f.first_image_digest), None);
    assert_eq!(field(&f.digest), None);

    let f = json_fields(
        r#"{"images": [{"digest": "sha256:aa", "architecture": "amd64"}, {"digest": "sha256:bb"}], "digest": "sha256:cc"}"#,
    )
    .unwrap();
    assert_eq!(field(&f.first_image_digest), Some("sha256:aa"));
    assert_eq!(field(&f.digest), Some("sha256:cc"));
    assert_eq!(field(&f.token), None);

    let f = json_fields(r#"{"images": {"0": {"digest": "sha256:dd"}}}"#).unwrap();
    assert_eq!(field(&f.first_image_digest), Some("sha256:dd"));
    let f = json_fields(r#"{"images": []}"#).unwrap();
    assert_eq!(field(&f.first_image_digest), None);
    let f = json_fields("[1, 2]").unwrap();
    assert_eq!(field(&f.token), None);

    assert!(json_fields("not json").is_none());
    assert!(json_fields("").is_none());
}
