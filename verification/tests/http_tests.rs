use wayvr::http::{
    connect_plan,
    content_length, request_target, resolve_redirect, FetchStep, HttpError, LocationHeader,
    RedirectState, UriParts, MAX_REDIRECTS,
};

#[test]
fn request_target_needs_a_host() {
    let t = request_target("https://example.com:8443/models/a.bin?x=1").unwrap();
    assert_eq!(t.host, "example.com:8443");
    assert_eq!(t.uri, "https://example.com:8443/models/a.bin?x=1");
    assert_eq!(t.parts.scheme.as_deref(), Some("https"));
    assert_eq!(t.parts.path_and_query.as_deref(), Some("/models/a.bin?x=1"));
    assert!(matches!(request_target("/only/a/path"), Err(HttpError::InvalidAuthority)));
    assert!(matches!(request_target("http://exa mple.com/"), Err(HttpError::InvalidUri(_))));
}

#[test]
fn relative_redirect_keeps_scheme_and_host() {
    let cur = request_target("https://huggingface.co/x/resolve/main/m.bin").unwrap();
    let t = resolve_redirect(&cur.parts, LocationHeader::Text("/api/blob/abc?dl=1".into())).unwrap();
    assert_eq!(t.uri, "https://huggingface.co/api/blob/abc?dl=1");
    assert_eq!(t.host, "huggingface.co");
}

#[test]
fn absolute_redirect_is_taken_as_is() {
    let cur = request_target("https://huggingface.co/m.bin").unwrap();
    let t = resolve_redirect(&cur.parts, LocationHeader::Text("https://cdn.example.org/f?sig=1".into())).unwrap();
    assert_eq!(t.uri, "https://cdn.example.org/f?sig=1");
    assert_eq!(t.host, "cdn.example.org");
}

#[test]
fn bad_redirects() {
    let cur = request_target("https://huggingface.co/m.bin").unwrap();
    assert!(matches!(resolve_redirect(&cur.parts, LocationHeader::Missing), Err(HttpError::MissingLocation)));
    assert!(matches!(resolve_redirect(&cur.parts, LocationHeader::NotText), Err(HttpError::InvalidLocationHeader)));
    assert!(matches!(
        resolve_redirect(&cur.parts, LocationHeader::Text("http://bad host/".into())),
        Err(HttpError::InvalidRedirectLocation)
    ));
}

#[test]
fn redirect_state_machine() {
    let mut s = RedirectState::new();
    assert!(matches!(s.on_status(302), FetchStep::FollowRedirect));
    for _ in 1..MAX_REDIRECTS {
        assert!(matches!(s.on_status(301), FetchStep::FollowRedirect));
    }
    assert!(matches!(s.on_status(307), FetchStep::Fail(HttpError::TooManyRedirects)));

    let mut s = RedirectState::new();
    assert!(matches!(s.on_status(200), FetchStep::Download));
    let mut s = RedirectState::new();
    assert!(matches!(s.on_status(404), FetchStep::Fail(HttpError::NonSuccess(404))));
    let mut s = RedirectState::new();
    s.on_status(302);
    assert!(matches!(s.on_status(204), FetchStep::Download));
}

#[test]
fn announced_length() {
    assert_eq!(content_length(Some("1234")), 1234);
    assert_eq!(content_length(Some("+5")), 5);
    assert_eq!(content_length(Some("18446744073709551615")), u64::MAX);
    assert_eq!(content_length(Some("18446744073709551616")), 1);
    assert_eq!(content_length(Some("12a")), 1);
    assert_eq!(content_length(Some("")), 1);
    assert_eq!(content_length(Some("+")), 1);
    assert_eq!(content_length(Some("-1")), 1);
    assert_eq!(content_length(None), 1);
}

#[test]
fn http_error_messages() {
    assert_eq!(HttpError::NonSuccess(404).message(), "non-200 HTTP response: 404");
    assert_eq!(HttpError::TooManyRedirects.message(), "too many redirects");
    assert_eq!(HttpError::InvalidAuthority.message(), "invalid authority");
    assert_eq!(HttpError::MissingLocation.message(), "redirect response has no Location header");
    assert_eq!(HttpError::InvalidLocationHeader.message(), "invalid redirect location header");
    assert_eq!(HttpError::InvalidRedirectLocation.message(), "invalid redirect location");
    assert_eq!(HttpError::RedirectUriConstruction.message(), "failed to construct redirect URI");
    assert_eq!(HttpError::InvalidUri("bad".into()).message(), "bad");
}

#[test]
fn connection_plans() {
    let t = request_target("https://huggingface.co/m.bin").unwrap();
    assert_eq!(t.parts.host.as_deref(), Some("huggingface.co"));
    assert_eq!(t.parts.port, None);
    let p = connect_plan(&t.parts).unwrap();
    assert_eq!((p.host.as_str(), p.port, p.tls), ("huggingface.co", 443, true));
    let t = request_target("http://example.com:8080/x").unwrap();
    assert_eq!(t.parts.port, Some(8080));
    let p = connect_plan(&t.parts).unwrap();
    assert_eq!((p.host.as_str(), p.port, p.tls), ("example.com", 8080, false));
    let p = connect_plan(&request_target("http://example.com/").unwrap().parts).unwrap();
    assert_eq!(p.port, 80);
    let t = request_target("ftp://h/x").unwrap();
    assert_eq!(connect_plan(&t.parts).err().unwrap().message(), "unsupported scheme: Some(\"ftp\")");
    let parts = UriParts {
        scheme: None,
        authority: Some("h".into()),
        path_and_query: None,
        host: Some("h".into()),
        port: None,
    };
    assert_eq!(connect_plan(&parts).err().unwrap().message(), "unsupported scheme: None");
    let mut parts = request_target("https://h/").unwrap().parts;
    parts.host = None;
    assert!(matches!(connect_plan(&parts), Err(HttpError::CannotParseHost)));
    assert_eq!(HttpError::CannotParseHost.message(), "cannot parse host");
}

#[test]
fn relative_redirect_keeps_host_and_port_for_connecting() {
    let cur = request_target("https://example.com:8443/a").unwrap();
    let t = resolve_redirect(&cur.parts, LocationHeader::Text("/b".into())).unwrap();
    assert_eq!(t.uri, "https://example.com:8443/b");
    let p = connect_plan(&t.parts).unwrap();
    assert_eq!((p.host.as_str(), p.port, p.tls), ("example.com", 8443, true));
}
