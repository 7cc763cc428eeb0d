use shortener::response::HtmlResponse;
use shortener::response::ServiceError;
use shortener::service::redirect_decision;
use shortener::service::store_decision;
use shortener::service::LinkRecord;
use shortener::service::LookupOutcome;
use shortener::service::Service;
use shortener::store::LinkStore;
use shortener::urls::anchor_html;
use shortener::urls::compose_short_url;
use shortener::urls::validate_url;

#[test]
fn store_flow_end_to_end() {
    let mut service = Service::new("http://localhost:8000".to_string());
    let rec = service
        .store_url("https://example.com/page")
        .expect("a valid absolute URL must be accepted");
    assert_eq!(rec.id.chars().count(), 21);
    assert!(shortener::ids::id_ok(&rec.id));
    assert_eq!(rec.url, "https://example.com/page");
    assert_eq!(rec.short_url, format!("http://localhost:8000/{}", rec.id));
    assert_eq!(
        rec.html,
        format!("<a href=\"{0}\">{0}</a>", rec.short_url)
    );
    let target = service
        .redirect(&rec.id)
        .expect("a stored id must resolve");
    assert_eq!(target, "https://example.com/page");
    let miss = service.redirect("doesnotexist000000000");
    match miss {
        Ok(_) => panic!("an id that was never stored must not resolve"),
        Err(e) => {
            assert_eq!(e.status, 404);
            assert_eq!(e.body, "not found");
        }
    }
}

#[test]
fn malformed_submissions_are_rejected() {
    for bad in ["not a url", "", "example.com/foo", "ht tp://x", "/relative/only"] {
        let mut service = Service::new("http://localhost:8000".to_string());
        match service.store_url(bad) {
            Ok(_) => panic!("malformed input {:?} must be rejected", bad),
            Err(e) => {
                assert_eq!(e.status, 400);
                assert_eq!(e.body, "invalid url");
            }
        }
    }
}

#[test]
fn redirect_on_never_stored_id_is_not_found() {
    let service = Service::new("http://localhost:8000".to_string());
    let r = service.redirect("abcdefghijklmnopqrstu");
    match r {
        Ok(_) => panic!("an empty service must resolve nothing"),
        Err(e) => {
            assert_eq!(e.status, 404);
            assert_eq!(e.body, "not found");
        }
    }
}

#[test]
fn storing_same_url_twice_gives_distinct_ids() {
    let mut service = Service::new("http://localhost:8000".to_string());
    let first = service.store_url("https://example.com/").expect("first store");
    let second = service.store_url("https://example.com/").expect("second store");
    assert_ne!(first.id, second.id);
}

#[test]
fn unusable_base_url_is_a_server_error() {
    let mut service = Service::new("not a base".to_string());
    match service.store_url("https://example.com/") {
        Ok(_) => panic!("a base URL that cannot absorb an id must fail the flow"),
        Err(e) => {
            assert_eq!(e.status, 500);
            assert_eq!(e.body, "server error");
        }
    }
}

#[test]
fn cannot_be_a_base_url_fails_composition() {
    let r = compose_short_url("mailto:joe@example.com", "abc");
    assert_eq!(r, Err(ServiceError::Configuration));
}

#[test]
fn validation_returns_canonical_form() {
    let r = validate_url("HTTP://EXAMPLE.com/Path").expect("valid URL");
    assert_eq!(r, "http://example.com/Path");
    let r = validate_url("https://example.com").expect("valid URL");
    assert_eq!(r, "https://example.com/");
}

#[test]
fn validation_rejects_malformed_strings() {
    assert_eq!(validate_url("not a url"), Err(ServiceError::Validation));
    assert_eq!(validate_url(""), Err(ServiceError::Validation));
    assert_eq!(validate_url("example.com"), Err(ServiceError::Validation));
}

#[test]
fn composition_joins_base_and_id() {
    let r = compose_short_url("http://localhost:8000", "abc123").expect("join");
    assert_eq!(r, "http://localhost:8000/abc123");
}

#[test]
fn anchor_is_rendered_exactly() {
    assert_eq!(
        anchor_html("http://s/x"),
        "<a href=\"http://s/x\">http://s/x</a>"
    );
}

#[test]
fn link_store_put_then_get() {
    let mut store = LinkStore::new();
    assert_eq!(store.len(), 0);
    assert_eq!(store.put("id1".to_string(), "https://a/".to_string()), Ok(()));
    assert_eq!(store.len(), 1);
    assert_eq!(store.get("id1"), Ok("https://a/".to_string()));
    assert_eq!(store.get("id2"), Err(ServiceError::NotFound));
}

#[test]
fn link_store_refuses_duplicate_id() {
    let mut store = LinkStore::new();
    assert_eq!(store.put("id1".to_string(), "https://a/".to_string()), Ok(()));
    assert_eq!(
        store.put("id1".to_string(), "https://b/".to_string()),
        Err(ServiceError::Storage)
    );
    assert_eq!(store.len(), 1);
    assert_eq!(store.get("id1"), Ok("https://a/".to_string()));
}

#[test]
fn error_replies_match_the_taxonomy() {
    let v = HtmlResponse::from_error(ServiceError::Validation);
    assert_eq!((v.status, v.body.as_str()), (400, "invalid url"));
    let n = HtmlResponse::from_error(ServiceError::NotFound);
    assert_eq!((n.status, n.body.as_str()), (404, "not found"));
    let s = HtmlResponse::from_error(ServiceError::Storage);
    assert_eq!((s.status, s.body.as_str()), (500, "server error"));
    let c = HtmlResponse::from_error(ServiceError::Configuration);
    assert_eq!((c.status, c.body.as_str()), (500, "server error"));
}

#[test]
fn redirect_decision_maps_all_outcomes() {
    assert_eq!(
        redirect_decision(LookupOutcome::Found("https://t/".to_string())),
        Ok("https://t/".to_string())
    );
    match redirect_decision(LookupOutcome::Missing) {
        Err(e) => assert_eq!((e.status, e.body.as_str()), (404, "not found")),
        Ok(_) => panic!("a missing record must not redirect"),
    }
    match redirect_decision(LookupOutcome::Failed) {
        Err(e) => assert_eq!((e.status, e.body.as_str()), (500, "server error")),
        Ok(_) => panic!("a failed lookup must not redirect"),
    }
}

#[test]
fn store_decision_maps_both_outcomes() {
    let rec = LinkRecord {
        id: "i".to_string(),
        url: "u".to_string(),
        short_url: "s".to_string(),
        html: "<a href=\"s\">s</a>".to_string(),
    };
    let ok = store_decision(rec, true);
    assert_eq!((ok.status, ok.body.as_str()), (200, "<a href=\"s\">s</a>"));
    let rec = LinkRecord {
        id: "i".to_string(),
        url: "u".to_string(),
        short_url: "s".to_string(),
        html: "h".to_string(),
    };
    let failed = store_decision(rec, false);
    assert_eq!((failed.status, failed.body.as_str()), (500, "server error"));
}
