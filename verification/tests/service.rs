use calrelay::calendar::Calendar;
use calrelay::registration::prepare_registration;
use calrelay::registration::registration_response;
use calrelay::registration::rejection_response;
use calrelay::registration::RegistrationError;
use calrelay::registration::RegistrationRequest;
use calrelay::registration::StorageError;
use calrelay::relay::plan_fetch;
use calrelay::relay::relay_fetch_step;
use calrelay::relay::relay_lookup_step;
use calrelay::relay::FetchError;
use calrelay::relay::RelayStep;
use calrelay::response::ResponseBody;

use std::collections::HashSet;

fn request(url: Option<&str>, user: Option<&str>, pass: Option<&str>) -> RegistrationRequest {
    RegistrationRequest {
        remote_url: url.map(|s| s.to_string()),
        username: user.map(|s| s.to_string()),
        password: pass.map(|s| s.to_string()),
    }
}

#[test]
fn round_trip_targets_registered_url_and_relays_body_verbatim() {
    let url = "http://remote.example/cal.ics";
    let body = "BEGIN:VCALENDAR\r\nEND:VCALENDAR\r\n";

    let prepared = prepare_registration(request(Some(url), None, None)).unwrap();
    assert_eq!(prepared.descriptor.remote_url, url);

    let step = relay_lookup_step(Some(prepared.descriptor));
    let plan = match step {
        RelayStep::Fetch(plan) => plan,
        RelayStep::Respond(_) => panic!("a known identifier must plan a fetch"),
    };
    assert_eq!(plan.url, url);

    let resp = relay_fetch_step(Ok(body.to_string()));
    assert_eq!(resp.status, 200);
    match resp.body {
        ResponseBody::Relayed(b) => assert_eq!(b, body),
        _ => panic!("a successful fetch must relay its body"),
    }
}

#[test]
fn successive_registrations_have_distinct_identifiers() {
    let mut seen: HashSet<String> = HashSet::new();
    for _ in 0..1000 {
        let prepared = prepare_registration(request(Some("http://r/x"), None, None)).unwrap();
        assert_eq!(prepared.identifier.len(), 36);
        assert!(seen.insert(prepared.identifier), "identifier repeated");
    }
    assert_eq!(seen.len(), 1000);
}

#[test]
fn identifier_has_canonical_hyphenated_form() {
    let prepared = prepare_registration(request(Some("http://r/x"), None, None)).unwrap();
    let id = prepared.identifier;
    assert_eq!(id.len(), 36);
    for (i, c) in id.chars().enumerate() {
        if i == 8 || i == 13 || i == 18 || i == 23 {
            assert_eq!(c, '-');
        } else {
            assert!(c.is_ascii_hexdigit() && !c.is_ascii_uppercase());
        }
    }
}

#[test]
fn relaying_equal_descriptors_targets_same_url() {
    let make = || Calendar {
        remote_url: "http://remote.example/cal.ics".to_string(),
        username: Some("u".to_string()),
        password: Some("p".to_string()),
    };
    let first = plan_fetch(make());
    let second = plan_fetch(make());
    assert_eq!(first.url, second.url);
    let a1 = first.auth.unwrap();
    let a2 = second.auth.unwrap();
    assert_eq!(a1.username, a2.username);
    assert_eq!(a1.password, a2.password);
}

#[test]
fn unknown_identifier_answers_not_found_and_plans_no_fetch() {
    match relay_lookup_step(None) {
        RelayStep::Respond(resp) => {
            assert_eq!(resp.status, 404);
            assert!(matches!(resp.body, ResponseBody::Empty));
        },
        RelayStep::Fetch(_) => panic!("an unknown identifier must not plan a fetch"),
    }
}

#[test]
fn auth_carries_exact_credentials() {
    let plan = plan_fetch(Calendar {
        remote_url: "http://r/x".to_string(),
        username: Some("u".to_string()),
        password: Some("p".to_string()),
    });
    let auth = plan.auth.expect("a username must switch auth on");
    assert_eq!(auth.username, "u");
    assert_eq!(auth.password.as_deref(), Some("p"));
}

#[test]
fn username_alone_still_attempts_auth() {
    let plan = plan_fetch(Calendar {
        remote_url: "http://r/x".to_string(),
        username: Some("u".to_string()),
        password: None,
    });
    let auth = plan.auth.expect("a username must switch auth on");
    assert_eq!(auth.username, "u");
    assert_eq!(auth.password, None);
}

#[test]
fn password_without_username_attempts_no_auth() {
    let plan = plan_fetch(Calendar {
        remote_url: "http://r/x".to_string(),
        username: None,
        password: Some("p".to_string()),
    });
    assert!(plan.auth.is_none());
}

#[test]
fn failed_fetch_answers_server_error_with_no_body() {
    let resp = relay_fetch_step(Err(FetchError));
    assert_eq!(resp.status, 500);
    assert!(matches!(resp.body, ResponseBody::Empty));
}

#[test]
fn missing_remote_url_is_rejected_with_client_error() {
    let r = prepare_registration(request(None, Some("u"), Some("p")));
    let e = match r {
        Err(e) => e,
        Ok(_) => panic!("a request without remote_url must be rejected"),
    };
    assert!(matches!(e, RegistrationError::MissingRemoteUrl));
    let resp = rejection_response(&e);
    assert_eq!(resp.status, 400);
    assert!(matches!(resp.body, ResponseBody::Empty));
}

#[test]
fn stored_row_is_acknowledged_with_its_identifier() {
    let resp = registration_response(Ok("the-id".to_string()));
    assert_eq!(resp.status, 200);
    match resp.body {
        ResponseBody::Identifier(u) => assert_eq!(u, "the-id"),
        _ => panic!("a stored row must be acknowledged with its identifier"),
    }
}

#[test]
fn failed_store_answers_server_error_with_empty_body() {
    let resp = registration_response(Err(StorageError));
    assert_eq!(resp.status, 500);
    assert!(matches!(resp.body, ResponseBody::Empty));
}

#[test]
fn accepted_registration_keeps_credentials_verbatim() {
    let prepared = prepare_registration(request(Some("http://r/x"), Some("alice"), None)).unwrap();
    assert_eq!(prepared.descriptor.remote_url, "http://r/x");
    assert_eq!(prepared.descriptor.username.as_deref(), Some("alice"));
    assert_eq!(prepared.descriptor.password, None);
}
