use tokeihub::callback::{
    read_body, read_exchange, CallbackAction, CallbackEvent, CallbackFailure, CallbackFlow,
    CallbackReply, CallbackStage,
};
use tokeihub::exchange::{parse_form, AccessTokenBundle, OAuthClient};
use tokeihub::login_state::LoginStateStore;

fn client() -> OAuthClient {
    OAuthClient::new("Iv1.abc".to_string(), "shhh".to_string())
}

fn exchange_url() -> String {
    "https://github.com/login/oauth/access_token?client_id=Iv1.abc&client_secret=shhh&code=abc"
        .to_string()
}

fn begin(state: &str) -> (CallbackFlow, CallbackAction) {
    CallbackFlow::begin(client(), "abc".to_string(), state.to_string())
}

fn respond(reply: CallbackReply) -> Option<CallbackAction> {
    Some(CallbackAction::Respond(reply))
}

/// Hands a flow the hosting platform's answer, the body only if it is asked for.
fn answer(flow: CallbackFlow, status: u16, body: &str) -> (CallbackFlow, Option<CallbackAction>) {
    let (flow, action) = flow.step(CallbackEvent::ExchangeAnswered { status });
    match action {
        Some(CallbackAction::ReadBody) => {
            assert_eq!(flow.stage, CallbackStage::Reading);
            flow.step(CallbackEvent::BodyRead { body: body.to_string() })
        },
        other => (flow, other),
    }
}

#[test]
fn exchange_url_names_client_and_code() {
    assert_eq!(client().exchange_url("abc"), exchange_url());
    assert_eq!(
        OAuthClient::new("".to_string(), "".to_string()).exchange_url(""),
        "https://github.com/login/oauth/access_token?client_id=&client_secret=&code="
    );
}

#[test]
fn parse_form_reads_pairs() {
    let bundle = parse_form("access_token=gho_16C7e42F292c&scope=repo%2Cgist&token_type=bearer")
        .expect("a form of three pairs");
    assert_eq!(bundle.get("access_token"), Some("gho_16C7e42F292c".to_string()));
    assert_eq!(bundle.get("scope"), Some("repo%2Cgist".to_string()));
    assert_eq!(bundle.get("token_type"), Some("bearer".to_string()));
    assert_eq!(bundle.get("error"), None);
    assert_eq!(bundle.pairs().len(), 3);
}

#[test]
fn parse_form_refuses_piece_without_value() {
    assert_eq!(parse_form("access_token"), None);
    assert_eq!(parse_form("a=b&c"), None);
    assert_eq!(parse_form("a&b=c"), None);
    assert_eq!(parse_form("a=b&"), None);
    assert_eq!(parse_form("&a=b"), None);
    assert_eq!(parse_form("a=b&&c=d"), None);
    assert_eq!(parse_form(""), None);
    assert_eq!(parse_form("&"), None);
}

#[test]
fn parse_form_admits_empty_key_and_value() {
    let bundle = parse_form("=&k=&=v").expect("three pairs");
    assert_eq!(bundle.get(""), Some("v".to_string()));
    assert_eq!(bundle.get("k"), Some("".to_string()));
}

#[test]
fn parse_form_takes_value_up_to_second_equals_sign() {
    let bundle = parse_form("a=b=c&d==e").expect("two pairs");
    assert_eq!(bundle.get("a"), Some("b".to_string()));
    assert_eq!(bundle.get("d"), Some("".to_string()));
}

#[test]
fn parse_form_keeps_the_later_of_two_pairs_with_one_key() {
    let bundle = parse_form("a=1&b=2&a=3").expect("three pairs");
    assert_eq!(bundle.get("a"), Some("3".to_string()));
    assert_eq!(bundle.get("b"), Some("2".to_string()));
    let map: std::collections::HashMap<String, String> = bundle.pairs().into_iter().collect();
    assert_eq!(map.len(), 2);
    assert_eq!(map["a"], "3");
    assert_eq!(map["b"], "2");
}

#[test]
fn parse_form_agrees_with_collecting_into_a_map() {
    let samples = [
        "access_token=x&token_type=bearer",
        "error=bad_verification_code&error_description=The+code+passed+is+incorrect",
        "a=b=c",
        "=",
        "k=v&k=w&k=",
        "ключ=значение&é=ü",
    ];
    for sample in samples {
        let mut expected = std::collections::HashMap::new();
        for piece in sample.split('&') {
            let mut parts = piece.split('=');
            let key = parts.next().unwrap().to_string();
            let value = parts.next().unwrap().to_string();
            expected.insert(key, value);
        }
        let bundle = parse_form(sample).expect("a form of pairs");
        for (key, value) in &expected {
            assert_eq!(bundle.get(key), Some(value.clone()));
        }
        let got: std::collections::HashMap<String, String> =
            bundle.pairs().into_iter().collect();
        assert_eq!(got, expected);
    }
}

#[test]
fn bundle_insert_and_get() {
    let mut bundle = AccessTokenBundle::new();
    assert_eq!(bundle.get("a"), None);
    bundle.insert("a".to_string(), "1".to_string());
    bundle.insert("b".to_string(), "2".to_string());
    assert_eq!(bundle.get("a"), Some("1".to_string()));
    bundle.insert("a".to_string(), "3".to_string());
    assert_eq!(bundle.get("a"), Some("3".to_string()));
    assert_eq!(bundle.get("b"), Some("2".to_string()));
    assert_eq!(bundle.get("c"), None);
}

#[test]
fn read_exchange_grants_the_bundle() {
    let reply = read_exchange(200, "access_token=tok&token_type=bearer");
    assert_eq!(reply.status(), 200);
    match reply {
        CallbackReply::Granted(bundle) => {
            assert_eq!(bundle.get("access_token"), Some("tok".to_string()));
            assert_eq!(bundle.get("token_type"), Some("bearer".to_string()));
        },
        other => panic!("expected a bundle, got {:?}", other),
    }
}

#[test]
fn read_exchange_rejects_other_status() {
    for status in [0u16, 199, 201, 204, 302, 400, 404, 500] {
        let reply = read_exchange(status, "access_token=tok");
        assert_eq!(reply, CallbackReply::RejectedStatus(status));
        assert_eq!(reply.status(), 400);
    }
}

#[test]
fn read_exchange_surfaces_the_platform_error() {
    let reply = read_exchange(200, "error=access_denied");
    assert_eq!(reply, CallbackReply::Rejected("access_denied".to_string()));
    assert_eq!(reply.status(), 400);
    let reply = read_exchange(200, "access_token=tok&error=bad_verification_code&x=y");
    assert_eq!(reply, CallbackReply::Rejected("bad_verification_code".to_string()));
    let reply = read_exchange(200, "error=");
    assert_eq!(reply, CallbackReply::Rejected("".to_string()));
}

#[test]
fn read_exchange_fails_on_unreadable_body() {
    for body in ["", "access_token", "a=b&c", "error"] {
        let reply = read_exchange(200, body);
        assert_eq!(reply, CallbackReply::Failed(CallbackFailure::MalformedReply));
        assert_eq!(reply.status(), 500);
    }
}

#[test]
fn read_body_reads_the_form() {
    assert_eq!(read_body("error=access_denied"), CallbackReply::Rejected("access_denied".to_string()));
    assert_eq!(read_body("nothing"), CallbackReply::Failed(CallbackFailure::MalformedReply));
    match read_body("access_token=tok") {
        CallbackReply::Granted(bundle) => {
            assert_eq!(bundle.get("access_token"), Some("tok".to_string()))
        },
        other => panic!("expected a bundle, got {:?}", other),
    }
}

#[test]
fn read_exchange_looks_at_the_status_first() {
    assert_eq!(read_exchange(404, "not a form"), CallbackReply::RejectedStatus(404));
    assert_eq!(read_exchange(500, "error=access_denied"), CallbackReply::RejectedStatus(500));
}

#[test]
fn begin_asks_for_the_state_to_be_consumed() {
    let (flow, action) = begin("tok0000000");
    assert_eq!(flow.stage, CallbackStage::Consuming);
    assert_eq!(flow.code, "abc");
    assert_eq!(flow.client, client());
    assert_eq!(action, CallbackAction::Consume { token: "tok0000000".to_string() });
}

#[test]
fn unknown_state_is_rejected_and_the_store_unchanged() {
    let mut store = LoginStateStore::new();
    let held = store.issue();
    let other = store.issue();
    let before = store.clone();

    let (flow, action) = begin("unknown-token");
    let token = match action {
        CallbackAction::Consume { token } => token,
        other => panic!("expected a consumption, got {:?}", other),
    };
    assert_eq!(token, "unknown-token");
    let existed = store.consume(&token);
    assert!(!existed);
    let (flow, action) = flow.step(CallbackEvent::StateConsumed(existed));
    assert_eq!(flow.stage, CallbackStage::Finished);
    assert_eq!(action, respond(CallbackReply::InvalidState));
    assert_eq!(CallbackReply::InvalidState.status(), 400);

    assert_eq!(store, before);
    assert_eq!(store.len(), 2);
    assert!(store.contains(&held));
    assert!(store.contains(&other));

    let (flow, action) = flow.step(CallbackEvent::ExchangeAnswered { status: 200 });
    assert_eq!(action, None);
    let (_, action) = flow.step(CallbackEvent::BodyRead { body: "access_token=tok".to_string() });
    assert_eq!(action, None);
}

#[test]
fn platform_error_is_surfaced_after_the_state_is_gone() {
    let mut store = LoginStateStore::new();
    let state = store.issue();

    let (flow, action) = begin(&state);
    let token = match action {
        CallbackAction::Consume { token } => token,
        other => panic!("expected a consumption, got {:?}", other),
    };
    let existed = store.consume(&token);
    assert!(existed);

    let (flow, action) = flow.step(CallbackEvent::StateConsumed(existed));
    assert_eq!(flow.stage, CallbackStage::Exchanging);
    assert_eq!(action, Some(CallbackAction::Exchange { url: exchange_url() }));
    assert!(!store.contains(&state));
    assert_eq!(store.len(), 0);

    let (flow, action) = answer(flow, 200, "error=access_denied");
    assert_eq!(flow.stage, CallbackStage::Finished);
    let reply = match action {
        Some(CallbackAction::Respond(reply)) => reply,
        other => panic!("expected a response, got {:?}", other),
    };
    assert_eq!(reply.status(), 400);
    assert_eq!(reply, CallbackReply::Rejected("access_denied".to_string()));
    assert!(!store.consume(&state));
}

#[test]
fn valid_state_and_code_grant_the_bundle() {
    let (flow, _) = begin("tok0000000");
    let (flow, action) = flow.step(CallbackEvent::StateConsumed(true));
    assert_eq!(action, Some(CallbackAction::Exchange { url: exchange_url() }));
    let (flow, action) = answer(flow, 200, "access_token=gho_x&scope=&token_type=bearer");
    assert_eq!(flow.stage, CallbackStage::Finished);
    match action {
        Some(CallbackAction::Respond(CallbackReply::Granted(bundle))) => {
            assert_eq!(bundle.get("access_token"), Some("gho_x".to_string()));
            assert_eq!(bundle.get("scope"), Some("".to_string()));
            assert_eq!(bundle.get("token_type"), Some("bearer".to_string()));
        },
        other => panic!("expected a bundle, got {:?}", other),
    }
}

#[test]
fn rejected_exchange_carries_the_status() {
    let (flow, _) = begin("tok0000000");
    let (flow, _) = flow.step(CallbackEvent::StateConsumed(true));
    let (flow, action) = flow.step(CallbackEvent::ExchangeAnswered { status: 404 });
    assert_eq!(flow.stage, CallbackStage::Finished);
    assert_eq!(action, respond(CallbackReply::RejectedStatus(404)));
}

#[test]
fn body_is_read_only_after_status_200() {
    for status in [0u16, 199, 201, 204, 400, 500] {
        let (flow, _) = begin("tok0000000");
        let (flow, _) = flow.step(CallbackEvent::StateConsumed(true));
        let (_, action) = flow.step(CallbackEvent::ExchangeAnswered { status });
        assert_eq!(action, respond(CallbackReply::RejectedStatus(status)));
    }
    let (flow, _) = begin("tok0000000");
    let (flow, _) = flow.step(CallbackEvent::StateConsumed(true));
    let (flow, action) = flow.step(CallbackEvent::BodyRead { body: "a=b".to_string() });
    assert_eq!(action, None);
    let (flow, action) = flow.step(CallbackEvent::ExchangeAnswered { status: 200 });
    assert_eq!(action, Some(CallbackAction::ReadBody));
    assert_eq!(flow.stage, CallbackStage::Reading);
}

#[test]
fn unreadable_body_is_an_internal_failure() {
    let (flow, _) = begin("tok0000000");
    let (flow, _) = flow.step(CallbackEvent::StateConsumed(true));
    let (flow, _) = flow.step(CallbackEvent::ExchangeAnswered { status: 200 });
    let (flow, action) = flow.step(CallbackEvent::BodyUnreadable);
    assert_eq!(flow.stage, CallbackStage::Finished);
    assert_eq!(action, respond(CallbackReply::Failed(CallbackFailure::PlatformUnreachable)));
    assert_eq!(CallbackReply::Failed(CallbackFailure::PlatformUnreachable).status(), 500);
}

#[test]
fn unreadable_exchange_reply_is_an_internal_failure() {
    let (flow, _) = begin("tok0000000");
    let (flow, _) = flow.step(CallbackEvent::StateConsumed(true));
    let (_, action) = answer(flow, 200, "access_token=x&garbage");
    assert_eq!(action, respond(CallbackReply::Failed(CallbackFailure::MalformedReply)));
}

#[test]
fn failed_store_is_an_internal_failure() {
    let (flow, _) = begin("tok0000000");
    let (flow, action) = flow.step(CallbackEvent::StoreFailed);
    assert_eq!(flow.stage, CallbackStage::Finished);
    assert_eq!(action, respond(CallbackReply::Failed(CallbackFailure::StoreFailed)));
    assert_eq!(CallbackReply::Failed(CallbackFailure::StoreFailed).status(), 500);
}

#[test]
fn unreachable_platform_fails_the_exchange() {
    let (flow, _) = begin("tok0000000");
    let (flow, _) = flow.step(CallbackEvent::StateConsumed(true));
    let (flow, action) = flow.step(CallbackEvent::ExchangeFailed);
    assert_eq!(flow.stage, CallbackStage::Finished);
    assert_eq!(action, respond(CallbackReply::Failed(CallbackFailure::PlatformUnreachable)));
}

#[test]
fn exchange_is_not_asked_for_before_the_state_is_consumed() {
    let (flow, _) = begin("tok0000000");
    let before = flow.clone();
    let (flow, action) = flow.step(CallbackEvent::ExchangeAnswered { status: 200 });
    assert_eq!(action, None);
    assert_eq!(flow, before);
    let (flow, action) = flow.step(CallbackEvent::ExchangeFailed);
    assert_eq!(action, None);
    assert_eq!(flow, before);
}

#[test]
fn state_is_consumed_once_in_a_callback() {
    let (flow, _) = begin("tok0000000");
    let (flow, _) = flow.step(CallbackEvent::StateConsumed(true));
    let before = flow.clone();
    let (flow, action) = flow.step(CallbackEvent::StateConsumed(true));
    assert_eq!(action, None);
    assert_eq!(flow, before);
    let (flow, action) = flow.step(CallbackEvent::StateConsumed(false));
    assert_eq!(action, None);
    let (flow, action) = flow.step(CallbackEvent::StoreFailed);
    assert_eq!(action, None);
    assert_eq!(flow, before);
}

#[test]
fn replayed_callback_is_rejected() {
    let mut store = LoginStateStore::new();
    let state = store.issue();
    let mut exchanges: u32 = 0;
    for _ in 0..3 {
        let (flow, action) = begin(&state);
        let token = match action {
            CallbackAction::Consume { token } => token,
            other => panic!("expected a consumption, got {:?}", other),
        };
        let (_, action) = flow.step(CallbackEvent::StateConsumed(store.consume(&token)));
        match action {
            Some(CallbackAction::Exchange { .. }) => exchanges += 1,
            Some(CallbackAction::Respond(reply)) => assert_eq!(reply, CallbackReply::InvalidState),
            other => panic!("expected an exchange or a response, got {:?}", other),
        }
    }
    assert_eq!(exchanges, 1);
}

#[test]
fn rejection_by_status_is_worded_by_its_status_line() {
    assert_eq!(
        CallbackReply::RejectedStatus(404).message(),
        Some("404 Not Found".to_string())
    );
    assert_eq!(
        CallbackReply::RejectedStatus(503).message(),
        Some("503 Service Unavailable".to_string())
    );
    assert_eq!(CallbackReply::RejectedStatus(201).message(), Some("201 Created".to_string()));
    assert_eq!(
        CallbackReply::RejectedStatus(999).message(),
        Some("999 <unknown status code>".to_string())
    );
    assert_eq!(
        CallbackReply::RejectedStatus(100).message(),
        Some("100 Continue".to_string())
    );
}

#[test]
fn rejection_by_a_number_that_is_no_status() {
    for status in [0u16, 1, 99, 1000, 4040, u16::MAX] {
        assert_eq!(
            CallbackReply::RejectedStatus(status).message(),
            Some("invalid status code".to_string())
        );
    }
}

#[test]
fn callback_replies_carry_their_text() {
    assert_eq!(CallbackReply::InvalidState.message(), Some("Invalid State".to_string()));
    assert_eq!(
        CallbackReply::Rejected("access_denied".to_string()).message(),
        Some("access_denied".to_string())
    );
    assert_eq!(
        CallbackReply::Failed(CallbackFailure::MalformedReply).message(),
        Some("Invalid response from github".to_string())
    );
    assert_eq!(
        CallbackReply::Failed(CallbackFailure::StoreFailed).message(),
        Some("Login state store failed".to_string())
    );
    assert_eq!(
        CallbackReply::Failed(CallbackFailure::PlatformUnreachable).message(),
        Some("Hosting platform unreachable".to_string())
    );
    assert_eq!(CallbackReply::Granted(AccessTokenBundle::new()).message(), None);
}
