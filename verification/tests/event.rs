use atc::event::{generate_fake_signature, RpcEvent};
use atc::plan::{Action, Plan, Response};
use atc::service::GlobalState;

fn reply(plan: Plan) -> Response {
    match plan.action {
        Action::Reply(response) => response,
        Action::Forward(..) => panic!("the plan forwards"),
    }
}

fn header(response: &Response, name: &str) -> Option<String> {
    response
        .headers()
        .into_iter()
        .find(|(header, _)| header == name)
        .map(|(_, value)| value)
}

#[test]
fn event_event_responses() {
    let rate_limit_res = reply(RpcEvent::RateLimit.respond(&[], &mut GlobalState::default()));

    assert_eq!(rate_limit_res.status, 429);
    assert_eq!(
        header(&rate_limit_res, "X-ATC-Event"),
        Some("RateLimit".to_string())
    );

    let timeout_res = reply(RpcEvent::Timeout.respond(&[], &mut GlobalState::default()));

    assert_eq!(timeout_res.status, 408);
    assert_eq!(
        header(&timeout_res, "X-ATC-Event"),
        Some("Timeout".to_string())
    );
}

#[test]
fn events_event_responses() {
    assert_eq!(
        reply(RpcEvent::RateLimit.respond(&[], &mut GlobalState::default())).status,
        429,
    );
    assert_eq!(
        reply(RpcEvent::Timeout.respond(&[], &mut GlobalState::default())).status,
        408,
    );
}

#[test]
fn event_fake_signature() {
    let sig1 = generate_fake_signature();
    let sig2 = generate_fake_signature();

    assert_ne!(sig1, sig2);
    assert_eq!(bs58::decode(sig1).into_vec().unwrap().len(), 64);
    assert_eq!(bs58::decode(sig2).into_vec().unwrap().len(), 64);
}

#[test]
fn events_fake_signature() {
    let sig1 = generate_fake_signature();
    let sig2 = generate_fake_signature();

    assert_ne!(sig1, sig2);
    assert_eq!(bs58::decode(sig1).into_vec().unwrap().len(), 64);
    assert_eq!(bs58::decode(sig2).into_vec().unwrap().len(), 64);
}

#[test]
fn event_random_events() {
    let events1: Vec<RpcEvent> = (0..10).map(|_| RpcEvent::random()).collect();
    assert!(!events1.is_empty());

    let events2: Vec<RpcEvent> = (0..10).map(|_| RpcEvent::random()).collect();
    assert!(!events2.is_empty());

    assert_ne!(events1, events2);
}

#[test]
fn events_random_events() {
    let events1: Vec<RpcEvent> = (0..10).map(|_| RpcEvent::random()).collect();
    assert!(!events1.is_empty());

    let events2: Vec<RpcEvent> = (0..10).map(|_| RpcEvent::random()).collect();
    assert!(!events2.is_empty());

    assert_ne!(events1, events2);
}

#[test]
fn fake_signature_decodes_to_letters_and_digits() {
    for _ in 0..20 {
        let signature = generate_fake_signature();
        let seed = bs58::decode(&signature).into_vec().unwrap();
        assert_eq!(seed.len(), 64);
        assert!(seed.iter().all(|byte| byte.is_ascii_alphanumeric()));
        assert_ne!(signature.as_bytes(), &seed[..]);
    }
}

#[test]
fn random_picks_only_the_three_random_events() {
    let mut seen = [false; 3];
    for _ in 0..300 {
        match RpcEvent::random() {
            RpcEvent::Latency => seen[0] = true,
            RpcEvent::RateLimit => seen[1] = true,
            RpcEvent::Timeout => seen[2] = true,
            other => panic!("{:?} is not drawn at random", other),
        }
    }
    assert_eq!(seen, [true, true, true]);
}

#[test]
fn from_index_maps_the_pick() {
    assert_eq!(RpcEvent::from_index(0), RpcEvent::Latency);
    assert_eq!(RpcEvent::from_index(1), RpcEvent::RateLimit);
    assert_eq!(RpcEvent::from_index(2), RpcEvent::Timeout);
    assert_eq!(RpcEvent::from_index(3), RpcEvent::Timeout);
    assert_eq!(RpcEvent::from_index(u64::MAX), RpcEvent::Timeout);
}

#[test]
fn event_names() {
    assert_eq!(RpcEvent::FalsifiedSignature.name(), "FalsifiedSignature");
    assert_eq!(RpcEvent::Latency.name(), "Latency");
    assert_eq!(RpcEvent::RateLimit.name(), "RateLimit");
    assert_eq!(RpcEvent::Timeout.name(), "Timeout");
    assert_eq!(RpcEvent::UnconfirmedSignature.name(), "UnconfirmedSignature");
}

#[test]
fn respond_rate_limit_is_immediate_and_empty() {
    let mut state = GlobalState::default();
    let plan = RpcEvent::RateLimit.respond(b"{}", &mut state);
    assert_eq!(plan.delay, 0);
    assert_eq!(plan.event(), Some(RpcEvent::RateLimit));
    let response = reply(plan);
    assert_eq!(response.status, 429);
    assert_eq!(response.body, "");
    assert!(!response.json);
    assert_eq!(header(&response, "Content-Type"), None);
}

#[test]
fn respond_timeout_waits_15_to_20_seconds() {
    let mut shortest = u64::MAX;
    let mut longest = 0;
    for _ in 0..300 {
        let plan = RpcEvent::Timeout.respond(b"{}", &mut GlobalState::default());
        assert!((15..=20).contains(&plan.delay));
        shortest = shortest.min(plan.delay);
        longest = longest.max(plan.delay);
        let response = reply(plan);
        assert_eq!(response.status, 408);
        assert_eq!(response.body, "");
        assert!(!response.json);
    }
    assert_eq!((shortest, longest), (15, 20));
}

#[test]
fn respond_latency_waits_5_to_10_seconds_then_forwards() {
    let mut state = GlobalState::default();
    state.rpc_endpoint = "http://node:8899".to_string();
    let mut shortest = u64::MAX;
    let mut longest = 0;
    for _ in 0..300 {
        let plan = RpcEvent::Latency.respond(b"payload", &mut state);
        assert!((5..=10).contains(&plan.delay));
        shortest = shortest.min(plan.delay);
        longest = longest.max(plan.delay);
        match plan.action {
            Action::Forward(outbound, tag) => {
                assert_eq!(outbound.endpoint, "http://node:8899");
                assert_eq!(outbound.body, b"payload".to_vec());
                assert_eq!(tag, Some(RpcEvent::Latency));
            }
            Action::Reply(_) => panic!("latency answers by itself"),
        }
    }
    assert_eq!((shortest, longest), (5, 10));
}

#[test]
fn respond_falsified_registers_the_signature() {
    let mut state = GlobalState::default();
    let plan = RpcEvent::FalsifiedSignature.respond(b"{}", &mut state);
    assert_eq!(plan.delay, 0);
    let response = reply(plan);
    assert_eq!(response.status, 200);
    assert!(response.json);
    assert_eq!(
        header(&response, "X-ATC-Event"),
        Some("FalsifiedSignature".to_string())
    );
    assert_eq!(
        header(&response, "Content-Type"),
        Some("application/json".to_string())
    );
    let body: serde_json::Value = serde_json::from_str(&response.body).unwrap();
    let signature = body.get("result").unwrap().as_str().unwrap();
    assert!(state.fake_signatures.contains(signature));
    assert_eq!(bs58::decode(signature).into_vec().unwrap().len(), 64);
    assert_eq!(body.get("jsonrpc").unwrap().as_str(), Some("2.0"));
    assert_eq!(body.get("id").unwrap().as_u64(), Some(1));
    assert_eq!(body.as_object().unwrap().len(), 3);
}

#[test]
fn respond_unconfirmed_waits_5_seconds() {
    let mut state = GlobalState::default();
    let plan = RpcEvent::UnconfirmedSignature.respond(b"{}", &mut state);
    assert_eq!(plan.delay, 5);
    let response = reply(plan);
    assert_eq!(response.status, 200);
    assert!(response.json);
    assert_eq!(
        response.body,
        r#"{"id":1,"jsonrpc":"2.0","result":{"context":{"apiVersion":"1.10.24","slot":1},"value":[null]}}"#
    );
    let expected: serde_json::Value = serde_json::from_str(
        r#"{
            "jsonrpc": "2.0",
            "result": {
                "context": {
                    "apiVersion": "1.10.24",
                    "slot": 1
                },
                "value": [null]
            },
            "id": 1
        }"#,
    )
    .unwrap();
    let body: serde_json::Value = serde_json::from_str(&response.body).unwrap();
    assert_eq!(body, expected);
    assert_eq!(expected.to_string(), response.body);
}
