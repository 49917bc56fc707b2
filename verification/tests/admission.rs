use a2a_wasm::a2a::{A2ARequest, MessageObject, MessagePart};
use a2a_wasm::admission::{
    decide_admission, AdmissionLimits, AdmissionOutcome, TrustState,
    DEFAULT_MAX_TOKENS_PER_REQUEST,
};
use a2a_wasm::bucket::RateState;

fn limits() -> AdmissionLimits {
    AdmissionLimits {
        max_tokens_per_request: DEFAULT_MAX_TOKENS_PER_REQUEST,
        token_bucket_capacity: 1000,
        token_bucket_rate: 10,
    }
}

fn decoded(task_id: &str, content: &str, capabilities: &[&str]) -> Result<A2ARequest, String> {
    Ok(A2ARequest {
        task_id: task_id.to_string(),
        message_object: MessageObject {
            role: "user".to_string(),
            parts: vec![MessagePart::Text { text: content.to_string() }],
        },
        capabilities: capabilities.iter().map(|cap| cap.to_string()).collect(),
        metadata: None,
    })
}

#[test]
fn default_ceiling_is_one_hundred_thousand_tokens() {
    assert_eq!(DEFAULT_MAX_TOKENS_PER_REQUEST, 100_000);
}

#[test]
fn well_formed_request_is_admitted_and_charged() {
    let mut rate = RateState::new(1000, 100);
    let mut trust = TrustState::new();
    let body = decoded("task-123", "Hello, world!", &["a2a"]);
    let outcome = decide_admission(&body, &limits(), &mut rate, &mut trust, 100, true);
    assert!(outcome.is_admitted());
    assert!(matches!(outcome, AdmissionOutcome::Admitted { estimated_tokens: 6 }));
    assert_eq!(rate.stored_tokens, 994);
    assert_eq!(rate.last_update_time, 100);
    assert_eq!(trust.violation_count, 0);
    assert!(outcome.into_rejection().is_none());
}

#[test]
fn malformed_body_is_rejected_without_touching_state() {
    let mut rate = RateState { stored_tokens: 5, last_update_time: 100 };
    let mut trust = TrustState { violation_count: 3 };
    let body: Result<A2ARequest, String> = Err("expected value".to_string());
    let outcome = decide_admission(&body, &limits(), &mut rate, &mut trust, 200, true);
    assert!(!outcome.is_admitted());
    match &outcome {
        AdmissionOutcome::RejectedMalformed { reason } => {
            assert_eq!(reason, "invalid JSON: expected value")
        }
        other => panic!("unexpected outcome: {:?}", other),
    }
    assert_eq!(rate.stored_tokens, 5);
    assert_eq!(rate.last_update_time, 100);
    assert_eq!(trust.violation_count, 3);
    let rejection = outcome.into_rejection().unwrap();
    assert_eq!(rejection.status, 400);
    assert_eq!(rejection.error, "invalid JSON: expected value");
    assert!(rejection.details.is_empty());
}

#[test]
fn invalid_request_counts_a_violation_and_leaves_the_bucket_alone() {
    let mut rate = RateState { stored_tokens: 5, last_update_time: 100 };
    let mut trust = TrustState { violation_count: 3 };
    let body = decoded("", "hi", &["a2a", "bogus"]);
    let outcome = decide_admission(&body, &limits(), &mut rate, &mut trust, 200, true);
    match &outcome {
        AdmissionOutcome::RejectedValidation { errors } => assert_eq!(
            errors,
            &vec!["task_id is required".to_string(), "invalid capability: bogus".to_string()]
        ),
        other => panic!("unexpected outcome: {:?}", other),
    }
    assert_eq!(rate.stored_tokens, 5);
    assert_eq!(rate.last_update_time, 100);
    assert_eq!(trust.violation_count, 4);
    let rejection = outcome.into_rejection().unwrap();
    assert_eq!(rejection.status, 400);
    assert_eq!(rejection.error, "invalid_a2a_payload");
    assert_eq!(
        rejection.details,
        vec!["task_id is required".to_string(), "invalid capability: bogus".to_string()]
    );
}

#[test]
fn request_over_the_ceiling_is_rejected_without_touching_state() {
    let tight = AdmissionLimits { max_tokens_per_request: 5, ..limits() };
    let mut rate = RateState { stored_tokens: 1000, last_update_time: 100 };
    let mut trust = TrustState { violation_count: 3 };
    let body = decoded("task-123", "Hello, world!", &["a2a"]);
    let outcome = decide_admission(&body, &tight, &mut rate, &mut trust, 200, true);
    assert!(matches!(outcome, AdmissionOutcome::RejectedTokenLimit { estimated_tokens: 6 }));
    assert_eq!(rate.stored_tokens, 1000);
    assert_eq!(rate.last_update_time, 100);
    assert_eq!(trust.violation_count, 3);
    let rejection = outcome.into_rejection().unwrap();
    assert_eq!(rejection.status, 400);
    assert_eq!(rejection.error, "Token limit exceeded");
    assert!(rejection.details.is_empty());
}

#[test]
fn request_at_the_ceiling_passes_it() {
    let exact = AdmissionLimits { max_tokens_per_request: 6, ..limits() };
    let mut rate = RateState::new(1000, 0);
    let mut trust = TrustState::new();
    let body = decoded("task-123", "Hello, world!", &["a2a"]);
    let outcome = decide_admission(&body, &exact, &mut rate, &mut trust, 0, true);
    assert!(outcome.is_admitted());
}

#[test]
fn empty_bucket_rejects_counts_a_violation_and_keeps_the_replenishment() {
    let mut rate = RateState { stored_tokens: 0, last_update_time: 100 };
    let mut trust = TrustState { violation_count: 0 };
    let slow = AdmissionLimits { token_bucket_rate: 1, ..limits() };
    let body = decoded("task-123", "Hello, world!", &["a2a"]);
    let outcome = decide_admission(&body, &slow, &mut rate, &mut trust, 103, true);
    assert!(matches!(outcome, AdmissionOutcome::RejectedRateLimited));
    assert_eq!(rate.stored_tokens, 3);
    assert_eq!(rate.last_update_time, 103);
    assert_eq!(trust.violation_count, 1);
    let rejection = outcome.into_rejection().unwrap();
    assert_eq!(rejection.status, 429);
    assert_eq!(rejection.error, "Rate limit exceeded");
    assert!(rejection.details.is_empty());

    let outcome = decide_admission(&body, &slow, &mut rate, &mut trust, 106, true);
    assert!(outcome.is_admitted());
    assert_eq!(rate.stored_tokens, 0);
    assert_eq!(rate.last_update_time, 106);
    assert_eq!(trust.violation_count, 1);
}

#[test]
fn low_trust_rejects_after_the_bucket_was_charged_and_counts_no_violation() {
    let mut rate = RateState::new(1000, 100);
    let mut trust = TrustState { violation_count: 5 };
    let body = decoded("task-123", "Hello, world!", &["a2a"]);
    let outcome = decide_admission(&body, &limits(), &mut rate, &mut trust, 100, false);
    assert!(matches!(outcome, AdmissionOutcome::RejectedLowTrust));
    assert_eq!(rate.stored_tokens, 994);
    assert_eq!(trust.violation_count, 5);
    let rejection = outcome.into_rejection().unwrap();
    assert_eq!(rejection.status, 403);
    assert_eq!(rejection.error, "Trust score too low");
    assert!(rejection.details.is_empty());
}

#[test]
fn earlier_stages_decide_before_trust_is_looked_at() {
    let mut rate = RateState::new(1000, 100);
    let mut trust = TrustState { violation_count: 5 };
    let malformed: Result<A2ARequest, String> = Err("expected value".to_string());
    let outcome = decide_admission(&malformed, &limits(), &mut rate, &mut trust, 100, false);
    assert!(matches!(outcome, AdmissionOutcome::RejectedMalformed { .. }));
    let invalid = decoded("", "hi", &[]);
    let outcome = decide_admission(&invalid, &limits(), &mut rate, &mut trust, 100, false);
    assert!(matches!(outcome, AdmissionOutcome::RejectedValidation { .. }));
    assert_eq!(trust.violation_count, 6);
}

#[test]
fn violations_are_counted_one_at_a_time_and_stop_at_the_top() {
    let mut trust = TrustState::new();
    assert_eq!(trust.violation_count, 0);
    trust.record_violation();
    assert_eq!(trust.violation_count, 1);
    trust.record_violation();
    assert_eq!(trust.violation_count, 2);
    let mut full = TrustState { violation_count: u32::MAX - 1 };
    full.record_violation();
    assert_eq!(full.violation_count, u32::MAX);
    full.record_violation();
    assert_eq!(full.violation_count, u32::MAX);
}
