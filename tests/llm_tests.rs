use git_automessage::config::Config;
use git_automessage::llm::{
    AttemptFailure, AttemptOutcome, GenerationError, MessageGenerator, RetryDecision,
    MAX_ATTEMPTS, RETRY_DELAY_MS,
};

fn config(base_url: &str, api_key: &str, model: &str) -> Config {
    let mut c = Config::with_provider("openai", api_key);
    c.llm.base_url = base_url.to_string();
    c.llm.model = model.to_string();
    c
}

#[test]
fn test_message_generator_creation() {
    let g = MessageGenerator::new(&config("https://api.openai.com/v1", "test-api-key", "gpt-3.5-turbo"))
        .unwrap();
    assert_eq!(g.api_key, "test-api-key");
    assert_eq!(g.base_url, "https://api.openai.com/v1");
    assert_eq!(g.model, "gpt-3.5-turbo");
}

#[test]
fn test_config_validation() {
    for c in [
        config("", "k", "m"),
        config("https://api.openai.com/v1", "", "gpt-3.5-turbo"),
        config("https://u", "k", ""),
        config("api.openai.com/v1", "k", "m"),
        config("default_baseurl", "k", "m"),
    ] {
        assert!(matches!(MessageGenerator::new(&c), Err(GenerationError::ConfigurationError(_))));
    }
}

#[test]
fn clean_response_strips_outer_fences_and_space() {
    assert_eq!(MessageGenerator::clean_response("  feat: add x \n"), "feat: add x");
    assert_eq!(MessageGenerator::clean_response("```\nfeat: add x\n```"), "feat: add x");
    assert_eq!(MessageGenerator::clean_response("``````"), "");
    assert_eq!(MessageGenerator::clean_response("```"), "");
    assert_eq!(MessageGenerator::clean_response("a ``` b"), "a ``` b");
    assert_eq!(MessageGenerator::clean_response("``````x``````"), "```x```");
    assert_eq!(MessageGenerator::clean_response(""), "");
}

#[test]
fn retries_twice_then_fails() {
    let fail = || AttemptOutcome::Failed(AttemptFailure::TransportError("down".to_string()));
    let mut attempts = 0u32;
    let result = loop {
        attempts += 1;
        match MessageGenerator::next_step(attempts, fail()) {
            RetryDecision::Retry(ms) => assert_eq!(ms, RETRY_DELAY_MS),
            other => break other,
        }
    };
    assert_eq!(attempts, MAX_ATTEMPTS);
    assert_eq!(attempts, 3);
    match result {
        RetryDecision::GiveUp(GenerationError::GenerationFailed(AttemptFailure::TransportError(m))) => {
            assert_eq!(m, "down")
        }
        other => panic!("unexpected {other:?}"),
    }
}

#[test]
fn timeout_is_reported_after_last_attempt() {
    let d = MessageGenerator::next_step(3, AttemptOutcome::Failed(AttemptFailure::Timeout));
    assert!(matches!(d, RetryDecision::GiveUp(GenerationError::GenerationFailed(AttemptFailure::Timeout))));
}

#[test]
fn success_is_never_retried() {
    for attempt in 1..=3 {
        match MessageGenerator::next_step(attempt, AttemptOutcome::Success(String::new())) {
            RetryDecision::Done(t) => assert_eq!(t, ""),
            other => panic!("unexpected {other:?}"),
        }
    }
    match MessageGenerator::next_step(2, AttemptOutcome::Success(" ```ok``` ".to_string())) {
        RetryDecision::Done(t) => assert_eq!(t, "ok"),
        other => panic!("unexpected {other:?}"),
    }
}
