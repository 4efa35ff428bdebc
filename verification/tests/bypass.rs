use dictionary::cloudflare_bypasser::{
    is_challenge_page, BypassErr, BypassStep, Bypasser, RETRY_DELAY_SECS,
};

fn challenge_body() -> String {
    r#"<html><form id="challenge-form" action="/cdn-cgi/challenge"></form></html>"#.to_string()
}

fn content_body(text: &str) -> String {
    format!("<html><body>{}</body></html>", text)
}

#[test]
fn detects_challenge_marker() {
    assert!(is_challenge_page(&challenge_body()));
    assert!(!is_challenge_page(&content_body("definition of cat")));
    // The marker needs the action attribute's closing quote.
    assert!(!is_challenge_page(r#"id="challenge-form" action="unterminated"#));
    assert!(is_challenge_page(r#"id="challenge-form" action="""#));
}

#[test]
fn default_budget_and_delay() {
    let bypasser = Bypasser::new();
    assert_eq!(bypasser.max_tries(), 5);
    assert_eq!(RETRY_DELAY_SECS, 5);
}

#[test]
fn challenge_bypass_scenario() {
    // First 2 responses are challenge pages, the 3rd is real content:
    // the 3rd body comes back after exactly 3 requests, with the fixed
    // delay slept between each adjacent pair.
    let bypasser = Bypasser::new();
    let responses: Vec<Result<String, String>> = vec![
        Ok(challenge_body()),
        Ok(challenge_body()),
        Ok(content_body("the real page")),
        Ok(content_body("never fetched")),
        Ok(content_body("never fetched")),
        Ok(content_body("never fetched")),
    ];
    let run = bypasser.get(&responses);
    assert_eq!(run.outcome, Ok(content_body("the real page")));
    assert_eq!(run.requests, 3);
    assert_eq!(run.sleeps, 2);
}

#[test]
fn max_retries_scenario() {
    // Every response up to the whole budget is a challenge page: the
    // fetch fails with the budget exhausted after max_tries + 1 requests.
    let bypasser = Bypasser::new();
    let responses: Vec<Result<String, String>> =
        (0..6).map(|_| Ok(challenge_body())).collect();
    let run = bypasser.get(&responses);
    assert_eq!(run.outcome, Err(BypassErr::MaxTriesErr));
    assert_eq!(run.requests, 6);
    // The delay is slept only between adjacent requests, never after
    // the last one.
    assert_eq!(run.sleeps, 5);
}

#[test]
fn step_decisions_drive_an_online_loop() {
    let bypasser = Bypasser::new();

    // A challenge with budget remaining asks for one delay and a retry.
    match bypasser.on_response(0, &Ok(challenge_body())) {
        BypassStep::SleepAndRetry => {}
        other => panic!("unexpected step: {:?}", other),
    }

    // Ordinary content finishes the run.
    match bypasser.on_response(1, &Ok(content_body("page"))) {
        BypassStep::Finished(run) => {
            assert_eq!(run.outcome, Ok(content_body("page")));
            assert_eq!(run.requests, 2);
            assert_eq!(run.sleeps, 1);
        }
        other => panic!("unexpected step: {:?}", other),
    }

    // A challenge on the last allowed attempt exhausts the budget with
    // no further delay.
    match bypasser.on_response(5, &Ok(challenge_body())) {
        BypassStep::Finished(run) => {
            assert_eq!(run.outcome, Err(BypassErr::MaxTriesErr));
            assert_eq!(run.requests, 6);
            assert_eq!(run.sleeps, 5);
        }
        other => panic!("unexpected step: {:?}", other),
    }

    // A transport error finishes at once.
    match bypasser.on_response(0, &Err("refused".to_string())) {
        BypassStep::Finished(run) => {
            assert_eq!(run.outcome, Err(BypassErr::GetReqErr("refused".to_string())));
            assert_eq!(run.requests, 1);
            assert_eq!(run.sleeps, 0);
        }
        other => panic!("unexpected step: {:?}", other),
    }
}

#[test]
fn transport_error_is_not_retried() {
    let bypasser = Bypasser::new();
    let responses: Vec<Result<String, String>> = vec![
        Err("connection refused".to_string()),
        Ok(content_body("unreachable")),
        Ok(content_body("unreachable")),
        Ok(content_body("unreachable")),
        Ok(content_body("unreachable")),
        Ok(content_body("unreachable")),
    ];
    let run = bypasser.get(&responses);
    assert_eq!(
        run.outcome,
        Err(BypassErr::GetReqErr("connection refused".to_string()))
    );
    assert_eq!(run.requests, 1);
    assert_eq!(run.sleeps, 0);
}

#[test]
fn first_response_clean_needs_one_request() {
    let bypasser = Bypasser::new();
    let responses: Vec<Result<String, String>> = vec![
        Ok(content_body("immediate")),
        Ok(challenge_body()),
        Ok(challenge_body()),
        Ok(challenge_body()),
        Ok(challenge_body()),
        Ok(challenge_body()),
    ];
    let run = bypasser.get(&responses);
    assert_eq!(run.outcome, Ok(content_body("immediate")));
    assert_eq!(run.requests, 1);
    assert_eq!(run.sleeps, 0);
}
