use hubakc::remote::{classify_response, keys_url, FetchOutcome};

fn classify(status: i32, reason: &str, body: &str) -> FetchOutcome {
    classify_response(status, reason.to_string(), body.to_string())
}

#[test]
fn keys_url_names_the_identity() {
    assert_eq!(keys_url("alice"), "https://github.com/alice.keys");
    assert_eq!(keys_url("a-b_c"), "https://github.com/a-b_c.keys");
    assert_eq!(keys_url(""), "https://github.com/.keys");
}

#[test]
fn status_from_200_to_299_carries_the_body() {
    assert_eq!(classify(200, "OK", "ssh-rsa AAA\n"), FetchOutcome::Text("ssh-rsa AAA\n".to_string()));
    assert_eq!(classify(204, "No Content", ""), FetchOutcome::Text(String::new()));
    assert_eq!(classify(299, "", "x"), FetchOutcome::Text("x".to_string()));
}

#[test]
fn status_404_means_that_the_identity_is_unknown() {
    assert_eq!(classify(404, "Not Found", "Not Found"), FetchOutcome::NotFound);
}

#[test]
fn any_other_status_is_a_failure_with_its_reason() {
    assert_eq!(
        classify(500, "Internal Server Error", "oops"),
        FetchOutcome::TransientFailure("Internal Server Error".to_string())
    );
    assert_eq!(classify(199, "Early", "x"), FetchOutcome::TransientFailure("Early".to_string()));
    assert_eq!(
        classify(300, "Multiple Choices", "x"),
        FetchOutcome::TransientFailure("Multiple Choices".to_string())
    );
    assert_eq!(classify(403, "Forbidden", "x"), FetchOutcome::TransientFailure("Forbidden".to_string()));
    assert_eq!(classify(0, "", ""), FetchOutcome::TransientFailure(String::new()));
    assert_eq!(classify(-1, "?", ""), FetchOutcome::TransientFailure("?".to_string()));
}

#[test]
fn clone_of_a_fetch_outcome_equals_it() {
    let text = FetchOutcome::Text("k".to_string());
    let failure = FetchOutcome::TransientFailure("timeout".to_string());
    assert_eq!(text.clone(), text);
    assert_eq!(failure.clone(), failure);
    assert_eq!(FetchOutcome::NotFound.clone(), FetchOutcome::NotFound);
}
