use fetcher::{body_is_html, body_of, check_status, html_verdict, is_success, NetworkError, Response};

#[test]
fn doctype_scenario_is_html() {
    assert!(body_is_html("<!doctype html></html>"));
    assert_eq!(html_verdict(Ok("<!doctype html></html>".to_string())), Ok(true));
}

#[test]
fn json_scenario_is_not_html() {
    assert!(!body_is_html("{\"name\":\"Legolas\"}"));
    assert_eq!(html_verdict(Ok("{\"name\":\"Legolas\"}".to_string())), Ok(false));
}

#[test]
fn the_prefix_alone_is_html() {
    assert!(body_is_html("<!doctype html>"));
}

#[test]
fn a_body_shorter_than_the_prefix_is_not_html() {
    assert!(!body_is_html(""));
    assert!(!body_is_html("<"));
    assert!(!body_is_html("<!doctype html"));
}

#[test]
fn the_prefix_is_compared_by_case() {
    assert!(!body_is_html("<!DOCTYPE html><html></html>"));
    assert!(!body_is_html("<!Doctype html>"));
    assert!(!body_is_html("<!doctype HTML>"));
}

#[test]
fn nothing_is_trimmed_in_front_of_the_prefix() {
    assert!(!body_is_html(" <!doctype html>"));
    assert!(!body_is_html("\n<!doctype html>"));
    assert!(!body_is_html("\u{feff}<!doctype html>"));
}

#[test]
fn a_difference_in_the_last_character_of_the_prefix_counts() {
    assert!(!body_is_html("<!doctype html <html>"));
    assert!(!body_is_html("<!doctype htm1>"));
    assert!(!body_is_html("<?doctype html>"));
}

#[test]
fn what_follows_the_prefix_does_not_matter() {
    assert!(body_is_html("<!doctype html>\u{e9}\u{1f600}"));
    assert!(body_is_html("<!doctype html><!doctype html>"));
    assert!(body_is_html("<!doctype html>\0"));
}

#[test]
fn characters_wider_than_a_byte_are_not_taken_for_the_prefix() {
    assert!(!body_is_html("\u{e9}!doctype html>"));
    assert!(!body_is_html("<!doctype html\u{203a}"));
}

#[test]
fn success_is_two_hundred_to_two_hundred_ninety_nine() {
    assert!(!is_success(0));
    assert!(!is_success(199));
    assert!(is_success(200));
    assert!(is_success(204));
    assert!(is_success(299));
    assert!(!is_success(300));
    assert!(!is_success(404));
    assert!(!is_success(500));
    assert!(!is_success(u16::MAX));
}

#[test]
fn check_status_passes_success_and_fails_the_rest() {
    assert_eq!(check_status(200), Ok(()));
    assert_eq!(check_status(299), Ok(()));
    assert_eq!(check_status(199), Err(NetworkError));
    assert_eq!(check_status(300), Err(NetworkError));
    assert_eq!(check_status(301), Err(NetworkError));
    assert_eq!(check_status(404), Err(NetworkError));
    assert_eq!(check_status(503), Err(NetworkError));
}

#[test]
fn body_of_hands_out_the_body_of_a_successful_response() {
    let reply = Ok(Response { status: 200, body: "{\"name\":\"Legolas\"}".to_string() });
    assert_eq!(body_of(reply), Ok("{\"name\":\"Legolas\"}".to_string()));
}

#[test]
fn body_of_fails_on_an_error_status_and_on_a_failure() {
    let not_found = Ok(Response { status: 404, body: "<!doctype html>".to_string() });
    assert_eq!(body_of(not_found), Err(NetworkError));
    let moved = Ok(Response { status: 301, body: String::new() });
    assert_eq!(body_of(moved), Err(NetworkError));
    assert_eq!(body_of(Err(NetworkError)), Err(NetworkError));
}

#[test]
fn html_verdict_hands_on_a_failure() {
    assert_eq!(html_verdict(Err(NetworkError)), Err(NetworkError));
}

#[test]
fn every_failure_of_the_client_is_a_network_error() {
    let failure = reqwest::Client::new()
        .get("this is no url")
        .build()
        .expect_err("a request cannot be built without a URL");
    assert_eq!(NetworkError::from(failure), NetworkError);
}
