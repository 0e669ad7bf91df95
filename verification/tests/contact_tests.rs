use portfolio::contact::{
    classify_network_error, encode_payload, http_error_text, ContactFields, ContactForm,
    StatusMessage, SubmitAction, SubmitOutcome,
};

fn filled_form() -> ContactForm {
    let mut f = ContactForm::new();
    f.fields.name = "Ada".to_string();
    f.fields.email = "ada@example.com".to_string();
    f.fields.subject = "Hello".to_string();
    f.fields.message = "Nice site".to_string();
    f
}

#[test]
fn payload_is_the_exact_json_object() {
    let fields = ContactFields {
        name: "Ada".to_string(),
        email: "ada@example.com".to_string(),
        subject: "Hello".to_string(),
        message: "Nice site".to_string(),
    };
    let bytes = encode_payload(&fields, "tok123");
    let expected = "{\"name\":\"Ada\",\"email\":\"ada@example.com\",\"subject\":\"Hello\",\
                    \"message\":\"Nice site\",\"g-recaptcha-response\":\"tok123\"}";
    assert_eq!(String::from_utf8(bytes).unwrap(), expected);
}

#[test]
fn payload_escapes_like_json() {
    let fields = ContactFields {
        name: "A\"B\\C".to_string(),
        email: "x".to_string(),
        subject: "line\nbreak\ttab".to_string(),
        message: "bell\u{07}end".to_string(),
    };
    let bytes = encode_payload(&fields, "t");
    let expected = "{\"name\":\"A\\\"B\\\\C\",\"email\":\"x\",\"subject\":\"line\\nbreak\\ttab\",\
                    \"message\":\"bell\\u0007end\",\"g-recaptcha-response\":\"t\"}";
    assert_eq!(String::from_utf8(bytes).unwrap(), expected);
}

#[test]
fn payload_passes_multibyte_text_through() {
    let fields = ContactFields {
        name: "ΣΣΑΣ".to_string(),
        email: "e".to_string(),
        subject: "s".to_string(),
        message: "m".to_string(),
    };
    let bytes = encode_payload(&fields, "t");
    let text = String::from_utf8(bytes).unwrap();
    assert!(text.contains("\"name\":\"ΣΣΑΣ\""));
}

#[test]
fn empty_captcha_blocks_without_network_call() {
    let mut f = filled_form();
    let action = f.submit("");
    assert!(matches!(action, SubmitAction::Blocked));
    assert!(!f.busy);
    let status = f.status.as_ref().expect("a validation message is shown");
    assert_eq!(status.text(), "Please complete the reCAPTCHA verification.");
    assert!(!status.is_success());
    // The fields are kept for the user to retry.
    assert_eq!(f.fields.name, "Ada");
}

#[test]
fn submit_while_busy_is_a_no_op() {
    let mut f = filled_form();
    let first = f.submit("tok");
    assert!(matches!(first, SubmitAction::Post(_)));
    assert!(f.busy);
    let second = f.submit("tok");
    assert!(matches!(second, SubmitAction::Ignored));
    assert!(f.busy);
    assert!(f.status.is_none());
}

#[test]
fn successful_response_clears_the_form() {
    let mut f = filled_form();
    let action = f.submit("tok");
    assert!(matches!(action, SubmitAction::Post(_)));
    f.resolve(SubmitOutcome::Http {
        status: 200,
        body: "{\"result\":\"success\"}".to_string(),
    });
    assert!(!f.busy);
    assert_eq!(f.fields.name, "");
    assert_eq!(f.fields.email, "");
    assert_eq!(f.fields.subject, "");
    assert_eq!(f.fields.message, "");
    let status = f.status.as_ref().expect("a success message is shown");
    assert!(status.is_success());
    assert!(status.text().contains("success"));
}

#[test]
fn unparseable_success_body_still_counts_as_success() {
    let mut f = filled_form();
    f.submit("tok");
    f.resolve(SubmitOutcome::Http { status: 204, body: "not json".to_string() });
    assert!(f.status.as_ref().unwrap().is_success());
    assert_eq!(f.fields.name, "");
}

#[test]
fn http_error_keeps_the_form_for_retry() {
    let mut f = filled_form();
    f.submit("tok");
    f.resolve(SubmitOutcome::Http { status: 500, body: "Unknown error".to_string() });
    assert!(!f.busy);
    assert_eq!(f.fields.name, "Ada");
    let status = f.status.as_ref().expect("an error message is shown");
    assert!(!status.is_success());
    assert_eq!(
        status.text(),
        "Error sending message: HTTP 500 error: Unknown error"
    );
}

#[test]
fn cors_failures_get_their_own_explanation() {
    let mut f = filled_form();
    f.submit("tok");
    f.resolve(SubmitOutcome::Network { message: "TypeError: Failed to fetch".to_string() });
    let text = f.status.as_ref().unwrap().text();
    assert_eq!(
        text,
        "Error sending message: CORS error: Make sure Google Apps Script is properly \
         configured and deployed as a web app with 'Anyone' access."
    );
}

#[test]
fn other_network_failures_report_the_transport_message() {
    let mut f = filled_form();
    f.submit("tok");
    f.resolve(SubmitOutcome::Network { message: "connection reset".to_string() });
    assert_eq!(
        f.status.as_ref().unwrap().text(),
        "Error sending message: Network error: connection reset"
    );
}

#[test]
fn empty_fields_still_form_a_complete_object() {
    let fields = ContactFields {
        name: String::new(),
        email: String::new(),
        subject: String::new(),
        message: String::new(),
    };
    let bytes = encode_payload(&fields, "tok");
    assert_eq!(
        String::from_utf8(bytes).unwrap(),
        "{\"name\":\"\",\"email\":\"\",\"subject\":\"\",\"message\":\"\",\"g-recaptcha-response\":\"tok\"}"
    );
}

#[test]
fn error_texts_are_formatted_exactly() {
    assert_eq!(http_error_text(404, "gone"), "HTTP 404 error: gone");
    assert_eq!(http_error_text(0, ""), "HTTP 0 error: ");
    assert_eq!(http_error_text(65535, "x"), "HTTP 65535 error: x");
    assert_eq!(
        classify_network_error("a CORS policy blocked it"),
        "CORS error: Make sure Google Apps Script is properly configured and deployed \
         as a web app with 'Anyone' access."
    );
    assert_eq!(classify_network_error("timed out"), "Network error: timed out");
}

#[test]
fn retry_after_failure_can_succeed() {
    let mut f = filled_form();
    f.submit("tok");
    f.resolve(SubmitOutcome::Http { status: 500, body: "nope".to_string() });
    assert!(!f.busy);
    let again = f.submit("tok2");
    assert!(matches!(again, SubmitAction::Post(_)));
    assert!(f.status.is_none());
    f.resolve(SubmitOutcome::Http { status: 200, body: "{\"result\":\"success\"}".to_string() });
    assert!(f.status.as_ref().unwrap().is_success());
}

#[test]
fn status_text_matches_variant() {
    assert_eq!(
        StatusMessage::Sent.text(),
        "Message submitted successfully. I'll get back to you soon."
    );
    assert_eq!(
        StatusMessage::CaptchaRequired.text(),
        "Please complete the reCAPTCHA verification."
    );
    assert_eq!(StatusMessage::Failed("boom".to_string()).text(), "boom");
}
