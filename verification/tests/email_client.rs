use std::time::Duration;
use zero2prod::domain::SubscriberEmail;
use zero2prod::email_client::{
    DeliveryError, EmailClient, SendEmailRequest, SEND_METHOD, SEND_PATH, TOKEN_HEADER,
};
use zero2prod::secret::SecretText;

fn email(address: &str) -> SubscriberEmail {
    SubscriberEmail::parse(address.to_string()).unwrap()
}

fn client(base_url: &str) -> EmailClient {
    EmailClient::new(
        base_url.to_string(),
        email("sender@example.com"),
        SecretText::new("server-token".to_string()),
        Duration::from_millis(200),
    )
}

#[test]
fn send_email_sends_the_expectred_request() {
    let email_client = client("http://127.0.0.1:8025");
    let subject = "Welcome";
    let content = "Thank you for subscribing.";
    let request = email_client
        .send_email(email("subscriber@example.com"), subject, content, content)
        .unwrap();

    assert_eq!(TOKEN_HEADER, "X-Postmark-Server-Token");
    assert_eq!(SEND_METHOD, "POST");
    assert_eq!(request.url, "http://127.0.0.1:8025/email");
    assert_eq!(request.token.expose_secret(), "server-token");
    let fields = request.body.wire_fields();
    let keys: Vec<&str> = fields.iter().map(|field| field.0).collect();
    assert_eq!(keys, vec!["From", "To", "Subject", "HtmlBody", "TextBody"]);
}

#[test]
fn a_request_carries_sender_recipient_subject_and_both_contents() {
    let request = client("https://api.postmarkapp.com")
        .send_email(email("subscriber@example.com"), "Welcome", "<p>Hello</p>", "Hello")
        .unwrap();
    assert_eq!(request.url, "https://api.postmarkapp.com/email");
    assert_eq!(request.timeout, Duration::from_millis(200));
    assert_eq!(request.body.from, "sender@example.com");
    assert_eq!(request.body.to, "subscriber@example.com");
    assert_eq!(request.body.subject, "Welcome");
    assert_eq!(request.body.html_body, "<p>Hello</p>");
    assert_eq!(request.body.text_body, "Hello");
}

#[test]
fn the_body_is_spelled_with_the_providers_keys() {
    let body = SendEmailRequest {
        from: "a@b.com".to_string(),
        to: "c@d.com".to_string(),
        subject: "s".to_string(),
        html_body: "h".to_string(),
        text_body: "t".to_string(),
    };
    assert_eq!(
        body.wire_fields(),
        vec![
            ("From", "a@b.com".to_string()),
            ("To", "c@d.com".to_string()),
            ("Subject", "s".to_string()),
            ("HtmlBody", "h".to_string()),
            ("TextBody", "t".to_string()),
        ]
    );
}

#[test]
fn the_send_path_is_resolved_against_the_base_url() {
    assert_eq!(SEND_PATH, "email");
    assert_eq!(
        client("http://localhost:3000").endpoint(),
        Some("http://localhost:3000/email".to_string())
    );
    assert_eq!(
        client("https://api.postmarkapp.com/").endpoint(),
        Some("https://api.postmarkapp.com/email".to_string())
    );
    assert_eq!(
        client("https://example.net/v1/").endpoint(),
        Some("https://example.net/v1/email".to_string())
    );
    assert_eq!(
        client("https://example.net/v1/base").endpoint(),
        Some("https://example.net/v1/email".to_string())
    );
}

#[test]
fn a_base_url_that_is_none_gives_no_request() {
    for base_url in ["", "not a url", "/relative/only", "mailto:someone@example.com"] {
        let email_client = client(base_url);
        assert_eq!(email_client.endpoint(), None);
        assert_eq!(
            email_client.send_email(email("subscriber@example.com"), "s", "h", "t").unwrap_err(),
            DeliveryError::InvalidEndpoint(base_url.to_string())
        );
    }
}

#[test]
fn a_request_can_be_made_for_a_given_url() {
    let request = client("unused").request_to(
        "http://127.0.0.1:1/email".to_string(),
        email("subscriber@example.com"),
        "Welcome",
        "<p>Hello</p>",
        "Hello",
    );
    assert_eq!(request.url, "http://127.0.0.1:1/email");
    assert_eq!(request.token.expose_secret(), "server-token");
    assert_eq!(request.body.from, "sender@example.com");
    assert_eq!(request.body.to, "subscriber@example.com");
}

#[test]
fn a_client_gives_back_what_it_was_made_with() {
    let email_client = client("http://localhost:3000");
    assert_eq!(email_client.base_url(), "http://localhost:3000");
    assert_eq!(email_client.sender().as_ref(), "sender@example.com");
    assert_eq!(email_client.timeout(), Duration::from_millis(200));
    let copy = email_client.clone();
    assert_eq!(copy.base_url(), "http://localhost:3000");
    assert_eq!(copy.sender().as_ref(), "sender@example.com");
    assert_eq!(copy.timeout(), Duration::from_millis(200));
    assert_eq!(copy.endpoint(), email_client.endpoint());
}

#[test]
fn a_timeout_is_a_delivery_error_of_its_own() {
    assert_eq!(
        DeliveryError::from_transport(true, "operation timed out".to_string()),
        DeliveryError::TimedOut
    );
    assert_eq!(
        DeliveryError::from_transport(false, "connection refused".to_string()),
        DeliveryError::Failed("connection refused".to_string())
    );
}
