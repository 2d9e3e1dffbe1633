use newsletter::{FormData, NewSubscriber, SubscriberEmail, ValidationError};

fn form(name: &str, email: &str) -> FormData {
    FormData { name: name.to_string(), email: email.to_string() }
}

#[test]
fn a_valid_email_is_parsed_successfully() {
    let email = SubscriberEmail::parse("ursula@example.com".to_string()).unwrap();
    assert_eq!(email.as_ref(), "ursula@example.com");
}

#[test]
fn invalid_emails_are_rejected() {
    for input in ["", "ursulaexample.com", "@example.com", "ursula@"] {
        assert_eq!(
            SubscriberEmail::parse(input.to_string()).unwrap_err(),
            ValidationError::InvalidEmailFormat
        );
    }
}

#[test]
fn a_valid_form_gives_a_subscriber() {
    let s = NewSubscriber::try_from(form("Ursula Le Guin", "ursula@example.com")).unwrap();
    assert_eq!(s.name.as_ref(), "Ursula Le Guin");
    assert_eq!(s.email.as_ref(), "ursula@example.com");
}

#[test]
fn a_valid_name_and_an_invalid_email_report_the_email() {
    assert_eq!(
        NewSubscriber::try_from(form("Ursula Le Guin", "not-an-email")).unwrap_err(),
        ValidationError::InvalidEmailFormat
    );
}

#[test]
fn an_invalid_email_is_reported_even_with_an_invalid_name() {
    assert_eq!(
        NewSubscriber::try_from(form("", "not-an-email")).unwrap_err(),
        ValidationError::InvalidEmailFormat
    );
    assert_eq!(
        NewSubscriber::try_from(form("<script>", "not-an-email")).unwrap_err(),
        ValidationError::InvalidEmailFormat
    );
}

#[test]
fn an_invalid_name_with_a_valid_email_reports_the_name() {
    assert_eq!(
        NewSubscriber::try_from(form(" ", "ursula@example.com")).unwrap_err(),
        ValidationError::EmptyOrWhitespace
    );
    assert_eq!(
        NewSubscriber::try_from(form(&"a".repeat(257), "ursula@example.com")).unwrap_err(),
        ValidationError::TooLong
    );
}
