use weather_alerts::email::{EmailClient, MailFault};
use weather_alerts::error::ErrorKind;

fn formatted(message: &lettre::Message) -> String {
    String::from_utf8(message.formatted()).unwrap()
}

#[test]
fn alert_email_names_city_and_message() {
    let client = EmailClient::new("alerts@example.org");
    let email = client.weather_alert("ana@example.org", "Porto", "Too hot");
    assert_eq!(email.from, "alerts@example.org");
    assert_eq!(email.to, "ana@example.org");
    assert_eq!(email.subject, "⚠️ Weather Alert for Porto");
    assert!(email.html_body.starts_with("\n            <html>\n            <head>"));
    assert!(email.html_body.contains("<h2>Alert for Porto</h2>"));
    assert!(email.html_body.contains(
        "<strong>Alert Message:</strong><br/>\n                            Too hot\n"
    ));
    assert!(email.html_body.contains("body { font-family: Arial, sans-serif;"));
    assert!(email.html_body.contains("<p>Weather Alert System - Powered by OpenWeatherMap</p>"));
    assert!(email.html_body.ends_with("</html>\n            "));
    assert_eq!(email.html_body.matches("Porto").count(), 1);
    assert_eq!(email.html_body.chars().count(), 1176 + 5 + 147 + 7 + 776);
}

#[test]
fn welcome_email_names_the_city() {
    let client = EmailClient::new("alerts@example.org");
    let email = client.welcome("ana@example.org", "Porto");
    assert_eq!(email.from, "alerts@example.org");
    assert_eq!(email.to, "ana@example.org");
    assert_eq!(email.subject, "Welcome to Weather Alert System! 🌤️");
    assert!(email.html_body.contains("<p><strong>Your Location:</strong> Porto</p>"));
    assert!(email.html_body.contains("<h1>🎉 Welcome!</h1>"));
    assert!(email.html_body.contains("<li>Receive automatic alerts every 2 hours</li>"));
    assert_eq!(email.html_body.chars().count(), 1363 + 5 + 897);
}

#[test]
fn diagnostic_email_repeats_recipient_subject_and_time() {
    let client = EmailClient::new("alerts@example.org");
    let email = client.test_message("ops@example.org", "Weather Alert Test", "2024-05-01T10:00:00+00:00");
    assert_eq!(email.subject, "Weather Alert Test");
    assert_eq!(email.to, "ops@example.org");
    assert!(email.html_body.contains("<li>Recipient: ops@example.org</li>"));
    assert!(email.html_body.contains("<li>Subject: Weather Alert Test</li>"));
    assert!(email.html_body.contains("<li>Time: 2024-05-01T10:00:00+00:00</li>"));
    assert!(email.html_body.contains("<h2>✅ Email Configuration Test</h2>"));
}

#[test]
fn prepared_alert_is_an_html_message_between_the_two_addresses() {
    let client = EmailClient::new("alerts@example.org");
    let message = client.send_weather_alert("ana@example.org", "Porto", "Too hot").unwrap();
    let text = formatted(&message);
    assert!(text.contains("From: alerts@example.org"));
    assert!(text.contains("To: ana@example.org"));
    assert!(text.contains("Content-Type: text/html; charset=utf-8"));
    assert!(text.contains("Subject: "));
    assert!(text.contains("Date: "));
    let envelope = message.envelope();
    assert_eq!(envelope.from().unwrap().to_string(), "alerts@example.org");
    assert_eq!(envelope.to().len(), 1);
    assert_eq!(envelope.to()[0].to_string(), "ana@example.org");
}

#[test]
fn prepared_welcome_and_diagnostic_emails_build() {
    let client = EmailClient::new("alerts@example.org");
    let welcome = client.send_welcome_email("ana@example.org", "Porto").unwrap();
    assert_eq!(welcome.envelope().to()[0].to_string(), "ana@example.org");
    let test = client.send_test_email("ops@example.org", "Weather Alert Test").unwrap();
    let text = formatted(&test);
    assert!(text.contains("Subject: Weather Alert Test"));
    let normal = text.replace("=\r\n", "");
    let at = normal.find("<li>Time: ").unwrap() + "<li>Time: ".len();
    let stamp = &normal[at..at + normal[at..].find("</li>").unwrap()];
    let stamp = stamp.replace("=3D", "=");
    assert!(chrono::DateTime::parse_from_rfc3339(&stamp).is_ok(), "not a time: {}", stamp);
    let plain = client.send_email("ops@example.org", "Hello", "<p>hi</p>").unwrap();
    let text = formatted(&plain);
    assert!(text.contains("Subject: Hello"));
    assert!(text.contains("<p>hi</p>"));
}

#[test]
fn bad_recipient_is_an_email_error() {
    let client = EmailClient::new("alerts@example.org");
    let err = client.send_weather_alert("not an address", "Porto", "Too hot").unwrap_err();
    assert_eq!(err.kind(), ErrorKind::Email);
    assert!(err.message().starts_with("Invalid to address: "));
    assert_eq!(err.status_code(), 500);
    let err = client.send_email("", "s", "b").unwrap_err();
    assert!(err.message().starts_with("Invalid to address: "));
}

#[test]
fn bad_sender_is_reported_first() {
    let client = EmailClient::new("nobody");
    let err = client.send_welcome_email("also bad", "Porto").unwrap_err();
    assert_eq!(err.kind(), ErrorKind::Email);
    assert!(err.message().starts_with("Invalid from address: "));
    let err = client.send_test_email("ana@example.org", "s").unwrap_err();
    assert!(err.message().starts_with("Invalid from address: "));
}

#[test]
fn faults_outside_name_their_step() {
    let e = EmailClient::fault(MailFault::Relay, "no such host");
    assert_eq!(e.kind(), ErrorKind::Email);
    assert_eq!(e.message(), "SMTP relay error: no such host");
    let e = EmailClient::fault(MailFault::Task, "cancelled");
    assert_eq!(e.message(), "Task spawn error: cancelled");
    let e = EmailClient::fault(MailFault::Send, "550 rejected");
    assert_eq!(e.message(), "Failed to send email: 550 rejected");
    assert_eq!(e.to_string(), "Email error: Failed to send email: 550 rejected");
}
