//! The emails of the service: what each says, and the message that is handed
//! to the SMTP transport.
//!
//! The SMTP session itself happens outside the library. The library composes
//! each email, has `lettre` parse the two addresses and build the message,
//! and says which error a failed step stands for.
use crate::error::{AppError, ErrorKind};
use crate::fresh::now_rfc3339;
use crate::templates::{
    ALERT_CLOSING, ALERT_MIDDLE, ALERT_OPENING, TEST_BEFORE_SUBJECT, TEST_BEFORE_TIME,
    TEST_CLOSING, TEST_OPENING, WELCOME_CLOSING, WELCOME_OPENING,
};
use vstd::prelude::*;

verus! {

/// A parsed mailbox of `lettre`: an address with an optional display name.
#[verifier::external_type_specification]
#[verifier::external_body]
pub struct ExMailbox(lettre::message::Mailbox);

/// A built message of `lettre`, ready for a transport.
#[verifier::external_type_specification]
#[verifier::external_body]
pub struct ExMessage(lettre::Message);

/// Why `lettre` does not take a text as a mailbox: the display text of the
/// `AddressError` that `Mailbox::from_str` returns for it, `None` where the
/// text parses.
pub uninterp spec fn mailbox_error(address: Seq<char>) -> Option<Seq<char>>;

/// Parses a mailbox with `Mailbox::from_str`. On failure the error is
/// handed back as its display text.
#[verifier::external_body]
fn parse_mailbox(address: &str) -> (r: Result<lettre::message::Mailbox, String>)
    ensures
        match r {
            Ok(_) => mailbox_error(address@) is None,
            Err(cause) => mailbox_error(address@) == Some(cause@),
        },
{
    match address.parse::<lettre::message::Mailbox>() {
        Ok(mailbox) => Ok(mailbox),
        Err(e) => Err(e.to_string()),
    }
}

/// Builds an HTML message with `lettre::Message::builder`: sender, recipient,
/// subject, the `text/html` content type, then the body. On failure the error
/// is handed back as its display text. The builder stamps the message with
/// the current date, so nothing is claimed of the outcome.
#[verifier::external_body]
fn build_message(
    from: lettre::message::Mailbox,
    to: lettre::message::Mailbox,
    subject: &str,
    html_body: String,
) -> (r: Result<lettre::Message, String>) {
    let built = lettre::Message::builder()
        .from(from)
        .to(to)
        .subject(subject)
        .header(lettre::message::header::ContentType::TEXT_HTML)
        .body(html_body);
    match built {
        Ok(message) => Ok(message),
        Err(e) => Err(e.to_string()),
    }
}

/// An email as the service composes it.
#[derive(Debug)]
pub struct OutgoingEmail {
    pub from: String,
    pub to: String,
    pub subject: String,
    pub html_body: String,
}

/// An email as contracts speak of it.
pub struct OutgoingEmailView {
    pub from: Seq<char>,
    pub to: Seq<char>,
    pub subject: Seq<char>,
    pub html_body: Seq<char>,
}

impl View for OutgoingEmail {
    type V = OutgoingEmailView;

    open spec fn view(&self) -> OutgoingEmailView {
        OutgoingEmailView {
            from: self.from@,
            to: self.to@,
            subject: self.subject@,
            html_body: self.html_body@,
        }
    }
}

impl Clone for OutgoingEmail {
    fn clone(&self) -> (r: Self)
        ensures
            r@ == self@,
    {
        OutgoingEmail {
            from: self.from.clone(),
            to: self.to.clone(),
            subject: self.subject.clone(),
            html_body: self.html_body.clone(),
        }
    }
}

/// The step of sending at which something failed outside the library.
#[derive(Clone, Copy, Debug, PartialEq, Eq, Structural)]
pub enum MailFault {
    /// The relay could not be set up.
    Relay,
    /// The task that runs the SMTP session did not finish.
    Task,
    /// The SMTP server did not accept the message.
    Send,
}

/// The words that introduce the cause of a fault.
pub open spec fn fault_label(fault: MailFault) -> Seq<char> {
    match fault {
        MailFault::Relay => "SMTP relay error: "@,
        MailFault::Task => "Task spawn error: "@,
        MailFault::Send => "Failed to send email: "@,
    }
}

/// The subject of an alert email.
pub open spec fn alert_subject(city: Seq<char>) -> Seq<char> {
    "⚠️ Weather Alert for "@ + city
}

/// The body of an alert email.
pub open spec fn alert_body(city: Seq<char>, message: Seq<char>) -> Seq<char> {
    ALERT_OPENING@ + city + ALERT_MIDDLE@ + message + ALERT_CLOSING@
}

/// The subject of the welcome email.
pub open spec fn welcome_subject() -> Seq<char> {
    "Welcome to Weather Alert System! 🌤️"@
}

/// The body of the welcome email.
pub open spec fn welcome_body(city: Seq<char>) -> Seq<char> {
    WELCOME_OPENING@ + city + WELCOME_CLOSING@
}

/// The body of the diagnostic email.
pub open spec fn test_body(to: Seq<char>, subject: Seq<char>, time: Seq<char>) -> Seq<char> {
    TEST_OPENING@ + to + TEST_BEFORE_SUBJECT@ + subject + TEST_BEFORE_TIME@ + time
        + TEST_CLOSING@
}

/// What preparing an email for the transport comes to, given the sender and
/// the recipient: the error of the first address that does not parse, or
/// `None` where both parse and the message is built.
pub open spec fn address_fault(from: Seq<char>, to: Seq<char>) -> Option<Seq<char>> {
    match mailbox_error(from) {
        Some(cause) => Some("Invalid from address: "@ + cause),
        None => match mailbox_error(to) {
            Some(cause) => Some("Invalid to address: "@ + cause),
            None => None,
        },
    }
}

/// The outcome of preparing an email is the one that its addresses call for:
/// an `Email` error with the address fault where there is one; otherwise the
/// built message, or an `Email` error that the build itself gave.
pub open spec fn prepared_as_owed(
    from: Seq<char>,
    to: Seq<char>,
    r: Result<lettre::Message, AppError>,
) -> bool {
    match address_fault(from, to) {
        Some(text) => r is Err && r->Err_0@ == (ErrorKind::Email, text),
        None => match r {
            Ok(_) => true,
            Err(e) => e@.0 == ErrorKind::Email && exists|cause: Seq<char>|
                e@.1 == "Failed to build email: "@ + cause,
        },
    }
}

/// The composer of the service's emails. Every email goes out from the same
/// address, the user name of the SMTP account.
#[derive(Debug)]
pub struct EmailClient {
    from_email: String,
}

impl Clone for EmailClient {
    fn clone(&self) -> (r: Self)
        ensures
            r.sender() == self.sender(),
    {
        EmailClient { from_email: self.from_email.clone() }
    }
}

impl EmailClient {
    /// The address that every email goes out from.
    pub closed spec fn sender(&self) -> Seq<char> {
        self.from_email@
    }

    /// A composer for the SMTP account `username`.
    pub fn new(username: &str) -> (client: Self)
        ensures
            client.sender() == username@,
    {
        EmailClient { from_email: String::from_str(username) }
    }

    /// The error that a fault outside the library stands for: an `Email`
    /// error whose message names the step and gives the cause.
    pub fn fault(fault: MailFault, cause: &str) -> (e: AppError)
        ensures
            e@ == (ErrorKind::Email, fault_label(fault) + cause@),
    {
        let mut text = match fault {
            MailFault::Relay => String::from_str("SMTP relay error: "),
            MailFault::Task => String::from_str("Task spawn error: "),
            MailFault::Send => String::from_str("Failed to send email: "),
        };
        text.append(cause);
        AppError::Email(text)
    }

    /// The alert email for a user in `city`.
    pub fn weather_alert(&self, to: &str, city: &str, alert_message: &str) -> (email:
        OutgoingEmail)
        ensures
            email@ == (OutgoingEmailView {
                from: self.sender(),
                to: to@,
                subject: alert_subject(city@),
                html_body: alert_body(city@, alert_message@),
            }),
    {
        let mut subject = String::from_str("⚠️ Weather Alert for ");
        subject.append(city);
        let mut html_body = String::from_str(ALERT_OPENING);
        html_body.append(city);
        html_body.append(ALERT_MIDDLE);
        html_body.append(alert_message);
        html_body.append(ALERT_CLOSING);
        OutgoingEmail {
            from: self.from_email.clone(),
            to: String::from_str(to),
            subject,
            html_body,
        }
    }

    /// The welcome email for a new user in `city`.
    pub fn welcome(&self, to: &str, city: &str) -> (email: OutgoingEmail)
        ensures
            email@ == (OutgoingEmailView {
                from: self.sender(),
                to: to@,
                subject: welcome_subject(),
                html_body: welcome_body(city@),
            }),
    {
        let mut html_body = String::from_str(WELCOME_OPENING);
        html_body.append(city);
        html_body.append(WELCOME_CLOSING);
        OutgoingEmail {
            from: self.from_email.clone(),
            to: String::from_str(to),
            subject: String::from_str("Welcome to Weather Alert System! 🌤️"),
            html_body,
        }
    }

    /// The diagnostic email, which repeats its recipient and subject and
    /// states `time` as the time of sending.
    pub fn test_message(&self, to: &str, subject: &str, time: &str) -> (email: OutgoingEmail)
        ensures
            email@ == (OutgoingEmailView {
                from: self.sender(),
                to: to@,
                subject: subject@,
                html_body: test_body(to@, subject@, time@),
            }),
    {
        let mut html_body = String::from_str(TEST_OPENING);
        html_body.append(to);
        html_body.append(TEST_BEFORE_SUBJECT);
        html_body.append(subject);
        html_body.append(TEST_BEFORE_TIME);
        html_body.append(time);
        html_body.append(TEST_CLOSING);
        OutgoingEmail {
            from: self.from_email.clone(),
            to: String::from_str(to),
            subject: String::from_str(subject),
            html_body,
        }
    }

    /// Prepares an email for the transport: parses the sender, then the
    /// recipient, then builds the message. The first step that fails decides
    /// the error.
    pub fn send_email(&self, to: &str, subject: &str, html_body: &str) -> (r: Result<
        lettre::Message,
        AppError,
    >)
        ensures
            prepared_as_owed(self.sender(), to@, r),
    {
        let from = match parse_mailbox(self.from_email.as_str()) {
            Ok(mailbox) => mailbox,
            Err(cause) => {
                let mut text = String::from_str("Invalid from address: ");
                text.append(cause.as_str());
                return Err(AppError::Email(text));
            },
        };
        let recipient = match parse_mailbox(to) {
            Ok(mailbox) => mailbox,
            Err(cause) => {
                let mut text = String::from_str("Invalid to address: ");
                text.append(cause.as_str());
                return Err(AppError::Email(text));
            },
        };
        match build_message(from, recipient, subject, String::from_str(html_body)) {
            Ok(message) => Ok(message),
            Err(cause) => {
                let mut text = String::from_str("Failed to build email: ");
                text.append(cause.as_str());
                Err(AppError::Email(text))
            },
        }
    }

    /// Prepares the alert email for a user in `city` for the transport.
    pub fn send_weather_alert(&self, to: &str, city: &str, alert_message: &str) -> (r: Result<
        lettre::Message,
        AppError,
    >)
        ensures
            prepared_as_owed(self.sender(), to@, r),
    {
        let email = self.weather_alert(to, city, alert_message);
        self.send_email(to, email.subject.as_str(), email.html_body.as_str())
    }

    /// Prepares the welcome email for a new user in `city` for the transport.
    pub fn send_welcome_email(&self, to: &str, city: &str) -> (r: Result<
        lettre::Message,
        AppError,
    >)
        ensures
            prepared_as_owed(self.sender(), to@, r),
    {
        let email = self.welcome(to, city);
        self.send_email(to, email.subject.as_str(), email.html_body.as_str())
    }

    /// Prepares the diagnostic email, stamped with the current time, for the
    /// transport.
    pub fn send_test_email(&self, to: &str, subject: &str) -> (r: Result<
        lettre::Message,
        AppError,
    >)
        ensures
            prepared_as_owed(self.sender(), to@, r),
    {
        let time = now_rfc3339();
        let email = self.test_message(to, subject, time.as_str());
        self.send_email(to, email.subject.as_str(), email.html_body.as_str())
    }
}

} // verus!
