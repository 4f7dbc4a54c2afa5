//! The alert email: what it says, the document handed to the mail service,
//! and how the service's answer is read.
//!
//! The document follows the mail service's `mail/send` layout. Sending it is
//! the caller's business; this module decides every value that goes into it.

use vstd::prelude::*;
use crate::settings::MonitorConfig;

verus! {

/// A mailbox: display name and address.
#[derive(Debug, PartialEq, Eq)]
pub struct User {
    pub name: String,
    pub email: String,
}

/// Subject and plain-text body of an alert.
#[derive(Debug, PartialEq, Eq)]
pub struct Message {
    pub subject: String,
    pub plain: String,
}

/// One envelope of the document: who sends to whom.
#[derive(Debug, PartialEq, Eq)]
pub struct Personalization {
    pub from: User,
    pub to: Vec<User>,
}

/// One body part of the document.
#[derive(Debug, PartialEq, Eq)]
pub struct Content {
    pub media_type: String,
    pub value: String,
}

/// The document handed to the mail service.
#[derive(Debug, PartialEq, Eq)]
pub struct EmailPayload {
    pub personalizations: Vec<Personalization>,
    pub from: User,
    pub subject: String,
    pub content: Vec<Content>,
}

/// Why an alert did not reach the mail service.
#[derive(Clone, Copy, Debug, PartialEq, Eq, Structural)]
pub enum NotifyError {
    /// The request never got an answer.
    Transport,
    /// The service answered with a status that does not accept the message.
    Rejected { status: u16 },
}

/// A [`User`] as the contracts see it.
pub struct UserView {
    pub name: Seq<char>,
    pub email: Seq<char>,
}

/// A [`Message`] as the contracts see it.
pub struct MessageView {
    pub subject: Seq<char>,
    pub plain: Seq<char>,
}

/// A [`Personalization`] as the contracts see it.
pub struct PersonalizationView {
    pub from: UserView,
    pub to: Seq<UserView>,
}

/// A [`Content`] as the contracts see it.
pub struct ContentView {
    pub media_type: Seq<char>,
    pub value: Seq<char>,
}

/// An [`EmailPayload`] as the contracts see it.
pub struct EmailPayloadView {
    pub personalizations: Seq<PersonalizationView>,
    pub from: UserView,
    pub subject: Seq<char>,
    pub content: Seq<ContentView>,
}

impl View for User {
    type V = UserView;

    open spec fn view(&self) -> UserView {
        UserView { name: self.name@, email: self.email@ }
    }
}

impl View for Message {
    type V = MessageView;

    open spec fn view(&self) -> MessageView {
        MessageView { subject: self.subject@, plain: self.plain@ }
    }
}

impl View for Personalization {
    type V = PersonalizationView;

    open spec fn view(&self) -> PersonalizationView {
        PersonalizationView { from: self.from@, to: self.to@.map_values(|user: User| user@) }
    }
}

impl View for Content {
    type V = ContentView;

    open spec fn view(&self) -> ContentView {
        ContentView { media_type: self.media_type@, value: self.value@ }
    }
}

impl View for EmailPayload {
    type V = EmailPayloadView;

    open spec fn view(&self) -> EmailPayloadView {
        EmailPayloadView {
            personalizations: self.personalizations@.map_values(|p: Personalization| p@),
            from: self.from@,
            subject: self.subject@,
            content: self.content@.map_values(|c: Content| c@),
        }
    }
}

/// The subject line: it names the address family that is down. A flag is
/// `true` where the address was reachable.
pub open spec fn alert_subject(ipv4_flag: bool, ipv6_flag: bool) -> Seq<char>
    recommends
        !ipv4_flag || !ipv6_flag,
{
    if !ipv4_flag && !ipv6_flag {
        "IPv4 and IPv6 are down"@
    } else if !ipv4_flag {
        "IPv4 is down"@
    } else {
        "IPv6 is down"@
    }
}

/// The body: it names the addresses that are down.
pub open spec fn alert_text(
    ipv4_addr: Seq<char>,
    ipv6_addr: Seq<char>,
    ipv4_flag: bool,
    ipv6_flag: bool,
) -> Seq<char>
    recommends
        !ipv4_flag || !ipv6_flag,
{
    if !ipv4_flag && !ipv6_flag {
        ipv4_addr + " and "@ + ipv6_addr + " is down"@
    } else if !ipv4_flag {
        ipv4_addr + " is down"@
    } else {
        ipv6_addr + " is down"@
    }
}

/// The sender named by the settings.
pub open spec fn sender_of(configuration: MonitorConfig) -> UserView {
    UserView { name: configuration.sender_name@, email: configuration.sender_email@ }
}

/// The recipient named by the settings.
pub open spec fn recipient_of(configuration: MonitorConfig) -> UserView {
    UserView { name: configuration.recipient_name@, email: configuration.recipient_email@ }
}

/// The document for an alert: one envelope from the sender to the one
/// recipient, the sender once more as the author, the subject, and one
/// plain-text body part.
pub open spec fn email_payload(
    configuration: MonitorConfig,
    ipv4_flag: bool,
    ipv6_flag: bool,
) -> EmailPayloadView
    recommends
        !ipv4_flag || !ipv6_flag,
{
    EmailPayloadView {
        personalizations: seq![
            PersonalizationView {
                from: sender_of(configuration),
                to: seq![recipient_of(configuration)],
            },
        ],
        from: sender_of(configuration),
        subject: alert_subject(ipv4_flag, ipv6_flag),
        content: seq![
            ContentView {
                media_type: "text/plain"@,
                value: alert_text(configuration.ipv4@, configuration.ipv6@, ipv4_flag, ipv6_flag),
            },
        ],
    }
}

/// The statuses with which the mail service accepts a message.
pub open spec fn status_accepts(status: u16) -> bool {
    status == 200 || status == 201 || status == 202
}

/// Word the alert for the addresses that are down.
///
/// Alerting while both addresses are reachable is a mistake of the caller,
/// which the precondition rules out.
pub fn alert_message(ipv4_addr: &str, ipv6_addr: &str, ipv4_flag: bool, ipv6_flag: bool) -> (message:
    Message)
    requires
        !ipv4_flag || !ipv6_flag,
    ensures
        message@.subject == alert_subject(ipv4_flag, ipv6_flag),
        message@.plain == alert_text(ipv4_addr@, ipv6_addr@, ipv4_flag, ipv6_flag),
{
    if !ipv4_flag && !ipv6_flag {
        let mut plain: String = ipv4_addr.to_owned();
        plain.append(" and ");
        plain.append(ipv6_addr);
        plain.append(" is down");
        Message { subject: "IPv4 and IPv6 are down".to_owned(), plain }
    } else if !ipv4_flag {
        let mut plain: String = ipv4_addr.to_owned();
        plain.append(" is down");
        Message { subject: "IPv4 is down".to_owned(), plain }
    } else {
        let mut plain: String = ipv6_addr.to_owned();
        plain.append(" is down");
        Message { subject: "IPv6 is down".to_owned(), plain }
    }
}

/// Build the document that asks the mail service to send the alert.
pub fn make_email_payload(configuration: &MonitorConfig, ipv4_flag: bool, ipv6_flag: bool) -> (payload:
    EmailPayload)
    requires
        !ipv4_flag || !ipv6_flag,
    ensures
        payload@ == email_payload(*configuration, ipv4_flag, ipv6_flag),
{
    let message: Message = alert_message(
        configuration.ipv4.as_str(),
        configuration.ipv6.as_str(),
        ipv4_flag,
        ipv6_flag,
    );
    let Message { subject, plain } = message;

    let recipient = User {
        name: configuration.recipient_name.clone(),
        email: configuration.recipient_email.clone(),
    };
    let mut to: Vec<User> = Vec::new();
    to.push(recipient);
    let envelope = Personalization {
        from: User {
            name: configuration.sender_name.clone(),
            email: configuration.sender_email.clone(),
        },
        to,
    };
    assert(envelope@.to =~= seq![recipient_of(*configuration)]);

    let mut personalizations: Vec<Personalization> = Vec::new();
    personalizations.push(envelope);
    let mut content: Vec<Content> = Vec::new();
    content.push(Content { media_type: "text/plain".to_owned(), value: plain });

    let payload = EmailPayload {
        personalizations,
        from: User {
            name: configuration.sender_name.clone(),
            email: configuration.sender_email.clone(),
        },
        subject,
        content,
    };
    assert(payload@.personalizations =~= email_payload(
        *configuration,
        ipv4_flag,
        ipv6_flag,
    ).personalizations);
    assert(payload@.content =~= email_payload(*configuration, ipv4_flag, ipv6_flag).content);
    payload
}

/// Read the mail service's answer: the message is on its way exactly when the
/// status is 200, 201 or 202; any other status is a rejection that carries it.
pub fn delivery_outcome(status: u16) -> (outcome: Result<(), NotifyError>)
    ensures
        status_accepts(status) ==> outcome is Ok,
        !status_accepts(status) ==> outcome == Err::<(), NotifyError>(
            NotifyError::Rejected { status },
        ),
{
    if status == 200 || status == 201 || status == 202 {
        Ok(())
    } else {
        Err(NotifyError::Rejected { status })
    }
}

} // verus!
