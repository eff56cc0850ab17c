//! The emails that the relayer sends for a command, and the replies it
//! accepts.

use crate::correlator::{resolved, ReplyCorrelator, ReplyState};
use crate::hex::hex_digit;
use vstd::pervasive::unreached;
use vstd::prelude::*;

verus! {

/// An attachment of an email.
#[derive(Clone, Debug, PartialEq, Eq)]
pub struct EmailAttachment {
    pub inline_id: String,
    pub content_type: String,
    pub contents: Vec<u8>,
}

/// An email to be sent.
#[derive(Clone, Debug, PartialEq, Eq)]
pub struct EmailMessage {
    pub to: String,
    pub subject: String,
    pub reference: Option<String>,
    pub reply_to: Option<String>,
    pub body_plain: String,
    pub body_html: String,
    pub body_attachments: Option<Vec<EmailAttachment>>,
}

/// What the relayer has to tell by email.
#[derive(Clone, Debug, PartialEq, Eq)]
pub enum EmailEvent {
    Command {
        request_id: u128,
        email_address: String,
        command: String,
        account_code: Option<String>,
        subject: String,
        body: String,
    },
    Ack {
        email_addr: String,
        command: String,
        original_message_id: Option<String>,
        original_subject: String,
    },
    Completion {},
    Error {
        email_addr: String,
        error: String,
        original_subject: String,
        original_message_id: Option<String>,
    },
}

/// The expectation that an email will be answered, with the request that the
/// answer belongs to, where there is one.
#[derive(Clone, Debug, PartialEq, Eq)]
pub struct ExpectsReply {
    pub request_id: Option<String>,
}

/// The headers of an inbound email: names, each with its values in order.
#[derive(Clone, Debug, PartialEq, Eq)]
pub struct EmailHeaders {
    pub entries: Vec<(String, Vec<String>)>,
}

/// Why an email was not sent or its reply cannot be expected.
#[derive(Clone, Debug, PartialEq, Eq)]
pub enum MailError {
    /// The email gateway refused the email; its answer is the detail.
    SendFailed { detail: String },
    /// The email gateway accepted the email but named no message id.
    MissingMessageId,
}

/// An email, and whether a reply to it is expected.
#[derive(Clone, Debug, PartialEq, Eq)]
pub struct Outbound {
    pub email: EmailMessage,
    pub expects_reply: Option<ExpectsReply>,
}

/// Sixteen to the power of `n`.
pub open spec fn pow16(n: nat) -> nat
    decreases n,
{
    if n == 0 {
        1
    } else {
        16 * pow16((n - 1) as nat)
    }
}

/// The 32 hexadecimal digits of a 128-bit number, most significant first.
pub open spec fn uuid_digits(id: u128) -> Seq<char> {
    Seq::new(32, |i: int| hex_digit(((id as nat) / pow16((31 - i) as nat)) as int % 16))
}

/// The text of a request id: its 32 lower-case hexadecimal digits in groups
/// of 8, 4, 4, 4 and 12, with hyphens between the groups.
pub open spec fn uuid_text(id: u128) -> Seq<char> {
    let d = uuid_digits(id);
    d.subrange(0, 8) + seq!['-'] + d.subrange(8, 12) + seq!['-'] + d.subrange(12, 16) + seq!['-']
        + d.subrange(16, 20) + seq!['-'] + d.subrange(20, 32)
}

/// The names and values of a list of fields.
pub open spec fn fields_view(fields: Seq<(String, String)>) -> Seq<(Seq<char>, Seq<char>)> {
    Seq::new(fields.len(), |i: int| (fields[i].0@, fields[i].1@))
}

/// `Uuid::to_string` of the `uuid` crate on `Uuid::from_u128`: the hyphenated
/// lower-case form of the 128-bit number, most significant digit first.
#[verifier::external_body]
pub(crate) fn uuid_string(id: u128) -> (text: String)
    ensures
        text@ == uuid_text(id),
{
    uuid::Uuid::from_u128(id).to_string()
}

/// The command as the email shows it: with the account code after it, where
/// there is one.
pub open spec fn command_text(command: Seq<char>, account_code: Option<Seq<char>>) -> Seq<char> {
    match account_code {
        Some(code) => command + " Code "@ + code,
        None => command,
    }
}

/// The plain body of the email for a request.
pub open spec fn plain_body_text(request_id: u128) -> Seq<char> {
    "ZK Email request. Your request ID is "@ + uuid_text(request_id)
}

/// The fields that the command template is rendered with.
pub open spec fn command_fields(
    email_address: Seq<char>,
    body: Seq<char>,
    request_id: u128,
    command: Seq<char>,
) -> Seq<(Seq<char>, Seq<char>)> {
    seq![
        ("userEmailAddr"@, email_address),
        ("body"@, body),
        ("requestId"@, uuid_text(request_id)),
        ("command"@, command),
    ]
}

/// The address of the email gateway's endpoint for sending.
pub open spec fn send_endpoint_text(smtp_url: Seq<char>) -> Seq<char> {
    smtp_url + "/api/sendEmail"@
}

/// The command as the email shows it.
pub fn command_with_code(command: &str, account_code: Option<&str>) -> (text: String)
    ensures
        text@ == command_text(
            command@,
            match account_code {
                Some(code) => Some(code@),
                None => None,
            },
        ),
{
    match account_code {
        Some(code) => String::from_str(command).concat(" Code ").concat(code),
        None => String::from_str(command),
    }
}

/// The plain body of the email for a request.
pub fn plain_body(request_id: u128) -> (text: String)
    ensures
        text@ == plain_body_text(request_id),
{
    let id = uuid_string(request_id);
    String::from_str("ZK Email request. Your request ID is ").concat(id.as_str())
}

/// The address of the email gateway's endpoint for sending.
pub fn send_endpoint(smtp_url: &str) -> (url: String)
    ensures
        url@ == send_endpoint_text(smtp_url@),
{
    String::from_str(smtp_url).concat("/api/sendEmail")
}

impl ExpectsReply {
    /// The expectation of a reply that belongs to a request.
    pub fn new(request_id: u128) -> (expects: Self)
        ensures
            expects.request_id is Some,
            expects.request_id->Some_0@ == uuid_text(request_id),
    {
        ExpectsReply { request_id: Some(uuid_string(request_id)) }
    }

    /// The expectation of a reply that belongs to no request.
    pub fn new_no_request_id() -> (expects: Self)
        ensures
            expects.request_id is None,
    {
        ExpectsReply { request_id: None }
    }
}

/// Whether `i` is where the first header with the given name stands.
pub open spec fn is_first_header(
    entries: Seq<(String, Vec<String>)>,
    name: Seq<char>,
    i: int,
) -> bool {
    &&& 0 <= i < entries.len()
    &&& entries[i].0@ == name
    &&& forall|j: int| 0 <= j < i ==> (#[trigger] entries[j]).0@ != name
}

/// Whether no header has the given name.
pub open spec fn no_header(entries: Seq<(String, Vec<String>)>, name: Seq<char>) -> bool {
    forall|j: int| 0 <= j < entries.len() ==> (#[trigger] entries[j]).0@ != name
}

/// The message that an email replies to: the first value of its first
/// `In-Reply-To` header, where it has one.
pub open spec fn in_reply_to(entries: Seq<(String, Vec<String>)>) -> Option<Seq<char>> {
    if no_header(entries, "In-Reply-To"@) {
        None
    } else {
        let i = choose|i: int| is_first_header(entries, "In-Reply-To"@, i);
        if entries[i].1@.len() == 0 {
            None
        } else {
            Some(entries[i].1@[0]@)
        }
    }
}

/// The first header with a name is one header.
proof fn lemma_first_header_unique(
    entries: Seq<(String, Vec<String>)>,
    name: Seq<char>,
    i: int,
    j: int,
)
    requires
        is_first_header(entries, name, i),
        is_first_header(entries, name, j),
    ensures
        i == j,
{
    if i < j {
        assert(entries[i].0@ != name);
    } else if j < i {
        assert(entries[j].0@ != name);
    }
}

impl EmailHeaders {
    /// Where the first header with the given name stands.
    pub fn position(&self, name: &str) -> (found: Option<usize>)
        ensures
            match found {
                Some(i) => is_first_header(self.entries@, name@, i as int),
                None => no_header(self.entries@, name@),
            },
    {
        let wanted = String::from_str(name);
        let mut i: usize = 0;
        while i < self.entries.len()
            invariant
                i <= self.entries@.len(),
                wanted@ == name@,
                forall|j: int| 0 <= j < i ==> (#[trigger] self.entries@[j]).0@ != name@,
            decreases self.entries@.len() - i,
        {
            if self.entries[i].0 == wanted {
                return Some(i);
            }
            i += 1;
        }
        None
    }

    /// The values of the first header with the given name.
    pub fn get_header(&self, name: &str) -> (values: Option<&Vec<String>>)
        ensures
            match values {
                Some(list) => exists|i: int|
                    is_first_header(self.entries@, name@, i) && *list == self.entries@[i].1,
                None => no_header(self.entries@, name@),
            },
    {
        match self.position(name) {
            Some(i) => Some(&self.entries[i].1),
            None => None,
        }
    }

    /// The message that the email replies to, where it is a reply.
    pub fn in_reply_to(&self) -> (message_id: Option<String>)
        ensures
            match message_id {
                Some(id) => in_reply_to(self.entries@) == Some(id@),
                None => in_reply_to(self.entries@) is None,
            },
    {
        match self.position("In-Reply-To") {
            Some(i) => {
                proof {
                    let chosen = choose|k: int| is_first_header(self.entries@, "In-Reply-To"@, k);
                    lemma_first_header_unique(self.entries@, "In-Reply-To"@, i as int, chosen);
                }
                let values = &self.entries[i].1;
                if values.len() == 0 {
                    None
                } else {
                    Some(values[0].clone())
                }
            },
            None => None,
        }
    }
}

/// Whether an inbound email is to be worked on, and what the check does to
/// the expected replies: an email that replies to nothing is valid; a reply is
/// valid where it is awaited, and is thereby resolved.
pub open spec fn valid_request(
    known: Map<Seq<char>, ReplyState>,
    entries: Seq<(String, Vec<String>)>,
) -> (bool, Map<Seq<char>, ReplyState>) {
    match in_reply_to(entries) {
        Some(id) => (resolved(known, Some(id)).0 is Some, resolved(known, Some(id)).1),
        None => (true, known),
    }
}

/// Checks an inbound email against the expected replies: `false` for a reply
/// that is not awaited, whether it came before or was never asked for.
pub fn check_is_valid_request(email: &EmailHeaders, correlator: &mut ReplyCorrelator) -> (valid:
    bool)
    requires
        old(correlator).well_formed(),
    ensures
        final(correlator).well_formed(),
        (valid, final(correlator)@) == valid_request(old(correlator)@, email.entries@),
{
    match email.in_reply_to() {
        Some(id) => correlator.resolve(Some(id.as_str())).is_some(),
        None => true,
    }
}

/// Whether an outbound email is the one for a command.
pub open spec fn is_command_email(
    outbound: Outbound,
    request_id: u128,
    email_address: Seq<char>,
    subject: Seq<char>,
    body_html: Seq<char>,
) -> bool {
    &&& outbound.email.to@ == email_address
    &&& outbound.email.subject@ == subject
    &&& outbound.email.reference is None
    &&& outbound.email.reply_to is None
    &&& outbound.email.body_plain@ == plain_body_text(request_id)
    &&& outbound.email.body_html@ == body_html
    &&& outbound.email.body_attachments is None
    &&& outbound.expects_reply is Some
    &&& outbound.expects_reply->Some_0.request_id is Some
    &&& outbound.expects_reply->Some_0.request_id->Some_0@ == uuid_text(request_id)
}

/// The email for a command, with the rendered template as its HTML body. A
/// reply to it is expected for the request.
pub fn command_email(
    request_id: u128,
    email_address: &str,
    subject: &str,
    body_html: String,
) -> (outbound: Outbound)
    ensures
        is_command_email(outbound, request_id, email_address@, subject@, body_html@),
{
    Outbound {
        email: EmailMessage {
            to: String::from_str(email_address),
            subject: String::from_str(subject),
            reference: None,
            reply_to: None,
            body_plain: plain_body(request_id),
            body_html,
            body_attachments: None,
        },
        expects_reply: Some(ExpectsReply::new(request_id)),
    }
}

/// The fields that the command template is rendered with.
pub fn render_fields(email_address: &str, body: &str, request_id: u128, command: &str) -> (fields:
    Vec<(String, String)>)
    ensures
        fields_view(fields@) == command_fields(email_address@, body@, request_id, command@),
{
    let mut fields: Vec<(String, String)> = Vec::new();
    fields.push((String::from_str("userEmailAddr"), String::from_str(email_address)));
    fields.push((String::from_str("body"), String::from_str(body)));
    fields.push((String::from_str("requestId"), uuid_string(request_id)));
    fields.push((String::from_str("command"), String::from_str(command)));
    assert(fields_view(fields@) =~= command_fields(
        email_address@,
        body@,
        request_id,
        command@,
    ));
    fields
}

/// The text of an optional text.
pub open spec fn text_view(text: Option<String>) -> Option<Seq<char>> {
    match text {
        Some(t) => Some(t@),
        None => None,
    }
}

/// The fields that the template of a command's email is rendered with: the
/// address, the body, the request id as text, and the command with its
/// account code.
pub fn template_fields(event: &EmailEvent) -> (fields: Vec<(String, String)>)
    requires
        event is Command,
    ensures
        fields_view(fields@) == command_fields(
            event->email_address@,
            event->body@,
            event->request_id,
            command_text(event->Command_command@, text_view(event->account_code)),
        ),
{
    match event {
        EmailEvent::Command { request_id, email_address, command, account_code, subject, body } => {
            let shown = match account_code {
                Some(code) => command_with_code(command.as_str(), Some(code.as_str())),
                None => command_with_code(command.as_str(), None),
            };
            render_fields(email_address.as_str(), body.as_str(), *request_id, shown.as_str())
        },
        _ => unreached(),
    }
}

/// The email that tells of a command, with the rendered template as its HTML
/// body. A reply to it is expected for the command's request.
pub fn handle_email_event(event: &EmailEvent, body_html: String) -> (outbound: Outbound)
    requires
        event is Command,
    ensures
        is_command_email(
            outbound,
            event->request_id,
            event->email_address@,
            event->subject@,
            body_html@,
        ),
{
    match event {
        EmailEvent::Command { request_id, email_address, command, account_code, subject, body } => {
            command_email(*request_id, email_address.as_str(), subject.as_str(), body_html)
        },
        _ => unreached(),
    }
}

/// What is to be recorded after the email gateway answered: the message id
/// of the email and the request that a reply belongs to.
#[derive(Clone, Debug, PartialEq, Eq)]
pub struct ReplyRecord {
    pub message_id: String,
    pub request_id: Option<String>,
}

/// What follows from the email gateway's answer.
///
/// A refused email gives `SendFailed` with the gateway's answer. An accepted
/// email that expects no reply gives nothing to record. One that expects a
/// reply gives the record to write, and `MissingMessageId` where the gateway
/// named no message id.
pub fn send_outcome(
    accepted: bool,
    answer: String,
    message_id: Option<String>,
    expects_reply: Option<ExpectsReply>,
) -> (outcome: Result<Option<ReplyRecord>, MailError>)
    ensures
        !accepted ==> outcome is Err && outcome->Err_0 is SendFailed
            && outcome->Err_0->detail@ == answer@,
        accepted && expects_reply is None ==> outcome is Ok && outcome->Ok_0 is None,
        accepted && expects_reply is Some && message_id is None ==> outcome is Err
            && outcome->Err_0 is MissingMessageId,
        accepted && expects_reply is Some && message_id is Some ==> outcome is Ok
            && outcome->Ok_0 is Some && outcome->Ok_0->Some_0.message_id@
            == message_id->Some_0@ && text_view(outcome->Ok_0->Some_0.request_id) == text_view(
            expects_reply->Some_0.request_id,
        ),
{
    if !accepted {
        return Err(MailError::SendFailed { detail: answer });
    }
    match expects_reply {
        Some(expects) => match message_id {
            Some(id) => Ok(Some(ReplyRecord { message_id: id, request_id: expects.request_id })),
            None => Err(MailError::MissingMessageId),
        },
        None => Ok(None),
    }
}

} // verus!
