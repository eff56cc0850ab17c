use relayer::mail::{
    command_email, command_with_code, handle_email_event, plain_body, render_fields,
    send_endpoint, send_outcome, template_fields, EmailEvent, EmailMessage, ExpectsReply,
    MailError, Outbound, ReplyRecord,
};

const ID: u128 = 0xa1a2a3a4_b1b2_c1c2_d1d2_d3d4d5d6d7d8;
const ID_TEXT: &str = "a1a2a3a4-b1b2-c1c2-d1d2-d3d4d5d6d7d8";

fn command(account_code: Option<&str>) -> EmailEvent {
    EmailEvent::Command {
        request_id: ID,
        email_address: "alice@example.com".to_string(),
        command: "recover account".to_string(),
        account_code: account_code.map(|c| c.to_string()),
        subject: "Recovery".to_string(),
        body: "Please confirm".to_string(),
    }
}

#[test]
fn command_is_shown_with_its_code() {
    assert_eq!(command_with_code("recover account", Some("1234")), "recover account Code 1234");
    assert_eq!(command_with_code("recover account", None), "recover account");
    assert_eq!(command_with_code("", Some("")), " Code ");
}

#[test]
fn plain_body_names_the_request() {
    assert_eq!(plain_body(ID), format!("ZK Email request. Your request ID is {}", ID_TEXT));
    assert_eq!(
        plain_body(0),
        "ZK Email request. Your request ID is 00000000-0000-0000-0000-000000000000"
    );
    assert_eq!(
        plain_body(u128::MAX),
        "ZK Email request. Your request ID is ffffffff-ffff-ffff-ffff-ffffffffffff"
    );
}

#[test]
fn expectation_holds_the_request_id_as_text() {
    assert_eq!(ExpectsReply::new(ID), ExpectsReply { request_id: Some(ID_TEXT.to_string()) });
    assert_eq!(
        ExpectsReply::new(0x1f),
        ExpectsReply { request_id: Some("00000000-0000-0000-0000-00000000001f".to_string()) }
    );
    assert_eq!(ExpectsReply::new_no_request_id(), ExpectsReply { request_id: None });
}

#[test]
fn endpoint_is_under_the_gateway() {
    assert_eq!(send_endpoint("http://smtp.local:3000"), "http://smtp.local:3000/api/sendEmail");
    assert_eq!(send_endpoint(""), "/api/sendEmail");
}

#[test]
fn template_fields_are_named() {
    assert_eq!(
        render_fields("alice@example.com", "hello", ID, "recover account"),
        vec![
            ("userEmailAddr".to_string(), "alice@example.com".to_string()),
            ("body".to_string(), "hello".to_string()),
            ("requestId".to_string(), ID_TEXT.to_string()),
            ("command".to_string(), "recover account".to_string()),
        ]
    );
}

#[test]
fn command_email_expects_a_reply() {
    let out = command_email(ID, "alice@example.com", "Recovery", "<p>hi</p>".to_string());
    assert_eq!(
        out,
        Outbound {
            email: EmailMessage {
                to: "alice@example.com".to_string(),
                subject: "Recovery".to_string(),
                reference: None,
                reply_to: None,
                body_plain: format!("ZK Email request. Your request ID is {}", ID_TEXT),
                body_html: "<p>hi</p>".to_string(),
                body_attachments: None,
            },
            expects_reply: Some(ExpectsReply { request_id: Some(ID_TEXT.to_string()) }),
        }
    );
}

fn render(template: &str, fields: &Vec<(String, String)>) -> Option<String> {
    let mut data = serde_json::Map::new();
    for (name, value) in fields {
        data.insert(name.clone(), serde_json::Value::String(value.clone()));
    }
    handlebars::Handlebars::new().render_template(template, &data).ok()
}

#[test]
fn command_event_gives_the_template_fields() {
    assert_eq!(
        template_fields(&command(Some("1234"))),
        vec![
            ("userEmailAddr".to_string(), "alice@example.com".to_string()),
            ("body".to_string(), "Please confirm".to_string()),
            ("requestId".to_string(), ID_TEXT.to_string()),
            ("command".to_string(), "recover account Code 1234".to_string()),
        ]
    );
    assert_eq!(template_fields(&command(None))[3].1, "recover account");
}

#[test]
fn command_event_is_rendered_with_the_template() {
    let template = "<p>{{userEmailAddr}}|{{command}}|{{requestId}}|{{body}}</p>";
    let html = render(template, &template_fields(&command(Some("1234")))).unwrap();
    assert_eq!(
        html,
        format!("<p>alice@example.com|recover account Code 1234|{}|Please confirm</p>", ID_TEXT)
    );
    let out = handle_email_event(&command(Some("1234")), html.clone());
    assert_eq!(out.email.body_html, html);
    assert_eq!(out.email.to, "alice@example.com");
    assert_eq!(out.email.subject, "Recovery");
    assert_eq!(out.email.reference, None);
    assert_eq!(out.email.reply_to, None);
    assert_eq!(out.email.body_attachments, None);
    assert_eq!(
        out.email.body_plain,
        format!("ZK Email request. Your request ID is {}", ID_TEXT)
    );
    assert_eq!(out.expects_reply, Some(ExpectsReply::new(ID)));
}

#[test]
fn command_event_is_the_command_email() {
    let out = handle_email_event(&command(None), "<b>x</b>".to_string());
    assert_eq!(out, command_email(ID, "alice@example.com", "Recovery", "<b>x</b>".to_string()));
    let empty = handle_email_event(&command(None), String::new());
    assert_eq!(empty.email.body_html, "");
}

#[test]
fn refused_email_reports_the_gateway_answer() {
    let outcome = send_outcome(
        false,
        "mailbox full".to_string(),
        Some("M1".to_string()),
        Some(ExpectsReply::new(ID)),
    );
    assert_eq!(outcome, Err(MailError::SendFailed { detail: "mailbox full".to_string() }));
    let bare = send_outcome(false, String::new(), None, None);
    assert_eq!(bare, Err(MailError::SendFailed { detail: String::new() }));
}

#[test]
fn accepted_email_without_expectation_records_nothing() {
    assert_eq!(send_outcome(true, "ok".to_string(), Some("M1".to_string()), None), Ok(None));
    assert_eq!(send_outcome(true, "ok".to_string(), None, None), Ok(None));
}

#[test]
fn accepted_email_with_expectation_records_the_message() {
    let outcome =
        send_outcome(true, "ok".to_string(), Some("M1".to_string()), Some(ExpectsReply::new(ID)));
    assert_eq!(
        outcome,
        Ok(Some(ReplyRecord {
            message_id: "M1".to_string(),
            request_id: Some(ID_TEXT.to_string())
        }))
    );
    let anonymous = send_outcome(
        true,
        "ok".to_string(),
        Some("M2".to_string()),
        Some(ExpectsReply::new_no_request_id()),
    );
    assert_eq!(
        anonymous,
        Ok(Some(ReplyRecord { message_id: "M2".to_string(), request_id: None }))
    );
}

#[test]
fn accepted_email_without_message_id_cannot_be_recorded() {
    let outcome = send_outcome(true, "ok".to_string(), None, Some(ExpectsReply::new(ID)));
    assert_eq!(outcome, Err(MailError::MissingMessageId));
}
