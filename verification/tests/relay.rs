use mailrelay::dispatch::{chat_api_url, classify_chat_response, parse_mode, DeliveryPlan};
use mailrelay::model::{AddressValue, DeliveryTarget, RelayError};
use mailrelay::parse::parse_message;
use mailrelay::render::{format_address, format_message, join_bodies};
use mailrelay::resolve::resolve;
use mailrelay::dispatch::prepare_delivery;

fn single(name: Option<&str>, address: Option<&str>) -> AddressValue {
    AddressValue::Single {
        name: name.map(|s| s.to_string()),
        address: address.map(|s| s.to_string()),
    }
}

#[test]
fn resolves_tg_to_address_to_chat() {
    let to = single(None, Some("tg:12345@TOKEN"));
    match resolve(&None, &to) {
        Ok(DeliveryTarget::ChatApi { chat_id, bot_token }) => {
            assert_eq!(chat_id, "12345");
            assert_eq!(bot_token, "TOKEN");
        }
        _ => panic!("expected the chat API target"),
    }
}

#[test]
fn splits_at_first_at_sign() {
    let to = single(Some("X"), Some("tg:a@b@c"));
    match resolve(&None, &to) {
        Ok(DeliveryTarget::ChatApi { chat_id, bot_token }) => {
            assert_eq!(chat_id, "a");
            assert_eq!(bot_token, "b@c");
        }
        _ => panic!("expected the chat API target"),
    }
}

#[test]
fn override_takes_precedence_over_to_header() {
    let to = single(None, Some("tg:99@OTHER"));
    match resolve(&Some("77@TOK".to_string()), &to) {
        Ok(DeliveryTarget::ChatApi { chat_id, bot_token }) => {
            assert_eq!(chat_id, "77");
            assert_eq!(bot_token, "TOK");
        }
        _ => panic!("expected the chat API target"),
    }
}

#[test]
fn override_without_at_is_invalid() {
    let to = single(None, Some("user@example.com"));
    match resolve(&Some("noatsign".to_string()), &to) {
        Err(RelayError::InvalidAddress) => {}
        _ => panic!("expected the invalid-address error"),
    }
}

#[test]
fn embedded_address_without_at_is_invalid() {
    let to = single(None, Some("tg:noatsign"));
    match resolve(&None, &to) {
        Err(RelayError::InvalidAddress) => {}
        _ => panic!("expected the invalid-address error"),
    }
}

#[test]
fn empty_chat_id_half_is_kept() {
    match resolve(&None, &single(None, Some("tg:@TOKEN"))) {
        Ok(DeliveryTarget::ChatApi { chat_id, bot_token }) => {
            assert_eq!(chat_id, "");
            assert_eq!(bot_token, "TOKEN");
        }
        _ => panic!("expected the chat API target"),
    }
}

#[test]
fn plain_address_goes_to_mta() {
    let to = single(Some("Bob"), Some("user@example.com"));
    assert!(matches!(resolve(&None, &to), Ok(DeliveryTarget::LocalMta)));
}

#[test]
fn missing_or_group_to_goes_to_mta() {
    assert!(matches!(
        resolve(&None, &single(Some("Bob"), None)),
        Ok(DeliveryTarget::LocalMta)
    ));
    assert!(matches!(
        resolve(&None, &AddressValue::Other),
        Ok(DeliveryTarget::LocalMta)
    ));
}

#[test]
fn prefix_must_be_exact() {
    assert!(matches!(
        resolve(&None, &single(None, Some("tg12345@TOKEN"))),
        Ok(DeliveryTarget::LocalMta)
    ));
    assert!(matches!(
        resolve(&None, &single(None, Some("t@x"))),
        Ok(DeliveryTarget::LocalMta)
    ));
}

#[test]
fn subject_defaults_when_absent() {
    let msg = format_message(
        &None,
        &AddressValue::Other,
        &AddressValue::Other,
        &vec!["Hi".to_string()],
    );
    assert_eq!(msg.lines().next().unwrap(), "<b>no subject</b>");
    assert_eq!(
        msg,
        "<b>no subject</b>\nFrom: <code>none</code>\nTo: <code>none</code>\n\nHi"
    );
}

#[test]
fn two_bodies_join_with_separator() {
    let joined = join_bodies(&vec!["A".to_string(), "B".to_string()]);
    assert_eq!(joined, "A\n---\nB");
}

#[test]
fn empty_and_single_body_join() {
    assert_eq!(join_bodies(&vec![]), "");
    assert_eq!(join_bodies(&vec!["only".to_string()]), "only");
}

#[test]
fn script_subject_is_escaped() {
    let msg = format_message(
        &Some("<script>".to_string()),
        &AddressValue::Other,
        &AddressValue::Other,
        &vec![],
    );
    assert!(msg.contains("&lt;script&gt;"));
    assert!(!msg.contains("<script>"));
    assert_eq!(
        msg,
        "<b>&lt;script&gt;</b>\nFrom: <code>none</code>\nTo: <code>none</code>\n\n"
    );
}

#[test]
fn safe_text_renders_unchanged() {
    let msg = format_message(
        &Some("Hello".to_string()),
        &single(None, Some("a@b")),
        &single(None, Some("c@d")),
        &vec!["plain text.".to_string()],
    );
    assert_eq!(
        msg,
        "<b>Hello</b>\nFrom: <code>a@b</code>\nTo: <code>c@d</code>\n\nplain text."
    );
}

#[test]
fn body_markup_is_escaped() {
    let msg = format_message(
        &Some("s".to_string()),
        &AddressValue::Other,
        &AddressValue::Other,
        &vec!["a & b < c".to_string()],
    );
    assert!(msg.ends_with("\n\na &amp; b &lt; c"));
}

#[test]
fn named_address_renders_with_escaped_name() {
    let r = format_address(&single(Some("A & B"), Some("ab@example.com")));
    assert_eq!(r, "A &amp; B &lt;ab@example.com&gt;");
}

#[test]
fn address_without_address_part_renders_none() {
    assert_eq!(format_address(&single(Some("Nobody"), None)), "none");
    assert_eq!(format_address(&single(None, None)), "none");
}

#[test]
fn bare_address_renders_plain() {
    let r = format_address(&single(None, Some("ab@example.com")));
    assert_eq!(r, "ab@example.com");
}

#[test]
fn group_address_renders_none() {
    assert_eq!(format_address(&AddressValue::Other), "none");
}

#[test]
fn chat_url_is_built_from_token() {
    assert_eq!(
        chat_api_url("TOKEN"),
        "https://api.telegram.org/botTOKEN/sendMessage"
    );
    assert_eq!(parse_mode(), "HTML");
}

#[test]
fn rejected_response_keeps_body_verbatim() {
    let body = "{\"ok\":false,\"description\":\"Bad Request\"}";
    match classify_chat_response(400, body.to_string()) {
        Err(RelayError::DeliveryRejected { body: kept }) => assert_eq!(kept, body),
        _ => panic!("expected the delivery-rejected error"),
    }
}

#[test]
fn success_response_is_ok() {
    assert!(classify_chat_response(200, String::new()).is_ok());
    assert!(classify_chat_response(204, String::new()).is_ok());
    assert!(matches!(
        classify_chat_response(500, "oops".to_string()),
        Err(RelayError::DeliveryRejected { .. })
    ));
}

#[test]
fn errors_describe_their_stage() {
    assert_eq!(
        RelayError::ParseError.describe(),
        "parse error: the input does not form a valid message"
    );
    assert_eq!(
        RelayError::InvalidAddress.describe(),
        "invalid address: no '@' separator"
    );
    assert_eq!(
        RelayError::TransportError { detail: "spawn failed".to_string() }.describe(),
        "transport error: spawn failed"
    );
    assert_eq!(
        RelayError::DeliveryRejected { body: "{}".to_string() }.describe(),
        "delivery rejected: {}"
    );
}

#[test]
fn parses_a_full_message() {
    let raw = b"From: Alice Example <alice@example.com>\r\n\
To: <tg:12345@TOKEN>\r\n\
Subject: Greetings\r\n\
Content-Type: text/plain\r\n\r\n\
Hello world";
    let msg = parse_message(raw).expect("the message parses");
    match &msg.to {
        AddressValue::Single { name, address } => {
            assert_eq!(name.as_deref(), None);
            assert_eq!(address.as_deref(), Some("tg:12345@TOKEN"));
        }
        _ => panic!("expected a single To address"),
    }
    match &msg.from {
        AddressValue::Single { name, address } => {
            assert_eq!(name.as_deref(), Some("Alice Example"));
            assert_eq!(address.as_deref(), Some("alice@example.com"));
        }
        _ => panic!("expected a single From address"),
    }
    assert_eq!(msg.subject.as_deref(), Some("Greetings"));
    assert_eq!(msg.bodies, vec!["Hello world".to_string()]);

    match prepare_delivery(&None, &msg) {
        Ok(DeliveryPlan::Chat { chat_id, url, text }) => {
            assert_eq!(chat_id, "12345");
            assert_eq!(url, "https://api.telegram.org/botTOKEN/sendMessage");
            assert_eq!(
                text,
                "<b>Greetings</b>\nFrom: <code>Alice Example &lt;alice@example.com&gt;</code>\n\
To: <code>tg:12345@TOKEN</code>\n\nHello world"
            );
        }
        _ => panic!("expected a chat delivery plan"),
    }
}

#[test]
fn bare_group_syntax_to_header_goes_to_mta() {
    let raw = b"From: a@b\r\nTo: tg:12345@TOKEN\r\nSubject: s\r\n\r\nhi";
    let msg = parse_message(raw).expect("the message parses");
    assert!(matches!(&msg.to, AddressValue::Other));
    assert!(matches!(
        prepare_delivery(&None, &msg),
        Ok(DeliveryPlan::Mta)
    ));
}

#[test]
fn empty_input_fails_at_parse_stage() {
    match parse_message(b"") {
        Err(RelayError::ParseError) => {}
        _ => panic!("expected the parse-stage error"),
    }
}
