use vstd::prelude::*;

use crate::model::{opt_text_view, AddressValue, ParsedMessage, RelayError};

verus! {

/// Whether the raw bytes form a message that the mail syntax parser
/// accepts.
pub uninterp spec fn parses(raw: Seq<u8>) -> bool;

/// The To header the mail syntax parser reads out of the raw bytes.
pub uninterp spec fn to_of(raw: Seq<u8>) -> AddressValue;

/// The From header the mail syntax parser reads out of the raw bytes.
pub uninterp spec fn from_of(raw: Seq<u8>) -> AddressValue;

/// The Subject header the mail syntax parser reads out of the raw bytes.
pub uninterp spec fn subject_of(raw: Seq<u8>) -> Option<Seq<char>>;

/// The raw text of every text-bearing body part, in order, as the mail
/// syntax parser reads them out of the raw bytes.
pub uninterp spec fn bodies_of(raw: Seq<u8>) -> Seq<Seq<char>>;

/// Relies on mail_parser::Message::parse followed by Message::to: parses
/// the raw bytes (a best effort that never panics; nothing when no headers
/// are found) and hands out the To header.  A single concrete address
/// keeps its display name and address part; any other header shape (list,
/// group, text, absent) is reduced to `Other`.  Parse and accessor depend
/// on the bytes alone.
#[verifier::external_body]
fn to_header(raw: &[u8]) -> (r: Option<AddressValue>)
    ensures
        r is Some <==> parses(raw@),
        match r {
            Some(v) => v == to_of(raw@),
            None => true,
        },
{
    let m = mail_parser::Message::parse(raw)?;
    Some(match m.to() {
        mail_parser::HeaderValue::Address(a) => AddressValue::Single {
            name: a.name.clone().map(|c| c.into_owned()),
            address: a.address.clone().map(|c| c.into_owned()),
        },
        _ => AddressValue::Other,
    })
}

/// Relies on mail_parser::Message::parse followed by Message::from: the
/// From header, reduced exactly as the To header is.
#[verifier::external_body]
fn from_header(raw: &[u8]) -> (r: Option<AddressValue>)
    ensures
        r is Some <==> parses(raw@),
        match r {
            Some(v) => v == from_of(raw@),
            None => true,
        },
{
    let m = mail_parser::Message::parse(raw)?;
    Some(match m.from() {
        mail_parser::HeaderValue::Address(a) => AddressValue::Single {
            name: a.name.clone().map(|c| c.into_owned()),
            address: a.address.clone().map(|c| c.into_owned()),
        },
        _ => AddressValue::Other,
    })
}

/// Relies on mail_parser::Message::parse followed by Message::subject: the
/// Subject header as text, if the message has one.
#[verifier::external_body]
fn subject_header(raw: &[u8]) -> (r: Option<Option<String>>)
    ensures
        r is Some <==> parses(raw@),
        match r {
            Some(v) => opt_text_view(v) == subject_of(raw@),
            None => true,
        },
{
    let m = mail_parser::Message::parse(raw)?;
    Some(m.subject().map(|s| s.to_owned()))
}

/// Relies on mail_parser::Message::parse followed by Message::text_bodies
/// and MessagePart::text_contents: the raw text of every text-bearing body
/// part, in order; parts that bear no text are dropped.
#[verifier::external_body]
fn body_texts(raw: &[u8]) -> (r: Option<Vec<String>>)
    ensures
        r is Some <==> parses(raw@),
        match r {
            Some(v) => v.deep_view() == bodies_of(raw@),
            None => true,
        },
{
    let m = mail_parser::Message::parse(raw)?;
    Some(m.text_bodies().filter_map(|p| p.text_contents()).map(|s| s.to_owned()).collect())
}

/// Parses one raw message into the relay's model: the To, From and Subject
/// headers and the text body parts that the mail syntax parser reads out of
/// the bytes.  Succeeds exactly when the parser accepts the bytes; fails
/// with the parse-stage error otherwise.
pub fn parse_message(raw: &[u8]) -> (r: Result<ParsedMessage, RelayError>)
    ensures
        r is Ok <==> parses(raw@),
        match r {
            Ok(m) => m.to == to_of(raw@) && m.from == from_of(raw@) && opt_text_view(m.subject)
                == subject_of(raw@) && m.bodies.deep_view() == bodies_of(raw@),
            Err(e) => e == RelayError::ParseError,
        },
{
    match (to_header(raw), from_header(raw), subject_header(raw), body_texts(raw)) {
        (Some(to), Some(from), Some(subject), Some(bodies)) => Ok(
            ParsedMessage { to, from, subject, bodies },
        ),
        _ => Err(RelayError::ParseError),
    }
}

} // verus!
