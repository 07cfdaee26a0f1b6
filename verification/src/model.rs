use vstd::prelude::*;
use vstd::string::StringExecFns;

verus! {

/// A "To" or "From" header as the routing logic reads it: a single concrete
/// address whose display name and address part are each optional, or anything
/// else (absent, malformed, a list of addresses, a group), which the relay
/// never routes on.
pub enum AddressValue {
    Single { name: Option<String>, address: Option<String> },
    Other,
}

/// One parsed message, reduced to the fields the relay reads: the two
/// addresses, the optional subject, and the ordered text body parts.
pub struct ParsedMessage {
    pub to: AddressValue,
    pub from: AddressValue,
    pub subject: Option<String>,
    pub bodies: Vec<String>,
}

/// Where one message is delivered: the local mail-transfer agent, or the
/// chat API under a chat identifier and a bot token.
pub enum DeliveryTarget {
    LocalMta,
    ChatApi { chat_id: String, bot_token: String },
}

/// Why a run failed, by stage.
#[derive(Debug)]
pub enum RelayError {
    /// The input bytes do not form a valid message; nothing was delivered.
    ParseError,
    /// An override or derived chat address lacks the `@` separator.
    InvalidAddress,
    /// The chosen transport could not be reached or written to.
    TransportError { detail: String },
    /// The chat API answered, but declined the message; the raw response
    /// body is kept verbatim for the operator.
    DeliveryRejected { body: String },
}

/// The view of an optional text value: the character sequence, if present.
pub open spec fn opt_text_view(o: Option<String>) -> Option<Seq<char>> {
    match o {
        Some(s) => Some(s@),
        None => None,
    }
}

impl RelayError {
    /// The operator-facing diagnostic: the failing stage, then the cause.
    pub open spec fn describe_spec(&self) -> Seq<char> {
        match self {
            RelayError::ParseError => "parse error: the input does not form a valid message"@,
            RelayError::InvalidAddress => "invalid address: no '@' separator"@,
            RelayError::TransportError { detail } => "transport error: "@ + detail@,
            RelayError::DeliveryRejected { body } => "delivery rejected: "@ + body@,
        }
    }

    /// Renders the diagnostic for the operator.
    pub fn describe(&self) -> (r: String)
        ensures
            r@ == self.describe_spec(),
    {
        match self {
            RelayError::ParseError => {
                "parse error: the input does not form a valid message".to_owned()
            },
            RelayError::InvalidAddress => "invalid address: no '@' separator".to_owned(),
            RelayError::TransportError { detail } => {
                let mut r = "transport error: ".to_owned();
                r.append(detail.as_str());
                r
            },
            RelayError::DeliveryRejected { body } => {
                let mut r = "delivery rejected: ".to_owned();
                r.append(body.as_str());
                r
            },
        }
    }
}

} // verus!
