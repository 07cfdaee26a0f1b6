use vstd::prelude::*;
use vstd::string::StringExecFns;

use crate::model::{opt_text_view, DeliveryTarget, ParsedMessage, RelayError};
use crate::render::{format_message, formatted_message};
use crate::resolve::{follows_resolution, resolution, resolve, Resolution};

verus! {

/// Whether an HTTP status code indicates success.
pub open spec fn http_success(status: u16) -> bool {
    200 <= status < 300
}

/// The chat API endpoint for one bot token.
pub open spec fn chat_api_url_spec(bot_token: Seq<char>) -> Seq<char> {
    "https://api.telegram.org/bot"@ + bot_token + "/sendMessage"@
}

/// Builds the chat API endpoint for one bot token.
pub fn chat_api_url(bot_token: &str) -> (r: String)
    ensures
        r@ == chat_api_url_spec(bot_token@),
{
    let mut out = "https://api.telegram.org/bot".to_owned();
    out.append(bot_token);
    out.append("/sendMessage");
    out
}

/// The markup dialect identifier the chat API is told to parse.
pub fn parse_mode() -> (r: String)
    ensures
        r@ == "HTML"@,
{
    "HTML".to_owned()
}

/// Classifies the chat API's answer: any success status delivers; any other
/// status is a rejection that carries the raw response body verbatim.
pub fn classify_chat_response(status: u16, body: String) -> (r: Result<(), RelayError>)
    ensures
        http_success(status) ==> r == Ok::<(), RelayError>(()),
        !http_success(status) ==> r == Err::<(), RelayError>(RelayError::DeliveryRejected { body }),
{
    if 200 <= status && status < 300 {
        Ok(())
    } else {
        Err(RelayError::DeliveryRejected { body })
    }
}

/// Everything one delivery attempt needs, computed before any transport is
/// touched: the raw bytes pass to the local MTA unchanged, or the chat API
/// is called at its endpoint with a chat identifier and the formatted text.
pub enum DeliveryPlan {
    Mta,
    Chat { chat_id: String, url: String, text: String },
}

/// Whether a plan says what the resolver and the formatter decide for the
/// message: the MTA path for `Mta`; for `Chat`, the resolved chat identifier,
/// the endpoint of the resolved bot token, and the formatted payload.
pub open spec fn follows_plan(
    m: Resolution,
    msg: ParsedMessage,
    r: Result<DeliveryPlan, RelayError>,
) -> bool {
    match m {
        Resolution::Mta => r == Ok::<DeliveryPlan, RelayError>(DeliveryPlan::Mta),
        Resolution::Chat { chat_id, bot_token } => match r {
            Ok(DeliveryPlan::Chat { chat_id: id, url, text }) => id@ == chat_id && url@
                == chat_api_url_spec(bot_token) && text@ == formatted_message(
                msg.subject,
                msg.from,
                msg.to,
                msg.bodies.deep_view(),
            ),
            _ => false,
        },
        Resolution::BadAddress => r == Err::<DeliveryPlan, RelayError>(RelayError::InvalidAddress),
    }
}

/// Turns one parsed message and the operator's override into a delivery
/// plan: resolve the target, and for the chat path format the payload and
/// the endpoint.  Fails exactly when a chosen chat address lacks its `@`.
pub fn prepare_delivery(override_addr: &Option<String>, msg: &ParsedMessage) -> (r: Result<
    DeliveryPlan,
    RelayError,
>)
    ensures
        follows_plan(resolution(opt_text_view(*override_addr), msg.to), *msg, r),
{
    match resolve(override_addr, &msg.to) {
        Ok(DeliveryTarget::LocalMta) => Ok(DeliveryPlan::Mta),
        Ok(DeliveryTarget::ChatApi { chat_id, bot_token }) => {
            let text = format_message(&msg.subject, &msg.from, &msg.to, &msg.bodies);
            let url = chat_api_url(bot_token.as_str());
            Ok(DeliveryPlan::Chat { chat_id, url, text })
        },
        Err(e) => Err(e),
    }
}

} // verus!
