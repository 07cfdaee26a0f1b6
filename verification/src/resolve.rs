use vstd::prelude::*;
use vstd::string::StrSliceExecFns;

use crate::model::{opt_text_view, AddressValue, DeliveryTarget, RelayError};

verus! {

/// Whether the text holds an `@` separator at all.
pub open spec fn has_at(s: Seq<char>) -> bool {
    exists|i: int| 0 <= i < s.len() && s[i] == '@'
}

/// The position of the first `@` (meaningful only when `has_at` holds).
pub open spec fn first_at(s: Seq<char>) -> int
    decreases s.len(),
{
    if s.len() == 0 {
        0
    } else if s[0] == '@' {
        0
    } else {
        1 + first_at(s.drop_first())
    }
}

/// The chat identifier of an address in `<chat id>@<bot token>` form:
/// everything before the first `@`.
pub open spec fn chat_id_of(s: Seq<char>) -> Seq<char> {
    s.take(first_at(s))
}

/// The bot token of an address in `<chat id>@<bot token>` form:
/// everything after the first `@`.
pub open spec fn bot_token_of(s: Seq<char>) -> Seq<char> {
    s.skip(first_at(s) + 1)
}

/// The address convention that embeds a chat destination in a mail address.
pub open spec fn tg_prefix() -> Seq<char> {
    seq!['t', 'g', ':']
}

/// Whether an address begins with the literal `tg:` convention prefix.
pub open spec fn has_tg_prefix(s: Seq<char>) -> bool {
    s.len() >= 3 && s.take(3) == tg_prefix()
}

/// The chat address embedded in the "To" header, if any: the header must be
/// a single concrete address whose address part begins with `tg:`; the
/// embedded address is what follows that prefix.  A missing, malformed,
/// multi-recipient or group header embeds nothing.
pub open spec fn embedded_chat_address(to: AddressValue) -> Option<Seq<char>> {
    match to {
        AddressValue::Single { name: _, address } => match address {
            Some(a) => if has_tg_prefix(a@) {
                Some(a@.skip(3))
            } else {
                None
            },
            None => None,
        },
        AddressValue::Other => None,
    }
}

/// The chat address one run goes by: the operator's override when present,
/// else whatever the "To" header embeds.
pub open spec fn chosen_chat_address(ov: Option<Seq<char>>, to: AddressValue) -> Option<
    Seq<char>,
> {
    match ov {
        Some(a) => Some(a),
        None => embedded_chat_address(to),
    }
}

/// The resolver's decision, stated over character sequences.
pub enum Resolution {
    /// No chat address was chosen: deliver through the local MTA.
    Mta,
    /// A chat address was chosen and splits at its first `@`.
    Chat { chat_id: Seq<char>, bot_token: Seq<char> },
    /// A chat address was chosen but holds no `@` separator.
    BadAddress,
}

/// What the resolver decides for a given override and "To" header.
pub open spec fn resolution(ov: Option<Seq<char>>, to: AddressValue) -> Resolution {
    match chosen_chat_address(ov, to) {
        None => Resolution::Mta,
        Some(a) => if has_at(a) {
            Resolution::Chat { chat_id: chat_id_of(a), bot_token: bot_token_of(a) }
        } else {
            Resolution::BadAddress
        },
    }
}

/// Whether an executable resolver result says what `resolution` decides.
pub open spec fn follows_resolution(m: Resolution, r: Result<DeliveryTarget, RelayError>) -> bool {
    match m {
        Resolution::Mta => r == Ok::<DeliveryTarget, RelayError>(DeliveryTarget::LocalMta),
        Resolution::Chat { chat_id, bot_token } => match r {
            Ok(DeliveryTarget::ChatApi { chat_id: id, bot_token: tok }) => id@ == chat_id
                && tok@ == bot_token,
            _ => false,
        },
        Resolution::BadAddress => r == Err::<DeliveryTarget, RelayError>(
            RelayError::InvalidAddress,
        ),
    }
}

/// The first position whose character is `@`, with none before it, is what
/// `first_at` computes.
proof fn lemma_first_at_is(s: Seq<char>, i: int)
    requires
        0 <= i < s.len(),
        s[i] == '@',
        forall|j: int| 0 <= j < i ==> s[j] != '@',
    ensures
        first_at(s) == i,
    decreases i,
{
    if i > 0 {
        lemma_first_at_is(s.drop_first(), i - 1);
    }
}

/// Splits a chat address at its first `@` into chat identifier and bot
/// token; refuses an address without one.
pub fn split_chat_address(s: &str) -> (r: Option<(String, String)>)
    ensures
        match r {
            Some(parts) => has_at(s@) && parts.0@ == chat_id_of(s@) && parts.1@ == bot_token_of(
                s@,
            ),
            None => !has_at(s@),
        },
{
    let n = s.unicode_len();
    let mut i: usize = 0;
    while i < n
        invariant
            n == s@.len(),
            0 <= i <= n,
            forall|j: int| 0 <= j < i ==> s@[j] != '@',
        decreases n - i,
    {
        if s.get_char(i) == '@' {
            proof {
                lemma_first_at_is(s@, i as int);
            }
            let id = s.substring_char(0, i).to_owned();
            let token = s.substring_char(i + 1, n).to_owned();
            proof {
                assert(id@ =~= chat_id_of(s@));
                assert(token@ =~= bot_token_of(s@));
            }
            return Some((id, token));
        }
        i += 1;
    }
    None
}

/// Strips the `tg:` convention prefix; yields what follows it, or nothing
/// when the address does not begin with the prefix.
pub fn strip_tg_prefix(s: &str) -> (r: Option<String>)
    ensures
        match r {
            Some(rest) => has_tg_prefix(s@) && rest@ == s@.skip(3),
            None => !has_tg_prefix(s@),
        },
{
    let n = s.unicode_len();
    if n < 3 {
        return None;
    }
    if s.get_char(0) == 't' && s.get_char(1) == 'g' && s.get_char(2) == ':' {
        proof {
            assert(s@.take(3) =~= tg_prefix());
        }
        let rest = s.substring_char(3, n).to_owned();
        Some(rest)
    } else {
        proof {
            assert(s@.take(3)[0] == s@[0]);
            assert(s@.take(3)[1] == s@[1]);
            assert(s@.take(3)[2] == s@[2]);
        }
        None
    }
}

/// Resolves one chosen chat address into a delivery target.
fn chat_target(addr: &str) -> (r: Result<DeliveryTarget, RelayError>)
    ensures
        follows_resolution(
            if has_at(addr@) {
                Resolution::Chat { chat_id: chat_id_of(addr@), bot_token: bot_token_of(addr@) }
            } else {
                Resolution::BadAddress
            },
            r,
        ),
{
    match split_chat_address(addr) {
        Some(parts) => Ok(DeliveryTarget::ChatApi { chat_id: parts.0, bot_token: parts.1 }),
        None => Err(RelayError::InvalidAddress),
    }
}

/// Decides where one message is delivered: the operator's override, when
/// present, always wins; else a single "To" address beginning with `tg:`
/// selects the chat API; anything else falls through to the local MTA.
/// A chosen chat address without an `@` separator is refused.
pub fn resolve(override_addr: &Option<String>, to: &AddressValue) -> (r: Result<
    DeliveryTarget,
    RelayError,
>)
    ensures
        follows_resolution(resolution(opt_text_view(*override_addr), *to), r),
{
    match override_addr {
        Some(a) => chat_target(a.as_str()),
        None => match to {
            AddressValue::Single { name: _, address: Some(a) } => {
                match strip_tg_prefix(a.as_str()) {
                    Some(rest) => chat_target(rest.as_str()),
                    None => Ok(DeliveryTarget::LocalMta),
                }
            },
            _ => Ok(DeliveryTarget::LocalMta),
        },
    }
}

/// Where some `@` stands in the text, `first_at` names the first one: it
/// is in range, holds `@`, and nothing before it does.
pub proof fn lemma_first_at_properties(s: Seq<char>)
    requires
        has_at(s),
    ensures
        0 <= first_at(s) < s.len(),
        s[first_at(s)] == '@',
        forall|j: int| 0 <= j < first_at(s) ==> s[j] != '@',
    decreases s.len(),
{
    let i = choose|i: int| 0 <= i < s.len() && s[i] == '@';
    if s[0] != '@' {
        assert(s.drop_first()[i - 1] == '@');
        lemma_first_at_properties(s.drop_first());
        assert(s[first_at(s)] == s.drop_first()[first_at(s) - 1]);
        assert forall|j: int| 0 <= j < first_at(s) implies s[j] != '@' by {
            if j > 0 {
                assert(s[j] == s.drop_first()[j - 1]);
            }
        }
    }
}

/// Both halves of a chat-address split are non-empty whenever the address
/// neither begins nor ends with its `@`; an address like `id@` or `@token`
/// keeps its empty half, as the resolver's own contract says.
pub proof fn lemma_split_halves_nonempty(a: Seq<char>)
    requires
        has_at(a),
        a[0] != '@',
        a[a.len() - 1] != '@',
    ensures
        chat_id_of(a).len() > 0,
        bot_token_of(a).len() > 0,
{
    lemma_first_at_properties(a);
    assert(first_at(a) != 0);
    assert(first_at(a) != a.len() - 1);
}

/// A message whose "To" address begins with `tg:` routes to the chat API
/// when no override is given: the target's chat identifier and bot token
/// are the remainder after `tg:`, split at its first `@`.
pub proof fn lemma_tg_address_routes_to_chat(name: Option<String>, a: String)
    requires
        has_tg_prefix(a@),
        has_at(a@.skip(3)),
    ensures
        resolution(None, AddressValue::Single { name, address: Some(a) }) == (Resolution::Chat {
            chat_id: chat_id_of(a@.skip(3)),
            bot_token: bot_token_of(a@.skip(3)),
        }),
{
}

/// Without an override and without a single `tg:`-prefixed "To" address —
/// including a missing, malformed, multi-recipient or group header — the
/// resolver always picks the local MTA.
pub proof fn lemma_default_is_local_mta(to: AddressValue)
    requires
        match to {
            AddressValue::Single { name: _, address } => match address {
                Some(a) => !has_tg_prefix(a@),
                None => true,
            },
            AddressValue::Other => true,
        },
    ensures
        resolution(None, to) == Resolution::Mta,
{
}

/// An explicit override takes precedence: with one present, the decision
/// never depends on the message's "To" header.
pub proof fn lemma_override_takes_precedence(ov: Seq<char>, to1: AddressValue, to2: AddressValue)
    ensures
        resolution(Some(ov), to1) == resolution(Some(ov), to2),
{
}

} // verus!
