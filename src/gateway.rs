//! The answers the webhook gives: the handshake, the command response, and
//! the fallbacks, each as a status and a JSON body.
use vstd::prelude::*;
use crate::commands::{command_kind, Command};
use crate::discord::InteractionObject;
use crate::json::{json_text_of, quote_json};
use crate::response::ValidatedResponse;

verus! {

/// A response on the wire.
pub struct WireResponse {
    pub status: u16,
    pub body: String,
}

impl View for WireResponse {
    type V = (u16, Seq<char>);

    open spec fn view(&self) -> (u16, Seq<char>) {
        (self.status, self.body@)
    }
}

pub open spec fn handshake_json() -> Seq<char> {
    "{\"type\":1}"@
}

pub open spec fn not_implemented_json() -> Seq<char> {
    "{\"error\":\"Not implemented.\"}"@
}

pub open spec fn unauthorized_json() -> Seq<char> {
    "{\"error\":\"Invalid request signature.\"}"@
}

/// The platform flag for a response that only the invoker sees.
pub open spec fn flags_json(ephemeral: bool) -> Seq<char> {
    if ephemeral {
        "64"@
    } else {
        "0"@
    }
}

/// The message response of a command, shown only to the invoker when it
/// reports an error.
pub open spec fn command_json(content: Seq<char>, is_error: bool) -> Seq<char> {
    "{\"data\":{\"allowed_mentions\":{\"parse\":[]},\"content\":"@ + json_text_of(content)
        + ",\"embeds\":[],\"flags\":"@ + flags_json(is_error) + ",\"tts\":false},\"type\":4}"@
}

/// The answer to a handshake.
pub fn handshake() -> (r: WireResponse)
    ensures
        r@ == (200u16, handshake_json()),
{
    WireResponse { status: 200, body: String::from_str("{\"type\":1}") }
}

/// The answer to what the bot does not implement.
pub fn not_implemented() -> (r: WireResponse)
    ensures
        r@ == (404u16, not_implemented_json()),
{
    WireResponse { status: 404, body: String::from_str("{\"error\":\"Not implemented.\"}") }
}

/// The answer to a request that failed authentication; it holds nothing of
/// the request.
pub fn unauthorized() -> (r: WireResponse)
    ensures
        r@ == (401u16, unauthorized_json()),
{
    WireResponse { status: 401, body: String::from_str("{\"error\":\"Invalid request signature.\"}") }
}

/// The answer that delivers a command's content.
pub fn command_response(v: &ValidatedResponse) -> (r: WireResponse)
    ensures
        r@ == (200u16, command_json(v.content@, v.is_error)),
{
    let content = quote_json(v.content.as_str());
    let mut body = String::from_str("{\"data\":{\"allowed_mentions\":{\"parse\":[]},\"content\":");
    body.append(content.as_str());
    body.append(",\"embeds\":[],\"flags\":");
    if v.is_error {
        body.append("64");
    } else {
        body.append("0");
    }
    body.append(",\"tts\":false},\"type\":4}");
    WireResponse { status: 200, body }
}

/// What the webhook does with an authenticated interaction.
pub enum GatewayStep {
    Respond(WireResponse),
    Execute(Command),
}

/// Routes an authenticated interaction: a handshake is acknowledged, a
/// known command is handed on, and anything else gets the fallback.
pub fn route_interaction(obj: InteractionObject) -> (r: GatewayStep)
    ensures
        obj.interaction_type == 1 ==> (r matches GatewayStep::Respond(w) && w@ == (
            200u16,
            handshake_json(),
        )),
        obj.interaction_type == 2 ==> match obj.data {
            Some(d) => match command_kind(d.name@) {
                Some(k) => r matches GatewayStep::Execute(c) && c.kind() == k && c.interaction()
                    == d,
                None => r matches GatewayStep::Respond(w) && w@ == (404u16, not_implemented_json()),
            },
            None => r matches GatewayStep::Respond(w) && w@ == (404u16, not_implemented_json()),
        },
        obj.interaction_type != 1 && obj.interaction_type != 2 ==> (r matches GatewayStep::Respond(
            w,
        ) && w@ == (404u16, not_implemented_json())),
{
    if obj.interaction_type == 1 {
        GatewayStep::Respond(handshake())
    } else if obj.interaction_type == 2 {
        match obj.data {
            Some(d) => match Command::new(d) {
                Some(c) => GatewayStep::Execute(c),
                None => GatewayStep::Respond(not_implemented()),
            },
            None => GatewayStep::Respond(not_implemented()),
        }
    } else {
        GatewayStep::Respond(not_implemented())
    }
}

} // verus!
