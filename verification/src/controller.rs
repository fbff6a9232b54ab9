//! The mihomo external controller: request paths, authorization, and what
//! its answers mean.
use vstd::prelude::*;
use vstd::string::StringExecFns;
use vstd::utf8::encode_utf8;
use crate::config::AppConfig;
use crate::json::{json_parsed, parse_json, JsonNode};
use crate::text::{concat2, concat3, is_blank, owned, trim};
use crate::util::{json_quoted, json_string};

verus! {

/// A byte that percent-encoding leaves as it is: ASCII letters and digits,
/// `-`, `.`, `_` and `~`.
pub open spec fn url_safe_byte(b: u8) -> bool {
    (48 <= b <= 57) || (65 <= b <= 90) || (97 <= b <= 122) || b == 45 || b == 46 || b == 95 || b
        == 126
}

/// An upper-case hexadecimal digit.
pub open spec fn hex_digit(d: u8) -> char {
    if d < 10 {
        ((48 + d) as u8) as char
    } else {
        ((55 + d) as u8) as char
    }
}

/// Percent-encoding of bytes: safe bytes stay, every other byte becomes `%`
/// and two upper-case hexadecimal digits.
pub open spec fn percent_encoded(bytes: Seq<u8>) -> Seq<char>
    decreases bytes.len(),
{
    if bytes.len() == 0 {
        Seq::empty()
    } else {
        let b = bytes.last();
        percent_encoded(bytes.drop_last()) + if url_safe_byte(b) {
            seq![b as char]
        } else {
            seq!['%', hex_digit(b / 16), hex_digit(b % 16)]
        }
    }
}

/// A text percent-encoded for use in a URL path (`urlencoding::encode`):
/// every byte of its UTF-8 encoding except ASCII letters, digits, `-`, `.`,
/// `_` and `~` is written as `%XX`.
#[verifier::external_body]
pub fn encode_component(s: &str) -> (r: String)
    ensures
        r@ == percent_encoded(encode_utf8(s@)),
{
    urlencoding::encode(s).into_owned()
}

/// The path of a proxy group: `/proxies/` and the encoded group name.
pub fn proxy_path(group: &str) -> (r: String)
    ensures
        r@ == "/proxies/"@ + percent_encoded(encode_utf8(group@)),
{
    concat2("/proxies/", encode_component(group).as_str())
}

/// The URL of the delay test of a node.
pub fn delay_url(config: &AppConfig, node: &str) -> (r: String)
    ensures
        r@ == crate::config::controller_base_text(config.controller_address@) + "/proxies/"@
            + percent_encoded(encode_utf8(node@)) + "/delay"@,
{
    let base = config.controller_base();
    let node = encode_component(node);
    base.concat("/proxies/").concat(node.as_str()).concat("/delay")
}

/// The URL of a controller path.
pub fn controller_url(config: &AppConfig, path: &str) -> (r: String)
    ensures
        r@ == crate::config::controller_base_text(config.controller_address@) + path@,
{
    config.controller_base().concat(path)
}

/// The bearer token to send: the secret, unless it is absent or blank.
pub fn bearer_token(config: &AppConfig) -> (r: Option<String>)
    ensures
        match config.controller_secret {
            Some(s) if trim(s@).len() > 0 => r == Some(s),
            _ => r is None,
        },
{
    match &config.controller_secret {
        Some(s) => if is_blank(s.as_str()) {
            None
        } else {
            Some(s.clone())
        },
        None => None,
    }
}

/// Seconds that a delay request may take: the test timeout in whole seconds
/// plus five.
pub fn delay_request_timeout_secs(timeout_ms: u64) -> (r: u64)
    ensures
        r == if timeout_ms / 1000 + 5 > u64::MAX {
            u64::MAX as int
        } else {
            timeout_ms / 1000 + 5
        },
{
    (timeout_ms / 1000).saturating_add(5)
}

/// What a controller answer means: no content or a blank body is `null`,
/// otherwise the body must be JSON; the error names serde_json's cause.
pub open spec fn response_value(no_content: bool, body: Seq<char>) -> Result<JsonNode, Seq<char>> {
    if no_content || trim(body).len() == 0 {
        Ok(JsonNode::Null)
    } else {
        match json_parsed(body) {
            Ok(v) => Ok(v),
            Err(e) => Err("failed to parse controller JSON response: "@ + e),
        }
    }
}

/// The value of a controller answer.
pub fn response_value_of(no_content: bool, body: &str) -> (r: Result<JsonNode, String>)
    ensures
        match r {
            Ok(v) => response_value(no_content, body@) == Ok::<JsonNode, Seq<char>>(v),
            Err(e) => response_value(no_content, body@) == Err::<JsonNode, Seq<char>>(e@),
        },
{
    if no_content || is_blank(body) {
        return Ok(JsonNode::Null);
    }
    match parse_json(body) {
        Ok(v) => Ok(v),
        Err(e) => Err(concat2("failed to parse controller JSON response: ", e.as_str())),
    }
}

/// The error shown when the controller cannot be reached.
pub fn controller_required_error() -> (r: String)
    ensures
        r@ == "controller is unreachable. Start mihomo first and check 'starail status'."@,
{
    owned("controller is unreachable. Start mihomo first and check 'starail status'.")
}

/// The answer, unless it is `null`.
pub fn ensure_controller_value(value: JsonNode) -> (r: Result<JsonNode, String>)
    ensures
        match r {
            Ok(v) => v == value && !(value is Null),
            Err(e) => value is Null && e@ == "mihomo controller returned an empty response"@,
        },
{
    if value.is_null() {
        Err(owned("mihomo controller returned an empty response"))
    } else {
        Ok(value)
    }
}

/// The message after a mode change.
pub fn mode_set_message(mode: &str) -> (r: String)
    ensures
        r@ == "Mode set to "@ + mode@ + "."@,
{
    concat3("Mode set to ", mode, ".")
}

/// The body that switches the controller's mode: `{"mode":<mode>}`, the mode
/// as a JSON string.
pub fn mode_body(mode: &str) -> (r: String)
    ensures
        r@ == "{\"mode\":"@ + json_quoted(mode@) + "}"@,
{
    concat3("{\"mode\":", json_string(mode).as_str(), "}")
}

/// The body that selects a group's node: `{"name":<node>}`, the node as a
/// JSON string.
pub fn select_body(node: &str) -> (r: String)
    ensures
        r@ == "{\"name\":"@ + json_quoted(node@) + "}"@,
{
    concat3("{\"name\":", json_string(node).as_str(), "}")
}

} // verus!
