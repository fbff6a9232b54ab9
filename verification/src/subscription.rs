//! Subscriptions: recognising what a provider answered (a mihomo YAML
//! config, base64-wrapped YAML, a refusal of the client, or a list of share
//! links), the order in which client profiles are tried, and the checks
//! before a profile is added or updated.
use vstd::prelude::*;
use vstd::string::StringExecFns;
use vstd::utf8::{decode_utf8, encode_utf8, valid_utf8};
use crate::base64::{
    alphabet_byte, base64_decoded, base64_encoded, decode_base64, lemma_base64_round_trip,
    lemma_encoded_alphabet,
};
use crate::lines::{join, lines, split_lines, views};
use crate::profile::{ProfileKind, ProfileMeta, ProfileSummary};
use crate::text::{
    ascii_lowercase, char_is_ascii_alphanumeric, char_is_ascii_whitespace, chars_of, concat2,
    concat3, contains, contains_str, is_ascii_alphanumeric, is_ascii_whitespace, is_blank, owned,
    starts_with, starts_with_str, to_ascii_lowercase, trim, trim_start, trim_start_by,
    trim_start_class, utf8_bytes, utf8_text, CharClass, is_whitespace, occurs_at,
};
use crate::util::{require_profile_name, slug_at, slug_from_url_at, valid_profile_name};

verus! {

// ---------------------------------------------------------------------
// What a response holds
// ---------------------------------------------------------------------

/// The text from which a config is judged: without leading byte-order marks,
/// then without leading white space.
pub open spec fn config_start(t: Seq<char>) -> Seq<char> {
    trim_start(trim_start_by(t, CharClass::Exactly('\u{feff}')))
}

/// The text reads as a mihomo YAML config: it starts with one of the
/// top-level keys `proxies`, `proxy-groups`, `mixed-port`, `port` or
/// `socks-port`, or has a line starting with `proxies:` or `proxy-groups:`.
pub open spec fn yaml_config_text(t: Seq<char>) -> bool {
    let s = config_start(t);
    ||| starts_with(s, "proxies:"@)
    ||| starts_with(s, "proxy-groups:"@)
    ||| starts_with(s, "mixed-port:"@)
    ||| starts_with(s, "port:"@)
    ||| starts_with(s, "socks-port:"@)
    ||| contains(s, "\nproxies:"@)
    ||| contains(s, "\nproxy-groups:"@)
}

/// The bytes are UTF-8 text that reads as a mihomo YAML config.
pub open spec fn looks_like_yaml(bytes: Seq<u8>) -> bool {
    valid_utf8(bytes) && yaml_config_text(decode_utf8(bytes))
}

/// Whether the bytes are a mihomo YAML config.
pub fn looks_like_yaml_config(bytes: &[u8]) -> (r: bool)
    ensures
        r == looks_like_yaml(bytes@),
{
    let text = match utf8_text(bytes) {
        Some(t) => t,
        None => return false,
    };
    let no_bom = trim_start_class(text, CharClass::Exactly('\u{feff}'));
    let s = trim_start_class(no_bom.as_str(), CharClass::Whitespace);
    let s = s.as_str();
    starts_with_str(s, "proxies:") || starts_with_str(s, "proxy-groups:") || starts_with_str(
        s,
        "mixed-port:",
    ) || starts_with_str(s, "port:") || starts_with_str(s, "socks-port:") || contains_str(
        s,
        "\nproxies:",
    ) || contains_str(s, "\nproxy-groups:")
}

/// A character of the base64 alphabets (standard or URL-safe) or padding.
pub open spec fn is_base64_char(c: char) -> bool {
    is_ascii_alphanumeric(c) || c == '+' || c == '/' || c == '-' || c == '_' || c == '='
}

/// Whether a character is of the base64 alphabets or padding.
pub fn is_base64_character(c: char) -> (r: bool)
    ensures
        r == is_base64_char(c),
{
    char_is_ascii_alphanumeric(c) || c == '+' || c == '/' || c == '-' || c == '_' || c == '='
}

/// The text without its ASCII white space.
pub open spec fn without_ascii_whitespace(s: Seq<char>) -> Seq<char>
    decreases s.len(),
{
    if s.len() == 0 {
        s
    } else if is_ascii_whitespace(s.last()) {
        without_ascii_whitespace(s.drop_last())
    } else {
        without_ascii_whitespace(s.drop_last()).push(s.last())
    }
}

/// The bytes of ASCII text.
pub open spec fn ascii_bytes(s: Seq<char>) -> Seq<u8> {
    s.map_values(|c: char| (c as u32) as u8)
}

/// The text that base64 text wraps: without white space, the text must be
/// nonempty and made of base64 characters only, decode as base64, and the
/// bytes must be UTF-8.
pub open spec fn base64_text_decoded(t: Seq<char>) -> Option<Seq<char>> {
    let c = without_ascii_whitespace(t);
    if c.len() == 0 || !(forall|i: int| 0 <= i < c.len() ==> is_base64_char(#[trigger] c[i])) {
        None
    } else {
        match base64_decoded(ascii_bytes(c)) {
            Some(b) => if valid_utf8(b) {
                Some(decode_utf8(b))
            } else {
                None
            },
            None => None,
        }
    }
}

/// The text that base64 text wraps, if it is base64-wrapped UTF-8 text.
pub fn decode_base64_text(text: &str) -> (r: Option<String>)
    ensures
        match r {
            Some(s) => base64_text_decoded(text@) == Some(s@),
            None => base64_text_decoded(text@) is None,
        },
{
    let cs = chars_of(text);
    let mut cleaned: Vec<char> = Vec::new();
    let mut i: usize = 0;
    while i < cs.len()
        invariant
            i <= cs@.len(),
            cs@ == text@,
            cleaned@ == without_ascii_whitespace(cs@.take(i as int)),
        decreases cs@.len() - i,
    {
        let c = cs[i];
        assert(cs@.take(i + 1).drop_last() == cs@.take(i as int));
        assert(cs@.take(i + 1).last() == c);
        if !char_is_ascii_whitespace(c) {
            cleaned.push(c);
        }
        i += 1;
    }
    assert(cs@.take(cs@.len() as int) == cs@);
    if cleaned.len() == 0 {
        return None;
    }
    let ghost c = cleaned@;
    let mut bytes: Vec<u8> = Vec::new();
    let mut j: usize = 0;
    while j < cleaned.len()
        invariant
            j <= c.len(),
            cleaned@ == c,
            c == without_ascii_whitespace(text@),
            forall|k: int| 0 <= k < j ==> is_base64_char(#[trigger] c[k]),
            bytes@ == ascii_bytes(c.take(j as int)),
        decreases c.len() - j,
    {
        let ch = cleaned[j];
        if !is_base64_character(ch) {
            assert(!is_base64_char(c[j as int]));
            return None;
        }
        let v = ch as u32;
        bytes.push(v as u8);
        assert(ascii_bytes(c.take(j + 1)) =~= ascii_bytes(c.take(j as int)).push(v as u8));
        j += 1;
    }
    assert(c.take(c.len() as int) == c);
    match decode_base64(bytes.as_slice()) {
        None => None,
        Some(decoded) => match utf8_text(decoded.as_slice()) {
            Some(t) => Some(owned(t)),
            None => None,
        },
    }
}

/// The messages by which providers refuse a client, after ASCII case folding.
pub open spec fn refuses_client(t: Seq<char>) -> bool {
    let lower = ascii_lowercase(t);
    ||| contains(lower, "当前clash客户端不支持"@)
    ||| contains(lower, "不支持本机场协议"@)
    ||| contains(lower, "unsupported protocol"@)
    ||| contains(lower, "client does not support"@)
}

/// Whether the text holds a provider's refusal of the client.
pub fn contains_unsupported_client_message(text: &str) -> (r: bool)
    ensures
        r == refuses_client(text@),
{
    let lower = to_ascii_lowercase(text);
    let l = lower.as_str();
    contains_str(l, "当前clash客户端不支持") || contains_str(l, "不支持本机场协议") || contains_str(
        l,
        "unsupported protocol",
    ) || contains_str(l, "client does not support")
}

/// The texts in which a refusal is looked for: the response as UTF-8 text
/// and, when it is base64-wrapped text, the text it wraps; none when the
/// response is not UTF-8.
pub open spec fn text_candidates(bytes: Seq<u8>) -> Seq<Seq<char>> {
    if !valid_utf8(bytes) {
        Seq::empty()
    } else {
        let t = decode_utf8(bytes);
        match base64_text_decoded(t) {
            Some(d) => seq![t, d],
            None => seq![t],
        }
    }
}

/// The texts in which a refusal is looked for.
pub fn response_text_candidates(bytes: &[u8]) -> (r: Vec<String>)
    ensures
        views(r@) == text_candidates(bytes@),
{
    let mut r: Vec<String> = Vec::new();
    let text = match utf8_text(bytes) {
        Some(t) => t,
        None => {
            assert(views(r@) =~= Seq::<Seq<char>>::empty());
            return r;
        },
    };
    r.push(owned(text));
    match decode_base64_text(text) {
        Some(d) => {
            r.push(d);
            assert(views(r@) =~= seq![text@, r@[1]@]);
        },
        None => {
            assert(views(r@) =~= seq![text@]);
        },
    }
    r
}

/// The provider refused the client: the response is no YAML config, and its
/// text, or the text it wraps in base64, holds a refusal.
pub open spec fn refused_response(bytes: Seq<u8>) -> bool {
    !looks_like_yaml(bytes) && exists|i: int|
        0 <= i < text_candidates(bytes).len() && refuses_client(#[trigger] text_candidates(bytes)[i])
}

/// Whether the provider refused the client.
pub fn is_unsupported_client_response(bytes: &[u8]) -> (r: bool)
    ensures
        r == refused_response(bytes@),
{
    if looks_like_yaml_config(bytes) {
        return false;
    }
    let candidates = response_text_candidates(bytes);
    let ghost cands = text_candidates(bytes@);
    let mut i: usize = 0;
    while i < candidates.len()
        invariant
            i <= candidates@.len(),
            views(candidates@) == cands,
            cands == text_candidates(bytes@),
            !looks_like_yaml(bytes@),
            forall|k: int| 0 <= k < i ==> !refuses_client(#[trigger] cands[k]),
        decreases candidates@.len() - i,
    {
        assert(cands[i as int] == candidates@[i as int]@);
        if contains_unsupported_client_message(candidates[i].as_str()) {
            return true;
        }
        i += 1;
    }
    false
}

// ---------------------------------------------------------------------
// Normalising a response
// ---------------------------------------------------------------------

/// A subscription response ready to be written: its bytes and a description
/// of its format.
#[derive(Debug)]
pub struct NormalizedSubscription {
    pub bytes: Vec<u8>,
    pub format: &'static str,
}

/// Some line of the text holds `://`: the text is a list of share links.
pub open spec fn has_share_link(t: Seq<char>) -> bool {
    exists|i: int| 0 <= i < lines(t).len() && contains(#[trigger] lines(t)[i], "://"@)
}

/// The error for a base64-wrapped list of share links.
pub open spec fn link_list_text(url: Seq<char>) -> Seq<char> {
    "subscription returned a base64 proxy-link list, not a Clash/mihomo YAML config: "@ + url
        + "\nStarail requested Clash-compatible YAML with a Clash user agent, but this endpoint still returned share links.\nUse the provider's Clash/Mihomo subscription URL or add the provider's Clash format flag, then try again."@
}

/// What is written for a response, with its format: a YAML config as it is;
/// base64-wrapped YAML unwrapped; a base64-wrapped list of share links
/// refused; anything else as the raw response.
pub open spec fn normalized(url: Seq<char>, bytes: Seq<u8>) -> Result<(Seq<u8>, Seq<char>), Seq<char>> {
    if looks_like_yaml(bytes) {
        Ok((bytes, "Clash/Mihomo YAML"@))
    } else if !valid_utf8(bytes) {
        Ok((bytes, "raw response"@))
    } else {
        match base64_text_decoded(decode_utf8(bytes)) {
            None => Ok((bytes, "raw response"@)),
            Some(d) => if looks_like_yaml(encode_utf8(d)) {
                Ok((encode_utf8(d), "base64-wrapped Clash/Mihomo YAML"@))
            } else if has_share_link(d) {
                Err(link_list_text(url))
            } else {
                Ok((bytes, "raw response"@))
            },
        }
    }
}

fn copy_bytes(b: &[u8]) -> (r: Vec<u8>)
    ensures
        r@ == b@,
{
    let mut r: Vec<u8> = Vec::new();
    let mut i: usize = 0;
    while i < b.len()
        invariant
            i <= b@.len(),
            r@ == b@.take(i as int),
        decreases b@.len() - i,
    {
        r.push(b[i]);
        assert(b@.take(i + 1) == b@.take(i as int).push(b@[i as int]));
        i += 1;
    }
    assert(b@.take(b@.len() as int) == b@);
    r
}

fn raw_response(bytes: &[u8]) -> (r: NormalizedSubscription)
    ensures
        r.bytes@ == bytes@,
        r.format@ == "raw response"@,
{
    NormalizedSubscription { bytes: copy_bytes(bytes), format: "raw response" }
}

/// The bytes to write for a response, and their format.
pub fn normalize_subscription_bytes(url: &str, bytes: &[u8]) -> (r: Result<
    NormalizedSubscription,
    String,
>)
    ensures
        match r {
            Ok(n) => normalized(url@, bytes@) == Ok::<(Seq<u8>, Seq<char>), Seq<char>>(
                (n.bytes@, n.format@),
            ),
            Err(e) => normalized(url@, bytes@) == Err::<(Seq<u8>, Seq<char>), Seq<char>>(e@),
        },
{
    if looks_like_yaml_config(bytes) {
        return Ok(NormalizedSubscription { bytes: copy_bytes(bytes), format: "Clash/Mihomo YAML" });
    }
    let text = match utf8_text(bytes) {
        Some(t) => t,
        None => return Ok(raw_response(bytes)),
    };
    let decoded = match decode_base64_text(text) {
        Some(d) => d,
        None => return Ok(raw_response(bytes)),
    };
    let decoded_bytes = utf8_bytes(decoded.as_str());
    if looks_like_yaml_config(decoded_bytes.as_slice()) {
        return Ok(
            NormalizedSubscription {
                bytes: decoded_bytes,
                format: "base64-wrapped Clash/Mihomo YAML",
            },
        );
    }
    let ls = split_lines(decoded.as_str());
    let mut i: usize = 0;
    while i < ls.len()
        invariant
            i <= ls@.len(),
            views(ls@) == lines(decoded@),
            forall|k: int| 0 <= k < i ==> !contains(#[trigger] lines(decoded@)[k], "://"@),
            !looks_like_yaml(bytes@),
            valid_utf8(bytes@),
            base64_text_decoded(decode_utf8(bytes@)) == Some(decoded@),
            !looks_like_yaml(encode_utf8(decoded@)),
        decreases ls@.len() - i,
    {
        assert(lines(decoded@)[i as int] == ls@[i as int]@);
        if contains_str(ls[i].as_str(), "://") {
            return Err(
                concat3(
                    "subscription returned a base64 proxy-link list, not a Clash/mihomo YAML config: ",
                    url,
                    "\nStarail requested Clash-compatible YAML with a Clash user agent, but this endpoint still returned share links.\nUse the provider's Clash/Mihomo subscription URL or add the provider's Clash format flag, then try again.",
                ),
            );
        }
        i += 1;
    }
    Ok(raw_response(bytes))
}

/// Whether an error means that another client profile may fare better.
pub fn is_retryable_subscription_format_error(error: &str) -> (r: bool)
    ensures
        r == contains(error@, "base64 proxy-link list"@),
{
    contains_str(error, "base64 proxy-link list")
}

// ---------------------------------------------------------------------
// Trying client profiles in turn
// ---------------------------------------------------------------------

/// The user agents tried in turn, the last naming this version of Starail.
pub open spec fn user_agents(version: Seq<char>) -> Seq<Seq<char>> {
    seq![
        "mihomo"@,
        "Mihomo"@,
        "Clash.Meta"@,
        "clash.meta"@,
        "ClashforWindows/0.20.39 starail/"@ + version,
    ]
}

/// The user agents tried in turn.
pub fn subscription_user_agents(version: &str) -> (r: Vec<String>)
    ensures
        views(r@) == user_agents(version@),
{
    let mut r: Vec<String> = Vec::new();
    r.push(owned("mihomo"));
    r.push(owned("Mihomo"));
    r.push(owned("Clash.Meta"));
    r.push(owned("clash.meta"));
    r.push(concat2("ClashforWindows/0.20.39 starail/", version));
    assert(views(r@) =~= user_agents(version@));
    r
}

/// The media types a subscription request accepts, YAML first.
pub fn subscription_accept_header() -> (r: &'static str)
    ensures
        r@ == "application/yaml, application/x-yaml, text/yaml, text/plain, */*"@,
{
    "application/yaml, application/x-yaml, text/yaml, text/plain, */*"
}

/// What to do with one client profile's response.
#[derive(Debug)]
pub enum ResponseVerdict {
    /// Stop with this error.
    Failed(String),
    /// The provider refused this client profile; try the next.
    Rejected,
    /// The response was no usable config; try the next, remembering the error.
    WrongFormat(String),
    /// Write these bytes.
    Usable(NormalizedSubscription),
}

/// The error for an empty download.
pub open spec fn empty_download_text(url: Seq<char>) -> Seq<char> {
    "subscription download was empty: "@ + url
}

/// What to do with one client profile's response: an empty one fails; a
/// refusal moves on; otherwise it is normalised, and a format error that
/// another profile may avoid moves on too.
pub fn judge_subscription_response(url: &str, bytes: &[u8]) -> (r: ResponseVerdict)
    ensures
        bytes@.len() == 0 ==> (r matches ResponseVerdict::Failed(m) && m@ == empty_download_text(
            url@,
        )),
        bytes@.len() > 0 && refused_response(bytes@) ==> r == ResponseVerdict::Rejected,
        bytes@.len() > 0 && !refused_response(bytes@) ==> match normalized(url@, bytes@) {
            Ok(n) => r matches ResponseVerdict::Usable(u) && (u.bytes@, u.format@) == n,
            Err(e) => if contains(e, "base64 proxy-link list"@) {
                r matches ResponseVerdict::WrongFormat(m) && m@ == e
            } else {
                r matches ResponseVerdict::Failed(m) && m@ == e
            },
        },
{
    if bytes.len() == 0 {
        return ResponseVerdict::Failed(concat2("subscription download was empty: ", url));
    }
    if is_unsupported_client_response(bytes) {
        return ResponseVerdict::Rejected;
    }
    match normalize_subscription_bytes(url, bytes) {
        Ok(n) => ResponseVerdict::Usable(n),
        Err(e) => {
            if is_retryable_subscription_format_error(e.as_str()) {
                ResponseVerdict::WrongFormat(e)
            } else {
                ResponseVerdict::Failed(e)
            }
        },
    }
}

/// What is remembered while client profiles are tried in turn: the profiles
/// the provider refused, and the last format error.
#[derive(Debug)]
pub struct FetchState {
    pub rejected: Vec<String>,
    pub last_error: Option<String>,
}

/// What to do after one client profile's response.
#[derive(Debug)]
pub enum FetchStep {
    /// Write these bytes and stop.
    Write(NormalizedSubscription),
    /// Stop with this error.
    Stop(String),
    /// Try the next client profile.
    TryNext,
}

impl FetchState {
    /// Nothing refused and no error yet.
    pub fn new() -> (r: FetchState)
        ensures
            r.rejected@.len() == 0,
            r.last_error is None,
    {
        FetchState { rejected: Vec::new(), last_error: None }
    }
}

/// One step of trying client profiles: a usable response is written, a
/// failure stops; a refusal records the client profile, and a format error
/// becomes the last error, before the next profile is tried.
pub fn fetch_step(state: &mut FetchState, user_agent: &str, verdict: ResponseVerdict) -> (r:
    FetchStep)
    ensures
        match verdict {
            ResponseVerdict::Failed(e) => ({
                &&& r matches FetchStep::Stop(m)
                &&& m == e
                &&& final(state).rejected@ == old(state).rejected@
                &&& final(state).last_error == old(state).last_error
            }),
            ResponseVerdict::Rejected => ({
                &&& r is TryNext
                &&& views(final(state).rejected@) == views(old(state).rejected@).push(user_agent@)
                &&& final(state).last_error == old(state).last_error
            }),
            ResponseVerdict::WrongFormat(e) => ({
                &&& r is TryNext
                &&& final(state).rejected@ == old(state).rejected@
                &&& final(state).last_error == Some(e)
            }),
            ResponseVerdict::Usable(n) => ({
                &&& r matches FetchStep::Write(m)
                &&& m == n
                &&& final(state).rejected@ == old(state).rejected@
                &&& final(state).last_error == old(state).last_error
            }),
        },
{
    match verdict {
        ResponseVerdict::Failed(e) => FetchStep::Stop(e),
        ResponseVerdict::Rejected => {
            let ghost before = state.rejected@;
            state.rejected.push(owned(user_agent));
            proof {
                crate::lines::lemma_views_push(before, state.rejected@.last());
                assert(state.rejected@ == before.push(state.rejected@.last()));
            }
            FetchStep::TryNext
        },
        ResponseVerdict::WrongFormat(e) => {
            state.last_error = Some(e);
            FetchStep::TryNext
        },
        ResponseVerdict::Usable(n) => FetchStep::Write(n),
    }
}

/// The metadata of a subscription-backed profile updated at `updated_at`
/// (seconds since the Unix epoch).
pub fn subscription_meta(name: &str, url: &str, updated_at: u64) -> (r: ProfileMeta)
    ensures
        r.name@ == name@,
        r.kind == ProfileKind::Subscription,
        r.source_url matches Some(u) && u@ == url@,
        r.updated_at@ == crate::number::decimal(updated_at as nat),
{
    ProfileMeta {
        name: owned(name),
        kind: ProfileKind::Subscription,
        source_url: Some(owned(url)),
        updated_at: crate::number::decimal_string(updated_at),
    }
}

/// The error once every client profile was tried: the refused profiles when
/// there were any, else the last format error, else that no usable config
/// came.
pub open spec fn exhausted_text(url: Seq<char>, rejected: Seq<Seq<char>>, last_error: Option<
    Seq<char>,
>) -> Seq<char> {
    if rejected.len() > 0 {
        "subscription provider rejected all compatible client profiles tried by Starail: "@ + join(
            rejected,
            ", "@,
        )
            + ". The subscription likely contains protocols such as hysteria2 or VLESS. Use the provider's Mihomo/Clash.Meta subscription URL or format flag, then try again."@
    } else {
        match last_error {
            Some(e) => e,
            None => "subscription did not return a usable Clash/Mihomo YAML config: "@ + url,
        }
    }
}

/// The error once every client profile was tried.
pub fn fetch_failure_message(url: &str, rejected: &Vec<String>, last_error: Option<String>) -> (r:
    String)
    ensures
        r@ == exhausted_text(
            url@,
            views(rejected@),
            match last_error {
                Some(e) => Some(e@),
                None => None,
            },
        ),
{
    if rejected.len() > 0 {
        let joined = crate::lines::join_with(rejected, ", ");
        return concat3(
            "subscription provider rejected all compatible client profiles tried by Starail: ",
            joined.as_str(),
            ". The subscription likely contains protocols such as hysteria2 or VLESS. Use the provider's Mihomo/Clash.Meta subscription URL or format flag, then try again.",
        );
    }
    match last_error {
        Some(e) => e,
        None => concat2("subscription did not return a usable Clash/Mihomo YAML config: ", url),
    }
}

// ---------------------------------------------------------------------
// Adding and updating subscription profiles
// ---------------------------------------------------------------------

/// The name of a new subscription profile: the given one when it is not
/// blank, else one derived from the URL at time `now`.
pub open spec fn new_profile_name(url: Seq<char>, name: Option<Seq<char>>, now: nat) -> Seq<char> {
    match name {
        Some(n) if trim(n).len() != 0 => n,
        _ => slug_at(url, now),
    }
}

/// The usage line of `subscribe add`.
pub open spec fn add_usage_text() -> Seq<char> {
    "usage: starail subscribe add <url> [name]"@
}

/// The checks before a subscription is added: the URL must not be blank, and
/// the profile's name must be valid. Gives the name.
pub fn subscription_profile_name(url: &str, name: Option<&str>, now: u64) -> (r: Result<
    String,
    String,
>)
    ensures
        trim(url@).len() == 0 ==> (r matches Err(e) && e@ == add_usage_text()),
        trim(url@).len() != 0 ==> match r {
            Ok(n) => n@ == new_profile_name(
                url@,
                match name {
                    Some(x) => Some(x@),
                    None => None,
                },
                now as nat,
            ) && valid_profile_name(n@),
            Err(e) => {
                let chosen = new_profile_name(
                    url@,
                    match name {
                        Some(x) => Some(x@),
                        None => None,
                    },
                    now as nat,
                );
                !valid_profile_name(chosen) && e@ == crate::util::invalid_name_message(chosen)
            },
        },
{
    if is_blank(url) {
        return Err(owned("usage: starail subscribe add <url> [name]"));
    }
    let chosen = match name {
        Some(n) => if !is_blank(n) {
            owned(n)
        } else {
            slug_from_url_at(url, now)
        },
        None => slug_from_url_at(url, now),
    };
    match require_profile_name(chosen.as_str()) {
        Ok(()) => Ok(chosen),
        Err(e) => Err(e),
    }
}

/// The error for adding a profile under a name that is taken.
pub fn profile_exists_message(name: &str) -> (r: String)
    ensures
        r@ == "profile '"@ + name@ + "' already exists."@,
{
    concat3("profile '", name, "' already exists.")
}

/// The error for updating a profile that does not exist.
pub fn profile_missing_message(name: &str) -> (r: String)
    ensures
        r@ == "profile '"@ + name@ + "' does not exist."@,
{
    concat3("profile '", name, "' does not exist.")
}

/// The names of the subscription-backed profiles, in the order listed.
pub open spec fn subscription_names_of(profiles: Seq<ProfileSummary>) -> Seq<Seq<char>>
    decreases profiles.len(),
{
    if profiles.len() == 0 {
        Seq::empty()
    } else {
        let rest = subscription_names_of(profiles.drop_last());
        if profiles.last().kind == ProfileKind::Subscription {
            rest.push(profiles.last().name@)
        } else {
            rest
        }
    }
}

/// The profiles that `subscribe update` without a name updates.
pub fn subscription_profile_names(profiles: &Vec<ProfileSummary>) -> (r: Vec<String>)
    ensures
        views(r@) == subscription_names_of(profiles@),
{
    let mut r: Vec<String> = Vec::new();
    let mut i: usize = 0;
    while i < profiles.len()
        invariant
            i <= profiles@.len(),
            views(r@) == subscription_names_of(profiles@.take(i as int)),
        decreases profiles@.len() - i,
    {
        assert(profiles@.take(i + 1).drop_last() == profiles@.take(i as int));
        assert(profiles@.take(i + 1).last() == profiles@[i as int]);
        if profiles[i].kind == ProfileKind::Subscription {
            let ghost before = r@;
            r.push(profiles[i].name.clone());
            assert(views(r@) =~= views(before).push(profiles@[i as int].name@));
        }
        i += 1;
    }
    assert(profiles@.take(profiles@.len() as int) == profiles@);
    r
}

/// The URL from which a profile is updated: it must be subscription-backed
/// and have a saved URL that is not blank.
pub open spec fn update_source_of(name: Seq<char>, kind: ProfileKind, url: Option<Seq<char>>) -> Result<
    Seq<char>,
    Seq<char>,
> {
    if kind != ProfileKind::Subscription {
        Err("profile '"@ + name + "' is not subscription-backed."@)
    } else {
        match url {
            Some(u) if trim(u).len() != 0 => Ok(u),
            _ => Err("profile '"@ + name + "' does not have a saved subscription URL"@),
        }
    }
}

/// The URL from which a profile is updated.
pub fn update_source(name: &str, meta: &ProfileMeta) -> (r: Result<String, String>)
    ensures
        match r {
            Ok(u) => update_source_of(
                name@,
                meta.kind,
                match meta.source_url {
                    Some(x) => Some(x@),
                    None => None,
                },
            ) == Ok::<Seq<char>, Seq<char>>(u@),
            Err(e) => update_source_of(
                name@,
                meta.kind,
                match meta.source_url {
                    Some(x) => Some(x@),
                    None => None,
                },
            ) == Err::<Seq<char>, Seq<char>>(e@),
        },
{
    if meta.kind != ProfileKind::Subscription {
        return Err(concat3("profile '", name, "' is not subscription-backed."));
    }
    match &meta.source_url {
        Some(u) => if !is_blank(u.as_str()) {
            Ok(u.clone())
        } else {
            Err(concat3("profile '", name, "' does not have a saved subscription URL"))
        },
        None => Err(concat3("profile '", name, "' does not have a saved subscription URL")),
    }
}

// ---------------------------------------------------------------------
// Base64-wrapped configs
// ---------------------------------------------------------------------

/// ASCII bytes read as characters.
pub open spec fn ascii_chars(b: Seq<u8>) -> Seq<char> {
    b.map_values(|x: u8| x as char)
}

proof fn lemma_no_ascii_whitespace(s: Seq<char>)
    requires
        forall|i: int| 0 <= i < s.len() ==> !is_ascii_whitespace(#[trigger] s[i]),
    ensures
        without_ascii_whitespace(s) == s,
    decreases s.len(),
{
    if s.len() > 0 {
        lemma_no_ascii_whitespace(s.drop_last());
        assert(s.drop_last().push(s.last()) =~= s);
    }
}

/// The UTF-8 bytes of ASCII text are its characters' codes.
proof fn lemma_ascii_encoding(t: Seq<char>)
    requires
        forall|i: int| 0 <= i < t.len() ==> (#[trigger] t[i] as u32) < 128,
    ensures
        encode_utf8(t) == ascii_bytes(t),
    decreases t.len(),
{
    if t.len() > 0 {
        lemma_ascii_encoding(t.drop_first());
        let c = t[0] as u32;
        assert(c < 128);
        assert(((c & 0x7F) as u8) == (c as u8)) by (bit_vector)
            requires
                c < 128,
        ;
        assert(ascii_bytes(t) =~= seq![c as u8] + ascii_bytes(t.drop_first()));
    }
}

/// The characters of a base64 encoding: characters of its alphabet or `=`,
/// so no white space, and their codes are the encoding's bytes.
proof fn lemma_encoded_text(b: Seq<u8>, url_safe: bool, padded: bool)
    ensures
        ({
            let e = base64_encoded(b, url_safe, padded);
            let t = ascii_chars(e);
            &&& forall|i: int|
                0 <= i < t.len() ==> {
                    &&& is_base64_char(#[trigger] t[i])
                    &&& !is_ascii_whitespace(t[i])
                    &&& !is_whitespace(t[i])
                    &&& t[i] != ':' && t[i] != '\n' && t[i] != '\u{feff}'
                    &&& (t[i] as u32) < 128
                }
            &&& ascii_bytes(t) == e
        }),
{
    let e = base64_encoded(b, url_safe, padded);
    let t = ascii_chars(e);
    lemma_encoded_alphabet(b, url_safe, padded);
    assert forall|i: int| 0 <= i < t.len() implies {
        &&& is_base64_char(#[trigger] t[i])
        &&& !is_ascii_whitespace(t[i])
        &&& !is_whitespace(t[i])
        &&& t[i] != ':' && t[i] != '\n' && t[i] != '\u{feff}'
        &&& (t[i] as u32) < 128
    } by {
        assert(alphabet_byte(e[i]));
        assert(t[i] == e[i] as char);
    }
    assert(ascii_bytes(t) =~= e);
}

/// Unwrapping inverts base64: for any nonempty text, the base64 encoding of
/// its UTF-8 bytes, in the standard alphabet (`+`, `/`) or the URL-safe one,
/// padded or not, unwraps to the text itself.
pub proof fn lemma_base64_text_unwraps(y: Seq<char>, url_safe: bool, padded: bool)
    requires
        y.len() > 0,
    ensures
        base64_text_decoded(ascii_chars(base64_encoded(encode_utf8(y), url_safe, padded))) == Some(
            y,
        ),
{
    broadcast use vstd::utf8::encode_utf8_valid_utf8, vstd::utf8::encode_utf8_decode_utf8;

    let b = encode_utf8(y);
    let e = base64_encoded(b, url_safe, padded);
    let t = ascii_chars(e);
    lemma_encoded_text(b, url_safe, padded);
    lemma_no_ascii_whitespace(t);
    lemma_base64_round_trip(b, url_safe, padded);
    assert(b.len() > 0) by {
        assert(b == vstd::utf8::encode_scalar(y[0] as u32) + encode_utf8(y.drop_first()));
    }
    assert(t.len() > 0) by {
        if e.len() == 0 {
            lemma_base64_round_trip(Seq::empty(), url_safe, padded);
            assert(e =~= base64_encoded(Seq::empty(), url_safe, padded));
        }
    }
}

/// Text of base64 characters is not a YAML config: every key that marks one
/// needs a `:` or a line feed.
proof fn lemma_base64_text_is_not_yaml(t: Seq<char>)
    requires
        t.len() > 0,
        forall|i: int|
            0 <= i < t.len() ==> {
                &&& !is_whitespace(#[trigger] t[i])
                &&& t[i] != ':' && t[i] != '\n' && t[i] != '\u{feff}'
            },
    ensures
        !yaml_config_text(t),
{
    reveal_strlit("proxies:");
    reveal_strlit("proxy-groups:");
    reveal_strlit("mixed-port:");
    reveal_strlit("port:");
    reveal_strlit("socks-port:");
    reveal_strlit("\nproxies:");
    reveal_strlit("\nproxy-groups:");
    assert(trim_start_by(t, CharClass::Exactly('\u{feff}')) == t);
    assert(trim_start(t) == t);
    assert(config_start(t) == t);
    if starts_with(t, "proxies:"@) {
        assert(t.subrange(0, 8)[7] == t[7]);
    }
    if starts_with(t, "proxy-groups:"@) {
        assert(t.subrange(0, 13)[12] == t[12]);
    }
    if starts_with(t, "mixed-port:"@) {
        assert(t.subrange(0, 11)[10] == t[10]);
    }
    if starts_with(t, "port:"@) {
        assert(t.subrange(0, 5)[4] == t[4]);
    }
    if starts_with(t, "socks-port:"@) {
        assert(t.subrange(0, 11)[10] == t[10]);
    }
    if contains(t, "\nproxies:"@) {
        let i = choose|i: int| occurs_at(t, "\nproxies:"@, i);
        assert(t.subrange(i, i + 9)[0] == t[i]);
    }
    if contains(t, "\nproxy-groups:"@) {
        let i = choose|i: int| occurs_at(t, "\nproxy-groups:"@, i);
        assert(t.subrange(i, i + 14)[0] == t[i]);
    }
}

/// A YAML config wrapped in base64 (either alphabet, padded or not) is
/// saved as the config itself, as base64-wrapped YAML.
pub proof fn lemma_base64_wrapped_config_is_unwrapped(
    url: Seq<char>,
    y: Seq<char>,
    url_safe: bool,
    padded: bool,
)
    requires
        looks_like_yaml(encode_utf8(y)),
    ensures
        normalized(url, base64_encoded(encode_utf8(y), url_safe, padded)) == Ok::<
            (Seq<u8>, Seq<char>),
            Seq<char>,
        >((encode_utf8(y), "base64-wrapped Clash/Mihomo YAML"@)),
{
    broadcast use vstd::utf8::encode_utf8_valid_utf8, vstd::utf8::encode_utf8_decode_utf8;

    let b = encode_utf8(y);
    let e = base64_encoded(b, url_safe, padded);
    let t = ascii_chars(e);
    assert(y.len() > 0) by {
        if y.len() == 0 {
            assert(decode_utf8(b) =~= Seq::<char>::empty());
            lemma_base64_text_is_not_yaml_empty();
        }
    }
    lemma_base64_text_unwraps(y, url_safe, padded);
    lemma_encoded_text(b, url_safe, padded);
    lemma_ascii_encoding(t);
    assert(encode_utf8(t) == e);
    assert(decode_utf8(e) == t);
    assert(valid_utf8(e));
    lemma_base64_text_is_not_yaml(t);
}

proof fn lemma_base64_text_is_not_yaml_empty()
    ensures
        !yaml_config_text(Seq::empty()),
{
    reveal_strlit("proxies:");
    reveal_strlit("proxy-groups:");
    reveal_strlit("mixed-port:");
    reveal_strlit("port:");
    reveal_strlit("socks-port:");
    reveal_strlit("\nproxies:");
    reveal_strlit("\nproxy-groups:");
    let t = Seq::<char>::empty();
    assert(config_start(t) == t);
}

} // verus!
