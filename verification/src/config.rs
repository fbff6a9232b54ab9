//! The Starail config: runtime choices such as the active profile, the mixed
//! port, the controller address and secret, latency-test settings, the shell
//! proxy state and the interface language.
use vstd::prelude::*;
use vstd::string::StringExecFns;
use crate::i18n::{code_text, configured, language_of_code, Language};
use crate::text::{is_blank, owned, trim, trim_by, trim_class, trim_end_by, CharClass};

verus! {

#[derive(Debug, Clone)]
pub struct AppConfig {
    pub active_profile: Option<String>,
    pub mixed_port: u16,
    pub controller_address: String,
    pub controller_secret: Option<String>,
    pub latency_test_url: String,
    pub latency_test_timeout: u64,
    pub shell_proxy_enabled: bool,
    pub language: Option<String>,
}

/// The config as plain values.
pub struct AppConfigView {
    pub active_profile: Option<Seq<char>>,
    pub mixed_port: u16,
    pub controller_address: Seq<char>,
    pub controller_secret: Option<Seq<char>>,
    pub latency_test_url: Seq<char>,
    pub latency_test_timeout: u64,
    pub shell_proxy_enabled: bool,
    pub language: Option<Seq<char>>,
}

pub open spec fn opt_view(o: Option<String>) -> Option<Seq<char>> {
    match o {
        Some(s) => Some(s@),
        None => None,
    }
}

impl View for AppConfig {
    type V = AppConfigView;

    open spec fn view(&self) -> AppConfigView {
        AppConfigView {
            active_profile: opt_view(self.active_profile),
            mixed_port: self.mixed_port,
            controller_address: self.controller_address@,
            controller_secret: opt_view(self.controller_secret),
            latency_test_url: self.latency_test_url@,
            latency_test_timeout: self.latency_test_timeout,
            shell_proxy_enabled: self.shell_proxy_enabled,
            language: opt_view(self.language),
        }
    }
}

pub open spec fn default_controller_address() -> Seq<char> {
    "127.0.0.1:9090"@
}

pub open spec fn default_latency_test_url() -> Seq<char> {
    "https://www.gstatic.com/generate_204"@
}

/// The config that a fresh installation starts with.
pub open spec fn default_config() -> AppConfigView {
    AppConfigView {
        active_profile: None,
        mixed_port: 7890,
        controller_address: default_controller_address(),
        controller_secret: None,
        latency_test_url: default_latency_test_url(),
        latency_test_timeout: 5000,
        shell_proxy_enabled: false,
        language: None,
    }
}

/// An optional text that is absent or blank.
pub open spec fn absent_or_blank(o: Option<Seq<char>>) -> bool {
    match o {
        None => true,
        Some(s) => trim(s).len() == 0,
    }
}

/// What normalization does: blank optional texts become absent, blank
/// required texts and a zero timeout take their defaults, and the language
/// becomes the code of the language it names (or absent if it names none).
pub open spec fn normalize(c: AppConfigView) -> AppConfigView {
    AppConfigView {
        active_profile: if absent_or_blank(c.active_profile) {
            None
        } else {
            c.active_profile
        },
        mixed_port: c.mixed_port,
        controller_address: if trim(c.controller_address).len() == 0 {
            default_controller_address()
        } else {
            c.controller_address
        },
        controller_secret: if absent_or_blank(c.controller_secret) {
            None
        } else {
            c.controller_secret
        },
        latency_test_url: if trim(c.latency_test_url).len() == 0 {
            default_latency_test_url()
        } else {
            c.latency_test_url
        },
        latency_test_timeout: if c.latency_test_timeout == 0 {
            5000
        } else {
            c.latency_test_timeout
        },
        shell_proxy_enabled: c.shell_proxy_enabled,
        language: match c.language {
            Some(code) => match language_of_code(code) {
                Some(l) => Some(code_text(l)),
                None => None,
            },
            None => None,
        },
    }
}

/// The base URL of the external controller: `http://` and the trimmed
/// address without trailing slashes.
pub open spec fn controller_base_text(address: Seq<char>) -> Seq<char> {
    "http://"@ + trim_end_by(trim(address), CharClass::Exactly('/'))
}

fn blank_option(o: &Option<String>) -> (r: bool)
    ensures
        r == absent_or_blank(opt_view(*o)),
{
    match o {
        Some(s) => is_blank(s.as_str()),
        None => true,
    }
}

impl Default for AppConfig {
    fn default() -> (r: Self)
        ensures
            r@ == default_config(),
    {
        AppConfig {
            active_profile: None,
            mixed_port: 7890,
            controller_address: owned("127.0.0.1:9090"),
            controller_secret: None,
            latency_test_url: owned("https://www.gstatic.com/generate_204"),
            latency_test_timeout: 5000,
            shell_proxy_enabled: false,
            language: None,
        }
    }
}

impl AppConfig {
    /// The base URL of the external controller.
    pub fn controller_base(&self) -> (r: String)
        ensures
            r@ == controller_base_text(self.controller_address@),
    {
        let trimmed = crate::text::trim_str(self.controller_address.as_str());
        let bare = crate::text::trim_end_class(trimmed.as_str(), CharClass::Exactly('/'));
        owned("http://").concat(bare.as_str())
    }

    /// The interface language: the configured one if its code names a
    /// language, else `detected`.
    pub fn language(&self, detected: Language) -> (r: Language)
        ensures
            r == match self.language {
                Some(c) if language_of_code(c@) is Some => language_of_code(c@)->0,
                _ => detected,
            },
    {
        match &self.language {
            Some(c) => configured(Some(c.as_str()), detected),
            None => detected,
        }
    }

    /// The config with blank values replaced as `normalize` describes.
    pub fn normalized(&self) -> (r: Self)
        ensures
            r@ == normalize(self@),
    {
        let active_profile = if blank_option(&self.active_profile) {
            None
        } else {
            self.active_profile.clone()
        };
        let controller_secret = if blank_option(&self.controller_secret) {
            None
        } else {
            self.controller_secret.clone()
        };
        let controller_address = if is_blank(self.controller_address.as_str()) {
            owned("127.0.0.1:9090")
        } else {
            self.controller_address.clone()
        };
        let latency_test_url = if is_blank(self.latency_test_url.as_str()) {
            owned("https://www.gstatic.com/generate_204")
        } else {
            self.latency_test_url.clone()
        };
        let latency_test_timeout = if self.latency_test_timeout == 0 {
            5000
        } else {
            self.latency_test_timeout
        };
        let language = match &self.language {
            Some(code) => match Language::from_code(code.as_str()) {
                Some(l) => Some(owned(l.code())),
                None => None,
            },
            None => None,
        };
        proof {
            assert(opt_view(active_profile) == normalize(self@).active_profile);
            assert(opt_view(controller_secret) == normalize(self@).controller_secret);
            assert(opt_view(language) == normalize(self@).language);
        }
        AppConfig {
            active_profile,
            mixed_port: self.mixed_port,
            controller_address,
            controller_secret,
            latency_test_url,
            latency_test_timeout,
            shell_proxy_enabled: self.shell_proxy_enabled,
            language,
        }
    }
}

/// The interface language for a config that may not have loaded: its own
/// language when it loaded, else `detected`.
pub fn app_language(config: Option<&AppConfig>, detected: Language) -> (r: Language)
    ensures
        r == match config {
            Some(c) => match c.language {
                Some(code) if language_of_code(code@) is Some => language_of_code(code@)->0,
                _ => detected,
            },
            None => detected,
        },
{
    match config {
        Some(c) => c.language(detected),
        None => detected,
    }
}

pub proof fn lemma_defaults_not_blank()
    ensures
        trim(default_controller_address()).len() != 0,
        trim(default_latency_test_url()).len() != 0,
{
    reveal_strlit("127.0.0.1:9090");
    reveal_strlit("https://www.gstatic.com/generate_204");
    let a = default_controller_address();
    let u = default_latency_test_url();
    crate::text::lemma_trim_start_skip(a, CharClass::Whitespace, 0);
    crate::text::lemma_trim_start_skip(u, CharClass::Whitespace, 0);
    assert(a.skip(0) == a);
    assert(u.skip(0) == u);
    crate::text::lemma_trim_end_take(a, CharClass::Whitespace, a.len() as int);
    crate::text::lemma_trim_end_take(u, CharClass::Whitespace, u.len() as int);
    assert(a.take(a.len() as int) == a);
    assert(u.take(u.len() as int) == u);
}

/// Normalizing a normalized config changes nothing, and a normalized config
/// has a controller address and a latency-test URL that are not blank and a
/// timeout that is not zero.
pub proof fn lemma_normalize_idempotent(c: AppConfigView)
    ensures
        normalize(normalize(c)) == normalize(c),
        trim(normalize(c).controller_address).len() != 0,
        trim(normalize(c).latency_test_url).len() != 0,
        normalize(c).latency_test_timeout != 0,
        !absent_or_blank(normalize(c).active_profile) || normalize(c).active_profile is None,
{
    lemma_defaults_not_blank();
    match c.language {
        Some(code) => match language_of_code(code) {
            Some(l) => {
                crate::i18n::lemma_code_round_trip(l);
            },
            None => {},
        },
        None => {},
    }
}

} // verus!
