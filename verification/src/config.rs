use vstd::prelude::*;
use crate::assistant::Provider;
use crate::text::{all_digits, chars_of, digits_value, lemma_digits_value_grows, lowercase, lowercase_text, text_eq};

verus! {

/// Where the service runs.
#[derive(Debug, Clone, Copy, PartialEq, Eq, Structural)]
pub enum AppEnvironment {
    Development,
    Production,
}

/// The settings of the service.
#[derive(Debug)]
pub struct Config {
    pub database_url: String,
    pub server_port: u16,
    pub log_level: String,
    pub environment: AppEnvironment,
    pub ollama_host: String,
    pub ollama_model: String,
    pub ai_provider: String,
    pub gemini_api_key: String,
    pub gemini_model: String,
    pub jwt_secret: String,
}

/// The settings as the environment gives them: each variable's text, or
/// nothing when it is not set.
#[derive(Debug)]
pub struct ConfigSource {
    pub database_url: Option<String>,
    pub port: Option<String>,
    pub rust_log: Option<String>,
    pub app_environment: Option<String>,
    pub ollama_host: Option<String>,
    pub ollama_model: Option<String>,
    pub ai_provider: Option<String>,
    pub gemini_api_key: Option<String>,
    pub gemini_model: Option<String>,
    pub jwt_secret: Option<String>,
}

/// The digits of a port text: the text without one leading `+`.
pub open spec fn port_digits(s: Seq<char>) -> Seq<char> {
    if s.len() > 0 && s[0] == '+' { s.subrange(1, s.len() as int) } else { s }
}

/// The port a text denotes, as Rust reads a `u16`: an optional `+`, then
/// at least one decimal digit, for a value of at most 65535.
pub open spec fn port_value(s: Seq<char>) -> Option<u16> {
    let d = port_digits(s);
    if d.len() > 0 && all_digits(d) && digits_value(d) <= 65535 {
        Some(digits_value(d) as u16)
    } else {
        None
    }
}

/// Reads a port number; see `port_value`.
pub fn parse_port(s: &str) -> (r: Option<u16>)
    ensures
        r == port_value(s@),
{
    let c = chars_of(s);
    let ghost d = port_digits(s@);
    let start: usize = if c.len() > 0 && c[0] == '+' { 1 } else { 0 };
    proof {
        assert(d =~= s@.subrange(start as int, s@.len() as int));
    }
    if start >= c.len() {
        return None;
    }
    let mut v: u32 = 0;
    let mut i: usize = start;
    while i < c.len()
        invariant
            c@ == s@,
            start <= i <= c@.len(),
            d =~= c@.subrange(start as int, c@.len() as int),
            d == port_digits(s@),
            all_digits(d.subrange(0, i - start)),
            v as int == digits_value(d.subrange(0, i - start)),
            v <= 65535,
        decreases c@.len() - i,
    {
        let ch = c[i];
        let ghost k = i - start;
        if !('0' <= ch && ch <= '9') {
            proof {
                assert(d[k] == ch);
                assert(!all_digits(d)) by {
                    if all_digits(d) {
                        assert('0' <= d[k] && d[k] <= '9');
                    }
                }
            }
            return None;
        }
        let digit = (ch as u32) - ('0' as u32);
        proof {
            let t = d.subrange(0, k + 1);
            assert(t.drop_last() =~= d.subrange(0, k));
            assert(t.last() == ch);
            assert forall|j: int| 0 <= j < t.len() implies '0' <= #[trigger] t[j] && t[j] <= '9' by {
                if j < k {
                    assert(t[j] == d.subrange(0, k)[j]);
                }
            }
            assert(digits_value(t) == v * 10 + digit);
        }
        let next = v * 10 + digit;
        if next > 65535 {
            proof {
                if all_digits(d) {
                    lemma_digits_value_grows(d, k + 1, d.len() as int);
                    assert(d.subrange(0, d.len() as int) =~= d);
                    assert(digits_value(d) > 65535);
                }
            }
            return None;
        }
        v = next;
        i = i + 1;
    }
    proof {
        assert(d.subrange(0, d.len() as int) =~= d);
    }
    Some(v as u16)
}

/// The environment a name selects: production when the name, lower-cased,
/// is "production"; else development.
pub open spec fn environment_named(name: Seq<char>) -> AppEnvironment {
    if lowercase_text(name) == "production"@ { AppEnvironment::Production } else { AppEnvironment::Development }
}

/// The provider a name selects: Gemini when the name, lower-cased, is
/// "gemini"; else Ollama.
pub open spec fn provider_named(name: Seq<char>) -> Provider {
    if lowercase_text(name) == "gemini"@ { Provider::Gemini } else { Provider::Ollama }
}

/// A variable's text, or the default when it is not set.
pub open spec fn or_default(v: Option<String>, default: Seq<char>) -> Seq<char> {
    match v {
        Some(s) => s@,
        None => default,
    }
}

/// The port text, "5008" when unset.
pub open spec fn port_text(src: ConfigSource) -> Seq<char> {
    or_default(src.port, "5008"@)
}

/// The message when the database is not named.
pub open spec fn missing_database_message() -> Seq<char> {
    "DATABASE_URL must be set"@
}

/// The message when the port is not a number.
pub open spec fn bad_port_message() -> Seq<char> {
    "PORT must be a valid number"@
}

fn text_or(v: Option<String>, default: &str) -> (r: String)
    ensures
        r@ == or_default(v, default@),
{
    match v {
        Some(s) => s,
        None => String::from_str(default),
    }
}

/// The environment a name selects; see `environment_named`.
pub fn environment_from(name: &str) -> (r: AppEnvironment)
    ensures
        r == environment_named(name@),
{
    let l = lowercase(name);
    if text_eq(l.as_str(), "production") { AppEnvironment::Production } else { AppEnvironment::Development }
}

/// The provider a name selects; see `provider_named`.
pub fn provider_from(name: &str) -> (r: Provider)
    ensures
        r == provider_named(name@),
{
    let l = lowercase(name);
    if text_eq(l.as_str(), "gemini") { Provider::Gemini } else { Provider::Ollama }
}

impl Config {
    /// The settings from the environment's variables: the database must be
    /// named and the port (5008 when unset) must be a number; every other
    /// setting has a default.
    pub fn from_source(src: ConfigSource) -> (r: Result<Config, String>)
        ensures
            src.database_url is None ==> (r matches Err(e) && e@ == missing_database_message()),
            src.database_url is Some && port_value(port_text(src)) is None ==> (r matches Err(e) && e@ == bad_port_message()),
            src.database_url is Some && port_value(port_text(src)) is Some ==> (r matches Ok(c) && {
                &&& c.database_url@ == src.database_url.unwrap()@
                &&& Some(c.server_port) == port_value(port_text(src))
                &&& c.log_level@ == or_default(src.rust_log, "mobile_money_backend=debug,tower_http=debug"@)
                &&& c.environment == environment_named(or_default(src.app_environment, "development"@))
                &&& c.ollama_host@ == or_default(src.ollama_host, "http://localhost:11434"@)
                &&& c.ollama_model@ == or_default(src.ollama_model, "llama3:8b"@)
                &&& c.ai_provider@ == or_default(src.ai_provider, "ollama"@)
                &&& c.gemini_api_key@ == or_default(src.gemini_api_key, ""@)
                &&& c.gemini_model@ == or_default(src.gemini_model, "gemini-1.5-flash"@)
                &&& c.jwt_secret@ == or_default(src.jwt_secret, "super_secret_mobile_money_key_123456789"@)
            }),
    {
        let database_url = match src.database_url {
            Some(u) => u,
            None => {
                return Err(String::from_str("DATABASE_URL must be set"));
            },
        };
        let port = text_or(src.port, "5008");
        let server_port = match parse_port(port.as_str()) {
            Some(p) => p,
            None => {
                return Err(String::from_str("PORT must be a valid number"));
            },
        };
        let log_level = text_or(src.rust_log, "mobile_money_backend=debug,tower_http=debug");
        let env_name = text_or(src.app_environment, "development");
        let environment = environment_from(env_name.as_str());
        Ok(Config {
            database_url,
            server_port,
            log_level,
            environment,
            ollama_host: text_or(src.ollama_host, "http://localhost:11434"),
            ollama_model: text_or(src.ollama_model, "llama3:8b"),
            ai_provider: text_or(src.ai_provider, "ollama"),
            gemini_api_key: text_or(src.gemini_api_key, ""),
            gemini_model: text_or(src.gemini_model, "gemini-1.5-flash"),
            jwt_secret: text_or(src.jwt_secret, "super_secret_mobile_money_key_123456789"),
        })
    }

    /// The language-model service the settings choose; see `provider_named`.
    pub fn provider(&self) -> (r: Provider)
        ensures
            r == provider_named(self.ai_provider@),
    {
        provider_from(self.ai_provider.as_str())
    }
}

} // verus!
