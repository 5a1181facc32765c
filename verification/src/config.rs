//! Server configuration and its validation at startup.

use vstd::prelude::*;
use vstd::string::StringExecFns;
use vstd::utf8::encode_utf8;

use crate::error::AppError;
use crate::hosts::{derive_mcp_allowed_hosts, hosts_derived, parsed_url, BaseUrlError};
use crate::secret::{secret_text, Secret};
use crate::session::{redis_client_for, SessionStore, StaticAccount};
use crate::state::AppState;
use crate::text::{
    blank, blank_texts_hold_whitespace_only, is_blank, texts, texts_are_those_of_the_strings,
    whitespace,
};

verus! {

/// What the operator supplies: one IMAP account, one bearer token, and where
/// the server and its Redis are.
pub struct ServerConfig {
    pub auth_mode: String,
    pub mcp_api_token: String,
    pub imap_host: String,
    pub imap_port: u16,
    pub imap_username: String,
    pub imap_app_password: String,
    pub base_url: String,
    pub redis_url: String,
    pub redis_key_prefix: String,
}

/// Why a configuration is refused.
#[derive(Debug)]
pub enum ConfigError {
    UnsupportedAuthMode(String),
    ShortApiToken,
    EmptyUsername,
    EmptyPassword,
    EmptyKeyPrefix,
}

impl ConfigError {
    /// How this error is shown.
    pub open spec fn shown(self) -> Seq<char> {
        match self {
            ConfigError::UnsupportedAuthMode(mode) => "unsupported AUTH_MODE '"@ + mode@
                + "': only 'static' is supported"@,
            ConfigError::ShortApiToken => "MCP_API_TOKEN must be at least 32 characters"@,
            ConfigError::EmptyUsername => "IMAP_USERNAME must not be empty"@,
            ConfigError::EmptyPassword => "IMAP_APP_PASSWORD must not be empty"@,
            ConfigError::EmptyKeyPrefix => "REDIS_KEY_PREFIX must not be empty"@,
        }
    }

    /// The error as text.
    pub fn to_string(&self) -> (text: String)
        ensures
            text@ == self.shown(),
    {
        match self {
            ConfigError::UnsupportedAuthMode(mode) => {
                let mut text = "unsupported AUTH_MODE '".to_owned();
                text.append(mode.as_str());
                text.append("': only 'static' is supported");
                text
            },
            ConfigError::ShortApiToken => "MCP_API_TOKEN must be at least 32 characters".to_owned(),
            ConfigError::EmptyUsername => "IMAP_USERNAME must not be empty".to_owned(),
            ConfigError::EmptyPassword => "IMAP_APP_PASSWORD must not be empty".to_owned(),
            ConfigError::EmptyKeyPrefix => "REDIS_KEY_PREFIX must not be empty".to_owned(),
        }
    }
}

/// The length of a text in bytes of UTF-8.
pub open spec fn byte_len(text: Seq<char>) -> nat {
    encode_utf8(text).len()
}

impl ServerConfig {
    /// The configurations that the server starts with: static authentication, a
    /// token of at least 32 bytes, and a username, password and key prefix that
    /// are there.
    pub open spec fn fit(self) -> bool {
        &&& self.auth_mode@ == "static"@
        &&& byte_len(self.mcp_api_token@) >= 32
        &&& !blank(self.imap_username@)
        &&& self.imap_app_password@.len() > 0
        &&& !blank(self.redis_key_prefix@)
    }

    /// True when `error` is the first thing wrong with the configuration.
    pub open spec fn fails_with(self, error: ConfigError) -> bool {
        if self.auth_mode@ != "static"@ {
            error matches ConfigError::UnsupportedAuthMode(mode) && mode@ == self.auth_mode@
        } else if byte_len(self.mcp_api_token@) < 32 {
            error is ShortApiToken
        } else if blank(self.imap_username@) {
            error is EmptyUsername
        } else if self.imap_app_password@.len() == 0 {
            error is EmptyPassword
        } else {
            error is EmptyKeyPrefix && blank(self.redis_key_prefix@)
        }
    }

    /// Refuses a configuration that would accept an empty credential or lacks
    /// what the account needs.
    pub fn validate(&self) -> (outcome: Result<(), ConfigError>)
        ensures
            outcome is Ok <==> self.fit(),
            outcome matches Err(error) ==> self.fails_with(error),
    {
        if self.auth_mode != "static".to_owned() {
            return Err(ConfigError::UnsupportedAuthMode(self.auth_mode.clone()));
        }
        if self.mcp_api_token.as_str().as_bytes().len() < 32 {
            return Err(ConfigError::ShortApiToken);
        }
        if is_blank(self.imap_username.as_str()) {
            return Err(ConfigError::EmptyUsername);
        }
        if self.imap_app_password.as_str().is_empty() {
            return Err(ConfigError::EmptyPassword);
        }
        if is_blank(self.redis_key_prefix.as_str()) {
            return Err(ConfigError::EmptyKeyPrefix);
        }
        Ok(())
    }

    /// True when `account` is the account that this configuration describes.
    pub open spec fn describes(self, account: StaticAccount) -> bool {
        &&& account.account_id@ == "static"@
        &&& account.label@ == self.imap_username@
        &&& account.imap_email@ == self.imap_username@
        &&& account.imap_host@ == self.imap_host@
        &&& account.imap_port == self.imap_port
        &&& secret_text(account.password) == self.imap_app_password@
    }

    /// The one account of the server.
    pub fn static_account(&self) -> (account: StaticAccount)
        ensures
            self.describes(account),
    {
        StaticAccount {
            account_id: "static".to_owned(),
            label: self.imap_username.clone(),
            imap_email: self.imap_username.clone(),
            imap_host: self.imap_host.clone(),
            imap_port: self.imap_port,
            password: Secret::new(self.imap_app_password.as_str()),
        }
    }

    /// True when `outcome` is what starting with this configuration leads to,
    /// given how its Redis URL was opened and its base URL parsed.
    pub open spec fn starts_as(
        self,
        opened: Result<redis::Client, redis::RedisError>,
        parsed: Result<url::Url, url::ParseError>,
        outcome: Result<AppState, StartupError>,
    ) -> bool {
        if !self.fit() {
            outcome matches Err(StartupError::Config(error)) && self.fails_with(error)
        } else {
            match opened {
                Err(error) => outcome == Err::<AppState, StartupError>(
                    StartupError::Store(AppError::Redis(error)),
                ),
                Ok(client) => match outcome {
                    Ok(state) => {
                        &&& state.sessions.spec_client() == client
                        &&& state.sessions.prefix() == self.redis_key_prefix@
                        &&& self.describes(*state.account)
                        &&& state.base_url@ == self.base_url@
                        &&& secret_text(state.mcp_api_token) == self.mcp_api_token@
                        &&& hosts_derived(self.base_url@, parsed, Ok(state.mcp_allowed_hosts))
                    },
                    Err(StartupError::BaseUrl(error)) => hosts_derived(
                        self.base_url@,
                        parsed,
                        Err(error),
                    ),
                    Err(_) => false,
                },
            }
        }
    }

    /// Builds the state of the server, or says why it cannot start.
    pub fn start(&self) -> (outcome: Result<AppState, StartupError>)
        ensures
            self.starts_as(
                redis_client_for(self.redis_url@),
                parsed_url(self.base_url@),
                outcome,
            ),
    {
        match self.validate() {
            Ok(_) => {},
            Err(error) => {
                return Err(StartupError::Config(error));
            },
        }
        let sessions = match SessionStore::new(
            self.redis_url.as_str(),
            self.redis_key_prefix.as_str(),
        ) {
            Ok(sessions) => sessions,
            Err(error) => {
                return Err(StartupError::Store(error));
            },
        };
        match AppState::new(
            sessions,
            self.static_account(),
            self.base_url.clone(),
            Secret::new(self.mcp_api_token.as_str()),
        ) {
            Ok(state) => Ok(state),
            Err(error) => Err(StartupError::BaseUrl(error)),
        }
    }
}

/// Why the server cannot start.
#[derive(Debug)]
pub enum StartupError {
    Config(ConfigError),
    Store(AppError),
    BaseUrl(BaseUrlError),
}

impl StartupError {
    /// True when `text` is how this error is shown.
    pub open spec fn shown_as(self, text: Seq<char>) -> bool {
        match self {
            StartupError::Config(error) => text == error.shown(),
            StartupError::Store(error) => error.shown_as(text),
            StartupError::BaseUrl(error) => error.shown_as(text),
        }
    }

    /// The error as text.
    pub fn to_string(&self) -> (text: String)
        ensures
            self.shown_as(text@),
    {
        match self {
            StartupError::Config(error) => error.to_string(),
            StartupError::Store(error) => error.to_string(),
            StartupError::BaseUrl(error) => error.to_string(),
        }
    }
}

/// A server that has started never accepts an empty credential: its token has
/// at least 32 bytes.
pub proof fn started_server_has_a_token(
    config: ServerConfig,
    opened: Result<redis::Client, redis::RedisError>,
    parsed: Result<url::Url, url::ParseError>,
    state: AppState,
)
    requires
        config.starts_as(opened, parsed, Ok(state)),
    ensures
        byte_len(secret_text(state.mcp_api_token)) >= 32,
        secret_text(state.mcp_api_token).len() > 0,
{
    if secret_text(state.mcp_api_token).len() == 0 {
        assert(encode_utf8(secret_text(state.mcp_api_token)).len() == 0);
    }
}

/// What makes a configuration fit, field by field: static authentication, a token
/// of 32 bytes or more with no upper bound, a username and a key prefix with
/// something but whitespace in them, and a password that is not empty. Every such
/// configuration is accepted, and every other one is refused for the first of
/// these that it lacks.
pub proof fn configurations_are_judged_by_their_fields(
    config: &ServerConfig,
    outcome: Result<(), ConfigError>,
)
    requires
        call_ensures(ServerConfig::validate, (config,), outcome),
    ensures
        ({
            let supported = config.auth_mode@ == "static"@;
            let long = encode_utf8(config.mcp_api_token@).len() >= 32;
            let user = exists|i: int|
                0 <= i < config.imap_username@.len() && !whitespace(
                    #[trigger] config.imap_username@[i],
                );
            let password = config.imap_app_password@.len() > 0;
            let prefix = exists|i: int|
                0 <= i < config.redis_key_prefix@.len() && !whitespace(
                    #[trigger] config.redis_key_prefix@[i],
                );
            &&& outcome is Ok <==> supported && long && user && password && prefix
            &&& outcome matches Err(error) ==> {
                &&& error is UnsupportedAuthMode <==> !supported
                &&& error is UnsupportedAuthMode ==> error->UnsupportedAuthMode_0@
                    == config.auth_mode@
                &&& error is ShortApiToken <==> supported && !long
                &&& error is EmptyUsername <==> supported && long && !user
                &&& error is EmptyPassword <==> supported && long && user && !password
                &&& error is EmptyKeyPrefix <==> supported && long && user && password && !prefix
            }
        }),
{
    blank_texts_hold_whitespace_only(config.imap_username@);
    blank_texts_hold_whitespace_only(config.redis_key_prefix@);
}

/// A longer token is never worse: what is accepted with a token is accepted with
/// any token of at least as many bytes.
pub proof fn longer_tokens_are_accepted(
    config: &ServerConfig,
    longer: &ServerConfig,
    accepted: Result<(), ConfigError>,
    outcome: Result<(), ConfigError>,
)
    requires
        call_ensures(ServerConfig::validate, (config,), accepted),
        call_ensures(ServerConfig::validate, (longer,), outcome),
        accepted is Ok,
        longer.auth_mode@ == config.auth_mode@,
        longer.imap_username@ == config.imap_username@,
        longer.imap_app_password@ == config.imap_app_password@,
        longer.redis_key_prefix@ == config.redis_key_prefix@,
        encode_utf8(longer.mcp_api_token@).len() >= encode_utf8(config.mcp_api_token@).len(),
    ensures
        outcome is Ok,
{
    configurations_are_judged_by_their_fields(config, accepted);
    configurations_are_judged_by_their_fields(longer, outcome);
}

/// The texts of configuration errors.
pub proof fn configuration_errors_name_the_variable(error: &ConfigError, text: String)
    requires
        call_ensures(ConfigError::to_string, (error,), text),
    ensures
        text@ == match *error {
            ConfigError::UnsupportedAuthMode(mode) => "unsupported AUTH_MODE '"@ + mode@
                + "': only 'static' is supported"@,
            ConfigError::ShortApiToken => "MCP_API_TOKEN must be at least 32 characters"@,
            ConfigError::EmptyUsername => "IMAP_USERNAME must not be empty"@,
            ConfigError::EmptyPassword => "IMAP_APP_PASSWORD must not be empty"@,
            ConfigError::EmptyKeyPrefix => "REDIS_KEY_PREFIX must not be empty"@,
        },
{
}

/// The account is made of the configured login, host, port and password.
pub proof fn account_is_the_configured_one(config: &ServerConfig, account: StaticAccount)
    requires
        call_ensures(ServerConfig::static_account, (config,), account),
    ensures
        account.account_id@ == "static"@,
        account.label@ == config.imap_username@,
        account.imap_email@ == config.imap_username@,
        account.imap_host@ == config.imap_host@,
        account.imap_port == config.imap_port,
        secret_text(account.password) == config.imap_app_password@,
{
}

/// A server starts exactly where its configuration is accepted, its Redis URL can
/// be opened and its base URL has a host; it then runs on what was configured.
/// Else it reports the first of these that failed.
pub proof fn startup_follows_the_configuration(
    config: &ServerConfig,
    judged: Result<(), ConfigError>,
    derived: Result<Vec<String>, BaseUrlError>,
    base_url: &str,
    outcome: Result<AppState, StartupError>,
)
    requires
        call_ensures(ServerConfig::validate, (config,), judged),
        base_url@ == config.base_url@,
        call_ensures(derive_mcp_allowed_hosts, (base_url,), derived),
        call_ensures(ServerConfig::start, (config,), outcome),
    ensures
        ({
            let opened = redis_client_for(config.redis_url@);
            &&& outcome is Ok <==> judged is Ok && opened is Ok && derived is Ok
            &&& outcome matches Err(error) ==> {
                &&& error is Config <==> judged is Err
                &&& error is Store <==> judged is Ok && opened is Err
                &&& error is BaseUrl <==> judged is Ok && opened is Ok && derived is Err
                &&& error is Store ==> error->Store_0 == AppError::Redis(opened->Err_0)
            }
            &&& outcome matches Ok(state) ==> {
                &&& state.sessions.spec_client() == opened->Ok_0
                &&& state.sessions.prefix() == config.redis_key_prefix@
                &&& state.account.account_id@ == "static"@
                &&& state.account.label@ == config.imap_username@
                &&& state.account.imap_email@ == config.imap_username@
                &&& state.account.imap_host@ == config.imap_host@
                &&& state.account.imap_port == config.imap_port
                &&& secret_text(state.account.password) == config.imap_app_password@
                &&& state.base_url@ == config.base_url@
                &&& secret_text(state.mcp_api_token) == config.mcp_api_token@
                &&& state.mcp_allowed_hosts@.len() == derived->Ok_0@.len()
                &&& forall|i: int|
                    0 <= i < derived->Ok_0@.len() ==> (#[trigger] state.mcp_allowed_hosts@[i])@
                        == derived->Ok_0@[i]@
            }
        }),
{
    if let (Ok(state), Ok(hosts)) = (outcome, derived) {
        let list = state.mcp_allowed_hosts@;
        texts_are_those_of_the_strings(list, None);
        texts_are_those_of_the_strings(hosts@, None);
        assert forall|i: int| 0 <= i < hosts@.len() implies (#[trigger] list[i])@
            == hosts@[i]@ by {
            assert(texts(list)[i] == texts(hosts@)[i]);
        }
    }
}

/// A server that cannot start says why in the words of what failed.
pub proof fn startup_errors_speak_for_their_cause(
    error: &StartupError,
    text: String,
    cause: &ConfigError,
    said: String,
)
    requires
        call_ensures(StartupError::to_string, (error,), text),
        call_ensures(ConfigError::to_string, (cause,), said),
    ensures
        match *error {
            StartupError::Config(config) => config == *cause ==> text@ == said@,
            StartupError::Store(AppError::Redis(source)) => exists|shown: String|
                #[trigger] vstd::string::to_string_from_display_ensures::<redis::RedisError>(
                    &source,
                    shown,
                ) && text@ == "Redis error: "@ + shown@,
            StartupError::BaseUrl(BaseUrlError::NoHost { base_url }) => text@
                == "BASE_URL has no host component: "@ + base_url@,
            StartupError::BaseUrl(BaseUrlError::Invalid { base_url, reason }) => exists|shown: String|
                #[trigger] vstd::string::to_string_from_display_ensures::<url::ParseError>(
                    &reason,
                    shown,
                ) && text@ == "BASE_URL is not a valid URL ("@ + base_url@ + "): "@ + shown@,
            _ => true,
        },
{
}

} // verus!
