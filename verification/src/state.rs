//! Shared application state and who is let in to the MCP endpoint.

use std::sync::Arc;

use vstd::prelude::*;
use vstd::utf8::encode_utf8;

use crate::auth::{
    ascii_text, bearer_credential_reads_back, exact_token_is_accepted, extract_bearer_token,
    header_fields, presented_token, sha256_digest, token_matches, tokens_agree, visible_ascii,
};
use crate::hosts::{derive_mcp_allowed_hosts, hosts_derived, parsed_url, BaseUrlError};
use crate::reply::{plain_reply, reply_content_is_in_its_fields, Reply, ReplyView};
use crate::secret::{secret_text, Secret};
use crate::session::{
    account_summary, AccountSummary, ListAccountsResult, SessionStore, StaticAccount,
};
use crate::text::{clone_texts, optional_text, texts, texts_are_those_of_the_strings};

verus! {

/// `Clone` of `std::sync::Arc`: another handle on the same account.
#[verifier::external_body]
fn share_account(account: &Arc<StaticAccount>) -> (shared: Arc<StaticAccount>)
    ensures
        shared == *account,
{
    account.clone()
}

/// Shared application state.
pub struct AppState {
    pub sessions: SessionStore,
    /// The single operator-configured IMAP account.
    pub account: Arc<StaticAccount>,
    pub base_url: String,
    /// Bearer token required on the MCP endpoint.
    pub mcp_api_token: Secret,
    /// Hosts that the MCP transport accepts in the `Host` header.
    pub mcp_allowed_hosts: Vec<String>,
}

impl AppState {
    /// The state of a server on the given account, reachable at `base_url`.
    pub fn new(
        sessions: SessionStore,
        account: StaticAccount,
        base_url: String,
        mcp_api_token: Secret,
    ) -> (state: Result<AppState, BaseUrlError>)
        ensures
            match state {
                Ok(state) => {
                    &&& state.sessions == sessions
                    &&& *state.account == account
                    &&& state.base_url == base_url
                    &&& state.mcp_api_token == mcp_api_token
                    &&& hosts_derived(
                        base_url@,
                        parsed_url(base_url@),
                        Ok(state.mcp_allowed_hosts),
                    )
                },
                Err(error) => hosts_derived(base_url@, parsed_url(base_url@), Err(error)),
            },
    {
        match derive_mcp_allowed_hosts(base_url.as_str()) {
            Ok(mcp_allowed_hosts) => Ok(
                AppState {
                    sessions,
                    account: Arc::new(account),
                    base_url,
                    mcp_api_token,
                    mcp_allowed_hosts,
                },
            ),
            Err(error) => Err(error),
        }
    }
}

/// Per-request handle on the configured account and the ticket store.
pub struct AccountResolver {
    pub store: SessionStore,
    pub account: Arc<StaticAccount>,
    pub base_url: String,
}

impl AccountResolver {
    /// A handle on the given store and account.
    pub fn new(store: SessionStore, account: Arc<StaticAccount>, base_url: String) -> (resolver:
        AccountResolver)
        ensures
            resolver == (AccountResolver { store, account, base_url }),
    {
        AccountResolver { store, account, base_url }
    }

    /// Lists the one configured account, without its credentials.
    pub fn list_accounts(&self) -> (result: ListAccountsResult)
        ensures
            result.accounts@.len() == 1,
            result.accounts@[0]@ == account_summary(*self.account),
    {
        let mut accounts: Vec<AccountSummary> = Vec::new();
        accounts.push(AccountSummary::from_static(&self.account));
        ListAccountsResult { accounts }
    }
}

impl Clone for AccountResolver {
    fn clone(&self) -> (copy: AccountResolver)
        ensures
            copy.store.spec_client() == self.store.spec_client(),
            copy.store.prefix() == self.store.prefix(),
            copy.account == self.account,
            copy.base_url@ == self.base_url@,
    {
        AccountResolver {
            store: self.store.clone(),
            account: share_account(&self.account),
            base_url: self.base_url.clone(),
        }
    }
}

/// How the MCP transport is set up for a request.
pub struct TransportConfig {
    pub stateful_mode: bool,
    pub json_response: bool,
    pub allowed_hosts: Vec<String>,
}

/// What a request to the MCP endpoint leads to.
pub enum McpStep {
    /// It is refused.
    Refuse(Reply),
    /// It is handed to the MCP transport.
    Serve { resolver: AccountResolver, transport: TransportConfig },
}

/// The answer to a request that is not authenticated.
pub open spec fn unauthorized(text: Seq<char>) -> ReplyView {
    ReplyView { headers: seq![("WWW-Authenticate"@, "Bearer"@)], ..plain_reply(401, text) }
}

/// The refusal of a request that presents `token`; none where it is let in.
pub open spec fn refusal(token: Option<Seq<char>>, expected: Seq<char>) -> Option<ReplyView> {
    match token {
        None => Some(unauthorized("Bearer token required"@)),
        Some(token) => if tokens_agree(token, expected) {
            None
        } else {
            Some(unauthorized("Invalid token"@))
        },
    }
}

/// The answer to a request that is not authenticated.
fn unauthorized_reply(text: &str) -> (reply: Reply)
    ensures
        reply@ == unauthorized(text@),
{
    let reply = Reply::plain(401, text).with_header("WWW-Authenticate", "Bearer");
    assert(reply@.headers =~= unauthorized(text@).headers);
    reply
}

/// Decides on the token that a request presents.
pub fn authorize(token: Option<String>, expected: &str) -> (refused: Option<Reply>)
    ensures
        match refused {
            Some(reply) => refusal(optional_text(token), expected@) == Some(reply@),
            None => refusal(optional_text(token), expected@) is None,
        },
{
    match token {
        None => Some(unauthorized_reply("Bearer token required")),
        Some(token) => if token_matches(token.as_str(), expected) {
            None
        } else {
            Some(unauthorized_reply("Invalid token"))
        },
    }
}

/// Takes a request to the MCP endpoint: refuses it unless it presents the
/// expected bearer token, and else says how it is to be served.
pub fn mcp_handler(headers: &http::HeaderMap, state: &AppState) -> (step: McpStep)
    ensures
        match step {
            McpStep::Refuse(reply) => refusal(
                presented_token(header_fields(*headers)),
                secret_text(state.mcp_api_token),
            ) == Some(reply@),
            McpStep::Serve { resolver, transport } => {
                &&& refusal(
                    presented_token(header_fields(*headers)),
                    secret_text(state.mcp_api_token),
                ) is None
                &&& resolver.store.spec_client() == state.sessions.spec_client()
                &&& resolver.store.prefix() == state.sessions.prefix()
                &&& resolver.account == state.account
                &&& resolver.base_url@ == state.base_url@
                &&& !transport.stateful_mode
                &&& transport.json_response
                &&& texts(transport.allowed_hosts@) == texts(state.mcp_allowed_hosts@)
            },
        },
{
    let token = extract_bearer_token(headers);
    match authorize(token, state.mcp_api_token.expose_secret()) {
        Some(reply) => McpStep::Refuse(reply),
        None => McpStep::Serve {
            resolver: AccountResolver::new(
                state.sessions.clone(),
                share_account(&state.account),
                state.base_url.clone(),
            ),
            transport: TransportConfig {
                stateful_mode: false,
                json_response: true,
                allowed_hosts: clone_texts(&state.mcp_allowed_hosts),
            },
        },
    }
}

/// A request whose first `Authorization` field is `Bearer ` and the configured
/// token is let in, whatever else it carries.
pub proof fn configured_token_is_let_in(
    fields: Map<Seq<char>, Seq<Seq<u8>>>,
    expected: Seq<char>,
)
    requires
        fields.contains_key("authorization"@),
        forall|i: int|
            0 <= i < fields["authorization"@][0].len() ==> visible_ascii(
                #[trigger] fields["authorization"@][0][i],
            ),
        ascii_text(fields["authorization"@][0]) == "Bearer "@ + expected,
    ensures
        refusal(presented_token(fields), expected) is None,
{
    bearer_credential_reads_back(expected);
    exact_token_is_accepted(expected);
}

/// A request without an `Authorization` field, or with another scheme in it, is
/// asked for a bearer token.
pub proof fn request_without_bearer_is_refused(
    fields: Map<Seq<char>, Seq<Seq<u8>>>,
    expected: Seq<char>,
)
    requires
        !fields.contains_key("authorization"@) || !("Bearer "@.is_prefix_of(
            ascii_text(fields["authorization"@][0]),
        )),
    ensures
        refusal(presented_token(fields), expected) == Some(
            unauthorized("Bearer token required"@),
        ),
{
}

/// Every refusal is a 401 that asks for a bearer token.
pub proof fn refusals_ask_for_bearer(token: Option<Seq<char>>, expected: Seq<char>)
    requires
        refusal(token, expected) is Some,
    ensures
        refusal(token, expected)->0.status == 401,
        refusal(token, expected)->0.headers == seq![("WWW-Authenticate"@, "Bearer"@)],
{
}

/// What becomes of a request to the MCP endpoint, by the token it presents. With
/// none it is a 401 that asks for one. With a token whose SHA-256 digest, over
/// all of its bytes, differs from that of the configured one it is a 401. Else it
/// is served, on the configured account, store and hosts.
pub proof fn only_the_configured_token_is_served(
    headers: &http::HeaderMap,
    state: &AppState,
    token: Option<String>,
    step: McpStep,
)
    requires
        call_ensures(extract_bearer_token, (headers,), token),
        call_ensures(mcp_handler, (headers, state), step),
    ensures
        ({
            let digest = sha256_digest(encode_utf8(secret_text(state.mcp_api_token)));
            let known = token is Some && sha256_digest(encode_utf8(token->0@)) == digest;
            let text = if token is None {
                "Bearer token required"@
            } else {
                "Invalid token"@
            };
            match step {
                McpStep::Refuse(reply) => {
                    &&& !known
                    &&& reply.status == 401
                    &&& reply.headers@.len() == 1
                    &&& reply.headers@[0].0@ == "WWW-Authenticate"@
                    &&& reply.headers@[0].1@ == "Bearer"@
                    &&& reply.body is Text && reply.body->Text_0@ == text
                },
                McpStep::Serve { resolver, transport } => {
                    &&& known
                    &&& resolver.account == state.account
                    &&& resolver.base_url@ == state.base_url@
                    &&& resolver.store.spec_client() == state.sessions.spec_client()
                    &&& resolver.store.prefix() == state.sessions.prefix()
                    &&& !transport.stateful_mode && transport.json_response
                    &&& transport.allowed_hosts@.len() == state.mcp_allowed_hosts@.len()
                    &&& forall|i: int|
                        0 <= i < transport.allowed_hosts@.len() ==> (
                        #[trigger] transport.allowed_hosts@[i])@ == state.mcp_allowed_hosts@[i]@
                },
            }
        }),
{
    texts_are_those_of_the_strings(state.mcp_allowed_hosts@, token);
    match step {
        McpStep::Refuse(reply) => {
            reply_content_is_in_its_fields(reply);
            assert(reply@.headers[0] == ("WWW-Authenticate"@, "Bearer"@));
        },
        McpStep::Serve { resolver, transport } => {
            texts_are_those_of_the_strings(transport.allowed_hosts@, token);
            assert forall|i: int| 0 <= i < transport.allowed_hosts@.len() implies (
            #[trigger] transport.allowed_hosts@[i])@ == state.mcp_allowed_hosts@[i]@ by {
                assert(texts(transport.allowed_hosts@)[i] == texts(state.mcp_allowed_hosts@)[i]);
            }
        },
    }
}

/// Deciding on a token goes by the same digests, whoever asks.
pub proof fn tokens_are_refused_by_digest(
    token: Option<String>,
    expected: &str,
    refused: Option<Reply>,
)
    requires
        call_ensures(authorize, (token, expected), refused),
    ensures
        refused is None <==> token is Some && sha256_digest(encode_utf8(token->0@))
            == sha256_digest(encode_utf8(expected@)),
        refused matches Some(reply) ==> reply.status == 401 && reply.body is Text
            && reply.body->Text_0@ == (if token is None {
            "Bearer token required"@
        } else {
            "Invalid token"@
        }),
{
    texts_are_those_of_the_strings(Seq::empty(), token);
    if let Some(reply) = refused {
        reply_content_is_in_its_fields(reply);
    }
}

/// The state holds what it was made from.
pub proof fn state_holds_what_it_was_made_from(
    sessions: SessionStore,
    account: StaticAccount,
    base_url: String,
    token: Secret,
    state: AppState,
)
    requires
        call_ensures(AppState::new, (sessions, account, base_url, token), Ok::<AppState, BaseUrlError>(state)),
    ensures
        state.sessions == sessions && *state.account == account && state.base_url == base_url
            && state.mcp_api_token == token,
{
}

/// Listing the accounts names the one configured account, field by field.
pub proof fn listing_names_the_configured_account(
    resolver: &AccountResolver,
    result: ListAccountsResult,
)
    requires
        call_ensures(AccountResolver::list_accounts, (resolver,), result),
    ensures
        result.accounts@.len() == 1,
        result.accounts@[0].account_id@ == resolver.account.account_id@,
        result.accounts@[0].label@ == resolver.account.label@,
        result.accounts@[0].imap_email@ == resolver.account.imap_email@,
        result.accounts@[0].imap_host@ == resolver.account.imap_host@,
        result.accounts@[0].last_used_at is None,
        !result.accounts@[0].disabled,
        result.accounts@[0].is_default,
{
}

} // verus!
