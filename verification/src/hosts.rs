//! The hosts that the MCP transport accepts.

use vstd::prelude::*;
use vstd::string::StringExecFns;

use crate::error::displays_after;
use crate::text::{texts, texts_are_those_of_the_strings};

verus! {

/// A URL of the `url` crate.
#[verifier::external_type_specification]
#[verifier::external_body]
pub struct ExUrl(url::Url);

/// The error of `url::Url::parse`.
#[verifier::external_type_specification]
#[verifier::external_body]
pub struct ExUrlParseError(url::ParseError);

/// What `url::Url::parse` makes of a text.
pub uninterp spec fn parsed_url(input: Seq<char>) -> Result<url::Url, url::ParseError>;

/// The host of a URL, as it stands in the URL; none for URLs without a host.
pub uninterp spec fn url_host(url: url::Url) -> Option<Seq<char>>;

/// `url::Url::parse`: reads an absolute URL. The outcome depends on the text
/// alone.
pub assume_specification[ url::Url::parse ](input: &str) -> (outcome: Result<
    url::Url,
    url::ParseError,
>)
    ensures
        outcome == parsed_url(input@),
;

/// `url::Url::host_str`: the host of the URL, if it has one.
pub assume_specification[ url::Url::host_str ](url: &url::Url) -> (host: Option<&str>)
    ensures
        match host {
            Some(host) => url_host(*url) == Some(host@),
            None => url_host(*url) is None,
        },
;

/// Why no hosts can be derived from a base URL.
#[derive(Debug)]
pub enum BaseUrlError {
    /// It is not a URL.
    Invalid { base_url: String, reason: url::ParseError },
    /// It is a URL without a host.
    NoHost { base_url: String },
}

impl BaseUrlError {
    /// True when `text` is how this error is shown.
    pub open spec fn shown_as(self, text: Seq<char>) -> bool {
        match self {
            BaseUrlError::Invalid { base_url, reason } => displays_after(
                "BASE_URL is not a valid URL ("@ + base_url@ + "): "@,
                reason,
                text,
            ),
            BaseUrlError::NoHost { base_url } => text == "BASE_URL has no host component: "@
                + base_url@,
        }
    }

    /// The error as text.
    pub fn to_string(&self) -> (text: String)
        ensures
            self.shown_as(text@),
    {
        match self {
            BaseUrlError::Invalid { base_url, reason } => {
                let shown = reason.to_string();
                let mut text = "BASE_URL is not a valid URL (".to_owned();
                text.append(base_url.as_str());
                text.append("): ");
                text.append(shown.as_str());
                text
            },
            BaseUrlError::NoHost { base_url } => {
                let mut text = "BASE_URL has no host component: ".to_owned();
                text.append(base_url.as_str());
                text
            },
        }
    }
}

/// The hosts that are accepted for a public host: that one and the loopback
/// names, so that local use keeps working.
pub open spec fn accepted_hosts(host: Seq<char>) -> Seq<Seq<char>> {
    seq![host, "localhost"@, "127.0.0.1"@, "::1"@]
}

/// The hosts that are accepted for a public host.
pub fn allowed_hosts_for(host: &str) -> (hosts: Vec<String>)
    ensures
        texts(hosts@) == accepted_hosts(host@),
{
    let mut hosts: Vec<String> = Vec::new();
    hosts.push(host.to_owned());
    hosts.push("localhost".to_owned());
    hosts.push("127.0.0.1".to_owned());
    hosts.push("::1".to_owned());
    assert(texts(hosts@) =~= accepted_hosts(host@));
    hosts
}

/// The outcome that a base URL leads to, given how it was parsed.
pub open spec fn hosts_derived(
    base_url: Seq<char>,
    parsed: Result<url::Url, url::ParseError>,
    outcome: Result<Vec<String>, BaseUrlError>,
) -> bool {
    match parsed {
        Err(error) => outcome matches Err(BaseUrlError::Invalid { base_url: shown, reason })
            && shown@ == base_url && reason == error,
        Ok(url) => match url_host(url) {
            None => outcome matches Err(BaseUrlError::NoHost { base_url: shown }) && shown@
                == base_url,
            Some(host) => outcome matches Ok(hosts) && texts(hosts@) == accepted_hosts(host),
        },
    }
}

/// Builds the list of accepted hosts from the public base URL.
pub fn derive_mcp_allowed_hosts(base_url: &str) -> (hosts: Result<Vec<String>, BaseUrlError>)
    ensures
        hosts_derived(base_url@, parsed_url(base_url@), hosts),
{
    match url::Url::parse(base_url) {
        Ok(url) => hosts_of_url(base_url, &url),
        Err(reason) => Err(BaseUrlError::Invalid { base_url: base_url.to_owned(), reason }),
    }
}

/// Builds the list of accepted hosts from a parsed base URL.
pub fn hosts_of_url(base_url: &str, url: &url::Url) -> (hosts: Result<Vec<String>, BaseUrlError>)
    ensures
        hosts_derived(base_url@, Ok(*url), hosts),
{
    match url.host_str() {
        Some(host) => Ok(allowed_hosts_for(host)),
        None => Err(BaseUrlError::NoHost { base_url: base_url.to_owned() }),
    }
}

/// Whenever a host list comes out, the loopback names are on it, and the host
/// of the base URL comes first.
pub proof fn loopback_is_always_accepted(
    base_url: Seq<char>,
    parsed: Result<url::Url, url::ParseError>,
    hosts: Vec<String>,
)
    requires
        hosts_derived(base_url, parsed, Ok(hosts)),
    ensures
        parsed is Ok,
        url_host(parsed->Ok_0) == Some(texts(hosts@)[0]),
        texts(hosts@).contains("localhost"@),
        texts(hosts@).contains("127.0.0.1"@),
        texts(hosts@).contains("::1"@),
{
    let list = texts(hosts@);
    assert(list[1] == "localhost"@);
    assert(list[2] == "127.0.0.1"@);
    assert(list[3] == "::1"@);
}

/// A base URL with a host gives four accepted hosts: its own and the loopback
/// names. One that is no URL, or has no host, is refused, and the error repeats
/// it.
pub proof fn hosts_come_from_the_base_url(
    base_url: &str,
    outcome: Result<Vec<String>, BaseUrlError>,
)
    requires
        call_ensures(derive_mcp_allowed_hosts, (base_url,), outcome),
    ensures
        match parsed_url(base_url@) {
            Err(error) => {
                &&& outcome matches Err(BaseUrlError::Invalid { base_url: shown, reason })
                &&& shown@ == base_url@ && reason == error
            },
            Ok(url) => match url_host(url) {
                None => {
                    &&& outcome matches Err(BaseUrlError::NoHost { base_url: shown })
                    &&& shown@ == base_url@
                },
                Some(host) => {
                    &&& outcome matches Ok(hosts)
                    &&& hosts@.len() == 4
                    &&& hosts@[0]@ == host
                    &&& hosts@[1]@ == "localhost"@
                    &&& hosts@[2]@ == "127.0.0.1"@
                    &&& hosts@[3]@ == "::1"@
                },
            },
        },
{
    if let Ok(hosts) = outcome {
        texts_are_those_of_the_strings(hosts@, None);
        assert(texts(hosts@)[0] == hosts@[0]@);
        assert(texts(hosts@)[1] == "localhost"@);
        assert(texts(hosts@)[2] == "127.0.0.1"@);
        assert(texts(hosts@)[3] == "::1"@);
    }
}

/// A base URL without a host is named in full in the error's text.
pub proof fn missing_host_names_the_base_url(error: &BaseUrlError, text: String)
    requires
        call_ensures(BaseUrlError::to_string, (error,), text),
        error is NoHost,
    ensures
        text@ == "BASE_URL has no host component: "@ + error->NoHost_base_url@,
{
}

/// A base URL that is no URL is named in full in the error's text, with what is
/// wrong with it.
pub proof fn invalid_base_url_is_named_with_the_reason(error: &BaseUrlError, text: String)
    requires
        call_ensures(BaseUrlError::to_string, (error,), text),
        error is Invalid,
    ensures
        exists|reason: String|
            #[trigger] vstd::string::to_string_from_display_ensures::<url::ParseError>(
                &error->Invalid_reason,
                reason,
            ) && text@ == "BASE_URL is not a valid URL ("@ + error->Invalid_base_url@ + "): "@
                + reason@,
{
}

} // verus!
