use vstd::prelude::*;

use crate::error::NsddnsError;

verus! {

/// Configuration information for nsddns
#[derive(Clone, Debug)]
pub struct NsddnsConfig {
    /// Domain to modify A records for
    pub domain: String,
    /// Subdomain (or blank if mutating the apex)
    pub subdomain: String,
    /// Namesilo API key for reading/mutating records
    pub api_key: String,
}

/// Whether `json::parse` accepts the text as a well-formed JSON document.
pub uninterp spec fn json_parses(text: Seq<char>) -> bool;

/// The string value found at a top-level key of a JSON document: `Some` when
/// the key is present with a string value, `None` otherwise.  A function of
/// the document text and the key alone.
pub uninterp spec fn json_str_key(text: Seq<char>, key: Seq<char>) -> Option<Seq<char>>;

/// The three configuration values as they stand in the document, each absent
/// when its key is missing or not a string.
pub(crate) struct RawConfig {
    pub domain: Option<String>,
    pub subdomain: Option<String>,
    pub api_key: Option<String>,
}

/// Relies on `json::parse` (whether the text is well-formed JSON) and on
/// `JsonValue`'s `&str` indexing with `JsonValue::as_str` (the string value at
/// a top-level key, `Null`/`None` when absent); both depend on the document
/// text alone.
#[verifier::external_body]
fn read_config_document(text: &str) -> (r: Option<RawConfig>)
    ensures
        r is Some <==> json_parses(text@),
        r matches Some(c) ==> {
            &&& c.domain.deep_view() == json_str_key(text@, "domain"@)
            &&& c.subdomain.deep_view() == json_str_key(text@, "subdomain"@)
            &&& c.api_key.deep_view() == json_str_key(text@, "api_key"@)
        },
{
    match json::parse(text) {
        Ok(doc) => Some(RawConfig {
            domain: doc["domain"].as_str().map(|s| s.to_owned()),
            subdomain: doc["subdomain"].as_str().map(|s| s.to_owned()),
            api_key: doc["api_key"].as_str().map(|s| s.to_owned()),
        }),
        Err(_) => None,
    }
}

/// Parse the configuration JSON and return a NsddnsConfig struct.
///
/// The three keys `domain`, `subdomain` and `api_key` must each be present
/// with a string value; the first absent one (in that order) is reported.
/// No further validation of the values is performed.
pub fn parse_config(config_text: &str) -> (r: Result<NsddnsConfig, NsddnsError>)
    ensures
        match r {
            Ok(c) => {
                &&& json_parses(config_text@)
                &&& json_str_key(config_text@, "domain"@) == Some(c.domain@)
                &&& json_str_key(config_text@, "subdomain"@) == Some(c.subdomain@)
                &&& json_str_key(config_text@, "api_key"@) == Some(c.api_key@)
            },
            Err(e) => match e {
                NsddnsError::MalformedDocument => !json_parses(config_text@),
                NsddnsError::MissingKey { key } => {
                    &&& json_parses(config_text@)
                    &&& {
                        ||| (key@ == "domain"@ && json_str_key(config_text@, "domain"@) is None)
                        ||| (key@ == "subdomain"@ && json_str_key(config_text@, "domain"@) is Some
                            && json_str_key(config_text@, "subdomain"@) is None)
                        ||| (key@ == "api_key"@ && json_str_key(config_text@, "domain"@) is Some
                            && json_str_key(config_text@, "subdomain"@) is Some
                            && json_str_key(config_text@, "api_key"@) is None)
                    }
                },
                _ => false,
            },
        },
{
    let raw = match read_config_document(config_text) {
        Some(raw) => raw,
        None => {
            return Err(NsddnsError::MalformedDocument);
        },
    };
    let domain = match raw.domain {
        Some(domain) => domain,
        None => {
            return Err(NsddnsError::MissingKey { key: "domain".to_owned() });
        },
    };
    let subdomain = match raw.subdomain {
        Some(subdomain) => subdomain,
        None => {
            return Err(NsddnsError::MissingKey { key: "subdomain".to_owned() });
        },
    };
    let api_key = match raw.api_key {
        Some(api_key) => api_key,
        None => {
            return Err(NsddnsError::MissingKey { key: "api_key".to_owned() });
        },
    };
    Ok(NsddnsConfig { domain, subdomain, api_key })
}

} // verus!
