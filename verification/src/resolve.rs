//! Import resolution: the first half of the engine's module-loader
//! contract. An absolute specifier stands for itself; a relative one is
//! joined against the referrer with standard URL-join semantics; anything
//! else cannot be resolved.

use vstd::prelude::*;

use crate::coordinator::LoadError;
use crate::loader::TanxiumModuleLoader;
use crate::strutil::str_starts_with;

verus! {

/// The serialization of a string parsed as an absolute URL, absent when
/// it is not one. Parsing is deterministic in the input text.
pub uninterp spec fn parsed_url(s: Seq<char>) -> Option<Seq<char>>;

/// The serialization of `rel` resolved against the absolute URL `base`
/// by the standard URL join, absent when the join fails (in particular
/// when `base` is not an absolute URL).
pub uninterp spec fn joined_url(base: Seq<char>, rel: Seq<char>) -> Option<Seq<char>>;

/// Relies on url::Url::parse, which parses an absolute URL from a string,
/// and on the crate's serialization of the parsed value; both are
/// deterministic in the input.
#[verifier::external_body]
fn url_parse_normalized(s: &str) -> (r: Option<String>)
    ensures
        r matches Some(u) ==> parsed_url(s@) == Some(u@),
        r is None ==> parsed_url(s@) is None,
{
    match url::Url::parse(s) {
        Ok(u) => Some(String::from(u)),
        Err(_) => None,
    }
}

/// Relies on url::Url::parse and url::Url::join: `rel` is parsed with the
/// parsed `base` as base URL, per the standard URL join; the outcome is
/// deterministic in the two inputs.
#[verifier::external_body]
fn url_join_normalized(base: &str, rel: &str) -> (r: Option<String>)
    ensures
        r matches Some(u) ==> joined_url(base@, rel@) == Some(u@),
        r is None ==> joined_url(base@, rel@) is None,
{
    match url::Url::parse(base) {
        Ok(b) => match b.join(rel) {
            Ok(u) => Some(String::from(u)),
            Err(_) => None,
        },
        Err(_) => None,
    }
}

/// True when a specifier is written relative to its referrer: it starts
/// with `/`, `./` or `../`.
pub open spec fn is_relative_specifier(s: Seq<char>) -> bool {
    ||| "/"@.is_prefix_of(s)
    ||| "./"@.is_prefix_of(s)
    ||| "../"@.is_prefix_of(s)
}

/// What resolution yields: an absolute specifier's own serialization; for
/// a relative specifier, the URL join against the referrer; nothing
/// otherwise, or when the join fails.
pub open spec fn resolve_import_spec(specifier: Seq<char>, referrer: Seq<char>) -> Option<
    Seq<char>,
> {
    match parsed_url(specifier) {
        Some(u) => Some(u),
        None => if is_relative_specifier(specifier) {
            joined_url(referrer, specifier)
        } else {
            None
        },
    }
}

impl TanxiumModuleLoader {
    /// Resolve an import against its referrer: the engine calls this for
    /// every specifier before loading it. A failure is a resolution
    /// error; nothing is read or fetched here.
    pub fn resolve(&self, specifier: &str, referrer: &str) -> (r: Result<String, LoadError>)
        ensures
            match r {
                Ok(m) => resolve_import_spec(specifier@, referrer@) == Some(m@),
                Err(e) => e == LoadError::Resolution && resolve_import_spec(
                    specifier@,
                    referrer@,
                ) is None,
            },
    {
        match url_parse_normalized(specifier) {
            Some(u) => Ok(u),
            None => {
                let relative = str_starts_with(specifier, "/") || str_starts_with(specifier, "./")
                    || str_starts_with(specifier, "../");
                if relative {
                    match url_join_normalized(referrer, specifier) {
                        Some(u) => Ok(u),
                        None => Err(LoadError::Resolution),
                    }
                } else {
                    Err(LoadError::Resolution)
                }
            },
        }
    }
}

} // verus!
