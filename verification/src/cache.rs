//! Content-addressed cache paths for remote modules: a cache entry lives
//! at `<cwd>/.module_cache/<hex-md5-of-specifier>.js` and holds the
//! final, already-transpiled source bytes.

use vstd::prelude::*;
use vstd::string::StringExecFns;

verus! {

/// The lowercase hexadecimal MD5 digest of a specifier's text: a pure
/// function of the characters alone.
pub uninterp spec fn md5_hex_of(s: Seq<char>) -> Seq<char>;

/// Relies on md5::compute (RFC 1321) and the md5 crate's LowerHex
/// formatting, which prints each of the digest's 16 bytes as two
/// lowercase hexadecimal digits.
#[verifier::external_body]
pub fn md5_hex(specifier: &str) -> (r: String)
    ensures
        r@ == md5_hex_of(specifier@),
        r@.len() == 32,
{
    format!("{:x}", md5::compute(specifier))
}

/// The on-disk cache path for a remote specifier, relative to the working
/// directory: `<cwd>/.module_cache/<hex-md5-of-specifier>.js`.
pub open spec fn cache_path_spec(cwd: Seq<char>, specifier: Seq<char>) -> Seq<char> {
    cwd + "/.module_cache/"@ + md5_hex_of(specifier) + ".js"@
}

/// The cache directory under the working directory.
pub open spec fn cache_dir_spec(cwd: Seq<char>) -> Seq<char> {
    cwd + "/.module_cache"@
}

/// Build the cache path for a specifier.
pub fn cache_path_for(cwd: &str, specifier: &str) -> (r: String)
    ensures
        r@ == cache_path_spec(cwd@, specifier@),
{
    let hash = md5_hex(specifier);
    let mut p = cwd.to_owned();
    p.append("/.module_cache/");
    p.append(hash.as_str());
    p.append(".js");
    assert(p@ =~= cache_path_spec(cwd@, specifier@));
    p
}

/// Build the cache directory path for a working directory.
pub fn cache_dir_for(cwd: &str) -> (r: String)
    ensures
        r@ == cache_dir_spec(cwd@),
{
    let mut p = cwd.to_owned();
    p.append("/.module_cache");
    assert(p@ =~= cache_dir_spec(cwd@));
    p
}

} // verus!
