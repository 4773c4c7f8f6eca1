//! The two module loaders: the runtime loader, which serves the engine's
//! module graph from local files and remote URLs with an on-disk cache,
//! and the workspace loader, which serves workspace scripts and may have
//! TypeScript support switched off.

use vstd::prelude::*;

use crate::cache::cache_path_spec;
use crate::cache::cache_path_for;
use crate::cache::md5_hex;
use crate::cache::md5_hex_of;
use crate::classify::has_ts_extension;
use crate::classify::has_workspace_ts_extension;
use crate::classify::is_remote_specifier;
use crate::classify::is_typescript_media_type;
use crate::classify::content_type_is_typescript;
use crate::classify::specifier_is_remote;
use crate::classify::specifier_has_ts_extension;
use crate::classify::specifier_has_workspace_ts_extension;

verus! {

/// The module loader of the runtime: resolves specifiers to local files
/// or remote URLs, caches remote modules on disk, and decides when source
/// is transpiled before it reaches the engine.
pub struct TanxiumModuleLoader {
    pub(crate) cwd: String,
}

impl TanxiumModuleLoader {
    /// The working directory the loader was created with; cache paths are
    /// formed under it.
    pub closed spec fn cwd_spec(&self) -> Seq<char> {
        self.cwd@
    }

    /// Create a loader rooted at a working directory.
    pub fn new(cwd: String) -> (r: Self)
        ensures
            r.cwd_spec() == cwd@,
    {
        TanxiumModuleLoader { cwd }
    }

    /// Whether the specifier names a remote module (`http://`, `https://`,
    /// or the `npm:` package alias).
    pub fn is_remote_module(&self, specifier: &str) -> (r: bool)
        ensures
            r == is_remote_specifier(specifier@),
    {
        specifier_is_remote(specifier)
    }

    /// Whether a local specifier's extension asks for transpilation.
    pub fn should_transpile(&self, specifier: &str) -> (r: bool)
        ensures
            r == has_ts_extension(specifier@),
    {
        specifier_has_ts_extension(specifier)
    }

    /// Whether a remote response's declared content type asks for
    /// transpilation; the comparison ignores ASCII case.
    pub fn should_transpile_remote(&self, content_type: &str) -> (r: bool)
        ensures
            r == is_typescript_media_type(content_type@),
    {
        content_type_is_typescript(content_type)
    }

    /// The stable hash a remote specifier's cache entry is named by.
    pub fn hash_module_specifier(&self, specifier: &str) -> (r: String)
        ensures
            r@ == md5_hex_of(specifier@),
            r@.len() == 32,
    {
        md5_hex(specifier)
    }

    /// The working directory the loader was created with.
    pub fn cwd_str(&self) -> (r: &str)
        ensures
            r@ == self.cwd_spec(),
    {
        self.cwd.as_str()
    }

    /// The on-disk cache path for a remote specifier.
    pub fn get_module_cache_path(&self, specifier: &str) -> (r: String)
        ensures
            r@ == cache_path_spec(self.cwd_spec(), specifier@),
    {
        cache_path_for(self.cwd.as_str(), specifier)
    }
}

/// The module loader of the workspace runtime; TypeScript support may be
/// switched off, in which case nothing is ever transpiled.
pub struct YasumuModuleLoader {
    pub(crate) cwd: String,
    pub(crate) typescript: bool,
}

impl YasumuModuleLoader {
    /// The working directory the loader was created with.
    pub closed spec fn cwd_spec(&self) -> Seq<char> {
        self.cwd@
    }

    /// Whether TypeScript support is switched on.
    pub closed spec fn typescript_enabled(&self) -> bool {
        self.typescript
    }

    /// Create a loader rooted at a working directory, with TypeScript
    /// support on or off.
    pub fn new(cwd: String, typescript: bool) -> (r: Self)
        ensures
            r.cwd_spec() == cwd@,
            r.typescript_enabled() == typescript,
    {
        YasumuModuleLoader { cwd, typescript }
    }

    /// The working directory the loader was created with.
    pub fn cwd_str(&self) -> (r: &str)
        ensures
            r@ == self.cwd_spec(),
    {
        self.cwd.as_str()
    }

    /// Whether TypeScript support is switched on.
    pub fn typescript_support(&self) -> (r: bool)
        ensures
            r == self.typescript_enabled(),
    {
        self.typescript
    }

    /// Whether a specifier's extension asks for transpilation: never when
    /// TypeScript support is off, else when the extension is one of the
    /// workspace TypeScript family.
    pub fn should_transpile(&self, specifier: &str) -> (r: bool)
        ensures
            r == (self.typescript_enabled() && has_workspace_ts_extension(specifier@)),
    {
        if !self.typescript {
            return false;
        }
        specifier_has_workspace_ts_extension(specifier)
    }
}

} // verus!
