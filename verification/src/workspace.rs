//! The workspace loader's flow: a workspace import is served from an
//! existing file, fetched from an `http(s)://` URL, or resolved as a
//! directory of index files, and the fetched or read source is finished
//! by at most one transpilation.

use vstd::prelude::*;
use vstd::string::StringExecFns;

use crate::classify::candidate_is_typescript;
use crate::classify::has_workspace_ts_extension;
use crate::classify::index_candidate_is_typescript;
use crate::classify::is_typescript_media_type;
use crate::classify::probe_winner;
use crate::classify::resolve_directory_index;
use crate::classify::content_type_is_typescript;
use crate::coordinator::LoadError;
use crate::loader::YasumuModuleLoader;
use crate::strutil::str_starts_with;
use crate::strutil::str_suffix_from;
use crate::typescript::transpile_typescript;
use crate::typescript::workspace_transpile_result;

verus! {

/// A workspace specifier with any `file://` scheme stripped; other
/// specifiers stand as written.
pub open spec fn strip_file_scheme(s: Seq<char>) -> Seq<char> {
    if "file://"@.is_prefix_of(s) {
        s.skip(7)
    } else {
        s
    }
}

/// Strip the `file://` scheme from a workspace specifier, if present.
pub fn normalize_workspace_specifier(s: &str) -> (r: String)
    ensures
        r@ == strip_file_scheme(s@),
{
    if str_starts_with(s, "file://") {
        proof {
            reveal_strlit("file://");
        }
        str_suffix_from(s, 7)
    } else {
        s.to_owned()
    }
}

/// Where a workspace import is served from.
pub enum WorkspaceCategory {
    /// An existing file, read directly; `transpile` says whether its
    /// extension asks for transpilation.
    File { path: String, transpile: bool },
    /// A remote script, fetched over HTTP.
    Remote { url: String },
    /// Neither: a directory under the working directory, probed for index
    /// files.
    Directory { dir: String },
}

/// Ghost image of a workspace classification.
#[verifier::ext_equal]
pub enum WorkspaceCategoryView {
    File { path: Seq<char>, transpile: bool },
    Remote { url: Seq<char> },
    Directory { dir: Seq<char> },
}

impl View for WorkspaceCategory {
    type V = WorkspaceCategoryView;

    open spec fn view(&self) -> WorkspaceCategoryView {
        match self {
            WorkspaceCategory::File { path, transpile } => WorkspaceCategoryView::File {
                path: path@,
                transpile: *transpile,
            },
            WorkspaceCategory::Remote { url } => WorkspaceCategoryView::Remote { url: url@ },
            WorkspaceCategory::Directory { dir } => WorkspaceCategoryView::Directory { dir: dir@ },
        }
    }
}

/// How a workspace import is classified once the `file://` scheme is
/// stripped: an existing file is read (and transpiled when TypeScript
/// support is on and its extension is in the workspace TypeScript
/// family); an `http(s)://` specifier is fetched; anything else is probed
/// as a directory under the working directory.
pub open spec fn workspace_category_spec(
    typescript: bool,
    cwd: Seq<char>,
    stripped: Seq<char>,
    file_exists: bool,
) -> WorkspaceCategoryView {
    if file_exists {
        WorkspaceCategoryView::File {
            path: stripped,
            transpile: typescript && has_workspace_ts_extension(stripped),
        }
    } else if "http://"@.is_prefix_of(stripped) || "https://"@.is_prefix_of(stripped) {
        WorkspaceCategoryView::Remote { url: stripped }
    } else {
        WorkspaceCategoryView::Directory { dir: cwd + "/"@ + stripped }
    }
}

impl YasumuModuleLoader {
    /// Classify a workspace import. The host reports whether the stripped
    /// specifier names an existing file.
    pub fn classify_imported_module(&self, specifier: &str, file_exists: bool) -> (r:
        WorkspaceCategory)
        ensures
            r@ == workspace_category_spec(
                self.typescript_enabled(),
                self.cwd_spec(),
                strip_file_scheme(specifier@),
                file_exists,
            ),
    {
        let stripped = normalize_workspace_specifier(specifier);
        if file_exists {
            let transpile = self.should_transpile(stripped.as_str());
            WorkspaceCategory::File { path: stripped, transpile }
        } else if str_starts_with(stripped.as_str(), "http://") || str_starts_with(
            stripped.as_str(),
            "https://",
        ) {
            WorkspaceCategory::Remote { url: stripped }
        } else {
            let mut dir = self.cwd_str().to_owned();
            dir.append("/");
            dir.append(stripped.as_str());
            assert(dir@ =~= self.cwd_spec() + "/"@ + stripped@);
            WorkspaceCategory::Directory { dir }
        }
    }

    /// Resolve a directory import against the index-candidate probe: the
    /// first existing candidate wins, and the winner is transpiled when
    /// TypeScript support is on and it is a TypeScript candidate. When no
    /// candidate exists, the module is not found.
    pub fn resolve_directory_module(&self, exists: &Vec<bool>) -> (r: Result<
        (usize, bool),
        LoadError,
    >)
        ensures
            match r {
                Ok(p) => probe_winner(exists@) == Some(p.0 as int) && p.1 == (
                self.typescript_enabled() && candidate_is_typescript(p.0 as int)),
                Err(e) => e == LoadError::NotFound && probe_winner(exists@) is None,
            },
    {
        match resolve_directory_index(exists) {
            Some(i) => {
                let ts = self.typescript_support() && index_candidate_is_typescript(i);
                Ok((i, ts))
            },
            None => Err(LoadError::NotFound),
        }
    }

    /// Whether a remote response's declared content type asks for
    /// transpilation: never when TypeScript support is off.
    pub fn remote_is_typescript(&self, content_type: Option<&str>) -> (r: bool)
        ensures
            r == (self.typescript_enabled() && (content_type matches Some(ct)
                && is_typescript_media_type(ct@))),
    {
        if !self.typescript_support() {
            return false;
        }
        match content_type {
            Some(ct) => content_type_is_typescript(ct),
            None => false,
        }
    }
}

/// Finish a loaded workspace module: a failed read is an I/O failure;
/// source marked for transpilation is transpiled, and a source that does
/// not parse fails the load; anything else is delivered untouched.
pub fn load_module_inner(content: Option<String>, transpile: bool) -> (r: Result<
    String,
    LoadError,
>)
    ensures
        content is None ==> r == Err::<String, LoadError>(LoadError::Io),
        transpile ==> (content matches Some(c) ==> match r {
            Ok(t) => workspace_transpile_result(c@) == Some(t@),
            Err(e) => e == LoadError::Transpile && workspace_transpile_result(c@) is None,
        }),
        !transpile ==> (content matches Some(c) ==> (r matches Ok(t) && t@ == c@)),
{
    match content {
        None => Err(LoadError::Io),
        Some(code) => {
            if transpile {
                match transpile_typescript(code.as_str()) {
                    Ok(js) => Ok(js),
                    Err(_) => Err(LoadError::Transpile),
                }
            } else {
                Ok(code)
            }
        },
    }
}

} // verus!
