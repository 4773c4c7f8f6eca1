//! The per-request load coordinator: a state machine that decides, for
//! one load request, what the host must read or fetch next and what the
//! engine finally receives.
//!
//! The host performs the filesystem and network work; each of its results
//! comes back through exactly one step function, and each step function
//! consumes the in-flight state by value. The states have no `Clone`, so
//! a request's completion is delivered exactly once: the `Finish` step is
//! the single-use completion token of the embedding contract, and no step
//! leads back to an earlier state.

use vstd::prelude::*;

use crate::cache::cache_path_spec;
use crate::classify::extension_spec;
use crate::classify::has_ts_extension;
use crate::classify::is_remote_specifier;
use crate::classify::is_typescript_media_type;
use crate::classify::local_path_spec;
use crate::classify::local_path_of;
use crate::classify::remote_fetch_url;
use crate::classify::remote_url_for;
use crate::classify::content_type_is_typescript;
use crate::classify::extension_of;
use crate::classify::specifier_has_ts_extension;
use crate::classify::specifier_is_remote;
use crate::loader::TanxiumModuleLoader;
use crate::strutil::eq_ignore_ascii_case_seq;
use crate::strutil::str_eq_ignore_ascii_case;
use crate::transpile::transpile_result;
use crate::transpile::transpile_typescript;

verus! {

/// The module type a load request declares it expects, computed by the
/// engine from import attributes.
pub enum RequestedModuleKind {
    /// No expectation was declared.
    Unspecified,
    /// The import carried a JSON type attribute.
    Json,
    /// The import declared some other module type.
    Other(String),
}

/// Ghost image of a declared expectation.
#[verifier::ext_equal]
pub enum RequestedKindView {
    Unspecified,
    Json,
    Other(Seq<char>),
}

impl View for RequestedModuleKind {
    type V = RequestedKindView;

    open spec fn view(&self) -> RequestedKindView {
        match self {
            RequestedModuleKind::Unspecified => RequestedKindView::Unspecified,
            RequestedModuleKind::Json => RequestedKindView::Json,
            RequestedModuleKind::Other(t) => RequestedKindView::Other(t@),
        }
    }
}

/// The kind of the finished module handed to the engine.
#[derive(Debug)]
pub enum ModuleKind {
    JavaScript,
    Json,
    Other(String),
}

/// Ghost image of a finished module's kind.
#[verifier::ext_equal]
pub enum ModuleKindView {
    JavaScript,
    Json,
    Other(Seq<char>),
}

impl View for ModuleKind {
    type V = ModuleKindView;

    open spec fn view(&self) -> ModuleKindView {
        match self {
            ModuleKind::JavaScript => ModuleKindView::JavaScript,
            ModuleKind::Json => ModuleKindView::Json,
            ModuleKind::Other(t) => ModuleKindView::Other(t@),
        }
    }
}

/// The kind a local file is classified as before it is read; `Typescript`
/// marks a file that is transpiled and then delivered as JavaScript.
pub enum LocalModuleKind {
    Json,
    Typescript,
    JavaScript,
    Other(String),
}

/// Ghost image of a local file's classification.
#[verifier::ext_equal]
pub enum LocalKindView {
    Json,
    Typescript,
    JavaScript,
    Other(Seq<char>),
}

impl View for LocalModuleKind {
    type V = LocalKindView;

    open spec fn view(&self) -> LocalKindView {
        match self {
            LocalModuleKind::Json => LocalKindView::Json,
            LocalModuleKind::Typescript => LocalKindView::Typescript,
            LocalModuleKind::JavaScript => LocalKindView::JavaScript,
            LocalModuleKind::Other(t) => LocalKindView::Other(t@),
        }
    }
}

/// Why a load failed. Every failure reaches the engine as the load's
/// terminal outcome; nothing is retried inside the coordinator.
#[derive(Clone, Copy, PartialEq, Eq, Structural, Debug)]
pub enum LoadError {
    /// The specifier is malformed: neither remote nor a `file://` URL.
    Resolution,
    /// No local file or directory index matched the specifier.
    NotFound,
    /// A filesystem read failed.
    Io,
    /// A network request failed or timed out.
    Network,
    /// The remote server answered with a non-success HTTP status.
    RemoteStatus(u16),
    /// The source claimed to be TypeScript but did not parse.
    Transpile,
    /// JSON content and the request's declared expectation conflict.
    TypeMismatch,
}

/// The finished module handed to the engine.
#[derive(Debug)]
pub struct ModuleRecord {
    pub kind: ModuleKind,
    pub source: String,
}

/// Ghost image of a finished module.
#[verifier::ext_equal]
pub struct ModuleRecordView {
    pub kind: ModuleKindView,
    pub source: Seq<char>,
}

impl View for ModuleRecord {
    type V = ModuleRecordView;

    open spec fn view(&self) -> ModuleRecordView {
        ModuleRecordView { kind: self.kind@, source: self.source@ }
    }
}

/// What a remote fetch produced: the HTTP status, the declared content
/// type if any, and the body text.
pub struct FetchResponse {
    pub status: u16,
    pub content_type: Option<String>,
    pub body: String,
}

/// Ghost image of a fetch's result.
#[verifier::ext_equal]
pub struct ResponseView {
    pub status: u16,
    pub content_type: Option<Seq<char>>,
    pub body: Seq<char>,
}

impl View for FetchResponse {
    type V = ResponseView;

    open spec fn view(&self) -> ResponseView {
        ResponseView {
            status: self.status,
            content_type: match self.content_type {
                Some(ct) => Some(ct@),
                None => None,
            },
            body: self.body@,
        }
    }
}

/// A pending cache lookup: the host reads `cache_path` if it exists.
pub struct CacheLookup {
    pub specifier: String,
    pub cache_path: String,
}

/// Ghost image of a pending cache lookup.
#[verifier::ext_equal]
pub struct CacheLookupView {
    pub specifier: Seq<char>,
    pub cache_path: Seq<char>,
}

impl View for CacheLookup {
    type V = CacheLookupView;

    open spec fn view(&self) -> CacheLookupView {
        CacheLookupView { specifier: self.specifier@, cache_path: self.cache_path@ }
    }
}

/// A pending remote fetch: the host issues a GET for `url` with a bounded
/// timeout.
pub struct RemoteFetch {
    pub specifier: String,
    pub cache_path: String,
    pub url: String,
}

/// Ghost image of a pending remote fetch.
#[verifier::ext_equal]
pub struct RemoteFetchView {
    pub specifier: Seq<char>,
    pub cache_path: Seq<char>,
    pub url: Seq<char>,
}

impl View for RemoteFetch {
    type V = RemoteFetchView;

    open spec fn view(&self) -> RemoteFetchView {
        RemoteFetchView {
            specifier: self.specifier@,
            cache_path: self.cache_path@,
            url: self.url@,
        }
    }
}

/// A pending local read: the host reads the file at `path` as UTF-8 text.
pub struct FileLoad {
    pub specifier: String,
    pub kind: LocalModuleKind,
    pub path: String,
}

/// Ghost image of a pending local read.
#[verifier::ext_equal]
pub struct FileLoadView {
    pub specifier: Seq<char>,
    pub kind: LocalKindView,
    pub path: Seq<char>,
}

impl View for FileLoad {
    type V = FileLoadView;

    open spec fn view(&self) -> FileLoadView {
        FileLoadView { specifier: self.specifier@, kind: self.kind@, path: self.path@ }
    }
}

/// A cache write the host performs after a successful remote load. The
/// write is best-effort: its failure never fails the load.
pub struct CacheWrite {
    pub path: String,
    pub contents: String,
}

/// Ghost image of a cache write.
#[verifier::ext_equal]
pub struct CacheWriteView {
    pub path: Seq<char>,
    pub contents: Seq<char>,
}

impl View for CacheWrite {
    type V = CacheWriteView;

    open spec fn view(&self) -> CacheWriteView {
        CacheWriteView { path: self.path@, contents: self.contents@ }
    }
}

/// A load's terminal outcome: an optional best-effort cache write, and
/// the result delivered through the completion handle.
pub struct LoadOutcome {
    pub cache_write: Option<CacheWrite>,
    pub result: Result<ModuleRecord, LoadError>,
}

/// Ghost image of a terminal outcome.
#[verifier::ext_equal]
pub struct LoadOutcomeView {
    pub cache_write: Option<CacheWriteView>,
    pub result: Result<ModuleRecordView, LoadError>,
}

impl View for LoadOutcome {
    type V = LoadOutcomeView;

    open spec fn view(&self) -> LoadOutcomeView {
        LoadOutcomeView {
            cache_write: match self.cache_write {
                Some(w) => Some(w@),
                None => None,
            },
            result: match &self.result {
                Ok(rec) => Ok(rec@),
                Err(e) => Err(*e),
            },
        }
    }
}

/// What the coordinator asks of the host next: one more read or fetch,
/// or the finished outcome. States move by value and have no `Clone`, so
/// each can be consumed by at most one step.
pub enum Step {
    /// Check the on-disk cache.
    Cache(CacheLookup),
    /// Fetch a remote URL.
    Fetch(RemoteFetch),
    /// Read a local file.
    File(FileLoad),
    /// The load is complete.
    Finish(LoadOutcome),
}

/// Ghost image of a step.
#[verifier::ext_equal]
pub enum StepView {
    Cache(CacheLookupView),
    Fetch(RemoteFetchView),
    File(FileLoadView),
    Finish(LoadOutcomeView),
}

impl View for Step {
    type V = StepView;

    open spec fn view(&self) -> StepView {
        match self {
            Step::Cache(s) => StepView::Cache(s@),
            Step::Fetch(s) => StepView::Fetch(s@),
            Step::File(s) => StepView::File(s@),
            Step::Finish(o) => StepView::Finish(o@),
        }
    }
}

/// How a local file is classified from its path and the request's
/// declared expectation: a `json` extension is a JSON module, a
/// TypeScript-family extension is transpiled, anything else defers to the
/// declared expectation, and a path without an extension is JavaScript.
pub open spec fn local_module_kind(path: Seq<char>, requested: RequestedKindView) -> LocalKindView {
    match extension_spec(path) {
        Some(ext) => if eq_ignore_ascii_case_seq(ext, "json"@) {
            LocalKindView::Json
        } else if has_ts_extension(path) {
            LocalKindView::Typescript
        } else {
            match requested {
                RequestedKindView::Other(t) => LocalKindView::Other(t),
                _ => LocalKindView::JavaScript,
            }
        },
        None => LocalKindView::JavaScript,
    }
}

/// Whether an HTTP status is a success.
pub open spec fn is_success_status(status: u16) -> bool {
    200 <= status < 300
}

/// The final source a successful remote fetch yields: transpiled when the
/// declared content type names TypeScript (and then `None` means the
/// source did not parse), the body untouched otherwise. No extension of
/// the URL plays any part.
pub open spec fn remote_final_source(
    specifier: Seq<char>,
    content_type: Option<Seq<char>>,
    body: Seq<char>,
) -> Option<Seq<char>> {
    if content_type matches Some(ct) && is_typescript_media_type(ct) {
        transpile_result(specifier, body)
    } else {
        Some(body)
    }
}

/// The first step of a load: a remote specifier goes to the cache lookup
/// at its cache path; a local specifier must be a `file://` URL, is
/// classified by extension, and a JSON module demanded under a non-JSON
/// expectation fails before anything is read.
pub open spec fn begin_load_spec(
    cwd: Seq<char>,
    specifier: Seq<char>,
    requested: RequestedKindView,
) -> StepView {
    if is_remote_specifier(specifier) {
        StepView::Cache(
            CacheLookupView { specifier, cache_path: cache_path_spec(cwd, specifier) },
        )
    } else {
        match local_path_spec(specifier) {
            Some(path) => {
                let kind = local_module_kind(path, requested);
                if kind is Json && !(requested is Json) {
                    StepView::Finish(
                        LoadOutcomeView { cache_write: None, result: Err(LoadError::TypeMismatch) },
                    )
                } else {
                    StepView::File(FileLoadView { specifier, kind, path })
                }
            },
            None => StepView::Finish(
                LoadOutcomeView { cache_write: None, result: Err(LoadError::Resolution) },
            ),
        }
    }
}

/// The step after the cache lookup: a hit completes at once with the
/// cached source as a JavaScript module and writes nothing; a miss goes
/// on to fetch the specifier's URL, with the package-alias rewrite
/// applied.
pub open spec fn cache_step_spec(st: CacheLookupView, cached: Option<Seq<char>>) -> StepView {
    match cached {
        Some(code) => StepView::Finish(
            LoadOutcomeView {
                cache_write: None,
                result: Ok(ModuleRecordView { kind: ModuleKindView::JavaScript, source: code }),
            },
        ),
        None => StepView::Fetch(
            RemoteFetchView {
                specifier: st.specifier,
                cache_path: st.cache_path,
                url: remote_fetch_url(st.specifier),
            },
        ),
    }
}

/// The step after the fetch: no response is a network failure; a
/// non-success status fails with that status; otherwise the final source
/// is computed from the content type, a transpile failure fails the load,
/// and success completes with a JavaScript module and writes the final
/// source back to the cache path.
pub open spec fn fetch_step_spec(st: RemoteFetchView, response: Option<ResponseView>) -> StepView {
    match response {
        None => StepView::Finish(
            LoadOutcomeView { cache_write: None, result: Err(LoadError::Network) },
        ),
        Some(resp) => if !is_success_status(resp.status) {
            StepView::Finish(
                LoadOutcomeView {
                    cache_write: None,
                    result: Err(LoadError::RemoteStatus(resp.status)),
                },
            )
        } else {
            match remote_final_source(st.specifier, resp.content_type, resp.body) {
                Some(src) => StepView::Finish(
                    LoadOutcomeView {
                        cache_write: Some(CacheWriteView { path: st.cache_path, contents: src }),
                        result: Ok(
                            ModuleRecordView { kind: ModuleKindView::JavaScript, source: src },
                        ),
                    },
                ),
                None => StepView::Finish(
                    LoadOutcomeView { cache_write: None, result: Err(LoadError::Transpile) },
                ),
            }
        },
    }
}

/// The final source a local load yields: a TypeScript-classified file is
/// always transpiled (`None` means it did not parse); every other kind is
/// delivered untouched.
pub open spec fn local_final_source(
    specifier: Seq<char>,
    kind: LocalKindView,
    content: Seq<char>,
) -> Option<Seq<char>> {
    if kind is Typescript {
        transpile_result(specifier, content)
    } else {
        Some(content)
    }
}

/// The step after the local read: a failed read is an I/O failure; a
/// TypeScript file is transpiled and delivered as JavaScript, or fails if
/// it does not parse; other kinds are delivered as read, under their
/// classified kind. Local loads never touch the cache.
pub open spec fn file_step_spec(st: FileLoadView, content: Option<Seq<char>>) -> StepView {
    match content {
        None => StepView::Finish(
            LoadOutcomeView { cache_write: None, result: Err(LoadError::Io) },
        ),
        Some(code) => match local_final_source(st.specifier, st.kind, code) {
            None => StepView::Finish(
                LoadOutcomeView { cache_write: None, result: Err(LoadError::Transpile) },
            ),
            Some(src) => StepView::Finish(
                LoadOutcomeView {
                    cache_write: None,
                    result: Ok(
                        ModuleRecordView {
                            kind: match st.kind {
                                LocalKindView::Json => ModuleKindView::Json,
                                LocalKindView::Typescript => ModuleKindView::JavaScript,
                                LocalKindView::JavaScript => ModuleKindView::JavaScript,
                                LocalKindView::Other(t) => ModuleKindView::Other(t),
                            },
                            source: src,
                        },
                    ),
                },
            ),
        },
    }
}

/// Classify a local file from its path and the declared expectation.
pub fn compute_local_kind(path: &str, requested: &RequestedModuleKind) -> (r: LocalModuleKind)
    ensures
        r@ == local_module_kind(path@, requested@),
{
    match extension_of(path) {
        Some(ext) => {
            if str_eq_ignore_ascii_case(ext.as_str(), "json") {
                LocalModuleKind::Json
            } else if specifier_has_ts_extension(path) {
                LocalModuleKind::Typescript
            } else {
                match requested {
                    RequestedModuleKind::Other(t) => LocalModuleKind::Other(t.clone()),
                    _ => LocalModuleKind::JavaScript,
                }
            }
        },
        None => LocalModuleKind::JavaScript,
    }
}

impl TanxiumModuleLoader {
    /// Start a load request. A remote specifier always goes to the cache
    /// lookup first; a local one is classified, and a JSON module under a
    /// non-JSON expectation fails here with `TypeMismatch`.
    pub fn begin_load(&self, specifier: &str, requested: &RequestedModuleKind) -> (r: Step)
        ensures
            r@ == begin_load_spec(self.cwd_spec(), specifier@, requested@),
            !(r is Finish) ==> r@ matches StepView::Cache(_) || r@ matches StepView::File(_),
    {
        if specifier_is_remote(specifier) {
            let cache_path = self.get_module_cache_path(specifier);
            Step::Cache(CacheLookup { specifier: specifier.to_owned(), cache_path })
        } else {
            match local_path_of(specifier) {
                Some(path) => {
                    let kind = compute_local_kind(path.as_str(), requested);
                    let kind_is_json = match &kind {
                        LocalModuleKind::Json => true,
                        _ => false,
                    };
                    let requested_json = match requested {
                        RequestedModuleKind::Json => true,
                        _ => false,
                    };
                    if kind_is_json && !requested_json {
                        Step::Finish(
                            LoadOutcome { cache_write: None, result: Err(LoadError::TypeMismatch) },
                        )
                    } else {
                        Step::File(FileLoad { specifier: specifier.to_owned(), kind, path })
                    }
                },
                None => Step::Finish(
                    LoadOutcome { cache_write: None, result: Err(LoadError::Resolution) },
                ),
            }
        }
    }

    /// Continue a load after the host has checked the cache: `cached`
    /// holds the entry's text if the cache file existed.
    pub fn on_cache_checked(&self, st: CacheLookup, cached: Option<String>) -> (r: Step)
        ensures
            r@ == cache_step_spec(
                st@,
                match cached {
                    Some(c) => Some(c@),
                    None => None,
                },
            ),
            r is Fetch || r is Finish,
    {
        match cached {
            Some(code) => Step::Finish(
                LoadOutcome {
                    cache_write: None,
                    result: Ok(ModuleRecord { kind: ModuleKind::JavaScript, source: code }),
                },
            ),
            None => {
                let url = remote_url_for(st.specifier.as_str());
                Step::Fetch(
                    RemoteFetch { specifier: st.specifier, cache_path: st.cache_path, url },
                )
            },
        }
    }

    /// Finish a remote load after the host's fetch: `response` is absent
    /// on a network or timeout failure. Every path completes the request.
    pub fn on_fetched(&self, st: RemoteFetch, response: Option<FetchResponse>) -> (r: Step)
        ensures
            r@ == fetch_step_spec(
                st@,
                match response {
                    Some(resp) => Some(resp@),
                    None => None,
                },
            ),
            r is Finish,
    {
        match response {
            None => Step::Finish(
                LoadOutcome { cache_write: None, result: Err(LoadError::Network) },
            ),
            Some(resp) => {
                if !(200 <= resp.status && resp.status < 300) {
                    return Step::Finish(
                        LoadOutcome {
                            cache_write: None,
                            result: Err(LoadError::RemoteStatus(resp.status)),
                        },
                    );
                }
                let is_ts = match &resp.content_type {
                    Some(ct) => content_type_is_typescript(ct.as_str()),
                    None => false,
                };
                if is_ts {
                    match transpile_typescript(st.specifier.as_str(), resp.body.as_str()) {
                        Ok(src) => Step::Finish(
                            LoadOutcome {
                                cache_write: Some(
                                    CacheWrite { path: st.cache_path, contents: src.clone() },
                                ),
                                result: Ok(
                                    ModuleRecord { kind: ModuleKind::JavaScript, source: src },
                                ),
                            },
                        ),
                        Err(_) => Step::Finish(
                            LoadOutcome { cache_write: None, result: Err(LoadError::Transpile) },
                        ),
                    }
                } else {
                    Step::Finish(
                        LoadOutcome {
                            cache_write: Some(
                                CacheWrite { path: st.cache_path, contents: resp.body.clone() },
                            ),
                            result: Ok(
                                ModuleRecord { kind: ModuleKind::JavaScript, source: resp.body },
                            ),
                        },
                    )
                }
            },
        }
    }

    /// Finish a local load after the host's read: `content` is absent
    /// when the file could not be read. Every path completes the request.
    pub fn on_file_read(&self, st: FileLoad, content: Option<String>) -> (r: Step)
        ensures
            r@ == file_step_spec(
                st@,
                match content {
                    Some(c) => Some(c@),
                    None => None,
                },
            ),
            r is Finish,
    {
        match content {
            None => Step::Finish(LoadOutcome { cache_write: None, result: Err(LoadError::Io) }),
            Some(code) => {
                let is_ts = match &st.kind {
                    LocalModuleKind::Typescript => true,
                    _ => false,
                };
                if is_ts {
                    match transpile_typescript(st.specifier.as_str(), code.as_str()) {
                        Ok(src) => Step::Finish(
                            LoadOutcome {
                                cache_write: None,
                                result: Ok(
                                    ModuleRecord { kind: ModuleKind::JavaScript, source: src },
                                ),
                            },
                        ),
                        Err(_) => Step::Finish(
                            LoadOutcome { cache_write: None, result: Err(LoadError::Transpile) },
                        ),
                    }
                } else {
                    let kind = match st.kind {
                        LocalModuleKind::Json => ModuleKind::Json,
                        LocalModuleKind::Typescript => ModuleKind::JavaScript,
                        LocalModuleKind::JavaScript => ModuleKind::JavaScript,
                        LocalModuleKind::Other(t) => ModuleKind::Other(t),
                    };
                    Step::Finish(
                        LoadOutcome {
                            cache_write: None,
                            result: Ok(ModuleRecord { kind, source: code }),
                        },
                    )
                }
            },
        }
    }
}

} // verus!
