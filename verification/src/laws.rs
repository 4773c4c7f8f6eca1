//! The laws the loader obeys, stated over the same specification
//! functions that the step functions' contracts use and proved once for
//! all inputs.

use vstd::prelude::*;

use crate::cache::cache_path_spec;
use crate::classify::extension_spec;
use crate::classify::has_ts_extension;
use crate::classify::is_remote_specifier;
use crate::classify::is_typescript_media_type;
use crate::classify::local_path_spec;
use crate::classify::probe_winner;
use crate::classify::lemma_probe_winner;
use crate::classify::remote_fetch_url;
use crate::coordinator::begin_load_spec;
use crate::coordinator::cache_step_spec;
use crate::coordinator::fetch_step_spec;
use crate::coordinator::file_step_spec;
use crate::coordinator::is_success_status;
use crate::coordinator::local_module_kind;
use crate::coordinator::remote_final_source;
use crate::coordinator::CacheLookupView;
use crate::coordinator::CacheWriteView;
use crate::coordinator::FileLoadView;
use crate::coordinator::LoadError;
use crate::coordinator::LoadOutcomeView;
use crate::coordinator::LocalKindView;
use crate::coordinator::ModuleKindView;
use crate::coordinator::ModuleRecordView;
use crate::coordinator::RemoteFetchView;
use crate::coordinator::RequestedKindView;
use crate::coordinator::ResponseView;
use crate::coordinator::StepView;
use crate::strutil::eq_ignore_ascii_case_seq;
use crate::strutil::last_pos_of;
use crate::strutil::lemma_last_pos_of;
use crate::strutil::lower_char;
use crate::transpile::transpile_result;

verus! {

/// Law (cache-hit determinism): a successful first load of a remote
/// specifier misses the cache, fetches exactly once, delivers the final
/// source, and writes that source at the specifier's cache path; any
/// later load of the same specifier looks up the very same path, and the
/// hit there completes at once with the byte-identical source — no second
/// fetch, no second write — whatever the network would answer now.
pub proof fn lemma_cache_hit_determinism(
    cwd: Seq<char>,
    specifier: Seq<char>,
    requested: RequestedKindView,
    resp: ResponseView,
)
    requires
        is_remote_specifier(specifier),
        is_success_status(resp.status),
        remote_final_source(specifier, resp.content_type, resp.body) is Some,
    ensures
        ({
            let lookup = CacheLookupView {
                specifier,
                cache_path: cache_path_spec(cwd, specifier),
            };
            let fetch = RemoteFetchView {
                specifier,
                cache_path: cache_path_spec(cwd, specifier),
                url: remote_fetch_url(specifier),
            };
            let src = remote_final_source(specifier, resp.content_type, resp.body)->Some_0;
            &&& begin_load_spec(cwd, specifier, requested) == StepView::Cache(lookup)
            &&& cache_step_spec(lookup, None) == StepView::Fetch(fetch)
            &&& fetch_step_spec(fetch, Some(resp)) == StepView::Finish(
                LoadOutcomeView {
                    cache_write: Some(
                        CacheWriteView { path: cache_path_spec(cwd, specifier), contents: src },
                    ),
                    result: Ok(ModuleRecordView { kind: ModuleKindView::JavaScript, source: src }),
                },
            )
            &&& cache_step_spec(lookup, Some(src)) == StepView::Finish(
                LoadOutcomeView {
                    cache_write: None,
                    result: Ok(ModuleRecordView { kind: ModuleKindView::JavaScript, source: src }),
                },
            )
        }),
{
}

/// A path with a TypeScript-family extension never has a `json`
/// extension: its last character is `s` or `x`, while anything matching
/// `json` up to ASCII case ends in `n`.
pub proof fn lemma_ts_extension_not_json(path: Seq<char>)
    requires
        has_ts_extension(path),
        extension_spec(path) is Some,
    ensures
        !eq_ignore_ascii_case_seq(extension_spec(path)->Some_0, "json"@),
{
    let start: int = match last_pos_of(path, '/') {
        Some(i) => i + 1,
        None => 0,
    };
    lemma_last_pos_of(path, '/');
    let name = path.skip(start);
    lemma_last_pos_of(name, '.');
    let d = last_pos_of(name, '.')->Some_0;
    let ext = name.skip(d + 1);
    assert(extension_spec(path) == Some(ext));
    let last = path[path.len() - 1];
    assert(last == 's' || last == 'x') by {
        if ".ts"@.is_suffix_of(path) {
            reveal_strlit(".ts");
            assert(path.subrange(path.len() - 3, path.len() as int)[2] == last);
        } else if ".cts"@.is_suffix_of(path) {
            reveal_strlit(".cts");
            assert(path.subrange(path.len() - 4, path.len() as int)[3] == last);
        } else if ".mts"@.is_suffix_of(path) {
            reveal_strlit(".mts");
            assert(path.subrange(path.len() - 4, path.len() as int)[3] == last);
        } else if ".tsx"@.is_suffix_of(path) {
            reveal_strlit(".tsx");
            assert(path.subrange(path.len() - 4, path.len() as int)[3] == last);
        } else if ".jsx"@.is_suffix_of(path) {
            reveal_strlit(".jsx");
            assert(path.subrange(path.len() - 4, path.len() as int)[3] == last);
        } else if ".ctsx"@.is_suffix_of(path) {
            reveal_strlit(".ctsx");
            assert(path.subrange(path.len() - 5, path.len() as int)[4] == last);
        } else {
            reveal_strlit(".mtsx");
            assert(path.subrange(path.len() - 5, path.len() as int)[4] == last);
        }
    }
    if eq_ignore_ascii_case_seq(ext, "json"@) {
        reveal_strlit("json");
        assert(ext.len() == 4);
        assert(name.len() == start + d + 5 - start);
        assert(ext[3] == name[d + 4]);
        assert(name[name.len() - 1] == path[path.len() - 1]);
        assert(ext[3] == last);
        assert(lower_char(ext[3]) == lower_char("json"@[3]));
        assert("json"@[3] == 'n');
        assert(lower_char('n') == 'n');
        assert(lower_char(last) == last);
        assert(false);
    }
}

/// Law (local TypeScript is always transpiled): a local `file://`
/// specifier whose file carries a TypeScript-family extension is
/// classified as TypeScript whatever the declared expectation, the load
/// reads the file, and it delivers exactly the transpiler's output as a
/// JavaScript module — or fails with a transpile error — never the raw
/// contents.
pub proof fn lemma_local_typescript_always_transpiled(
    cwd: Seq<char>,
    specifier: Seq<char>,
    requested: RequestedKindView,
    code: Seq<char>,
)
    requires
        !is_remote_specifier(specifier),
        local_path_spec(specifier) is Some,
        has_ts_extension(local_path_spec(specifier)->Some_0),
        extension_spec(local_path_spec(specifier)->Some_0) is Some,
    ensures
        ({
            let path = local_path_spec(specifier)->Some_0;
            let st = FileLoadView { specifier, kind: LocalKindView::Typescript, path };
            &&& local_module_kind(path, requested) == LocalKindView::Typescript
            &&& begin_load_spec(cwd, specifier, requested) == StepView::File(st)
            &&& (transpile_result(specifier, code) matches Some(js) ==> file_step_spec(
                st,
                Some(code),
            ) == StepView::Finish(
                LoadOutcomeView {
                    cache_write: None,
                    result: Ok(ModuleRecordView { kind: ModuleKindView::JavaScript, source: js }),
                },
            ))
            &&& (transpile_result(specifier, code) is None ==> file_step_spec(st, Some(code))
                == StepView::Finish(
                LoadOutcomeView { cache_write: None, result: Err(LoadError::Transpile) },
            ))
        }),
{
    let path = local_path_spec(specifier)->Some_0;
    lemma_ts_extension_not_json(path);
}

/// Law (JSON type enforcement): a load that resolves to a file with a
/// `json` extension fails with `TypeMismatch` before anything is read
/// unless the request declared a JSON expectation; under a JSON
/// expectation it reads the file and succeeds with module kind JSON and
/// the file's contents untouched.
pub proof fn lemma_json_type_enforcement(
    cwd: Seq<char>,
    specifier: Seq<char>,
    requested: RequestedKindView,
    code: Seq<char>,
)
    requires
        !is_remote_specifier(specifier),
        local_path_spec(specifier) is Some,
        extension_spec(local_path_spec(specifier)->Some_0) is Some,
        eq_ignore_ascii_case_seq(extension_spec(local_path_spec(specifier)->Some_0)->Some_0, "json"@),
    ensures
        ({
            let path = local_path_spec(specifier)->Some_0;
            let st = FileLoadView { specifier, kind: LocalKindView::Json, path };
            &&& local_module_kind(path, requested) == LocalKindView::Json
            &&& !(requested is Json) ==> begin_load_spec(cwd, specifier, requested)
                == StepView::Finish(
                LoadOutcomeView { cache_write: None, result: Err(LoadError::TypeMismatch) },
            )
            &&& requested is Json ==> begin_load_spec(cwd, specifier, requested) == StepView::File(
                st,
            ) && file_step_spec(st, Some(code)) == StepView::Finish(
                LoadOutcomeView {
                    cache_write: None,
                    result: Ok(ModuleRecordView { kind: ModuleKindView::Json, source: code }),
                },
            )
        }),
{
}

/// Law (directory-index resolution): when exactly one index candidate
/// exists in a probed directory, the probe resolves to it; with the
/// candidates fixed, a directory holding only one index file always
/// resolves to that file.
pub proof fn lemma_directory_single_candidate(exists: Seq<bool>, i: int)
    requires
        0 <= i < exists.len(),
        exists[i],
        forall|j: int| 0 <= j < exists.len() && j != i ==> !exists[j],
    ensures
        probe_winner(exists) == Some(i),
{
    lemma_probe_winner(exists);
    match probe_winner(exists) {
        Some(w) => {
            if w < i {
                assert(!exists[w]);
            } else if i < w {
                assert(!exists[i]);
            }
        },
        None => {
            assert(!exists[i]);
        },
    }
}

/// Law (remote content-type sniffing): a remote response whose declared
/// content type names TypeScript is transpiled, whatever its URL looks
/// like; a response with any other content type, or none, is passed
/// through untouched.
pub proof fn lemma_remote_content_type_sniffing(
    specifier: Seq<char>,
    ct: Seq<char>,
    body: Seq<char>,
)
    ensures
        is_typescript_media_type(ct) ==> remote_final_source(specifier, Some(ct), body)
            == transpile_result(specifier, body),
        !is_typescript_media_type(ct) ==> remote_final_source(specifier, Some(ct), body) == Some(
            body,
        ),
        remote_final_source(specifier, None, body) == Some(body),
{
}

} // verus!
