//! The transpiler adapter for workspace scripts: every script is
//! transpiled under one fixed specifier, and no source map is emitted.

use deno_ast::EmitOptions;
use deno_ast::MediaType;
use deno_ast::ModuleSpecifier;
use deno_ast::ParseParams;
use deno_ast::SourceMapOption;
use deno_ast::TranspileModuleOptions;
use deno_ast::TranspileOptions;
use deno_ast::parse_module;
use vstd::prelude::*;

verus! {

/// The JavaScript emitted for a workspace script's TypeScript source,
/// without a source map, or nothing when the source does not parse. A
/// pure function of the source text alone.
pub uninterp spec fn workspace_transpile_result(code: Seq<char>) -> Option<Seq<char>>;

/// Relies on deno_ast::parse_module and deno_ast::ParsedSource::transpile:
/// both are deterministic in the source text once the specifier is fixed,
/// and with source maps off the emitted JavaScript depends on the source
/// text alone. A leading byte-order mark is stripped before the call, as
/// deno_ast demands of its callers.
#[verifier::external_body]
pub fn transpile_typescript(code: &str) -> (r: Result<String, String>)
    ensures
        r matches Ok(t) ==> workspace_transpile_result(code@) == Some(t@),
        r is Err ==> workspace_transpile_result(code@) is None,
{
    let code = code.strip_prefix('\u{FEFF}').unwrap_or(code);
    let parsed = parse_module(ParseParams {
        specifier: ModuleSpecifier::parse("file:///yasumu.workspace/script.ts").unwrap(),
        text: code.into(),
        media_type: MediaType::TypeScript,
        capture_tokens: false,
        scope_analysis: false,
        maybe_syntax: None,
    }).map_err(|e| e.to_string())?;
    let out = parsed.transpile(
        &TranspileOptions::default(),
        &TranspileModuleOptions::default(),
        &EmitOptions { source_map: SourceMapOption::None, ..Default::default() },
    ).map_err(|e| e.to_string())?;
    Ok(out.into_source().text)
}

} // verus!
