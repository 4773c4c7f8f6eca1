//! The transpiler adapter for module loading: TypeScript source in,
//! JavaScript source out, with an inline source map. Transpilation is
//! syntactic only; no type checking happens here.

use deno_ast::EmitOptions;
use deno_ast::MediaType;
use deno_ast::ModuleSpecifier;
use deno_ast::ParseParams;
use deno_ast::TranspileModuleOptions;
use deno_ast::TranspileOptions;
use deno_ast::parse_module;
use vstd::prelude::*;

use crate::classify::has_ts_extension;
use crate::classify::url_path_part;

verus! {

/// The JavaScript emitted for a module's TypeScript source, with an
/// inline source map naming the module's specifier, or nothing when the
/// source does not parse. A pure function of the specifier and the
/// source text alone.
pub uninterp spec fn transpile_result(specifier: Seq<char>, code: Seq<char>) -> Option<Seq<char>>;

/// Relies on deno_ast::parse_module and deno_ast::ParsedSource::transpile:
/// both are deterministic in the specifier and source text, and transpile
/// emits the parsed module as JavaScript with an inline source map. A
/// leading byte-order mark is stripped before the call, as deno_ast
/// demands of its callers.
#[verifier::external_body]
pub fn transpile_typescript(specifier: &str, code: &str) -> (r: Result<String, String>)
    ensures
        r matches Ok(t) ==> transpile_result(specifier@, code@) == Some(t@),
        r is Err ==> transpile_result(specifier@, code@) is None,
{
    let code = code.strip_prefix('\u{FEFF}').unwrap_or(code);
    let parsed = parse_module(ParseParams {
        specifier: ModuleSpecifier::parse(specifier).map_err(|e| e.to_string())?,
        text: code.into(),
        media_type: MediaType::TypeScript,
        capture_tokens: false,
        scope_analysis: false,
        maybe_syntax: None,
    }).map_err(|e| e.to_string())?;
    let out = parsed.transpile(
        &TranspileOptions::default(),
        &TranspileModuleOptions::default(),
        &EmitOptions::default(),
    ).map_err(|e| e.to_string())?;
    Ok(out.into_source().text)
}

/// Transpile the source when the specifier's path part — before any
/// query or fragment — carries a TypeScript-family extension; hand it
/// back unchanged otherwise.
pub fn transpile_if_needed(specifier: &str, code: &str) -> (r: Result<String, String>)
    ensures
        has_ts_extension(url_path_part(specifier@)) ==> match r {
            Ok(t) => transpile_result(specifier@, code@) == Some(t@),
            Err(_) => transpile_result(specifier@, code@) is None,
        },
        !has_ts_extension(url_path_part(specifier@)) ==> (r matches Ok(t) && t@ == code@),
{
    let part = crate::classify::path_part_of(specifier);
    if crate::classify::specifier_has_ts_extension(part.as_str()) {
        transpile_typescript(specifier, code)
    } else {
        Ok(code.to_owned())
    }
}

} // verus!
