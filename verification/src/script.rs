//! Loading a material script: the script is compiled by the `rhai` engine
//! under the library's limits, and its optional metadata functions
//! (`is_dynamic`, `refresh_interval_ms`) are asked for their answers.

use vstd::prelude::*;
use rhai::AST;
use crate::material::{material_metadata, MaterialMetadata, spec_display_name, last_segment};
use crate::material_error::MaterialError;

verus! {

#[verifier::external_type_specification]
#[verifier::external_body]
pub struct ExScriptAst(AST);

/// The limits a script runs under.
#[derive(Debug, Clone, Copy)]
pub struct ScriptLimits {
    /// Operations a single call may perform.
    pub max_operations: u64,
    /// Nested function calls.
    pub max_call_levels: usize,
    /// Expression nesting at the top level.
    pub max_expr_depth: usize,
    /// Expression nesting inside functions.
    pub max_function_expr_depth: usize,
}

/// The limits every material script runs under: a million operations per
/// call, 64 call levels and expressions nested at most 128 deep.
pub fn script_limits() -> (l: ScriptLimits)
    ensures
        l.max_operations == 1_000_000,
        l.max_call_levels == 64,
        l.max_expr_depth == 128,
        l.max_function_expr_depth == 128,
{
    ScriptLimits { max_operations: 1_000_000, max_call_levels: 64, max_expr_depth: 128, max_function_expr_depth: 128 }
}

/// What compiling `source` with `rhai` under the given expression depth
/// limits gives: none when it compiles, else the parse error's message.
pub uninterp spec fn script_parse_error(source: Seq<char>, max_expr_depth: usize, max_function_expr_depth: usize) -> Option<
    Seq<char>,
>;

/// Calls `rhai::Engine::compile` on `source`, with an engine whose
/// expression depth limits are the given ones, and gives the parse error
/// back as its message. The outcome is named, not spelled out: it depends
/// on the text and the limits alone.
#[verifier::external_body]
fn compile_script(source: &str, max_expr_depth: usize, max_function_expr_depth: usize) -> (r: Result<AST, String>)
    ensures
        match script_parse_error(source@, max_expr_depth, max_function_expr_depth) {
            None => r is Ok,
            Some(m) => r matches Err(e) && e@ == m,
        },
{
    let mut engine = rhai::Engine::new();
    engine.set_max_expr_depths(max_expr_depth, max_function_expr_depth);
    engine.compile(source).map_err(|e| e.to_string())
}

/// Calls the script function `function` (no arguments) with
/// `rhai::Engine::call_fn`, on an engine with the given limits, and keeps
/// its answer when it is a `bool`; none when the function is missing,
/// fails or answers with another type. What the script answers is not
/// claimed.
#[verifier::external_body]
fn call_script_bool(ast: &AST, function: &str, limits: &ScriptLimits) -> Option<bool> {
    let mut engine = rhai::Engine::new();
    engine.set_max_operations(limits.max_operations);
    engine.set_max_call_levels(limits.max_call_levels);
    engine.set_max_expr_depths(limits.max_expr_depth, limits.max_function_expr_depth);
    engine.call_fn::<bool>(&mut rhai::Scope::new(), ast, function, ()).ok()
}

/// As `call_script_bool`, for an answer that is an integer (`i64`).
#[verifier::external_body]
fn call_script_i64(ast: &AST, function: &str, limits: &ScriptLimits) -> Option<i64> {
    let mut engine = rhai::Engine::new();
    engine.set_max_operations(limits.max_operations);
    engine.set_max_call_levels(limits.max_call_levels);
    engine.set_max_expr_depths(limits.max_expr_depth, limits.max_function_expr_depth);
    engine.call_fn::<i64>(&mut rhai::Scope::new(), ast, function, ()).ok()
}

/// Loads a material script: `Parse` (with the material's id and the parse
/// message) exactly when the text does not compile under the script
/// limits; otherwise the compiled script and its metadata: the id, the name
/// declared in the source or else the id's last segment, and what the
/// script's optional `is_dynamic()` and `refresh_interval_ms()` answer
/// (not dynamic, and no refresh interval, when they are missing or do not
/// answer a `bool` or a `u32`-sized integer).
pub fn load_material(id: String, source: &str) -> (r: Result<(AST, MaterialMetadata), MaterialError>)
    ensures
        match script_parse_error(source@, 128, 128) {
            Some(m) => r matches Err(MaterialError::Parse { id: i, message }) && i@ == id@ && message@ == m,
            None => r matches Ok((_, meta)) && {
                &&& meta.id@ == id@
                &&& meta.display_name@ == match spec_display_name(source@) {
                    Some(n) => n,
                    None => last_segment(id@),
                }
            },
        },
{
    let limits = script_limits();
    let ast = match compile_script(source, limits.max_expr_depth, limits.max_function_expr_depth) {
        Ok(a) => a,
        Err(message) => {
            return Err(MaterialError::Parse { id, message });
        },
    };
    let is_dynamic = call_script_bool(&ast, "is_dynamic", &limits);
    let refresh = call_script_i64(&ast, "refresh_interval_ms", &limits);
    let metadata = material_metadata(id, source, is_dynamic, refresh);
    Ok((ast, metadata))
}

} // verus!
