//! The rule script: a Lua chunk that is handed a file's path and may name a
//! destination for it.

use vstd::prelude::*;

verus! {

/// `mlua::Lua`, a Lua interpreter with its state. Opaque here.
#[verifier::external_type_specification]
#[verifier::external_body]
pub struct ExLua(mlua::Lua);

/// `mlua::Function`, a handle to a function that lives in an interpreter.
/// Opaque here.
#[verifier::external_type_specification]
#[verifier::external_body]
pub struct ExLuaFunction<'lua>(mlua::Function<'lua>);

/// `mlua::Error`, why Lua could not compile or run something. Opaque here.
#[verifier::external_type_specification]
#[verifier::external_body]
pub struct ExLuaError(mlua::Error);

/// A fresh interpreter for one pass.
///
/// Trusted: calls `mlua::Lua::new`, which sets up a Lua state with the safe
/// part of Lua's standard libraries.
#[verifier::external_body]
pub(crate) fn new_interpreter() -> mlua::Lua {
    mlua::Lua::new()
}

/// Compiles a script into a function without running it.
///
/// Trusted: calls `mlua::Lua::load` and `mlua::Chunk::into_function`. A
/// text that Lua cannot compile gives an error. Nothing is promised of
/// either outcome.
#[verifier::external_body]
fn load_script<'lua>(lua: &'lua mlua::Lua, script: &str) -> Result<
    mlua::Function<'lua>,
    mlua::Error,
> {
    lua.load(script).into_function()
}

/// Runs a compiled script on a path and reads its first result as an
/// optional string.
///
/// Trusted: calls `mlua::Function::call` with `Option<String>` as the type
/// of the result. The script runs in protected mode, so that an error
/// raised in it comes back as an error; so does a first result that is
/// neither nil nor a string or a number that reads as UTF-8 text. The call
/// lasts as long as the script runs. Nothing is promised of the outcome:
/// the script decides, and it may consult the clock or the disk.
#[verifier::external_body]
fn call_script(function: &mlua::Function<'_>, file_path: &str) -> Result<
    Option<String>,
    mlua::Error,
> {
    function.call::<_, Option<String>>(file_path)
}

/// What a run of the script says: the destination that it returned, if it
/// returned one. A run that failed says nothing, and its failure goes no
/// further.
pub fn script_answer(outcome: Result<Option<String>, mlua::Error>) -> (destination: Option<
    String,
>)
    ensures
        destination == match outcome {
            Ok(answer) => answer,
            Err(_) => None::<String>,
        },
{
    match outcome {
        Ok(answer) => answer,
        Err(_) => None,
    }
}

/// What a loaded script says of the file at `file_path`: the answer of its
/// run on that path. A script that did not load is not run and says nothing
/// of any file.
pub fn script_destination(
    loaded: Result<mlua::Function<'_>, mlua::Error>,
    file_path: &str,
) -> (destination: Option<String>)
    ensures
        loaded is Err ==> destination is None,
{
    match loaded {
        Ok(function) => script_answer(call_script(&function, file_path)),
        Err(_) => None,
    }
}

/// Asks the script, if there is one, where the file at `file_path` goes.
/// The script is compiled anew for each file; what it left in the
/// interpreter's globals for an earlier file is still there.
pub fn evaluate_script(lua: &mlua::Lua, script: Option<&str>, file_path: &str) -> (destination:
    Option<String>)
    ensures
        script is None ==> destination is None,
{
    match script {
        Some(text) => script_destination(load_script(lua, text), file_path),
        None => None,
    }
}

} // verus!
