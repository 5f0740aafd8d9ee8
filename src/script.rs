//! The scripting runtime as seen by the library: opaque script values,
//! functions, coroutines and errors. The library carries them and decides
//! what to do with the outcomes of script calls; the host makes the calls.

use vstd::prelude::*;

verus! {

#[verifier::external_type_specification]
#[verifier::external_body]
pub struct ExLuaValue(mlua::Value);

#[verifier::external_type_specification]
#[verifier::external_body]
pub struct ExLuaFunction(mlua::Function);

#[verifier::external_type_specification]
#[verifier::external_body]
pub struct ExLuaThread(mlua::Thread);

#[verifier::external_type_specification]
#[verifier::external_body]
pub struct ExLuaError(mlua::Error);

} // verus!
