//! Detection of Emscripten-produced modules by their import signature.

use vstd::prelude::*;
use vstd::string::StringExecFns;

verus! {

/// The part of a loaded module this crate reads: the ordered list of
/// (source-module-name, field-name) pairs for every imported function.
pub struct ModuleInfo {
    pub imported_funcs: Vec<(String, String)>,
}

/// An immutable, already-validated description of a guest program.
/// Owned by the module loader; this crate only reads it.
pub struct Module {
    pub info: ModuleInfo,
}

/// True iff the import pair `(m, f)` is the Emscripten fingerprint import.
pub open spec fn is_emscripten_import(m: Seq<char>, f: Seq<char>) -> bool {
    m == "env"@ && f == "_emscripten_memcpy_big"@
}

/// True iff the module's import list contains `("env", "_emscripten_memcpy_big")`.
pub open spec fn spec_is_emscripten_module(module: Module) -> bool {
    exists|i: int|
        0 <= i < module.info.imported_funcs@.len()
            && is_emscripten_import(
            #[trigger] module.info.imported_funcs@[i].0@,
            module.info.imported_funcs@[i].1@,
        )
}

/// We check if a provided module is an Emscripten generated one.
///
/// Emscripten-generated modules reliably import `_emscripten_memcpy_big`
/// from `"env"`; this is a cheap structural fingerprint used to decide
/// whether to install the Emscripten compatibility shim at all. Total and
/// deterministic: an empty import list yields `false`.
pub fn is_emscripten_module(module: &Module) -> (r: bool)
    ensures
        r == spec_is_emscripten_module(*module),
{
    let env_name: String = String::from_str("env");
    let field_name: String = String::from_str("_emscripten_memcpy_big");
    let n: usize = module.info.imported_funcs.len();
    let mut i: usize = 0;
    while i < n
        invariant
            n == module.info.imported_funcs@.len(),
            0 <= i <= n,
            env_name@ == "env"@,
            field_name@ == "_emscripten_memcpy_big"@,
            forall|j: int|
                0 <= j < i ==> !is_emscripten_import(
                    #[trigger] module.info.imported_funcs@[j].0@,
                    module.info.imported_funcs@[j].1@,
                ),
        decreases n - i,
    {
        let pair = &module.info.imported_funcs[i];
        if pair.1 == field_name && pair.0 == env_name {
            return true;
        }
        i = i + 1;
    }
    false
}

} // verus!
