//! Module-signature detection.

use emscripten_marshal::module::{is_emscripten_module, Module, ModuleInfo};

fn module_with_imports(imports: Vec<(&str, &str)>) -> Module {
    Module {
        info: ModuleInfo {
            imported_funcs: imports
                .into_iter()
                .map(|(m, f)| (m.to_string(), f.to_string()))
                .collect(),
        },
    }
}

#[test]
fn should_detect_emscripten_files() {
    let module = module_with_imports(vec![("env", "_emscripten_memcpy_big")]);
    assert!(is_emscripten_module(&module));
}

#[test]
fn should_detect_non_emscripten_files() {
    let module = module_with_imports(vec![("wasi_unstable", "fd_write")]);
    assert!(!is_emscripten_module(&module));
}

#[test]
fn empty_import_list_is_not_emscripten() {
    let module = module_with_imports(vec![]);
    assert!(!is_emscripten_module(&module));
}

#[test]
fn fingerprint_found_among_other_imports() {
    let module = module_with_imports(vec![
        ("wasi_unstable", "fd_write"),
        ("env", "abort"),
        ("env", "_emscripten_memcpy_big"),
    ]);
    assert!(is_emscripten_module(&module));
}

#[test]
fn both_names_must_match() {
    let wrong_module = module_with_imports(vec![("other", "_emscripten_memcpy_big")]);
    assert!(!is_emscripten_module(&wrong_module));
    let wrong_field = module_with_imports(vec![("env", "_emscripten_memcpy_small")]);
    assert!(!is_emscripten_module(&wrong_field));
}
