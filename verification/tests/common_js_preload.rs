use bunode::common_js_preload::{build_require_wrapper, materialize_require_wrapper};

#[test]
fn should_materialize_common_js_require_wrapper() {
    let wrapper = materialize_require_wrapper("./preload.cjs");

    assert!(wrapper.source.contains("createRequire"));
    assert!(wrapper.source.contains("\"./preload.cjs\""));
    assert!(wrapper.file_name.starts_with("bunode-require-preload-"));
    assert!(wrapper.file_name.ends_with(".cjs"));
}

#[test]
fn common_js_preload_should_escape_specifiers() {
    let source = build_require_wrapper("a\"b\\c\n");

    assert!(source.ends_with("createRequire(pathToFileURL(__bunodeBase))(\"a\\\"b\\\\c\\n\");\n"));
}
