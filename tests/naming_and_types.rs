use pyo3_opendal::naming::{
    dependency_package_name, layer_to_pascal, service_to_pascal, target_module_path, target_type,
    to_pascal, to_snake,
};
use pyo3_opendal::pipeline::{
    choose_source_file, find_dependency_package, keep_stub_module, GenerateError, PackageInfo,
};
use pyo3_opendal::text::{escape_str, str_lt, trim_str};
use pyo3_opendal::types::{
    config_type_from_str, convert_rust_type, get_type_info, get_type_info_from_config_type,
    get_type_info_from_str, make_rust_type, ConfigType,
};
use pyo3_opendal::variant::Variant;

#[test]
fn pascal_case_of_component_names() {
    assert_eq!(to_pascal("retry"), "Retry");
    assert_eq!(to_pascal("max-times"), "MaxTimes");
    assert_eq!(to_pascal("foo_bar-baz"), "FooBarBaz");
    assert_eq!(to_pascal("s3"), "S3");
    assert_eq!(to_pascal("--a__b"), "AB");
    assert_eq!(to_pascal(""), "");
    assert_eq!(to_pascal("aLREADY"), "ALREADY");
    assert_eq!(layer_to_pascal("concurrent-limit"), "ConcurrentLimit");
    assert_eq!(service_to_pascal("azure_blob"), "AzureBlob");
}

#[test]
fn derived_names() {
    assert_eq!(to_snake("concurrent-limit"), "concurrent_limit");
    assert_eq!(target_type("retry", Variant::Layer), "RetryLayer");
    assert_eq!(target_type("s3", Variant::Service), "S3Config");
    assert_eq!(dependency_package_name("retry", Variant::Layer), "opendal-layer-retry");
    assert_eq!(dependency_package_name("fs", Variant::Service), "opendal-service-fs");
    assert_eq!(target_module_path("concurrent-limit", Variant::Layer), "opendal_layer_concurrent_limit");
    assert_eq!(target_module_path("fs", Variant::Service), "opendal_service_fs");
}

#[test]
fn layer_type_table() {
    let b = get_type_info_from_str("bool");
    assert_eq!((b.rust_type.as_str(), b.py_type_doc.as_str(), b.default_val.as_str(), b.is_bool), ("bool", "bool", "false", true));
    let s = get_type_info_from_str("String");
    assert_eq!((s.rust_type.as_str(), s.py_type_doc.as_str(), s.default_val.as_str()), ("String", "str", "None"));
    for t in ["usize", "u64", "i64", "u32", "u16", "isize", "i32", "i16", "i8", "u8"] {
        let i = get_type_info_from_str(t);
        assert_eq!(i.rust_type, t);
        assert_eq!(i.py_type_doc, "int");
        assert!(!i.is_bool);
    }
    let f = get_type_info_from_str("f64");
    assert_eq!((f.rust_type.as_str(), f.py_type_doc.as_str()), ("f64", "float"));
    let d = get_type_info_from_str("Duration");
    assert_eq!((d.rust_type.as_str(), d.py_type_doc.as_str()), ("std::time::Duration", "datetime.timedelta"));
    let v = get_type_info_from_str("Vec<String>");
    assert_eq!(v.py_type_doc, "List[str]");
    let u = get_type_info_from_str("HashMap");
    assert_eq!((u.rust_type.as_str(), u.py_type_doc.as_str(), u.default_val.as_str(), u.is_bool), ("", "", "", false));
    assert_eq!(get_type_info_from_str("u128").py_type_doc, "");
}

#[test]
fn service_type_table() {
    let d = get_type_info_from_config_type(ConfigType::Duration);
    assert_eq!((d.rust_type.as_str(), d.py_type_doc.as_str()), ("String", "str"));
    let v = get_type_info_from_config_type(ConfigType::Vec);
    assert_eq!((v.rust_type.as_str(), v.py_type_doc.as_str()), ("Vec<String>", "List[str]"));
    assert!(get_type_info_from_config_type(ConfigType::Bool).is_bool);
    assert_eq!(config_type_from_str("u16"), Some(ConfigType::U16));
    assert_eq!(config_type_from_str("f32"), None);
    assert_eq!(get_type_info(Variant::Service, "f32").py_type_doc, "");
    assert_eq!(get_type_info(Variant::Layer, "f32").py_type_doc, "float");
    assert_eq!(get_type_info(Variant::Service, "Duration").py_type_doc, "str");
}

#[test]
fn service_field_types() {
    assert_eq!(make_rust_type(ConfigType::Usize, false), "usize");
    assert_eq!(make_rust_type(ConfigType::Usize, true), "Option<usize>");
    assert_eq!(make_rust_type(ConfigType::Bool, false), "Option<bool>");
    assert_eq!(make_rust_type(ConfigType::Duration, true), "Option<String>");
    assert_eq!(make_rust_type(ConfigType::Vec, false), "Vec<String>");
    assert_eq!(convert_rust_type("bucket"), "opts.bucket");
}

fn pkg(name: &str, external: bool, manifest: &str) -> PackageInfo {
    PackageInfo {
        name: name.to_string(),
        is_external: external,
        manifest_path: manifest.to_string(),
    }
}

#[test]
fn dependency_resolution_skips_workspace_members() {
    let packages = vec![
        pkg("opendal-layer-retry", false, "/ws/layers/retry/Cargo.toml"),
        pkg("tokio", true, "/reg/tokio/Cargo.toml"),
        pkg("opendal-layer-retry", true, "/reg/opendal-layer-retry-0.1.0/Cargo.toml"),
        pkg("opendal-layer-retry", true, "/reg/other/Cargo.toml"),
    ];
    assert_eq!(find_dependency_package(&packages, "opendal-layer-retry").unwrap(), 2);
    match find_dependency_package(&packages[..1].to_vec(), "opendal-layer-retry") {
        Err(GenerateError::PackageNotFound(n)) => assert_eq!(n, "opendal-layer-retry"),
        other => panic!("unexpected: {:?}", other),
    }
    let err = find_dependency_package(&vec![], "opendal-layer-x").unwrap_err();
    assert_eq!(err.message(), "Could not find dependency package opendal-layer-x");
}

#[test]
fn source_file_choice() {
    assert_eq!(choose_source_file("concurrent-limit", true, true).unwrap(), "src/concurrent_limit.rs");
    assert_eq!(choose_source_file("retry", false, true).unwrap(), "src/lib.rs");
    let err = choose_source_file("retry", false, false).unwrap_err();
    assert!(matches!(err, GenerateError::SourceNotFound(ref p) if p == "src/lib.rs"));
    assert_eq!(err.message(), "Source file not found at src/lib.rs");
}

#[test]
fn error_messages() {
    assert_eq!(
        GenerateError::Manifest("bad".to_string()).message(),
        "Could not resolve the workspace manifest: bad"
    );
    assert_eq!(
        GenerateError::Source("oops".to_string()).message(),
        "Could not read the source file: oops"
    );
}

#[test]
fn stub_modules_filtered_by_package() {
    assert!(keep_stub_module("opendal_layer_retry", "opendal-layer-retry"));
    assert!(keep_stub_module("opendal_layer_retry.sub", "opendal-layer-retry"));
    assert!(!keep_stub_module("opendal", "opendal-layer-retry"));
    assert!(!keep_stub_module("other_layer_retry", "opendal-layer-retry"));
}

#[test]
fn text_helpers() {
    assert_eq!(trim_str("  a b \n"), "a b");
    assert_eq!(trim_str("\u{2003}x\u{85}"), "x");
    assert_eq!(trim_str(" \t "), "");
    assert_eq!(escape_str("a\"b\\c\nd"), "a\\\"b\\\\c\\nd");
    assert!(str_lt("jitter", "max_times"));
    assert!(str_lt("ab", "abc"));
    assert!(!str_lt("abc", "abc"));
    assert!(!str_lt("b", "a"));
}
