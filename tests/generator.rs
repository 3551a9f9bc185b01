use pyo3_opendal::assemble::{assemble, join_strings};
use pyo3_opendal::extract::{classify_method, clean_doc_lines, extract_component};
use pyo3_opendal::pipeline::generate_binding;
use pyo3_opendal::syntax::{FnItem, ImplBlock, Param, Receiver, ReturnKind, SourceFile};
use pyo3_opendal::variant::Variant;

fn param(name: &str, ty: &str) -> Param {
    Param {
        name: Some(name.to_string()),
        type_text: Some(ty.to_string()),
    }
}

fn builder(name: &str, params: Vec<Param>, docs: &[&str]) -> FnItem {
    FnItem {
        name: name.to_string(),
        is_public: true,
        receiver: Receiver::Value,
        params,
        output: ReturnKind::Named("Self".to_string()),
        docs: docs.iter().map(|d| d.to_string()).collect(),
    }
}

fn factory(name: &str, params: Vec<Param>) -> FnItem {
    FnItem {
        name: name.to_string(),
        is_public: true,
        receiver: Receiver::Absent,
        params,
        output: ReturnKind::Named("Self".to_string()),
        docs: vec![],
    }
}

fn file_of(ty: &str, methods: Vec<FnItem>) -> SourceFile {
    SourceFile {
        impls: vec![ImplBlock {
            self_type: Some(ty.to_string()),
            methods,
        }],
    }
}

fn names(v: &[String]) -> Vec<&str> {
    v.iter().map(|s| s.as_str()).collect()
}

#[test]
fn factory_first_then_setters_by_argument_name() {
    let src = file_of(
        "DemoConfig",
        vec![
            builder("with_limit", vec![param("limit", "Instant")], &[]),
            builder("with_jitter", vec![], &[]),
            factory("new", vec![param("bucket", "String")]),
            builder("with_enabled", vec![param("enabled", "bool")], &[]),
        ],
    );
    let art = generate_binding(&src, "demo", Variant::Service);
    assert_eq!(names(&art.parameters), vec!["bucket", "enabled", "jitter"]);
    assert_eq!(
        art.diagnostics,
        vec!["Skipping method with_limit due to unsupported type Instant".to_string()]
    );
    assert!(art
        .text
        .contains("#[pyo3(signature = (bucket, enabled = false, jitter = false))]"));
    assert!(art
        .text
        .contains("fn new(bucket: String, enabled: bool, jitter: bool) -> PyResult<Self> {"));
    assert!(art
        .text
        .contains("let mut __value = DemoConfig::new(bucket);"));
    assert!(art.text.contains(
        "bucket : str\\n    See `new`.\\nenabled : bool\\n    See `with_enabled`.\\njitter : bool\\n    See `with_jitter`."
    ));
}

#[test]
fn generation_is_byte_identical_on_rerun() {
    let make = || {
        file_of(
            "RetryLayer",
            vec![
                builder("with_max_times", vec![param("max_times", "usize")], &[" Max."]),
                builder("with_jitter", vec![], &[]),
                builder("with_factor", vec![param("factor", "f32")], &[]),
            ],
        )
    };
    let a = generate_binding(&make(), "retry", Variant::Layer);
    let b = generate_binding(&make(), "retry", Variant::Layer);
    assert_eq!(a.text, b.text);
    assert_eq!(a.parameters, b.parameters);
}

#[test]
fn declaration_order_does_not_change_output() {
    let m1 = builder("with_max_times", vec![param("max_times", "usize")], &[]);
    let m2 = builder("with_jitter", vec![], &[]);
    let m3 = builder("with_factor", vec![param("factor", "f32")], &[]);
    let a = generate_binding(
        &file_of("RetryLayer", vec![m1.clone(), m2.clone(), m3.clone()]),
        "retry",
        Variant::Layer,
    );
    let b = generate_binding(
        &file_of("RetryLayer", vec![m3, m1, m2]),
        "retry",
        Variant::Layer,
    );
    assert_eq!(a.text, b.text);
    assert_eq!(names(&a.parameters), vec!["factor", "jitter", "max_times"]);
}

#[test]
fn with_jitter_toggle_gives_boolean_jitter() {
    let f = builder("with_jitter", vec![], &[]);
    let d = classify_method(&f, "RetryLayer", Variant::Layer, false).unwrap();
    assert_eq!(d.argument_name, "jitter");
    assert_eq!(d.argument_type, "bool");
    assert!(d.is_toggle);
    assert!(!d.is_factory);
    let art = generate_binding(&file_of("RetryLayer", vec![f]), "retry", Variant::Layer);
    assert!(art.text.contains("fn new(jitter: bool)"));
    assert!(art.text.contains("        if jitter {\n            __value = __value.with_jitter();\n        }\n"));
}

#[test]
fn foreign_return_type_is_left_out() {
    let mut f = builder("with_retries", vec![param("retries", "usize")], &[]);
    f.output = ReturnKind::Named("Other".to_string());
    assert!(classify_method(&f, "RetryLayer", Variant::Layer, false).is_none());
    let desc = extract_component(&file_of("RetryLayer", vec![f]), "retry", Variant::Layer);
    assert!(desc.methods.is_empty());
}

#[test]
fn two_parameter_method_is_left_out() {
    let f = builder(
        "with_range",
        vec![param("low", "usize"), param("high", "usize")],
        &[],
    );
    assert!(classify_method(&f, "RetryLayer", Variant::Layer, false).is_none());
    let g = builder("with_pair", vec![param("a", "bool"), param("b", "bool")], &[]);
    let desc = extract_component(&file_of("RetryLayer", vec![f, g]), "retry", Variant::Layer);
    assert!(desc.methods.is_empty());
}

#[test]
fn parameterless_factory_falls_back_to_default() {
    let src = file_of(
        "DemoConfig",
        vec![
            factory("new", vec![]),
            builder("with_root", vec![param("root", "String")], &[]),
        ],
    );
    let desc = extract_component(&src, "demo", Variant::Service);
    assert_eq!(desc.methods.len(), 1);
    let art = generate_binding(&src, "demo", Variant::Service);
    assert!(art.text.contains("let mut __value = DemoConfig::default();"));
    assert_eq!(names(&art.parameters), vec!["root"]);
}

#[test]
fn foo_layer_documents_jitter_before_max_times() {
    let src = file_of(
        "FooLayer",
        vec![
            builder("with_max_times", vec![param("max_times", "usize")], &[]),
            builder("with_jitter", vec![], &[]),
        ],
    );
    let art = generate_binding(&src, "foo", Variant::Layer);
    let expected = r#"//! Python binding for `FooLayer`.

use opendal_layer_foo::FooLayer;
use crate::opyo3;
use pyo3::prelude::*;
use pyo3_stub_gen::derive::*;

#[gen_stub_pyclass]
#[pyclass(name = "FooLayer", extends = opyo3::PyLayer)]
#[derive(Clone)]
pub struct PyFooLayer(FooLayer);

impl opyo3::PythonLayer for PyFooLayer {
    fn layer(&self, op: opyo3::ocore::Operator) -> opyo3::ocore::Operator {
        op.layer(self.0.clone())
    }
}

#[gen_stub_pymethods]
#[pymethods]
impl PyFooLayer {
    #[doc = "Create a new FooLayer.\n\nParameters\n----------\njitter : bool\n    See `with_jitter`.\nmax_times : int, optional\n    See `with_max_times`.\n\nReturns\n-------\nFooLayer"]
    #[gen_stub(override_return_type(type_repr = "opendal.layers.Layer", imports = ("opendal")))]
    #[new]
    #[pyo3(signature = (jitter = false, max_times = None))]
    #[allow(unused)]
    fn new(jitter: bool, max_times: Option<usize>) -> PyResult<PyClassInitializer<Self>> {
        let mut __value = FooLayer::default();
        if jitter {
            __value = __value.with_jitter();
        }
        if let Some(__v) = max_times {
            __value = __value.with_max_times(__v);
        }
        let class = PyClassInitializer::from(opyo3::PyLayer::new()?).add_subclass(Self(__value));
        Ok(class)
    }
}
"#;
    assert_eq!(art.text, expected);
    assert_eq!(art.path, "src/foo.rs");
    let j = art.text.find("jitter : bool").unwrap();
    let m = art.text.find("max_times : int, optional").unwrap();
    assert!(j < m);
}

#[test]
fn setter_reusing_factory_parameter_is_dropped() {
    let src = file_of(
        "DemoConfig",
        vec![
            factory("new", vec![param("bucket", "String")]),
            builder("with_bucket", vec![param("bucket", "String")], &[]),
        ],
    );
    let art = generate_binding(&src, "demo", Variant::Service);
    assert_eq!(names(&art.parameters), vec!["bucket"]);
    assert!(art.diagnostics.is_empty());
}

#[test]
fn factory_with_unsupported_type_is_ignored() {
    let src = file_of(
        "DemoConfig",
        vec![
            factory("new", vec![param("endpoint", "Url")]),
            builder("with_root", vec![param("root", "String")], &[]),
        ],
    );
    let art = generate_binding(&src, "demo", Variant::Service);
    assert_eq!(names(&art.parameters), vec!["root"]);
    assert!(art.text.contains("DemoConfig::default()"));
}

#[test]
fn only_first_factory_is_kept() {
    let src = file_of(
        "DemoConfig",
        vec![
            factory("new", vec![param("bucket", "String")]),
            factory("new", vec![param("region", "String")]),
        ],
    );
    let desc = extract_component(&src, "demo", Variant::Service);
    assert_eq!(desc.methods.len(), 1);
    assert_eq!(desc.methods[0].argument_name, "bucket");
    assert!(desc.methods[0].is_factory);
}

#[test]
fn layer_variant_has_no_factory() {
    let src = file_of("DemoLayer", vec![factory("new", vec![param("x", "usize")])]);
    let desc = extract_component(&src, "demo", Variant::Layer);
    assert!(desc.methods.is_empty());
}

#[test]
fn receiver_visibility_and_return_are_checked() {
    let mut by_ref = builder("with_a", vec![param("a", "usize")], &[]);
    by_ref.receiver = Receiver::Reference;
    let mut private = builder("with_b", vec![param("b", "usize")], &[]);
    private.is_public = false;
    let mut unit = builder("with_c", vec![param("c", "usize")], &[]);
    unit.output = ReturnKind::Unit;
    let mut other = builder("with_d", vec![param("d", "usize")], &[]);
    other.output = ReturnKind::Other;
    let mut named = builder("with_e", vec![param("e", "usize")], &[]);
    named.output = ReturnKind::Named("DemoLayer".to_string());
    let plain = builder("enable", vec![], &[]);
    let src = file_of("DemoLayer", vec![by_ref, private, unit, other, named, plain]);
    let desc = extract_component(&src, "demo", Variant::Layer);
    assert_eq!(desc.methods.len(), 1);
    assert_eq!(desc.methods[0].name, "with_e");
}

#[test]
fn other_types_impl_blocks_are_ignored() {
    let src = SourceFile {
        impls: vec![
            ImplBlock {
                self_type: Some("OtherLayer".to_string()),
                methods: vec![builder("with_x", vec![param("x", "usize")], &[])],
            },
            ImplBlock {
                self_type: None,
                methods: vec![builder("with_y", vec![param("y", "usize")], &[])],
            },
            ImplBlock {
                self_type: Some("DemoLayer".to_string()),
                methods: vec![builder("with_z", vec![param("z", "usize")], &[])],
            },
        ],
    };
    let desc = extract_component(&src, "demo", Variant::Layer);
    assert_eq!(desc.methods.len(), 1);
    assert_eq!(desc.methods[0].argument_name, "z");
}

#[test]
fn unnamed_pattern_and_non_path_type_get_placeholders() {
    let f = builder(
        "with_x",
        vec![Param {
            name: None,
            type_text: None,
        }],
        &[],
    );
    let d = classify_method(&f, "DemoLayer", Variant::Layer, false).unwrap();
    assert_eq!(d.argument_name, "arg");
    assert_eq!(d.argument_type, "unknown");
}

#[test]
fn docs_are_trimmed_and_blank_lines_dropped() {
    let docs = vec![
        " First line. ".to_string(),
        "   ".to_string(),
        "\tSecond\u{3000}".to_string(),
        String::new(),
    ];
    assert_eq!(clean_doc_lines(&docs), vec!["First line.", "Second"]);
    let src = file_of(
        "DemoLayer",
        vec![builder(
            "with_limit",
            vec![param("limit", "u32")],
            &[" Upper bound.", "", " Say \"max\"."],
        )],
    );
    let art = generate_binding(&src, "demo", Variant::Layer);
    assert!(art
        .text
        .contains("limit : int, optional\\n    Upper bound.\\n    Say \\\"max\\\"."));
}

#[test]
fn zero_surviving_methods_give_a_parameterless_wrapper() {
    let src = file_of("DemoLayer", vec![]);
    let art = generate_binding(&src, "demo", Variant::Layer);
    assert!(art.parameters.is_empty());
    assert!(art
        .text
        .contains("#[doc = \"Create a new DemoLayer.\\n\\nReturns\\n-------\\nDemoLayer\"]"));
    assert!(art.text.contains("#[pyo3(signature = ())]"));
    assert!(art.text.contains("fn new() -> PyResult<PyClassInitializer<Self>> {"));
}

#[test]
fn duration_maps_per_variant() {
    let f = builder("with_timeout", vec![param("timeout", "Duration")], &[]);
    let layer = generate_binding(&file_of("DemoLayer", vec![f.clone()]), "demo", Variant::Layer);
    assert!(layer
        .text
        .contains("timeout: Option<std::time::Duration>"));
    assert!(layer.text.contains("timeout : datetime.timedelta, optional"));
    let service = generate_binding(&file_of("DemoConfig", vec![f]), "demo", Variant::Service);
    assert!(service.text.contains("timeout: Option<String>"));
    assert!(service.text.contains("timeout : str, optional"));
}

#[test]
fn service_declaration_shape() {
    let src = file_of(
        "S3Config",
        vec![builder("with_region", vec![param("region", "String")], &["Region."])],
    );
    let art = generate_binding(&src, "s3", Variant::Service);
    assert!(art.text.starts_with("//! Python binding for `S3Config`.\n\nuse opendal_service_s3::S3Config;\nuse pyo3::prelude::*;"));
    assert!(art.text.contains("pub struct PyS3Config(pub S3Config);"));
    assert!(art.text.contains("        Ok(Self(__value))\n"));
    assert!(art.text.contains("if let Some(__v) = region {\n            __value = __value.with_region(__v);"));
}

#[test]
fn assemble_sorts_and_skips() {
    let src = file_of(
        "DemoLayer",
        vec![
            builder("with_zeta", vec![param("zeta", "i8")], &[]),
            builder("with_alpha", vec![param("alpha", "Vec<String>")], &[]),
            builder("with_mid", vec![param("mid", "HashMap")], &[]),
            builder("with_beta", vec![param("beta", "bool")], &[]),
        ],
    );
    let desc = extract_component(&src, "demo", Variant::Layer);
    let art = assemble(&desc, "demo", Variant::Layer);
    assert_eq!(names(&art.parameters), vec!["alpha", "beta", "zeta"]);
    assert_eq!(
        art.diagnostics,
        vec!["Skipping method with_mid due to unsupported type HashMap".to_string()]
    );
    assert!(art.text.contains("alpha : List[str], optional"));
    assert!(art
        .text
        .contains("        if beta {\n            __value = __value.with_beta(beta);\n        }\n"));
}

#[test]
fn join_strings_uses_separator() {
    let parts = vec!["a".to_string(), "b".to_string(), "c".to_string()];
    assert_eq!(join_strings(&parts, ", "), "a, b, c");
    assert_eq!(join_strings(&vec![], ", "), "");
}
