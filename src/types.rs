//! The type mapping table: a source type name to its host-side form.
use vstd::prelude::*;
use crate::text::str_eq;
use crate::variant::Variant;

verus! {

/// How one source type is presented on the host side.
pub struct TypeInfo {
    /// The Rust type the generated constructor takes.
    pub rust_type: String,
    /// The host-side label used in documentation; empty when unsupported.
    pub py_type_doc: String,
    /// The default value of the constructor parameter.
    pub default_val: String,
    /// Whether the parameter is a boolean flag.
    pub is_bool: bool,
}

/// Mathematical form of a `TypeInfo`.
pub struct TypeInfoSpec {
    pub rust_type: Seq<char>,
    pub label: Seq<char>,
    pub default_val: Seq<char>,
    pub is_bool: bool,
}

impl View for TypeInfo {
    type V = TypeInfoSpec;

    open spec fn view(&self) -> TypeInfoSpec {
        TypeInfoSpec {
            rust_type: self.rust_type@,
            label: self.py_type_doc@,
            default_val: self.default_val@,
            is_bool: self.is_bool,
        }
    }
}

/// Configuration value types a service knows.
#[derive(Clone, Copy, Debug, PartialEq, Eq, Structural)]
pub enum ConfigType {
    Bool,
    String,
    Duration,
    Usize,
    U64,
    I64,
    U32,
    U16,
    Vec,
}

pub open spec fn info(rust_type: Seq<char>, label: Seq<char>, default_val: Seq<char>, is_bool: bool) -> TypeInfoSpec {
    TypeInfoSpec { rust_type, label, default_val, is_bool }
}

/// The entry of an unsupported type: every text empty.
pub open spec fn unsupported_info() -> TypeInfoSpec {
    info(Seq::empty(), Seq::empty(), Seq::empty(), false)
}

/// Whether a mapped type is supported (its label is not empty).
pub open spec fn is_supported(t: TypeInfoSpec) -> bool {
    t.label.len() > 0
}

/// The integer type names the layer table accepts.
pub open spec fn is_integer_name(t: Seq<char>) -> bool {
    t == "usize"@ || t == "u64"@ || t == "i64"@ || t == "u32"@ || t == "u16"@ || t == "isize"@
        || t == "i32"@ || t == "i16"@ || t == "i8"@ || t == "u8"@
}

/// The layer table: source type name to host-side form.
pub open spec fn layer_type_info(t: Seq<char>) -> TypeInfoSpec {
    if t == "bool"@ {
        info("bool"@, "bool"@, "false"@, true)
    } else if t == "String"@ {
        info("String"@, "str"@, "None"@, false)
    } else if is_integer_name(t) {
        info(t, "int"@, "None"@, false)
    } else if t == "f32"@ || t == "f64"@ {
        info(t, "float"@, "None"@, false)
    } else if t == "Duration"@ {
        info("std::time::Duration"@, "datetime.timedelta"@, "None"@, false)
    } else if t == "Vec<String>"@ {
        info("Vec<String>"@, "List[str]"@, "None"@, false)
    } else {
        unsupported_info()
    }
}

/// The service table entry of a configuration type.
pub open spec fn config_type_info(c: ConfigType) -> TypeInfoSpec {
    match c {
        ConfigType::Bool => info("bool"@, "bool"@, "false"@, true),
        ConfigType::String => info("String"@, "str"@, "None"@, false),
        ConfigType::Duration => info("String"@, "str"@, "None"@, false),
        ConfigType::Usize => info("usize"@, "int"@, "None"@, false),
        ConfigType::U64 => info("u64"@, "int"@, "None"@, false),
        ConfigType::I64 => info("i64"@, "int"@, "None"@, false),
        ConfigType::U32 => info("u32"@, "int"@, "None"@, false),
        ConfigType::U16 => info("u16"@, "int"@, "None"@, false),
        ConfigType::Vec => info("Vec<String>"@, "List[str]"@, "None"@, false),
    }
}

/// The configuration type a source type name denotes, if any.
pub open spec fn config_type_of(t: Seq<char>) -> Option<ConfigType> {
    if t == "bool"@ {
        Some(ConfigType::Bool)
    } else if t == "String"@ {
        Some(ConfigType::String)
    } else if t == "Duration"@ {
        Some(ConfigType::Duration)
    } else if t == "usize"@ {
        Some(ConfigType::Usize)
    } else if t == "u64"@ {
        Some(ConfigType::U64)
    } else if t == "i64"@ {
        Some(ConfigType::I64)
    } else if t == "u32"@ {
        Some(ConfigType::U32)
    } else if t == "u16"@ {
        Some(ConfigType::U16)
    } else if t == "Vec<String>"@ {
        Some(ConfigType::Vec)
    } else {
        None
    }
}

/// The service table: source type name to host-side form.
pub open spec fn service_type_info(t: Seq<char>) -> TypeInfoSpec {
    match config_type_of(t) {
        Some(c) => config_type_info(c),
        None => unsupported_info(),
    }
}

/// The table of a variant.
pub open spec fn type_info(v: Variant, t: Seq<char>) -> TypeInfoSpec {
    match v {
        Variant::Layer => layer_type_info(t),
        Variant::Service => service_type_info(t),
    }
}

fn make_info(rust_type: &str, label: &str, default_val: &str, is_bool: bool) -> (r: TypeInfo)
    ensures
        r@ == info(rust_type@, label@, default_val@, is_bool),
{
    TypeInfo {
        rust_type: String::from_str(rust_type),
        py_type_doc: String::from_str(label),
        default_val: String::from_str(default_val),
        is_bool,
    }
}

fn unsupported() -> (r: TypeInfo)
    ensures
        r@ == unsupported_info(),
{
    let r = TypeInfo {
        rust_type: String::new(),
        py_type_doc: String::new(),
        default_val: String::new(),
        is_bool: false,
    };
    assert(r@ =~= unsupported_info());
    r
}

fn is_integer_type(t: &str) -> (r: bool)
    ensures
        r == is_integer_name(t@),
{
    str_eq(t, "usize") || str_eq(t, "u64") || str_eq(t, "i64") || str_eq(t, "u32") || str_eq(
        t,
        "u16",
    ) || str_eq(t, "isize") || str_eq(t, "i32") || str_eq(t, "i16") || str_eq(t, "i8")
        || str_eq(t, "u8")
}

/// The layer table: maps a source type name; the label is empty for a type
/// the table does not know.
pub fn get_type_info_from_str(type_str: &str) -> (r: TypeInfo)
    ensures
        r@ == layer_type_info(type_str@),
{
    if str_eq(type_str, "bool") {
        make_info("bool", "bool", "false", true)
    } else if str_eq(type_str, "String") {
        make_info("String", "str", "None", false)
    } else if is_integer_type(type_str) {
        make_info(type_str, "int", "None", false)
    } else if str_eq(type_str, "f32") || str_eq(type_str, "f64") {
        make_info(type_str, "float", "None", false)
    } else if str_eq(type_str, "Duration") {
        make_info("std::time::Duration", "datetime.timedelta", "None", false)
    } else if str_eq(type_str, "Vec<String>") {
        make_info("Vec<String>", "List[str]", "None", false)
    } else {
        unsupported()
    }
}

/// The service table entry of a configuration type.
pub fn get_type_info_from_config_type(config_type: ConfigType) -> (r: TypeInfo)
    ensures
        r@ == config_type_info(config_type),
{
    match config_type {
        ConfigType::Bool => make_info("bool", "bool", "false", true),
        ConfigType::String => make_info("String", "str", "None", false),
        ConfigType::Duration => make_info("String", "str", "None", false),
        ConfigType::Usize => make_info("usize", "int", "None", false),
        ConfigType::U64 => make_info("u64", "int", "None", false),
        ConfigType::I64 => make_info("i64", "int", "None", false),
        ConfigType::U32 => make_info("u32", "int", "None", false),
        ConfigType::U16 => make_info("u16", "int", "None", false),
        ConfigType::Vec => make_info("Vec<String>", "List[str]", "None", false),
    }
}

/// The configuration type a source type name denotes, if any.
pub fn config_type_from_str(t: &str) -> (r: Option<ConfigType>)
    ensures
        r == config_type_of(t@),
{
    if str_eq(t, "bool") {
        Some(ConfigType::Bool)
    } else if str_eq(t, "String") {
        Some(ConfigType::String)
    } else if str_eq(t, "Duration") {
        Some(ConfigType::Duration)
    } else if str_eq(t, "usize") {
        Some(ConfigType::Usize)
    } else if str_eq(t, "u64") {
        Some(ConfigType::U64)
    } else if str_eq(t, "i64") {
        Some(ConfigType::I64)
    } else if str_eq(t, "u32") {
        Some(ConfigType::U32)
    } else if str_eq(t, "u16") {
        Some(ConfigType::U16)
    } else if str_eq(t, "Vec<String>") {
        Some(ConfigType::Vec)
    } else {
        None
    }
}

/// The table of a variant applied to a source type name.
pub fn get_type_info(v: Variant, type_str: &str) -> (r: TypeInfo)
    ensures
        r@ == type_info(v, type_str@),
{
    match v {
        Variant::Layer => get_type_info_from_str(type_str),
        Variant::Service => match config_type_from_str(type_str) {
            Some(c) => get_type_info_from_config_type(c),
            None => unsupported(),
        },
    }
}

/// Base Rust type of a configuration type.
pub open spec fn config_base_type(c: ConfigType) -> Seq<char> {
    match c {
        ConfigType::Bool => "bool"@,
        ConfigType::String => "String"@,
        ConfigType::Duration => "String"@,
        ConfigType::Usize => "usize"@,
        ConfigType::U64 => "u64"@,
        ConfigType::I64 => "i64"@,
        ConfigType::U32 => "u32"@,
        ConfigType::U16 => "u16"@,
        ConfigType::Vec => "Vec<String>"@,
    }
}

/// The Rust type of a service option field: optional fields, and every
/// boolean field, are wrapped in `Option`.
pub fn make_rust_type(ty: ConfigType, is_option: bool) -> (r: String)
    ensures
        r@ == if is_option || ty == ConfigType::Bool {
            "Option<"@ + config_base_type(ty) + ">"@
        } else {
            config_base_type(ty)
        },
{
    let base = match ty {
        ConfigType::Bool => "bool",
        ConfigType::String => "String",
        ConfigType::Duration => "String",
        ConfigType::Usize => "usize",
        ConfigType::U64 => "u64",
        ConfigType::I64 => "i64",
        ConfigType::U32 => "u32",
        ConfigType::U16 => "u16",
        ConfigType::Vec => "Vec<String>",
    };
    let optional = is_option || ty == ConfigType::Bool;
    if optional {
        String::from_str("Option<").concat(base).concat(">")
    } else {
        String::from_str(base)
    }
}

/// The expression that reads option `name` from the parsed options.
pub fn convert_rust_type(name: &str) -> (r: String)
    ensures
        r@ == "opts."@ + name@,
{
    String::from_str("opts.").concat(name)
}

} // verus!
