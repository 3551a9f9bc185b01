//! Name conventions: PascalCase type names, snake-case module names, and
//! the package and file names derived from a component name.
use vstd::prelude::*;
use crate::text::push_char;
use crate::variant::Variant;

verus! {

/// Separators between the words of a component name.
pub open spec fn is_separator(c: char) -> bool {
    c == '_' || c == '-'
}

/// ASCII upper-casing of one character; every other character is kept.
pub open spec fn ascii_upper(c: char) -> char {
    if 97 <= c as u32 && c as u32 <= 122 {
        ((c as u32) - 32) as char
    } else {
        c
    }
}

/// PascalCase of `s`: separators are dropped and the first character of each
/// word is upper-cased. `capitalize` says whether a word starts at `s[0]`.
pub open spec fn pascal_from(s: Seq<char>, capitalize: bool) -> Seq<char>
    decreases s.len(),
{
    if s.len() == 0 {
        Seq::empty()
    } else if is_separator(s[0]) {
        pascal_from(s.drop_first(), true)
    } else if capitalize {
        seq![ascii_upper(s[0])] + pascal_from(s.drop_first(), false)
    } else {
        seq![s[0]] + pascal_from(s.drop_first(), false)
    }
}

/// PascalCase of a whole component name (`max-times` becomes `MaxTimes`).
pub open spec fn pascal(s: Seq<char>) -> Seq<char> {
    pascal_from(s, true)
}

/// Module spelling of a component name: every `-` becomes `_`.
pub open spec fn snake(s: Seq<char>) -> Seq<char> {
    s.map_values(|c: char| if c == '-' { '_' } else { c })
}

fn upper_ascii_char(c: char) -> (r: char)
    ensures
        r == ascii_upper(c),
{
    let u = c as u32;
    if 97 <= u && u <= 122 {
        ((u - 32) as u8) as char
    } else {
        c
    }
}

proof fn lemma_pascal_step(s: Seq<char>, i: int, capitalize: bool)
    requires
        0 <= i < s.len(),
    ensures
        pascal_from(s.skip(i), capitalize) == if is_separator(s[i]) {
            pascal_from(s.skip(i + 1), true)
        } else if capitalize {
            seq![ascii_upper(s[i])] + pascal_from(s.skip(i + 1), false)
        } else {
            seq![s[i]] + pascal_from(s.skip(i + 1), false)
        },
{
    assert(s.skip(i)[0] == s[i]);
    assert(s.skip(i).drop_first() =~= s.skip(i + 1));
}

/// PascalCase of a component name: `_` and `-` separate words, the first
/// character of each word is upper-cased (ASCII) and the separators dropped.
pub fn to_pascal(name: &str) -> (r: String)
    ensures
        r@ == pascal(name@),
{
    let n = name.unicode_len();
    let mut result = String::new();
    let mut capitalize = true;
    let mut i: usize = 0;
    assert(name@.skip(0) =~= name@);
    while i < n
        invariant
            n == name@.len(),
            0 <= i <= n,
            result@ + pascal_from(name@.skip(i as int), capitalize) == pascal(name@),
        decreases n - i,
    {
        let c = name.get_char(i);
        proof {
            lemma_pascal_step(name@, i as int, capitalize);
        }
        if c == '_' || c == '-' {
            capitalize = true;
        } else if capitalize {
            let u = upper_ascii_char(c);
            push_char(&mut result, u);
            capitalize = false;
        } else {
            push_char(&mut result, c);
        }
        i = i + 1;
        assert(result@ + pascal_from(name@.skip(i as int), capitalize) == pascal(name@));
    }
    assert(name@.skip(n as int) =~= Seq::<char>::empty());
    assert(result@ + Seq::<char>::empty() =~= result@);
    result
}

} // verus!

verus! {

/// PascalCase of a layer name.
pub fn layer_to_pascal(layer: &str) -> (r: String)
    ensures
        r@ == pascal(layer@),
{
    to_pascal(layer)
}

/// PascalCase of a service name.
pub fn service_to_pascal(service: &str) -> (r: String)
    ensures
        r@ == pascal(service@),
{
    to_pascal(service)
}

/// Every `-` of `name` replaced by `_`.
pub fn to_snake(name: &str) -> (r: String)
    ensures
        r@ == snake(name@),
{
    let n = name.unicode_len();
    let mut out = String::new();
    let mut i: usize = 0;
    while i < n
        invariant
            n == name@.len(),
            0 <= i <= n,
            out@ == snake(name@).take(i as int),
        decreases n - i,
    {
        let c = name.get_char(i);
        if c == '-' {
            push_char(&mut out, '_');
        } else {
            push_char(&mut out, c);
        }
        assert(out@ =~= snake(name@).take(i + 1));
        i = i + 1;
    }
    assert(snake(name@).take(n as int) =~= snake(name@));
    out
}

/// Suffix of the target type's name.
pub open spec fn type_suffix(v: Variant) -> Seq<char> {
    match v {
        Variant::Layer => "Layer"@,
        Variant::Service => "Config"@,
    }
}

/// Prefix of the package that provides a component.
pub open spec fn package_prefix(v: Variant) -> Seq<char> {
    match v {
        Variant::Layer => "opendal-layer-"@,
        Variant::Service => "opendal-service-"@,
    }
}

/// Prefix of the crate path that provides a component.
pub open spec fn module_prefix(v: Variant) -> Seq<char> {
    match v {
        Variant::Layer => "opendal_layer_"@,
        Variant::Service => "opendal_service_"@,
    }
}

/// Name of the target type: `retry` becomes `RetryLayer` for a layer.
pub open spec fn target_type_name(component: Seq<char>, v: Variant) -> Seq<char> {
    pascal(component) + type_suffix(v)
}

/// Name of the package that provides the component.
pub open spec fn dependency_name(component: Seq<char>, v: Variant) -> Seq<char> {
    package_prefix(v) + component
}

/// Crate path of the module that defines the target type.
pub open spec fn target_module(component: Seq<char>, v: Variant) -> Seq<char> {
    module_prefix(v) + snake(component)
}

/// Name of the target type of a component.
pub fn target_type(component: &str, v: Variant) -> (r: String)
    ensures
        r@ == target_type_name(component@, v),
{
    let p = to_pascal(component);
    match v {
        Variant::Layer => p.concat("Layer"),
        Variant::Service => p.concat("Config"),
    }
}

/// Name of the package that provides a component (`opendal-layer-retry`).
pub fn dependency_package_name(component: &str, v: Variant) -> (r: String)
    ensures
        r@ == dependency_name(component@, v),
{
    let p = match v {
        Variant::Layer => String::from_str("opendal-layer-"),
        Variant::Service => String::from_str("opendal-service-"),
    };
    p.concat(component)
}

/// Crate path of the module that defines the target type (`opendal_layer_retry`).
pub fn target_module_path(component: &str, v: Variant) -> (r: String)
    ensures
        r@ == target_module(component@, v),
{
    let p = match v {
        Variant::Layer => String::from_str("opendal_layer_"),
        Variant::Service => String::from_str("opendal_service_"),
    };
    let s = to_snake(component);
    p.concat(s.as_str())
}

} // verus!
