//! The template assembler: from a builder surface to the text of a wrapper
//! declaration, its constructor parameters and its diagnostics.
use vstd::prelude::*;
use crate::extract::{ComponentDescriptor, MethodDescriptor, MethodSpec, descs_view};
use crate::naming::{snake, target_module, target_module_path, target_type, target_type_name, to_snake};
use crate::text::{escape_str, escaped, join, lex_lt, str_eq, str_lt};
use crate::types::{TypeInfoSpec, get_type_info, is_supported, type_info};
use crate::variant::Variant;

verus! {

/// The first factory descriptor, if any.
pub open spec fn first_factory(ds: Seq<MethodSpec>) -> Option<MethodSpec>
    decreases ds.len(),
{
    if ds.len() == 0 {
        None
    } else if ds[0].is_factory {
        Some(ds[0])
    } else {
        first_factory(ds.drop_first())
    }
}

/// The factory the constructor calls: the first one, if its type maps.
pub open spec fn honored_factory(ds: Seq<MethodSpec>, v: Variant) -> Option<MethodSpec> {
    match first_factory(ds) {
        Some(f) => if is_supported(type_info(v, f.argument_type)) {
            Some(f)
        } else {
            None
        },
        None => None,
    }
}

/// The descriptors that are not factories, in order.
pub open spec fn setters_of(ds: Seq<MethodSpec>) -> Seq<MethodSpec>
    decreases ds.len(),
{
    if ds.len() == 0 {
        Seq::empty()
    } else if ds.last().is_factory {
        setters_of(ds.drop_last())
    } else {
        setters_of(ds.drop_last()).push(ds.last())
    }
}

/// `x` inserted into `s` after every element whose argument name is not
/// greater than its own.
pub open spec fn insert_sorted(x: MethodSpec, s: Seq<MethodSpec>) -> Seq<MethodSpec>
    decreases s.len(),
{
    if s.len() == 0 {
        seq![x]
    } else if lex_lt(x.argument_name, s.last().argument_name) {
        insert_sorted(x, s.drop_last()).push(s.last())
    } else {
        s.push(x)
    }
}

/// Stable sort by argument name, ascending.
pub open spec fn sort_by_argument(s: Seq<MethodSpec>) -> Seq<MethodSpec>
    decreases s.len(),
{
    if s.len() == 0 {
        Seq::empty()
    } else {
        insert_sorted(s.last(), sort_by_argument(s.drop_last()))
    }
}

/// The non-factory descriptors sorted by argument name.
pub open spec fn sorted_setters(ds: Seq<MethodSpec>) -> Seq<MethodSpec> {
    sort_by_argument(setters_of(ds))
}

/// Whether a setter's parameter name is already taken by the factory.
pub open spec fn collides(d: MethodSpec, fac: Option<MethodSpec>) -> bool {
    match fac {
        Some(f) => d.argument_name == f.argument_name,
        None => false,
    }
}

/// The setters that become constructor parameters: a supported type, and
/// no collision with the factory's parameter.
pub open spec fn kept_setters(s: Seq<MethodSpec>, fac: Option<MethodSpec>, v: Variant) -> Seq<
    MethodSpec,
>
    decreases s.len(),
{
    if s.len() == 0 {
        Seq::empty()
    } else {
        let rest = kept_setters(s.drop_last(), fac, v);
        let d = s.last();
        if is_supported(type_info(v, d.argument_type)) && !collides(d, fac) {
            rest.push(d)
        } else {
            rest
        }
    }
}

/// The diagnostic for a setter whose type does not map.
pub open spec fn skip_message(d: MethodSpec) -> Seq<char> {
    "Skipping method "@ + d.name + " due to unsupported type "@ + d.argument_type
}

/// One diagnostic per setter whose type does not map, in order.
pub open spec fn skip_messages(s: Seq<MethodSpec>, v: Variant) -> Seq<Seq<char>>
    decreases s.len(),
{
    if s.len() == 0 {
        Seq::empty()
    } else {
        let rest = skip_messages(s.drop_last(), v);
        if is_supported(type_info(v, s.last().argument_type)) {
            rest
        } else {
            rest.push(skip_message(s.last()))
        }
    }
}

/// The constructor parameters in order: the factory's (required) first, then
/// the kept setters by argument name. The flag marks the required one.
pub open spec fn entries(ds: Seq<MethodSpec>, v: Variant) -> Seq<(MethodSpec, bool)> {
    let fac = honored_factory(ds, v);
    let tail = kept_setters(sorted_setters(ds), fac, v).map_values(
        |d: MethodSpec| (d, false),
    );
    match fac {
        Some(f) => seq![(f, true)] + tail,
        None => tail,
    }
}

pub open spec fn entry_info(e: (MethodSpec, bool), v: Variant) -> TypeInfoSpec {
    type_info(v, e.0.argument_type)
}

/// A parameter passed as is: the required one and the boolean ones.
pub open spec fn is_direct(e: (MethodSpec, bool), v: Variant) -> bool {
    e.1 || entry_info(e, v).is_bool
}

/// The parameter's entry in the constructor's signature attribute.
pub open spec fn sig_piece(e: (MethodSpec, bool), v: Variant) -> Seq<char> {
    if e.1 {
        e.0.argument_name
    } else {
        e.0.argument_name + " = "@ + entry_info(e, v).default_val
    }
}

/// The parameter's declaration in the constructor.
pub open spec fn decl_piece(e: (MethodSpec, bool), v: Variant) -> Seq<char> {
    e.0.argument_name + ": "@ + if is_direct(e, v) {
        entry_info(e, v).rust_type
    } else {
        "Option<"@ + entry_info(e, v).rust_type + ">"@
    }
}

/// The conditional call that applies a setter; nothing for the factory.
pub open spec fn stmt_piece(e: (MethodSpec, bool), v: Variant) -> Seq<char> {
    let a = e.0.argument_name;
    let m = e.0.name;
    if e.1 {
        Seq::empty()
    } else if e.0.is_toggle {
        "        if "@ + a + " {\n            __value = __value."@ + m + "();\n        }\n"@
    } else if entry_info(e, v).is_bool {
        "        if "@ + a + " {\n            __value = __value."@ + m + "("@ + a
            + ");\n        }\n"@
    } else {
        "        if let Some(__v) = "@ + a + " {\n            __value = __value."@ + m
            + "(__v);\n        }\n"@
    }
}

/// The description under a parameter in the docstring.
pub open spec fn doc_text(d: MethodSpec) -> Seq<char> {
    if d.docs.len() == 0 {
        "See `"@ + d.name + "`."@
    } else {
        join(d.docs, "\n    "@)
    }
}

/// The parameter's paragraph in the docstring.
pub open spec fn doc_piece(e: (MethodSpec, bool), v: Variant) -> Seq<char> {
    e.0.argument_name + " : "@ + entry_info(e, v).label + if is_direct(e, v) {
        Seq::empty()
    } else {
        ", optional"@
    } + "\n    "@ + doc_text(e.0)
}

pub open spec fn sig_list(es: Seq<(MethodSpec, bool)>, v: Variant) -> Seq<char> {
    join(es.map_values(|e: (MethodSpec, bool)| sig_piece(e, v)), ", "@)
}

pub open spec fn decl_list(es: Seq<(MethodSpec, bool)>, v: Variant) -> Seq<char> {
    join(es.map_values(|e: (MethodSpec, bool)| decl_piece(e, v)), ", "@)
}

pub open spec fn stmt_list(es: Seq<(MethodSpec, bool)>, v: Variant) -> Seq<char> {
    join(es.map_values(|e: (MethodSpec, bool)| stmt_piece(e, v)), Seq::empty())
}

pub open spec fn doc_list(es: Seq<(MethodSpec, bool)>, v: Variant) -> Seq<char> {
    join(es.map_values(|e: (MethodSpec, bool)| doc_piece(e, v)), "\n"@)
}

pub open spec fn names_of(es: Seq<(MethodSpec, bool)>) -> Seq<Seq<char>> {
    es.map_values(|e: (MethodSpec, bool)| e.0.argument_name)
}

/// The constructor's docstring; the parameter section only when there are
/// parameters.
pub open spec fn docstring(tn: Seq<char>, params: Seq<char>, count: nat) -> Seq<char> {
    "Create a new "@ + tn + "."@ + if count == 0 {
        Seq::empty()
    } else {
        "\n\nParameters\n----------\n"@ + params
    } + "\n\nReturns\n-------\n"@ + tn
}

/// The value the constructor starts from: the factory call, or the default.
pub open spec fn base_value(tn: Seq<char>, fac: Option<MethodSpec>) -> Seq<char> {
    match fac {
        Some(f) => tn + "::"@ + f.name + "("@ + f.argument_name + ")"@,
        None => tn + "::default()"@,
    }
}


/// The wrapper declaration of a layer.
pub open spec fn layer_declaration(
    module: Seq<char>,
    tn: Seq<char>,
    doc: Seq<char>,
    sig: Seq<char>,
    decls: Seq<char>,
    base: Seq<char>,
    stmts: Seq<char>,
) -> Seq<char> {
    "//! Python binding for `"@ + tn + "`.\n\nuse "@ + module + "::"@ + tn
        + ";\nuse crate::opyo3;\nuse pyo3::prelude::*;\nuse pyo3_stub_gen::derive::*;\n\n#[gen_stub_pyclass]\n#[pyclass(name = \""@
        + tn + "\", extends = opyo3::PyLayer)]\n#[derive(Clone)]\npub struct Py"@ + tn + "("@ + tn
        + ");\n\nimpl opyo3::PythonLayer for Py"@ + tn
        + " {\n    fn layer(&self, op: opyo3::ocore::Operator) -> opyo3::ocore::Operator {\n        op.layer(self.0.clone())\n    }\n}\n\n#[gen_stub_pymethods]\n#[pymethods]\nimpl Py"@
        + tn + " {\n    #[doc = \""@ + escaped(doc)
        + "\"]\n    #[gen_stub(override_return_type(type_repr = \"opendal.layers.Layer\", imports = (\"opendal\")))]\n    #[new]\n    #[pyo3(signature = ("@
        + sig + "))]\n    #[allow(unused)]\n    fn new("@ + decls
        + ") -> PyResult<PyClassInitializer<Self>> {\n        let mut __value = "@ + base + ";\n"@
        + stmts
        + "        let class = PyClassInitializer::from(opyo3::PyLayer::new()?).add_subclass(Self(__value));\n        Ok(class)\n    }\n}\n"@
}

/// The wrapper declaration of a service configuration.
pub open spec fn service_declaration(
    module: Seq<char>,
    tn: Seq<char>,
    doc: Seq<char>,
    sig: Seq<char>,
    decls: Seq<char>,
    base: Seq<char>,
    stmts: Seq<char>,
) -> Seq<char> {
    "//! Python binding for `"@ + tn + "`.\n\nuse "@ + module + "::"@ + tn
        + ";\nuse pyo3::prelude::*;\nuse pyo3_stub_gen::derive::*;\n\n#[gen_stub_pyclass]\n#[pyclass(name = \""@
        + tn + "\")]\n#[derive(Clone)]\npub struct Py"@ + tn + "(pub "@ + tn
        + ");\n\n#[gen_stub_pymethods]\n#[pymethods]\nimpl Py"@ + tn + " {\n    #[doc = \""@
        + escaped(doc) + "\"]\n    #[new]\n    #[pyo3(signature = ("@ + sig
        + "))]\n    #[allow(unused)]\n    fn new("@ + decls + ") -> PyResult<Self> {\n        let mut __value = "@
        + base + ";\n"@ + stmts + "        Ok(Self(__value))\n    }\n}\n"@
}

pub open spec fn declaration(
    v: Variant,
    module: Seq<char>,
    tn: Seq<char>,
    doc: Seq<char>,
    sig: Seq<char>,
    decls: Seq<char>,
    base: Seq<char>,
    stmts: Seq<char>,
) -> Seq<char> {
    match v {
        Variant::Layer => layer_declaration(module, tn, doc, sig, decls, base, stmts),
        Variant::Service => service_declaration(module, tn, doc, sig, decls, base, stmts),
    }
}

/// The generated text for a builder surface.
pub open spec fn artifact_text(ds: Seq<MethodSpec>, component: Seq<char>, v: Variant) -> Seq<char> {
    let tn = target_type_name(component, v);
    let es = entries(ds, v);
    declaration(
        v,
        target_module(component, v),
        tn,
        docstring(tn, doc_list(es, v), es.len()),
        sig_list(es, v),
        decl_list(es, v),
        base_value(tn, honored_factory(ds, v)),
        stmt_list(es, v),
    )
}

/// The file of a component's module: `src/<snake>.rs`.
pub open spec fn module_file(component: Seq<char>) -> Seq<char> {
    "src/"@ + snake(component) + ".rs"@
}

fn render_declaration(
    v: Variant,
    module: &str,
    tn: &str,
    doc: &str,
    sig: &str,
    decls: &str,
    base: &str,
    stmts: &str,
) -> (r: String)
    ensures
        r@ == declaration(v, module@, tn@, doc@, sig@, decls@, base@, stmts@),
{
    let d = escape_str(doc);
    let mut s = String::from_str("//! Python binding for `");
    s.append(tn);
    s.append("`.\n\nuse ");
    s.append(module);
    s.append("::");
    s.append(tn);
    match v {
        Variant::Layer => {
            s.append(
                ";\nuse crate::opyo3;\nuse pyo3::prelude::*;\nuse pyo3_stub_gen::derive::*;\n\n#[gen_stub_pyclass]\n#[pyclass(name = \"",
            );
            s.append(tn);
            s.append("\", extends = opyo3::PyLayer)]\n#[derive(Clone)]\npub struct Py");
            s.append(tn);
            s.append("(");
            s.append(tn);
            s.append(");\n\nimpl opyo3::PythonLayer for Py");
            s.append(tn);
            s.append(
                " {\n    fn layer(&self, op: opyo3::ocore::Operator) -> opyo3::ocore::Operator {\n        op.layer(self.0.clone())\n    }\n}\n\n#[gen_stub_pymethods]\n#[pymethods]\nimpl Py",
            );
            s.append(tn);
            s.append(" {\n    #[doc = \"");
            s.append(d.as_str());
            s.append(
                "\"]\n    #[gen_stub(override_return_type(type_repr = \"opendal.layers.Layer\", imports = (\"opendal\")))]\n    #[new]\n    #[pyo3(signature = (",
            );
            s.append(sig);
            s.append("))]\n    #[allow(unused)]\n    fn new(");
            s.append(decls);
            s.append(") -> PyResult<PyClassInitializer<Self>> {\n        let mut __value = ");
            s.append(base);
            s.append(";\n");
            s.append(stmts);
            s.append(
                "        let class = PyClassInitializer::from(opyo3::PyLayer::new()?).add_subclass(Self(__value));\n        Ok(class)\n    }\n}\n",
            );
        },
        Variant::Service => {
            s.append(
                ";\nuse pyo3::prelude::*;\nuse pyo3_stub_gen::derive::*;\n\n#[gen_stub_pyclass]\n#[pyclass(name = \"",
            );
            s.append(tn);
            s.append("\")]\n#[derive(Clone)]\npub struct Py");
            s.append(tn);
            s.append("(pub ");
            s.append(tn);
            s.append(");\n\n#[gen_stub_pymethods]\n#[pymethods]\nimpl Py");
            s.append(tn);
            s.append(" {\n    #[doc = \"");
            s.append(d.as_str());
            s.append("\"]\n    #[new]\n    #[pyo3(signature = (");
            s.append(sig);
            s.append("))]\n    #[allow(unused)]\n    fn new(");
            s.append(decls);
            s.append(") -> PyResult<Self> {\n        let mut __value = ");
            s.append(base);
            s.append(";\n");
            s.append(stmts);
            s.append("        Ok(Self(__value))\n    }\n}\n");
        },
    }
    s
}


/// The generated wrapper: where it goes, its text, its constructor's
/// parameters in order, and the diagnostics for skipped methods.
#[derive(Clone, Debug)]
pub struct GeneratedArtifact {
    pub path: String,
    pub text: String,
    pub parameters: Vec<String>,
    pub diagnostics: Vec<String>,
}

proof fn lemma_join_push(parts: Seq<Seq<char>>, x: Seq<char>, sep: Seq<char>)
    ensures
        join(parts.push(x), sep) == if parts.len() == 0 {
            x
        } else {
            join(parts, sep) + sep + x
        },
{
    assert(parts.push(x).drop_last() =~= parts);
    if parts.len() == 0 {
        assert(parts.push(x)[0] == x);
    }
}

/// The strings of `parts` joined by `sep`.
pub fn join_strings(parts: &Vec<String>, sep: &str) -> (r: String)
    ensures
        r@ == join(crate::extract::strings_view(parts@), sep@),
{
    let ghost pv = crate::extract::strings_view(parts@);
    let mut out = String::new();
    let mut i: usize = 0;
    assert(pv.take(0) =~= Seq::<Seq<char>>::empty());
    while i < parts.len()
        invariant
            0 <= i <= parts@.len(),
            pv == crate::extract::strings_view(parts@),
            out@ == join(pv.take(i as int), sep@),
        decreases parts@.len() - i,
    {
        proof {
            assert(pv.take(i + 1) =~= pv.take(i as int).push(pv[i as int]));
            lemma_join_push(pv.take(i as int), pv[i as int], sep@);
        }
        if i > 0 {
            out.append(sep);
        }
        out.append(parts[i].as_str());
        i = i + 1;
    }
    assert(pv.take(parts@.len() as int) =~= pv);
    out
}

fn doc_text_exec(d: &MethodDescriptor) -> (r: String)
    ensures
        r@ == doc_text(d@),
{
    if d.docs.len() == 0 {
        String::from_str("See `").concat(d.name.as_str()).concat("`.")
    } else {
        join_strings(&d.docs, "\n    ")
    }
}

/// Accumulated constructor pieces.
struct Pieces {
    sig: String,
    decls: String,
    stmts: String,
    docs: String,
    params: Vec<String>,
}

spec fn pieces_match(p: Pieces, es: Seq<(MethodSpec, bool)>, v: Variant) -> bool {
    &&& p.sig@ == sig_list(es, v)
    &&& p.decls@ == decl_list(es, v)
    &&& p.stmts@ == stmt_list(es, v)
    &&& p.docs@ == doc_list(es, v)
    &&& crate::extract::strings_view(p.params@) == names_of(es)
}

fn push_entry(
    p: &mut Pieces,
    d: &MethodDescriptor,
    required: bool,
    v: Variant,
    Ghost(es): Ghost<Seq<(MethodSpec, bool)>>,
)
    requires
        pieces_match(*old(p), es, v),
    ensures
        pieces_match(*final(p), es.push((d@, required)), v),
{
    let ghost e = (d@, required);
    let info = get_type_info(v, d.argument_type.as_str());
    let a = d.argument_name.as_str();
    let m = d.name.as_str();
    let direct = required || info.is_bool;
    let sig = if required {
        String::from_str(a)
    } else {
        String::from_str(a).concat(" = ").concat(info.default_val.as_str())
    };
    let decl = if direct {
        String::from_str(a).concat(": ").concat(info.rust_type.as_str())
    } else {
        String::from_str(a).concat(": ").concat(
            String::from_str("Option<").concat(info.rust_type.as_str()).concat(">").as_str(),
        )
    };
    let stmt = if required {
        String::new()
    } else if d.is_toggle {
        String::from_str("        if ").concat(a).concat(
            " {\n            __value = __value.",
        ).concat(m).concat("();\n        }\n")
    } else if info.is_bool {
        String::from_str("        if ").concat(a).concat(
            " {\n            __value = __value.",
        ).concat(m).concat("(").concat(a).concat(");\n        }\n")
    } else {
        String::from_str("        if let Some(__v) = ").concat(a).concat(
            " {\n            __value = __value.",
        ).concat(m).concat("(__v);\n        }\n")
    };
    let opt = if direct {
        String::new()
    } else {
        String::from_str(", optional")
    };
    let text = doc_text_exec(d);
    let doc = String::from_str(a).concat(" : ").concat(info.py_type_doc.as_str()).concat(
        opt.as_str(),
    ).concat("\n    ").concat(text.as_str());
    assert(sig@ == sig_piece(e, v));
    assert(decl@ =~= decl_piece(e, v));
    assert(stmt@ =~= stmt_piece(e, v));
    assert(doc@ =~= doc_piece(e, v));
    let first = p.params.len() == 0;
    proof {
        assert(es.push(e).map_values(|e: (MethodSpec, bool)| sig_piece(e, v)) =~= es.map_values(
            |e: (MethodSpec, bool)| sig_piece(e, v),
        ).push(sig_piece(e, v)));
        assert(es.push(e).map_values(|e: (MethodSpec, bool)| decl_piece(e, v)) =~= es.map_values(
            |e: (MethodSpec, bool)| decl_piece(e, v),
        ).push(decl_piece(e, v)));
        assert(es.push(e).map_values(|e: (MethodSpec, bool)| stmt_piece(e, v)) =~= es.map_values(
            |e: (MethodSpec, bool)| stmt_piece(e, v),
        ).push(stmt_piece(e, v)));
        assert(es.push(e).map_values(|e: (MethodSpec, bool)| doc_piece(e, v)) =~= es.map_values(
            |e: (MethodSpec, bool)| doc_piece(e, v),
        ).push(doc_piece(e, v)));
        lemma_join_push(es.map_values(|e: (MethodSpec, bool)| sig_piece(e, v)), sig_piece(e, v), ", "@);
        lemma_join_push(es.map_values(|e: (MethodSpec, bool)| decl_piece(e, v)), decl_piece(e, v), ", "@);
        lemma_join_push(es.map_values(|e: (MethodSpec, bool)| stmt_piece(e, v)), stmt_piece(e, v), Seq::empty());
        lemma_join_push(es.map_values(|e: (MethodSpec, bool)| doc_piece(e, v)), doc_piece(e, v), "\n"@);
        assert(crate::extract::strings_view(old(p).params@).len() == old(p).params@.len());
        assert(names_of(es).len() == es.len());
        assert(first == (es.len() == 0));
    }
    let ghost old_stmts = p.stmts@;
    if !first {
        p.sig.append(", ");
        p.decls.append(", ");
        p.docs.append("\n");
    }
    p.sig.append(sig.as_str());
    p.decls.append(decl.as_str());
    p.stmts.append(stmt.as_str());
    p.docs.append(doc.as_str());
    let ghost old_params = p.params@;
    p.params.push(d.argument_name.clone());
    proof {
        assert(old_stmts + Seq::<char>::empty() =~= old_stmts);
        assert(crate::extract::strings_view(p.params@) =~= crate::extract::strings_view(old_params).push(d@.argument_name));
        assert(names_of(es.push(e)) =~= names_of(es).push(d@.argument_name));
    }
}


/// Index of the factory the constructor calls, if any.
fn find_factory(ds: &Vec<MethodDescriptor>, v: Variant) -> (r: Option<usize>)
    ensures
        match r {
            Some(k) => k < ds@.len() && honored_factory(descs_view(ds@), v) == Some(ds@[k as int]@),
            None => honored_factory(descs_view(ds@), v) is None,
        },
{
    let ghost dv = descs_view(ds@);
    let mut i: usize = 0;
    assert(dv.skip(0) =~= dv);
    while i < ds.len()
        invariant
            0 <= i <= ds@.len(),
            dv == descs_view(ds@),
            first_factory(dv) == first_factory(dv.skip(i as int)),
        decreases ds@.len() - i,
    {
        assert(dv.skip(i as int)[0] == dv[i as int]);
        if ds[i].is_factory {
            let info = get_type_info(v, ds[i].argument_type.as_str());
            if info.py_type_doc.unicode_len() > 0 {
                return Some(i);
            } else {
                return None;
            }
        }
        assert(dv.skip(i as int).drop_first() =~= dv.skip(i + 1));
        i = i + 1;
    }
    assert(dv.skip(i as int).len() == 0);
    None
}

/// The descriptors at the given indices.
pub open spec fn at_indices(dv: Seq<MethodSpec>, idx: Seq<usize>) -> Seq<MethodSpec> {
    idx.map_values(|k: usize| dv[k as int])
}

proof fn lemma_insert_step(x: MethodSpec, s: Seq<MethodSpec>, pos: int)
    requires
        0 < pos <= s.len(),
        lex_lt(x.argument_name, s[pos - 1].argument_name),
        insert_sorted(x, s) == insert_sorted(x, s.take(pos)) + s.skip(pos),
    ensures
        insert_sorted(x, s) == insert_sorted(x, s.take(pos - 1)) + s.skip(pos - 1),
{
    assert(s.take(pos).drop_last() =~= s.take(pos - 1));
    assert(s.take(pos).last() == s[pos - 1]);
    assert(insert_sorted(x, s.take(pos)) == insert_sorted(x, s.take(pos - 1)).push(s[pos - 1]));
    assert(s.skip(pos - 1) =~= seq![s[pos - 1]] + s.skip(pos));
    assert(insert_sorted(x, s.take(pos - 1)).push(s[pos - 1]) + s.skip(pos) =~= insert_sorted(
        x,
        s.take(pos - 1),
    ) + (seq![s[pos - 1]] + s.skip(pos)));
}

/// Indices of the non-factory descriptors, stably sorted by argument name.
fn sorted_setter_indices(ds: &Vec<MethodDescriptor>) -> (r: Vec<usize>)
    ensures
        forall|j: int| 0 <= j < r@.len() ==> r@[j] < ds@.len(),
        at_indices(descs_view(ds@), r@) == sorted_setters(descs_view(ds@)),
{
    let ghost dv = descs_view(ds@);
    let mut idx: Vec<usize> = Vec::new();
    let mut i: usize = 0;
    assert(dv.take(0) =~= Seq::<MethodSpec>::empty());
    assert(at_indices(dv, idx@) =~= Seq::<MethodSpec>::empty());
    while i < ds.len()
        invariant
            0 <= i <= ds@.len(),
            dv == descs_view(ds@),
            forall|j: int| 0 <= j < idx@.len() ==> idx@[j] < ds@.len(),
            at_indices(dv, idx@) == sort_by_argument(setters_of(dv.take(i as int))),
        decreases ds@.len() - i,
    {
        proof {
            assert(dv.take(i + 1).drop_last() =~= dv.take(i as int));
            assert(dv.take(i + 1).last() == dv[i as int]);
        }
        if !ds[i].is_factory {
            let ghost s = at_indices(dv, idx@);
            let ghost x = dv[i as int];
            proof {
                assert(setters_of(dv.take(i + 1)) == setters_of(dv.take(i as int)).push(x));
                assert(setters_of(dv.take(i as int)).push(x).drop_last() =~= setters_of(
                    dv.take(i as int),
                ));
                assert(sort_by_argument(setters_of(dv.take(i + 1))) == insert_sorted(x, s));
            }
            let mut pos: usize = idx.len();
            assert(s.skip(s.len() as int) =~= Seq::<MethodSpec>::empty());
            assert(s.take(s.len() as int) =~= s);
            assert(insert_sorted(x, s) =~= insert_sorted(x, s.take(pos as int)) + s.skip(pos as int));
            while pos > 0 && str_lt(
                ds[i].argument_name.as_str(),
                ds[idx[pos - 1]].argument_name.as_str(),
            )
                invariant
                    0 <= pos <= idx@.len(),
                    i < ds@.len(),
                    dv == descs_view(ds@),
                    s == at_indices(dv, idx@),
                    x == dv[i as int],
                    forall|j: int| 0 <= j < idx@.len() ==> idx@[j] < ds@.len(),
                    insert_sorted(x, s) == insert_sorted(x, s.take(pos as int)) + s.skip(pos as int),
                decreases pos,
            {
                proof {
                    lemma_insert_step(x, s, pos as int);
                }
                pos = pos - 1;
            }
            proof {
                if pos > 0 {
                    assert(s.take(pos as int).drop_last() =~= s.take(pos - 1));
                    assert(s.take(pos as int).last() == s[pos - 1]);
                } else {
                    assert(s.take(0) =~= Seq::<MethodSpec>::empty());
                }
                assert(insert_sorted(x, s.take(pos as int)) =~= s.take(pos as int).push(x));
            }
            idx.insert(pos, i);
            proof {
                assert(at_indices(dv, idx@) =~= s.take(pos as int).push(x) + s.skip(pos as int));
            }
        } else {
            proof {
                assert(setters_of(dv.take(i + 1)) == setters_of(dv.take(i as int)));
            }
        }
        i = i + 1;
    }
    assert(dv.take(ds@.len() as int) =~= dv);
    idx
}


/// The file of a component's module: `src/<snake>.rs`.
pub fn module_file_path(component: &str) -> (r: String)
    ensures
        r@ == module_file(component@),
{
    let s = to_snake(component);
    String::from_str("src/").concat(s.as_str()).concat(".rs")
}

proof fn lemma_kept_step(s: Seq<MethodSpec>, i: int, fac: Option<MethodSpec>, v: Variant)
    requires
        0 <= i < s.len(),
    ensures
        kept_setters(s.take(i + 1), fac, v) == if is_supported(type_info(v, s[i].argument_type))
            && !collides(s[i], fac) {
            kept_setters(s.take(i), fac, v).push(s[i])
        } else {
            kept_setters(s.take(i), fac, v)
        },
        skip_messages(s.take(i + 1), v) == if is_supported(type_info(v, s[i].argument_type)) {
            skip_messages(s.take(i), v)
        } else {
            skip_messages(s.take(i), v).push(skip_message(s[i]))
        },
{
    assert(s.take(i + 1).drop_last() =~= s.take(i));
    assert(s.take(i + 1).last() == s[i]);
}

/// Renders the wrapper declaration of a builder surface. The factory whose
/// type maps, if any, gives the first and only required parameter; the
/// other descriptors follow sorted by argument name, without those whose
/// type does not map (each gets a diagnostic) and without one that reuses
/// the factory's parameter name.
pub fn assemble(desc: &ComponentDescriptor, component: &str, v: Variant) -> (r: GeneratedArtifact)
    ensures
        r.path@ == module_file(component@),
        r.text@ == artifact_text(desc.spec_methods(), component@, v),
        crate::extract::strings_view(r.parameters@) == names_of(entries(desc.spec_methods(), v)),
        crate::extract::strings_view(r.diagnostics@) == skip_messages(
            sorted_setters(desc.spec_methods()),
            v,
        ),
{
    let ds = &desc.methods;
    let ghost dv = desc.spec_methods();
    let tn = target_type(component, v);
    let module = target_module_path(component, v);
    let fac = find_factory(ds, v);
    let ghost fac_spec = honored_factory(dv, v);
    let order = sorted_setter_indices(ds);
    let ghost sorted = at_indices(dv, order@);
    let mut p = Pieces {
        sig: String::new(),
        decls: String::new(),
        stmts: String::new(),
        docs: String::new(),
        params: Vec::new(),
    };
    let ghost mut es: Seq<(MethodSpec, bool)> = Seq::empty();
    proof {
        assert(es.map_values(|e: (MethodSpec, bool)| sig_piece(e, v)) =~= Seq::<Seq<char>>::empty());
        assert(es.map_values(|e: (MethodSpec, bool)| decl_piece(e, v)) =~= Seq::<Seq<char>>::empty());
        assert(es.map_values(|e: (MethodSpec, bool)| stmt_piece(e, v)) =~= Seq::<Seq<char>>::empty());
        assert(es.map_values(|e: (MethodSpec, bool)| doc_piece(e, v)) =~= Seq::<Seq<char>>::empty());
        assert(crate::extract::strings_view(p.params@) =~= names_of(es));
    }
    let base = match fac {
        Some(k) => {
            push_entry(&mut p, &ds[k], true, v, Ghost(es));
            proof {
                es = es.push((dv[k as int], true));
            }
            tn.clone().concat("::").concat(ds[k].name.as_str()).concat("(").concat(
                ds[k].argument_name.as_str(),
            ).concat(")")
        },
        None => tn.clone().concat("::default()"),
    };
    let ghost head = es;
    let mut diags: Vec<String> = Vec::new();
    let mut i: usize = 0;
    assert(sorted.take(0) =~= Seq::<MethodSpec>::empty());
    assert(head + Seq::<(MethodSpec, bool)>::empty() =~= head);
    assert(crate::extract::strings_view(diags@) =~= Seq::<Seq<char>>::empty());
    while i < order.len()
        invariant
            0 <= i <= order@.len(),
            dv == desc.spec_methods(),
            dv == descs_view(ds@),
            sorted == at_indices(dv, order@),
            sorted == sorted_setters(dv),
            forall|j: int| 0 <= j < order@.len() ==> order@[j] < ds@.len(),
            fac_spec == honored_factory(dv, v),
            match fac {
                Some(k) => k < ds@.len() && fac_spec == Some(ds@[k as int]@),
                None => fac_spec is None,
            },
            es == head + kept_setters(sorted.take(i as int), fac_spec, v).map_values(
                |d: MethodSpec| (d, false),
            ),
            pieces_match(p, es, v),
            crate::extract::strings_view(diags@) == skip_messages(sorted.take(i as int), v),
        decreases order@.len() - i,
    {
        let k = order[i];
        let d = &ds[k];
        assert(sorted[i as int] == d@);
        proof {
            lemma_kept_step(sorted, i as int, fac_spec, v);
        }
        let info = get_type_info(v, d.argument_type.as_str());
        let collision = match fac {
            Some(kf) => str_eq(d.argument_name.as_str(), ds[kf].argument_name.as_str()),
            None => false,
        };
        if info.py_type_doc.unicode_len() == 0 {
            let msg = String::from_str("Skipping method ").concat(d.name.as_str()).concat(
                " due to unsupported type ",
            ).concat(d.argument_type.as_str());
            let ghost before = diags@;
            diags.push(msg);
            assert(crate::extract::strings_view(diags@) =~= crate::extract::strings_view(
                before,
            ).push(skip_message(d@)));
        } else if collision {
        } else {
            push_entry(&mut p, d, false, v, Ghost(es));
            proof {
                let kept = kept_setters(sorted.take(i as int), fac_spec, v);
                assert(kept.push(d@).map_values(|d: MethodSpec| (d, false)) =~= kept.map_values(
                    |d: MethodSpec| (d, false),
                ).push((d@, false)));
                assert(head + kept.map_values(|d: MethodSpec| (d, false)).push((d@, false)) =~= (
                head + kept.map_values(|d: MethodSpec| (d, false))).push((d@, false)));
                es = es.push((d@, false));
            }
        }
        i = i + 1;
    }
    proof {
        assert(sorted.take(order@.len() as int) =~= sorted);
        match fac_spec {
            Some(f) => {
                assert(head =~= seq![(f, true)]);
            },
            None => {
                assert(head =~= Seq::<(MethodSpec, bool)>::empty());
                assert(es =~= entries(dv, v));
            },
        }
        assert(es == entries(dv, v));
    }
    let doc_head = String::from_str("Create a new ").concat(tn.as_str()).concat(".");
    let doc = if p.params.len() == 0 {
        doc_head
    } else {
        doc_head.concat("\n\nParameters\n----------\n").concat(p.docs.as_str())
    };
    let doc = doc.concat("\n\nReturns\n-------\n").concat(tn.as_str());
    proof {
        assert(crate::extract::strings_view(p.params@).len() == p.params@.len());
        assert(names_of(es).len() == es.len());
        if p.params@.len() == 0 {
            assert(doc@ =~= docstring(tn@, p.docs@, es.len()));
        } else {
            assert(doc@ =~= docstring(tn@, p.docs@, es.len()));
        }
    }
    let text = render_declaration(
        v,
        module.as_str(),
        tn.as_str(),
        doc.as_str(),
        p.sig.as_str(),
        p.decls.as_str(),
        base.as_str(),
        p.stmts.as_str(),
    );
    GeneratedArtifact {
        path: module_file_path(component),
        text,
        parameters: p.params,
        diagnostics: diags,
    }
}

} // verus!
