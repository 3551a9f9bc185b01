//! The source extractor: which methods of the target type are builder
//! methods, and what each one configures.
use vstd::prelude::*;
use crate::naming::{target_type, target_type_name};
use crate::syntax::{FnItem, ImplBlock, Param, Receiver, ReturnKind, SourceFile};
use crate::text::{has_prefix, starts_with, str_eq, trim, trim_str};
use crate::variant::Variant;

verus! {

/// One qualifying builder method of the target type.
#[derive(Clone, Debug)]
pub struct MethodDescriptor {
    /// The method's identifier.
    pub name: String,
    /// The constructor parameter it becomes.
    pub argument_name: String,
    /// The parameter's source type text (`bool` for a toggle).
    pub argument_type: String,
    /// Its documentation lines, trimmed, blank lines dropped.
    pub docs: Vec<String>,
    /// A zero-argument method that switches an option on.
    pub is_toggle: bool,
    /// The factory: its parameter is required.
    pub is_factory: bool,
}

/// Mathematical form of a `MethodDescriptor`.
pub struct MethodSpec {
    pub name: Seq<char>,
    pub argument_name: Seq<char>,
    pub argument_type: Seq<char>,
    pub docs: Seq<Seq<char>>,
    pub is_toggle: bool,
    pub is_factory: bool,
}

/// The views of a sequence of strings.
pub open spec fn strings_view(s: Seq<String>) -> Seq<Seq<char>> {
    s.map_values(|x: String| x@)
}

impl View for MethodDescriptor {
    type V = MethodSpec;

    open spec fn view(&self) -> MethodSpec {
        MethodSpec {
            name: self.name@,
            argument_name: self.argument_name@,
            argument_type: self.argument_type@,
            docs: strings_view(self.docs@),
            is_toggle: self.is_toggle,
            is_factory: self.is_factory,
        }
    }
}

/// The builder surface of one target type, in source order.
#[derive(Clone, Debug)]
pub struct ComponentDescriptor {
    pub methods: Vec<MethodDescriptor>,
}

/// The views of a sequence of descriptors.
pub open spec fn descs_view(s: Seq<MethodDescriptor>) -> Seq<MethodSpec> {
    s.map_values(|d: MethodDescriptor| d@)
}

impl ComponentDescriptor {
    pub open spec fn spec_methods(&self) -> Seq<MethodSpec> {
        descs_view(self.methods@)
    }
}

/// Documentation lines trimmed, with the blank ones dropped.
pub open spec fn clean_docs(raw: Seq<Seq<char>>) -> Seq<Seq<char>>
    decreases raw.len(),
{
    if raw.len() == 0 {
        Seq::empty()
    } else {
        let rest = clean_docs(raw.drop_last());
        let t = trim(raw.last());
        if t.len() == 0 {
            rest
        } else {
            rest.push(t)
        }
    }
}

/// The parameter's identifier; `arg` for any other pattern.
pub open spec fn param_name(p: Param) -> Seq<char> {
    match p.name {
        Some(n) => n@,
        None => "arg"@,
    }
}

/// The parameter's type text; `unknown` for a type that is not a path.
pub open spec fn param_type(p: Param) -> Seq<char> {
    match p.type_text {
        Some(t) => t@,
        None => "unknown"@,
    }
}

/// Whether the return type names the enclosing type or `Self`.
pub open spec fn returns_self(out: ReturnKind, target: Seq<char>) -> bool {
    match out {
        ReturnKind::Named(n) => n@ == "Self"@ || n@ == target,
        _ => false,
    }
}

/// Whether the method is the conventional factory of a variant that has one.
pub open spec fn is_factory_name(f: FnItem, v: Variant) -> bool {
    v.detects_factory() && f.name@ == "new"@
}

/// Builder methods take `self` by value; only the factory may omit it.
pub open spec fn receiver_allowed(f: FnItem, v: Variant) -> bool {
    f.receiver == Receiver::Value || (is_factory_name(f, v) && f.receiver == Receiver::Absent)
}

/// Public, with an allowed receiver, returning the enclosing type.
pub open spec fn qualifies(f: FnItem, target: Seq<char>, v: Variant) -> bool {
    f.is_public && receiver_allowed(f, v) && returns_self(f.output, target)
}

/// The descriptor of one method, if it is a builder method. `factory_seen`
/// says whether an earlier method was already taken as the factory.
pub open spec fn classify(f: FnItem, target: Seq<char>, v: Variant, factory_seen: bool) -> Option<
    MethodSpec,
> {
    if !qualifies(f, target, v) {
        None
    } else if f.params@.len() == 1 {
        if is_factory_name(f, v) && factory_seen {
            None
        } else {
            Some(
                MethodSpec {
                    name: f.name@,
                    argument_name: param_name(f.params@[0]),
                    argument_type: param_type(f.params@[0]),
                    docs: clean_docs(strings_view(f.docs@)),
                    is_toggle: false,
                    is_factory: is_factory_name(f, v),
                },
            )
        }
    } else if f.params@.len() == 0 && has_prefix(f.name@, "with_"@) {
        Some(
            MethodSpec {
                name: f.name@,
                argument_name: f.name@.skip("with_"@.len() as int),
                argument_type: "bool"@,
                docs: clean_docs(strings_view(f.docs@)),
                is_toggle: true,
                is_factory: false,
            },
        )
    } else {
        None
    }
}

/// Whether a factory is among the descriptors.
pub open spec fn has_factory(ds: Seq<MethodSpec>) -> bool
    decreases ds.len(),
{
    ds.len() > 0 && (ds.last().is_factory || has_factory(ds.drop_last()))
}

/// The methods of a block, if it implements the target type.
pub open spec fn block_fns(b: ImplBlock, target: Seq<char>) -> Seq<FnItem> {
    match b.self_type {
        Some(t) => if t@ == target {
            b.methods@
        } else {
            Seq::empty()
        },
        None => Seq::empty(),
    }
}

/// The methods of every block that implements the target type, in order.
pub open spec fn candidate_fns(impls: Seq<ImplBlock>, target: Seq<char>) -> Seq<FnItem>
    decreases impls.len(),
{
    if impls.len() == 0 {
        Seq::empty()
    } else {
        candidate_fns(impls.drop_last(), target) + block_fns(impls.last(), target)
    }
}

/// The descriptors of a sequence of methods, in order.
pub open spec fn extract_fns(fns: Seq<FnItem>, target: Seq<char>, v: Variant) -> Seq<MethodSpec>
    decreases fns.len(),
{
    if fns.len() == 0 {
        Seq::empty()
    } else {
        let prev = extract_fns(fns.drop_last(), target, v);
        match classify(fns.last(), target, v, has_factory(prev)) {
            Some(d) => prev.push(d),
            None => prev,
        }
    }
}

/// The builder surface of a component in a source file.
pub open spec fn extract_spec(file: SourceFile, component: Seq<char>, v: Variant) -> Seq<MethodSpec> {
    let tn = target_type_name(component, v);
    extract_fns(candidate_fns(file.impls@, tn), tn, v)
}

/// Documentation lines trimmed, blank ones dropped.
pub fn clean_doc_lines(docs: &Vec<String>) -> (r: Vec<String>)
    ensures
        strings_view(r@) == clean_docs(strings_view(docs@)),
{
    let mut out: Vec<String> = Vec::new();
    let mut i: usize = 0;
    assert(strings_view(docs@).take(0) =~= Seq::<Seq<char>>::empty());
    while i < docs.len()
        invariant
            0 <= i <= docs@.len(),
            strings_view(out@) == clean_docs(strings_view(docs@).take(i as int)),
        decreases docs@.len() - i,
    {
        let t = trim_str(docs[i].as_str());
        let ghost prev = out@;
        assert(strings_view(docs@).take(i + 1).drop_last() =~= strings_view(docs@).take(
            i as int,
        ));
        assert(strings_view(docs@).take(i + 1).last() == docs@[i as int]@);
        if t.unicode_len() > 0 {
            out.push(t);
            assert(strings_view(out@) =~= strings_view(prev).push(out@.last()@));
        }
        i = i + 1;
    }
    assert(strings_view(docs@).take(docs@.len() as int) =~= strings_view(docs@));
    out
}

fn returns_self_exec(out: &ReturnKind, target: &str) -> (r: bool)
    ensures
        r == returns_self(*out, target@),
{
    match out {
        ReturnKind::Named(n) => str_eq(n.as_str(), "Self") || str_eq(n.as_str(), target),
        _ => false,
    }
}

fn param_name_exec(p: &Param) -> (r: String)
    ensures
        r@ == param_name(*p),
{
    match &p.name {
        Some(n) => n.clone(),
        None => String::from_str("arg"),
    }
}

fn param_type_exec(p: &Param) -> (r: String)
    ensures
        r@ == param_type(*p),
{
    match &p.type_text {
        Some(t) => t.clone(),
        None => String::from_str("unknown"),
    }
}

/// The descriptor of one method, if it is a builder method of `target`.
pub fn classify_method(f: &FnItem, target: &str, v: Variant, factory_seen: bool) -> (r: Option<
    MethodDescriptor,
>)
    ensures
        match r {
            Some(d) => classify(*f, target@, v, factory_seen) == Some(d@),
            None => classify(*f, target@, v, factory_seen) is None,
        },
{
    let is_factory = v.has_factory_detection() && str_eq(f.name.as_str(), "new");
    let receiver_ok = match f.receiver {
        Receiver::Value => true,
        Receiver::Absent => is_factory,
        Receiver::Reference => false,
    };
    if !f.is_public || !receiver_ok || !returns_self_exec(&f.output, target) {
        return None;
    }
    if f.params.len() == 1 {
        if is_factory && factory_seen {
            return None;
        }
        let d = MethodDescriptor {
            name: f.name.clone(),
            argument_name: param_name_exec(&f.params[0]),
            argument_type: param_type_exec(&f.params[0]),
            docs: clean_doc_lines(&f.docs),
            is_toggle: false,
            is_factory,
        };
        Some(d)
    } else if f.params.len() == 0 && starts_with(f.name.as_str(), "with_") {
        proof {
            reveal_strlit("with_");
        }
        let n = f.name.as_str().unicode_len();
        let rest = f.name.as_str().substring_char(5, n);
        let d = MethodDescriptor {
            name: f.name.clone(),
            argument_name: rest.to_owned(),
            argument_type: String::from_str("bool"),
            docs: clean_doc_lines(&f.docs),
            is_toggle: true,
            is_factory: false,
        };
        assert(d@.argument_name =~= f.name@.skip("with_"@.len() as int));
        Some(d)
    } else {
        None
    }
}

proof fn lemma_extract_push(fns: Seq<FnItem>, f: FnItem, target: Seq<char>, v: Variant)
    ensures
        extract_fns(fns.push(f), target, v) == match classify(
            f,
            target,
            v,
            has_factory(extract_fns(fns, target, v)),
        ) {
            Some(d) => extract_fns(fns, target, v).push(d),
            None => extract_fns(fns, target, v),
        },
{
    assert(fns.push(f).drop_last() =~= fns);
}

proof fn lemma_has_factory_push(ds: Seq<MethodSpec>, d: MethodSpec)
    ensures
        has_factory(ds.push(d)) == (d.is_factory || has_factory(ds)),
{
    assert(ds.push(d).drop_last() =~= ds);
}

proof fn lemma_candidates_step(impls: Seq<ImplBlock>, i: int, target: Seq<char>)
    requires
        0 <= i < impls.len(),
    ensures
        candidate_fns(impls.take(i + 1), target) == candidate_fns(impls.take(i), target)
            + block_fns(impls[i], target),
{
    assert(impls.take(i + 1).drop_last() =~= impls.take(i));
}

/// The builder surface of `component` in `source`: every method of an
/// implementation block of the target type that classifies as a builder
/// method, in source order, with at most one factory.
pub fn extract_component(source: &SourceFile, component: &str, v: Variant) -> (r:
    ComponentDescriptor)
    ensures
        r.spec_methods() == extract_spec(*source, component@, v),
{
    let target = target_type(component, v);
    let ghost tn = target@;
    let mut out: Vec<MethodDescriptor> = Vec::new();
    let mut factory_seen = false;
    let mut i: usize = 0;
    assert(source.impls@.take(0) =~= Seq::<ImplBlock>::empty());
    while i < source.impls.len()
        invariant
            0 <= i <= source.impls@.len(),
            tn == target@,
            tn == target_type_name(component@, v),
            descs_view(out@) == extract_fns(candidate_fns(source.impls@.take(i as int), tn), tn, v),
            factory_seen == has_factory(descs_view(out@)),
        decreases source.impls@.len() - i,
    {
        let block = &source.impls[i];
        proof {
            lemma_candidates_step(source.impls@, i as int, tn);
        }
        let ghost before = candidate_fns(source.impls@.take(i as int), tn);
        let matches = match &block.self_type {
            Some(t) => str_eq(t.as_str(), target.as_str()),
            None => false,
        };
        if matches {
            let mut j: usize = 0;
            assert(block.methods@.take(0) =~= Seq::<FnItem>::empty());
            assert(before + block.methods@.take(0) =~= before);
            while j < block.methods.len()
                invariant
                    0 <= j <= block.methods@.len(),
                    tn == target@,
                    descs_view(out@) == extract_fns(before + block.methods@.take(j as int), tn, v),
                    factory_seen == has_factory(descs_view(out@)),
                decreases block.methods@.len() - j,
            {
                let f = &block.methods[j];
                proof {
                    assert(before + block.methods@.take(j + 1) =~= (before + block.methods@.take(
                        j as int,
                    )).push(*f));
                    lemma_extract_push(before + block.methods@.take(j as int), *f, tn, v);
                }
                let c = classify_method(f, target.as_str(), v, factory_seen);
                match c {
                    Some(d) => {
                        let ghost prev = descs_view(out@);
                        let is_f = d.is_factory;
                        out.push(d);
                        proof {
                            assert(descs_view(out@) =~= prev.push(out@.last()@));
                            lemma_has_factory_push(prev, out@.last()@);
                        }
                        factory_seen = factory_seen || is_f;
                    },
                    None => {},
                }
                j = j + 1;
            }
            assert(block.methods@.take(block.methods@.len() as int) =~= block.methods@);
        } else {
            assert(before + block_fns(*block, tn) =~= before);
        }
        i = i + 1;
    }
    assert(source.impls@.take(source.impls@.len() as int) =~= source.impls@);
    ComponentDescriptor { methods: out }
}

} // verus!
