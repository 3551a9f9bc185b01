//! Properties of extraction and assembly, proved over their spec functions.
use vstd::prelude::*;
use vstd::multiset::Multiset;
use crate::assemble::{
    artifact_text,
    base_value,
    entries,
    first_factory,
    honored_factory,
    insert_sorted,
    setters_of,
    sort_by_argument,
    sorted_setters,
};
use crate::extract::{
    MethodSpec,
    candidate_fns,
    classify,
    extract_fns,
    extract_spec,
    has_factory,
    qualifies,
    returns_self,
};
use crate::naming::target_type_name;
use crate::syntax::{FnItem, SourceFile};
use crate::text::{lemma_lex_lt_irreflexive, lemma_lex_lt_total, lemma_lex_lt_transitive, lex_lt};
use crate::types::type_info;
use crate::variant::Variant;

verus! {

/// A builder method `with_<x>` without parameters is a toggle: it becomes a
/// boolean parameter named `<x>`; `with_jitter` gives `jitter`.
pub proof fn toggle_becomes_boolean_parameter(
    f: FnItem,
    target: Seq<char>,
    v: Variant,
    factory_seen: bool,
)
    requires
        f.name@ == "with_jitter"@,
        f.params@.len() == 0,
        qualifies(f, target, v),
    ensures
        classify(f, target, v, factory_seen) is Some,
        classify(f, target, v, factory_seen)->Some_0.argument_name == "jitter"@,
        classify(f, target, v, factory_seen)->Some_0.argument_type == "bool"@,
        classify(f, target, v, factory_seen)->Some_0.is_toggle,
        type_info(v, classify(f, target, v, factory_seen)->Some_0.argument_type).is_bool,
        type_info(v, classify(f, target, v, factory_seen)->Some_0.argument_type).label == "bool"@,
{
    reveal_strlit("with_jitter");
    reveal_strlit("with_");
    reveal_strlit("jitter");
    assert(f.name@.take(5) =~= "with_"@);
    assert(f.name@.skip(5) =~= "jitter"@);
}

/// A method whose name never classifies never appears among the descriptors.
proof fn lemma_unclassified_name_absent(fns: Seq<FnItem>, target: Seq<char>, v: Variant, name: Seq<
    char,
>)
    requires
        forall|i: int, seen: bool|
            0 <= i < fns.len() && fns[i].name@ == name ==> #[trigger] classify(
                fns[i],
                target,
                v,
                seen,
            ) is None,
    ensures
        forall|i: int|
            0 <= i < extract_fns(fns, target, v).len() ==> #[trigger] extract_fns(
                fns,
                target,
                v,
            )[i].name != name,
    decreases fns.len(),
{
    if fns.len() > 0 {
        let prev = fns.drop_last();
        assert forall|i: int, seen: bool|
            0 <= i < prev.len() && prev[i].name@ == name implies #[trigger] classify(
                prev[i],
                target,
                v,
                seen,
            ) is None by {
            assert(prev[i] == fns[i]);
        }
        lemma_unclassified_name_absent(prev, target, v, name);
        let f = fns.last();
        assert(f == fns[fns.len() - 1]);
        let seen = has_factory(extract_fns(prev, target, v));
        match classify(f, target, v, seen) {
            Some(d) => {
                assert(d.name == f.name@);
                assert(f.name@ != name);
            },
            None => {},
        }
    }
}

/// A method that returns anything but the enclosing type (or `Self`) is no
/// builder method: `with_retries(self, n: usize) -> Other` is left out of
/// the descriptors.
pub proof fn foreign_return_type_is_excluded(file: SourceFile, component: Seq<char>, v: Variant)
    requires
        forall|i: int|
            0 <= i < candidate_fns(file.impls@, target_type_name(component, v)).len() && (
            #[trigger] candidate_fns(file.impls@, target_type_name(component, v))[i]).name@
                == "with_retries"@ ==> !returns_self(
                candidate_fns(file.impls@, target_type_name(component, v))[i].output,
                target_type_name(component, v),
            ),
    ensures
        forall|i: int|
            0 <= i < extract_spec(file, component, v).len() ==> #[trigger] extract_spec(
                file,
                component,
                v,
            )[i].name != "with_retries"@,
{
    let tn = target_type_name(component, v);
    let fns = candidate_fns(file.impls@, tn);
    assert forall|i: int, seen: bool|
        0 <= i < fns.len() && fns[i].name@ == "with_retries"@ implies #[trigger] classify(
            fns[i],
            tn,
            v,
            seen,
        ) is None by {}
    lemma_unclassified_name_absent(fns, tn, v, "with_retries"@);
}

/// A method with two or more parameters besides the receiver is no builder
/// method, whatever its name.
pub proof fn multi_parameter_method_is_excluded(
    f: FnItem,
    target: Seq<char>,
    v: Variant,
    factory_seen: bool,
)
    requires
        f.params@.len() >= 2,
    ensures
        classify(f, target, v, factory_seen) is None,
{
}

/// Every method of a given name takes two or more parameters: none of them
/// is among the descriptors.
pub proof fn multi_parameter_methods_are_absent(
    file: SourceFile,
    component: Seq<char>,
    v: Variant,
    name: Seq<char>,
)
    requires
        forall|i: int|
            0 <= i < candidate_fns(file.impls@, target_type_name(component, v)).len() && (
            #[trigger] candidate_fns(file.impls@, target_type_name(component, v))[i]).name@
                == name ==> candidate_fns(
                file.impls@,
                target_type_name(component, v),
            )[i].params@.len() >= 2,
    ensures
        forall|i: int|
            0 <= i < extract_spec(file, component, v).len() ==> #[trigger] extract_spec(
                file,
                component,
                v,
            )[i].name != name,
{
    let tn = target_type_name(component, v);
    let fns = candidate_fns(file.impls@, tn);
    lemma_unclassified_name_absent(fns, tn, v, name);
}

proof fn lemma_no_factory_extracted(fns: Seq<FnItem>, target: Seq<char>, v: Variant)
    requires
        forall|i: int|
            0 <= i < fns.len() && (#[trigger] fns[i]).name@ == "new"@ ==> fns[i].params@.len()
                == 0,
    ensures
        forall|i: int|
            0 <= i < extract_fns(fns, target, v).len() ==> !(#[trigger] extract_fns(
                fns,
                target,
                v,
            )[i]).is_factory,
    decreases fns.len(),
{
    if fns.len() > 0 {
        let prev = fns.drop_last();
        assert forall|i: int|
            0 <= i < prev.len() && (#[trigger] prev[i]).name@ == "new"@ implies prev[i].params@.len()
                == 0 by {
            assert(prev[i] == fns[i]);
        }
        lemma_no_factory_extracted(prev, target, v);
        let f = fns.last();
        assert(f == fns[fns.len() - 1]);
        let prev_ds = extract_fns(prev, target, v);
        match classify(f, target, v, has_factory(prev_ds)) {
            Some(d) => {
                assert(!d.is_factory);
                assert(extract_fns(fns, target, v) == prev_ds.push(d));
                assert forall|i: int|
                    0 <= i < prev_ds.push(d).len() implies !(#[trigger] prev_ds.push(d)[i]).is_factory by {
                    if i < prev_ds.len() {
                        assert(prev_ds.push(d)[i] == prev_ds[i]);
                    }
                }
            },
            None => {},
        }
    }
}

proof fn lemma_first_factory_none(ds: Seq<MethodSpec>)
    requires
        forall|i: int| 0 <= i < ds.len() ==> !(#[trigger] ds[i]).is_factory,
    ensures
        first_factory(ds) is None,
    decreases ds.len(),
{
    if ds.len() > 0 {
        assert(!ds[0].is_factory);
        let rest = ds.drop_first();
        assert forall|i: int| 0 <= i < rest.len() implies !(#[trigger] rest[i]).is_factory by {
            assert(rest[i] == ds[i + 1]);
        }
        lemma_first_factory_none(rest);
    }
}

/// When the only methods named `new` take no parameter, no factory is
/// extracted and the constructor starts from the default value.
pub proof fn parameterless_factory_uses_default(file: SourceFile, component: Seq<char>, v: Variant)
    requires
        forall|i: int|
            0 <= i < candidate_fns(file.impls@, target_type_name(component, v)).len() && (
            #[trigger] candidate_fns(file.impls@, target_type_name(component, v))[i]).name@
                == "new"@ ==> candidate_fns(
                file.impls@,
                target_type_name(component, v),
            )[i].params@.len() == 0,
    ensures
        honored_factory(extract_spec(file, component, v), v) is None,
        base_value(
            target_type_name(component, v),
            honored_factory(extract_spec(file, component, v), v),
        ) == target_type_name(component, v) + "::default()"@,
{
    let tn = target_type_name(component, v);
    let fns = candidate_fns(file.impls@, tn);
    lemma_no_factory_extracted(fns, tn, v);
    lemma_first_factory_none(extract_fns(fns, tn, v));
}


/// Argument names in ascending order (equal names allowed).
pub open spec fn sorted_by_argument(s: Seq<MethodSpec>) -> bool {
    forall|i: int, j: int|
        0 <= i < j < s.len() ==> !lex_lt(#[trigger] s[j].argument_name, #[trigger] s[i].argument_name)
}

/// No descriptor occurs twice, and no two share an argument name.
pub open spec fn unique_arguments(m: Multiset<MethodSpec>) -> bool {
    &&& forall|x: MethodSpec| #[trigger] m.count(x) <= 1
    &&& forall|x: MethodSpec, y: MethodSpec|
        #[trigger] m.contains(x) && #[trigger] m.contains(y) && x.argument_name
            == y.argument_name ==> x == y
}

proof fn lemma_not_lt_transitive(a: Seq<char>, b: Seq<char>, c: Seq<char>)
    requires
        !lex_lt(b, a),
        !lex_lt(c, b),
    ensures
        !lex_lt(c, a),
{
    if lex_lt(c, a) {
        if a == b {
        } else {
            lemma_lex_lt_total(a, b);
            lemma_lex_lt_transitive(c, a, b);
        }
    }
}

proof fn lemma_insert_sorted(x: MethodSpec, s: Seq<MethodSpec>)
    requires
        sorted_by_argument(s),
    ensures
        sorted_by_argument(insert_sorted(x, s)),
        insert_sorted(x, s).to_multiset() == s.to_multiset().insert(x),
    decreases s.len(),
{
    broadcast use vstd::seq_lib::group_to_multiset_ensures;
    broadcast use vstd::multiset::group_multiset_properties;

    if s.len() == 0 {
        assert(seq![x] =~= Seq::<MethodSpec>::empty().push(x));
        assert(Seq::<MethodSpec>::empty().to_multiset() =~= Multiset::empty());
    } else {
        let last = s.last();
        let init = s.drop_last();
        assert(s =~= init.push(last));
        assert(sorted_by_argument(init)) by {
            assert forall|i: int, j: int| 0 <= i < j < init.len() implies !lex_lt(
                #[trigger] init[j].argument_name,
                #[trigger] init[i].argument_name,
            ) by {
                assert(init[j] == s[j] && init[i] == s[i]);
            }
        }
        if lex_lt(x.argument_name, last.argument_name) {
            lemma_insert_sorted(x, init);
            let r = insert_sorted(x, init);
            assert(insert_sorted(x, s) == r.push(last));
            assert forall|i: int| 0 <= i < r.len() implies !lex_lt(
                last.argument_name,
                #[trigger] r[i].argument_name,
            ) by {
                assert(r.to_multiset().count(r[i]) > 0);
                if r[i] == x {
                    if lex_lt(last.argument_name, x.argument_name) {
                        lemma_lex_lt_transitive(x.argument_name, last.argument_name, x.argument_name);
                        lemma_lex_lt_irreflexive(x.argument_name);
                    }
                } else {
                    assert(init.to_multiset().count(r[i]) > 0);
                    assert(init.contains(r[i]));
                    let k = choose|k: int| 0 <= k < init.len() && init[k] == r[i];
                    assert(s[k] == init[k]);
                    assert(s[s.len() - 1] == last);
                }
            }
            let rp = r.push(last);
            assert forall|i: int, j: int| 0 <= i < j < rp.len() implies !lex_lt(
                #[trigger] rp[j].argument_name,
                #[trigger] rp[i].argument_name,
            ) by {
                if j == rp.len() - 1 {
                    assert(rp[j] == last);
                    assert(rp[i] == r[i]);
                } else {
                    assert(rp[j] == r[j] && rp[i] == r[i]);
                }
            }
            assert(rp.to_multiset() =~= r.to_multiset().insert(last));
            assert(s.to_multiset() =~= init.to_multiset().insert(last));
            assert(rp.to_multiset() =~= s.to_multiset().insert(x));
        } else {
            let sp = s.push(x);
            assert(insert_sorted(x, s) == sp);
            assert forall|i: int, j: int| 0 <= i < j < sp.len() implies !lex_lt(
                #[trigger] sp[j].argument_name,
                #[trigger] sp[i].argument_name,
            ) by {
                if j == sp.len() - 1 {
                    assert(sp[j] == x);
                    assert(sp[i] == s[i]);
                    assert(last == s[s.len() - 1]);
                    if i < s.len() - 1 {
                        assert(!lex_lt(s[s.len() - 1].argument_name, s[i].argument_name));
                    } else {
                        lemma_lex_lt_irreflexive(last.argument_name);
                    }
                    lemma_not_lt_transitive(s[i].argument_name, last.argument_name, x.argument_name);
                } else {
                    assert(sp[j] == s[j] && sp[i] == s[i]);
                }
            }
        }
    }
}

/// The stable sort by argument name orders its input and keeps its elements.
proof fn lemma_sort_by_argument(s: Seq<MethodSpec>)
    ensures
        sorted_by_argument(sort_by_argument(s)),
        sort_by_argument(s).to_multiset() == s.to_multiset(),
    decreases s.len(),
{
    broadcast use vstd::seq_lib::group_to_multiset_ensures;

    if s.len() == 0 {
        assert(Seq::<MethodSpec>::empty().to_multiset() =~= Multiset::empty());
    } else {
        lemma_sort_by_argument(s.drop_last());
        lemma_insert_sorted(s.last(), sort_by_argument(s.drop_last()));
        assert(s =~= s.drop_last().push(s.last()));
    }
}

/// Two ordered sequences with the same elements and unique argument names
/// are equal.
proof fn lemma_sorted_unique(a: Seq<MethodSpec>, b: Seq<MethodSpec>)
    requires
        sorted_by_argument(a),
        sorted_by_argument(b),
        unique_arguments(a.to_multiset()),
        a.to_multiset() == b.to_multiset(),
    ensures
        a == b,
    decreases a.len(),
{
    broadcast use vstd::seq_lib::group_to_multiset_ensures;
    broadcast use vstd::multiset::group_multiset_properties;

    a.to_multiset_ensures();
    b.to_multiset_ensures();
    assert(a.to_multiset().len() == b.to_multiset().len());
    assert(a.len() == b.len());
    if a.len() == 0 {
        assert(a =~= b);
    } else {
        let x = a[0];
        let y = b[0];
        assert(a.contains(x));
        assert(b.to_multiset().count(x) > 0);
        assert(b.contains(x));
        let k = choose|k: int| 0 <= k < b.len() && b[k] == x;
        assert(b.contains(y));
        assert(a.to_multiset().count(y) > 0);
        assert(a.contains(y));
        let m = choose|m: int| 0 <= m < a.len() && a[m] == y;
        if x != y {
            assert(m > 0 && k > 0);
            assert(!lex_lt(a[m].argument_name, a[0].argument_name));
            assert(!lex_lt(b[k].argument_name, b[0].argument_name));
            if x.argument_name != y.argument_name {
                lemma_lex_lt_total(x.argument_name, y.argument_name);
            }
            assert(a.to_multiset().contains(x) && a.to_multiset().contains(y));
        }
        assert(x == y);
        let a1 = a.drop_first();
        let b1 = b.drop_first();
        assert(a.remove(0) =~= a1);
        assert(b.remove(0) =~= b1);
        assert(a1.to_multiset() =~= b1.to_multiset());
        assert(sorted_by_argument(a1)) by {
            assert forall|i: int, j: int| 0 <= i < j < a1.len() implies !lex_lt(
                #[trigger] a1[j].argument_name,
                #[trigger] a1[i].argument_name,
            ) by {
                assert(a1[j] == a[j + 1] && a1[i] == a[i + 1]);
            }
        }
        assert(sorted_by_argument(b1)) by {
            assert forall|i: int, j: int| 0 <= i < j < b1.len() implies !lex_lt(
                #[trigger] b1[j].argument_name,
                #[trigger] b1[i].argument_name,
            ) by {
                assert(b1[j] == b[j + 1] && b1[i] == b[i + 1]);
            }
        }
        assert(unique_arguments(a1.to_multiset())) by {
            assert(a1.to_multiset() =~= a.to_multiset().remove(x));
            assert forall|z: MethodSpec| #[trigger] a1.to_multiset().count(z) <= 1 by {
                assert(a.to_multiset().count(z) <= 1);
            }
            assert forall|z: MethodSpec, w: MethodSpec|
                #[trigger] a1.to_multiset().contains(z) && #[trigger] a1.to_multiset().contains(w)
                    && z.argument_name == w.argument_name implies z == w by {
                assert(a.to_multiset().contains(z) && a.to_multiset().contains(w));
            }
        }
        lemma_sorted_unique(a1, b1);
        assert(a =~= b) by {
            assert forall|i: int| 0 <= i < a.len() implies a[i] == b[i] by {
                if i > 0 {
                    assert(a[i] == a1[i - 1] && b[i] == b1[i - 1]);
                }
            }
        }
    }
}


proof fn lemma_setters_count(s: Seq<MethodSpec>, x: MethodSpec)
    ensures
        setters_of(s).to_multiset().count(x) == if x.is_factory {
            0
        } else {
            s.to_multiset().count(x)
        },
    decreases s.len(),
{
    broadcast use vstd::seq_lib::group_to_multiset_ensures;
    broadcast use vstd::multiset::group_multiset_properties;

    if s.len() == 0 {
        assert(Seq::<MethodSpec>::empty().to_multiset() =~= Multiset::empty());
    } else {
        lemma_setters_count(s.drop_last(), x);
        assert(s =~= s.drop_last().push(s.last()));
    }
}

proof fn lemma_first_factory_found(s: Seq<MethodSpec>)
    ensures
        match first_factory(s) {
            Some(g) => s.contains(g) && g.is_factory,
            None => forall|i: int| 0 <= i < s.len() ==> !(#[trigger] s[i]).is_factory,
        },
    decreases s.len(),
{
    if s.len() > 0 {
        let rest = s.drop_first();
        lemma_first_factory_found(rest);
        if s[0].is_factory {
            assert(s[0] == s[0]);
        } else {
            match first_factory(rest) {
                Some(g) => {
                    let k = choose|k: int| 0 <= k < rest.len() && rest[k] == g;
                    assert(s[k + 1] == g);
                },
                None => {
                    assert forall|i: int| 0 <= i < s.len() implies !(#[trigger] s[i]).is_factory by {
                        if i > 0 {
                            assert(s[i] == rest[i - 1]);
                        }
                    }
                },
            }
        }
    }
}

proof fn lemma_contains_transfer(a: Seq<MethodSpec>, b: Seq<MethodSpec>, x: MethodSpec)
    requires
        a.to_multiset() == b.to_multiset(),
        b.contains(x),
    ensures
        a.contains(x),
{
    broadcast use vstd::seq_lib::group_to_multiset_ensures;

    assert(b.to_multiset().count(x) > 0);
}

/// The generated text does not depend on the order in which the builder
/// methods are declared: two builder surfaces with the same descriptors, at
/// most one factory, and no two setters sharing an argument name, give the
/// same constructor parameters and the same text.
pub proof fn generation_ignores_declaration_order(
    a: Seq<MethodSpec>,
    b: Seq<MethodSpec>,
    component: Seq<char>,
    v: Variant,
)
    requires
        a.to_multiset() == b.to_multiset(),
        forall|i: int, j: int|
            0 <= i < a.len() && 0 <= j < a.len() && (#[trigger] a[i]).is_factory && (
            #[trigger] a[j]).is_factory ==> a[i] == a[j],
        unique_arguments(setters_of(a).to_multiset()),
    ensures
        entries(a, v) == entries(b, v),
        artifact_text(a, component, v) == artifact_text(b, component, v),
{
    lemma_first_factory_found(a);
    lemma_first_factory_found(b);
    assert(first_factory(a) == first_factory(b)) by {
        match first_factory(a) {
            Some(f) => {
                lemma_contains_transfer(b, a, f);
                let k = choose|k: int| 0 <= k < b.len() && b[k] == f;
                match first_factory(b) {
                    Some(g) => {
                        lemma_contains_transfer(a, b, g);
                        let i = choose|i: int| 0 <= i < a.len() && a[i] == f;
                        let j = choose|j: int| 0 <= j < a.len() && a[j] == g;
                        assert(a[i] == a[j]);
                    },
                    None => {
                        assert(!b[k].is_factory);
                    },
                }
            },
            None => {
                match first_factory(b) {
                    Some(g) => {
                        lemma_contains_transfer(a, b, g);
                        let j = choose|j: int| 0 <= j < a.len() && a[j] == g;
                        assert(!a[j].is_factory);
                    },
                    None => {},
                }
            },
        }
    }
    assert(setters_of(a).to_multiset() =~= setters_of(b).to_multiset()) by {
        assert forall|x: MethodSpec|
            setters_of(a).to_multiset().count(x) == setters_of(b).to_multiset().count(x) by {
            lemma_setters_count(a, x);
            lemma_setters_count(b, x);
        }
    }
    lemma_sort_by_argument(setters_of(a));
    lemma_sort_by_argument(setters_of(b));
    lemma_sorted_unique(sort_by_argument(setters_of(a)), sort_by_argument(setters_of(b)));
    assert(sorted_setters(a) == sorted_setters(b));
}


proof fn lemma_has_factory_exists(ds: Seq<MethodSpec>)
    ensures
        has_factory(ds) <==> exists|i: int| 0 <= i < ds.len() && (#[trigger] ds[i]).is_factory,
    decreases ds.len(),
{
    if ds.len() > 0 {
        let init = ds.drop_last();
        lemma_has_factory_exists(init);
        assert(ds.last() == ds[ds.len() - 1]);
        if exists|i: int| 0 <= i < init.len() && (#[trigger] init[i]).is_factory {
            let i = choose|i: int| 0 <= i < init.len() && (#[trigger] init[i]).is_factory;
            assert(ds[i] == init[i]);
        }
        if exists|i: int| 0 <= i < ds.len() && (#[trigger] ds[i]).is_factory {
            let i = choose|i: int| 0 <= i < ds.len() && (#[trigger] ds[i]).is_factory;
            if i < ds.len() - 1 {
                assert(init[i] == ds[i]);
            }
        }
    }
}

proof fn lemma_at_most_one_factory(fns: Seq<FnItem>, target: Seq<char>, v: Variant)
    ensures
        forall|i: int, j: int|
            0 <= i < extract_fns(fns, target, v).len() && 0 <= j < extract_fns(
                fns,
                target,
                v,
            ).len() && (#[trigger] extract_fns(fns, target, v)[i]).is_factory && (
            #[trigger] extract_fns(fns, target, v)[j]).is_factory ==> i == j,
    decreases fns.len(),
{
    if fns.len() > 0 {
        let prev = extract_fns(fns.drop_last(), target, v);
        lemma_at_most_one_factory(fns.drop_last(), target, v);
        lemma_has_factory_exists(prev);
        match classify(fns.last(), target, v, has_factory(prev)) {
            Some(d) => {
                let r = prev.push(d);
                assert(extract_fns(fns, target, v) == r);
                assert forall|i: int, j: int|
                    0 <= i < r.len() && 0 <= j < r.len() && (#[trigger] r[i]).is_factory && (
                    #[trigger] r[j]).is_factory implies i == j by {
                    if i < prev.len() && j < prev.len() {
                        assert(r[i] == prev[i] && r[j] == prev[j]);
                    } else if i < prev.len() {
                        assert(r[i] == prev[i]);
                        assert(has_factory(prev));
                    } else if j < prev.len() {
                        assert(r[j] == prev[j]);
                        assert(has_factory(prev));
                    }
                }
            },
            None => {},
        }
    }
}

/// Extraction takes at most one method as the factory: the first method
/// named `new` that qualifies.
pub proof fn extraction_keeps_at_most_one_factory(file: SourceFile, component: Seq<char>, v: Variant)
    ensures
        forall|i: int, j: int|
            0 <= i < extract_spec(file, component, v).len() && 0 <= j < extract_spec(
                file,
                component,
                v,
            ).len() && (#[trigger] extract_spec(file, component, v)[i]).is_factory && (
            #[trigger] extract_spec(file, component, v)[j]).is_factory ==> i == j,
{
    let tn = target_type_name(component, v);
    lemma_at_most_one_factory(candidate_fns(file.impls@, tn), tn, v);
}

} // verus!
