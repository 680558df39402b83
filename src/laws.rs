//! Laws the generator obeys, stated over the models and proved.
use vstd::prelude::*;
use crate::descriptor::{decode_field, decode_return, descriptor_params, descriptor_return};
use crate::dispatch::{dispatch_for, DispatchVariant};
use crate::emitter::{count_in, display_name, earlier_uses, package_info, struct_text};
use crate::generator::{call_line, category_of, is_stub, method_ok, method_text, null_check, params_text, wrap_result};
use crate::model::{ClassModel, MethodModel};
use crate::naming::{in_api, internal_marker, object_type, optional_class, sanitized};
use crate::text::{contains, find_from, last_segment};
use crate::types::{opaque_name, primitive_code, primitive_of, JType, Primitive};

verus! {

/// Generating twice from the same class gives the same text.
pub proof fn lemma_generation_deterministic(a: ClassModel, b: ClassModel)
    requires
        a == b,
    ensures
        struct_text(a) == struct_text(b),
{
}

/// A package-metadata unit emits nothing, whatever its methods.
pub proof fn lemma_package_info_skipped(c: ClassModel)
    requires
        last_segment(c.name) == package_info(),
    ensures
        struct_text(c) == Seq::<char>::empty(),
{
}

/// Every primitive character decodes to its primitive, and encoding that
/// primitive gives the character back; every primitive has a character
/// that decodes to it.
pub proof fn lemma_primitive_round_trip(c: char, k: Primitive)
    ensures
        primitive_of(c) matches Some(p) ==> decode_return(seq![c]) == Some(JType::Primitive(p))
            && primitive_code(p) == c,
        primitive_of(primitive_code(k)) == Some(k),
{
    if primitive_of(c) is Some {
        assert(seq![c].len() == 1);
    }
}

/// A name inside the namespace and without the internal marker gets a
/// wrapper; a name outside it is an opaque handle, the host's optional type
/// aside; a name with the marker is always an opaque handle.
pub proof fn lemma_namespace_boundary(name: Seq<char>)
    ensures
        in_api(name) && !contains(name, internal_marker()) ==> object_type(name) is ObjectRef,
        !in_api(name) && name != optional_class() ==> object_type(name) is Opaque,
        contains(name, internal_marker()) ==> object_type(name) is Opaque && sanitized(name)
            == opaque_name(),
{
    reveal_strlit("java/util/Optional");
    reveal_strlit("gencore");
    assert forall|j: int| 0 <= j < optional_class().len() implies optional_class()[j]
        != internal_marker()[0] by {}
    lemma_find_absent_first(optional_class(), internal_marker(), 0);
}

proof fn lemma_find_absent_first(s: Seq<char>, p: Seq<char>, i: int)
    requires
        p.len() > 0,
        forall|j: int| 0 <= j < s.len() ==> s[j] != p[0],
    ensures
        find_from(s, p, i) is None,
    decreases s.len() + 1 - i,
{
    if 0 <= i && i + p.len() <= s.len() {
        assert(s.subrange(i, i + p.len())[0] != p[0]);
        lemma_find_absent_first(s, p, i + 1);
    }
}

/// A method with an array parameter or an array return is emitted with its
/// signature and a body that only signals that it is not implemented.
pub proof fn lemma_stub_honesty(class_name: Seq<char>, m: MethodModel, fn_name: Seq<char>)
    requires
        is_stub(m),
    ensures
        method_text(class_name, m, fn_name) == "\n  pub fn "@ + fn_name + params_text(
            m.descriptor,
            m.signature,
            m.is_static,
        ) + " {\n"@ + "    "@ + "unimplemented!();\n  }"@,
{
}

/// A bound method returning a non-optional object checks the result for
/// null right after the call, naming the class and the method, before the
/// result is handed back.
pub proof fn lemma_null_return_fatal(class_name: Seq<char>, m: MethodModel, fn_name: Seq<char>)
    requires
        method_ok(m),
        !is_stub(m),
        category_of(descriptor_return(m.descriptor)->0) is Object,
        !(descriptor_return(m.descriptor)->0 is OptionalRef),
    ensures
        method_text(class_name, m, fn_name) == "\n  pub fn "@ + fn_name + params_text(
            m.descriptor,
            m.signature,
            m.is_static,
        ) + " {\n"@ + "    "@ + (call_line(
            class_name,
            m,
            category_of(descriptor_return(m.descriptor)->0),
            descriptor_params(m.descriptor)->0,
        ) + (null_check(class_name, m.original_name) + wrap_result(
            descriptor_return(m.descriptor)->0,
            m,
        )) + "  }\n"@),
        null_check(class_name, m.original_name) == "    if ret.is_null() { panic!(\""@ + class_name
            + "#"@ + m.original_name + " was null\") }\n"@,
{
}

/// The entry point a binding uses, chosen from the decoded return type, is
/// the one the selector picks from the return fragment's first character.
pub proof fn lemma_dispatch_agrees_with_decoding(s: Seq<char>, arity: nat, is_static: bool)
    requires
        decode_return(s) is Some,
    ensures
        s.len() > 0,
        dispatch_for(s[0], arity, is_static) == Some(
            if decode_return(s)->0 is ArrayOf {
                DispatchVariant::Unsupported
            } else {
                DispatchVariant::Call {
                    category: category_of(decode_return(s)->0),
                    indexed: arity > 0,
                    is_static,
                }
            },
        ),
{
    if !(s.len() == 1 && s[0] == 'V') {
        assert(decode_field(s, 0) is Some);
    }
}

pub proof fn lemma_count_in_concat(a: Seq<Seq<char>>, b: Seq<Seq<char>>, n: Seq<char>)
    ensures
        count_in(a + b, n) == count_in(a, n) + count_in(b, n),
    decreases b.len(),
{
    if b.len() > 0 {
        lemma_count_in_concat(a, b.drop_last(), n);
        assert((a + b).drop_last() =~= a + b.drop_last());
    }
}

/// Of two entries with the same display name, the later one carries the
/// larger use number: names are numbered in table order.
pub proof fn lemma_numbering_in_table_order(bases: Seq<Seq<char>>, i: int, j: int)
    requires
        0 <= i < j < bases.len(),
        bases[i] == bases[j],
    ensures
        earlier_uses(bases, j) >= earlier_uses(bases, i) + 1,
{
    let n = bases[i];
    assert(bases.subrange(0, j) =~= bases.subrange(0, i) + bases.subrange(i, j));
    lemma_count_in_concat(bases.subrange(0, i), bases.subrange(i, j), n);
    let mid = bases.subrange(i, j);
    assert(mid =~= seq![n] + bases.subrange(i + 1, j));
    lemma_count_in_concat(seq![n], bases.subrange(i + 1, j), n);
    assert(seq![n].drop_last() =~= Seq::<Seq<char>>::empty());
}

/// Swapping two adjacent entries whose display names differ changes no
/// entry's final name: each name keeps the number it had.
pub proof fn lemma_swap_keeps_numbers(bases: Seq<Seq<char>>, k: int)
    requires
        0 <= k,
        k + 1 < bases.len(),
        bases[k] != bases[k + 1],
    ensures
        ({
            let swapped = bases.update(k, bases[k + 1]).update(k + 1, bases[k]);
            &&& display_name(swapped, k + 1) == display_name(bases, k)
            &&& display_name(swapped, k) == display_name(bases, k + 1)
            &&& forall|i: int|
                0 <= i < bases.len() && i != k && i != k + 1 ==> #[trigger] display_name(swapped, i)
                    == display_name(bases, i)
        }),
{
    let swapped = bases.update(k, bases[k + 1]).update(k + 1, bases[k]);
    let x = bases[k];
    let y = bases[k + 1];
    let p = bases.subrange(0, k);
    assert(swapped[k] == y && swapped[k + 1] == x);
    // the entry moved down
    assert(swapped.subrange(0, k + 1) =~= p + seq![y]);
    lemma_count_in_concat(p, seq![y], x);
    assert(seq![y].drop_last() =~= Seq::<Seq<char>>::empty());
    assert(count_in(Seq::<Seq<char>>::empty(), x) == 0);
    assert(count_in(seq![y], x) == 0);
    assert(count_in(swapped.subrange(0, k + 1), x) == count_in(p, x));
    assert(bases.subrange(0, k) == p);
    assert(earlier_uses(swapped, k + 1) == earlier_uses(bases, k));
    // the entry moved up
    assert(swapped.subrange(0, k) =~= p);
    assert(bases.subrange(0, k + 1) =~= p + seq![x]);
    lemma_count_in_concat(p, seq![x], y);
    assert(seq![x].drop_last() =~= Seq::<Seq<char>>::empty());
    assert(count_in(Seq::<Seq<char>>::empty(), y) == 0);
    assert(count_in(seq![x], y) == 0);
    assert(count_in(bases.subrange(0, k + 1), y) == count_in(p, y));
    assert(earlier_uses(swapped, k) == earlier_uses(bases, k + 1));
    assert forall|i: int| 0 <= i < bases.len() && i != k && i != k + 1 implies #[trigger] display_name(
        swapped,
        i,
    ) == display_name(bases, i) by {
        assert(swapped[i] == bases[i]);
        if i < k {
            assert(swapped.subrange(0, i) =~= bases.subrange(0, i));
        } else {
            let n = bases[i];
            let q = bases.subrange(k + 2, i);
            assert(bases.subrange(0, i) =~= p + seq![x, y] + q);
            assert(swapped.subrange(0, i) =~= p + seq![y, x] + q);
            lemma_count_in_concat(p + seq![x, y], q, n);
            lemma_count_in_concat(p + seq![y, x], q, n);
            lemma_count_in_concat(p, seq![x, y], n);
            lemma_count_in_concat(p, seq![y, x], n);
            lemma_count_in_concat(seq![x], seq![y], n);
            lemma_count_in_concat(seq![y], seq![x], n);
            assert(seq![x] + seq![y] =~= seq![x, y]);
            assert(seq![y] + seq![x] =~= seq![y, x]);
            assert(seq![x].drop_last() =~= Seq::<Seq<char>>::empty());
            assert(seq![y].drop_last() =~= Seq::<Seq<char>>::empty());
        }
    }
}

} // verus!
