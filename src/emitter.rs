//! Names the public methods of a class and assembles the wrapper type with
//! all of its bindings.
use vstd::prelude::*;
use crate::descriptor::descriptor_types_checked;
use crate::generator::{create_method, method_ok, method_text};
use crate::model::{copy_option_string, Class, ClassModel, Method, MethodModel};
use crate::naming::{equals_str, sanitize_class_name, sanitized, snake_case_of};
use crate::signature::optional_payload_exec;
use crate::text::{chars_of, decimal, decimal_string, last_segment, last_segment_exec, string_of_range};
use crate::types::TypeValue;

verus! {

/// The marker name of a constructor in the method table.
pub open spec fn constructor_marker() -> Seq<char> {
    "<init>"@
}

/// The last segment of a package-metadata unit's name.
pub open spec fn package_info() -> Seq<char> {
    "package-info"@
}

pub open spec fn is_constructor(m: MethodModel) -> bool {
    m.name == constructor_marker()
}

/// A display name that is a reserved word gets a trailing `_`.
pub open spec fn escaped(n: Seq<char>) -> Seq<char> {
    if n == "type"@ || n == "match"@ || n == "override"@ {
        n + "_"@
    } else {
        n
    }
}

/// The display name before overload numbering.
pub open spec fn base_name(m: MethodModel) -> Seq<char> {
    if is_constructor(m) {
        "new"@
    } else {
        escaped(m.name)
    }
}

/// How many entries of `ns` equal `n`.
pub open spec fn count_in(ns: Seq<Seq<char>>, n: Seq<char>) -> nat
    decreases ns.len(),
{
    if ns.len() == 0 {
        0
    } else {
        count_in(ns.drop_last(), n) + if ns.last() == n {
            1nat
        } else {
            0nat
        }
    }
}

/// Earlier uses of a name: the factory `from` always comes first.
pub open spec fn reserved_uses(n: Seq<char>) -> nat {
    if n == "from"@ {
        1
    } else {
        0
    }
}

/// How many uses of the name at `i` come before it.
pub open spec fn earlier_uses(bases: Seq<Seq<char>>, i: int) -> nat {
    count_in(bases.subrange(0, i), bases[i]) + reserved_uses(bases[i])
}

/// The final display name at `i`: the first use is unnumbered, the second
/// gets `2`, the third `3`, and so on.
pub open spec fn display_name(bases: Seq<Seq<char>>, i: int) -> Seq<char> {
    let k = earlier_uses(bases, i);
    if k == 0 {
        bases[i]
    } else {
        bases[i] + decimal(k + 1)
    }
}

/// A constructor's descriptor, made to return the enclosing class.
pub open spec fn constructor_descriptor(d: Seq<char>, class_name: Seq<char>) -> Seq<char> {
    (if d.len() > 0 {
        d.drop_last()
    } else {
        d
    }) + "L"@ + class_name
}

/// A method under its final display name; a constructor also becomes a
/// static method returning the class.
pub open spec fn renamed(m: MethodModel, display: Seq<char>, class_name: Seq<char>) -> MethodModel {
    MethodModel {
        original_name: m.original_name,
        name: display,
        original_descriptor: m.original_descriptor,
        descriptor: if is_constructor(m) {
            constructor_descriptor(m.descriptor, class_name)
        } else {
            m.descriptor
        },
        signature: m.signature,
        is_public: m.is_public,
        is_static: m.is_static || is_constructor(m),
    }
}

/// The public methods, in table order.
pub open spec fn public_methods(ms: Seq<MethodModel>) -> Seq<MethodModel>
    decreases ms.len(),
{
    if ms.len() == 0 {
        Seq::empty()
    } else if ms.last().is_public {
        public_methods(ms.drop_last()).push(ms.last())
    } else {
        public_methods(ms.drop_last())
    }
}

pub open spec fn base_names(ms: Seq<MethodModel>) -> Seq<Seq<char>> {
    ms.map_values(|m: MethodModel| base_name(m))
}

/// The methods under their final names, in table order.
pub open spec fn assigned(class_name: Seq<char>, ms: Seq<MethodModel>) -> Seq<MethodModel> {
    Seq::new(ms.len(), |i: int| renamed(ms[i], display_name(base_names(ms), i), class_name))
}

/// The methods a class binds, under their final names.
pub open spec fn bound_methods(c: ClassModel) -> Seq<MethodModel> {
    assigned(c.name, public_methods(c.methods))
}

/// Every bound method can be emitted.
pub open spec fn class_ok(c: ClassModel) -> bool {
    forall|i: int| 0 <= i < bound_methods(c).len() ==> method_ok(#[trigger] bound_methods(c)[i])
}

/// The texts of the first `n` methods.
pub open spec fn methods_text(class_name: Seq<char>, ms: Seq<MethodModel>, n: int) -> Seq<char>
    decreases n,
{
    if n <= 0 {
        Seq::empty()
    } else {
        methods_text(class_name, ms, n - 1) + method_text(class_name, ms[n - 1], snake_case_of(ms[n - 1].name))
    }
}

/// The wrapper type's declaration and its factory.
pub open spec fn header_text(end: Seq<char>) -> Seq<char> {
    "#[derive(Debug)]\npub struct "@ + end + " {\n  pub env: *mut JNIEnv,\n  pub object: jobject\n}"@ + "\n\nimpl "@ + end + " {"@
        + "\n  pub unsafe fn from(env: *mut JNIEnv, object: jobject) -> Self {\n"@ + "    "@ + end + " {\n"@
        + "      env: env,\n      object: object\n    }\n  }\n"@
}

/// The emitted unit for a class: nothing for package metadata, else the
/// wrapper type and the binding of every public method.
pub open spec fn struct_text(c: ClassModel) -> Seq<char> {
    if last_segment(c.name) == package_info() {
        Seq::empty()
    } else {
        let ms = bound_methods(c);
        header_text(sanitized(c.name)) + methods_text(c.name, ms, ms.len() as int) + "\n}"@ + "\n"@
    }
}

pub open spec fn method_models(v: Seq<Method>) -> Seq<MethodModel> {
    v.map_values(|m: Method| m@)
}

/// The public methods of a table, copied in order.
pub fn select_public(methods: &Vec<Method>) -> (r: Vec<Method>)
    ensures
        method_models(r@) == public_methods(method_models(methods@)),
{
    let mut r: Vec<Method> = Vec::new();
    let mut i: usize = 0;
    while i < methods.len()
        invariant
            i <= methods.len(),
            method_models(r@) == public_methods(method_models(methods@.subrange(0, i as int))),
        decreases methods.len() - i,
    {
        let ghost prefix = method_models(methods@.subrange(0, i + 1));
        assert(prefix.drop_last() =~= method_models(methods@.subrange(0, i as int)));
        assert(prefix.last() == methods@[i as int]@);
        if methods[i].is_public {
            let m = methods[i].duplicate();
            assert(method_models(r@.push(m)) =~= method_models(r@).push(m@));
            r.push(m);
        }
        i = i + 1;
    }
    assert(methods@.subrange(0, methods@.len() as int) =~= methods@);
    r
}

fn base_name_exec(m: &Method) -> (r: String)
    ensures
        r@ == base_name(m@),
{
    if m.name == String::from_str("<init>") {
        return String::from_str("new");
    }
    let n = &m.name;
    if *n == String::from_str("type") || *n == String::from_str("match") || *n == String::from_str("override") {
        let mut r = n.clone();
        r.append("_");
        r
    } else {
        n.clone()
    }
}

fn count_before(bases: &Vec<String>, i: usize) -> (r: usize)
    requires
        i < bases.len(),
    ensures
        r == count_in(bases@.map_values(|s: String| s@).subrange(0, i as int), bases@[i as int]@),
        r <= i,
{
    let ghost ns = bases@.map_values(|s: String| s@);
    let mut r: usize = 0;
    let mut j: usize = 0;
    while j < i
        invariant
            j <= i < bases.len(),
            ns == bases@.map_values(|s: String| s@),
            r == count_in(ns.subrange(0, j as int), ns[i as int]),
            r <= j,
        decreases i - j,
    {
        assert(ns.subrange(0, j + 1).drop_last() =~= ns.subrange(0, j as int));
        if bases[j] == bases[i] {
            r = r + 1;
        }
        j = j + 1;
    }
    r
}

/// Gives each method its final display name, in table order: a constructor
/// becomes `new`, static and returning `class_name`; a reserved word gets
/// a trailing `_`; the second and later uses of a name get their use
/// number as a suffix.
pub fn assign_names(class_name: &str, methods: &Vec<Method>) -> (r: Vec<Method>)
    ensures
        method_models(r@) == assigned(class_name@, method_models(methods@)),
{
    let ghost ms = method_models(methods@);
    let mut bases: Vec<String> = Vec::new();
    let mut i: usize = 0;
    while i < methods.len()
        invariant
            i <= methods.len(),
            ms == method_models(methods@),
            bases.len() == i,
            forall|j: int| 0 <= j < i ==> (#[trigger] bases@[j])@ == base_name(ms[j]),
        decreases methods.len() - i,
    {
        bases.push(base_name_exec(&methods[i]));
        i = i + 1;
    }
    let ghost ns = bases@.map_values(|s: String| s@);
    assert(ns =~= base_names(ms));
    let mut r: Vec<Method> = Vec::new();
    let mut i: usize = 0;
    while i < methods.len()
        invariant
            i <= methods.len(),
            ms == method_models(methods@),
            bases.len() == methods.len(),
            ns == bases@.map_values(|s: String| s@),
            ns == base_names(ms),
            r.len() == i,
            forall|j: int| 0 <= j < i ==> (#[trigger] method_models(r@)[j]) == assigned(class_name@, ms)[j],
        decreases methods.len() - i,
    {
        let m = &methods[i];
        let earlier = count_before(&bases, i);
        let reserved: usize = if bases[i] == String::from_str("from") {
            1
        } else {
            0
        };
        let k = earlier + reserved;
        let mut name = bases[i].clone();
        if k != 0 {
            name.append(decimal_string(k as u128 + 1).as_str());
        }
        let is_ctor = m.name == String::from_str("<init>");
        let descriptor = if is_ctor {
            let d = chars_of(m.descriptor.as_str());
            let keep = if d.len() > 0 {
                d.len() - 1
            } else {
                0
            };
            let mut nd = string_of_range(&d, 0, keep);
            proof {
                if d@.len() > 0 {
                    assert(d@.subrange(0, keep as int) =~= d@.drop_last());
                } else {
                    assert(d@.subrange(0, keep as int) =~= d@);
                }
            }
            nd.append("L");
            nd.append(class_name);
            nd
        } else {
            m.descriptor.clone()
        };
        let out = Method {
            original_name: m.original_name.clone(),
            name,
            original_descriptor: m.original_descriptor.clone(),
            descriptor,
            signature: copy_option_string(&m.signature),
            is_public: m.is_public,
            is_static: m.is_static || is_ctor,
        };
        assert(out@ == assigned(class_name@, ms)[i as int]);
        assert(method_models(r@.push(out)) =~= method_models(r@).push(out@));
        r.push(out);
        i = i + 1;
    }
    assert(method_models(r@) =~= assigned(class_name@, ms));
    r
}

/// Whether a method can be emitted: its descriptor decodes, and an optional
/// return comes with a signature that names its payload.
pub fn is_bindable(m: &Method) -> (r: bool)
    ensures
        r == method_ok(m@),
{
    let d = chars_of(m.descriptor.as_str());
    match descriptor_types_checked(&d) {
        None => false,
        Some((_, ret)) => match ret {
            TypeValue::OptionalRef => match &m.signature {
                None => false,
                Some(s) => {
                    let cs = chars_of(s.as_str());
                    match optional_payload_exec(&cs) {
                        None => false,
                        Some(TypeValue::Void) => false,
                        Some(_) => true,
                    }
                },
            },
            _ => true,
        },
    }
}

/// The original name of the first bound method that cannot be emitted, if
/// any; `None` exactly when the whole class can be emitted.
pub fn first_unbindable(class: &Class) -> (r: Option<String>)
    ensures
        r is None <==> class_ok(class@),
        r matches Some(n) ==> exists|i: int|
            0 <= i < bound_methods(class@).len() && !method_ok(#[trigger] bound_methods(class@)[i])
                && bound_methods(class@)[i].original_name == n@,
{
    let public = select_public(&class.methods);
    let ms = assign_names(class.name.as_str(), &public);
    assert(method_models(ms@) == bound_methods(class@));
    let mut i: usize = 0;
    while i < ms.len()
        invariant
            i <= ms.len(),
            method_models(ms@) == bound_methods(class@),
            forall|j: int| 0 <= j < i ==> method_ok(#[trigger] bound_methods(class@)[j]),
        decreases ms.len() - i,
    {
        if !is_bindable(&ms[i]) {
            assert(bound_methods(class@)[i as int] == ms@[i as int]@);
            return Some(ms[i].original_name.clone());
        }
        assert(bound_methods(class@)[i as int] == ms@[i as int]@);
        i = i + 1;
    }
    None
}

/// The source text for one class: nothing for a package-metadata unit;
/// otherwise the wrapper type with its two handles, its factory `from`, and
/// one binding or stub per public method in table order.
pub fn create_struct(class: Class) -> (r: String)
    requires
        class_ok(class@),
    ensures
        r@ == struct_text(class@),
{
    let name_chars = chars_of(class.name.as_str());
    let short = last_segment_exec(&name_chars);
    if equals_str(&short, "package-info") {
        return String::new();
    }
    let end = sanitize_class_name(class.name.as_str());
    let mut r = String::from_str("#[derive(Debug)]\npub struct ");
    r.append(end.as_str());
    r.append(" {\n  pub env: *mut JNIEnv,\n  pub object: jobject\n}");
    r.append("\n\nimpl ");
    r.append(end.as_str());
    r.append(" {");
    r.append("\n  pub unsafe fn from(env: *mut JNIEnv, object: jobject) -> Self {\n");
    r.append("    ");
    r.append(end.as_str());
    r.append(" {\n");
    r.append("      env: env,\n      object: object\n    }\n  }\n");
    let public = select_public(&class.methods);
    let ms = assign_names(class.name.as_str(), &public);
    let ghost bound = bound_methods(class@);
    assert(method_models(ms@) == bound);
    let ghost head = r@;
    assert(head == header_text(sanitized(class@.name)));
    let mut i: usize = 0;
    while i < ms.len()
        invariant
            i <= ms.len(),
            method_models(ms@) == bound,
            bound == bound_methods(class@),
            class_ok(class@),
            head == header_text(sanitized(class@.name)),
            last_segment(class@.name) != package_info(),
            r@ == head + methods_text(class@.name, bound, i as int),
        decreases ms.len() - i,
    {
        assert(bound[i as int] == ms@[i as int]@);
        assert(method_ok(bound[i as int]));
        let text = create_method(class.name.as_str(), &ms[i]);
        r.append(text.as_str());
        proof {
            assert(head + methods_text(class@.name, bound, i + 1) =~= head + methods_text(
                class@.name,
                bound,
                i as int,
            ) + method_text(class@.name, bound[i as int], snake_case_of(bound[i as int].name)));
        }
        i = i + 1;
    }
    r.append("\n}");
    r.append("\n");
    r
}

} // verus!
