//! Emits the binding source text: a signature per method, the foreign call
//! with its result handling, or an explicit stub.
use vstd::prelude::*;
use crate::descriptor::{descriptor_ok, descriptor_params, descriptor_return, descriptor_types, models};
use crate::dispatch::{entry_point, DispatchVariant, ReturnCategory};
use crate::model::{opt_chars, Method, MethodModel};
use crate::naming::{snake_case, snake_case_of};
use crate::signature::{optional_payload, optional_payload_exec, payload_ok};
use crate::text::{chars_of, decimal, decimal_string};
use crate::types::{param_target_name, target_name, JType, Primitive, TypeValue};

verus! {

/// The descriptor decodes, and an optional return comes with a signature
/// that names its payload.
pub open spec fn signature_ok(descriptor: Seq<char>, signature: Option<Seq<char>>) -> bool {
    &&& descriptor_ok(descriptor)
    &&& descriptor_return(descriptor)->0 is OptionalRef ==> (signature matches Some(s) && payload_ok(s))
}

/// A method the generator can emit a binding or a stub for.
pub open spec fn method_ok(m: MethodModel) -> bool {
    signature_ok(m.descriptor, m.signature)
}

/// The receiver slot of a binding's parameter list.
pub open spec fn receiver_text(is_static: bool) -> Seq<char> {
    if is_static {
        "env: *mut JNIEnv"@
    } else {
        "&self"@
    }
}

/// `, param_1: T1, ..., param_n: Tn` for the first `n` parameter types.
pub open spec fn param_entries(ts: Seq<JType>, n: int) -> Seq<char>
    decreases n,
{
    if n <= 0 {
        Seq::empty()
    } else {
        param_entries(ts, n - 1) + ", param_"@ + decimal(n as nat) + ": "@ + param_target_name(ts[n - 1])
    }
}

/// The binding's return type; `None` for a void method. An optional
/// return names its payload from the signature.
pub open spec fn return_text(descriptor: Seq<char>, signature: Option<Seq<char>>) -> Option<Seq<char>> {
    let t = descriptor_return(descriptor)->0;
    if t is Void {
        None
    } else if t is OptionalRef {
        Some("Option<"@ + target_name(optional_payload(signature->0)->0) + ">"@)
    } else {
        Some(target_name(t))
    }
}

/// The binding's parameter list and return type, as emitted.
pub open spec fn params_text(descriptor: Seq<char>, signature: Option<Seq<char>>, is_static: bool) -> Seq<char> {
    let ts = descriptor_params(descriptor)->0;
    "("@ + receiver_text(is_static) + param_entries(ts, ts.len() as int) + ")"@ + match return_text(
        descriptor,
        signature,
    ) {
        Some(rt) => " -> "@ + rt,
        None => Seq::empty(),
    }
}

/// The method cannot be bound: an array parameter, or an array return,
/// which has no foreign-call entry point.
pub open spec fn is_stub(m: MethodModel) -> bool {
    let ts = descriptor_params(m.descriptor)->0;
    ||| exists|i: int| 0 <= i < ts.len() && (#[trigger] ts[i]) is ArrayOf
    ||| descriptor_return(m.descriptor)->0 is ArrayOf
}

/// The return category of a decoded return type.
pub open spec fn category_of(t: JType) -> ReturnCategory {
    match t {
        JType::Primitive(Primitive::Byte) => ReturnCategory::Byte,
        JType::Primitive(Primitive::Char) => ReturnCategory::Char,
        JType::Primitive(Primitive::Double) => ReturnCategory::Double,
        JType::Primitive(Primitive::Float) => ReturnCategory::Float,
        JType::Primitive(Primitive::Int) => ReturnCategory::Int,
        JType::Primitive(Primitive::Long) => ReturnCategory::Long,
        JType::Primitive(Primitive::Short) => ReturnCategory::Short,
        JType::Primitive(Primitive::Boolean) => ReturnCategory::Boolean,
        JType::Void => ReturnCategory::Void,
        _ => ReturnCategory::Object,
    }
}

/// `self.` for an instance binding, nothing for a static one.
pub open spec fn self_prefix(is_static: bool) -> Seq<char> {
    if is_static {
        Seq::empty()
    } else {
        "self."@
    }
}

/// What the call is made on: the class by name, or the receiver's handle.
pub open spec fn caller_text(class_name: Seq<char>, is_static: bool) -> Seq<char> {
    if is_static {
        "\""@ + class_name + "\""@
    } else {
        "self.object"@
    }
}

/// `, param_1, ..., param_n`; a wrapper argument passes its handle.
pub open spec fn arg_entries(ts: Seq<JType>, n: int) -> Seq<char>
    decreases n,
{
    if n <= 0 {
        Seq::empty()
    } else {
        arg_entries(ts, n - 1) + ", param_"@ + decimal(n as nat) + if ts[n - 1] is ObjectRef {
            ".object"@
        } else {
            Seq::empty()
        }
    }
}

/// What follows the call: booleans compare with the true value, characters
/// go through a byte (lossy beyond ASCII), and statements are closed.
pub open spec fn result_suffix(k: ReturnCategory) -> Seq<char> {
    match k {
        ReturnCategory::Boolean => " == 1"@,
        ReturnCategory::Char => " as u8 as char"@,
        ReturnCategory::Void => ";"@,
        ReturnCategory::Object => ";"@,
        _ => Seq::empty(),
    }
}

/// The foreign call, made with the original name and descriptor.
pub open spec fn call_line(class_name: Seq<char>, m: MethodModel, k: ReturnCategory, ts: Seq<JType>) -> Seq<char> {
    (if k is Object {
        "let ret = "@
    } else {
        Seq::empty()
    }) + (if m.is_static {
        "static_"@
    } else {
        Seq::empty()
    }) + "java_method!("@ + self_prefix(m.is_static) + "env, "@ + caller_text(class_name, m.is_static)
        + ", \""@ + m.original_name + "\", \""@ + m.original_descriptor + "\", "@ + entry_point(
        k,
        ts.len() > 0,
        m.is_static,
    ) + arg_entries(ts, ts.len() as int) + ")"@ + result_suffix(k) + "\n"@
}

/// The fatal check of an object result, naming the class and the method.
pub open spec fn null_check(class_name: Seq<char>, original_name: Seq<char>) -> Seq<char> {
    "    if ret.is_null() { panic!(\""@ + class_name + "#"@ + original_name + " was null\") }\n"@
}

/// The present branch of an optional result.
pub open spec fn present_text(p: JType, is_static: bool) -> Seq<char> {
    if p is Opaque || p is TypeVariable {
        "Some(unwrapped) }\n"@
    } else {
        "Some("@ + target_name(p) + " { env: "@ + self_prefix(is_static) + "env, object: unwrapped }) }\n"@
    }
}

/// How a non-null object result is handed back.
pub open spec fn wrap_result(t: JType, m: MethodModel) -> Seq<char> {
    match t {
        JType::OptionalRef => "    let unwrapped = java_method!("@ + self_prefix(m.is_static)
            + "env, ret, \"orElse\", \"(Ljava/lang/Object;)Ljava/lang/Object;\", CallObjectMethodA, ::std::ptr::null() as *const jobject);"@
            + "\n    if unwrapped.is_null() { None } else { "@ + present_text(
            optional_payload(m.signature->0)->0,
            m.is_static,
        ),
        JType::ObjectRef(n) => "    "@ + n + " { env: "@ + self_prefix(m.is_static) + "env, object: ret }\n"@,
        _ => "    ret\n"@,
    }
}

/// The body of a bound method, after its opening line.
pub open spec fn body_text(class_name: Seq<char>, m: MethodModel) -> Seq<char> {
    let t = descriptor_return(m.descriptor)->0;
    let k = category_of(t);
    call_line(class_name, m, k, descriptor_params(m.descriptor)->0) + (if k is Object {
        null_check(class_name, m.original_name) + wrap_result(t, m)
    } else {
        Seq::empty()
    }) + "  }\n"@
}

/// The emitted text of one method, under the function name `fn_name`.
pub open spec fn method_text(class_name: Seq<char>, m: MethodModel, fn_name: Seq<char>) -> Seq<char> {
    "\n  pub fn "@ + fn_name + params_text(m.descriptor, m.signature, m.is_static) + " {\n"@ + "    "@ + if is_stub(m) {
        "unimplemented!();\n  }"@
    } else {
        body_text(class_name, m)
    }
}

/// Appends `, param_i: T` for each of the given types.
fn append_param_entries(r: &mut String, types: &Vec<TypeValue>)
    ensures
        final(r)@ == old(r)@ + param_entries(models(types@), types@.len() as int),
{
    let ghost start = r@;
    let ghost ts = models(types@);
    let mut i: usize = 0;
    while i < types.len()
        invariant
            i <= types.len(),
            ts == models(types@),
            r@ == start + param_entries(ts, i as int),
        decreases types.len() - i,
    {
        r.append(", param_");
        let num = decimal_string(i as u128 + 1);
        r.append(num.as_str());
        r.append(": ");
        let name = types[i].param_target_name();
        r.append(name.as_str());
        proof {
            assert(start + param_entries(ts, i + 1) =~= start + param_entries(ts, i as int) + ", param_"@
                + decimal((i + 1) as nat) + ": "@ + param_target_name(ts[i as int]));
        }
        i = i + 1;
    }
}

/// The binding's parameter list and return type for decoded types.
fn params_from_types(types: &Vec<TypeValue>, ret: &TypeValue, signature: &Option<String>, is_static: bool, Ghost(descriptor): Ghost<Seq<char>>) -> (r: String)
    requires
        signature_ok(descriptor, opt_chars(*signature)),
        descriptor_params(descriptor) == Some(models(types@)),
        descriptor_return(descriptor) == Some(ret@),
    ensures
        r@ == params_text(descriptor, opt_chars(*signature), is_static),
{
    let mut r = String::from_str("(");
    if is_static {
        r.append("env: *mut JNIEnv");
    } else {
        r.append("&self");
    }
    append_param_entries(&mut r, types);
    r.append(")");
    let ghost before = r@;
    match ret {
        TypeValue::Void => {
            assert(r@ + Seq::<char>::empty() =~= r@);
        },
        TypeValue::OptionalRef => {
            r.append(" -> ");
            let payload = match signature {
                Some(s) => {
                    let cs = chars_of(s.as_str());
                    match optional_payload_exec(&cs) {
                        Some(p) => p,
                        None => TypeValue::Opaque,
                    }
                },
                None => TypeValue::Opaque,
            };
            let mut rt = String::from_str("Option<");
            let pn = payload.target_name();
            rt.append(pn.as_str());
            rt.append(">");
            r.append(rt.as_str());
        },
        _ => {
            r.append(" -> ");
            let rt = ret.target_name();
            r.append(rt.as_str());
        },
    }
    r
}

/// The binding's parameter list, from `(` to the return type: the receiver
/// (an environment handle for a static method, `&self` otherwise), one
/// typed parameter per decoded descriptor parameter, and the return type
/// unless the method is void.
pub fn create_params(descriptor: &str, signature: Option<String>, is_static: bool) -> (r: String)
    requires
        signature_ok(descriptor@, opt_chars(signature)),
    ensures
        r@ == params_text(descriptor@, opt_chars(signature), is_static),
{
    let d = chars_of(descriptor);
    let (types, ret) = descriptor_types(&d);
    params_from_types(&types, &ret, &signature, is_static, Ghost(descriptor@))
}

fn category(t: &TypeValue) -> (r: ReturnCategory)
    ensures
        r == category_of(t@),
{
    match t {
        TypeValue::Primitive(Primitive::Byte) => ReturnCategory::Byte,
        TypeValue::Primitive(Primitive::Char) => ReturnCategory::Char,
        TypeValue::Primitive(Primitive::Double) => ReturnCategory::Double,
        TypeValue::Primitive(Primitive::Float) => ReturnCategory::Float,
        TypeValue::Primitive(Primitive::Int) => ReturnCategory::Int,
        TypeValue::Primitive(Primitive::Long) => ReturnCategory::Long,
        TypeValue::Primitive(Primitive::Short) => ReturnCategory::Short,
        TypeValue::Primitive(Primitive::Boolean) => ReturnCategory::Boolean,
        TypeValue::Void => ReturnCategory::Void,
        _ => ReturnCategory::Object,
    }
}

fn has_array(types: &Vec<TypeValue>) -> (r: bool)
    ensures
        r == exists|i: int| 0 <= i < types@.len() && (#[trigger] models(types@)[i]) is ArrayOf,
{
    let mut i: usize = 0;
    while i < types.len()
        invariant
            i <= types.len(),
            forall|j: int| 0 <= j < i ==> !((#[trigger] models(types@)[j]) is ArrayOf),
        decreases types.len() - i,
    {
        match &types[i] {
            TypeValue::ArrayOf(_) => {
                assert(models(types@)[i as int] is ArrayOf);
                return true;
            },
            _ => {},
        }
        i = i + 1;
    }
    false
}

fn arg_entries_exec(types: &Vec<TypeValue>) -> (r: String)
    ensures
        r@ == arg_entries(models(types@), types@.len() as int),
{
    let ghost ts = models(types@);
    let mut r = String::new();
    let mut i: usize = 0;
    while i < types.len()
        invariant
            i <= types.len(),
            ts == models(types@),
            r@ == arg_entries(ts, i as int),
        decreases types.len() - i,
    {
        r.append(", param_");
        let num = decimal_string(i as u128 + 1);
        r.append(num.as_str());
        let handle = match &types[i] {
            TypeValue::ObjectRef(_) => String::from_str(".object"),
            _ => String::new(),
        };
        r.append(handle.as_str());
        i = i + 1;
    }
    r
}

fn self_prefix_exec(is_static: bool) -> (r: String)
    ensures
        r@ == self_prefix(is_static),
{
    if is_static {
        String::new()
    } else {
        String::from_str("self.")
    }
}

fn call_line_exec(class_name: &str, m: &Method, k: ReturnCategory, types: &Vec<TypeValue>) -> (r: String)
    ensures
        r@ == call_line(class_name@, m@, k, models(types@)),
{
    let st = m.is_static;
    let mut r = if k == ReturnCategory::Object {
        String::from_str("let ret = ")
    } else {
        String::new()
    };
    let macro_prefix = if st {
        String::from_str("static_")
    } else {
        String::new()
    };
    r.append(macro_prefix.as_str());
    r.append("java_method!(");
    r.append(self_prefix_exec(st).as_str());
    r.append("env, ");
    let caller = if st {
        let mut c = String::from_str("\"");
        c.append(class_name);
        c.append("\"");
        c
    } else {
        String::from_str("self.object")
    };
    r.append(caller.as_str());
    r.append(", \"");
    r.append(m.original_name.as_str());
    r.append("\", \"");
    r.append(m.original_descriptor.as_str());
    r.append("\", ");
    let variant = DispatchVariant::Call { category: k, indexed: types.len() > 0, is_static: st };
    r.append(variant.entry_point_name().as_str());
    r.append(arg_entries_exec(types).as_str());
    r.append(")");
    let suffix = match k {
        ReturnCategory::Boolean => String::from_str(" == 1"),
        ReturnCategory::Char => String::from_str(" as u8 as char"),
        ReturnCategory::Void => String::from_str(";"),
        ReturnCategory::Object => String::from_str(";"),
        _ => String::new(),
    };
    r.append(suffix.as_str());
    r.append("\n");
    r
}

fn wrap_result_exec(ret: &TypeValue, m: &Method) -> (r: String)
    requires
        method_ok(m@),
        descriptor_return(m.descriptor@) == Some(ret@),
    ensures
        r@ == wrap_result(ret@, m@),
{
    let st = m.is_static;
    match ret {
        TypeValue::OptionalRef => {
            let mut r = String::from_str("    let unwrapped = java_method!(");
            r.append(self_prefix_exec(st).as_str());
            r.append(
                "env, ret, \"orElse\", \"(Ljava/lang/Object;)Ljava/lang/Object;\", CallObjectMethodA, ::std::ptr::null() as *const jobject);",
            );
            r.append("\n    if unwrapped.is_null() { None } else { ");
            let payload = match &m.signature {
                Some(s) => {
                    let cs = chars_of(s.as_str());
                    match optional_payload_exec(&cs) {
                        Some(p) => p,
                        None => TypeValue::Opaque,
                    }
                },
                None => TypeValue::Opaque,
            };
            let present = match payload {
                TypeValue::Opaque => String::from_str("Some(unwrapped) }\n"),
                TypeValue::TypeVariable => String::from_str("Some(unwrapped) }\n"),
                _ => {
                    let mut p = String::from_str("Some(");
                    p.append(payload.target_name().as_str());
                    p.append(" { env: ");
                    p.append(self_prefix_exec(st).as_str());
                    p.append("env, object: unwrapped }) }\n");
                    p
                },
            };
            r.append(present.as_str());
            r
        },
        TypeValue::ObjectRef(n) => {
            let mut r = String::from_str("    ");
            r.append(n.as_str());
            r.append(" { env: ");
            r.append(self_prefix_exec(st).as_str());
            r.append("env, object: ret }\n");
            r
        },
        _ => String::from_str("    ret\n"),
    }
}

/// The emitted text of one method under the function name `fn_name`: its
/// signature, then either an explicit stub (an array parameter or an array
/// return) or the foreign call with its result handling.
pub fn render_method(class_name: &str, method: &Method, fn_name: &str) -> (r: String)
    requires
        method_ok(method@),
    ensures
        r@ == method_text(class_name@, method@, fn_name@),
{
    let d = chars_of(method.descriptor.as_str());
    let (types, ret) = descriptor_types(&d);
    let mut r = String::from_str("\n  pub fn ");
    r.append(fn_name);
    let params = params_from_types(&types, &ret, &method.signature, method.is_static, Ghost(method.descriptor@));
    r.append(params.as_str());
    r.append(" {\n");
    r.append("    ");
    let array_return = match &ret {
        TypeValue::ArrayOf(_) => true,
        _ => false,
    };
    if has_array(&types) || array_return {
        r.append("unimplemented!();\n  }");
        return r;
    }
    let k = category(&ret);
    let mut body = call_line_exec(class_name, method, k, &types);
    let tail = if k == ReturnCategory::Object {
        let mut t = String::from_str("    if ret.is_null() { panic!(\"");
        t.append(class_name);
        t.append("#");
        t.append(method.original_name.as_str());
        t.append(" was null\") }\n");
        t.append(wrap_result_exec(&ret, method).as_str());
        t
    } else {
        String::new()
    };
    body.append(tail.as_str());
    body.append("  }\n");
    r.append(body.as_str());
    r
}

/// The emitted text of one method, under the snake-case form of its
/// display name.
pub fn create_method(class_name: &str, method: &Method) -> (r: String)
    requires
        method_ok(method@),
    ensures
        r@ == method_text(class_name@, method@, snake_case_of(method.name@)),
{
    let fn_name = snake_case(method.name.as_str());
    render_method(class_name, method, fn_name.as_str())
}

} // verus!
