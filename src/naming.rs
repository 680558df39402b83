//! The bound API namespace, identifier sanitizing, and the object-reference policy.
use vstd::prelude::*;
use crate::text::{chars_of, contains, find_exec, occurs_at_exec, starts_with};
use crate::types::{opaque_name, JType, TypeValue};

verus! {

/// Names under this prefix get strongly-typed wrappers.
pub open spec fn api_prefix() -> Seq<char> {
    "org/spongepowered/api"@
}

/// The prefix stripped from a name when it is sanitized.
pub open spec fn api_dir() -> Seq<char> {
    "org/spongepowered/api/"@
}

/// Names holding this marker always stay opaque handles.
pub open spec fn internal_marker() -> Seq<char> {
    "gencore"@
}

/// The host's "may be absent" type.
pub open spec fn optional_class() -> Seq<char> {
    "java/util/Optional"@
}

/// The name lies inside the bound API namespace.
pub open spec fn in_api(name: Seq<char>) -> bool {
    starts_with(name, api_prefix())
}

/// `s` with every path and nested-type separator replaced by `_`.
pub open spec fn underscored(s: Seq<char>) -> Seq<char> {
    s.map_values(|c: char| if c == '/' || c == '$' { '_' } else { c })
}

/// `name` without the namespace directory in front, if it is there.
pub open spec fn strip_api_dir(name: Seq<char>) -> Seq<char> {
    if starts_with(name, api_dir()) {
        name.skip(api_dir().len() as int)
    } else {
        name
    }
}

/// The flat identifier for a fully-qualified class name.
pub open spec fn sanitized(name: Seq<char>) -> Seq<char> {
    if contains(name, internal_marker()) {
        opaque_name()
    } else {
        underscored(strip_api_dir(name))
    }
}

/// The type that an object reference to `name` decodes to.
pub open spec fn object_type(name: Seq<char>) -> JType {
    if in_api(name) && !contains(name, internal_marker()) {
        JType::ObjectRef(sanitized(name))
    } else if !in_api(name) && name == optional_class() {
        JType::OptionalRef
    } else {
        JType::Opaque
    }
}

fn underscored_range(s: &Vec<char>, start: usize, end: usize) -> (r: String)
    requires
        start <= end <= s.len(),
    ensures
        r@ == underscored(s@.subrange(start as int, end as int)),
{
    let mut r = String::new();
    let mut i = start;
    while i < end
        invariant
            start <= i <= end <= s.len(),
            r@ == underscored(s@.subrange(start as int, i as int)),
        decreases end - i,
    {
        let c = s[i];
        if c == '/' || c == '$' {
            r.push('_');
        } else {
            r.push(c);
        }
        proof {
            assert(underscored(s@.subrange(start as int, i + 1)) =~= underscored(
                s@.subrange(start as int, i as int),
            ).push(if c == '/' || c == '$' { '_' } else { c }));
        }
        i = i + 1;
    }
    r
}

/// What inflector's snake-case conversion makes of a name.
pub uninterp spec fn snake_case_of(s: Seq<char>) -> Seq<char>;

/// Relies on inflector's `to_snake_case`, which depends on the characters of
/// its argument alone and does not panic.
#[verifier::external_body]
pub(crate) fn snake_case(s: &str) -> (r: String)
    ensures
        r@ == snake_case_of(s@),
{
    inflector::cases::snakecase::to_snake_case(s)
}

/// The sanitized identifier for the name held in `s`.
pub fn sanitize_chars(s: &Vec<char>) -> (r: String)
    ensures
        r@ == sanitized(s@),
{
    if find_exec(s, "gencore", 0).is_some() {
        return String::from_str("jobject");
    }
    let dir = "org/spongepowered/api/";
    if occurs_at_exec(s, 0, dir) {
        let r = underscored_range(s, dir.unicode_len(), s.len());
        proof {
            assert(s@.subrange(dir@.len() as int, s@.len() as int) =~= s@.skip(dir@.len() as int));
        }
        r
    } else {
        let r = underscored_range(s, 0, s.len());
        proof {
            assert(s@.subrange(0, s@.len() as int) =~= s@);
        }
        r
    }
}

/// Maps a fully-qualified class name to a flat identifier: the namespace
/// directory is dropped and separators become `_`; a name holding the
/// internal marker becomes the opaque handle type instead.
pub fn sanitize_class_name(class_name: &str) -> (r: String)
    ensures
        r@ == sanitized(class_name@),
{
    let s = chars_of(class_name);
    sanitize_chars(&s)
}

/// The decoded type of an object reference to the name held in `s`.
pub fn object_type_of(s: &Vec<char>) -> (r: TypeValue)
    ensures
        r@ == object_type(s@),
{
    let in_api = occurs_at_exec(s, 0, "org/spongepowered/api");
    if in_api && find_exec(s, "gencore", 0).is_none() {
        TypeValue::ObjectRef(sanitize_chars(s))
    } else if !in_api && equals_str(s, "java/util/Optional") {
        TypeValue::OptionalRef
    } else {
        TypeValue::Opaque
    }
}

/// Whether `s` holds exactly the characters of `p`.
pub fn equals_str(s: &Vec<char>, p: &str) -> (r: bool)
    ensures
        r == (s@ == p@),
{
    if s.len() != p.unicode_len() {
        return false;
    }
    let r = occurs_at_exec(s, 0, p);
    proof {
        if r {
            assert(s@.subrange(0, s@.len() as int) =~= s@);
        } else {
            assert(s@.subrange(0, p@.len() as int) =~= s@);
        }
    }
    r
}

} // verus!
