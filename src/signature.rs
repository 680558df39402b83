//! Resolves the payload of the "may be absent" convention from a generic signature.
use vstd::prelude::*;
use crate::descriptor::{decode_return, decode_return_exec};
use crate::text::{char_or_end, char_or_end_exec, chars_of, find_exec, find_from, lemma_find_bounds, subvec};
use crate::types::{target_name, JType, TypeValue};

verus! {

/// The generic marker that opens the payload of an optional return.
pub open spec fn optional_marker() -> Seq<char> {
    "Optional<"@
}

/// The type argument of the first `Optional<...>` in a signature: the text
/// up to the first `>`, cut before a `<` of its own so that the argument's
/// own type parameters are dropped.
pub open spec fn optional_argument(sig: Seq<char>) -> Option<Seq<char>> {
    match find_from(sig, optional_marker(), 0) {
        None => None,
        Some(i) => {
            let start = i + optional_marker().len();
            let inner = sig.subrange(start, char_or_end(sig, '>', start));
            Some(inner.subrange(0, char_or_end(inner, '<', 0)))
        },
    }
}

/// The decoded payload: a covariant bound `+` is dropped, and the wildcard
/// `*` is an opaque handle.
pub open spec fn optional_payload(sig: Seq<char>) -> Option<JType> {
    match optional_argument(sig) {
        None => None,
        Some(a) => if a.len() > 0 && a[0] == '+' {
            decode_return(a.drop_first())
        } else if a == seq!['*'] {
            Some(JType::Opaque)
        } else {
            decode_return(a)
        },
    }
}

/// The signature names an optional payload that is a value type.
pub open spec fn payload_ok(sig: Seq<char>) -> bool {
    optional_payload(sig) matches Some(t) && !(t is Void)
}

/// The payload type of the first optional in the signature held in `s`.
pub fn optional_payload_exec(s: &Vec<char>) -> (r: Option<TypeValue>)
    ensures
        r is None <==> optional_payload(s@) is None,
        r matches Some(t) ==> optional_payload(s@) == Some(t@),
{
    let marker = "Optional<";
    proof {
        lemma_find_bounds(s@, marker@, 0);
    }
    let i = match find_exec(s, marker, 0) {
        Some(i) => i,
        None => {
            return None;
        },
    };
    let n = marker.unicode_len();
    assert(i + n <= s.len());
    let start = i + n;
    let close = char_or_end_exec(s, '>', start);
    let inner = subvec(s, start, close);
    let cut = char_or_end_exec(&inner, '<', 0);
    let arg = subvec(&inner, 0, cut);
    assert(optional_argument(s@) == Some(arg@));
    if arg.len() > 0 && arg[0] == '+' {
        let rest = subvec(&arg, 1, arg.len());
        assert(rest@ =~= arg@.drop_first());
        decode_return_exec(&rest)
    } else if arg.len() == 1 && arg[0] == '*' {
        assert(arg@ =~= seq!['*']);
        Some(TypeValue::Opaque)
    } else {
        assert(arg@ != seq!['*']);
        decode_return_exec(&arg)
    }
}

/// The target-language type of the payload of the first `Optional<...>`
/// in a generic signature.
pub fn get_optional_return_type(signature: String) -> (r: String)
    requires
        payload_ok(signature@),
    ensures
        r@ == target_name(optional_payload(signature@)->0),
{
    let s = chars_of(signature.as_str());
    match optional_payload_exec(&s) {
        Some(t) => t.target_name(),
        None => String::new(),
    }
}

} // verus!
