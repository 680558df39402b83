//! The type-descriptor grammar: `B C D F I J S Z`, `V`, `[`, `L<name>;` and `T<name>;`.
use vstd::prelude::*;
use crate::naming::{object_type, object_type_of};
use crate::text::{char_or_end, char_or_end_exec, chars_of, find_char_from, lemma_find_char_bounds, subvec};
use crate::types::{param_target_name, primitive_from_code, primitive_of, target_name, JType, TypeValue};

verus! {

/// Decodes one type fragment starting at `pos`; gives the type and the
/// index just past the fragment. The name of an object reference runs to
/// the next `;` or to the end of `s`.
pub open spec fn decode_field(s: Seq<char>, pos: int) -> Option<(JType, int)>
    decreases s.len() - pos,
{
    if pos < 0 || pos >= s.len() {
        None
    } else if primitive_of(s[pos]) is Some {
        Some((JType::Primitive(primitive_of(s[pos])->0), pos + 1))
    } else if s[pos] == 'L' || s[pos] == 'T' {
        let e = char_or_end(s, ';', pos + 1);
        let next = if e < s.len() { e + 1 } else { e };
        if s[pos] == 'L' {
            Some((object_type(s.subrange(pos + 1, e)), next))
        } else {
            Some((JType::TypeVariable, next))
        }
    } else if s[pos] == '[' {
        match decode_field(s, pos + 1) {
            Some((t, next)) => Some((JType::ArrayOf(Box::new(t)), next)),
            None => None,
        }
    } else {
        None
    }
}

/// Decodes the parameter list `s[pos..]`, fragment after fragment.
pub open spec fn decode_params(s: Seq<char>, pos: int) -> Option<Seq<JType>>
    decreases s.len() - pos,
{
    if pos >= s.len() {
        Some(Seq::empty())
    } else {
        match decode_field(s, pos) {
            Some((t, next)) => if next <= pos || next > s.len() {
                None
            } else {
                match decode_params(s, next) {
                    Some(rest) => Some(seq![t] + rest),
                    None => None,
                }
            },
            None => None,
        }
    }
}

/// Decodes a whole return fragment: `V`, or exactly one type.
pub open spec fn decode_return(s: Seq<char>) -> Option<JType> {
    if s.len() == 1 && s[0] == 'V' {
        Some(JType::Void)
    } else {
        match decode_field(s, 0) {
            Some((t, next)) => if next == s.len() {
                Some(t)
            } else {
                None
            },
            None => None,
        }
    }
}

/// A descriptor opens with `(` and closes its parameter list with `)`.
pub open spec fn descriptor_shaped(d: Seq<char>) -> bool {
    d.len() >= 1 && d[0] == '(' && find_char_from(d, ')', 1) is Some
}

/// The text between `(` and the first `)`.
pub open spec fn params_part(d: Seq<char>) -> Seq<char> {
    d.subrange(1, char_or_end(d, ')', 1))
}

/// The text after the first `)`.
pub open spec fn return_part(d: Seq<char>) -> Seq<char> {
    d.subrange(char_or_end(d, ')', 1) + 1, d.len() as int)
}

/// The decoded parameter types of a descriptor.
pub open spec fn descriptor_params(d: Seq<char>) -> Option<Seq<JType>> {
    if descriptor_shaped(d) {
        decode_params(params_part(d), 0)
    } else {
        None
    }
}

/// The decoded return type of a descriptor.
pub open spec fn descriptor_return(d: Seq<char>) -> Option<JType> {
    if descriptor_shaped(d) {
        decode_return(return_part(d))
    } else {
        None
    }
}

/// Both halves of the descriptor decode.
pub open spec fn descriptor_ok(d: Seq<char>) -> bool {
    descriptor_params(d) is Some && descriptor_return(d) is Some
}

/// The models of a sequence of decoded types.
pub open spec fn models(v: Seq<TypeValue>) -> Seq<JType> {
    v.map_values(|t: TypeValue| t@)
}

pub proof fn lemma_decode_field_advances(s: Seq<char>, pos: int)
    ensures
        decode_field(s, pos) matches Some((t, next)) ==> pos < next <= s.len(),
    decreases s.len() - pos,
{
    if 0 <= pos < s.len() {
        lemma_find_char_bounds(s, ';', pos + 1);
        if s[pos] == '[' {
            lemma_decode_field_advances(s, pos + 1);
        }
    }
}

/// Decodes the fragment of `s` that starts at `pos`.
pub fn decode_field_exec(s: &Vec<char>, pos: usize) -> (r: Option<(TypeValue, usize)>)
    ensures
        r is None <==> decode_field(s@, pos as int) is None,
        r matches Some((t, next)) ==> decode_field(s@, pos as int) == Some((t@, next as int)),
    decreases s.len() - pos,
{
    if pos >= s.len() {
        return None;
    }
    let c = s[pos];
    match primitive_from_code(c) {
        Some(k) => {
            return Some((TypeValue::Primitive(k), pos + 1));
        },
        None => {},
    }
    if c == 'L' || c == 'T' {
        let e = char_or_end_exec(s, ';', pos + 1);
        let next = if e < s.len() { e + 1 } else { e };
        if c == 'L' {
            let name = subvec(s, pos + 1, e);
            Some((object_type_of(&name), next))
        } else {
            Some((TypeValue::TypeVariable, next))
        }
    } else if c == '[' {
        match decode_field_exec(s, pos + 1) {
            Some((t, next)) => Some((TypeValue::ArrayOf(Box::new(t)), next)),
            None => None,
        }
    } else {
        None
    }
}

/// Decodes the parameter list held in `s`.
pub fn decode_params_exec(s: &Vec<char>) -> (r: Option<Vec<TypeValue>>)
    ensures
        r is None <==> decode_params(s@, 0) is None,
        r matches Some(v) ==> decode_params(s@, 0) == Some(models(v@)),
{
    let mut acc: Vec<TypeValue> = Vec::new();
    let mut pos: usize = 0;
    while pos < s.len()
        invariant
            pos <= s.len(),
            decode_params(s@, 0) == match decode_params(s@, pos as int) {
                Some(rest) => Some(models(acc@) + rest),
                None => None::<Seq<JType>>,
            },
        decreases s.len() - pos,
    {
        proof {
            lemma_decode_field_advances(s@, pos as int);
        }
        match decode_field_exec(s, pos) {
            Some((t, next)) => {
                proof {
                    let ghost tm = t@;
                    match decode_params(s@, next as int) {
                        Some(rest) => {
                            assert(models(acc@.push(t)) =~= models(acc@).push(tm));
                            assert(models(acc@) + (seq![tm] + rest) =~= models(acc@).push(tm) + rest);
                        },
                        None => {},
                    }
                }
                acc.push(t);
                pos = next;
            },
            None => {
                return None;
            },
        }
    }
    proof {
        assert(models(acc@) + Seq::<JType>::empty() =~= models(acc@));
    }
    Some(acc)
}

/// Decodes a whole return fragment held in `s`.
pub fn decode_return_exec(s: &Vec<char>) -> (r: Option<TypeValue>)
    ensures
        r is None <==> decode_return(s@) is None,
        r matches Some(t) ==> decode_return(s@) == Some(t@),
{
    if s.len() == 1 && s[0] == 'V' {
        return Some(TypeValue::Void);
    }
    match decode_field_exec(s, 0) {
        Some((t, next)) => if next == s.len() {
            Some(t)
        } else {
            None
        },
        None => None,
    }
}

/// The decoded parameter and return types of a descriptor, if it decodes.
pub fn descriptor_types_checked(d: &Vec<char>) -> (r: Option<(Vec<TypeValue>, TypeValue)>)
    ensures
        r is Some <==> descriptor_ok(d@),
        r matches Some((ps, rt)) ==> descriptor_params(d@) == Some(models(ps@))
            && descriptor_return(d@) == Some(rt@),
{
    if d.len() < 1 || d[0] != '(' {
        return None;
    }
    let close = char_or_end_exec(d, ')', 1);
    proof {
        lemma_find_char_bounds(d@, ')', 1);
    }
    if close >= d.len() {
        return None;
    }
    let params = subvec(d, 1, close);
    let ret = subvec(d, close + 1, d.len());
    let ps = match decode_params_exec(&params) {
        Some(v) => v,
        None => {
            return None;
        },
    };
    let rt = match decode_return_exec(&ret) {
        Some(t) => t,
        None => {
            return None;
        },
    };
    Some((ps, rt))
}

/// The decoded parameter and return types of a well-formed descriptor.
pub fn descriptor_types(d: &Vec<char>) -> (r: (Vec<TypeValue>, TypeValue))
    requires
        descriptor_ok(d@),
    ensures
        descriptor_params(d@) == Some(models(r.0@)),
        descriptor_return(d@) == Some(r.1@),
{
    match descriptor_types_checked(d) {
        Some(r) => r,
        None => (Vec::new(), TypeValue::Void),
    }
}

/// Decodes one type fragment: a primitive, `V`, an array, an object
/// reference or a type variable.
pub fn decode(fragment: &str) -> (r: TypeValue)
    requires
        decode_return(fragment@) is Some,
    ensures
        decode_return(fragment@) == Some(r@),
{
    let s = chars_of(fragment);
    match decode_return_exec(&s) {
        Some(t) => t,
        None => TypeValue::Void,
    }
}

/// The target-language type of each parameter in a parameter list.
pub fn get_param_types(params: &str) -> (r: Vec<String>)
    requires
        decode_params(params@, 0) is Some,
    ensures
        r.len() == decode_params(params@, 0)->0.len(),
        forall|i: int|
            0 <= i < r.len() ==> #[trigger] r[i]@ == param_target_name(
                decode_params(params@, 0)->0[i],
            ),
{
    let s = chars_of(params);
    let types = match decode_params_exec(&s) {
        Some(v) => v,
        None => Vec::new(),
    };
    let mut r: Vec<String> = Vec::new();
    let mut i: usize = 0;
    while i < types.len()
        invariant
            decode_params(params@, 0) == Some(models(types@)),
            i <= types.len(),
            r.len() == i,
            forall|j: int| 0 <= j < i ==> #[trigger] r[j]@ == param_target_name(types@[j]@),
        decreases types.len() - i,
    {
        r.push(types[i].param_target_name());
        i = i + 1;
    }
    r
}

/// The target-language type of a return fragment; `None` for `V`.
pub fn get_return_type(return_type: &str) -> (r: Option<String>)
    requires
        decode_return(return_type@) is Some,
    ensures
        r is None <==> decode_return(return_type@) == Some(JType::Void),
        r matches Some(n) ==> n@ == target_name(decode_return(return_type@)->0),
{
    let t = decode(return_type);
    match t {
        TypeValue::Void => None,
        _ => Some(t.target_name()),
    }
}

} // verus!
