//! Chooses the foreign-call entry point for a method.
use vstd::prelude::*;
use crate::descriptor::{descriptor_shaped, return_part};
use crate::text::{char_or_end_exec, chars_of, lemma_find_char_bounds};

verus! {

/// What a foreign call hands back.
#[derive(Clone, Copy, Debug, PartialEq, Eq, Structural)]
pub enum ReturnCategory {
    Byte,
    Char,
    Double,
    Float,
    Int,
    Long,
    Short,
    Boolean,
    Object,
    Void,
}

/// The foreign-call entry point chosen for a method.
#[derive(Clone, Copy, Debug, PartialEq, Eq, Structural)]
pub enum DispatchVariant {
    /// `indexed`: the arguments are passed as a packed list;
    /// `is_static`: the static family of entry points is used.
    Call { category: ReturnCategory, indexed: bool, is_static: bool },
    /// Array returns have no entry point.
    Unsupported,
}

/// The category that the first character of a return fragment selects.
pub open spec fn return_category(c: char) -> Option<ReturnCategory> {
    match c {
        'B' => Some(ReturnCategory::Byte),
        'C' => Some(ReturnCategory::Char),
        'D' => Some(ReturnCategory::Double),
        'F' => Some(ReturnCategory::Float),
        'I' => Some(ReturnCategory::Int),
        'J' => Some(ReturnCategory::Long),
        'S' => Some(ReturnCategory::Short),
        'Z' => Some(ReturnCategory::Boolean),
        'L' => Some(ReturnCategory::Object),
        'T' => Some(ReturnCategory::Object),
        'V' => Some(ReturnCategory::Void),
        _ => None,
    }
}

/// The variant for a return fragment starting with `c`, a method of
/// `arity` parameters, static or not; `None` for an unknown character.
pub open spec fn dispatch_for(c: char, arity: nat, is_static: bool) -> Option<DispatchVariant> {
    if c == '[' {
        Some(DispatchVariant::Unsupported)
    } else {
        match return_category(c) {
            Some(k) => Some(DispatchVariant::Call { category: k, indexed: arity > 0, is_static }),
            None => None,
        }
    }
}

/// The word that names a category in an entry point.
pub open spec fn category_word(k: ReturnCategory) -> Seq<char> {
    match k {
        ReturnCategory::Byte => "Byte"@,
        ReturnCategory::Char => "Char"@,
        ReturnCategory::Double => "Double"@,
        ReturnCategory::Float => "Float"@,
        ReturnCategory::Int => "Int"@,
        ReturnCategory::Long => "Long"@,
        ReturnCategory::Short => "Short"@,
        ReturnCategory::Boolean => "Boolean"@,
        ReturnCategory::Object => "Object"@,
        ReturnCategory::Void => "Void"@,
    }
}

/// The entry point's name, such as `CallStaticObjectMethodA`.
pub open spec fn entry_point(k: ReturnCategory, indexed: bool, is_static: bool) -> Seq<char> {
    (if is_static {
        "CallStatic"@
    } else {
        "Call"@
    }) + category_word(k) + "Method"@ + (if indexed {
        "A"@
    } else {
        Seq::empty()
    })
}

/// How many times `c` occurs in `s`.
pub open spec fn count_char(s: Seq<char>, c: char) -> nat
    decreases s.len(),
{
    if s.len() == 0 {
        0
    } else {
        count_char(s.drop_last(), c) + if s.last() == c {
            1nat
        } else {
            0nat
        }
    }
}

/// The variant for a descriptor whose rendered parameter list is `params`:
/// each parameter follows a `,` there.
pub open spec fn dispatch_of(descriptor: Seq<char>, params: Seq<char>, is_static: bool) -> Option<
    DispatchVariant,
> {
    if descriptor_shaped(descriptor) && return_part(descriptor).len() > 0 {
        dispatch_for(return_part(descriptor)[0], count_char(params, ','), is_static)
    } else {
        None
    }
}

/// Selects the variant from the first character of the return fragment,
/// the arity and the static flag.
pub fn select_dispatch(c: char, arity: usize, is_static: bool) -> (r: DispatchVariant)
    requires
        dispatch_for(c, arity as nat, is_static) is Some,
    ensures
        dispatch_for(c, arity as nat, is_static) == Some(r),
{
    let category = match c {
        'B' => ReturnCategory::Byte,
        'C' => ReturnCategory::Char,
        'D' => ReturnCategory::Double,
        'F' => ReturnCategory::Float,
        'I' => ReturnCategory::Int,
        'J' => ReturnCategory::Long,
        'S' => ReturnCategory::Short,
        'Z' => ReturnCategory::Boolean,
        'L' => ReturnCategory::Object,
        'T' => ReturnCategory::Object,
        'V' => ReturnCategory::Void,
        _ => {
            return DispatchVariant::Unsupported;
        },
    };
    DispatchVariant::Call { category, indexed: arity > 0, is_static }
}

fn category_str(k: ReturnCategory) -> (r: &'static str)
    ensures
        r@ == category_word(k),
{
    match k {
        ReturnCategory::Byte => "Byte",
        ReturnCategory::Char => "Char",
        ReturnCategory::Double => "Double",
        ReturnCategory::Float => "Float",
        ReturnCategory::Int => "Int",
        ReturnCategory::Long => "Long",
        ReturnCategory::Short => "Short",
        ReturnCategory::Boolean => "Boolean",
        ReturnCategory::Object => "Object",
        ReturnCategory::Void => "Void",
    }
}

impl DispatchVariant {
    /// The name of the entry point that a call variant uses.
    pub fn entry_point_name(&self) -> (r: String)
        requires
            self is Call,
        ensures
            r@ == entry_point(self->category, self->indexed, self->is_static),
    {
        match self {
            DispatchVariant::Call { category, indexed, is_static } => {
                let mut r = if *is_static {
                    String::from_str("CallStatic")
                } else {
                    String::from_str("Call")
                };
                r.append(category_str(*category));
                r.append("Method");
                if *indexed {
                    r.append("A");
                } else {
                    assert(r@ + Seq::<char>::empty() =~= r@);
                }
                r
            },
            DispatchVariant::Unsupported => String::new(),
        }
    }
}

/// How many times `c` occurs in `s`.
pub fn count_char_exec(s: &Vec<char>, c: char) -> (r: usize)
    ensures
        r == count_char(s@, c),
{
    let mut n: usize = 0;
    let mut i: usize = 0;
    while i < s.len()
        invariant
            i <= s.len(),
            n == count_char(s@.subrange(0, i as int), c),
            n <= i,
        decreases s.len() - i,
    {
        assert(s@.subrange(0, i + 1).drop_last() =~= s@.subrange(0, i as int));
        if s[i] == c {
            n = n + 1;
        }
        i = i + 1;
    }
    assert(s@.subrange(0, s@.len() as int) =~= s@);
    n
}

/// Chooses the entry point for a method from its descriptor's return
/// fragment, the number of parameters in its rendered parameter list
/// `params`, and whether it is static.
pub fn get_call_method(descriptor: &str, params: &str, is_static: bool) -> (r: DispatchVariant)
    requires
        dispatch_of(descriptor@, params@, is_static) is Some,
    ensures
        dispatch_of(descriptor@, params@, is_static) == Some(r),
{
    let d = chars_of(descriptor);
    let p = chars_of(params);
    let close = char_or_end_exec(&d, ')', 1);
    proof {
        lemma_find_char_bounds(d@, ')', 1);
    }
    let arity = count_char_exec(&p, ',');
    assert(return_part(d@)[0] == d@[close + 1]);
    select_dispatch(d[close + 1], arity, is_static)
}

} // verus!
