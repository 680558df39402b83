//! The class model the generator consumes, and its extraction from a raw
//! class file whose constant-pool indices are not yet resolved.
use vstd::prelude::*;

verus! {

/// One method of a class, with its names, descriptors and flags resolved.
#[derive(Clone, Debug)]
pub struct Method {
    pub original_name: String,
    /// The name the binding is emitted under; renaming changes only this.
    pub name: String,
    /// The descriptor the foreign lookup uses.
    pub original_descriptor: String,
    /// The descriptor the binding's signature is computed from.
    pub descriptor: String,
    pub signature: Option<String>,
    pub is_public: bool,
    pub is_static: bool,
}

/// A class: its slash-separated name and its method table, in order.
#[derive(Clone, Debug)]
pub struct Class {
    pub name: String,
    pub methods: Vec<Method>,
}

/// The mathematical model of a `Method`.
pub struct MethodModel {
    pub original_name: Seq<char>,
    pub name: Seq<char>,
    pub original_descriptor: Seq<char>,
    pub descriptor: Seq<char>,
    pub signature: Option<Seq<char>>,
    pub is_public: bool,
    pub is_static: bool,
}

/// The mathematical model of a `Class`.
pub struct ClassModel {
    pub name: Seq<char>,
    pub methods: Seq<MethodModel>,
}

pub open spec fn opt_chars(o: Option<String>) -> Option<Seq<char>> {
    match o {
        Some(s) => Some(s@),
        None => None,
    }
}

impl View for Method {
    type V = MethodModel;

    open spec fn view(&self) -> MethodModel {
        MethodModel {
            original_name: self.original_name@,
            name: self.name@,
            original_descriptor: self.original_descriptor@,
            descriptor: self.descriptor@,
            signature: opt_chars(self.signature),
            is_public: self.is_public,
            is_static: self.is_static,
        }
    }
}

impl View for Class {
    type V = ClassModel;

    open spec fn view(&self) -> ClassModel {
        ClassModel { name: self.name@, methods: self.methods@.map_values(|m: Method| m@) }
    }
}

pub fn copy_option_string(o: &Option<String>) -> (r: Option<String>)
    ensures
        opt_chars(r) == opt_chars(*o),
{
    match o {
        Some(s) => Some(s.clone()),
        None => None,
    }
}

impl Method {
    /// A copy of this method.
    pub fn duplicate(&self) -> (r: Method)
        ensures
            r@ == self@,
    {
        Method {
            original_name: self.original_name.clone(),
            name: self.name.clone(),
            original_descriptor: self.original_descriptor.clone(),
            descriptor: self.descriptor.clone(),
            signature: copy_option_string(&self.signature),
            is_public: self.is_public,
            is_static: self.is_static,
        }
    }
}

/// A constant-pool entry, as far as extraction reads it.
#[derive(Clone, Debug)]
pub enum PoolEntry {
    Utf8(String),
    /// A class entry, holding the index of its name.
    Class(u16),
    Other,
}

/// A method attribute, as far as extraction reads it.
#[derive(Clone, Copy, Debug, PartialEq, Eq, Structural)]
pub enum RawAttribute {
    /// A generic-signature attribute, holding the index of its text.
    Signature(u16),
    Other,
}

/// A method entry whose names are still constant-pool indices.
#[derive(Clone, Debug)]
pub struct RawMethod {
    pub access_flags: u16,
    pub name_index: u16,
    pub descriptor_index: u16,
    pub attributes: Vec<RawAttribute>,
}

/// A class file whose names are still constant-pool indices. Indices count
/// from 1.
#[derive(Clone, Debug)]
pub struct RawClass {
    pub this_class: u16,
    pub constant_pool: Vec<PoolEntry>,
    pub methods: Vec<RawMethod>,
}

/// Why a raw class cannot be resolved; method errors carry the method's
/// position in the table.
#[derive(Clone, Copy, Debug, PartialEq, Eq, Structural)]
pub enum ExtractError {
    ClassEntryMissing,
    NotAClass,
    ClassNameMissing,
    ClassNameNotUtf8,
    MethodNameMissing(usize),
    MethodNameNotUtf8(usize),
    DescriptorMissing(usize),
    DescriptorNotUtf8(usize),
    SignatureMissing(usize),
}

pub const ACC_PUBLIC: u16 = 0x0001;

pub const ACC_STATIC: u16 = 0x0008;

/// The pool entry at a 1-based index.
pub open spec fn pool_get(pool: Seq<PoolEntry>, index: u16) -> Option<PoolEntry> {
    if 1 <= index && index - 1 < pool.len() {
        Some(pool[index - 1])
    } else {
        None
    }
}

/// The text of a UTF-8 entry: `Err(missing)` when the index is out of
/// range, `Err(wrong)` when the entry is of another kind.
pub open spec fn utf8_at(pool: Seq<PoolEntry>, index: u16, missing: ExtractError, wrong: ExtractError) -> Result<Seq<char>, ExtractError> {
    match pool_get(pool, index) {
        None => Err(missing),
        Some(PoolEntry::Utf8(s)) => Ok(s@),
        Some(_) => Err(wrong),
    }
}

/// The class's own name.
pub open spec fn class_name_of(pool: Seq<PoolEntry>, this_class: u16) -> Result<Seq<char>, ExtractError> {
    match pool_get(pool, this_class) {
        None => Err(ExtractError::ClassEntryMissing),
        Some(PoolEntry::Class(n)) => utf8_at(
            pool,
            n,
            ExtractError::ClassNameMissing,
            ExtractError::ClassNameNotUtf8,
        ),
        Some(_) => Err(ExtractError::NotAClass),
    }
}

/// The first signature attribute from position `k` on whose entry is text.
/// A signature index out of range is an error; one naming another kind of
/// entry is passed over.
pub open spec fn signature_from(pool: Seq<PoolEntry>, attrs: Seq<RawAttribute>, k: int, i: usize) -> Result<Option<Seq<char>>, ExtractError>
    decreases attrs.len() - k,
{
    if k < 0 || k >= attrs.len() {
        Ok(None)
    } else {
        match attrs[k] {
            RawAttribute::Signature(index) => match pool_get(pool, index) {
                None => Err(ExtractError::SignatureMissing(i)),
                Some(PoolEntry::Utf8(s)) => Ok(Some(s@)),
                Some(_) => signature_from(pool, attrs, k + 1, i),
            },
            RawAttribute::Other => signature_from(pool, attrs, k + 1, i),
        }
    }
}

/// The resolved form of the method at position `i`.
pub open spec fn method_of(pool: Seq<PoolEntry>, m: RawMethod, i: usize) -> Result<MethodModel, ExtractError> {
    match utf8_at(pool, m.name_index, ExtractError::MethodNameMissing(i), ExtractError::MethodNameNotUtf8(i)) {
        Err(e) => Err(e),
        Ok(name) => match utf8_at(pool, m.descriptor_index, ExtractError::DescriptorMissing(i), ExtractError::DescriptorNotUtf8(i)) {
            Err(e) => Err(e),
            Ok(descriptor) => match signature_from(pool, m.attributes@, 0, i) {
                Err(e) => Err(e),
                Ok(signature) => Ok(MethodModel {
                    original_name: name,
                    name: name,
                    original_descriptor: descriptor,
                    descriptor: descriptor,
                    signature: signature,
                    is_public: m.access_flags & ACC_PUBLIC == ACC_PUBLIC,
                    is_static: m.access_flags & ACC_STATIC == ACC_STATIC,
                }),
            },
        },
    }
}

/// The first `n` methods resolved, or the first error among them.
pub open spec fn methods_of(pool: Seq<PoolEntry>, ms: Seq<RawMethod>, n: int) -> Result<Seq<MethodModel>, ExtractError>
    decreases n,
{
    if n <= 0 {
        Ok(Seq::empty())
    } else {
        match methods_of(pool, ms, n - 1) {
            Err(e) => Err(e),
            Ok(done) => match method_of(pool, ms[n - 1], (n - 1) as usize) {
                Err(e) => Err(e),
                Ok(m) => Ok(done.push(m)),
            },
        }
    }
}

/// The class model of a raw class, or the first error met: the class name
/// first, then each method in table order.
pub open spec fn extracted(raw: RawClass) -> Result<ClassModel, ExtractError> {
    match class_name_of(raw.constant_pool@, raw.this_class) {
        Err(e) => Err(e),
        Ok(name) => match methods_of(raw.constant_pool@, raw.methods@, raw.methods@.len() as int) {
            Err(e) => Err(e),
            Ok(methods) => Ok(ClassModel { name, methods }),
        },
    }
}

fn pool_lookup(pool: &Vec<PoolEntry>, index: u16) -> (r: Option<&PoolEntry>)
    ensures
        r is None <==> pool_get(pool@, index) is None,
        r matches Some(e) ==> pool_get(pool@, index) == Some(*e),
{
    if index >= 1 && ((index - 1) as usize) < pool.len() {
        Some(&pool[(index - 1) as usize])
    } else {
        None
    }
}

fn utf8_lookup(pool: &Vec<PoolEntry>, index: u16, missing: ExtractError, wrong: ExtractError) -> (r: Result<String, ExtractError>)
    ensures
        r matches Ok(s) ==> utf8_at(pool@, index, missing, wrong) == Ok::<Seq<char>, ExtractError>(s@),
        r matches Err(e) ==> utf8_at(pool@, index, missing, wrong) == Err::<Seq<char>, ExtractError>(e),
{
    match pool_lookup(pool, index) {
        None => Err(missing),
        Some(PoolEntry::Utf8(s)) => Ok(s.clone()),
        Some(_) => Err(wrong),
    }
}

fn signature_lookup(pool: &Vec<PoolEntry>, attrs: &Vec<RawAttribute>, i: usize) -> (r: Result<Option<String>, ExtractError>)
    ensures
        r matches Ok(s) ==> signature_from(pool@, attrs@, 0, i) == Ok::<Option<Seq<char>>, ExtractError>(opt_chars(s)),
        r matches Err(e) ==> signature_from(pool@, attrs@, 0, i) == Err::<Option<Seq<char>>, ExtractError>(e),
{
    let mut k: usize = 0;
    while k < attrs.len()
        invariant
            k <= attrs.len(),
            signature_from(pool@, attrs@, 0, i) == signature_from(pool@, attrs@, k as int, i),
        decreases attrs.len() - k,
    {
        match attrs[k] {
            RawAttribute::Signature(index) => match pool_lookup(pool, index) {
                None => {
                    return Err(ExtractError::SignatureMissing(i));
                },
                Some(PoolEntry::Utf8(s)) => {
                    return Ok(Some(s.clone()));
                },
                Some(_) => {},
            },
            RawAttribute::Other => {},
        }
        k = k + 1;
    }
    Ok(None)
}

fn resolve_method(pool: &Vec<PoolEntry>, m: &RawMethod, i: usize) -> (r: Result<Method, ExtractError>)
    ensures
        r matches Ok(mm) ==> method_of(pool@, *m, i) == Ok::<MethodModel, ExtractError>(mm@),
        r matches Err(e) ==> method_of(pool@, *m, i) == Err::<MethodModel, ExtractError>(e),
{
    let name = match utf8_lookup(pool, m.name_index, ExtractError::MethodNameMissing(i), ExtractError::MethodNameNotUtf8(i)) {
        Ok(s) => s,
        Err(e) => {
            return Err(e);
        },
    };
    let descriptor = match utf8_lookup(pool, m.descriptor_index, ExtractError::DescriptorMissing(i), ExtractError::DescriptorNotUtf8(i)) {
        Ok(s) => s,
        Err(e) => {
            return Err(e);
        },
    };
    let signature = match signature_lookup(pool, &m.attributes, i) {
        Ok(s) => s,
        Err(e) => {
            return Err(e);
        },
    };
    Ok(Method {
        original_name: name.clone(),
        name: name,
        original_descriptor: descriptor.clone(),
        descriptor: descriptor,
        signature: signature,
        is_public: m.access_flags & ACC_PUBLIC == ACC_PUBLIC,
        is_static: m.access_flags & ACC_STATIC == ACC_STATIC,
    })
}

/// Resolves the constant-pool indices of a raw class into its class model:
/// the class's own name, and each method's name, descriptor, first text
/// signature and public and static flags.
pub fn generate_class(raw: &RawClass) -> (r: Result<Class, ExtractError>)
    ensures
        r matches Ok(c) ==> extracted(*raw) == Ok::<ClassModel, ExtractError>(c@),
        r matches Err(e) ==> extracted(*raw) == Err::<ClassModel, ExtractError>(e),
{
    let pool = &raw.constant_pool;
    let name = match pool_lookup(pool, raw.this_class) {
        None => {
            return Err(ExtractError::ClassEntryMissing);
        },
        Some(PoolEntry::Class(n)) => match utf8_lookup(pool, *n, ExtractError::ClassNameMissing, ExtractError::ClassNameNotUtf8) {
            Ok(s) => s,
            Err(e) => {
                return Err(e);
            },
        },
        Some(_) => {
            return Err(ExtractError::NotAClass);
        },
    };
    let mut methods: Vec<Method> = Vec::new();
    assert(methods@.map_values(|m: Method| m@) =~= Seq::<MethodModel>::empty());
    let mut i: usize = 0;
    while i < raw.methods.len()
        invariant
            i <= raw.methods.len(),
            pool == &raw.constant_pool,
            class_name_of(pool@, raw.this_class) == Ok::<Seq<char>, ExtractError>(name@),
            methods_of(pool@, raw.methods@, i as int) == Ok::<Seq<MethodModel>, ExtractError>(
                methods@.map_values(|m: Method| m@),
            ),
        decreases raw.methods.len() - i,
    {
        match resolve_method(pool, &raw.methods[i], i) {
            Ok(m) => {
                assert(methods@.push(m).map_values(|m: Method| m@) =~= methods@.map_values(
                    |m: Method| m@,
                ).push(m@));
                methods.push(m);
            },
            Err(e) => {
                assert(methods_of(pool@, raw.methods@, raw.methods@.len() as int) == Err::<
                    Seq<MethodModel>,
                    ExtractError,
                >(e)) by {
                    assert(methods_of(pool@, raw.methods@, i as int + 1) == Err::<
                        Seq<MethodModel>,
                        ExtractError,
                    >(e));
                    lemma_methods_of_err(pool@, raw.methods@, i as int + 1, raw.methods@.len() as int, e);
                }
                return Err(e);
            },
        }
        i = i + 1;
    }
    Ok(Class { name, methods })
}

proof fn lemma_methods_of_err(pool: Seq<PoolEntry>, ms: Seq<RawMethod>, k: int, n: int, e: ExtractError)
    requires
        0 < k <= n,
        methods_of(pool, ms, k) == Err::<Seq<MethodModel>, ExtractError>(e),
    ensures
        methods_of(pool, ms, n) == Err::<Seq<MethodModel>, ExtractError>(e),
    decreases n - k,
{
    if k < n {
        lemma_methods_of_err(pool, ms, k, n - 1, e);
    }
}

} // verus!
