use spongejni::model::{generate_class, ExtractError, PoolEntry, RawAttribute, RawClass, RawMethod};

fn utf8(s: &str) -> PoolEntry {
    PoolEntry::Utf8(s.to_string())
}

fn sample_pool() -> Vec<PoolEntry> {
    vec![
        PoolEntry::Class(2),
        utf8("org/spongepowered/api/Foo"),
        utf8("getBar"),
        utf8("()Ljava/util/Optional;"),
        utf8("()Ljava/util/Optional<Lorg/spongepowered/api/Bar;>;"),
        PoolEntry::Other,
    ]
}

fn raw_method(access_flags: u16, name_index: u16, descriptor_index: u16, attributes: Vec<RawAttribute>) -> RawMethod {
    RawMethod { access_flags, name_index, descriptor_index, attributes }
}

#[test]
fn resolves_names_descriptors_signatures_and_flags() {
    let raw = RawClass {
        this_class: 1,
        constant_pool: sample_pool(),
        methods: vec![
            raw_method(0x0009, 3, 4, vec![RawAttribute::Other, RawAttribute::Signature(6), RawAttribute::Signature(5)]),
            raw_method(0x0002, 3, 4, vec![]),
        ],
    };
    let c = generate_class(&raw).unwrap();
    assert_eq!(c.name, "org/spongepowered/api/Foo");
    assert_eq!(c.methods.len(), 2);
    let m = &c.methods[0];
    assert_eq!(m.original_name, "getBar");
    assert_eq!(m.name, "getBar");
    assert_eq!(m.descriptor, "()Ljava/util/Optional;");
    assert_eq!(m.original_descriptor, "()Ljava/util/Optional;");
    assert_eq!(m.signature, Some("()Ljava/util/Optional<Lorg/spongepowered/api/Bar;>;".to_string()));
    assert!(m.is_public);
    assert!(m.is_static);
    let n = &c.methods[1];
    assert_eq!(n.signature, None);
    assert!(!n.is_public);
    assert!(!n.is_static);
}

#[test]
fn class_entry_errors() {
    let mut raw = RawClass { this_class: 0, constant_pool: sample_pool(), methods: vec![] };
    assert_eq!(generate_class(&raw).unwrap_err(), ExtractError::ClassEntryMissing);
    raw.this_class = 7;
    assert_eq!(generate_class(&raw).unwrap_err(), ExtractError::ClassEntryMissing);
    raw.this_class = 2;
    assert_eq!(generate_class(&raw).unwrap_err(), ExtractError::NotAClass);
    raw.constant_pool[0] = PoolEntry::Class(9);
    raw.this_class = 1;
    assert_eq!(generate_class(&raw).unwrap_err(), ExtractError::ClassNameMissing);
    raw.constant_pool[0] = PoolEntry::Class(6);
    assert_eq!(generate_class(&raw).unwrap_err(), ExtractError::ClassNameNotUtf8);
}

#[test]
fn method_entry_errors_name_the_method() {
    let with = |m: RawMethod| RawClass {
        this_class: 1,
        constant_pool: sample_pool(),
        methods: vec![raw_method(1, 3, 4, vec![]), m],
    };
    assert_eq!(generate_class(&with(raw_method(1, 0, 4, vec![]))).unwrap_err(), ExtractError::MethodNameMissing(1));
    assert_eq!(generate_class(&with(raw_method(1, 6, 4, vec![]))).unwrap_err(), ExtractError::MethodNameNotUtf8(1));
    assert_eq!(generate_class(&with(raw_method(1, 3, 40, vec![]))).unwrap_err(), ExtractError::DescriptorMissing(1));
    assert_eq!(generate_class(&with(raw_method(1, 3, 1, vec![]))).unwrap_err(), ExtractError::DescriptorNotUtf8(1));
    assert_eq!(
        generate_class(&with(raw_method(1, 3, 4, vec![RawAttribute::Signature(99)]))).unwrap_err(),
        ExtractError::SignatureMissing(1)
    );
}

#[test]
fn first_text_signature_wins() {
    let raw = RawClass {
        this_class: 1,
        constant_pool: sample_pool(),
        methods: vec![raw_method(1, 3, 4, vec![RawAttribute::Signature(5), RawAttribute::Signature(99)])],
    };
    let c = generate_class(&raw).unwrap();
    assert_eq!(c.methods[0].signature, Some("()Ljava/util/Optional<Lorg/spongepowered/api/Bar;>;".to_string()));
}
