use spongejni::descriptor::{decode, get_param_types, get_return_type};
use spongejni::dispatch::{get_call_method, select_dispatch, DispatchVariant, ReturnCategory};
use spongejni::naming::sanitize_class_name;
use spongejni::signature::get_optional_return_type;
use spongejni::types::{get_rust_type, Primitive, TypeValue};

#[test]
fn primitive_characters_decode_to_their_primitive() {
    let cases = [
        ("B", Primitive::Byte),
        ("C", Primitive::Char),
        ("D", Primitive::Double),
        ("F", Primitive::Float),
        ("I", Primitive::Int),
        ("J", Primitive::Long),
        ("S", Primitive::Short),
        ("Z", Primitive::Boolean),
    ];
    for (code, kind) in cases {
        assert_eq!(decode(code), TypeValue::Primitive(kind));
    }
}

#[test]
fn array_of_int_decodes() {
    assert_eq!(decode("[I"), TypeValue::ArrayOf(Box::new(TypeValue::Primitive(Primitive::Int))));
}

#[test]
fn nested_array_of_namespace_object_decodes() {
    assert_eq!(
        decode("[[Lorg/spongepowered/api/Foo;"),
        TypeValue::ArrayOf(Box::new(TypeValue::ArrayOf(Box::new(TypeValue::ObjectRef(
            "Foo".to_string()
        )))))
    );
}

#[test]
fn void_and_type_variable_decode() {
    assert_eq!(decode("V"), TypeValue::Void);
    assert_eq!(decode("TT;"), TypeValue::TypeVariable);
}

#[test]
fn object_outside_namespace_is_opaque() {
    assert_eq!(decode("Ljava/lang/String;"), TypeValue::Opaque);
    assert_eq!(decode("Ljava/util/Optional;"), TypeValue::OptionalRef);
}

#[test]
fn internal_marker_is_opaque_inside_namespace() {
    assert_eq!(decode("Lorg/spongepowered/api/gencore/Thing;"), TypeValue::Opaque);
    assert_eq!(sanitize_class_name("org/spongepowered/api/gencore/Thing"), "jobject");
}

#[test]
fn namespace_names_are_flattened() {
    assert_eq!(
        decode("Lorg/spongepowered/api/entity/living/player/Player;"),
        TypeValue::ObjectRef("entity_living_player_Player".to_string())
    );
    assert_eq!(sanitize_class_name("org/spongepowered/api/text/Text$Builder"), "text_Text_Builder");
    assert_eq!(sanitize_class_name("java/lang/Object"), "java_lang_Object");
}

#[test]
fn rust_types_of_primitives() {
    assert_eq!(get_rust_type('B'), "i8");
    assert_eq!(get_rust_type('C'), "char");
    assert_eq!(get_rust_type('D'), "f64");
    assert_eq!(get_rust_type('F'), "f32");
    assert_eq!(get_rust_type('I'), "i32");
    assert_eq!(get_rust_type('J'), "i64");
    assert_eq!(get_rust_type('S'), "i16");
    assert_eq!(get_rust_type('Z'), "bool");
}

#[test]
fn return_types_render() {
    assert_eq!(get_return_type("V"), None);
    assert_eq!(get_return_type("J"), Some("i64".to_string()));
    assert_eq!(get_return_type("[Ljava/lang/String;"), Some("Vec<jobject>".to_string()));
    assert_eq!(get_return_type("Ljava/util/Optional;"), Some("Option".to_string()));
    assert_eq!(get_return_type("Lorg/spongepowered/api/Game;"), Some("Game".to_string()));
    assert_eq!(get_return_type("TE;"), Some("jobject".to_string()));
}

#[test]
fn parameter_types_render() {
    assert_eq!(
        get_param_types("ILjava/lang/String;[Lorg/spongepowered/api/Foo;Ljava/util/Optional;[[Z"),
        vec![
            "i32".to_string(),
            "jobject".to_string(),
            "Vec<Foo>".to_string(),
            "jobject".to_string(),
            "Vec<Vec<bool>>".to_string(),
        ]
    );
    assert_eq!(get_param_types(""), Vec::<String>::new());
}

#[test]
fn optional_payload_in_namespace() {
    assert_eq!(get_optional_return_type("()Ljava/util/Optional<Lorg/spongepowered/api/Foo;>;".to_string()), "Foo");
}

#[test]
fn optional_payload_drops_covariant_bound() {
    assert_eq!(get_optional_return_type("()Ljava/util/Optional<+Lorg/spongepowered/api/Foo;>;".to_string()), "Foo");
}

#[test]
fn optional_wildcard_payload_is_opaque() {
    assert_eq!(get_optional_return_type("()Ljava/util/Optional<*>;".to_string()), "jobject");
}

#[test]
fn optional_generic_payload_drops_its_arguments() {
    assert_eq!(
        get_optional_return_type("()Ljava/util/Optional<Lorg/spongepowered/api/Holder<Ljava/lang/String;>;>;".to_string()),
        "Holder"
    );
    assert_eq!(get_optional_return_type("()Ljava/util/Optional<Ljava/lang/String;>;".to_string()), "jobject");
}

#[test]
fn dispatch_selection() {
    assert_eq!(
        select_dispatch('Z', 1, false),
        DispatchVariant::Call { category: ReturnCategory::Boolean, indexed: true, is_static: false }
    );
    assert_eq!(select_dispatch('[', 0, true), DispatchVariant::Unsupported);
    assert_eq!(
        select_dispatch('L', 0, true).entry_point_name(),
        "CallStaticObjectMethod"
    );
    assert_eq!(select_dispatch('V', 2, false).entry_point_name(), "CallVoidMethodA");
    assert_eq!(select_dispatch('C', 0, false).entry_point_name(), "CallCharMethod");
}

#[test]
fn call_method_from_descriptor_and_params() {
    assert_eq!(
        get_call_method("(I)Z", "(&self, param_1: i32) -> bool", false).entry_point_name(),
        "CallBooleanMethodA"
    );
    assert_eq!(
        get_call_method("()J", "(env: *mut JNIEnv) -> i64", true).entry_point_name(),
        "CallStaticLongMethod"
    );
    assert_eq!(get_call_method("()[I", "(&self) -> Vec<i32>", false), DispatchVariant::Unsupported);
}
