use spongejni::emitter::{assign_names, create_struct, first_unbindable, is_bindable};
use spongejni::generator::{create_method, create_params, render_method};
use spongejni::model::{Class, Method};

const PLAYER: &str = "org/spongepowered/api/entity/living/player/Player";

fn method(name: &str, descriptor: &str, signature: Option<&str>, is_public: bool, is_static: bool) -> Method {
    Method {
        original_name: name.to_string(),
        name: name.to_string(),
        original_descriptor: descriptor.to_string(),
        descriptor: descriptor.to_string(),
        signature: signature.map(|s| s.to_string()),
        is_public,
        is_static,
    }
}

#[test]
fn params_of_instance_method() {
    assert_eq!(
        create_params("(ILorg/spongepowered/api/text/Text;)Z", None, false),
        "(&self, param_1: i32, param_2: text_Text) -> bool"
    );
}

#[test]
fn params_of_static_void_method() {
    assert_eq!(create_params("()V", None, true), "(env: *mut JNIEnv)");
}

#[test]
fn params_of_optional_return() {
    assert_eq!(
        create_params(
            "()Ljava/util/Optional;",
            Some("()Ljava/util/Optional<Lorg/spongepowered/api/entity/Entity;>;".to_string()),
            false
        ),
        "(&self) -> Option<entity_Entity>"
    );
}

#[test]
fn opaque_object_return_checks_null() {
    let m = method("getName", "()Ljava/lang/String;", None, true, false);
    assert_eq!(
        render_method(PLAYER, &m, "get_name"),
        "\n  pub fn get_name(&self) -> jobject {\n    let ret = java_method!(self.env, self.object, \"getName\", \"()Ljava/lang/String;\", CallObjectMethod);\n    if ret.is_null() { panic!(\"org/spongepowered/api/entity/living/player/Player#getName was null\") }\n    ret\n  }\n"
    );
}

#[test]
fn wrapper_return_checks_null_before_wrapping() {
    let m = method("getWorld", "(I)Lorg/spongepowered/api/world/World;", None, true, false);
    let text = render_method(PLAYER, &m, "get_world");
    assert_eq!(
        text,
        "\n  pub fn get_world(&self, param_1: i32) -> world_World {\n    let ret = java_method!(self.env, self.object, \"getWorld\", \"(I)Lorg/spongepowered/api/world/World;\", CallObjectMethodA, param_1);\n    if ret.is_null() { panic!(\"org/spongepowered/api/entity/living/player/Player#getWorld was null\") }\n    world_World { env: self.env, object: ret }\n  }\n"
    );
    let check = text.find("if ret.is_null()").unwrap();
    let wrap = text.find("world_World { env").unwrap();
    assert!(check < wrap);
}

#[test]
fn optional_return_unwraps_payload() {
    let m = method(
        "getVehicle",
        "()Ljava/util/Optional;",
        Some("()Ljava/util/Optional<Lorg/spongepowered/api/entity/Entity;>;"),
        true,
        false,
    );
    assert_eq!(
        render_method(PLAYER, &m, "get_vehicle"),
        "\n  pub fn get_vehicle(&self) -> Option<entity_Entity> {\n    let ret = java_method!(self.env, self.object, \"getVehicle\", \"()Ljava/util/Optional;\", CallObjectMethod);\n    if ret.is_null() { panic!(\"org/spongepowered/api/entity/living/player/Player#getVehicle was null\") }\n    let unwrapped = java_method!(self.env, ret, \"orElse\", \"(Ljava/lang/Object;)Ljava/lang/Object;\", CallObjectMethodA, ::std::ptr::null() as *const jobject);\n    if unwrapped.is_null() { None } else { Some(entity_Entity { env: self.env, object: unwrapped }) }\n  }\n"
    );
}

#[test]
fn optional_wildcard_return_gives_handle() {
    let m = method("find", "()Ljava/util/Optional;", Some("()Ljava/util/Optional<*>;"), true, true);
    assert_eq!(
        render_method("org/spongepowered/api/Sponge", &m, "find"),
        "\n  pub fn find(env: *mut JNIEnv) -> Option<jobject> {\n    let ret = static_java_method!(env, \"org/spongepowered/api/Sponge\", \"find\", \"()Ljava/util/Optional;\", CallStaticObjectMethod);\n    if ret.is_null() { panic!(\"org/spongepowered/api/Sponge#find was null\") }\n    let unwrapped = java_method!(env, ret, \"orElse\", \"(Ljava/lang/Object;)Ljava/lang/Object;\", CallObjectMethodA, ::std::ptr::null() as *const jobject);\n    if unwrapped.is_null() { None } else { Some(unwrapped) }\n  }\n"
    );
}

#[test]
fn boolean_and_char_results_are_normalized() {
    let b = method("isOnline", "()Z", None, true, false);
    assert_eq!(
        render_method(PLAYER, &b, "is_online"),
        "\n  pub fn is_online(&self) -> bool {\n    java_method!(self.env, self.object, \"isOnline\", \"()Z\", CallBooleanMethod) == 1\n  }\n"
    );
    let c = method("initial", "(Lorg/spongepowered/api/text/Text;)C", None, true, false);
    assert_eq!(
        render_method(PLAYER, &c, "initial"),
        "\n  pub fn initial(&self, param_1: text_Text) -> char {\n    java_method!(self.env, self.object, \"initial\", \"(Lorg/spongepowered/api/text/Text;)C\", CallCharMethodA, param_1.object) as u8 as char\n  }\n"
    );
}

#[test]
fn void_and_int_results() {
    let v = method("kick", "(Ljava/lang/String;)V", None, true, false);
    assert_eq!(
        render_method(PLAYER, &v, "kick"),
        "\n  pub fn kick(&self, param_1: jobject) {\n    java_method!(self.env, self.object, \"kick\", \"(Ljava/lang/String;)V\", CallVoidMethodA, param_1);\n  }\n"
    );
    let i = method("count", "()I", None, true, true);
    assert_eq!(
        render_method(PLAYER, &i, "count"),
        "\n  pub fn count(env: *mut JNIEnv) -> i32 {\n    static_java_method!(env, \"org/spongepowered/api/entity/living/player/Player\", \"count\", \"()I\", CallStaticIntMethod)\n  }\n"
    );
}

#[test]
fn array_parameter_gives_stub() {
    let m = method("setLines", "([Ljava/lang/String;I)V", None, true, false);
    assert_eq!(
        render_method(PLAYER, &m, "set_lines"),
        "\n  pub fn set_lines(&self, param_1: Vec<jobject>, param_2: i32) {\n    unimplemented!();\n  }"
    );
    let p = method("setBytes", "([B)V", None, true, false);
    assert_eq!(
        render_method(PLAYER, &p, "set_bytes"),
        "\n  pub fn set_bytes(&self, param_1: Vec<i8>) {\n    unimplemented!();\n  }"
    );
}

#[test]
fn array_return_gives_stub() {
    let m = method("getLines", "()[Lorg/spongepowered/api/text/Text;", None, true, false);
    assert_eq!(
        render_method(PLAYER, &m, "get_lines"),
        "\n  pub fn get_lines(&self) -> Vec<text_Text> {\n    unimplemented!();\n  }"
    );
}

#[test]
fn create_method_uses_snake_case_name() {
    let m = method("getDisplayName", "()I", None, true, false);
    assert_eq!(
        create_method(PLAYER, &m),
        "\n  pub fn get_display_name(&self) -> i32 {\n    java_method!(self.env, self.object, \"getDisplayName\", \"()I\", CallIntMethod)\n  }\n"
    );
}

#[test]
fn overloads_are_numbered_in_table_order() {
    let ms = vec![
        method("get", "()I", None, true, false),
        method("size", "()I", None, true, false),
        method("get", "(I)I", None, true, false),
        method("get", "(II)I", None, true, false),
        method("from", "()I", None, true, true),
    ];
    let named: Vec<String> = assign_names("org/spongepowered/api/Foo", &ms).into_iter().map(|m| m.name).collect();
    assert_eq!(named, vec!["get", "size", "get2", "get3", "from2"]);
}

#[test]
fn reordering_distinct_names_keeps_numbers() {
    let a = vec![
        method("get", "()I", None, true, false),
        method("size", "()I", None, true, false),
        method("get", "(I)I", None, true, false),
        method("size", "(I)I", None, true, false),
    ];
    let b = vec![
        method("size", "()I", None, true, false),
        method("get", "()I", None, true, false),
        method("size", "(I)I", None, true, false),
        method("get", "(I)I", None, true, false),
    ];
    let na: Vec<(String, String)> =
        assign_names("org/spongepowered/api/Foo", &a).into_iter().map(|m| (m.descriptor, m.name)).collect();
    let mut nb: Vec<(String, String)> =
        assign_names("org/spongepowered/api/Foo", &b).into_iter().map(|m| (m.descriptor, m.name)).collect();
    let mut na_sorted = na.clone();
    na_sorted.sort();
    nb.sort();
    assert_eq!(na_sorted, nb);
}

#[test]
fn constructor_and_reserved_words_are_renamed() {
    let ms = vec![
        method("<init>", "(I)V", None, true, false),
        method("type", "()I", None, true, false),
        method("match", "()I", None, true, false),
        method("override", "()I", None, true, false),
    ];
    let out = assign_names("org/spongepowered/api/Foo", &ms);
    assert_eq!(out[0].name, "new");
    assert!(out[0].is_static);
    assert_eq!(out[0].descriptor, "(I)Lorg/spongepowered/api/Foo");
    assert_eq!(out[0].original_descriptor, "(I)V");
    assert_eq!(out[0].original_name, "<init>");
    assert_eq!(out[1].name, "type_");
    assert_eq!(out[2].name, "match_");
    assert_eq!(out[3].name, "override_");
}

#[test]
fn constructor_binding_calls_the_original_descriptor() {
    let c = Class {
        name: "org/spongepowered/api/Foo".to_string(),
        methods: vec![method("<init>", "(I)V", None, true, false)],
    };
    let text = create_struct(c);
    assert!(text.contains(
        "\n  pub fn new(env: *mut JNIEnv, param_1: i32) -> Foo {\n    let ret = static_java_method!(env, \"org/spongepowered/api/Foo\", \"<init>\", \"(I)V\", CallStaticObjectMethodA, param_1);\n"
    ));
    assert!(text.contains("    Foo { env: env, object: ret }\n  }\n"));
}

#[test]
fn package_info_emits_nothing() {
    let c = Class {
        name: "org/spongepowered/api/entity/package-info".to_string(),
        methods: vec![method("getX", "()I", None, true, false)],
    };
    assert_eq!(create_struct(c), "");
}

#[test]
fn whole_struct_text() {
    let c = Class {
        name: "org/spongepowered/api/world/World".to_string(),
        methods: vec![
            method("getName", "()Ljava/lang/String;", None, true, false),
            method("secret", "()I", None, false, false),
            method("getSeed", "()J", None, true, false),
        ],
    };
    assert_eq!(
        create_struct(c),
        "#[derive(Debug)]\npub struct world_World {\n  pub env: *mut JNIEnv,\n  pub object: jobject\n}\n\nimpl world_World {\n  pub unsafe fn from(env: *mut JNIEnv, object: jobject) -> Self {\n    world_World {\n      env: env,\n      object: object\n    }\n  }\n\n  pub fn get_name(&self) -> jobject {\n    let ret = java_method!(self.env, self.object, \"getName\", \"()Ljava/lang/String;\", CallObjectMethod);\n    if ret.is_null() { panic!(\"org/spongepowered/api/world/World#getName was null\") }\n    ret\n  }\n\n  pub fn get_seed(&self) -> i64 {\n    java_method!(self.env, self.object, \"getSeed\", \"()J\", CallLongMethod)\n  }\n\n}\n"
    );
}

#[test]
fn generating_twice_gives_the_same_text() {
    let make = || Class {
        name: "org/spongepowered/api/Game".to_string(),
        methods: vec![
            method("getServer", "()Lorg/spongepowered/api/Server;", None, true, false),
            method("getServer", "(I)Lorg/spongepowered/api/Server;", None, true, false),
            method("lines", "()[I", None, true, false),
        ],
    };
    assert_eq!(create_struct(make()), create_struct(make()));
}

#[test]
fn unbindable_methods_are_found() {
    let good = method("getX", "()I", None, true, false);
    let bad = method("broken", "(Q)V", None, true, false);
    let no_sig = method("maybe", "()Ljava/util/Optional;", None, true, false);
    assert!(is_bindable(&good));
    assert!(!is_bindable(&bad));
    assert!(!is_bindable(&no_sig));
    let c = Class {
        name: "org/spongepowered/api/Foo".to_string(),
        methods: vec![good.clone(), method("hidden", "(Q)V", None, false, false), no_sig.clone(), bad.clone()],
    };
    assert_eq!(first_unbindable(&c), Some("maybe".to_string()));
    let ok = Class { name: "org/spongepowered/api/Foo".to_string(), methods: vec![good] };
    assert_eq!(first_unbindable(&ok), None);
}

#[test]
fn class_without_methods_has_only_the_factory() {
    let c = Class { name: "org/spongepowered/api/Empty".to_string(), methods: vec![] };
    assert_eq!(
        create_struct(c),
        "#[derive(Debug)]\npub struct Empty {\n  pub env: *mut JNIEnv,\n  pub object: jobject\n}\n\nimpl Empty {\n  pub unsafe fn from(env: *mut JNIEnv, object: jobject) -> Self {\n    Empty {\n      env: env,\n      object: object\n    }\n  }\n\n}\n"
    );
}

#[test]
fn void_optional_payload_is_not_bindable() {
    let m = method("odd", "()Ljava/util/Optional;", Some("()Ljava/util/Optional<V>;"), true, false);
    assert!(!is_bindable(&m));
    let n = method("none", "()Ljava/util/Optional;", Some("()Ljava/lang/Object;"), true, false);
    assert!(!is_bindable(&n));
}

#[test]
fn eleventh_use_of_a_name_gets_two_digits() {
    let ms: Vec<Method> = (0..11).map(|_| method("get", "()I", None, true, false)).collect();
    let named: Vec<String> = assign_names("org/spongepowered/api/Foo", &ms).into_iter().map(|m| m.name).collect();
    assert_eq!(named[0], "get");
    assert_eq!(named[1], "get2");
    assert_eq!(named[9], "get10");
    assert_eq!(named[10], "get11");
}
