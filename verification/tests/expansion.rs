use dedrv::codegen::class::{
    run as class_run, ClassDecl, Error, MethodDecl, Param, ReceiverKind,
};
use dedrv::codegen::device::{run as device_run, DeviceDecl};

fn method(name: &str, receiver: Option<ReceiverKind>) -> MethodDecl {
    MethodDecl {
        name: name.to_string(),
        receiver,
        is_async: false,
        generics: Vec::new(),
        where_clause: None,
        params: Vec::new(),
        output: None,
    }
}

fn class(name: &str, methods: Vec<MethodDecl>) -> ClassDecl {
    ClassDecl {
        name: name.to_string(),
        generics: Vec::new(),
        has_where_clause: false,
        methods,
    }
}

#[test]
fn it_should_compile_class_trait() {
    let code = class_run(false, &class("SomeClass", Vec::new()));

    assert!(code.errors.is_empty());
    let contract = code.contract.expect("a valid class has a driver contract");
    assert_eq!(contract.name, "SomeClass");
    assert!(contract.methods.is_empty());
    assert_eq!(code.tag, "SomeClass");
    assert!(code.forwarding.is_empty());
}

#[test]
fn it_should_compile_method_with_no_arg() {
    let decl = class(
        "SomeClass",
        vec![method("a_method", Some(ReceiverKind::Shared))],
    );
    let code = class_run(false, &decl);

    assert!(code.errors.is_empty());
    let contract = code.contract.unwrap();
    assert_eq!(contract.methods.len(), 1);
    assert_eq!(contract.methods[0].name, "a_method");
    assert!(contract.methods[0].params.is_empty());
    assert!(contract.methods[0].output.is_none());
}

#[test]
fn it_should_compile_method_with_one_arg() {
    let mut m = method("a_method", Some(ReceiverKind::Shared));
    m.params = vec![Param { name: "arg".to_string(), ty: "u32".to_string() }];
    let code = class_run(false, &class("SomeClass", vec![m]));

    assert!(code.errors.is_empty());
    let contract = code.contract.unwrap();
    assert_eq!(contract.methods[0].params.len(), 1);
    assert_eq!(contract.methods[0].params[0].name, "arg");
    assert_eq!(contract.methods[0].params[0].ty, "u32");
    assert_eq!(code.forwarding[0].forwarded_args, vec!["arg".to_string()]);
}

#[test]
fn it_should_compile_method_with_no_arg_and_output() {
    let mut m = method("a_method", Some(ReceiverKind::Shared));
    m.output = Some("u32".to_string());
    let code = class_run(false, &class("SomeClass", vec![m]));

    assert!(code.errors.is_empty());
    let contract = code.contract.unwrap();
    assert_eq!(contract.methods[0].output.as_deref(), Some("u32"));
    assert_eq!(code.forwarding[0].output.as_deref(), Some("u32"));
}

#[test]
fn it_should_compile_method_with_mutable_and_no_arg() {
    let decl = class(
        "SomeClass",
        vec![method("a_method", Some(ReceiverKind::Exclusive))],
    );
    let code = class_run(false, &decl);

    assert!(code.errors.is_empty());
    let contract = code.contract.unwrap();
    assert_eq!(contract.methods[0].name, "a_method");
    assert!(contract.methods[0].params.is_empty());
    assert_eq!(code.forwarding[0].receiver, Some(ReceiverKind::Exclusive));
}

#[test]
fn it_should_compile_method_with_one_param_and_no_arg() {
    let mut m = method("a_method", Some(ReceiverKind::Shared));
    m.generics = vec!["T".to_string()];
    let code = class_run(false, &class("SomeClass", vec![m]));

    assert!(code.errors.is_empty());
    let contract = code.contract.unwrap();
    assert_eq!(contract.methods[0].generics, vec!["T".to_string()]);
}

#[test]
fn it_should_compile_method_with_two_params_and_no_arg() {
    let mut m = method("a_method", Some(ReceiverKind::Shared));
    m.generics = vec!["T1".to_string(), "T2".to_string()];
    let code = class_run(false, &class("SomeClass", vec![m]));

    assert!(code.errors.is_empty());
    let contract = code.contract.unwrap();
    assert_eq!(
        contract.methods[0].generics,
        vec!["T1".to_string(), "T2".to_string()]
    );
}

#[test]
fn it_should_compile_method_with_one_param_and_clause_and_no_arg() {
    let mut m = method("a_method", Some(ReceiverKind::Shared));
    m.generics = vec!["T".to_string()];
    m.where_clause = Some("T: Default".to_string());
    let code = class_run(false, &class("SomeClass", vec![m]));

    assert!(code.errors.is_empty());
    let contract = code.contract.unwrap();
    assert_eq!(contract.methods[0].generics, vec!["T".to_string()]);
    assert_eq!(contract.methods[0].where_clause.as_deref(), Some("T: Default"));
    assert_eq!(code.forwarding[0].where_clause.as_deref(), Some("T: Default"));
}

#[test]
fn class_with_generics_is_rejected() {
    let mut decl = class("SomeClass", Vec::new());
    decl.generics = vec!["T".to_string()];
    let code = class_run(false, &decl);

    assert!(code.contract.is_none());
    assert_eq!(code.errors, vec!["class trait must not be generic".to_string()]);
    assert_eq!(code.tag, "SomeClass");
}

#[test]
fn class_with_where_clause_is_rejected() {
    let mut decl = class("SomeClass", Vec::new());
    decl.has_where_clause = true;
    let code = class_run(false, &decl);

    assert!(code.contract.is_none());
    assert_eq!(
        code.errors,
        vec!["class trait must not have a where clause".to_string()]
    );
}

#[test]
fn method_without_receiver_is_reported_and_skipped() {
    let decl = class("SomeClass", vec![method("a_method", None)]);
    let code = class_run(false, &decl);

    let contract = code.contract.unwrap();
    assert!(contract.methods.is_empty());
    assert!(code.forwarding.is_empty());
    assert_eq!(
        code.errors,
        vec![
            "class method must have a self receiver".to_string(),
            "class method must have a self receiver".to_string(),
        ]
    );
}

#[test]
fn async_method_is_reported_and_skipped() {
    let mut m = method("a_method", Some(ReceiverKind::Shared));
    m.is_async = true;
    let code = class_run(false, &class("SomeClass", vec![m]));

    let contract = code.contract.unwrap();
    assert!(contract.methods.is_empty());
    assert_eq!(
        code.errors,
        vec![
            "class method must not be async".to_string(),
            "class method must not be async".to_string(),
        ]
    );
}

#[test]
fn attribute_options_are_rejected() {
    let code = class_run(true, &class("SomeClass", Vec::new()));

    assert_eq!(code.errors, vec!["no attribute options supported".to_string()]);
    assert!(code.contract.is_some());
}

#[test]
fn class_error_messages() {
    assert_eq!(
        Error::InvalidClassGenerics.message(),
        "class trait must not be generic"
    );
    assert_eq!(
        Error::InvalidClassWhereClause.message(),
        "class trait must not have a where clause"
    );
    assert_eq!(
        Error::MissingReceiver.message(),
        "class method must have a self receiver"
    );
    assert_eq!(
        Error::AsyncNotSupported.message(),
        "class method must not be async"
    );
    assert_eq!(Error::Undefined.message(), "undefined error");
    assert_eq!(Error::default(), Error::Undefined);
}

#[test]
fn it_should_install_device() {
    let decl = DeviceDecl {
        ident: "DEVICE".to_string(),
        ty: "Device<DriverImpl>".to_string(),
        path: Some("/gpio0".to_string()),
    };
    let code = device_run(&decl);

    assert!(code.errors.is_empty());
    assert_eq!(code.module_ident, "__dedrv_desc_device");
    assert_eq!(code.descriptor_ident, "__DEDRV_DESC_DEVICE");
    assert_eq!(code.device_type, "Device<DriverImpl>");
    assert_eq!(code.path, "/gpio0");
}

#[test]
fn it_should_populate_dedrv_linker_section() {
    let decl = DeviceDecl {
        ident: "GPIO0".to_string(),
        ty: "Device<GpioDriver>".to_string(),
        path: Some("/gpio0".to_string()),
    };
    let code = device_run(&decl);

    assert!(code.errors.is_empty());
    assert_eq!(code.section, ".dedrv.device.gpio0");
    assert_eq!(code.path, "/gpio0");
}

#[test]
fn by_value_receivers_are_forwarded_verbatim() {
    let decl = class(
        "SomeClass",
        vec![
            method("take", Some(ReceiverKind::Value)),
            method("take_mut", Some(ReceiverKind::ValueMut)),
            method("boxed", Some(ReceiverKind::Typed("Box<Self>".to_string()))),
        ],
    );
    let code = class_run(false, &decl);

    assert!(code.errors.is_empty());
    assert_eq!(code.forwarding.len(), 3);
    assert_eq!(code.forwarding[0].receiver, Some(ReceiverKind::Value));
    assert_eq!(code.forwarding[1].receiver, Some(ReceiverKind::ValueMut));
    assert_eq!(
        code.forwarding[2].receiver,
        Some(ReceiverKind::Typed("Box<Self>".to_string()))
    );
}

#[test]
fn non_ascii_uppercase_device_name_is_accepted_and_lowercased() {
    let decl = DeviceDecl {
        ident: "\u{0394}EVICE".to_string(),
        ty: "Device<DriverImpl>".to_string(),
        path: Some("/gpio0".to_string()),
    };
    let code = device_run(&decl);

    assert!(code.errors.is_empty());
    assert_eq!(code.module_ident, "__dedrv_desc_\u{03B4}evice");
    assert_eq!(code.section, ".dedrv.device.\u{03B4}evice");
}

#[test]
fn non_ascii_lowercase_device_name_is_reported() {
    let decl = DeviceDecl {
        ident: "DEVICE\u{00E9}".to_string(),
        ty: "Device<DriverImpl>".to_string(),
        path: Some("/gpio0".to_string()),
    };
    let code = device_run(&decl);

    assert_eq!(
        code.errors,
        vec!["device variable name must be uppercase".to_string()]
    );
}

#[test]
fn lowercase_device_name_is_reported() {
    let decl = DeviceDecl {
        ident: "device".to_string(),
        ty: "Device<DriverImpl>".to_string(),
        path: Some("/gpio0".to_string()),
    };
    let code = device_run(&decl);

    assert_eq!(
        code.errors,
        vec!["device variable name must be uppercase".to_string()]
    );
    assert_eq!(code.module_ident, "__dedrv_desc_device");
}

#[test]
fn missing_device_path_is_reported() {
    let decl = DeviceDecl {
        ident: "DEVICE".to_string(),
        ty: "Device<DriverImpl>".to_string(),
        path: None,
    };
    let code = device_run(&decl);

    assert_eq!(
        code.errors,
        vec!["missing device path on instance".to_string()]
    );
    assert_eq!(code.path, "");
}
