use anycall::service::{
    plan_service, AttrShape, DeclError, MethodDecl, NameConflict, ParamError, ParamShape, Section,
    ServiceDecl,
};

fn method(name: &str, is_async: bool, params: Vec<ParamShape>) -> MethodDecl {
    MethodDecl {
        attrs: vec![],
        name: name.to_string(),
        unraw_name: name.trim_start_matches("r#").to_string(),
        is_async,
        params,
    }
}

fn plain_self() -> ParamShape {
    ParamShape::Receiver { has_lifetime: false, is_mut: false }
}

fn service(name: &str, methods: Vec<MethodDecl>) -> ServiceDecl {
    ServiceDecl {
        trait_name: name.to_string(),
        trait_display: name.to_string(),
        methods,
    }
}

const ASYNC_SECTIONS: [Section; 10] = [
    Section::OriginalTrait,
    Section::AsyncProvider,
    Section::AsyncServe,
    Section::RequestEnum,
    Section::ResponseEnum,
    Section::AsyncClientTrait,
    Section::ClientStruct,
    Section::ClientNew,
    Section::AsyncClientMethods,
    Section::AsyncServiceTrait,
];

#[test]
fn counter_service_plan() {
    let decl = service(
        "Counter",
        vec![
            method("sum", false, vec![plain_self(), ParamShape::Named, ParamShape::Named]),
            method("sum_async", true, vec![plain_self(), ParamShape::Named, ParamShape::Named]),
        ],
    );
    let plan = match plan_service(&decl) {
        Ok(p) => p,
        Err(_) => panic!("the counter service is accepted"),
    };
    assert_eq!(plan.names.async_service, "CounterAsyncService");
    assert_eq!(plan.names.async_provider, "CounterAsyncProvider");
    assert_eq!(plan.names.sync_service, "CounterSyncService");
    assert_eq!(plan.names.sync_provider, "CounterSyncProvider");
    assert_eq!(plan.names.client, "CounterClient");
    assert_eq!(plan.names.async_client, "CounterAsyncClient");
    assert_eq!(plan.names.sync_client, "CounterSyncClient");
    assert_eq!(plan.names.request, "CounterRequest");
    assert_eq!(plan.names.response, "CounterResponse");
    assert_eq!(plan.variants, vec!["Sum".to_string(), "SumAsync".to_string()]);
    assert!(!plan.all_sync);
    assert_eq!(plan.sections, ASYNC_SECTIONS.to_vec());
}

#[test]
fn sync_service_plan_adds_sync_items() {
    let decl = service(
        "SyncCounter",
        vec![method("sum", false, vec![plain_self(), ParamShape::Named, ParamShape::Named])],
    );
    let plan = match plan_service(&decl) {
        Ok(p) => p,
        Err(_) => panic!("the sync counter service is accepted"),
    };
    assert!(plan.all_sync);
    let mut expected = ASYNC_SECTIONS.to_vec();
    expected.extend([
        Section::SyncProvider,
        Section::SyncServe,
        Section::SyncClientTrait,
        Section::SyncClientMethods,
        Section::SyncServiceTrait,
    ]);
    assert_eq!(plan.sections, expected);
    assert_eq!(plan.names.sync_client, "SyncCounterSyncClient");
}

#[test]
fn method_named_new_or_serve_is_refused() {
    let decl = service(
        "Svc",
        vec![
            method("new", false, vec![plain_self()]),
            method("ok", false, vec![plain_self()]),
            method("serve", true, vec![plain_self()]),
        ],
    );
    let errs = match plan_service(&decl) {
        Err(e) => e,
        Ok(_) => panic!("expected a refusal"),
    };
    assert_eq!(
        errs,
        vec![
            DeclError::Name { method: 0, conflict: NameConflict::ClientNew },
            DeclError::Name { method: 2, conflict: NameConflict::Serve },
        ]
    );
    assert_eq!(
        NameConflict::ClientNew.message("Svc", "Svc"),
        "method name conflicts with generated fn `SvcClient::new`"
    );
    assert_eq!(
        NameConflict::Serve.message("Svc", "r#Svc"),
        "method name conflicts with generated fn `r#Svc::serve`"
    );
}

#[test]
fn raw_method_name_new_is_accepted() {
    let decl = service("Svc", vec![method("r#new", false, vec![plain_self()])]);
    let plan = match plan_service(&decl) {
        Ok(p) => p,
        Err(_) => panic!("a raw identifier differs from `new`"),
    };
    assert_eq!(plan.variants, vec!["New".to_string()]);
}

#[test]
fn bad_receivers_and_patterns_are_refused() {
    let decl = service(
        "Svc",
        vec![
            method("a", false, vec![plain_self(), ParamShape::Named]),
            method(
                "b",
                false,
                vec![
                    ParamShape::Pattern,
                    plain_self(),
                    ParamShape::Receiver { has_lifetime: true, is_mut: true },
                ],
            ),
            method("new", false, vec![ParamShape::Pattern]),
        ],
    );
    let errs = match plan_service(&decl) {
        Err(e) => e,
        Ok(_) => panic!("expected a refusal"),
    };
    assert_eq!(
        errs,
        vec![
            DeclError::Param { method: 1, param: 0, error: ParamError::PatternNotAllowed },
            DeclError::Param { method: 1, param: 2, error: ParamError::DuplicateSelf },
            DeclError::Param { method: 1, param: 2, error: ParamError::SelfLifetime },
            DeclError::Param { method: 1, param: 2, error: ParamError::SelfMutable },
        ]
    );
}

#[test]
fn param_error_messages() {
    assert_eq!(ParamError::PatternNotAllowed.message(), "patterns aren't allowed in RPC args");
    assert_eq!(ParamError::DuplicateSelf.message(), "duplicate self parameter");
    assert_eq!(ParamError::SelfLifetime.message(), "self parameter cannot have a lifetime");
    assert_eq!(ParamError::SelfMutable.message(), "self parameter cannot be mutable");
}

#[test]
fn method_without_receiver_is_accepted() {
    let decl = service("Svc", vec![method("ping", true, vec![])]);
    assert!(plan_service(&decl).is_ok());
}

#[test]
fn cfg_attributes_are_collected() {
    let mut m = method("ping", false, vec![plain_self()]);
    m.attrs = vec![
        AttrShape { is_outer: true, list_ident: Some("doc".to_string()) },
        AttrShape { is_outer: true, list_ident: Some("cfg".to_string()) },
        AttrShape { is_outer: false, list_ident: Some("cfg".to_string()) },
        AttrShape { is_outer: true, list_ident: None },
        AttrShape { is_outer: true, list_ident: Some("cfg".to_string()) },
    ];
    let decl = service("Svc", vec![m, method("pong", false, vec![plain_self()])]);
    let plan = match plan_service(&decl) {
        Ok(p) => p,
        Err(_) => panic!("accepted"),
    };
    assert_eq!(plan.cfgs, vec![vec![1, 4], vec![]]);
}
