//! The decisions behind expanding a service definition: which declarations
//! are refused and why, the names of the generated items, and which items
//! are generated in which order.

use vstd::prelude::*;
use vstd::string::*;
use crate::naming::{ascii_camel_from, camel_case, is_ascii_text, snake_to_camel};

verus! {

/// How one parameter of an RPC method is written in the service trait.
#[derive(Clone, Copy, Debug, PartialEq, Eq, Structural)]
pub enum ParamShape {
    /// A typed parameter whose pattern is a plain identifier.
    Named,
    /// A typed parameter whose pattern is anything else.
    Pattern,
    /// A `self` receiver.
    Receiver { has_lifetime: bool, is_mut: bool },
}

/// Why one parameter of an RPC method is refused.
#[derive(Clone, Copy, Debug, PartialEq, Eq, Structural)]
pub enum ParamError {
    PatternNotAllowed,
    DuplicateSelf,
    SelfLifetime,
    SelfMutable,
}

/// Which generated item an RPC method name would collide with.
#[derive(Clone, Copy, Debug, PartialEq, Eq, Structural)]
pub enum NameConflict {
    /// The method is called `new`, like the client's constructor.
    ClientNew,
    /// The method is called `serve`, like the provider's entry point.
    Serve,
}

/// A refusal of a service definition, located by method and parameter index.
#[derive(Clone, Copy, Debug, PartialEq, Eq, Structural)]
pub enum DeclError {
    Param { method: usize, param: usize, error: ParamError },
    Name { method: usize, conflict: NameConflict },
}

/// How one attribute of an RPC method is written.
pub struct AttrShape {
    /// The attribute is an outer one (`#[..]`, not `#![..]`).
    pub is_outer: bool,
    /// For a list attribute (`#[name(..)]`) whose path is a single
    /// identifier, that identifier; otherwise `None`.
    pub list_ident: Option<String>,
}

/// One RPC method of a service trait.
pub struct MethodDecl {
    /// The method's attributes, in order.
    pub attrs: Vec<AttrShape>,
    /// The method's identifier as it is written (a raw identifier keeps `r#`).
    pub name: String,
    /// The identifier without a raw prefix.
    pub unraw_name: String,
    pub is_async: bool,
    pub params: Vec<ParamShape>,
}

/// A service trait: its name and its RPC methods in order.
pub struct ServiceDecl {
    /// The trait's identifier without a raw prefix.
    pub trait_name: String,
    /// The trait's identifier as it is displayed.
    pub trait_display: String,
    pub methods: Vec<MethodDecl>,
}

/// The items that an expansion emits, in the order they are emitted.
#[derive(Clone, Copy, Debug, PartialEq, Eq, Structural)]
pub enum Section {
    OriginalTrait,
    AsyncProvider,
    AsyncServe,
    RequestEnum,
    ResponseEnum,
    AsyncClientTrait,
    ClientStruct,
    ClientNew,
    AsyncClientMethods,
    AsyncServiceTrait,
    SyncProvider,
    SyncServe,
    SyncClientTrait,
    SyncClientMethods,
    SyncServiceTrait,
}

/// The names of the items generated for a service.
pub struct ServiceNames {
    pub async_service: String,
    pub async_provider: String,
    pub sync_service: String,
    pub sync_provider: String,
    pub client: String,
    pub async_client: String,
    pub sync_client: String,
    pub request: String,
    pub response: String,
}

/// Everything an expansion needs to know besides the tokens themselves.
pub struct ServicePlan {
    pub names: ServiceNames,
    /// The request and response variant of each method, in method order.
    pub variants: Vec<String>,
    /// Every method is synchronous, so the synchronous items are generated too.
    pub all_sync: bool,
    pub sections: Vec<Section>,
    /// For each method, the positions of its `cfg` attributes, which are
    /// repeated on the items generated for it.
    pub cfgs: Vec<Vec<usize>>,
}

/// Some parameter before index `n` is a receiver.
pub open spec fn receiver_before(params: Seq<ParamShape>, n: int) -> bool
    decreases n,
{
    if n <= 0 {
        false
    } else {
        receiver_before(params, n - 1) || params[n - 1] is Receiver
    }
}

/// The refusals of parameter `i`, given the parameters before it.
pub open spec fn param_errors_at(params: Seq<ParamShape>, i: int) -> Seq<ParamError> {
    match params[i] {
        ParamShape::Named => Seq::empty(),
        ParamShape::Pattern => seq![ParamError::PatternNotAllowed],
        ParamShape::Receiver { has_lifetime, is_mut } => {
            (if receiver_before(params, i) { seq![ParamError::DuplicateSelf] } else { Seq::empty() })
            + (if has_lifetime { seq![ParamError::SelfLifetime] } else { Seq::empty() })
            + (if is_mut { seq![ParamError::SelfMutable] } else { Seq::empty() })
        },
    }
}

/// The refusals `errs` of parameter `p` of method `m`, located.
pub open spec fn locate(errs: Seq<ParamError>, m: usize, p: int) -> Seq<DeclError> {
    errs.map_values(|e: ParamError| DeclError::Param { method: m, param: p as usize, error: e })
}

/// The refusals of the first `n` parameters of method `m`, in order.
pub open spec fn param_errors_upto(params: Seq<ParamShape>, m: usize, n: int) -> Seq<DeclError>
    decreases n,
{
    if n <= 0 {
        Seq::empty()
    } else {
        param_errors_upto(params, m, n - 1) + locate(param_errors_at(params, n - 1), m, n - 1)
    }
}

/// The refusals of all parameters of method `m`.
pub open spec fn method_errors(params: Seq<ParamShape>, m: usize) -> Seq<DeclError> {
    param_errors_upto(params, m, params.len() as int)
}

/// The name conflict of method `i`, if any.
pub open spec fn conflict_at(methods: Seq<MethodDecl>, i: int) -> Seq<DeclError> {
    if methods[i].name@ == "new"@ {
        seq![DeclError::Name { method: i as usize, conflict: NameConflict::ClientNew }]
    } else if methods[i].name@ == "serve"@ {
        seq![DeclError::Name { method: i as usize, conflict: NameConflict::Serve }]
    } else {
        Seq::empty()
    }
}

/// The name conflicts of the first `n` methods, in order.
pub open spec fn conflicts_upto(methods: Seq<MethodDecl>, n: int) -> Seq<DeclError>
    decreases n,
{
    if n <= 0 {
        Seq::empty()
    } else {
        conflicts_upto(methods, n - 1) + conflict_at(methods, n - 1)
    }
}

/// The refusals of a service from method `k` on: the parameter refusals of
/// the first method that has any, else the name conflicts of all methods.
pub open spec fn decl_errors_from(methods: Seq<MethodDecl>, k: int) -> Seq<DeclError>
    decreases methods.len() - k,
{
    if k >= methods.len() || k < 0 {
        conflicts_upto(methods, methods.len() as int)
    } else if method_errors(methods[k].params@, k as usize).len() > 0 {
        method_errors(methods[k].params@, k as usize)
    } else {
        decl_errors_from(methods, k + 1)
    }
}

/// The refusals of a service definition.
pub open spec fn decl_errors(methods: Seq<MethodDecl>) -> Seq<DeclError> {
    decl_errors_from(methods, 0)
}

/// No method of the service is asynchronous.
pub open spec fn spec_all_sync(methods: Seq<MethodDecl>) -> bool {
    forall|i: int| 0 <= i < methods.len() ==> !(#[trigger] methods[i]).is_async
}

/// The items emitted for a service, in order.
pub open spec fn spec_sections(all_sync: bool) -> Seq<Section> {
    let base = seq![
        Section::OriginalTrait,
        Section::AsyncProvider,
        Section::AsyncServe,
        Section::RequestEnum,
        Section::ResponseEnum,
        Section::AsyncClientTrait,
        Section::ClientStruct,
        Section::ClientNew,
        Section::AsyncClientMethods,
        Section::AsyncServiceTrait,
    ];
    if all_sync {
        base + seq![
            Section::SyncProvider,
            Section::SyncServe,
            Section::SyncClientTrait,
            Section::SyncClientMethods,
            Section::SyncServiceTrait,
        ]
    } else {
        base
    }
}

/// The attribute is an outer `cfg(..)` attribute.
pub open spec fn is_cfg_attr(a: AttrShape) -> bool {
    a.is_outer && (a.list_ident matches Some(p) && p@ == "cfg"@)
}

/// The positions of the `cfg` attributes among the first `n` attributes.
pub open spec fn cfg_positions(attrs: Seq<AttrShape>, n: int) -> Seq<usize>
    decreases n,
{
    if n <= 0 {
        Seq::empty()
    } else if is_cfg_attr(attrs[n - 1]) {
        cfg_positions(attrs, n - 1).push((n - 1) as usize)
    } else {
        cfg_positions(attrs, n - 1)
    }
}

/// The text of a parameter refusal.
pub open spec fn param_error_text(e: ParamError) -> Seq<char> {
    match e {
        ParamError::PatternNotAllowed => "patterns aren't allowed in RPC args"@,
        ParamError::DuplicateSelf => "duplicate self parameter"@,
        ParamError::SelfLifetime => "self parameter cannot have a lifetime"@,
        ParamError::SelfMutable => "self parameter cannot be mutable"@,
    }
}

/// The text of a name conflict of a method of the trait named `unraw`
/// (displayed as `display`).
pub open spec fn conflict_text(c: NameConflict, unraw: Seq<char>, display: Seq<char>) -> Seq<char> {
    match c {
        NameConflict::ClientNew => "method name conflicts with generated fn `"@ + unraw + "Client::new`"@,
        NameConflict::Serve => "method name conflicts with generated fn `"@ + display + "::serve`"@,
    }
}

impl ParamError {
    /// The message reported for this refusal.
    pub fn message(&self) -> (text: String)
        ensures
            text@ == param_error_text(*self),
    {
        match self {
            ParamError::PatternNotAllowed => String::from_str("patterns aren't allowed in RPC args"),
            ParamError::DuplicateSelf => String::from_str("duplicate self parameter"),
            ParamError::SelfLifetime => String::from_str("self parameter cannot have a lifetime"),
            ParamError::SelfMutable => String::from_str("self parameter cannot be mutable"),
        }
    }
}

impl NameConflict {
    /// The message reported for this conflict in the service whose trait is
    /// `unraw` without a raw prefix and `display` as displayed.
    pub fn message(&self, unraw: &str, display: &str) -> (text: String)
        ensures
            text@ == conflict_text(*self, unraw@, display@),
    {
        let mut text = String::from_str("method name conflicts with generated fn `");
        match self {
            NameConflict::ClientNew => {
                text.append(unraw);
                text.append("Client::new`");
            },
            NameConflict::Serve => {
                text.append(display);
                text.append("::serve`");
            },
        }
        text
    }
}

/// Checks the parameters of method `m` and returns their refusals in order.
pub fn check_params(params: &Vec<ParamShape>, m: usize) -> (errs: Vec<DeclError>)
    ensures
        errs@ == method_errors(params@, m),
{
    let mut errs: Vec<DeclError> = Vec::new();
    let mut has_self = false;
    let mut i: usize = 0;
    while i < params.len()
        invariant
            i <= params@.len(),
            errs@ == param_errors_upto(params@, m, i as int),
            has_self == receiver_before(params@, i as int),
        decreases params@.len() - i,
    {
        let ghost before = errs@;
        let p = params[i];
        match p {
            ParamShape::Named => {},
            ParamShape::Pattern => {
                errs.push(DeclError::Param { method: m, param: i, error: ParamError::PatternNotAllowed });
            },
            ParamShape::Receiver { has_lifetime, is_mut } => {
                if has_self {
                    errs.push(DeclError::Param { method: m, param: i, error: ParamError::DuplicateSelf });
                }
                if has_lifetime {
                    errs.push(DeclError::Param { method: m, param: i, error: ParamError::SelfLifetime });
                }
                if is_mut {
                    errs.push(DeclError::Param { method: m, param: i, error: ParamError::SelfMutable });
                }
                has_self = true;
            },
        }
        assert(errs@ =~= before + locate(param_errors_at(params@, i as int), m, i as int));
        i = i + 1;
    }
    errs
}

/// Checks the names of the methods and returns their conflicts in order.
pub fn check_names(methods: &Vec<MethodDecl>) -> (errs: Vec<DeclError>)
    ensures
        errs@ == conflicts_upto(methods@, methods@.len() as int),
{
    let new_name = String::from_str("new");
    let serve_name = String::from_str("serve");
    let mut errs: Vec<DeclError> = Vec::new();
    let mut i: usize = 0;
    while i < methods.len()
        invariant
            i <= methods@.len(),
            new_name@ == "new"@,
            serve_name@ == "serve"@,
            errs@ == conflicts_upto(methods@, i as int),
        decreases methods@.len() - i,
    {
        let ghost before = errs@;
        let name = &methods[i].name;
        if *name == new_name {
            errs.push(DeclError::Name { method: i, conflict: NameConflict::ClientNew });
        } else if *name == serve_name {
            errs.push(DeclError::Name { method: i, conflict: NameConflict::Serve });
        }
        assert(errs@ =~= before + conflict_at(methods@, i as int));
        i = i + 1;
    }
    errs
}

/// Checks a service definition: the parameter refusals of its first method
/// that has any, else the name conflicts of all its methods.
pub fn check_service(decl: &ServiceDecl) -> (errs: Vec<DeclError>)
    ensures
        errs@ == decl_errors(decl.methods@),
{
    let mut k: usize = 0;
    while k < decl.methods.len()
        invariant
            k <= decl.methods@.len(),
            decl_errors(decl.methods@) == decl_errors_from(decl.methods@, k as int),
        decreases decl.methods@.len() - k,
    {
        let errs = check_params(&decl.methods[k].params, k);
        if errs.len() > 0 {
            return errs;
        }
        k = k + 1;
    }
    check_names(&decl.methods)
}

/// The positions of the `cfg` attributes among `attrs`, in order.
pub fn cfg_attrs(attrs: &Vec<AttrShape>) -> (picked: Vec<usize>)
    ensures
        picked@ == cfg_positions(attrs@, attrs@.len() as int),
        forall|j: int| 0 <= j < picked@.len() ==> #[trigger] picked@[j] < attrs@.len(),
        forall|j: int, k: int| 0 <= j < k < picked@.len() ==> #[trigger] picked@[j] < #[trigger] picked@[k],
        forall|i: int| 0 <= i < attrs@.len() ==> (picked@.contains(i as usize) <==> (
            attrs@[i].is_outer && (attrs@[i].list_ident matches Some(p) && p@ == "cfg"@))),
{
    let cfg_name = String::from_str("cfg");
    let mut picked: Vec<usize> = Vec::new();
    let mut i: usize = 0;
    while i < attrs.len()
        invariant
            i <= attrs@.len(),
            cfg_name@ == "cfg"@,
            picked@ == cfg_positions(attrs@, i as int),
        decreases attrs@.len() - i,
    {
        let a = &attrs[i];
        let is_cfg = a.is_outer && match &a.list_ident {
            Some(p) => *p == cfg_name,
            None => false,
        };
        if is_cfg {
            picked.push(i);
        }
        i = i + 1;
    }
    proof {
        lemma_cfg_positions_exact(attrs@);
    }
    picked
}

/// For each method, the positions of its `cfg` attributes.
pub fn collect_cfg_attrs(methods: &Vec<MethodDecl>) -> (cfgs: Vec<Vec<usize>>)
    ensures
        cfgs@.len() == methods@.len(),
        forall|i: int| 0 <= i < methods@.len()
            ==> #[trigger] cfgs@[i]@ == cfg_positions(methods@[i].attrs@, methods@[i].attrs@.len() as int),
{
    let mut cfgs: Vec<Vec<usize>> = Vec::new();
    let mut i: usize = 0;
    while i < methods.len()
        invariant
            i <= methods@.len(),
            cfgs@.len() == i,
            forall|j: int| 0 <= j < i
                ==> #[trigger] cfgs@[j]@ == cfg_positions(methods@[j].attrs@, methods@[j].attrs@.len() as int),
        decreases methods@.len() - i,
    {
        cfgs.push(cfg_attrs(&methods[i].attrs));
        i = i + 1;
    }
    cfgs
}

/// `base` followed by `suffix`.
fn joined(base: &String, suffix: &str) -> (s: String)
    ensures
        s@ == base@ + suffix@,
{
    let mut s = base.clone();
    s.append(suffix);
    s
}

/// The names of the items generated for the trait named `trait_name`.
pub fn service_names(trait_name: &String) -> (names: ServiceNames)
    ensures
        names.async_service@ == trait_name@ + "AsyncService"@,
        names.async_provider@ == trait_name@ + "AsyncProvider"@,
        names.sync_service@ == trait_name@ + "SyncService"@,
        names.sync_provider@ == trait_name@ + "SyncProvider"@,
        names.client@ == trait_name@ + "Client"@,
        names.async_client@ == trait_name@ + "AsyncClient"@,
        names.sync_client@ == trait_name@ + "SyncClient"@,
        names.request@ == trait_name@ + "Request"@,
        names.response@ == trait_name@ + "Response"@,
{
    ServiceNames {
        async_service: joined(trait_name, "AsyncService"),
        async_provider: joined(trait_name, "AsyncProvider"),
        sync_service: joined(trait_name, "SyncService"),
        sync_provider: joined(trait_name, "SyncProvider"),
        client: joined(trait_name, "Client"),
        async_client: joined(trait_name, "AsyncClient"),
        sync_client: joined(trait_name, "SyncClient"),
        request: joined(trait_name, "Request"),
        response: joined(trait_name, "Response"),
    }
}

/// The variant name of each method: its unraw name in camel case.
pub fn variant_names(methods: &Vec<MethodDecl>) -> (variants: Vec<String>)
    ensures
        variants@.len() == methods@.len(),
        forall|i: int| 0 <= i < methods@.len() ==> #[trigger] variants@[i]@ == camel_case(methods@[i].unraw_name@),
        forall|i: int| 0 <= i < methods@.len() && is_ascii_text(methods@[i].unraw_name@)
            ==> #[trigger] variants@[i]@ == ascii_camel_from(methods@[i].unraw_name@, true),
{
    let mut variants: Vec<String> = Vec::new();
    let mut i: usize = 0;
    while i < methods.len()
        invariant
            i <= methods@.len(),
            variants@.len() == i,
            forall|j: int| 0 <= j < i ==> #[trigger] variants@[j]@ == camel_case(methods@[j].unraw_name@),
            forall|j: int| 0 <= j < i && is_ascii_text(methods@[j].unraw_name@)
                ==> #[trigger] variants@[j]@ == ascii_camel_from(methods@[j].unraw_name@, true),
        decreases methods@.len() - i,
    {
        variants.push(snake_to_camel(methods[i].unraw_name.as_str()));
        i = i + 1;
    }
    variants
}

/// Whether no method is asynchronous.
pub fn all_sync_methods(methods: &Vec<MethodDecl>) -> (all_sync: bool)
    ensures
        all_sync == spec_all_sync(methods@),
{
    let mut i: usize = 0;
    while i < methods.len()
        invariant
            i <= methods@.len(),
            forall|j: int| 0 <= j < i ==> !(#[trigger] methods@[j]).is_async,
        decreases methods@.len() - i,
    {
        if methods[i].is_async {
            return false;
        }
        i = i + 1;
    }
    true
}

/// The items emitted for a service, in order; the synchronous items come
/// last and only when every method is synchronous.
pub fn sections(all_sync: bool) -> (s: Vec<Section>)
    ensures
        s@ == spec_sections(all_sync),
{
    let mut s = vec![
        Section::OriginalTrait,
        Section::AsyncProvider,
        Section::AsyncServe,
        Section::RequestEnum,
        Section::ResponseEnum,
        Section::AsyncClientTrait,
        Section::ClientStruct,
        Section::ClientNew,
        Section::AsyncClientMethods,
        Section::AsyncServiceTrait,
    ];
    if all_sync {
        s.push(Section::SyncProvider);
        s.push(Section::SyncServe);
        s.push(Section::SyncClientTrait);
        s.push(Section::SyncClientMethods);
        s.push(Section::SyncServiceTrait);
    }
    assert(s@ =~= spec_sections(all_sync));
    s
}

/// Plans the expansion of a service definition: refused with its errors,
/// or the names, variants and items to emit.
pub fn plan_service(decl: &ServiceDecl) -> (plan: Result<ServicePlan, Vec<DeclError>>)
    ensures
        plan is Err <==> decl_errors(decl.methods@).len() > 0,
        plan matches Err(errs) ==> errs@ == decl_errors(decl.methods@),
        plan matches Ok(p) ==> {
            &&& p.names.async_service@ == decl.trait_name@ + "AsyncService"@
            &&& p.names.async_provider@ == decl.trait_name@ + "AsyncProvider"@
            &&& p.names.sync_service@ == decl.trait_name@ + "SyncService"@
            &&& p.names.sync_provider@ == decl.trait_name@ + "SyncProvider"@
            &&& p.names.client@ == decl.trait_name@ + "Client"@
            &&& p.names.async_client@ == decl.trait_name@ + "AsyncClient"@
            &&& p.names.sync_client@ == decl.trait_name@ + "SyncClient"@
            &&& p.names.request@ == decl.trait_name@ + "Request"@
            &&& p.names.response@ == decl.trait_name@ + "Response"@
            &&& p.variants@.len() == decl.methods@.len()
            &&& forall|i: int| 0 <= i < decl.methods@.len()
                ==> #[trigger] p.variants@[i]@ == camel_case(decl.methods@[i].unraw_name@)
            &&& forall|i: int| 0 <= i < decl.methods@.len() && is_ascii_text(decl.methods@[i].unraw_name@)
                ==> #[trigger] p.variants@[i]@ == ascii_camel_from(decl.methods@[i].unraw_name@, true)
            &&& p.all_sync == spec_all_sync(decl.methods@)
            &&& p.sections@ == spec_sections(spec_all_sync(decl.methods@))
            &&& p.cfgs@.len() == decl.methods@.len()
            &&& forall|i: int| 0 <= i < decl.methods@.len()
                ==> #[trigger] p.cfgs@[i]@ == cfg_positions(
                    decl.methods@[i].attrs@,
                    decl.methods@[i].attrs@.len() as int,
                )
        },
{
    let errs = check_service(decl);
    if errs.len() > 0 {
        return Err(errs);
    }
    let all_sync = all_sync_methods(&decl.methods);
    Ok(ServicePlan {
        names: service_names(&decl.trait_name),
        variants: variant_names(&decl.methods),
        all_sync,
        sections: sections(all_sync),
        cfgs: collect_cfg_attrs(&decl.methods),
    })
}

/// The parameters a method may have: named parameters, and at most one
/// receiver, which has no lifetime and is not mutable.
pub open spec fn params_accepted(params: Seq<ParamShape>) -> bool {
    forall|i: int| 0 <= i < params.len() ==> match #[trigger] params[i] {
        ParamShape::Named => true,
        ParamShape::Pattern => false,
        ParamShape::Receiver { has_lifetime, is_mut } => !has_lifetime && !is_mut && !receiver_before(params, i),
    }
}

/// No method is named like a generated function.
pub open spec fn names_accepted(methods: Seq<MethodDecl>) -> bool {
    forall|i: int| 0 <= i < methods.len() ==> (#[trigger] methods[i]).name@ != "new"@ && methods[i].name@ != "serve"@
}

proof fn lemma_param_errors_upto_empty(params: Seq<ParamShape>, m: usize, n: int)
    requires
        0 <= n <= params.len(),
    ensures
        param_errors_upto(params, m, n).len() == 0
            <==> forall|i: int| 0 <= i < n ==> (#[trigger] param_errors_at(params, i)).len() == 0,
    decreases n,
{
    if n > 0 {
        lemma_param_errors_upto_empty(params, m, n - 1);
        assert(locate(param_errors_at(params, n - 1), m, n - 1).len() == param_errors_at(params, n - 1).len());
    }
}

/// A method's parameters are refused exactly when they are not all named
/// parameters besides at most one plain receiver.
pub proof fn lemma_method_accepted(params: Seq<ParamShape>, m: usize)
    ensures
        method_errors(params, m).len() == 0 <==> params_accepted(params),
{
    lemma_param_errors_upto_empty(params, m, params.len() as int);
    if method_errors(params, m).len() == 0 {
        assert forall|i: int| 0 <= i < params.len() implies match #[trigger] params[i] {
            ParamShape::Named => true,
            ParamShape::Pattern => false,
            ParamShape::Receiver { has_lifetime, is_mut } => !has_lifetime && !is_mut && !receiver_before(params, i),
        } by {
            assert(param_errors_at(params, i).len() == 0);
        }
    }
    if params_accepted(params) {
        assert forall|i: int| 0 <= i < params.len() implies (#[trigger] param_errors_at(params, i)).len() == 0 by {
            let p = params[i];
        }
    }
}

proof fn lemma_conflicts_upto_empty(methods: Seq<MethodDecl>, n: int)
    requires
        0 <= n <= methods.len(),
    ensures
        conflicts_upto(methods, n).len() == 0
            <==> forall|i: int| 0 <= i < n ==> (#[trigger] methods[i]).name@ != "new"@ && methods[i].name@ != "serve"@,
    decreases n,
{
    if n > 0 {
        lemma_conflicts_upto_empty(methods, n - 1);
    }
}

proof fn lemma_decl_errors_from_empty(methods: Seq<MethodDecl>, k: int)
    requires
        0 <= k <= methods.len(),
    ensures
        decl_errors_from(methods, k).len() == 0 <==> (
            (forall|i: int| k <= i < methods.len() ==> (#[trigger] method_errors(methods[i].params@, i as usize)).len() == 0)
            && conflicts_upto(methods, methods.len() as int).len() == 0),
    decreases methods.len() - k,
{
    if k < methods.len() {
        lemma_decl_errors_from_empty(methods, k + 1);
    }
}

/// A service definition is accepted exactly when every method has only
/// accepted parameters and no method is named `new` or `serve`.
pub proof fn lemma_service_accepted(methods: Seq<MethodDecl>)
    ensures
        decl_errors(methods).len() == 0 <==> (
            (forall|i: int| 0 <= i < methods.len() ==> params_accepted(#[trigger] methods[i].params@))
            && names_accepted(methods)),
{
    lemma_decl_errors_from_empty(methods, 0);
    lemma_conflicts_upto_empty(methods, methods.len() as int);
    assert forall|i: int| 0 <= i < methods.len() implies
        ((#[trigger] method_errors(methods[i].params@, i as usize)).len() == 0 <==> params_accepted(methods[i].params@)) by {
        lemma_method_accepted(methods[i].params@, i as usize);
    }
    if decl_errors(methods).len() == 0 {
        assert forall|i: int| 0 <= i < methods.len() implies params_accepted(#[trigger] methods[i].params@) by {
            assert(method_errors(methods[i].params@, i as usize).len() == 0);
        }
    }
    if (forall|i: int| 0 <= i < methods.len() ==> params_accepted(#[trigger] methods[i].params@)) {
        assert forall|i: int| 0 <= i < methods.len() implies
            (#[trigger] method_errors(methods[i].params@, i as usize)).len() == 0 by {
            assert(params_accepted(methods[i].params@));
        }
    }
}

/// The suffixes that name the items generated for a service, in the order
/// of the fields of `ServiceNames`.
pub open spec fn name_suffixes() -> Seq<Seq<char>> {
    seq![
        "AsyncService"@,
        "AsyncProvider"@,
        "SyncService"@,
        "SyncProvider"@,
        "Client"@,
        "AsyncClient"@,
        "SyncClient"@,
        "Request"@,
        "Response"@,
    ]
}

proof fn lemma_prefix_cancels(p: Seq<char>, a: Seq<char>, b: Seq<char>)
    requires
        p + a == p + b,
    ensures
        a == b,
{
    assert((p + a).skip(p.len() as int) =~= a);
    assert((p + b).skip(p.len() as int) =~= b);
}

/// The items generated for a service never share a name: whatever the
/// trait's name, the nine names built from it are pairwise different.
pub proof fn lemma_generated_names_distinct(trait_name: Seq<char>)
    ensures
        forall|i: int, j: int|
            0 <= i < 9 && 0 <= j < 9 && i != j
                ==> trait_name + #[trigger] name_suffixes()[i] != trait_name + #[trigger] name_suffixes()[j],
{
    reveal_strlit("AsyncService");
    reveal_strlit("AsyncProvider");
    reveal_strlit("SyncService");
    reveal_strlit("SyncProvider");
    reveal_strlit("Client");
    reveal_strlit("AsyncClient");
    reveal_strlit("SyncClient");
    reveal_strlit("Request");
    reveal_strlit("Response");
    let s = name_suffixes();
    assert forall|i: int, j: int|
        0 <= i < 9 && 0 <= j < 9 && i != j implies trait_name + #[trigger] s[i] != trait_name + #[trigger] s[j] by {
        if trait_name + s[i] == trait_name + s[j] {
            lemma_prefix_cancels(trait_name, s[i], s[j]);
            assert(s[i].len() == s[j].len());
            assert(s[i][0] == s[j][0]);
        }
    }
}

proof fn lemma_cfg_positions_upto(attrs: Seq<AttrShape>, n: int)
    requires
        0 <= n <= attrs.len(),
        attrs.len() <= usize::MAX,
    ensures
        forall|j: int| 0 <= j < cfg_positions(attrs, n).len() ==> #[trigger] cfg_positions(attrs, n)[j] < n,
        forall|j: int, k: int| 0 <= j < k < cfg_positions(attrs, n).len()
            ==> #[trigger] cfg_positions(attrs, n)[j] < #[trigger] cfg_positions(attrs, n)[k],
        forall|i: int| 0 <= i < n ==> (cfg_positions(attrs, n).contains(i as usize) <==> (
            attrs[i].is_outer && (attrs[i].list_ident matches Some(p) && p@ == "cfg"@))),
    decreases n,
{
    if n > 0 {
        lemma_cfg_positions_upto(attrs, n - 1);
        let prev = cfg_positions(attrs, n - 1);
        let cur = cfg_positions(attrs, n);
        assert forall|i: int| 0 <= i < n implies (cur.contains(i as usize) <==> (
            attrs[i].is_outer && (attrs[i].list_ident matches Some(p) && p@ == "cfg"@))) by {
            if is_cfg_attr(attrs[n - 1]) {
                assert(cur == prev.push((n - 1) as usize));
                if i < n - 1 {
                    if cur.contains(i as usize) {
                        let j = choose|j: int| 0 <= j < cur.len() && cur[j] == i as usize;
                        if j == prev.len() {
                            assert(cur[j] == (n - 1) as usize);
                        } else {
                            assert(prev[j] == cur[j]);
                        }
                    }
                    if prev.contains(i as usize) {
                        let j = choose|j: int| 0 <= j < prev.len() && prev[j] == i as usize;
                        assert(cur[j] == prev[j]);
                    }
                } else {
                    assert(cur[prev.len() as int] == (n - 1) as usize);
                }
            } else {
                if i == n - 1 {
                    if cur.contains(i as usize) {
                        let j = choose|j: int| 0 <= j < cur.len() && cur[j] == i as usize;
                        assert(cur[j] < n - 1);
                    }
                }
            }
        }
    }
}

/// The positions picked for a method are exactly those of its outer list
/// attributes whose path is the single identifier `cfg`, each once, in
/// increasing order; `cfg_attr`, `doc` and any other attribute are never
/// picked.
pub proof fn lemma_cfg_positions_exact(attrs: Seq<AttrShape>)
    requires
        attrs.len() <= usize::MAX,
    ensures
        forall|j: int| 0 <= j < cfg_positions(attrs, attrs.len() as int).len()
            ==> #[trigger] cfg_positions(attrs, attrs.len() as int)[j] < attrs.len(),
        forall|j: int, k: int| 0 <= j < k < cfg_positions(attrs, attrs.len() as int).len()
            ==> #[trigger] cfg_positions(attrs, attrs.len() as int)[j] < #[trigger] cfg_positions(attrs, attrs.len() as int)[k],
        forall|i: int| 0 <= i < attrs.len() ==> (cfg_positions(attrs, attrs.len() as int).contains(i as usize) <==> (
            attrs[i].is_outer && (attrs[i].list_ident matches Some(p) && p@ == "cfg"@))),
{
    lemma_cfg_positions_upto(attrs, attrs.len() as int);
}

} // verus!
