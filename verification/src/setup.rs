//! The one-time setup of the application: what is decided before the
//! identity provider is asked, and what is written once it has answered.

use vstd::prelude::*;
use vstd::string::StringExecFns;
use crate::redirect::{build_redirect_uris, redirect_uris, texts};
use crate::store::{AppRegInfo, AppStatus, SecretStore, StoreWrite, apply_writes};

verus! {

/// A failure of the secret store, as the store reported it.
#[derive(Debug, Clone, PartialEq, Eq)]
pub struct SecretServiceError {
    pub code: String,
    pub error_type: String,
    pub message: String,
}

/// A failure of the identity provider, as it was reported upstream.
#[derive(Debug, Clone, PartialEq, Eq)]
pub struct AuthServiceError {
    pub code: String,
    pub error_type: String,
    pub message: String,
}

/// Why a setup request did not go through.
#[derive(Debug, Clone, PartialEq, Eq)]
pub enum AppServiceError {
    AlreadySetup,
    SecretServiceError(SecretServiceError),
    AuthServiceError(AuthServiceError),
}

impl AppServiceError {
    pub open spec fn message_text(self) -> Seq<char> {
        match self {
            AppServiceError::AlreadySetup => "already_setup"@,
            AppServiceError::SecretServiceError(e) => e.message@,
            AppServiceError::AuthServiceError(e) => e.message@,
        }
    }

    pub open spec fn code_text(self) -> Seq<char> {
        match self {
            AppServiceError::AlreadySetup => "app_service_error-already_setup"@,
            AppServiceError::SecretServiceError(e) => e.code@,
            AppServiceError::AuthServiceError(e) => e.code@,
        }
    }

    pub open spec fn error_type_text(self) -> Seq<char> {
        match self {
            AppServiceError::AlreadySetup => "invalid_request_error"@,
            AppServiceError::SecretServiceError(e) => e.error_type@,
            AppServiceError::AuthServiceError(e) => e.error_type@,
        }
    }

    /// The error's own text; that of the cause where there is one.
    pub fn message(&self) -> (s: String)
        ensures
            s@ == self.message_text(),
    {
        match self {
            AppServiceError::AlreadySetup => String::from_str("already_setup"),
            AppServiceError::SecretServiceError(e) => e.message.clone(),
            AppServiceError::AuthServiceError(e) => e.message.clone(),
        }
    }

    /// The stable code by which callers tell the errors apart.
    pub fn code(&self) -> (s: String)
        ensures
            s@ == self.code_text(),
    {
        match self {
            AppServiceError::AlreadySetup => String::from_str("app_service_error-already_setup"),
            AppServiceError::SecretServiceError(e) => e.code.clone(),
            AppServiceError::AuthServiceError(e) => e.code.clone(),
        }
    }

    /// The class of the error: a second setup is the caller's mistake.
    pub fn error_type(&self) -> (s: String)
        ensures
            s@ == self.error_type_text(),
    {
        match self {
            AppServiceError::AlreadySetup => String::from_str("invalid_request_error"),
            AppServiceError::SecretServiceError(e) => e.error_type.clone(),
            AppServiceError::AuthServiceError(e) => e.error_type.clone(),
        }
    }
}

impl From<SecretServiceError> for AppServiceError {
    fn from(e: SecretServiceError) -> (r: AppServiceError) {
        AppServiceError::SecretServiceError(e)
    }
}

impl vstd::std_specs::convert::FromSpecImpl<SecretServiceError> for AppServiceError {
    open spec fn obeys_from_spec() -> bool {
        true
    }

    open spec fn from_spec(e: SecretServiceError) -> AppServiceError {
        AppServiceError::SecretServiceError(e)
    }
}

impl From<AuthServiceError> for AppServiceError {
    fn from(e: AuthServiceError) -> (r: AppServiceError) {
        AppServiceError::AuthServiceError(e)
    }
}

impl vstd::std_specs::convert::FromSpecImpl<AuthServiceError> for AppServiceError {
    open spec fn obeys_from_spec() -> bool {
        true
    }

    open spec fn from_spec(e: AuthServiceError) -> AppServiceError {
        AppServiceError::AuthServiceError(e)
    }
}

/// Version, authorization flag and status of the application.
#[derive(Debug, Clone, PartialEq, Eq)]
pub struct AppInfo {
    pub version: String,
    pub authz: bool,
    pub status: AppStatus,
}

/// A request to set the application up, with or without authorization.
#[derive(Debug, Clone, Copy, PartialEq, Eq)]
pub struct SetupRequest {
    pub authz: bool,
}

/// The status that the application has after its setup.
#[derive(Debug, Clone, Copy, PartialEq, Eq)]
pub struct SetupResponse {
    pub status: AppStatus,
}

/// The answer to a health check.
#[derive(Debug, Clone, PartialEq, Eq)]
pub struct PingResponse {
    pub message: String,
}

/// Where the server listens, as its configuration gives it.
#[derive(Debug, Clone, PartialEq, Eq)]
pub struct ServerSettings {
    pub host: String,
    pub scheme: String,
    pub port: u16,
}

/// The writes that complete a setup, and the answer to give once they are done.
#[derive(Debug, Clone, PartialEq, Eq)]
pub struct SetupPlan {
    pub writes: Vec<StoreWrite>,
    pub response: SetupResponse,
}

/// A plan as its writes in order and the status that it ends in.
pub struct PlanView {
    pub writes: Seq<StoreWrite>,
    pub status: AppStatus,
}

impl View for SetupPlan {
    type V = PlanView;

    open spec fn view(&self) -> PlanView {
        PlanView { writes: self.writes@, status: self.response.status }
    }
}

/// What to do next for a setup request that was accepted.
#[derive(Debug, Clone, PartialEq, Eq)]
pub enum SetupStep {
    /// Register a client with these redirect URIs, then hand the outcome to
    /// `registration_outcome`.
    Register { redirect_uris: Vec<String> },
    /// Nothing to ask of anyone: perform the writes.
    Persist(SetupPlan),
}

/// The decision on a setup request: refuse it, ask the identity provider
/// to register a client with the given redirect URIs, or write at once.
pub enum SetupDecision {
    Refuse(AppServiceError),
    Register(Seq<Seq<char>>),
    Persist(PlanView),
}

/// The writes of a setup without authorization: no registration is made.
pub open spec fn open_access_plan() -> PlanView {
    PlanView {
        writes: seq![StoreWrite::Authz(false), StoreWrite::AppStatus(AppStatus::Ready)],
        status: AppStatus::Ready,
    }
}

/// The writes of a setup with authorization: the registration first, the
/// status last.
pub open spec fn resource_admin_plan(info: AppRegInfo) -> PlanView {
    PlanView {
        writes: seq![
            StoreWrite::AppRegInfo(info),
            StoreWrite::Authz(true),
            StoreWrite::AppStatus(AppStatus::ResourceAdmin),
        ],
        status: AppStatus::ResourceAdmin,
    }
}

/// The decision on a setup request: refused unless the status is `Setup`.
pub open spec fn setup_decision(
    status: AppStatus,
    authz: bool,
    host: Seq<char>,
    scheme: Seq<char>,
    port: u16,
) -> SetupDecision {
    if status != AppStatus::Setup {
        SetupDecision::Refuse(AppServiceError::AlreadySetup)
    } else if authz {
        SetupDecision::Register(redirect_uris(host, scheme, port))
    } else {
        SetupDecision::Persist(open_access_plan())
    }
}

/// The decision after the identity provider answered: its failure is handed
/// on as it came, with nothing to write.
pub open spec fn registration_decision(outcome: Result<AppRegInfo, AuthServiceError>) -> Result<
    PlanView,
    AppServiceError,
> {
    match outcome {
        Ok(info) => Ok(resource_admin_plan(info)),
        Err(e) => Err(AppServiceError::AuthServiceError(e)),
    }
}

/// What a result of `setup_handler` stands for.
pub open spec fn decision_of(r: Result<SetupStep, AppServiceError>) -> SetupDecision {
    match r {
        Err(e) => SetupDecision::Refuse(e),
        Ok(SetupStep::Register { redirect_uris }) => SetupDecision::Register(texts(redirect_uris@)),
        Ok(SetupStep::Persist(plan)) => SetupDecision::Persist(plan@),
    }
}

/// What a result of `registration_outcome` stands for.
pub open spec fn plan_of(r: Result<SetupPlan, AppServiceError>) -> Result<
    PlanView,
    AppServiceError,
> {
    match r {
        Ok(plan) => Ok(plan@),
        Err(e) => Err(e),
    }
}

/// The status that was read from the store, or `Setup` where none was stored.
pub fn app_status_or_default(stored: Option<AppStatus>) -> (status: AppStatus)
    ensures
        status == match stored {
            Some(s) => s,
            None => AppStatus::Setup,
        },
{
    match stored {
        Some(s) => s,
        None => AppStatus::Setup,
    }
}

/// Reports version, authorization flag and status.
pub fn app_info_handler(version: String, authz: bool, stored: Option<AppStatus>) -> (info: AppInfo)
    ensures
        info.version == version,
        info.authz == authz,
        info.status == match stored {
            Some(s) => s,
            None => AppStatus::Setup,
        },
{
    AppInfo { version, authz, status: app_status_or_default(stored) }
}

/// Decides on a setup request, given the status that the store holds.
///
/// A request is accepted only in status `Setup`. With authorization the next
/// step is the registration of a client, and nothing is written before the
/// identity provider has answered; without it the writes are known at once.
pub fn setup_handler(status: AppStatus, request: &SetupRequest, settings: &ServerSettings) -> (r:
    Result<SetupStep, AppServiceError>)
    ensures
        decision_of(r) == setup_decision(
            status,
            request.authz,
            settings.host@,
            settings.scheme@,
            settings.port,
        ),
{
    if status != AppStatus::Setup {
        return Err(AppServiceError::AlreadySetup);
    }
    if request.authz {
        let redirect_uris = build_redirect_uris(
            settings.host.as_str(),
            settings.scheme.as_str(),
            settings.port,
        );
        Ok(SetupStep::Register { redirect_uris })
    } else {
        let mut writes: Vec<StoreWrite> = Vec::new();
        writes.push(StoreWrite::Authz(false));
        writes.push(StoreWrite::AppStatus(AppStatus::Ready));
        assert(writes@ =~= open_access_plan().writes);
        Ok(SetupStep::Persist(SetupPlan { writes, response: SetupResponse { status: AppStatus::Ready } }))
    }
}

/// Decides what to write once the identity provider has answered.
pub fn registration_outcome(outcome: Result<AppRegInfo, AuthServiceError>) -> (r: Result<
    SetupPlan,
    AppServiceError,
>)
    ensures
        plan_of(r) == registration_decision(outcome),
{
    match outcome {
        Ok(info) => {
            let ghost plan = resource_admin_plan(info);
            let mut writes: Vec<StoreWrite> = Vec::new();
            writes.push(StoreWrite::AppRegInfo(info));
            writes.push(StoreWrite::Authz(true));
            writes.push(StoreWrite::AppStatus(AppStatus::ResourceAdmin));
            assert(writes@ =~= plan.writes);
            Ok(SetupPlan { writes, response: SetupResponse { status: AppStatus::ResourceAdmin } })
        },
        Err(e) => Err(AppServiceError::from(e)),
    }
}

impl SetupPlan {
    /// Performs the plan's writes on a store, as one step, and gives the answer.
    pub fn commit(self, store: &mut SecretStore) -> (response: SetupResponse)
        ensures
            *final(store) == apply_writes(*old(store), self@.writes),
            response.status == self@.status,
    {
        store.apply_all(self.writes);
        self.response
    }
}

/// Answers a health check.
pub fn ping_handler() -> (response: PingResponse)
    ensures
        response.message@ == "pong"@,
{
    PingResponse { message: String::from_str("pong") }
}

/// Where one setup request ends: the store afterwards, the answer, and the
/// redirect URIs with which the identity provider was asked, if it was.
pub struct SetupOutcome {
    pub store: SecretStore,
    pub result: Result<AppStatus, AppServiceError>,
    pub registered: Option<Seq<Seq<char>>>,
}

/// One setup request from start to end: the decision on the request, the
/// identity provider's answer where it is asked, and the plan's writes
/// performed as one step. `registrar` is what the identity provider answers
/// if it is asked.
pub open spec fn setup_outcome(
    store: SecretStore,
    authz: bool,
    host: Seq<char>,
    scheme: Seq<char>,
    port: u16,
    registrar: Result<AppRegInfo, AuthServiceError>,
) -> SetupOutcome {
    match setup_decision(store.status, authz, host, scheme, port) {
        SetupDecision::Refuse(e) => SetupOutcome { store, result: Err(e), registered: None },
        SetupDecision::Persist(plan) => SetupOutcome {
            store: apply_writes(store, plan.writes),
            result: Ok(plan.status),
            registered: None,
        },
        SetupDecision::Register(uris) => match registration_decision(registrar) {
            Ok(plan) => SetupOutcome {
                store: apply_writes(store, plan.writes),
                result: Ok(plan.status),
                registered: Some(uris),
            },
            Err(e) => SetupOutcome { store, result: Err(e), registered: Some(uris) },
        },
    }
}

/// What `run_setup` hands back: the answer, and the redirect URIs with which
/// the identity provider was asked, if it was.
#[derive(Debug, PartialEq, Eq)]
pub struct SetupRun {
    pub result: Result<SetupResponse, AppServiceError>,
    pub registered: Option<Vec<String>>,
}

impl View for SetupRun {
    type V = (Result<AppStatus, AppServiceError>, Option<Seq<Seq<char>>>);

    open spec fn view(&self) -> Self::V {
        (
            match self.result {
                Ok(response) => Ok(response.status),
                Err(e) => Err(e),
            },
            match self.registered {
                Some(uris) => Some(texts(uris@)),
                None => None,
            },
        )
    }
}

/// One setup request against a store, for a caller that has the identity
/// provider's answer at hand: decides on the request, takes the answer where
/// the decision asks for it, and performs the plan's writes as one step.
pub fn run_setup(
    store: &mut SecretStore,
    request: &SetupRequest,
    settings: &ServerSettings,
    registrar: Result<AppRegInfo, AuthServiceError>,
) -> (run: SetupRun)
    ensures
        ({
            let outcome = setup_outcome(
                *old(store),
                request.authz,
                settings.host@,
                settings.scheme@,
                settings.port,
                registrar,
            );
            *final(store) == outcome.store && run@ == (outcome.result, outcome.registered)
        }),
{
    match setup_handler(store.app_status(), request, settings) {
        Err(e) => SetupRun { result: Err(e), registered: None },
        Ok(SetupStep::Persist(plan)) => {
            let response = plan.commit(store);
            SetupRun { result: Ok(response), registered: None }
        },
        Ok(SetupStep::Register { redirect_uris }) => match registration_outcome(registrar) {
            Ok(plan) => {
                let response = plan.commit(store);
                SetupRun { result: Ok(response), registered: Some(redirect_uris) }
            },
            Err(e) => SetupRun { result: Err(e), registered: Some(redirect_uris) },
        },
    }
}

/// An application that has left status `Setup` refuses every setup request:
/// the answer is `AlreadySetup`, the store stays as it is, and the identity
/// provider is not asked.
pub proof fn setup_happens_once(
    store: SecretStore,
    authz: bool,
    host: Seq<char>,
    scheme: Seq<char>,
    port: u16,
    registrar: Result<AppRegInfo, AuthServiceError>,
)
    requires
        store.status != AppStatus::Setup,
    ensures
        setup_outcome(store, authz, host, scheme, port, registrar) == (SetupOutcome {
            store,
            result: Err(AppServiceError::AlreadySetup),
            registered: None,
        }),
{
}

/// A setup without authorization, from status `Setup`, ends in status
/// `Ready` with authorization off. The registration is not touched, so a
/// consistent store holds none afterwards, and the identity provider is not
/// asked.
pub proof fn setup_without_authorization(
    store: SecretStore,
    host: Seq<char>,
    scheme: Seq<char>,
    port: u16,
    registrar: Result<AppRegInfo, AuthServiceError>,
)
    requires
        store.status == AppStatus::Setup,
    ensures
        setup_outcome(store, false, host, scheme, port, registrar) == (SetupOutcome {
            store: SecretStore {
                authz: false,
                status: AppStatus::Ready,
                app_reg_info: store.app_reg_info,
            },
            result: Ok(AppStatus::Ready),
            registered: None,
        }),
        store.wf() ==> {
            let after = setup_outcome(store, false, host, scheme, port, registrar).store;
            after.wf() && after.app_reg_info.is_none()
        },
{
    let writes = open_access_plan().writes;
    reveal_with_fuel(apply_writes, 3);
    assert(writes.skip(1) =~= seq![StoreWrite::AppStatus(AppStatus::Ready)]);
    assert(writes.skip(1).skip(1) =~= Seq::<StoreWrite>::empty());
}

/// A setup with authorization, from status `Setup`, where the identity
/// provider hands out a registration, ends in status `ResourceAdmin` with
/// authorization on and that registration stored. The identity provider was
/// asked with the redirect URIs of the configured host.
pub proof fn setup_with_authorization(
    store: SecretStore,
    host: Seq<char>,
    scheme: Seq<char>,
    port: u16,
    info: AppRegInfo,
)
    requires
        store.status == AppStatus::Setup,
    ensures
        setup_outcome(store, true, host, scheme, port, Ok(info)) == (SetupOutcome {
            store: SecretStore {
                authz: true,
                status: AppStatus::ResourceAdmin,
                app_reg_info: Some(info),
            },
            result: Ok(AppStatus::ResourceAdmin),
            registered: Some(redirect_uris(host, scheme, port)),
        }),
        setup_outcome(store, true, host, scheme, port, Ok(info)).store.wf(),
{
    let writes = resource_admin_plan(info).writes;
    reveal_with_fuel(apply_writes, 4);
    assert(writes.skip(1) =~= seq![
        StoreWrite::Authz(true),
        StoreWrite::AppStatus(AppStatus::ResourceAdmin),
    ]);
    assert(writes.skip(1).skip(1) =~= seq![StoreWrite::AppStatus(AppStatus::ResourceAdmin)]);
    assert(writes.skip(1).skip(1).skip(1) =~= Seq::<StoreWrite>::empty());
}

/// A setup with authorization in which the identity provider fails writes
/// nothing: the store stays as it was, status `Setup` included, and the
/// failure is handed on as it came.
pub proof fn failed_registration_writes_nothing(
    store: SecretStore,
    host: Seq<char>,
    scheme: Seq<char>,
    port: u16,
    cause: AuthServiceError,
)
    requires
        store.status == AppStatus::Setup,
    ensures
        setup_outcome(store, true, host, scheme, port, Err(cause)) == (SetupOutcome {
            store,
            result: Err(AppServiceError::AuthServiceError(cause)),
            registered: Some(redirect_uris(host, scheme, port)),
        }),
{
}

/// Whatever the request and the identity provider's answer, a consistent
/// store is consistent after the setup, and its status has changed only if
/// it was `Setup`.
pub proof fn setup_keeps_store_consistent(
    store: SecretStore,
    authz: bool,
    host: Seq<char>,
    scheme: Seq<char>,
    port: u16,
    registrar: Result<AppRegInfo, AuthServiceError>,
)
    requires
        store.wf(),
    ensures
        setup_outcome(store, authz, host, scheme, port, registrar).store.wf(),
        store.status != AppStatus::Setup ==> setup_outcome(
            store,
            authz,
            host,
            scheme,
            port,
            registrar,
        ).store == store,
{
    if store.status == AppStatus::Setup {
        if authz {
            match registrar {
                Ok(info) => {
                    setup_with_authorization(store, host, scheme, port, info);
                },
                Err(cause) => {
                    failed_registration_writes_nothing(store, host, scheme, port, cause);
                },
            }
        } else {
            setup_without_authorization(store, host, scheme, port, registrar);
        }
    }
}

} // verus!
