use app_setup::setup::{
    app_info_handler, app_status_or_default, ping_handler, registration_outcome, run_setup,
    setup_handler, AppInfo, AppServiceError, AuthServiceError, PingResponse, SecretServiceError,
    ServerSettings, SetupPlan, SetupRequest, SetupResponse, SetupRun, SetupStep,
};
use app_setup::store::{AppRegInfo, AppStatus, SecretStore, StoreWrite};

fn settings(host: &str, scheme: &str, port: u16) -> ServerSettings {
    ServerSettings { host: host.to_string(), scheme: scheme.to_string(), port }
}

fn registration() -> AppRegInfo {
    AppRegInfo {
        public_key: "public_key".to_string(),
        alg: "RS256".to_string(),
        kid: "kid".to_string(),
        issuer: "issuer".to_string(),
        client_id: "client_id".to_string(),
        client_secret: "client_secret".to_string(),
    }
}

fn reqwest_failure() -> AuthServiceError {
    AuthServiceError {
        code: "reqwest_error".to_string(),
        error_type: "internal_server_error".to_string(),
        message: "failed to register as resource server".to_string(),
    }
}

/// Runs one setup against a store and hands back the answer and the
/// redirect URIs that were registered.
fn run(
    store: &mut SecretStore,
    request: SetupRequest,
    settings: &ServerSettings,
    registrar: Result<AppRegInfo, AuthServiceError>,
) -> (Result<SetupResponse, AppServiceError>, Option<Vec<String>>) {
    let SetupRun { result, registered } = run_setup(store, &request, settings, registrar);
    (result, registered)
}

#[test]
fn test_app_info_handler() {
    assert_eq!(
        app_info_handler("0.0.0".to_string(), true, None),
        AppInfo { version: "0.0.0".to_string(), status: AppStatus::Setup, authz: true }
    );
    assert_eq!(
        app_info_handler("0.0.0".to_string(), true, Some(AppStatus::Setup)),
        AppInfo { version: "0.0.0".to_string(), status: AppStatus::Setup, authz: true }
    );
    assert_eq!(
        app_info_handler("0.0.0".to_string(), false, Some(AppStatus::Setup)),
        AppInfo { version: "0.0.0".to_string(), status: AppStatus::Setup, authz: false }
    );
}

#[test]
fn app_info_reports_what_is_stored() {
    assert_eq!(
        app_info_handler("1.2.3".to_string(), true, Some(AppStatus::ResourceAdmin)),
        AppInfo { version: "1.2.3".to_string(), status: AppStatus::ResourceAdmin, authz: true }
    );
    assert_eq!(
        app_info_handler(String::new(), false, Some(AppStatus::Ready)),
        AppInfo { version: String::new(), status: AppStatus::Ready, authz: false }
    );
    assert_eq!(app_status_or_default(None), AppStatus::Setup);
    assert_eq!(app_status_or_default(Some(AppStatus::Ready)), AppStatus::Ready);
    assert_eq!(app_status_or_default(Some(AppStatus::ResourceAdmin)), AppStatus::ResourceAdmin);
}

#[test]
fn test_setup_handler_error() {
    let mut store = SecretStore { authz: true, status: AppStatus::Ready, app_reg_info: None };
    let (result, registered) = run(
        &mut store,
        SetupRequest { authz: true },
        &settings("localhost", "http", 1135),
        Ok(registration()),
    );
    let error = result.unwrap_err();
    assert_eq!(error, AppServiceError::AlreadySetup);
    assert_eq!(error.code(), "app_service_error-already_setup");
    assert_eq!(error.error_type(), "invalid_request_error");
    assert_eq!(error.message(), "already_setup");
    assert_eq!(registered, None);
    assert!(store.authz());
    assert_eq!(AppStatus::Ready, store.app_status());
    assert!(store.app_reg_info().is_none());
}

#[test]
fn test_setup_handler_success_for_authz() {
    for mut store in [
        SecretStore::new(),
        SecretStore { authz: true, status: AppStatus::Setup, app_reg_info: None },
    ] {
        let request = SetupRequest { authz: true };
        let (result, registered) = run(
            &mut store,
            request,
            &settings("localhost", "http", 1135),
            Ok(registration()),
        );
        assert_eq!(result, Ok(SetupResponse { status: AppStatus::ResourceAdmin }));
        assert_eq!(AppStatus::ResourceAdmin, store.app_status());
        assert_eq!(store.authz(), request.authz);
        assert_eq!(request.authz, store.app_reg_info().is_some());
        assert_eq!(store.app_reg_info(), &Some(registration()));
        assert_eq!(
            registered,
            Some(vec![
                "http://localhost:1135/app/login/callback".to_string(),
                "http://127.0.0.1:1135/app/login/callback".to_string(),
                "http://0.0.0.0:1135/app/login/callback".to_string(),
            ])
        );
    }
}

#[test]
fn test_setup_handler_success_for_non_authz() {
    for mut store in [
        SecretStore::new(),
        SecretStore { authz: true, status: AppStatus::Setup, app_reg_info: None },
    ] {
        let request = SetupRequest { authz: false };
        let (result, registered) = run(
            &mut store,
            request,
            &settings("localhost", "http", 1135),
            Err(reqwest_failure()),
        );
        assert_eq!(result, Ok(SetupResponse { status: AppStatus::Ready }));
        assert_eq!(registered, None);
        assert_eq!(AppStatus::Ready, store.app_status());
        assert_eq!(&None, store.app_reg_info());
        assert_eq!(false, store.authz());
    }
}

#[test]
fn test_setup_handler_register_resource_error() {
    let mut store = SecretStore::new();
    let before = store.clone();
    let (result, registered) = run(
        &mut store,
        SetupRequest { authz: true },
        &settings("example.com", "https", 443),
        Err(reqwest_failure()),
    );
    let error = result.unwrap_err();
    assert_eq!(error, AppServiceError::AuthServiceError(reqwest_failure()));
    assert_eq!(error.message(), "failed to register as resource server");
    assert_eq!(error.code(), "reqwest_error");
    assert_eq!(error.error_type(), "internal_server_error");
    assert_eq!(registered, Some(vec!["https://example.com:443/app/login/callback".to_string()]));
    assert_eq!(store, before);
    assert_eq!(store.app_status(), AppStatus::Setup);
}

#[test]
fn finished_setup_refuses_every_request() {
    let stores = [
        SecretStore { authz: false, status: AppStatus::Ready, app_reg_info: None },
        SecretStore {
            authz: true,
            status: AppStatus::ResourceAdmin,
            app_reg_info: Some(registration()),
        },
    ];
    for store in stores {
        for authz in [false, true] {
            for registrar in [Ok(registration()), Err(reqwest_failure())] {
                let mut current = store.clone();
                let (result, registered) = run(
                    &mut current,
                    SetupRequest { authz },
                    &settings("0.0.0.0", "http", 8080),
                    registrar,
                );
                assert_eq!(result, Err(AppServiceError::AlreadySetup));
                assert_eq!(registered, None);
                assert_eq!(current, store);
            }
        }
    }
}

#[test]
fn second_setup_is_refused_after_either_mode() {
    for authz in [false, true] {
        let mut store = SecretStore::new();
        let config = settings("example.com", "https", 443);
        let (first, _) = run(&mut store, SetupRequest { authz }, &config, Ok(registration()));
        assert!(first.is_ok());
        let after_first = store.clone();
        let (second, registered) =
            run(&mut store, SetupRequest { authz: !authz }, &config, Ok(registration()));
        assert_eq!(second, Err(AppServiceError::AlreadySetup));
        assert_eq!(registered, None);
        assert_eq!(store, after_first);
    }
}

#[test]
fn setup_decides_without_writing() {
    let config = settings("example.com", "https", 443);
    assert_eq!(
        setup_handler(AppStatus::Setup, &SetupRequest { authz: false }, &config),
        Ok(SetupStep::Persist(SetupPlan {
            writes: vec![StoreWrite::Authz(false), StoreWrite::AppStatus(AppStatus::Ready)],
            response: SetupResponse { status: AppStatus::Ready },
        }))
    );
    assert_eq!(
        setup_handler(AppStatus::Setup, &SetupRequest { authz: true }, &config),
        Ok(SetupStep::Register {
            redirect_uris: vec!["https://example.com:443/app/login/callback".to_string()]
        })
    );
    assert_eq!(
        setup_handler(AppStatus::Ready, &SetupRequest { authz: false }, &config),
        Err(AppServiceError::AlreadySetup)
    );
    assert_eq!(
        setup_handler(AppStatus::ResourceAdmin, &SetupRequest { authz: true }, &config),
        Err(AppServiceError::AlreadySetup)
    );
}

#[test]
fn registration_is_written_first_and_status_last() {
    assert_eq!(
        registration_outcome(Ok(registration())),
        Ok(SetupPlan {
            writes: vec![
                StoreWrite::AppRegInfo(registration()),
                StoreWrite::Authz(true),
                StoreWrite::AppStatus(AppStatus::ResourceAdmin),
            ],
            response: SetupResponse { status: AppStatus::ResourceAdmin },
        })
    );
    assert_eq!(
        registration_outcome(Err(reqwest_failure())),
        Err(AppServiceError::AuthServiceError(reqwest_failure()))
    );
}

#[test]
fn store_applies_writes_in_order() {
    let mut store = SecretStore::new();
    assert_eq!(
        store,
        SecretStore { authz: false, status: AppStatus::Setup, app_reg_info: None }
    );
    store.apply(StoreWrite::Authz(true));
    assert_eq!(store, SecretStore { authz: true, status: AppStatus::Setup, app_reg_info: None });
    store.apply_all(vec![
        StoreWrite::AppStatus(AppStatus::Ready),
        StoreWrite::Authz(false),
        StoreWrite::AppStatus(AppStatus::ResourceAdmin),
        StoreWrite::AppRegInfo(registration()),
        StoreWrite::Authz(true),
    ]);
    assert_eq!(
        store,
        SecretStore {
            authz: true,
            status: AppStatus::ResourceAdmin,
            app_reg_info: Some(registration()),
        }
    );
    let before = store.clone();
    store.apply_all(Vec::new());
    assert_eq!(store, before);
}

#[test]
fn store_failure_keeps_its_cause() {
    let cause = SecretServiceError {
        code: "secret_service_error-key_not_found".to_string(),
        error_type: "internal_server_error".to_string(),
        message: "key not found".to_string(),
    };
    let error = AppServiceError::from(cause.clone());
    assert_eq!(error, AppServiceError::SecretServiceError(cause));
    assert_eq!(error.message(), "key not found");
    assert_eq!(error.code(), "secret_service_error-key_not_found");
    assert_eq!(error.error_type(), "internal_server_error");
    assert_eq!(
        AppServiceError::from(reqwest_failure()),
        AppServiceError::AuthServiceError(reqwest_failure())
    );
}

#[test]
fn ping_answers_pong() {
    assert_eq!(ping_handler(), PingResponse { message: "pong".to_string() });
}

#[test]
fn plan_commits_as_one_step() {
    let mut store = SecretStore::new();
    let plan = registration_outcome(Ok(registration())).unwrap();
    assert_eq!(plan.commit(&mut store), SetupResponse { status: AppStatus::ResourceAdmin });
    assert_eq!(
        store,
        SecretStore {
            authz: true,
            status: AppStatus::ResourceAdmin,
            app_reg_info: Some(registration()),
        }
    );
}
