use serverless_host::instance::{AppType, Instance, NativeAppInstance, OwnedInstance};
use serverless_host::manager::{
    EachAppCache, InstanceManager, UnsafeFunctionCtx, VerifyError, WsFuncError, CRAC_CONFIG_CONTENT,
};
use serverless_host::proto::AppStarted;

fn started(app: &str) -> AppStarted {
    AppStarted { appid: app.to_string(), http_port: None }
}

#[test]
fn load_sync_native_succeeds() {
    let m = InstanceManager::inner_new("/apps");
    assert!(matches!(m.load_instance_sync(&AppType::Native, "n"), Ok(Instance::Native(NativeAppInstance {}))));
}

#[test]
fn load_sync_jar_and_wasm_unsupported() {
    let m = InstanceManager::inner_new("/apps");
    assert!(matches!(m.load_instance_sync(&AppType::Jar, "j"), Err(WsFuncError::UnsupportedAppType)));
    assert!(matches!(m.load_instance_sync(&AppType::Wasm, "w"), Err(WsFuncError::UnsupportedAppType)));
}

#[test]
fn load_native_keeps_no_cache() {
    let mut m = InstanceManager::inner_new("/apps");
    assert!(matches!(m.load_instance(&AppType::Native, "n", 10), Some(Instance::Native(_))));
    assert_eq!(m.app_position("n"), None);
}

#[test]
fn load_wasm_creates_pool_and_reuses() {
    let mut m = InstanceManager::inner_new("/apps");
    let first = m.load_instance(&AppType::Wasm, "img", 10);
    let o = match first {
        Some(Instance::Owned(o)) => o,
        _ => panic!("expected an owned instance"),
    };
    assert_eq!(o.instance_id, 0);
    assert_eq!(o.app, "img");
    assert_eq!(o.dir, "/apps");
    assert_eq!(m.app_position("img"), Some(0));
    m.finish_using("img", Instance::Owned(o), 10);
    match m.load_instance(&AppType::Wasm, "img", 10) {
        Some(Instance::Owned(again)) => assert_eq!(again.instance_id, 0),
        _ => panic!("expected the released instance"),
    }
}

#[test]
fn load_jar_gives_shared_handle() {
    let mut m = InstanceManager::inner_new("/apps");
    match m.load_instance(&AppType::Jar, "calc", 10) {
        Some(Instance::Shared(h)) => assert_eq!(h.app, "calc"),
        _ => panic!("expected a shared handle"),
    }
    match m.load_instance(&AppType::Jar, "calc", 10) {
        Some(Instance::Shared(h)) => assert_eq!(h.app, "calc"),
        _ => panic!("expected a shared handle"),
    }
    assert_eq!(m.app_position("calc"), Some(0));
    assert!(!m.is_verified("calc"));
}

#[test]
fn load_kind_mismatch_is_none() {
    let mut m = InstanceManager::inner_new("/apps");
    assert!(m.load_instance(&AppType::Jar, "calc", 10).is_some());
    assert!(m.load_instance(&AppType::Wasm, "calc", 10).is_none());
    assert!(m.load_instance(&AppType::Wasm, "img", 10).is_some());
    assert!(m.load_instance(&AppType::Jar, "img", 10).is_none());
}

#[test]
fn finish_using_owned_without_pool_creates_one() {
    let mut m = InstanceManager::inner_new("/apps");
    let o = OwnedInstance { instance_id: 42, app: "img".to_string(), dir: "/apps".to_string() };
    m.finish_using("img", Instance::Owned(o), 10);
    match m.load_instance(&AppType::Wasm, "img", 10) {
        Some(Instance::Owned(again)) => assert_eq!(again.instance_id, 42),
        _ => panic!("expected the released instance"),
    }
}

#[test]
fn drop_app_removes_cache_and_reports_kill() {
    let mut m = InstanceManager::inner_new("/apps");
    assert!(m.load_instance(&AppType::Jar, "calc", 10).is_some());
    assert!(m.load_instance(&AppType::Wasm, "img", 10).is_some());
    let c = m.drap_app_instances("calc").unwrap();
    assert!(c.kill());
    assert!(matches!(c, EachAppCache::Shared(_)));
    assert_eq!(m.app_position("calc"), None);
    let d = m.drap_app_instances("img").unwrap();
    assert!(!d.kill());
    assert!(m.drap_app_instances("img").is_none());
}

#[test]
fn verify_once_then_refused() {
    let mut m = InstanceManager::inner_new("/apps");
    assert!(m.load_instance(&AppType::Jar, "calc", 10).is_some());
    assert_eq!(m.verify_app(started("calc")), Ok(()));
    assert!(m.is_verified("calc"));
    assert_eq!(m.verify_app(started("calc")), Err(VerifyError::AlreadyVerified));
    assert!(m.is_verified("calc"));
}

#[test]
fn verify_unknown_app_and_owned_app() {
    let mut m = InstanceManager::inner_new("/apps");
    assert_eq!(m.verify_app(started("ghost")), Err(VerifyError::NoInstance));
    assert!(m.load_instance(&AppType::Wasm, "img", 10).is_some());
    assert_eq!(m.verify_app(started("img")), Err(VerifyError::NotShared));
}

#[test]
fn running_contexts_tracked() {
    let mut m = InstanceManager::inner_new("/apps");
    m.start_running("inst-1", UnsafeFunctionCtx::Sync(3));
    m.start_running("inst-1", UnsafeFunctionCtx::Async(4));
    assert_eq!(m.finish_running("inst-1"), Some(UnsafeFunctionCtx::Async(4)));
    assert_eq!(m.finish_running("inst-1"), None);
}

#[test]
fn crac_config_content_fixed() {
    assert_eq!(CRAC_CONFIG_CONTENT, "type: FILE\naction: ignore\n---\ntype: SOCKET\naction: close");
}
