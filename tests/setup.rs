use openvino::error::{InferenceError, LoadingError, SetupError};
use openvino::setup::{CoreSetup, Discovery, SetupAction};

fn created_path(a: SetupAction) -> String {
    match a {
        SetupAction::CreateCore(p) => p,
        other => panic!("expected a create action, got {:?}", other),
    }
}

#[test]
fn construction_starts_by_loading_the_library() {
    let (_, a) = CoreSetup::new(None);
    assert!(matches!(a, SetupAction::LoadLibrary));
}

#[test]
fn explicit_path_is_used_without_discovery() {
    let (mut s, _) = CoreSetup::new(Some("plugins.xml"));
    let a = s.on_library_loaded(Ok(()));
    assert_eq!(created_path(a), "plugins.xml");
    assert!(matches!(s.on_core_created(0), SetupAction::Ready));
}

#[test]
fn explicit_path_wins_over_a_discovered_one() {
    let (mut s, _) = CoreSetup::new(Some("/etc/mine/plugins.xml"));
    let a = s.on_library_loaded(Ok(()));
    assert!(!matches!(a, SetupAction::FindPluginsXml));
    assert_eq!(created_path(a), "/etc/mine/plugins.xml");
}

#[test]
fn discovered_path_is_used_when_none_is_given() {
    let (mut s, _) = CoreSetup::new(None);
    assert!(matches!(s.on_library_loaded(Ok(())), SetupAction::FindPluginsXml));
    let a = s.on_plugins_xml(Discovery::Found("/opt/intel/plugins.xml".to_string()));
    assert_eq!(created_path(a), "/opt/intel/plugins.xml");
}

#[test]
fn nothing_found_asks_for_engine_defaults() {
    let (mut s, _) = CoreSetup::new(None);
    s.on_library_loaded(Ok(()));
    let a = s.on_plugins_xml(Discovery::NotFound);
    assert_eq!(created_path(a), "");
}

#[test]
fn unrepresentable_discovered_path_fails() {
    let (mut s, _) = CoreSetup::new(None);
    s.on_library_loaded(Ok(()));
    let a = s.on_plugins_xml(Discovery::NotUnicode);
    assert!(matches!(
        a,
        SetupAction::Fail(SetupError::Loading(LoadingError::CannotStringifyPath))
    ));
}

#[test]
fn library_load_failure_keeps_the_message() {
    let (mut s, _) = CoreSetup::new(Some("plugins.xml"));
    let a = s.on_library_loaded(Err("no openvino_c".to_string()));
    match a {
        SetupAction::Fail(SetupError::Loading(LoadingError::SystemFailure(m))) => {
            assert_eq!(m, "no openvino_c")
        }
        other => panic!("unexpected {:?}", other),
    }
}

#[test]
fn failed_create_reports_the_native_status() {
    let (mut s, _) = CoreSetup::new(Some("missing/plugins.xml"));
    s.on_library_loaded(Ok(()));
    let a = s.on_core_created(-1);
    assert!(matches!(
        a,
        SetupAction::Fail(SetupError::Inference(InferenceError { status: -1 }))
    ));
}

#[test]
fn repeated_constructions_are_independent() {
    for _ in 0..3 {
        let (mut s, a) = CoreSetup::new(Some("plugins.xml"));
        assert!(matches!(a, SetupAction::LoadLibrary));
        assert_eq!(created_path(s.on_library_loaded(Ok(()))), "plugins.xml");
        assert!(matches!(s.on_core_created(0), SetupAction::Ready));
    }
}
