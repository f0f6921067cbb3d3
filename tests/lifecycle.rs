use vk_bootstrap::lifecycle::{Action, Bootstrap, Event, Stage};
use vk_bootstrap::negotiate::{BootstrapError, BuildConfig};
use vk_bootstrap::version::DriverVersion;

fn names(list: &[&str]) -> Vec<String> {
    list.iter().map(|s| s.to_string()).collect()
}

const VALIDATION: &str = "VK_LAYER_KHRONOS_validation";

fn bring_up(config: BuildConfig) -> Bootstrap {
    let mut b = Bootstrap::new(config);
    assert!(matches!(b.step(Event::EntryLoaded), Action::QueryLayers));
    assert!(matches!(b.step(Event::LayersListed(names(&[VALIDATION]))), Action::QueryRequiredExtensions));
    b
}

#[test]
fn end_to_end_creation_reaches_live() {
    let mut b = bring_up(BuildConfig { validation_enabled: true, macos: false });
    let required = names(&["VK_KHR_surface", "VK_KHR_win32_surface"]);
    match b.step(Event::ExtensionsRequired(required.clone())) {
        Action::CreateInstance(c) => {
            assert_eq!(c.layers, names(&[VALIDATION]));
            assert_eq!(c.extensions, required);
            assert_eq!(c.flags, 0);
        }
        other => panic!("unexpected action {:?}", other),
    }
    assert_eq!(b.stage(), Stage::Creating);
    assert!(matches!(b.step(Event::InstanceCreated), Action::Idle));
    assert!(b.is_live());
}

#[test]
fn destroyed_once_only() {
    let mut b = bring_up(BuildConfig { validation_enabled: true, macos: false });
    b.step(Event::ExtensionsRequired(names(&["VK_KHR_surface"])));
    b.step(Event::InstanceCreated);
    assert!(b.is_live());
    assert_ne!(b.stage(), Stage::Destroyed);
    assert!(matches!(b.step(Event::CloseRequested), Action::Shutdown));
    assert_eq!(b.stage(), Stage::Destroyed);
    assert!(matches!(b.step(Event::CloseRequested), Action::Idle));
    assert!(matches!(b.step(Event::RedrawRequested { exiting: false }), Action::Idle));
    assert_eq!(b.stage(), Stage::Destroyed);
}

#[test]
fn missing_validation_never_creates() {
    let mut b = Bootstrap::new(BuildConfig { validation_enabled: true, macos: false });
    b.step(Event::EntryLoaded);
    let a = b.step(Event::LayersListed(Vec::new()));
    assert!(matches!(a, Action::Abort(BootstrapError::MissingValidationLayer)));
    assert_eq!(b.stage(), Stage::Failed);
    let later = vec![
        Event::ExtensionsRequired(names(&["VK_KHR_surface"])),
        Event::VersionReported(DriverVersion::new(1, 3, 216)),
        Event::InstanceCreated,
        Event::CloseRequested,
    ];
    for e in later {
        assert!(matches!(b.step(e), Action::Idle));
    }
    assert_eq!(b.stage(), Stage::Failed);
}

#[test]
fn macos_asks_version_then_adds_shim() {
    let mut b = bring_up(BuildConfig { validation_enabled: true, macos: true });
    assert!(matches!(b.step(Event::ExtensionsRequired(names(&["VK_KHR_surface"]))), Action::QueryVersion));
    match b.step(Event::VersionReported(DriverVersion::new(1, 3, 216))) {
        Action::CreateInstance(c) => {
            assert_eq!(c.layers, names(&[VALIDATION]));
            assert_eq!(
                c.extensions,
                names(&["VK_KHR_surface", "VK_KHR_get_physical_device_properties2", "VK_KHR_portability_enumeration"])
            );
            assert_eq!(c.flags, 1);
        }
        other => panic!("unexpected action {:?}", other),
    }
}

#[test]
fn macos_old_driver_gets_no_shim() {
    let mut b = bring_up(BuildConfig { validation_enabled: true, macos: true });
    b.step(Event::ExtensionsRequired(names(&["VK_KHR_surface"])));
    match b.step(Event::VersionReported(DriverVersion::new(1, 3, 215))) {
        Action::CreateInstance(c) => {
            assert_eq!(c.extensions, names(&["VK_KHR_surface"]));
            assert_eq!(c.flags, 0);
        }
        other => panic!("unexpected action {:?}", other),
    }
}

#[test]
fn loader_failure_aborts() {
    let mut b = Bootstrap::new(BuildConfig { validation_enabled: false, macos: false });
    assert!(matches!(b.step(Event::LoaderFailed), Action::Abort(BootstrapError::LoaderError)));
    assert_eq!(b.stage(), Stage::Failed);
}

#[test]
fn query_failures_abort() {
    let mut b = Bootstrap::new(BuildConfig { validation_enabled: false, macos: true });
    b.step(Event::EntryLoaded);
    assert!(matches!(b.step(Event::QueryFailed), Action::Abort(BootstrapError::LoaderError)));
    let mut b = bring_up(BuildConfig { validation_enabled: true, macos: true });
    b.step(Event::ExtensionsRequired(Vec::new()));
    assert!(matches!(b.step(Event::QueryFailed), Action::Abort(BootstrapError::LoaderError)));
    assert_eq!(b.stage(), Stage::Failed);
}

#[test]
fn creation_failure_carries_code() {
    let mut b = bring_up(BuildConfig { validation_enabled: true, macos: false });
    b.step(Event::ExtensionsRequired(Vec::new()));
    let a = b.step(Event::CreationFailed(-7));
    assert!(matches!(a, Action::Abort(BootstrapError::InstanceCreationError(-7))));
    assert_eq!(b.stage(), Stage::Failed);
    assert!(!b.is_live());
}

#[test]
fn live_loop_events() {
    let mut b = bring_up(BuildConfig { validation_enabled: true, macos: false });
    b.step(Event::ExtensionsRequired(Vec::new()));
    b.step(Event::InstanceCreated);
    assert!(matches!(b.step(Event::AboutToWait), Action::RequestRedraw));
    assert!(matches!(b.step(Event::RedrawRequested { exiting: false }), Action::Render));
    assert!(matches!(b.step(Event::RedrawRequested { exiting: true }), Action::Idle));
    assert!(b.is_live());
}

#[test]
fn out_of_order_events_are_ignored() {
    let mut b = Bootstrap::new(BuildConfig { validation_enabled: false, macos: false });
    assert!(matches!(b.step(Event::InstanceCreated), Action::Idle));
    assert!(matches!(b.step(Event::CloseRequested), Action::Idle));
    assert_eq!(b.stage(), Stage::Uninitialized);
    assert_eq!(b.config(), BuildConfig { validation_enabled: false, macos: false });
}
