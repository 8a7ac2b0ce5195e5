use fanwaave_desktop_core::parity_contract_v1::{
    parity_verdict, verify_required_parity_capabilities, AppCapability, AppPlatformAdapter,
    AppSurface, CROSS_PLATFORM_PARITY_CONTRACT_VERSION, FLUTTER_COUNTERPART,
    REQUIRED_PARITY_CAPABILITIES,
};

struct Adapter {
    surface: AppSurface,
    unsupported: Vec<AppCapability>,
}

impl AppPlatformAdapter for Adapter {
    fn surface(&self) -> AppSurface {
        self.surface
    }

    fn spec_supports(&self, capability: AppCapability) -> bool {
        !self.unsupported.contains(&capability)
    }

    fn supports(&self, capability: AppCapability) -> bool {
        !self.unsupported.contains(&capability)
    }
}

#[test]
fn complete_adapter_passes_parity() {
    let adapter = Adapter { surface: AppSurface::RustDesktop, unsupported: vec![] };
    assert_eq!(verify_required_parity_capabilities(&adapter), Ok(()));
    assert_eq!(adapter.surface(), AppSurface::RustDesktop);
}

#[test]
fn missing_capabilities_are_reported_in_contract_order() {
    let adapter = Adapter {
        surface: AppSurface::Mobile,
        unsupported: vec![AppCapability::Telemetry, AppCapability::DesktopNotifications],
    };
    assert_eq!(
        verify_required_parity_capabilities(&adapter),
        Err(vec![AppCapability::DesktopNotifications, AppCapability::Telemetry])
    );
}

#[test]
fn adapter_without_any_capability_misses_all_fifteen() {
    let adapter = Adapter {
        surface: AppSurface::FlutterDesktop,
        unsupported: REQUIRED_PARITY_CAPABILITIES.to_vec(),
    };
    assert_eq!(
        verify_required_parity_capabilities(&adapter),
        Err(REQUIRED_PARITY_CAPABILITIES.to_vec())
    );
}

#[test]
fn verdict_from_answers_lists_false_positions() {
    let mut answers = vec![true; 15];
    assert_eq!(parity_verdict(&answers), Ok(()));
    answers[0] = false;
    answers[14] = false;
    assert_eq!(
        parity_verdict(&answers),
        Err(vec![AppCapability::Authentication, AppCapability::ApplicationUpdates])
    );
}

#[test]
fn contract_constants() {
    assert_eq!(CROSS_PLATFORM_PARITY_CONTRACT_VERSION, 1);
    assert_eq!(FLUTTER_COUNTERPART, "fanwaave/fanwaave-flutter");
    assert_eq!(REQUIRED_PARITY_CAPABILITIES.len(), 15);
    assert_eq!(REQUIRED_PARITY_CAPABILITIES[0], AppCapability::Authentication);
    assert_eq!(REQUIRED_PARITY_CAPABILITIES[14], AppCapability::ApplicationUpdates);
}

#[test]
fn adapter_lacking_telemetry_and_secure_storage() {
    let adapter = Adapter {
        surface: AppSurface::FlutterDesktop,
        unsupported: vec![AppCapability::Telemetry, AppCapability::SecureStorage],
    };
    assert_eq!(
        verify_required_parity_capabilities(&adapter),
        Err(vec![AppCapability::SecureStorage, AppCapability::Telemetry])
    );
    let stronger = Adapter { surface: AppSurface::Mobile, unsupported: vec![AppCapability::Telemetry] };
    assert_eq!(verify_required_parity_capabilities(&stronger), Err(vec![AppCapability::Telemetry]));
}
