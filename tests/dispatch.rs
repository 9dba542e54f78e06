use pwrsurge::dispatch::{dispatch_outcome, DispatchOutcome, EntryPoint, SymbolCache, NO_OP_STATUS};

#[test]
fn absent_entry_point_is_a_no_op() {
    let out = dispatch_outcome(None);
    assert_eq!(out, DispatchOutcome::Unhandled);
    assert_eq!(out.status(), NO_OP_STATUS);
    assert_eq!(out.status(), 0);
    assert!(out.needs_diagnostic());
}

#[test]
fn status_is_returned_unchanged() {
    let out = dispatch_outcome(Some(-1));
    assert_eq!(out, DispatchOutcome::Completed(-1));
    assert_eq!(out.status(), -1);
    assert!(out.needs_diagnostic());
    let ok = dispatch_outcome(Some(0));
    assert_eq!(ok.status(), 0);
    assert!(!ok.needs_diagnostic());
}

#[test]
fn entry_point_names() {
    assert_eq!(EntryPoint::Acpi.symbol_name(), "acpi_handler");
    assert_eq!(EntryPoint::Input.symbol_name(), "evdev_handler");
}

#[test]
fn cache_keeps_first_resolution() {
    let mut cache: SymbolCache<u32> = SymbolCache::new();
    assert_eq!(cache.cached(EntryPoint::Acpi), None);
    assert_eq!(cache.record(EntryPoint::Acpi, Some(7)), Some(7));
    assert_eq!(cache.record(EntryPoint::Acpi, Some(9)), Some(7));
    assert_eq!(cache.cached(EntryPoint::Acpi), Some(Some(7)));
    assert_eq!(cache.cached(EntryPoint::Input), None);
    assert_eq!(cache.record(EntryPoint::Input, None), None);
    assert_eq!(cache.record(EntryPoint::Input, Some(3)), None);
    assert_eq!(cache.cached(EntryPoint::Input), Some(None));
}
