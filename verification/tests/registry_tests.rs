use node_api::registry::{ErrorGroup, EventGroup, Metadata, MetadataError};
use node_api::types::{
    CallMetadata, ConstantMetadata, ErrorMetadata, EventMetadata, PalletMetadata, StorageMetadata,
    StorageModifier,
};

fn pallet(name: &str, index: u8) -> PalletMetadata {
    PalletMetadata {
        name: name.to_string(),
        index,
        storage: Vec::new(),
        calls: Vec::new(),
        constants: Vec::new(),
    }
}

fn balances_registry() -> Metadata {
    let mut p = pallet("Balances", 5);
    p.calls.push(CallMetadata { name: "transfer".to_string(), index: 0 });
    let errors = vec![ErrorGroup {
        pallet_index: 5,
        errors: vec![ErrorMetadata {
            error: "InsufficientBalance".to_string(),
            description: Some("balance too low".to_string()),
        }],
    }];
    Metadata::new(vec![p], Vec::new(), errors).unwrap()
}

#[test]
fn balances_scenario() {
    let m = balances_registry();
    let pallets = m.pallets();
    assert_eq!(pallets.len(), 1);
    assert_eq!(pallets[0].name, "Balances");

    let errs = m.errors(5);
    assert_eq!(errs.len(), 1);
    assert_eq!(errs[0].error, "InsufficientBalance");
    assert_eq!(errs[0].description, Some("balance too low".to_string()));

    assert!(m.errors(6).is_empty());

    let overview = m.print_overview();
    let a = overview.find("Balances").unwrap();
    let b = overview.find("transfer").unwrap();
    let c = overview.find("InsufficientBalance").unwrap();
    assert!(a < b && b < c);
}

#[test]
fn empty_registry_is_valid() {
    let m = Metadata::new(Vec::new(), Vec::new(), Vec::new()).unwrap();
    assert!(m.pallets().is_empty());
    assert!(m.events(0).is_empty());
    assert_eq!(m.print_overview(), "");
}

#[test]
fn unknown_index_lookups_are_empty() {
    let m = balances_registry();
    assert!(m.events(42).is_empty());
    assert!(m.errors(42).is_empty());
    // The queried pallet exists but registered no events: still empty, not an error.
    assert!(m.events(5).is_empty());
}

#[test]
fn events_preserve_names_and_order() {
    let p = pallet("System", 0);
    let events = vec![EventGroup {
        pallet_index: 0,
        events: vec![
            EventMetadata { event: "ExtrinsicSuccess".to_string(), variant: Vec::new() },
            EventMetadata { event: "ExtrinsicFailed".to_string(), variant: Vec::new() },
            EventMetadata { event: "CodeUpdated".to_string(), variant: Vec::new() },
        ],
    }];
    let m = Metadata::new(vec![p], events, Vec::new()).unwrap();
    let evs = m.events(0);
    assert_eq!(evs.len(), 3);
    assert_eq!(evs[0].event, "ExtrinsicSuccess");
    assert_eq!(evs[1].event, "ExtrinsicFailed");
    assert_eq!(evs[2].event, "CodeUpdated");
}

#[test]
fn duplicate_pallet_index_rejected() {
    let r = Metadata::new(vec![pallet("A", 7), pallet("B", 7)], Vec::new(), Vec::new());
    assert!(matches!(r, Err(MetadataError::DuplicateName(_))));
}

#[test]
fn duplicate_pallet_name_rejected() {
    let r = Metadata::new(vec![pallet("A", 1), pallet("A", 2)], Vec::new(), Vec::new());
    match r {
        Err(MetadataError::DuplicateName(n)) => assert_eq!(n, "A"),
        _ => panic!("expected a DuplicateName rejection"),
    }
}

#[test]
fn duplicate_call_name_rejected() {
    let mut p = pallet("Balances", 5);
    p.calls.push(CallMetadata { name: "transfer".to_string(), index: 0 });
    p.calls.push(CallMetadata { name: "transfer".to_string(), index: 1 });
    let r = Metadata::new(vec![p], Vec::new(), Vec::new());
    match r {
        Err(MetadataError::DuplicateName(n)) => assert_eq!(n, "transfer"),
        _ => panic!("expected a DuplicateName rejection"),
    }
}

#[test]
fn duplicate_storage_name_rejected() {
    let mut p = pallet("System", 0);
    p.storage.push(StorageMetadata {
        name: "Account".to_string(),
        modifier: StorageModifier::Optional,
        ty: "AccountInfo".to_string(),
        default: None,
    });
    p.storage.push(StorageMetadata {
        name: "Account".to_string(),
        modifier: StorageModifier::Optional,
        ty: "AccountInfo".to_string(),
        default: None,
    });
    let r = Metadata::new(vec![p], Vec::new(), Vec::new());
    assert!(matches!(r, Err(MetadataError::DuplicateName(_))));
}

#[test]
fn duplicate_constant_name_rejected() {
    let mut p = pallet("System", 0);
    p.constants.push(ConstantMetadata {
        name: "BlockLength".to_string(),
        ty: "u32".to_string(),
        value: vec![0],
    });
    p.constants.push(ConstantMetadata {
        name: "BlockLength".to_string(),
        ty: "u64".to_string(),
        value: vec![1],
    });
    let r = Metadata::new(vec![p], Vec::new(), Vec::new());
    assert!(matches!(r, Err(MetadataError::DuplicateName(_))));
}

#[test]
fn inconsistent_modifier_rejected() {
    let mut p = pallet("System", 0);
    p.storage.push(StorageMetadata {
        name: "Number".to_string(),
        modifier: StorageModifier::Default,
        ty: "u32".to_string(),
        default: None,
    });
    let r = Metadata::new(vec![p], Vec::new(), Vec::new());
    match r {
        Err(MetadataError::InconsistentModifier(n)) => assert_eq!(n, "Number"),
        _ => panic!("expected an InconsistentModifier rejection"),
    }
}

#[test]
fn default_modifier_with_bytes_accepted() {
    let mut p = pallet("System", 0);
    p.storage.push(StorageMetadata {
        name: "Number".to_string(),
        modifier: StorageModifier::Default,
        ty: "u32".to_string(),
        default: Some(vec![0, 0, 0, 0]),
    });
    assert!(Metadata::new(vec![p], Vec::new(), Vec::new()).is_ok());
}

#[test]
fn dangling_event_index_rejected() {
    let events = vec![EventGroup { pallet_index: 9, events: Vec::new() }];
    let r = Metadata::new(vec![pallet("A", 1)], events, Vec::new());
    match r {
        Err(MetadataError::UnknownPalletIndex(i)) => assert_eq!(i, 9),
        _ => panic!("expected an UnknownPalletIndex rejection"),
    }
}

#[test]
fn dangling_error_index_rejected() {
    let errors = vec![ErrorGroup { pallet_index: 3, errors: Vec::new() }];
    let r = Metadata::new(vec![pallet("A", 1)], Vec::new(), errors);
    assert!(matches!(r, Err(MetadataError::UnknownPalletIndex(3))));
}

#[test]
fn repeated_event_index_rejected() {
    let events = vec![
        EventGroup { pallet_index: 1, events: Vec::new() },
        EventGroup { pallet_index: 1, events: Vec::new() },
    ];
    let r = Metadata::new(vec![pallet("A", 1)], events, Vec::new());
    assert!(matches!(r, Err(MetadataError::UnknownPalletIndex(1))));
}

#[test]
fn accessor_methods_expose_variant_fields() {
    let e = EventMetadata {
        event: "Transfer".to_string(),
        variant: vec!["AccountId".to_string(), "Balance".to_string()],
    };
    assert_eq!(e.event().as_str(), "Transfer");
    assert_eq!(e.variant().len(), 2);
    let r = ErrorMetadata { error: "BadOrigin".to_string(), description: None };
    assert_eq!(r.error().as_str(), "BadOrigin");
    assert!(r.description().is_none());
}
