use node_api::registry::{ErrorGroup, EventGroup, Metadata};
use node_api::types::{
    CallMetadata, ConstantMetadata, ErrorMetadata, EventMetadata, PalletMetadata, StorageMetadata,
    StorageModifier,
};

fn pallet(name: &str, index: u8) -> PalletMetadata {
    PalletMetadata {
        name: name.to_string(),
        index,
        storage: Vec::new(),
        calls: Vec::new(),
        constants: Vec::new(),
    }
}

fn sample_registry() -> Metadata {
    let mut balances = pallet("Balances", 5);
    balances.calls.push(CallMetadata { name: "transfer".to_string(), index: 0 });
    balances.calls.push(CallMetadata { name: "set_balance".to_string(), index: 1 });
    balances.constants.push(ConstantMetadata {
        name: "ExistentialDeposit".to_string(),
        ty: "u128".to_string(),
        value: vec![1, 0],
    });
    let mut system = pallet("System", 0);
    system.storage.push(StorageMetadata {
        name: "Number".to_string(),
        modifier: StorageModifier::Default,
        ty: "u32".to_string(),
        default: Some(vec![0, 0, 0, 0]),
    });
    system.storage.push(StorageMetadata {
        name: "Digest".to_string(),
        modifier: StorageModifier::Optional,
        ty: "Digest".to_string(),
        default: None,
    });
    let events = vec![EventGroup {
        pallet_index: 5,
        events: vec![EventMetadata {
            event: "Transfer".to_string(),
            variant: vec!["AccountId".to_string(), "Balance".to_string()],
        }],
    }];
    let errors = vec![ErrorGroup {
        pallet_index: 5,
        errors: vec![ErrorMetadata {
            error: "InsufficientBalance".to_string(),
            description: Some("balance too low".to_string()),
        }],
    }];
    Metadata::new(vec![system, balances], events, errors).unwrap()
}

#[test]
fn pallet_header_text_is_exact() {
    let p = pallet("Balances", 5);
    assert_eq!(p.print(), "----------------- Pallet: 'Balances' -----------------\n\nPallet id: 5\n");
}

#[test]
fn pallet_header_renders_large_index() {
    let p = pallet("Custom", 200);
    assert_eq!(p.print(), "----------------- Pallet: 'Custom' -----------------\n\nPallet id: 200\n");
    let max = pallet("Edge", 255);
    assert_eq!(max.print(), "----------------- Pallet: 'Edge' -----------------\n\nPallet id: 255\n");
}

#[test]
fn constants_section_renders_empty_value_bytes() {
    let mut p = pallet("System", 0);
    p.constants.push(ConstantMetadata {
        name: "Version".to_string(),
        ty: "RuntimeVersion".to_string(),
        value: Vec::new(),
    });
    assert_eq!(
        p.print_constants(),
        "----------------- Constants for Pallet: System -----------------\n\n\
         Name: Version, Type \"RuntimeVersion\", Value []\n\n"
    );
}

#[test]
fn calls_section_text_is_exact() {
    let mut p = pallet("Balances", 5);
    p.calls.push(CallMetadata { name: "transfer".to_string(), index: 0 });
    p.calls.push(CallMetadata { name: "set_balance".to_string(), index: 13 });
    assert_eq!(
        p.print_calls(),
        "----------------- Calls for Pallet: Balances -----------------\n\n\
         Name: transfer, index 0\nName: set_balance, index 13\n\n"
    );
}

#[test]
fn constants_section_text_is_exact() {
    let mut p = pallet("Balances", 5);
    p.constants.push(ConstantMetadata {
        name: "ExistentialDeposit".to_string(),
        ty: "u128".to_string(),
        value: vec![1, 0],
    });
    assert_eq!(
        p.print_constants(),
        "----------------- Constants for Pallet: Balances -----------------\n\n\
         Name: ExistentialDeposit, Type \"u128\", Value [1, 0]\n\n"
    );
}

#[test]
fn storage_section_text_is_exact() {
    let mut p = pallet("System", 0);
    p.storage.push(StorageMetadata {
        name: "Number".to_string(),
        modifier: StorageModifier::Default,
        ty: "u32".to_string(),
        default: Some(vec![0, 0, 0, 0]),
    });
    p.storage.push(StorageMetadata {
        name: "Digest".to_string(),
        modifier: StorageModifier::Optional,
        ty: "Digest".to_string(),
        default: None,
    });
    assert_eq!(
        p.print_storages(),
        "----------------- Storages for Pallet: System -----------------\n\n\
         Name: Number, Modifier: Default, Type \"u32\", Default Some([0, 0, 0, 0])\n\
         Name: Digest, Modifier: Optional, Type \"Digest\", Default None\n\n"
    );
}

#[test]
fn event_text_is_exact() {
    let e = EventMetadata {
        event: "Transfer".to_string(),
        variant: vec!["AccountId".to_string(), "Balance".to_string()],
    };
    assert_eq!(e.print(), "Name: Transfer\nVariant: [\"AccountId\", \"Balance\"]\n\n");
    let bare = EventMetadata { event: "CodeUpdated".to_string(), variant: Vec::new() };
    assert_eq!(bare.print(), "Name: CodeUpdated\nVariant: []\n\n");
}

#[test]
fn error_text_is_exact() {
    let e = ErrorMetadata {
        error: "InsufficientBalance".to_string(),
        description: Some("balance too low".to_string()),
    };
    assert_eq!(e.print(), "Name: InsufficientBalance\nDescription: Some(\"balance too low\")\n\n");
    let bare = ErrorMetadata { error: "BadOrigin".to_string(), description: None };
    assert_eq!(bare.print(), "Name: BadOrigin\nDescription: None\n\n");
}

#[test]
fn overview_lists_categories_in_order() {
    let m = sample_registry();
    let expected = "System\n s  Number\n s  Digest\nBalances\n c  transfer\n c  set_balance\n cst  ExistentialDeposit\n e  Transfer\n err  InsufficientBalance\n";
    assert_eq!(m.print_overview(), expected);
}

#[test]
fn rendering_is_deterministic() {
    let m = sample_registry();
    assert_eq!(m.print_overview(), m.print_overview());
    assert_eq!(m.print_pallets(), m.print_pallets());
    assert_eq!(m.print_pallets_with_calls(), m.print_pallets_with_calls());
    assert_eq!(m.print_pallets_with_events(), m.print_pallets_with_events());
}

#[test]
fn print_pallets_renders_every_header() {
    let m = sample_registry();
    assert_eq!(
        m.print_pallets(),
        "----------------- Pallet: 'System' -----------------\n\nPallet id: 0\n\
         ----------------- Pallet: 'Balances' -----------------\n\nPallet id: 5\n"
    );
}

#[test]
fn calls_render_skips_pallets_without_calls() {
    let m = sample_registry();
    let text = m.print_pallets_with_calls();
    assert!(!text.contains("System"));
    assert!(text.contains("Calls for Pallet: Balances"));
}

#[test]
fn constants_render_skips_pallets_without_constants() {
    let m = sample_registry();
    let text = m.print_pallets_with_constants();
    assert!(!text.contains("System"));
    assert!(text.contains("Constants for Pallet: Balances"));
}

#[test]
fn storage_render_skips_pallets_without_storage() {
    let m = sample_registry();
    let text = m.print_pallet_with_storages();
    assert!(!text.contains("Balances"));
    assert!(text.contains("Storages for Pallet: System"));
}

#[test]
fn events_sections_cover_every_pallet() {
    let m = sample_registry();
    assert_eq!(
        m.print_pallets_with_events(),
        "----------------- Events for Pallet: System -----------------\n\n\n\
         ----------------- Events for Pallet: Balances -----------------\n\n\
         Name: Transfer\nVariant: [\"AccountId\", \"Balance\"]\n\n\n"
    );
}

#[test]
fn errors_sections_cover_every_pallet() {
    let m = sample_registry();
    assert_eq!(
        m.print_pallets_with_errors(),
        "----------------- Errors for Pallet: System -----------------\n\n\n\
         ----------------- Errors for Pallet: Balances -----------------\n\n\
         Name: InsufficientBalance\nDescription: Some(\"balance too low\")\n\n\n"
    );
}
