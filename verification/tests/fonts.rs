use std::cell::Cell;

use sixtyfps_gl_backend::fonts::{
    effective_family, FontCacheKey, FontDatabase, FontRegistry, FontRequest, FontSelection,
};

#[test]
fn empty_family_falls_back_to_sans_serif() {
    assert_eq!(effective_family(&String::new()), None);
    assert_eq!(effective_family(&"Arial".to_string()), Some("Arial".to_string()));
}

#[test]
fn font_cache_key_carries_family_and_weight() {
    let key = FontCacheKey::new(&FontRequest { family: "Mono".to_string(), weight: 700 });
    assert_eq!(key.family, "Mono".to_string());
    assert_eq!(key.weight, 700);
}

#[test]
fn fonts_load_once_per_family_and_weight_and_are_never_evicted() {
    let mut cache = FontDatabase::new();
    let loads = Cell::new(0u32);
    let request = FontRequest { family: "Sans".to_string(), weight: 400 };
    let id = cache.font(&request, || {
        loads.set(loads.get() + 1);
        11
    });
    assert_eq!(id, 11);
    assert_eq!(loads.get(), 1);

    // The same request is answered from the cache, whatever the
    // loader would return.
    let id = cache.font(&request, || {
        loads.set(loads.get() + 1);
        99
    });
    assert_eq!(id, 11);
    assert_eq!(loads.get(), 1);

    // Another weight of the same family is a different font.
    let bold = FontRequest { family: "Sans".to_string(), weight: 700 };
    let id = cache.font(&bold, || {
        loads.set(loads.get() + 1);
        12
    });
    assert_eq!(id, 12);
    assert_eq!(loads.get(), 2);
}

#[test]
fn empty_registry_matches_no_face() {
    let registry = FontRegistry::new();
    assert!(registry.query_face(&String::new(), 400).is_none());
    assert!(registry.query_face(&"Arial".to_string(), 400).is_none());
}

#[test]
fn registering_unparsable_bytes_succeeds_and_matches_nothing() {
    let mut registry = FontRegistry::new();
    registry
        .register_application_font_from_memory(vec![0u8; 32])
        .expect("registration reports success");
    assert!(registry.query_face(&"NoSuchFamily".to_string(), 400).is_none());
}

#[test]
fn system_matching_is_the_fallback_when_the_registry_matches_nothing() {
    let mut registry = FontRegistry::new();
    assert!(matches!(
        registry.select_font_source(&"Arial".to_string(), 400),
        FontSelection::System
    ));
    assert!(matches!(registry.select_font_source(&String::new(), 400), FontSelection::System));
    registry
        .register_application_font_from_memory(vec![1u8; 16])
        .expect("registration reports success");
    assert!(matches!(
        registry.select_font_source(&"Arial".to_string(), 700),
        FontSelection::System
    ));
}
