use iidm::iidm_ecs::{find_physical_asset_by_id, spawn_physical_asset};
use iidm::{PhysicalAssetRegistry, RecordHandle};

#[test]
fn test_spawn_physical_asset() {
    let mut registry = PhysicalAssetRegistry::default();

    let test_id = "test_asset_1".to_string();
    let entity = registry.spawn_physical_asset(test_id.clone());

    assert!(registry.contains_key(&test_id));
    assert_eq!(registry.find(&test_id), Some(entity));
}

#[test]
fn test_find_physical_asset_by_id() {
    let mut registry = PhysicalAssetRegistry::default();

    let id1 = "asset_1".to_string();
    let id2 = "asset_2".to_string();

    let entity1 = registry.spawn_physical_asset(id1.clone());
    let entity2 = registry.spawn_physical_asset(id2.clone());

    assert_eq!(registry.find_physical_asset_by_id(&id1), Some(entity1));
    assert_eq!(registry.find_physical_asset_by_id(&id2), Some(entity2));
    assert_ne!(entity1, entity2);

    assert_eq!(registry.find_physical_asset_by_id("non_existent"), None);
}

#[test]
fn test_multiple_assets_registration() {
    let mut registry = PhysicalAssetRegistry::default();

    let entities: Vec<(String, RecordHandle)> = (0..5)
        .map(|i| {
            let id = format!("asset_{}", i);
            let entity = registry.spawn_physical_asset(id.clone());
            (id, entity)
        })
        .collect();

    for (id, entity) in entities {
        assert_eq!(registry.find_physical_asset_by_id(&id), Some(entity));
    }

    assert_eq!(registry.len(), 5);
}

#[test]
fn upsert_hands_back_the_handle_that_the_identity_has() {
    let mut registry = PhysicalAssetRegistry::new();
    assert!(registry.is_empty());
    let first = registry.upsert("a");
    let other = registry.upsert("b");
    let again = registry.upsert("a");
    assert_eq!(first, again);
    assert_ne!(first, other);
    assert_eq!(registry.len(), 2);
    assert_eq!(registry.minted(), 2);
    assert_eq!(registry.find("A"), None);
}

#[test]
fn a_spawn_for_a_known_identity_mints_anew() {
    let mut registry = PhysicalAssetRegistry::new();
    let first = spawn_physical_asset(&mut registry, "a".to_string());
    let second = spawn_physical_asset(&mut registry, "a".to_string());
    assert_ne!(first, second);
    assert_ne!(first.to_bits(), second.to_bits());
    assert_eq!(find_physical_asset_by_id(&registry, "a"), Some(second));
    assert_eq!(registry.len(), 1);
    assert_eq!(registry.minted(), 2);
}

#[test]
fn a_minted_handle_carries_the_count_of_handles_before_it() {
    let mut registry = PhysicalAssetRegistry::new();
    let first = registry.spawn_physical_asset("a".to_string());
    let second = registry.spawn_physical_asset("b".to_string());
    let third = registry.spawn_physical_asset("a".to_string());
    assert_eq!(first.to_bits(), 0);
    assert_eq!(second.to_bits(), 1);
    assert_eq!(third.to_bits(), 2);
    assert_eq!(registry.find("a"), Some(third));
    assert_eq!(registry.find("b"), Some(second));
}
