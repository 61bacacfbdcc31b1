use compute_stages::declaration::{
    has_unique_slots, BindingDeclaration, BindingEntry, PushConstantRange, ResourceKind,
};
use compute_stages::error::StageError;
use compute_stages::pool::{PoolRange, PoolSizing};

fn uniform(slot: u32) -> BindingEntry {
    BindingEntry { slot, kind: ResourceKind::UniformBuffer }
}

fn storage(slot: u32) -> BindingEntry {
    BindingEntry { slot, kind: ResourceKind::StorageBuffer }
}

#[test]
fn declaration_keeps_entries_in_order() {
    let entries = vec![storage(3), uniform(0), storage(7)];
    let declaration = BindingDeclaration::new(entries.clone(), None).unwrap();
    assert_eq!(declaration.entries(), &entries);
    assert_eq!(declaration.push_constants(), None);
    assert_eq!(declaration.push_constant_len(), 0);
}

#[test]
fn declaration_refuses_a_slot_used_twice() {
    let entries = vec![storage(0), uniform(1), storage(0)];
    assert!(!has_unique_slots(&entries));
    assert!(BindingDeclaration::new(entries, None).is_none());
}

#[test]
fn declaration_refuses_neighbours_with_one_slot() {
    assert!(BindingDeclaration::new(vec![uniform(5), uniform(5)], None).is_none());
}

#[test]
fn declaration_accepts_no_entries() {
    let declaration = BindingDeclaration::new(Vec::new(), None).unwrap();
    assert!(declaration.entries().is_empty());
    assert!(has_unique_slots(&Vec::new()));
}

#[test]
fn declaration_refuses_a_push_range_past_u32() {
    let range = PushConstantRange { offset: u32::MAX - 3, len: 4 };
    assert!(BindingDeclaration::new(vec![storage(0)], Some(range)).is_none());
}

#[test]
fn declaration_accepts_a_push_range_that_ends_at_u32_max() {
    let range = PushConstantRange { offset: u32::MAX - 4, len: 4 };
    let declaration = BindingDeclaration::new(vec![storage(0)], Some(range)).unwrap();
    assert_eq!(declaration.push_constants(), Some(range));
    assert_eq!(declaration.push_constant_len(), 4);
}

#[test]
fn count_of_counts_each_kind() {
    let declaration =
        BindingDeclaration::new(vec![storage(0), uniform(1), storage(2), storage(9)], None).unwrap();
    assert_eq!(declaration.count_of(ResourceKind::StorageBuffer), 3);
    assert_eq!(declaration.count_of(ResourceKind::UniformBuffer), 1);
}

#[test]
fn same_as_compares_slots_kinds_and_range() {
    let range = PushConstantRange { offset: 0, len: 8 };
    let a = BindingDeclaration::new(vec![uniform(0), storage(1)], Some(range)).unwrap();
    let b = BindingDeclaration::new(vec![uniform(0), storage(1)], Some(range)).unwrap();
    let other_order = BindingDeclaration::new(vec![storage(1), uniform(0)], Some(range)).unwrap();
    let other_kind = BindingDeclaration::new(vec![storage(0), storage(1)], Some(range)).unwrap();
    let other_range = BindingDeclaration::new(vec![uniform(0), storage(1)], None).unwrap();
    let shorter = BindingDeclaration::new(vec![uniform(0)], Some(range)).unwrap();
    assert!(a.same_as(&b));
    assert!(!a.same_as(&other_order));
    assert!(!a.same_as(&other_kind));
    assert!(!a.same_as(&other_range));
    assert!(!a.same_as(&shorter));
}

#[test]
fn pool_is_sized_by_the_declaration() {
    let declaration =
        BindingDeclaration::new(vec![uniform(0), storage(1), storage(2)], None).unwrap();
    let sizing = PoolSizing::for_declaration(&declaration);
    assert_eq!(sizing, PoolSizing { max_sets: 3, uniform_buffers: 1, storage_buffers: 2 });
    assert_eq!(
        sizing.ranges(),
        vec![
            PoolRange { kind: ResourceKind::UniformBuffer, count: 1 },
            PoolRange { kind: ResourceKind::StorageBuffer, count: 2 },
        ]
    );
}

#[test]
fn pool_ranges_leave_out_a_kind_without_slots() {
    let declaration = BindingDeclaration::new(vec![storage(0), storage(1)], None).unwrap();
    let sizing = PoolSizing::for_declaration(&declaration);
    assert_eq!(sizing.ranges(), vec![PoolRange { kind: ResourceKind::StorageBuffer, count: 2 }]);
    let none = PoolSizing { max_sets: 0, uniform_buffers: 0, storage_buffers: 0 };
    assert_eq!(none.ranges(), Vec::new());
}

#[test]
fn pool_sized_for_a_declaration_can_give_its_set() {
    let declaration = BindingDeclaration::new(vec![uniform(0), storage(1)], None).unwrap();
    let sizing = PoolSizing::for_declaration(&declaration);
    assert_eq!(sizing.check_allocation(&declaration), Ok(()));
}

#[test]
fn pool_with_too_few_descriptors_is_exhausted() {
    let declaration = BindingDeclaration::new(vec![uniform(0), storage(1), storage(2)], None).unwrap();
    let short_of_storage = PoolSizing { max_sets: 3, uniform_buffers: 1, storage_buffers: 1 };
    let short_of_uniform = PoolSizing { max_sets: 3, uniform_buffers: 0, storage_buffers: 2 };
    assert_eq!(short_of_storage.check_allocation(&declaration), Err(StageError::AllocationExhausted));
    assert_eq!(short_of_uniform.check_allocation(&declaration), Err(StageError::AllocationExhausted));
}

#[test]
fn pool_without_sets_is_exhausted() {
    let declaration = BindingDeclaration::new(vec![storage(0)], None).unwrap();
    let no_sets = PoolSizing { max_sets: 0, uniform_buffers: 4, storage_buffers: 4 };
    assert_eq!(no_sets.check_allocation(&declaration), Err(StageError::AllocationExhausted));
}

#[test]
fn pool_with_room_to_spare_can_give_the_set() {
    let declaration = BindingDeclaration::new(vec![storage(0)], None).unwrap();
    let roomy = PoolSizing { max_sets: 1, uniform_buffers: 2, storage_buffers: 5 };
    assert_eq!(roomy.check_allocation(&declaration), Ok(()));
}
