use sns_testing::memory_fault::{check_if_expanded, resolve_fault, FaultResolution, TrackedMemories};

#[test]
fn address_goes_to_the_highest_base_below_it() {
    let memories = TrackedMemories::new(vec![3000, 1000, 2000]);
    assert_eq!(memories.memory_for_address(2500), 2);
    assert_eq!(memories.memory_for_address(1000), 1);
    assert_eq!(memories.memory_for_address(9999), 0);
    assert_eq!(memories.memory_for_address(2000), 2);
}

#[test]
fn address_below_every_base_goes_to_the_lowest() {
    let memories = TrackedMemories::new(vec![3000, 1000, 2000]);
    assert_eq!(memories.memory_for_address(5), 1);
}

#[test]
fn equal_bases_keep_their_order() {
    let memories = TrackedMemories::new(vec![100, 100, 50]);
    // The last of the memories with the highest base below the address.
    assert_eq!(memories.memory_for_address(200), 1);
    // Below every base: the first in base order.
    let memories = TrackedMemories::new(vec![100, 100]);
    assert_eq!(memories.memory_for_address(0), 0);
}

#[test]
fn heap_size_is_pages_times_the_wasm_page() {
    assert_eq!(check_if_expanded(0, 65_535, 1), Some(65_536));
    assert_eq!(check_if_expanded(0, 65_536, 1), None);
    assert_eq!(check_if_expanded(1_000, 1_000 + 3 * 65_536 - 1, 3), Some(3 * 65_536));
    assert_eq!(check_if_expanded(1_000, 999, 3), None);
    assert_eq!(check_if_expanded(1_000, 1_000, 0), None);
}

#[test]
fn fault_resolution() {
    assert!(resolve_fault(true, 0, 0, 10) == FaultResolution::HandleAccess);
    assert!(resolve_fault(false, 4096, 2, 4096 + 70_000) == FaultResolution::Expand { heap_size: 131_072 });
    assert!(resolve_fault(false, 4096, 2, 4096 + 131_072) == FaultResolution::Unhandled);
    assert!(resolve_fault(false, 4096, 2, 4000) == FaultResolution::Unhandled);
}
