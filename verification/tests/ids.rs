//! Identifier types and the sequential allocator.

use bonk_kernel::EditorPlayMode;
use bonk_kernel::IdAllocator;
use bonk_kernel::InstanceID;
use bonk_kernel::NodeID;

#[test]
fn ids_carry_their_raw_value() {
    assert_eq!(InstanceID::new(5).as_raw(), 5);
    assert_eq!(NodeID::new(11).as_raw(), 11);
    assert_eq!(NodeID::new(0), NodeID::new(0));
    assert_ne!(InstanceID::new(1), InstanceID::new(2));
}

#[test]
fn play_mode_flips_back_and_forth() {
    let mut mode = EditorPlayMode::Play;
    mode.flip();
    assert_eq!(mode, EditorPlayMode::Stop);
    mode.flip();
    assert_eq!(mode, EditorPlayMode::Play);
}

#[test]
fn allocator_issues_increasing_ids() {
    let mut nodes = IdAllocator::new(0);
    assert_eq!(nodes.next_node_id().as_raw(), 0);
    assert_eq!(nodes.next_node_id().as_raw(), 1);

    let mut instances = IdAllocator::new(10);
    assert_eq!(instances.next_instance_id().as_raw(), 10);
    assert_eq!(instances.next_instance_id().as_raw(), 11);
}

#[test]
fn allocator_skips_past_observed_ids() {
    let mut nodes = IdAllocator::new(0);
    nodes.observe_existing(7);
    assert_eq!(nodes.next_node_id().as_raw(), 8);
    nodes.observe_existing(3);
    assert_eq!(nodes.next_node_id().as_raw(), 9);
}
