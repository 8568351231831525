//! The boundary to the entity-component store.
//!
//! The kernel owns a world and drains deferred command buffers into it,
//! but never looks inside either: entity storage and queries are the
//! entity-component library's business.  Both types are declared opaque,
//! and the three calls the kernel makes are trusted items.

use vstd::prelude::*;

verus! {

#[verifier::external_type_specification]
#[verifier::external_body]
pub struct ExWorld(hecs::World);

#[verifier::external_type_specification]
#[verifier::external_body]
pub struct ExCommandBuffer(hecs::CommandBuffer);

/// Relies on `hecs::World::new`: creates an entity store holding no
/// entities.  The world is opaque here, so nothing is promised of it.
#[verifier::external_body]
pub(crate) fn new_world() -> hecs::World {
    hecs::World::new()
}

/// Relies on `hecs::CommandBuffer::new`: creates an empty buffer of
/// deferred world commands.  The buffer is opaque here, so nothing is
/// promised of it.
#[verifier::external_body]
pub(crate) fn new_command_buffer() -> hecs::CommandBuffer {
    hecs::CommandBuffer::new()
}

/// Relies on `hecs::CommandBuffer::run_on`: applies every queued command
/// to the world, in the order queued, and leaves the buffer empty.  Both
/// values are opaque here, so nothing is promised of the outcome.
#[verifier::external_body]
pub(crate) fn run_commands(buffer: &mut hecs::CommandBuffer, world: &mut hecs::World) {
    buffer.run_on(world);
}

} // verus!
