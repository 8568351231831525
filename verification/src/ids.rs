//! Identifier types shared with the embedding editor layer, and the
//! sequential allocator that issues them.
//!
//! The embedder keeps global counters for scene-node and prefab-instance
//! identifiers; here that is an explicit allocator object owned by whoever
//! issues the identifiers, rather than an ambient mutable static.

use vstd::prelude::*;

verus! {

/// Identifies one placed instance of a prefab within a scene.
#[derive(Debug, Clone, Copy, PartialEq, Eq, Hash, Structural)]
pub struct InstanceID(usize);

impl InstanceID {
    pub closed spec fn spec_raw(self) -> usize {
        self.0
    }

    pub fn new(id: usize) -> (r: InstanceID)
        ensures
            r.spec_raw() == id,
    {
        InstanceID(id)
    }

    pub fn as_raw(&self) -> (r: usize)
        ensures
            r == self.spec_raw(),
    {
        self.0
    }
}

/// Identifies one node of a prefab instance within a scene.
#[derive(Debug, Clone, Copy, PartialEq, Eq, Hash, Structural)]
pub struct NodeID(usize);

impl NodeID {
    pub closed spec fn spec_raw(self) -> usize {
        self.0
    }

    pub fn new(id: usize) -> (r: NodeID)
        ensures
            r.spec_raw() == id,
    {
        NodeID(id)
    }

    pub fn as_raw(&self) -> (r: usize)
        ensures
            r == self.spec_raw(),
    {
        self.0
    }
}

/// Whether the editor is currently driving the engine's systems or holding
/// them stopped.
#[derive(Debug, Clone, Copy, PartialEq, Eq, Structural)]
pub enum EditorPlayMode {
    Play,
    Stop,
}

impl EditorPlayMode {
    /// The opposite mode.
    pub open spec fn spec_flipped(self) -> EditorPlayMode {
        match self {
            EditorPlayMode::Play => EditorPlayMode::Stop,
            EditorPlayMode::Stop => EditorPlayMode::Play,
        }
    }

    /// Switches between play and stop.
    pub fn flip(&mut self)
        ensures
            *final(self) == old(self).spec_flipped(),
    {
        *self = match *self {
            EditorPlayMode::Play => EditorPlayMode::Stop,
            EditorPlayMode::Stop => EditorPlayMode::Play,
        };
    }
}

/// Issues fresh identifiers in increasing order.  One allocator serves one
/// identifier space; it never hands out the same raw value twice, and
/// `observe_existing` lets a caller that loads pre-assigned identifiers
/// from a scene keep the allocator ahead of them.
pub struct IdAllocator {
    next_raw: usize,
}

impl IdAllocator {
    /// The raw value the next issued identifier will carry.
    pub closed spec fn spec_next_raw(self) -> usize {
        self.next_raw
    }

    pub fn new(first: usize) -> (r: IdAllocator)
        ensures
            r.spec_next_raw() == first,
    {
        IdAllocator { next_raw: first }
    }

    /// Raises the allocator just past `raw` if an identifier with that raw
    /// value is already in use.
    pub fn observe_existing(&mut self, raw: usize)
        requires
            raw < usize::MAX,
        ensures
            final(self).spec_next_raw() == if raw + 1 > old(self).spec_next_raw() {
                (raw + 1) as usize
            } else {
                old(self).spec_next_raw()
            },
    {
        if raw + 1 > self.next_raw {
            self.next_raw = raw + 1;
        }
    }

    /// Issues the next node identifier.
    pub fn next_node_id(&mut self) -> (r: NodeID)
        requires
            old(self).spec_next_raw() < usize::MAX,
        ensures
            r.spec_raw() == old(self).spec_next_raw(),
            final(self).spec_next_raw() == old(self).spec_next_raw() + 1,
    {
        let raw = self.next_raw;
        self.next_raw = self.next_raw + 1;
        NodeID::new(raw)
    }

    /// Issues the next prefab-instance identifier.
    pub fn next_instance_id(&mut self) -> (r: InstanceID)
        requires
            old(self).spec_next_raw() < usize::MAX,
        ensures
            r.spec_raw() == old(self).spec_next_raw(),
            final(self).spec_next_raw() == old(self).spec_next_raw() + 1,
    {
        let raw = self.next_raw;
        self.next_raw = self.next_raw + 1;
        InstanceID::new(raw)
    }
}

} // verus!
