//! The world: an ordered collection of renderable objects.
//!
//! Object coordinates are kept as the bit patterns of IEEE-754
//! single-precision numbers, so the core can carry them exactly without
//! doing any floating-point arithmetic itself; the embedding shell turns
//! them back into numbers when it uploads a frame to the GPU.

use vstd::prelude::*;

verus! {

/// One renderable object: a position (a pair of single-precision bit
/// patterns) and a rotation (likewise a bit pattern). An object has no
/// identity beyond its index in the world.
#[derive(Debug, Clone, Copy, PartialEq, Eq)]
pub struct GameObject {
    pub position: (u32, u32),
    pub rotation: u32,
}

/// The ordered world. Insertion order is draw order; nothing is ever
/// removed.
pub struct EngineWorld {
    pub objects: Vec<GameObject>,
}

impl View for EngineWorld {
    type V = Seq<GameObject>;

    open spec fn view(&self) -> Seq<GameObject> {
        self.objects@
    }
}

impl EngineWorld {
    /// An empty world.
    pub fn new() -> (w: Self)
        ensures
            w@ == Seq::<GameObject>::empty(),
    {
        let w = EngineWorld { objects: Vec::new() };
        proof {
            assert(w.objects@ =~= Seq::<GameObject>::empty());
        }
        w
    }

    /// Appends one object at the given position, behind every existing
    /// object, with a rotation of positive zero (whose bit pattern is zero).
    pub fn add_object(&mut self, position: (u32, u32))
        ensures
            final(self)@ == old(self)@.push(GameObject { position, rotation: 0 }),
    {
        self.objects.push(GameObject { position, rotation: 0 });
    }
}

} // verus!
