//! Messages, the dispatcher that routes them, and identifier generation.

pub mod dispatcher;
pub mod message;

use vstd::prelude::*;
use crate::document::LayerId;

verus! {

/// The source of fresh layer identifiers: a counter that wraps around.
#[derive(Clone, Copy, Debug, PartialEq, Eq, Structural)]
pub struct UuidGenerator {
    pub next: u64,
}

impl UuidGenerator {
    /// A generator whose first identifier is `seed`.
    pub fn new(seed: u64) -> (generator: UuidGenerator)
        ensures
            generator.next == seed,
    {
        UuidGenerator { next: seed }
    }

    /// The generator after `count` identifiers were taken from it.
    pub open spec fn advanced(self, count: int) -> UuidGenerator {
        UuidGenerator { next: ((self.next + count) % 0x1_0000_0000_0000_0000) as u64 }
    }

    /// The `index`-th identifier the generator will hand out, counting from zero.
    pub open spec fn nth(self, index: int) -> LayerId {
        self.advanced(index).next
    }
}

/// Takes the next identifier from the generator.
pub fn generate_uuid(generator: &mut UuidGenerator) -> (id: LayerId)
    ensures
        id == old(generator).next,
        *final(generator) == old(generator).advanced(1),
{
    let id = generator.next;
    generator.next = if id == u64::MAX { 0 } else { id + 1 };
    id
}

} // verus!
