//! Where the random parts of tokens come from.

use vstd::prelude::*;

use crate::ticket::{random_uuid, random_uuid_bytes};

verus! {

/// A UUID that the random generator gave.
pub closed spec fn from_generator(bytes: [u8; 16]) -> bool {
    call_ensures(random_uuid, (), bytes)
}

/// A source of random UUIDs that keeps account, for proofs, of what was drawn
/// from it.
pub struct UuidSource {
    log: Ghost<Seq<[u8; 16]>>,
}

impl UuidSource {
    /// All that was drawn, in order.
    pub closed spec fn drawn(&self) -> Seq<[u8; 16]> {
        self.log@
    }

    /// A source that nothing was drawn from yet.
    pub fn new() -> (source: UuidSource)
        ensures
            source.drawn() == Seq::<[u8; 16]>::empty(),
    {
        UuidSource { log: Ghost(Seq::empty()) }
    }

    /// Draws one more UUID.
    pub fn draw(&mut self) -> (bytes: [u8; 16])
        ensures
            from_generator(bytes),
            random_uuid_bytes(bytes@),
            final(self).drawn() == old(self).drawn().push(bytes),
    {
        let bytes = random_uuid();
        self.log = Ghost(self.log@.push(bytes));
        bytes
    }
}

/// Nothing counts as drawn but what the random generator gave: its contract is
/// all that is known of such a UUID, and no value can be shown to be one
/// without asking the generator.
pub(crate) proof fn drawn_uuids_come_from_the_generator(bytes: [u8; 16])
    ensures
        from_generator(bytes) == call_ensures(random_uuid, (), bytes),
{
}

} // verus!
