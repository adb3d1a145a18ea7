//! Shard identifiers and the layout of a fleet.

use vstd::prelude::*;

verus! {

/// Identifies one shard of a fleet: its number and the size of the fleet.
#[derive(Clone, Copy, Debug, PartialEq, Eq, Structural)]
pub struct ShardId {
    pub number: u32,
    pub total: u32,
}

impl ShardId {
    /// A shard's number lies below the size of its fleet.
    pub open spec fn wf(&self) -> bool {
        self.number < self.total
    }

    /// The identifier of shard `number` out of `total`, where there is one.
    pub fn new(number: u32, total: u32) -> (id: Option<ShardId>)
        ensures
            id is Some <==> number < total,
            id matches Some(id) ==> id == (ShardId { number, total }),
    {
        if number < total {
            Some(ShardId { number, total })
        } else {
            None
        }
    }
}

/// The identifiers of a fleet of `total` shards, in the order in which the
/// shards are created: shard 0 first.
pub open spec fn fleet_ids(total: u32) -> Seq<ShardId> {
    Seq::new(total as nat, |i: int| ShardId { number: i as u32, total })
}

/// Whether `ids` are the identifiers of one whole fleet, in order.
pub open spec fn is_fleet(ids: Seq<ShardId>) -> bool {
    ids.len() <= u32::MAX && ids == fleet_ids(ids.len() as u32)
}

/// Every identifier of a fleet is well formed, and no two are equal.
pub proof fn lemma_fleet_ids_distinct(total: u32)
    ensures
        fleet_ids(total).len() == total,
        forall|i: int| 0 <= i < total ==> (#[trigger] fleet_ids(total)[i]).wf(),
        forall|i: int, j: int|
            0 <= i < total && 0 <= j < total && i != j ==> fleet_ids(total)[i] != fleet_ids(
                total,
            )[j],
{
}

} // verus!
