//! The routing table: for each guild, the channel that receives its forwards.

use std::collections::HashMap;
use vstd::prelude::*;

verus! {

broadcast use vstd::std_specs::hash::group_hash_axioms;

/// One row of the durable routing store. The store keeps identifiers as
/// signed 64-bit integers, so each unsigned identifier is kept by its bit
/// pattern.
#[derive(Clone, Copy, Debug, PartialEq, Eq, Structural)]
pub struct StoredRoute {
    pub guild_id: i64,
    pub channel_id: i64,
}

/// The signed value that has the same 64 bits as `x`.
pub open spec fn stored_value(x: u64) -> i64 {
    if x <= i64::MAX as u64 {
        x as i64
    } else {
        (x as int - 0x1_0000_0000_0000_0000) as i64
    }
}

/// The unsigned value that has the same 64 bits as `x`.
pub open spec fn loaded_value(x: i64) -> u64 {
    if x >= 0 {
        x as u64
    } else {
        (x as int + 0x1_0000_0000_0000_0000) as u64
    }
}

/// The row that stores the route from `guild` to `channel`.
pub open spec fn row_of(guild: u64, channel: u64) -> StoredRoute {
    StoredRoute { guild_id: stored_value(guild), channel_id: stored_value(channel) }
}

/// The routes that a sequence of rows describes, a later row for a guild
/// replacing an earlier one.
pub open spec fn routes_of_rows(rows: Seq<StoredRoute>) -> Map<u64, u64>
    decreases rows.len(),
{
    if rows.len() == 0 {
        Map::empty()
    } else {
        let last = rows.last();
        routes_of_rows(rows.drop_last()).insert(
            loaded_value(last.guild_id),
            loaded_value(last.channel_id),
        )
    }
}

/// Converts an identifier to the signed form the durable store keeps.
pub fn to_stored(x: u64) -> (r: i64)
    ensures
        r == stored_value(x),
        loaded_value(r) == x,
{
    if x <= i64::MAX as u64 {
        x as i64
    } else {
        let below: u64 = u64::MAX - x;
        -(below as i64) - 1
    }
}

/// Converts a signed identifier read from the durable store back.
pub fn from_stored(x: i64) -> (r: u64)
    ensures
        r == loaded_value(x),
        stored_value(r) == x,
{
    if x >= 0 {
        x as u64
    } else {
        let above: i64 = x + 1;
        let magnitude: u64 = (-above) as u64;
        u64::MAX - magnitude
    }
}

/// Guild to target channel. Each guild has at most one entry; setting it
/// again replaces the channel.
pub struct RoutingTable {
    routes: HashMap<u64, u64>,
}

impl View for RoutingTable {
    type V = Map<u64, u64>;

    closed spec fn view(&self) -> Map<u64, u64> {
        self.routes@
    }
}

impl RoutingTable {
    /// A table with no routes.
    pub fn new() -> (r: RoutingTable)
        ensures
            r@ == Map::<u64, u64>::empty(),
    {
        RoutingTable { routes: HashMap::new() }
    }

    /// The channel that receives the forwards of `guild`, if one is set.
    pub fn get(&self, guild: u64) -> (r: Option<u64>)
        ensures
            r == (if self@.contains_key(guild) {
                Some(self@[guild])
            } else {
                None::<u64>
            }),
    {
        match self.routes.get(&guild) {
            Some(c) => Some(*c),
            None => None,
        }
    }

    /// Routes `guild` to `channel`, replacing any earlier route of that
    /// guild, and returns the row to write to the durable store.
    pub fn set(&mut self, guild: u64, channel: u64) -> (row: StoredRoute)
        ensures
            final(self)@ == old(self)@.insert(guild, channel),
            row == row_of(guild, channel),
    {
        self.routes.insert(guild, channel);
        StoredRoute { guild_id: to_stored(guild), channel_id: to_stored(channel) }
    }

    /// Builds the table from the rows of the durable store, read in order.
    pub fn load_all(rows: &Vec<StoredRoute>) -> (r: RoutingTable)
        ensures
            r@ == routes_of_rows(rows@),
    {
        let mut table = RoutingTable::new();
        let mut i: usize = 0;
        while i < rows.len()
            invariant
                i <= rows@.len(),
                table@ == routes_of_rows(rows@.take(i as int)),
            decreases rows@.len() - i,
        {
            let row = rows[i];
            table.routes.insert(from_stored(row.guild_id), from_stored(row.channel_id));
            proof {
                assert(rows@.take(i + 1).drop_last() == rows@.take(i as int));
            }
            i = i + 1;
        }
        proof {
            assert(rows@.take(rows@.len() as int) == rows@);
        }
        table
    }
}

/// Writing the row that `set` returns and loading the store again restores
/// the route: whatever rows were stored before, the reloaded table sends the
/// guild to the channel that was set last.
pub proof fn lemma_reload_restores_route(earlier: Seq<StoredRoute>, guild: u64, channel: u64)
    ensures
        routes_of_rows(earlier.push(row_of(guild, channel))).contains_key(guild),
        routes_of_rows(earlier.push(row_of(guild, channel)))[guild] == channel,
{
    let rows = earlier.push(row_of(guild, channel));
    assert(rows.drop_last() == earlier);
    assert(loaded_value(stored_value(guild)) == guild);
    assert(loaded_value(stored_value(channel)) == channel);
}

} // verus!
