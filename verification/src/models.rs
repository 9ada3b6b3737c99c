//! Data model: tracks, per-tenant state, and the tenant registry.

use std::collections::HashMap;
use std::collections::VecDeque;
use vstd::prelude::*;

use crate::HandleId;

verus! {

broadcast use vstd::std_specs::hash::group_hash_axioms;

/// One audio track: a title, the source URL to resolve at play time, and an
/// optional duration in whole seconds. Immutable once constructed.
#[derive(Clone, Debug)]
pub struct Song {
    pub title: String,
    pub url: String,
    pub duration_secs: Option<u64>,
}

impl Song {
    /// A track is well formed when its source URL is non-empty.
    pub open spec fn wf(self) -> bool {
        self.url@.len() > 0
    }
}

/// The bot's own identity, learned from the gateway's ready event.
pub struct BotData {
    pub id: u64,
}

/// One tenant's playback state: the pending queue (front is next to play)
/// and the identifier of the handle for the currently rendering track, if
/// any. At most one track renders per tenant, so one optional field holds
/// the whole "active" state.
pub struct ServerData {
    pub track_handle: Option<HandleId>,
    pub queue: VecDeque<Song>,
}

impl ServerData {
    /// Every queued track is well formed.
    pub open spec fn wf(self) -> bool {
        forall|i: int| 0 <= i < self.queue@.len() ==> (#[trigger] self.queue@[i]).wf()
    }
}

/// The registry: each tenant id maps to that tenant's playback state. A
/// tenant's entry is created on its first enqueue and persists afterwards.
pub struct DubaServers {
    pub servers: HashMap<u64, ServerData>,
}

impl DubaServers {
    /// Every registered tenant's state is well formed.
    pub open spec fn wf(self) -> bool {
        forall|g: u64|
            self.servers@.contains_key(g) ==> (#[trigger] self.servers@[g]).wf()
    }

    /// Whether the tenant has an entry in the registry.
    pub open spec fn has_tenant(self, guild_id: u64) -> bool {
        self.servers@.contains_key(guild_id)
    }

    /// The tenant's pending queue; a tenant without an entry has an empty one.
    pub open spec fn queue_of(self, guild_id: u64) -> Seq<Song> {
        if self.servers@.contains_key(guild_id) {
            self.servers@[guild_id].queue@
        } else {
            Seq::<Song>::empty()
        }
    }

    /// The tenant's active track handle; a tenant without an entry has none.
    pub open spec fn handle_of(self, guild_id: u64) -> Option<HandleId> {
        if self.servers@.contains_key(guild_id) {
            self.servers@[guild_id].track_handle
        } else {
            None::<HandleId>
        }
    }

    /// All tenants but the given one are untouched.
    pub open spec fn others_unchanged(self, pre: DubaServers, guild_id: u64) -> bool {
        forall|g: u64|
            g != guild_id ==> {
                &&& #[trigger] self.queue_of(g) == pre.queue_of(g)
                &&& self.handle_of(g) == pre.handle_of(g)
                &&& self.has_tenant(g) == pre.has_tenant(g)
            }
    }

    /// An empty registry: no tenants.
    pub fn new() -> (r: DubaServers)
        ensures
            r.wf(),
            forall|g: u64| !(#[trigger] r.has_tenant(g)),
    {
        DubaServers { servers: HashMap::new() }
    }
}

} // verus!
