//! The table of handler registrations.
//!
//! The table only grows. Every registration made for an identifier stays
//! registered, in the order in which it was made; where several were made for
//! one identifier, the one made last is the one a packet is routed to. Once
//! the first packet has been received the table is sealed and takes no more
//! registrations.

use vstd::prelude::*;
use crate::error::PluginError;

verus! {

/// One registration: the packet identifier and the name of the handler that
/// the host is to invoke for it.
#[derive(Clone, Debug, PartialEq, Eq)]
pub struct PacketHandlerInfo {
    pub packet_id: u8,
    pub func_name: String,
}

/// The mathematical model of a registration.
pub struct HandlerEntry {
    pub packet_id: u8,
    pub func_name: Seq<char>,
}

impl View for PacketHandlerInfo {
    type V = HandlerEntry;

    open spec fn view(&self) -> HandlerEntry {
        HandlerEntry { packet_id: self.packet_id, func_name: self.func_name@ }
    }
}

/// The positions, in registration order, of the entries made for `packet_id`.
pub open spec fn spec_handlers_for(entries: Seq<HandlerEntry>, packet_id: u8) -> Seq<int>
    decreases entries.len(),
{
    if entries.len() == 0 {
        Seq::empty()
    } else {
        let earlier = spec_handlers_for(entries.drop_last(), packet_id);
        if entries.last().packet_id == packet_id {
            earlier.push(entries.len() - 1)
        } else {
            earlier
        }
    }
}

/// The position of the entry a packet with `packet_id` is routed to: the last
/// of those made for it, or `None` where none was made.
pub open spec fn spec_select(entries: Seq<HandlerEntry>, packet_id: u8) -> Option<int> {
    let registered = spec_handlers_for(entries, packet_id);
    if registered.len() == 0 {
        None
    } else {
        Some(registered.last())
    }
}

/// What `spec_handlers_for` lists: exactly the positions whose entry was made
/// for `packet_id`, each once, in rising order.
pub proof fn lemma_handlers_for(entries: Seq<HandlerEntry>, packet_id: u8)
    ensures
        forall|k: int|
            0 <= k < spec_handlers_for(entries, packet_id).len() ==> {
                let i = #[trigger] spec_handlers_for(entries, packet_id)[k];
                0 <= i < entries.len() && entries[i].packet_id == packet_id
            },
        forall|k: int, l: int|
            0 <= k < l < spec_handlers_for(entries, packet_id).len() ==> spec_handlers_for(
                entries,
                packet_id,
            )[k] < spec_handlers_for(entries, packet_id)[l],
        forall|i: int|
            0 <= i < entries.len() && (#[trigger] entries[i]).packet_id == packet_id
                ==> spec_handlers_for(entries, packet_id).contains(i),
    decreases entries.len(),
{
    if entries.len() > 0 {
        let shorter = entries.drop_last();
        let earlier = spec_handlers_for(shorter, packet_id);
        let all = spec_handlers_for(entries, packet_id);
        lemma_handlers_for(shorter, packet_id);
        assert forall|i: int|
            0 <= i < entries.len() && (#[trigger] entries[i]).packet_id == packet_id implies all.contains(
            i,
        ) by {
            if i < shorter.len() {
                assert(shorter[i].packet_id == packet_id);
                let k = choose|k: int| 0 <= k < earlier.len() && earlier[k] == i;
                assert(all[k] == i);
            } else {
                assert(all[all.len() - 1] == i);
            }
        }
    }
}

/// What `spec_select` picks: the greatest position whose entry was made for
/// `packet_id`, and `None` exactly where there is no such position.
pub proof fn lemma_select(entries: Seq<HandlerEntry>, packet_id: u8)
    ensures
        match spec_select(entries, packet_id) {
            Some(i) => {
                &&& 0 <= i < entries.len()
                &&& entries[i].packet_id == packet_id
                &&& forall|j: int| i < j < entries.len() ==> (#[trigger] entries[j]).packet_id != packet_id
            },
            None => forall|j: int| 0 <= j < entries.len() ==> (#[trigger] entries[j]).packet_id != packet_id,
        },
{
    let registered = spec_handlers_for(entries, packet_id);
    lemma_handlers_for(entries, packet_id);
    if registered.len() == 0 {
        assert forall|j: int| 0 <= j < entries.len() implies (#[trigger] entries[j]).packet_id
            != packet_id by {
            if entries[j].packet_id == packet_id {
                assert(registered.contains(j));
            }
        }
    } else {
        let i = registered.last();
        assert(registered[registered.len() - 1] == i);
        assert forall|j: int| i < j < entries.len() implies (#[trigger] entries[j]).packet_id
            != packet_id by {
            if entries[j].packet_id == packet_id {
                assert(registered.contains(j));
                let k = choose|k: int| 0 <= k < registered.len() && registered[k] == j;
                if k < registered.len() - 1 {
                    assert(registered[k] < registered[registered.len() - 1]);
                }
            }
        }
    }
}

/// The mathematical model of a registry.
pub struct RegistryView {
    /// The registrations, oldest first.
    pub entries: Seq<HandlerEntry>,
    /// Whether the registry has stopped taking registrations.
    pub sealed: bool,
}

/// The append-only table of registrations.
#[derive(Debug, PartialEq, Eq)]
pub struct Registry {
    entries: Vec<PacketHandlerInfo>,
    sealed: bool,
}

impl View for Registry {
    type V = RegistryView;

    closed spec fn view(&self) -> RegistryView {
        RegistryView {
            entries: self.entries@.map_values(|info: PacketHandlerInfo| info@),
            sealed: self.sealed,
        }
    }
}

impl Registry {
    /// An empty registry that still takes registrations.
    pub fn new() -> (registry: Registry)
        ensures
            registry@.entries == Seq::<HandlerEntry>::empty(),
            !registry@.sealed,
    {
        let registry = Registry { entries: Vec::new(), sealed: false };
        assert(registry@.entries =~= Seq::<HandlerEntry>::empty());
        registry
    }

    /// Appends `info` to the table.
    ///
    /// A sealed registry refuses with `RegistrationClosed` and stays as it
    /// was.
    pub fn register(&mut self, info: PacketHandlerInfo) -> (outcome: Result<(), PluginError>)
        ensures
            final(self)@.sealed == old(self)@.sealed,
            old(self)@.sealed ==> outcome == Err::<(), PluginError>(PluginError::RegistrationClosed)
                && final(self)@.entries == old(self)@.entries,
            !old(self)@.sealed ==> outcome == Ok::<(), PluginError>(()) && final(self)@.entries
                == old(self)@.entries.push(info@),
    {
        if self.sealed {
            Err(PluginError::RegistrationClosed)
        } else {
            self.entries.push(info);
            assert(self@.entries =~= old(self)@.entries.push(info@));
            Ok(())
        }
    }

    /// Stops the registry from taking further registrations.
    pub fn seal(&mut self)
        ensures
            final(self)@.sealed,
            final(self)@.entries == old(self)@.entries,
    {
        self.sealed = true;
    }

    /// Whether the registry has stopped taking registrations.
    pub fn is_sealed(&self) -> (sealed: bool)
        ensures
            sealed == self@.sealed,
    {
        self.sealed
    }

    /// The number of registrations made so far.
    pub fn len(&self) -> (count: usize)
        ensures
            count == self@.entries.len(),
    {
        self.entries.len()
    }

    /// The registration at `position`, counted from the oldest, if there is
    /// one.
    pub fn get(&self, position: usize) -> (info: Option<&PacketHandlerInfo>)
        ensures
            position < self@.entries.len() ==> info.is_some() && info.unwrap()@
                == self@.entries[position as int],
            position >= self@.entries.len() ==> info.is_none(),
    {
        if position < self.entries.len() {
            Some(&self.entries[position])
        } else {
            None
        }
    }

    /// The positions of all registrations made for `packet_id`, in
    /// registration order.
    pub fn handlers_for(&self, packet_id: u8) -> (positions: Vec<usize>)
        ensures
            positions@.map_values(|p: usize| p as int) == spec_handlers_for(
                self@.entries,
                packet_id,
            ),
    {
        let mut positions: Vec<usize> = Vec::new();
        let mut i: usize = 0;
        assert(self@.entries.subrange(0, 0) =~= Seq::<HandlerEntry>::empty());
        while i < self.entries.len()
            invariant
                i <= self.entries.len(),
                positions@.map_values(|p: usize| p as int) =~= spec_handlers_for(
                    self@.entries.subrange(0, i as int),
                    packet_id,
                ),
            decreases self.entries.len() - i,
        {
            let ghost before = self@.entries.subrange(0, i as int);
            let ghost after = self@.entries.subrange(0, i + 1);
            assert(after.drop_last() =~= before);
            assert(after.last() == self.entries[i as int]@);
            if self.entries[i].packet_id == packet_id {
                positions.push(i);
            }
            i += 1;
        }
        assert(self@.entries.subrange(0, i as int) =~= self@.entries);
        positions
    }

    /// The position of the registration a packet with `packet_id` is routed
    /// to: the one made last for that identifier.
    pub fn select(&self, packet_id: u8) -> (chosen: Option<usize>)
        ensures
            match chosen {
                Some(position) => spec_select(self@.entries, packet_id) == Some(position as int),
                None => spec_select(self@.entries, packet_id).is_none(),
            },
    {
        let positions = self.handlers_for(packet_id);
        let ghost registered = positions@.map_values(|p: usize| p as int);
        if positions.len() == 0 {
            assert(registered.len() == 0);
            None
        } else {
            assert(registered.last() == positions[positions.len() - 1] as int);
            Some(positions[positions.len() - 1])
        }
    }
}

} // verus!
