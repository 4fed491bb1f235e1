//! The four fixed group buses and the name-to-bus mapping.
//!
//! An input declares the group bus it feeds by name.  Matching is exact and
//! case-sensitive; a name that matches none of the four buses resolves to
//! nothing, and the caller skips that input's group wiring.

use vstd::prelude::*;

use crate::model::{ChannelStripView, GroupChannelStrips, GroupChannelStripsView, PmxChannelStrip};

verus! {

/// The closed set of group buses.
#[derive(Clone, Copy, PartialEq, Eq, Structural, Debug)]
pub enum GroupBus {
    Drums,
    Bass,
    Melody,
    Atmos,
}

/// The name under which each group bus is declared and created.
pub open spec fn group_bus_name(bus: GroupBus) -> Seq<char> {
    match bus {
        GroupBus::Drums => "Drums"@,
        GroupBus::Bass => "Bass"@,
        GroupBus::Melody => "Melody"@,
        GroupBus::Atmos => "Atmos"@,
    }
}

/// The bus a declared group name selects: exact, case-sensitive match, or
/// nothing.
pub open spec fn group_for_name(name: Seq<char>) -> Option<GroupBus> {
    if name == "Drums"@ {
        Some(GroupBus::Drums)
    } else if name == "Bass"@ {
        Some(GroupBus::Bass)
    } else if name == "Melody"@ {
        Some(GroupBus::Melody)
    } else if name == "Atmos"@ {
        Some(GroupBus::Atmos)
    } else {
        None
    }
}

/// Resolves a declared group name to its bus, exactly as [`group_for_name`].
pub fn resolve_group_bus(name: &String) -> (r: Option<GroupBus>)
    ensures
        r == group_for_name(name@),
{
    if *name == "Drums".to_owned() {
        Some(GroupBus::Drums)
    } else if *name == "Bass".to_owned() {
        Some(GroupBus::Bass)
    } else if *name == "Melody".to_owned() {
        Some(GroupBus::Melody)
    } else if *name == "Atmos".to_owned() {
        Some(GroupBus::Atmos)
    } else {
        None
    }
}

/// The channel strip that backs a bus.
pub open spec fn group_strip_view(
    groups: GroupChannelStripsView,
    bus: GroupBus,
) -> ChannelStripView {
    match bus {
        GroupBus::Drums => groups.drums,
        GroupBus::Bass => groups.bass,
        GroupBus::Melody => groups.melody,
        GroupBus::Atmos => groups.atmos,
    }
}

/// Selects the channel strip that backs a bus.
pub fn group_strip<'a>(groups: &'a GroupChannelStrips, bus: GroupBus) -> (r: &'a PmxChannelStrip)
    ensures
        r.deep_view() == group_strip_view(groups.deep_view(), bus),
{
    match bus {
        GroupBus::Drums => &groups.drums,
        GroupBus::Bass => &groups.bass,
        GroupBus::Melody => &groups.melody,
        GroupBus::Atmos => &groups.atmos,
    }
}

} // verus!
