//! Entity resolution: first-match lookup in a snapshot list.
//!
//! Every wiring stage maps a target identifier (a port path, a numeric id, a
//! strip name, a group-bus name) to the matching snapshot record.  Absence of
//! a match is a normal outcome, never an error: the callers skip the affected
//! connection and go on.

use vstd::prelude::*;

use crate::model::{
    ChannelStripView, ListNode, ListPort, NodeView, PluginView, PmxChannelStrip, PmxPlugin,
    PortView,
};

verus! {

/// First port whose path equals `path`, if any.
pub open spec fn find_port(ports: Seq<PortView>, path: Seq<char>) -> Option<PortView>
    decreases ports.len(),
{
    if ports.len() == 0 {
        None
    } else if ports[0].path == path {
        Some(ports[0])
    } else {
        find_port(ports.drop_first(), path)
    }
}

/// First node whose object serial equals `serial`, if any.
pub open spec fn find_node(nodes: Seq<NodeView>, serial: u32) -> Option<NodeView>
    decreases nodes.len(),
{
    if nodes.len() == 0 {
        None
    } else if nodes[0].object_serial == serial {
        Some(nodes[0])
    } else {
        find_node(nodes.drop_first(), serial)
    }
}

/// First plugin whose id equals `id`, if any.
pub open spec fn find_plugin(plugins: Seq<PluginView>, id: u32) -> Option<PluginView>
    decreases plugins.len(),
{
    if plugins.len() == 0 {
        None
    } else if plugins[0].id == id {
        Some(plugins[0])
    } else {
        find_plugin(plugins.drop_first(), id)
    }
}

/// First channel strip whose name equals `name`, if any.
pub open spec fn find_strip_by_name(
    strips: Seq<ChannelStripView>,
    name: Seq<char>,
) -> Option<ChannelStripView>
    decreases strips.len(),
{
    if strips.len() == 0 {
        None
    } else if strips[0].name == name {
        Some(strips[0])
    } else {
        find_strip_by_name(strips.drop_first(), name)
    }
}

/// First channel strip whose id equals `id`, if any.
pub open spec fn find_strip_by_id(
    strips: Seq<ChannelStripView>,
    id: u32,
) -> Option<ChannelStripView>
    decreases strips.len(),
{
    if strips.len() == 0 {
        None
    } else if strips[0].id == id {
        Some(strips[0])
    } else {
        find_strip_by_id(strips.drop_first(), id)
    }
}

/// Lookup through an optional key: an absent key resolves to nothing.
pub open spec fn find_plugin_opt(plugins: Seq<PluginView>, id: Option<u32>) -> Option<PluginView> {
    match id {
        Some(i) => find_plugin(plugins, i),
        None => None,
    }
}

/// Lookup through an optional port path: an absent path resolves to nothing.
pub open spec fn resolve_port(path: Option<Seq<char>>, ports: Seq<PortView>) -> Option<PortView> {
    match path {
        Some(p) => find_port(ports, p),
        None => None,
    }
}

proof fn lemma_find_port_skip(ports: Seq<PortView>, path: Seq<char>, i: int)
    requires
        0 <= i <= ports.len(),
        forall|j: int| 0 <= j < i ==> ports[j].path != path,
    ensures
        find_port(ports, path) == find_port(ports.skip(i), path),
    decreases i,
{
    if i == 0 {
        assert(ports.skip(0) =~= ports);
    } else {
        lemma_find_port_skip(ports.drop_first(), path, i - 1);
        assert(ports.drop_first().skip(i - 1) =~= ports.skip(i));
    }
}

proof fn lemma_find_node_skip(nodes: Seq<NodeView>, serial: u32, i: int)
    requires
        0 <= i <= nodes.len(),
        forall|j: int| 0 <= j < i ==> nodes[j].object_serial != serial,
    ensures
        find_node(nodes, serial) == find_node(nodes.skip(i), serial),
    decreases i,
{
    if i == 0 {
        assert(nodes.skip(0) =~= nodes);
    } else {
        lemma_find_node_skip(nodes.drop_first(), serial, i - 1);
        assert(nodes.drop_first().skip(i - 1) =~= nodes.skip(i));
    }
}

proof fn lemma_find_plugin_skip(plugins: Seq<PluginView>, id: u32, i: int)
    requires
        0 <= i <= plugins.len(),
        forall|j: int| 0 <= j < i ==> plugins[j].id != id,
    ensures
        find_plugin(plugins, id) == find_plugin(plugins.skip(i), id),
    decreases i,
{
    if i == 0 {
        assert(plugins.skip(0) =~= plugins);
    } else {
        lemma_find_plugin_skip(plugins.drop_first(), id, i - 1);
        assert(plugins.drop_first().skip(i - 1) =~= plugins.skip(i));
    }
}

proof fn lemma_find_strip_by_name_skip(strips: Seq<ChannelStripView>, name: Seq<char>, i: int)
    requires
        0 <= i <= strips.len(),
        forall|j: int| 0 <= j < i ==> strips[j].name != name,
    ensures
        find_strip_by_name(strips, name) == find_strip_by_name(strips.skip(i), name),
    decreases i,
{
    if i == 0 {
        assert(strips.skip(0) =~= strips);
    } else {
        lemma_find_strip_by_name_skip(strips.drop_first(), name, i - 1);
        assert(strips.drop_first().skip(i - 1) =~= strips.skip(i));
    }
}

proof fn lemma_find_strip_by_id_skip(strips: Seq<ChannelStripView>, id: u32, i: int)
    requires
        0 <= i <= strips.len(),
        forall|j: int| 0 <= j < i ==> strips[j].id != id,
    ensures
        find_strip_by_id(strips, id) == find_strip_by_id(strips.skip(i), id),
    decreases i,
{
    if i == 0 {
        assert(strips.skip(0) =~= strips);
    } else {
        lemma_find_strip_by_id_skip(strips.drop_first(), id, i - 1);
        assert(strips.drop_first().skip(i - 1) =~= strips.skip(i));
    }
}

/// A path that matches no port in the snapshot resolves to nothing.
pub proof fn lemma_find_port_none(ports: Seq<PortView>, path: Seq<char>)
    requires
        forall|j: int| 0 <= j < ports.len() ==> (#[trigger] ports[j]).path != path,
    ensures
        find_port(ports, path) is None,
    decreases ports.len(),
{
    if ports.len() > 0 {
        assert forall|j: int| 0 <= j < ports.drop_first().len() implies (#[trigger] ports.drop_first()[j]).path
            != path by {
            assert(ports.drop_first()[j] == ports[j + 1]);
        }
        lemma_find_port_none(ports.drop_first(), path);
    }
}

/// Copy of one port record.
pub fn clone_port(p: &ListPort) -> (r: ListPort)
    ensures
        r.deep_view() == p.deep_view(),
{
    ListPort { id: p.id, path: p.path.clone(), node_id: p.node_id }
}

/// Copy of one node record.
pub fn clone_node(n: &ListNode) -> (r: ListNode)
    ensures
        r.deep_view() == n.deep_view(),
{
    ListNode { object_serial: n.object_serial, name: n.name.clone() }
}

/// Copy of one plugin record.
pub fn clone_plugin(p: &PmxPlugin) -> (r: PmxPlugin)
    ensures
        r.deep_view() == p.deep_view(),
{
    PmxPlugin { id: p.id, name: p.name.clone() }
}

/// Copy of one channel-strip record.
pub fn clone_strip(s: &PmxChannelStrip) -> (r: PmxChannelStrip)
    ensures
        r.deep_view() == s.deep_view(),
{
    PmxChannelStrip {
        id: s.id,
        name: s.name.clone(),
        channel_type: s.channel_type,
        cross_fader_plugin_id: s.cross_fader_plugin_id,
        gain_plugin_id: s.gain_plugin_id,
        saturator_plugin_id: s.saturator_plugin_id,
    }
}

/// Linear scan for the port with the given path, first match wins.
pub fn find_port_by_path(ports: &Vec<ListPort>, path: &String) -> (r: Option<ListPort>)
    ensures
        r.deep_view() == find_port(ports.deep_view(), path@),
{
    let n = ports.len();
    for i in 0..n
        invariant
            n == ports.len(),
            forall|j: int| 0 <= j < i ==> ports.deep_view()[j].path != path@,
    {
        if ports[i].path == *path {
            proof {
                lemma_find_port_skip(ports.deep_view(), path@, i as int);
            }
            return Some(clone_port(&ports[i]));
        }
    }
    proof {
        lemma_find_port_skip(ports.deep_view(), path@, n as int);
    }
    None
}

/// Linear scan for the node with the given object serial, first match wins.
pub fn find_node_by_serial(nodes: &Vec<ListNode>, serial: u32) -> (r: Option<ListNode>)
    ensures
        r.deep_view() == find_node(nodes.deep_view(), serial),
{
    let n = nodes.len();
    for i in 0..n
        invariant
            n == nodes.len(),
            forall|j: int| 0 <= j < i ==> nodes.deep_view()[j].object_serial != serial,
    {
        if nodes[i].object_serial == serial {
            proof {
                lemma_find_node_skip(nodes.deep_view(), serial, i as int);
            }
            return Some(clone_node(&nodes[i]));
        }
    }
    proof {
        lemma_find_node_skip(nodes.deep_view(), serial, n as int);
    }
    None
}

/// Linear scan for the plugin with the given id, first match wins.
pub fn find_plugin_by_id(plugins: &Vec<PmxPlugin>, id: u32) -> (r: Option<PmxPlugin>)
    ensures
        r.deep_view() == find_plugin(plugins.deep_view(), id),
{
    let n = plugins.len();
    for i in 0..n
        invariant
            n == plugins.len(),
            forall|j: int| 0 <= j < i ==> plugins.deep_view()[j].id != id,
    {
        if plugins[i].id == id {
            proof {
                lemma_find_plugin_skip(plugins.deep_view(), id, i as int);
            }
            return Some(clone_plugin(&plugins[i]));
        }
    }
    proof {
        lemma_find_plugin_skip(plugins.deep_view(), id, n as int);
    }
    None
}

/// Linear scan for the channel strip with the given name, first match wins.
pub fn find_strip_with_name(strips: &Vec<PmxChannelStrip>, name: &String) -> (r: Option<
    PmxChannelStrip,
>)
    ensures
        r.deep_view() == find_strip_by_name(strips.deep_view(), name@),
{
    let n = strips.len();
    for i in 0..n
        invariant
            n == strips.len(),
            forall|j: int| 0 <= j < i ==> strips.deep_view()[j].name != name@,
    {
        if strips[i].name == *name {
            proof {
                lemma_find_strip_by_name_skip(strips.deep_view(), name@, i as int);
            }
            return Some(clone_strip(&strips[i]));
        }
    }
    proof {
        lemma_find_strip_by_name_skip(strips.deep_view(), name@, n as int);
    }
    None
}

/// Linear scan for the channel strip with the given id, first match wins.
pub fn find_strip_with_id(strips: &Vec<PmxChannelStrip>, id: u32) -> (r: Option<PmxChannelStrip>)
    ensures
        r.deep_view() == find_strip_by_id(strips.deep_view(), id),
{
    let n = strips.len();
    for i in 0..n
        invariant
            n == strips.len(),
            forall|j: int| 0 <= j < i ==> strips.deep_view()[j].id != id,
    {
        if strips[i].id == id {
            proof {
                lemma_find_strip_by_id_skip(strips.deep_view(), id, i as int);
            }
            return Some(clone_strip(&strips[i]));
        }
    }
    proof {
        lemma_find_strip_by_id_skip(strips.deep_view(), id, n as int);
    }
    None
}

} // verus!
