//! Per-entity wiring decisions: which links each stage asks the graph engine
//! to create.
//!
//! Each function resolves its endpoints in the given snapshots and returns
//! the link requests for exactly the endpoints that resolved.  A missed
//! resolution yields no request for that connection and nothing else: one
//! missing port, node or plugin never blocks unrelated wiring.

use vstd::prelude::*;

use crate::groups::{group_for_name, group_strip, group_strip_view, resolve_group_bus};
use crate::model::{
    link, ChannelStripView, GroupChannelStrips, GroupChannelStripsView, InputView, LinkRequest,
    LinkView, ListNode, ListPort, NodeView, OutputView, PluginView, PmxChannelStrip,
    PmxChannelStripType, PmxInput, PmxInputType, PmxLooper, PmxOutput, PmxOutputStage, PmxPlugin,
    PortView,
};
use crate::resolve::{
    find_node, find_node_by_serial, find_plugin, find_plugin_by_id, find_plugin_opt, find_port,
    find_port_by_path, find_strip_by_id, find_strip_by_name, find_strip_with_id,
    find_strip_with_name, resolve_port,
};

verus! {

/// Largest loop number whose looper port indices still fit in the graph
/// engine's 32-bit port numbering.
pub const MAX_LOOP_NUMBER: u32 = 2147483646;

/// The fixed graph node that hosts every looper's ports.
pub open spec fn looper_engine_node() -> Seq<char> {
    "sooperlooper"@
}

/// The looper engine's record-side port for one channel of loop
/// `loop_number`: `2 * loop_number + 2` carries the left channel and
/// `2 * loop_number + 3` the right.  This numbering is the graph engine's
/// own convention for the looper node.
pub open spec fn looper_record_port(loop_number: u32, channel: u32) -> u32 {
    (2 * loop_number + 2 + channel) as u32
}

/// The looper engine's playback-side port toward a channel strip:
/// `loop_number + 2` for the left channel, `loop_number + 3` for the right.
/// Like [`looper_record_port`], a fixed convention of the graph engine.
pub open spec fn looper_play_port(loop_number: u32, channel: u32) -> u32 {
    (loop_number + 2 + channel) as u32
}

/// The single link from a resolved physical port into one channel of a
/// strip's cross-fader plugin, or nothing where the path, port, plugin or
/// node does not resolve.
pub open spec fn channel_link(
    path: Option<Seq<char>>,
    plugin: Option<PluginView>,
    ports: Seq<PortView>,
    nodes: Seq<NodeView>,
    strip_port: u32,
) -> Seq<LinkView> {
    match (resolve_port(path, ports), plugin) {
        (Some(port), Some(plugin)) => match find_node(nodes, port.node_id) {
            Some(node) => seq![link(node.name, port.id, plugin.name, strip_port)],
            None => Seq::empty(),
        },
        _ => Seq::empty(),
    }
}

/// The links that wire one input's physical ports into its channel strip's
/// cross-fader plugin: none for an absent input, the left channel for a mono
/// input, both channels for a stereo input.
pub open spec fn input_strip_links(
    input: InputView,
    strip: ChannelStripView,
    plugins: Seq<PluginView>,
    ports: Seq<PortView>,
    nodes: Seq<NodeView>,
) -> Seq<LinkView> {
    if input.input_type == PmxInputType::NoInput {
        Seq::empty()
    } else {
        let plugin = find_plugin_opt(plugins, strip.cross_fader_plugin_id);
        let left = channel_link(input.left_port_path, plugin, ports, nodes, 0);
        if input.input_type == PmxInputType::StereoInput {
            left + channel_link(input.right_port_path, plugin, ports, nodes, 1)
        } else {
            left
        }
    }
}

/// The single link from one channel of an input's physical port into the
/// looper engine's record port for the given loop, or nothing where the
/// path, port or node does not resolve.  The physical node is the sending
/// end of the link; the looper engine receives on its record port.
pub open spec fn looper_channel_link(
    path: Option<Seq<char>>,
    loop_number: u32,
    channel: u32,
    ports: Seq<PortView>,
    nodes: Seq<NodeView>,
) -> Seq<LinkView> {
    match resolve_port(path, ports) {
        Some(port) => match find_node(nodes, port.node_id) {
            Some(node) => seq![
                link(node.name, channel, looper_engine_node(), looper_record_port(loop_number, channel)),
            ],
            None => Seq::empty(),
        },
        None => Seq::empty(),
    }
}

/// The links that wire one input's physical ports into its looper: none for
/// an absent input, the left channel for a mono input, both channels for a
/// stereo input.
pub open spec fn looper_input_links(
    input: InputView,
    loop_number: u32,
    ports: Seq<PortView>,
    nodes: Seq<NodeView>,
) -> Seq<LinkView> {
    if input.input_type == PmxInputType::NoInput {
        Seq::empty()
    } else {
        let left = looper_channel_link(input.left_port_path, loop_number, 0, ports, nodes);
        if input.input_type == PmxInputType::StereoInput {
            left + looper_channel_link(input.right_port_path, loop_number, 1, ports, nodes)
        } else {
            left
        }
    }
}

/// The links that wire one looper's playback ports into its channel strip's
/// cross-fader plugin, one per active channel of the paired input: none for
/// an absent input or a basic strip, the left channel for a mono input, both
/// channels for a stereo input.
pub open spec fn looper_strip_links(
    input_type: PmxInputType,
    loop_number: u32,
    strip: ChannelStripView,
    plugins: Seq<PluginView>,
) -> Seq<LinkView> {
    if input_type == PmxInputType::NoInput {
        Seq::empty()
    } else if strip.channel_type == PmxChannelStripType::Basic {
        Seq::empty()
    } else {
        match find_plugin_opt(plugins, strip.cross_fader_plugin_id) {
            Some(plugin) => {
                let left = seq![
                    link(looper_engine_node(), looper_play_port(loop_number, 0), plugin.name, 2),
                ];
                if input_type == PmxInputType::StereoInput {
                    left + seq![
                        link(looper_engine_node(), looper_play_port(loop_number, 1), plugin.name, 3),
                    ]
                } else {
                    left
                }
            },
            None => Seq::empty(),
        }
    }
}

/// The stereo pair of links from one input's channel-strip gain plugin into
/// the saturator plugin of the group bus the input declares, or nothing
/// where the group name, the strip or either plugin does not resolve.
pub open spec fn strip_group_links(
    input: InputView,
    strips: Seq<ChannelStripView>,
    groups: GroupChannelStripsView,
    plugins: Seq<PluginView>,
) -> Seq<LinkView> {
    match group_for_name(input.group_channel_strip_name) {
        Some(bus) => match find_strip_by_name(strips, input.name) {
            Some(strip) => {
                let group = group_strip_view(groups, bus);
                match (find_plugin(plugins, group.saturator_plugin_id), find_plugin(
                    plugins,
                    strip.gain_plugin_id,
                )) {
                    (Some(group_plugin), Some(strip_plugin)) => seq![
                        link(strip_plugin.name, 0, group_plugin.name, 0),
                        link(strip_plugin.name, 1, group_plugin.name, 1),
                    ],
                    _ => Seq::empty(),
                }
            },
            None => Seq::empty(),
        },
        None => Seq::empty(),
    }
}

/// The four links that feed one group bus's gain plugin into the output
/// stage's left and right saturator plugins, or nothing where the gain
/// plugin does not resolve.
pub open spec fn group_feed_links(
    group: ChannelStripView,
    left_plugin: PluginView,
    right_plugin: PluginView,
    plugins: Seq<PluginView>,
) -> Seq<LinkView> {
    match find_plugin(plugins, group.gain_plugin_id) {
        Some(gain) => seq![
            link(gain.name, 0, left_plugin.name, 0),
            link(gain.name, 1, left_plugin.name, 1),
            link(gain.name, 0, right_plugin.name, 0),
            link(gain.name, 1, right_plugin.name, 1),
        ],
        None => Seq::empty(),
    }
}

/// The links that feed all four group buses into the output stage's left and
/// right channels.  The stage's own left and right strips and their
/// saturator plugins must all resolve, else nothing is wired; a group whose
/// gain plugin does not resolve is skipped on its own.
pub open spec fn group_output_stage_links(
    groups: GroupChannelStripsView,
    stage: PmxOutputStage,
    plugins: Seq<PluginView>,
    strips: Seq<ChannelStripView>,
) -> Seq<LinkView> {
    match (find_strip_by_id(strips, stage.left_channel_strip_id), find_strip_by_id(
        strips,
        stage.right_channel_strip_id,
    )) {
        (Some(left_strip), Some(right_strip)) => match (find_plugin(
            plugins,
            left_strip.saturator_plugin_id,
        ), find_plugin(plugins, right_strip.saturator_plugin_id)) {
            (Some(left_plugin), Some(right_plugin)) => group_feed_links(
                groups.drums,
                left_plugin,
                right_plugin,
                plugins,
            ) + group_feed_links(groups.bass, left_plugin, right_plugin, plugins)
                + group_feed_links(groups.melody, left_plugin, right_plugin, plugins)
                + group_feed_links(groups.atmos, left_plugin, right_plugin, plugins),
            _ => Seq::empty(),
        },
        _ => Seq::empty(),
    }
}

/// The stereo pair of links from the output stage's cross-fader plugin into
/// one physical output's left and right ports — cross-fader output 0 feeds
/// the left port, output 1 the right — or nothing where either path is
/// absent or either port or node does not resolve.
pub open spec fn output_physical_links(
    cross_fader: PluginView,
    output: OutputView,
    ports: Seq<PortView>,
    nodes: Seq<NodeView>,
) -> Seq<LinkView> {
    match (output.left_port_path, output.right_port_path) {
        (Some(left_path), Some(right_path)) => match (find_port(ports, left_path), find_port(
            ports,
            right_path,
        )) {
            (Some(left_port), Some(right_port)) => match (find_node(nodes, left_port.node_id), find_node(
                nodes,
                right_port.node_id,
            )) {
                (Some(left_node), Some(right_node)) => seq![
                    link(cross_fader.name, 0, left_node.name, left_port.id),
                    link(cross_fader.name, 1, right_node.name, right_port.id),
                ],
                _ => Seq::empty(),
            },
            _ => Seq::empty(),
        },
        _ => Seq::empty(),
    }
}

/// Plans the link of [`channel_link`]: one physical port into one channel of
/// a strip's cross-fader plugin.
fn channel_link_requests(
    path: &Option<String>,
    plugin: &Option<PmxPlugin>,
    ports: &Vec<ListPort>,
    nodes: &Vec<ListNode>,
    strip_port: u32,
) -> (r: Vec<LinkRequest>)
    ensures
        r.deep_view() == channel_link(
            path.deep_view(),
            plugin.deep_view(),
            ports.deep_view(),
            nodes.deep_view(),
            strip_port,
        ),
{
    let mut r: Vec<LinkRequest> = Vec::new();
    let resolved = match path {
        Some(p) => find_port_by_path(ports, p),
        None => None,
    };
    match (resolved, plugin) {
        (Some(port), Some(found)) => {
            match find_node_by_serial(nodes, port.node_id) {
                Some(node) => {
                    r.push(
                        LinkRequest {
                            output_node_name: node.name,
                            output_port_id: port.id,
                            input_node_name: found.name.clone(),
                            input_port_id: strip_port,
                        },
                    );
                    proof {
                        assert(r.deep_view() =~= channel_link(
                            path.deep_view(),
                            plugin.deep_view(),
                            ports.deep_view(),
                            nodes.deep_view(),
                            strip_port,
                        ));
                    }
                },
                None => {
                    proof {
                        assert(r.deep_view() =~= Seq::<LinkView>::empty());
                    }
                },
            }
        },
        _ => {
            proof {
                assert(r.deep_view() =~= Seq::<LinkView>::empty());
            }
        },
    }
    r
}

/// Plans the links of [`input_strip_links`] for one input and its strip.
pub fn input_strip_link_requests(
    input: &PmxInput,
    strip: &PmxChannelStrip,
    plugins: &Vec<PmxPlugin>,
    ports: &Vec<ListPort>,
    nodes: &Vec<ListNode>,
) -> (r: Vec<LinkRequest>)
    ensures
        r.deep_view() == input_strip_links(
            input.deep_view(),
            strip.deep_view(),
            plugins.deep_view(),
            ports.deep_view(),
            nodes.deep_view(),
        ),
{
    if input.input_type == PmxInputType::NoInput {
        let r: Vec<LinkRequest> = Vec::new();
        proof {
            assert(r.deep_view() =~= Seq::<LinkView>::empty());
        }
        return r;
    }
    let plugin = match strip.cross_fader_plugin_id {
        Some(id) => find_plugin_by_id(plugins, id),
        None => None,
    };
    let mut r = channel_link_requests(&input.left_port_path, &plugin, ports, nodes, 0);
    if input.input_type == PmxInputType::StereoInput {
        let ghost left_view = r.deep_view();
        let mut right = channel_link_requests(&input.right_port_path, &plugin, ports, nodes, 1);
        let ghost right_view = right.deep_view();
        r.append(&mut right);
        proof {
            assert(r.deep_view() =~= left_view + right_view);
        }
    }
    r
}

/// Plans the link of [`looper_channel_link`]: one channel of an input's
/// physical port into the looper engine's record port.
fn looper_channel_link_requests(
    path: &Option<String>,
    loop_number: u32,
    channel: u32,
    ports: &Vec<ListPort>,
    nodes: &Vec<ListNode>,
) -> (r: Vec<LinkRequest>)
    requires
        loop_number <= MAX_LOOP_NUMBER,
        channel <= 1,
    ensures
        r.deep_view() == looper_channel_link(
            path.deep_view(),
            loop_number,
            channel,
            ports.deep_view(),
            nodes.deep_view(),
        ),
{
    let mut r: Vec<LinkRequest> = Vec::new();
    let resolved = match path {
        Some(p) => find_port_by_path(ports, p),
        None => None,
    };
    match resolved {
        Some(port) => {
            match find_node_by_serial(nodes, port.node_id) {
                Some(node) => {
                    r.push(
                        LinkRequest {
                            output_node_name: node.name,
                            output_port_id: channel,
                            input_node_name: "sooperlooper".to_owned(),
                            input_port_id: 2 * loop_number + 2 + channel,
                        },
                    );
                    proof {
                        assert(r.deep_view() =~= looper_channel_link(
                            path.deep_view(),
                            loop_number,
                            channel,
                            ports.deep_view(),
                            nodes.deep_view(),
                        ));
                    }
                },
                None => {
                    proof {
                        assert(r.deep_view() =~= Seq::<LinkView>::empty());
                    }
                },
            }
        },
        None => {
            proof {
                assert(r.deep_view() =~= Seq::<LinkView>::empty());
            }
        },
    }
    r
}

/// Plans the links of [`looper_input_links`] for one input and its looper.
pub fn connect_looper_to_input(
    input: &PmxInput,
    looper: &PmxLooper,
    ports: &Vec<ListPort>,
    nodes: &Vec<ListNode>,
) -> (r: Vec<LinkRequest>)
    requires
        looper.loop_number <= MAX_LOOP_NUMBER,
    ensures
        r.deep_view() == looper_input_links(
            input.deep_view(),
            looper.loop_number,
            ports.deep_view(),
            nodes.deep_view(),
        ),
{
    if input.input_type == PmxInputType::NoInput {
        let r: Vec<LinkRequest> = Vec::new();
        proof {
            assert(r.deep_view() =~= Seq::<LinkView>::empty());
        }
        return r;
    }
    let mut r = looper_channel_link_requests(
        &input.left_port_path,
        looper.loop_number,
        0,
        ports,
        nodes,
    );
    if input.input_type == PmxInputType::StereoInput {
        let ghost left_view = r.deep_view();
        let mut right = looper_channel_link_requests(
            &input.right_port_path,
            looper.loop_number,
            1,
            ports,
            nodes,
        );
        let ghost right_view = right.deep_view();
        r.append(&mut right);
        proof {
            assert(r.deep_view() =~= left_view + right_view);
        }
    }
    r
}

/// Plans the links of [`looper_strip_links`] for one looper and the channel
/// strip of its paired input.
pub fn connect_looper_to_channel_strip(
    input_type: PmxInputType,
    looper: &PmxLooper,
    strip: &PmxChannelStrip,
    plugins: &Vec<PmxPlugin>,
) -> (r: Vec<LinkRequest>)
    requires
        looper.loop_number <= MAX_LOOP_NUMBER,
    ensures
        r.deep_view() == looper_strip_links(
            input_type,
            looper.loop_number,
            strip.deep_view(),
            plugins.deep_view(),
        ),
{
    let mut r: Vec<LinkRequest> = Vec::new();
    if input_type == PmxInputType::NoInput {
        proof {
            assert(r.deep_view() =~= Seq::<LinkView>::empty());
        }
        return r;
    }
    if strip.channel_type == PmxChannelStripType::Basic {
        proof {
            assert(r.deep_view() =~= Seq::<LinkView>::empty());
        }
        return r;
    }
    let plugin = match strip.cross_fader_plugin_id {
        Some(id) => find_plugin_by_id(plugins, id),
        None => None,
    };
    match plugin {
        Some(plugin) => {
            r.push(
                LinkRequest {
                    output_node_name: "sooperlooper".to_owned(),
                    output_port_id: looper.loop_number + 2,
                    input_node_name: plugin.name.clone(),
                    input_port_id: 2,
                },
            );
            if input_type == PmxInputType::StereoInput {
                r.push(
                    LinkRequest {
                        output_node_name: "sooperlooper".to_owned(),
                        output_port_id: looper.loop_number + 3,
                        input_node_name: plugin.name.clone(),
                        input_port_id: 3,
                    },
                );
            }
            proof {
                assert(r.deep_view() =~= looper_strip_links(
                    input_type,
                    looper.loop_number,
                    strip.deep_view(),
                    plugins.deep_view(),
                ));
            }
        },
        None => {
            proof {
                assert(r.deep_view() =~= Seq::<LinkView>::empty());
            }
        },
    }
    r
}

/// Plans the links of [`strip_group_links`] for one input.
pub fn strip_group_link_requests(
    input: &PmxInput,
    strips: &Vec<PmxChannelStrip>,
    groups: &GroupChannelStrips,
    plugins: &Vec<PmxPlugin>,
) -> (r: Vec<LinkRequest>)
    ensures
        r.deep_view() == strip_group_links(
            input.deep_view(),
            strips.deep_view(),
            groups.deep_view(),
            plugins.deep_view(),
        ),
{
    let mut r: Vec<LinkRequest> = Vec::new();
    let bus = match resolve_group_bus(&input.group_channel_strip_name) {
        Some(bus) => bus,
        None => {
            proof {
                assert(r.deep_view() =~= Seq::<LinkView>::empty());
            }
            return r;
        },
    };
    let strip = match find_strip_with_name(strips, &input.name) {
        Some(strip) => strip,
        None => {
            proof {
                assert(r.deep_view() =~= Seq::<LinkView>::empty());
            }
            return r;
        },
    };
    let group = group_strip(groups, bus);
    let group_plugin = find_plugin_by_id(plugins, group.saturator_plugin_id);
    let strip_plugin = find_plugin_by_id(plugins, strip.gain_plugin_id);
    match (group_plugin, strip_plugin) {
        (Some(group_plugin), Some(strip_plugin)) => {
            r.push(
                LinkRequest {
                    output_node_name: strip_plugin.name.clone(),
                    output_port_id: 0,
                    input_node_name: group_plugin.name.clone(),
                    input_port_id: 0,
                },
            );
            r.push(
                LinkRequest {
                    output_node_name: strip_plugin.name,
                    output_port_id: 1,
                    input_node_name: group_plugin.name,
                    input_port_id: 1,
                },
            );
            proof {
                assert(r.deep_view() =~= strip_group_links(
                    input.deep_view(),
                    strips.deep_view(),
                    groups.deep_view(),
                    plugins.deep_view(),
                ));
            }
        },
        _ => {
            proof {
                assert(r.deep_view() =~= Seq::<LinkView>::empty());
            }
        },
    }
    r
}

/// Plans the links of [`group_feed_links`] for one group bus.
fn group_feed_link_requests(
    group: &PmxChannelStrip,
    left_plugin: &PmxPlugin,
    right_plugin: &PmxPlugin,
    plugins: &Vec<PmxPlugin>,
) -> (r: Vec<LinkRequest>)
    ensures
        r.deep_view() == group_feed_links(
            group.deep_view(),
            left_plugin.deep_view(),
            right_plugin.deep_view(),
            plugins.deep_view(),
        ),
{
    let mut r: Vec<LinkRequest> = Vec::new();
    match find_plugin_by_id(plugins, group.gain_plugin_id) {
        Some(gain) => {
            r.push(
                LinkRequest {
                    output_node_name: gain.name.clone(),
                    output_port_id: 0,
                    input_node_name: left_plugin.name.clone(),
                    input_port_id: 0,
                },
            );
            r.push(
                LinkRequest {
                    output_node_name: gain.name.clone(),
                    output_port_id: 1,
                    input_node_name: left_plugin.name.clone(),
                    input_port_id: 1,
                },
            );
            r.push(
                LinkRequest {
                    output_node_name: gain.name.clone(),
                    output_port_id: 0,
                    input_node_name: right_plugin.name.clone(),
                    input_port_id: 0,
                },
            );
            r.push(
                LinkRequest {
                    output_node_name: gain.name,
                    output_port_id: 1,
                    input_node_name: right_plugin.name.clone(),
                    input_port_id: 1,
                },
            );
            proof {
                assert(r.deep_view() =~= group_feed_links(
                    group.deep_view(),
                    left_plugin.deep_view(),
                    right_plugin.deep_view(),
                    plugins.deep_view(),
                ));
            }
        },
        None => {
            proof {
                assert(r.deep_view() =~= Seq::<LinkView>::empty());
            }
        },
    }
    r
}

/// Plans the links of [`group_output_stage_links`]: every group bus into the
/// output stage's two channels.
pub fn connect_group_channel_strips_to_output_stage_channels(
    groups: &GroupChannelStrips,
    stage: &PmxOutputStage,
    plugins: &Vec<PmxPlugin>,
    strips: &Vec<PmxChannelStrip>,
) -> (r: Vec<LinkRequest>)
    ensures
        r.deep_view() == group_output_stage_links(
            groups.deep_view(),
            *stage,
            plugins.deep_view(),
            strips.deep_view(),
        ),
{
    let mut r: Vec<LinkRequest> = Vec::new();
    let left_strip = find_strip_with_id(strips, stage.left_channel_strip_id);
    let right_strip = find_strip_with_id(strips, stage.right_channel_strip_id);
    let (left_strip, right_strip) = match (left_strip, right_strip) {
        (Some(l), Some(rg)) => (l, rg),
        _ => {
            proof {
                assert(r.deep_view() =~= Seq::<LinkView>::empty());
            }
            return r;
        },
    };
    let left_plugin = find_plugin_by_id(plugins, left_strip.saturator_plugin_id);
    let right_plugin = find_plugin_by_id(plugins, right_strip.saturator_plugin_id);
    let (left_plugin, right_plugin) = match (left_plugin, right_plugin) {
        (Some(l), Some(rg)) => (l, rg),
        _ => {
            proof {
                assert(r.deep_view() =~= Seq::<LinkView>::empty());
            }
            return r;
        },
    };
    let mut drums = group_feed_link_requests(&groups.drums, &left_plugin, &right_plugin, plugins);
    let mut bass = group_feed_link_requests(&groups.bass, &left_plugin, &right_plugin, plugins);
    let mut melody = group_feed_link_requests(&groups.melody, &left_plugin, &right_plugin, plugins);
    let mut atmos = group_feed_link_requests(&groups.atmos, &left_plugin, &right_plugin, plugins);
    let ghost drums_view = drums.deep_view();
    let ghost bass_view = bass.deep_view();
    let ghost melody_view = melody.deep_view();
    let ghost atmos_view = atmos.deep_view();
    r.append(&mut drums);
    r.append(&mut bass);
    r.append(&mut melody);
    r.append(&mut atmos);
    proof {
        assert(r.deep_view() =~= drums_view + bass_view + melody_view + atmos_view);
    }
    r
}

/// Plans the links of [`output_physical_links`] for one physical output.
pub fn output_physical_link_requests(
    cross_fader: &PmxPlugin,
    output: &PmxOutput,
    ports: &Vec<ListPort>,
    nodes: &Vec<ListNode>,
) -> (r: Vec<LinkRequest>)
    ensures
        r.deep_view() == output_physical_links(
            cross_fader.deep_view(),
            output.deep_view(),
            ports.deep_view(),
            nodes.deep_view(),
        ),
{
    let mut r: Vec<LinkRequest> = Vec::new();
    let (left_path, right_path) = match (&output.left_port_path, &output.right_port_path) {
        (Some(l), Some(rg)) => (l, rg),
        _ => {
            proof {
                assert(r.deep_view() =~= Seq::<LinkView>::empty());
            }
            return r;
        },
    };
    let left_port = find_port_by_path(ports, left_path);
    let right_port = find_port_by_path(ports, right_path);
    let (left_port, right_port) = match (left_port, right_port) {
        (Some(l), Some(rg)) => (l, rg),
        _ => {
            proof {
                assert(r.deep_view() =~= Seq::<LinkView>::empty());
            }
            return r;
        },
    };
    let left_node = find_node_by_serial(nodes, left_port.node_id);
    let right_node = find_node_by_serial(nodes, right_port.node_id);
    let (left_node, right_node) = match (left_node, right_node) {
        (Some(l), Some(rg)) => (l, rg),
        _ => {
            proof {
                assert(r.deep_view() =~= Seq::<LinkView>::empty());
            }
            return r;
        },
    };
    r.push(
        LinkRequest {
            output_node_name: cross_fader.name.clone(),
            output_port_id: 0,
            input_node_name: left_node.name,
            input_port_id: left_port.id,
        },
    );
    r.push(
        LinkRequest {
            output_node_name: cross_fader.name.clone(),
            output_port_id: 1,
            input_node_name: right_node.name,
            input_port_id: right_port.id,
        },
    );
    proof {
        assert(r.deep_view() =~= output_physical_links(
            cross_fader.deep_view(),
            output.deep_view(),
            ports.deep_view(),
            nodes.deep_view(),
        ));
    }
    r
}

} // verus!
