use pmx_builder::groups::{resolve_group_bus, GroupBus};
use pmx_builder::model::{
    GroupChannelStrips, LinkRequest, ListNode, ListPort, PmxChannelStrip, PmxChannelStripType,
    PmxInput, PmxInputType, PmxOutput, PmxOutputStage, PmxPlugin,
};
use pmx_builder::stages::{
    connect_channel_strips_to_group_channel_strips, connect_inputs_to_channel_strips,
    connect_output_stage_to_outputs,
};
use pmx_builder::wiring::connect_group_channel_strips_to_output_stage_channels;

fn input(name: &str, input_type: PmxInputType, group: &str) -> PmxInput {
    PmxInput {
        name: name.to_string(),
        input_type,
        left_port_path: Some(format!("{name}:capture_FL")),
        right_port_path: Some(format!("{name}:capture_FR")),
        group_channel_strip_name: group.to_string(),
    }
}

fn strip(id: u32, name: &str, cross_fader: u32, gain: u32, saturator: u32) -> PmxChannelStrip {
    PmxChannelStrip {
        id,
        name: name.to_string(),
        channel_type: PmxChannelStripType::CrossFaded,
        cross_fader_plugin_id: Some(cross_fader),
        gain_plugin_id: gain,
        saturator_plugin_id: saturator,
    }
}

fn plugin(id: u32, name: &str) -> PmxPlugin {
    PmxPlugin {
        id,
        name: name.to_string(),
    }
}

fn port(id: u32, path: &str, node_id: u32) -> ListPort {
    ListPort {
        id,
        path: path.to_string(),
        node_id,
    }
}

fn node(object_serial: u32, name: &str) -> ListNode {
    ListNode {
        object_serial,
        name: name.to_string(),
    }
}

fn link(out_node: &str, out_port: u32, in_node: &str, in_port: u32) -> LinkRequest {
    LinkRequest {
        output_node_name: out_node.to_string(),
        output_port_id: out_port,
        input_node_name: in_node.to_string(),
        input_port_id: in_port,
    }
}

fn group_strips() -> GroupChannelStrips {
    GroupChannelStrips {
        drums: strip(50, "Drums", 500, 501, 502),
        bass: strip(51, "Bass", 510, 511, 512),
        melody: strip(52, "Melody", 520, 521, 522),
        atmos: strip(53, "Atmos", 530, 531, 532),
    }
}

#[test]
fn group_names_match_exactly() {
    assert_eq!(
        resolve_group_bus(&"Drums".to_string()),
        Some(GroupBus::Drums)
    );
    assert_eq!(resolve_group_bus(&"Bass".to_string()), Some(GroupBus::Bass));
    assert_eq!(
        resolve_group_bus(&"Melody".to_string()),
        Some(GroupBus::Melody)
    );
    assert_eq!(
        resolve_group_bus(&"Atmos".to_string()),
        Some(GroupBus::Atmos)
    );
    assert_eq!(resolve_group_bus(&"drums".to_string()), None);
    assert_eq!(resolve_group_bus(&"DRUMS".to_string()), None);
    assert_eq!(resolve_group_bus(&"Drums ".to_string()), None);
    assert_eq!(resolve_group_bus(&"".to_string()), None);
}

#[test]
fn lowercase_group_name_skips_group_wiring() {
    let inputs = vec![input("Kick", PmxInputType::MonoInput, "drums")];
    let strips = vec![strip(1, "Kick", 10, 11, 12)];
    let groups = group_strips();
    let plugins = vec![
        plugin(11, "Kick gain"),
        plugin(502, "Drums saturator"),
    ];
    let links =
        connect_channel_strips_to_group_channel_strips(&inputs, &strips, &groups, &plugins);
    assert!(links.is_empty());
}

#[test]
fn matched_group_name_wires_gain_into_saturator() {
    let inputs = vec![input("Kick", PmxInputType::MonoInput, "Drums")];
    let strips = vec![strip(1, "Kick", 10, 11, 12)];
    let groups = group_strips();
    let plugins = vec![
        plugin(11, "Kick gain"),
        plugin(502, "Drums saturator"),
    ];
    let links =
        connect_channel_strips_to_group_channel_strips(&inputs, &strips, &groups, &plugins);
    assert_eq!(
        links,
        vec![
            link("Kick gain", 0, "Drums saturator", 0),
            link("Kick gain", 1, "Drums saturator", 1),
        ]
    );
}

#[test]
fn absent_input_still_gets_group_wiring() {
    let inputs = vec![input("Ghost", PmxInputType::NoInput, "Atmos")];
    let strips = vec![strip(1, "Ghost", 10, 11, 12)];
    let groups = group_strips();
    let plugins = vec![
        plugin(11, "Ghost gain"),
        plugin(532, "Atmos saturator"),
    ];
    let links =
        connect_channel_strips_to_group_channel_strips(&inputs, &strips, &groups, &plugins);
    assert_eq!(
        links,
        vec![
            link("Ghost gain", 0, "Atmos saturator", 0),
            link("Ghost gain", 1, "Atmos saturator", 1),
        ]
    );
}

#[test]
fn missing_port_skips_one_input_and_wiring_continues() {
    let inputs = vec![
        input("Unplugged", PmxInputType::StereoInput, "Drums"),
        input("Guitar", PmxInputType::MonoInput, "Melody"),
    ];
    let strips = vec![
        strip(1, "Unplugged", 10, 11, 12),
        strip(2, "Guitar", 20, 21, 22),
    ];
    let plugins = vec![
        plugin(10, "Unplugged cross-fader"),
        plugin(20, "Guitar cross-fader"),
    ];
    let ports = vec![port(7, "Guitar:capture_FL", 100)];
    let nodes = vec![node(100, "Guitar interface")];
    let links = connect_inputs_to_channel_strips(&inputs, &strips, &plugins, &ports, &nodes);
    assert_eq!(
        links,
        vec![link("Guitar interface", 7, "Guitar cross-fader", 0)]
    );
}

#[test]
fn all_four_groups_feed_both_output_stage_channels() {
    let groups = group_strips();
    let stage = PmxOutputStage {
        cross_fader_plugin_id: 900,
        left_channel_strip_id: 60,
        right_channel_strip_id: 61,
    };
    let all_strips = vec![
        strip(60, "Output left", 600, 601, 602),
        strip(61, "Output right", 610, 611, 612),
    ];
    let plugins = vec![
        plugin(602, "Left saturator"),
        plugin(612, "Right saturator"),
        plugin(501, "Drums gain"),
        plugin(511, "Bass gain"),
        plugin(521, "Melody gain"),
        plugin(531, "Atmos gain"),
    ];
    let links = connect_group_channel_strips_to_output_stage_channels(
        &groups,
        &stage,
        &plugins,
        &all_strips,
    );
    assert_eq!(links.len(), 16);
    assert_eq!(
        &links[0..4],
        &[
            link("Drums gain", 0, "Left saturator", 0),
            link("Drums gain", 1, "Left saturator", 1),
            link("Drums gain", 0, "Right saturator", 0),
            link("Drums gain", 1, "Right saturator", 1),
        ]
    );
    assert_eq!(
        &links[12..16],
        &[
            link("Atmos gain", 0, "Left saturator", 0),
            link("Atmos gain", 1, "Left saturator", 1),
            link("Atmos gain", 0, "Right saturator", 0),
            link("Atmos gain", 1, "Right saturator", 1),
        ]
    );
}

#[test]
fn group_without_gain_plugin_is_skipped_alone() {
    let groups = group_strips();
    let stage = PmxOutputStage {
        cross_fader_plugin_id: 900,
        left_channel_strip_id: 60,
        right_channel_strip_id: 61,
    };
    let all_strips = vec![
        strip(60, "Output left", 600, 601, 602),
        strip(61, "Output right", 610, 611, 612),
    ];
    let plugins = vec![
        plugin(602, "Left saturator"),
        plugin(612, "Right saturator"),
        plugin(511, "Bass gain"),
        plugin(521, "Melody gain"),
        plugin(531, "Atmos gain"),
    ];
    let links = connect_group_channel_strips_to_output_stage_channels(
        &groups,
        &stage,
        &plugins,
        &all_strips,
    );
    assert_eq!(links.len(), 12);
    assert_eq!(links[0], link("Bass gain", 0, "Left saturator", 0));
}

#[test]
fn missing_output_stage_strip_yields_no_group_links() {
    let groups = group_strips();
    let stage = PmxOutputStage {
        cross_fader_plugin_id: 900,
        left_channel_strip_id: 60,
        right_channel_strip_id: 61,
    };
    let all_strips = vec![strip(60, "Output left", 600, 601, 602)];
    let plugins = vec![
        plugin(602, "Left saturator"),
        plugin(501, "Drums gain"),
    ];
    let links = connect_group_channel_strips_to_output_stage_channels(
        &groups,
        &stage,
        &plugins,
        &all_strips,
    );
    assert!(links.is_empty());
}

#[test]
fn output_stage_feeds_physical_output_ports() {
    let stage = PmxOutputStage {
        cross_fader_plugin_id: 900,
        left_channel_strip_id: 60,
        right_channel_strip_id: 61,
    };
    let outputs = vec![PmxOutput {
        left_port_path: Some("Speakers:playback_FL".to_string()),
        right_port_path: Some("Speakers:playback_FR".to_string()),
    }];
    let ports = vec![
        port(30, "Speakers:playback_FL", 200),
        port(31, "Speakers:playback_FR", 200),
    ];
    let nodes = vec![node(200, "Speakers")];
    let plugins = vec![plugin(900, "Stage cross-fader")];
    let links = connect_output_stage_to_outputs(&stage, &outputs, &ports, &nodes, &plugins);
    assert_eq!(
        links,
        vec![
            link("Stage cross-fader", 0, "Speakers", 30),
            link("Stage cross-fader", 1, "Speakers", 31),
        ]
    );
}

#[test]
fn output_without_both_paths_is_skipped() {
    let stage = PmxOutputStage {
        cross_fader_plugin_id: 900,
        left_channel_strip_id: 60,
        right_channel_strip_id: 61,
    };
    let outputs = vec![PmxOutput {
        left_port_path: Some("Speakers:playback_FL".to_string()),
        right_port_path: None,
    }];
    let ports = vec![port(30, "Speakers:playback_FL", 200)];
    let nodes = vec![node(200, "Speakers")];
    let plugins = vec![plugin(900, "Stage cross-fader")];
    let links = connect_output_stage_to_outputs(&stage, &outputs, &ports, &nodes, &plugins);
    assert!(links.is_empty());
}

#[test]
fn missing_stage_cross_fader_yields_no_output_links() {
    let stage = PmxOutputStage {
        cross_fader_plugin_id: 900,
        left_channel_strip_id: 60,
        right_channel_strip_id: 61,
    };
    let outputs = vec![PmxOutput {
        left_port_path: Some("Speakers:playback_FL".to_string()),
        right_port_path: Some("Speakers:playback_FR".to_string()),
    }];
    let ports = vec![
        port(30, "Speakers:playback_FL", 200),
        port(31, "Speakers:playback_FR", 200),
    ];
    let nodes = vec![node(200, "Speakers")];
    let plugins = vec![plugin(901, "Somebody else")];
    let links = connect_output_stage_to_outputs(&stage, &outputs, &ports, &nodes, &plugins);
    assert!(links.is_empty());
}
