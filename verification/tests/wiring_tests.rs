use pmx_builder::model::{
    LinkRequest, ListNode, ListPort, PmxChannelStrip, PmxChannelStripType, PmxInput, PmxInputType,
    PmxLooper, PmxPlugin,
};
use pmx_builder::wiring::{
    connect_looper_to_channel_strip, connect_looper_to_input, input_strip_link_requests,
};

fn stereo_input(name: &str, group: &str) -> PmxInput {
    PmxInput {
        name: name.to_string(),
        input_type: PmxInputType::StereoInput,
        left_port_path: Some(format!("{name}:capture_FL")),
        right_port_path: Some(format!("{name}:capture_FR")),
        group_channel_strip_name: group.to_string(),
    }
}

fn strip(id: u32, name: &str, cross_fader: u32, gain: u32, saturator: u32) -> PmxChannelStrip {
    PmxChannelStrip {
        id,
        name: name.to_string(),
        channel_type: PmxChannelStripType::CrossFaded,
        cross_fader_plugin_id: Some(cross_fader),
        gain_plugin_id: gain,
        saturator_plugin_id: saturator,
    }
}

fn plugin(id: u32, name: &str) -> PmxPlugin {
    PmxPlugin {
        id,
        name: name.to_string(),
    }
}

fn port(id: u32, path: &str, node_id: u32) -> ListPort {
    ListPort {
        id,
        path: path.to_string(),
        node_id,
    }
}

fn node(object_serial: u32, name: &str) -> ListNode {
    ListNode {
        object_serial,
        name: name.to_string(),
    }
}

fn link(out_node: &str, out_port: u32, in_node: &str, in_port: u32) -> LinkRequest {
    LinkRequest {
        output_node_name: out_node.to_string(),
        output_port_id: out_port,
        input_node_name: in_node.to_string(),
        input_port_id: in_port,
    }
}

#[test]
fn stereo_input_yields_two_strip_links() {
    let input = stereo_input("Guitar", "Melody");
    let s = strip(1, "Guitar", 10, 11, 12);
    let plugins = vec![plugin(10, "Guitar cross-fader")];
    let ports = vec![
        port(7, "Guitar:capture_FL", 100),
        port(8, "Guitar:capture_FR", 100),
    ];
    let nodes = vec![node(100, "Guitar interface")];
    let links = input_strip_link_requests(&input, &s, &plugins, &ports, &nodes);
    assert_eq!(
        links,
        vec![
            link("Guitar interface", 7, "Guitar cross-fader", 0),
            link("Guitar interface", 8, "Guitar cross-fader", 1),
        ]
    );
}

#[test]
fn mono_input_yields_one_strip_link() {
    let mut input = stereo_input("Bass guitar", "Bass");
    input.input_type = PmxInputType::MonoInput;
    let s = strip(1, "Bass guitar", 10, 11, 12);
    let plugins = vec![plugin(10, "Bass cross-fader")];
    let ports = vec![
        port(7, "Bass guitar:capture_FL", 100),
        port(8, "Bass guitar:capture_FR", 100),
    ];
    let nodes = vec![node(100, "Bass interface")];
    let links = input_strip_link_requests(&input, &s, &plugins, &ports, &nodes);
    assert_eq!(links, vec![link("Bass interface", 7, "Bass cross-fader", 0)]);
}

#[test]
fn absent_input_yields_no_strip_link() {
    let mut input = stereo_input("Spare", "Drums");
    input.input_type = PmxInputType::NoInput;
    let s = strip(1, "Spare", 10, 11, 12);
    let plugins = vec![plugin(10, "Spare cross-fader")];
    let ports = vec![port(7, "Spare:capture_FL", 100)];
    let nodes = vec![node(100, "Spare interface")];
    let links = input_strip_link_requests(&input, &s, &plugins, &ports, &nodes);
    assert!(links.is_empty());
}

#[test]
fn unknown_port_path_yields_no_link_and_no_panic() {
    let input = stereo_input("Unplugged", "Drums");
    let s = strip(1, "Unplugged", 10, 11, 12);
    let plugins = vec![plugin(10, "Unplugged cross-fader")];
    let ports = vec![port(7, "Other:capture_FL", 100)];
    let nodes = vec![node(100, "Other interface")];
    let links = input_strip_link_requests(&input, &s, &plugins, &ports, &nodes);
    assert!(links.is_empty());
    let looper = PmxLooper { loop_number: 0 };
    let looper_links = connect_looper_to_input(&input, &looper, &ports, &nodes);
    assert!(looper_links.is_empty());
}

#[test]
fn stereo_input_yields_two_looper_links_with_looper_ports() {
    let input = stereo_input("Synth", "Atmos");
    let looper = PmxLooper { loop_number: 3 };
    let ports = vec![
        port(7, "Synth:capture_FL", 100),
        port(8, "Synth:capture_FR", 100),
    ];
    let nodes = vec![node(100, "Synth interface")];
    let links = connect_looper_to_input(&input, &looper, &ports, &nodes);
    assert_eq!(
        links,
        vec![
            link("Synth interface", 0, "sooperlooper", 8),
            link("Synth interface", 1, "sooperlooper", 9),
        ]
    );
}

#[test]
fn mono_input_yields_one_looper_link() {
    let mut input = stereo_input("Vocal", "Melody");
    input.input_type = PmxInputType::MonoInput;
    let looper = PmxLooper { loop_number: 0 };
    let ports = vec![
        port(7, "Vocal:capture_FL", 100),
        port(8, "Vocal:capture_FR", 100),
    ];
    let nodes = vec![node(100, "Vocal interface")];
    let links = connect_looper_to_input(&input, &looper, &ports, &nodes);
    assert_eq!(links, vec![link("Vocal interface", 0, "sooperlooper", 2)]);
}

#[test]
fn stereo_looper_feeds_both_strip_channels() {
    let looper = PmxLooper { loop_number: 3 };
    let s = strip(1, "Synth", 10, 11, 12);
    let plugins = vec![plugin(10, "Synth cross-fader")];
    let links =
        connect_looper_to_channel_strip(PmxInputType::StereoInput, &looper, &s, &plugins);
    assert_eq!(
        links,
        vec![
            link("sooperlooper", 5, "Synth cross-fader", 2),
            link("sooperlooper", 6, "Synth cross-fader", 3),
        ]
    );
}

#[test]
fn mono_looper_feeds_one_strip_channel() {
    let looper = PmxLooper { loop_number: 1 };
    let s = strip(1, "Vocal", 10, 11, 12);
    let plugins = vec![plugin(10, "Vocal cross-fader")];
    let links = connect_looper_to_channel_strip(PmxInputType::MonoInput, &looper, &s, &plugins);
    assert_eq!(links, vec![link("sooperlooper", 3, "Vocal cross-fader", 2)]);
}

#[test]
fn absent_input_gets_no_looper_strip_link() {
    let looper = PmxLooper { loop_number: 1 };
    let s = strip(1, "Spare", 10, 11, 12);
    let plugins = vec![plugin(10, "Spare cross-fader")];
    let links = connect_looper_to_channel_strip(PmxInputType::NoInput, &looper, &s, &plugins);
    assert!(links.is_empty());
}

#[test]
fn basic_strip_gets_no_looper_strip_link() {
    let looper = PmxLooper { loop_number: 1 };
    let mut s = strip(1, "Plain", 10, 11, 12);
    s.channel_type = PmxChannelStripType::Basic;
    let plugins = vec![plugin(10, "Plain cross-fader")];
    let links = connect_looper_to_channel_strip(PmxInputType::StereoInput, &looper, &s, &plugins);
    assert!(links.is_empty());
}

#[test]
fn missing_node_yields_no_link() {
    let input = stereo_input("Floating", "Drums");
    let s = strip(1, "Floating", 10, 11, 12);
    let plugins = vec![plugin(10, "Floating cross-fader")];
    let ports = vec![
        port(7, "Floating:capture_FL", 100),
        port(8, "Floating:capture_FR", 100),
    ];
    let nodes = vec![node(999, "Unrelated")];
    let links = input_strip_link_requests(&input, &s, &plugins, &ports, &nodes);
    assert!(links.is_empty());
}

#[test]
fn missing_cross_fader_plugin_yields_no_link() {
    let input = stereo_input("Quiet", "Bass");
    let s = strip(1, "Quiet", 10, 11, 12);
    let plugins = vec![plugin(99, "Somebody else")];
    let ports = vec![
        port(7, "Quiet:capture_FL", 100),
        port(8, "Quiet:capture_FR", 100),
    ];
    let nodes = vec![node(100, "Quiet interface")];
    let links = input_strip_link_requests(&input, &s, &plugins, &ports, &nodes);
    assert!(links.is_empty());
}
