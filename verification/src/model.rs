//! Plain-value copies of the records the builder works on.
//!
//! Every record is a transient, in-memory snapshot of an entity owned by one
//! of the remote services (registry, factory, graph engine).  Each executable
//! type has a ghost mirror whose `String` fields become `Seq<char>`, reached
//! through `DeepView`; the contracts of the planning functions are stated
//! over these mirrors.

use vstd::prelude::*;

verus! {

/// How an input's physical ports are laid out: absent, one channel, or two.
#[derive(Clone, Copy, PartialEq, Eq, Structural, Debug)]
pub enum PmxInputType {
    NoInput,
    MonoInput,
    StereoInput,
}

/// The processing chain a channel strip carries.  The builder only creates
/// cross-faded strips; basic strips have no cross-fader plugin.
#[derive(Clone, Copy, PartialEq, Eq, Structural, Debug)]
pub enum PmxChannelStripType {
    Basic,
    CrossFaded,
}

/// A configured input channel, as listed by the registry.
#[derive(Clone)]
pub struct PmxInput {
    pub name: String,
    pub input_type: PmxInputType,
    pub left_port_path: Option<String>,
    pub right_port_path: Option<String>,
    pub group_channel_strip_name: String,
}

/// Ghost mirror of [`PmxInput`].
#[verifier::ext_equal]
pub ghost struct InputView {
    pub name: Seq<char>,
    pub input_type: PmxInputType,
    pub left_port_path: Option<Seq<char>>,
    pub right_port_path: Option<Seq<char>>,
    pub group_channel_strip_name: Seq<char>,
}

impl DeepView for PmxInput {
    type V = InputView;

    open spec fn deep_view(&self) -> InputView {
        InputView {
            name: self.name@,
            input_type: self.input_type,
            left_port_path: self.left_port_path.deep_view(),
            right_port_path: self.right_port_path.deep_view(),
            group_channel_strip_name: self.group_channel_strip_name@,
        }
    }
}

/// A channel strip with its factory-assigned plugin chain.
#[derive(Clone)]
pub struct PmxChannelStrip {
    pub id: u32,
    pub name: String,
    pub channel_type: PmxChannelStripType,
    pub cross_fader_plugin_id: Option<u32>,
    pub gain_plugin_id: u32,
    pub saturator_plugin_id: u32,
}

/// Ghost mirror of [`PmxChannelStrip`].
#[verifier::ext_equal]
pub ghost struct ChannelStripView {
    pub id: u32,
    pub name: Seq<char>,
    pub channel_type: PmxChannelStripType,
    pub cross_fader_plugin_id: Option<u32>,
    pub gain_plugin_id: u32,
    pub saturator_plugin_id: u32,
}

impl DeepView for PmxChannelStrip {
    type V = ChannelStripView;

    open spec fn deep_view(&self) -> ChannelStripView {
        ChannelStripView {
            id: self.id,
            name: self.name@,
            channel_type: self.channel_type,
            cross_fader_plugin_id: self.cross_fader_plugin_id,
            gain_plugin_id: self.gain_plugin_id,
            saturator_plugin_id: self.saturator_plugin_id,
        }
    }
}

/// The four fixed group buses, each backed by its own channel strip.
#[derive(Clone)]
pub struct GroupChannelStrips {
    pub drums: PmxChannelStrip,
    pub bass: PmxChannelStrip,
    pub melody: PmxChannelStrip,
    pub atmos: PmxChannelStrip,
}

/// Ghost mirror of [`GroupChannelStrips`].
#[verifier::ext_equal]
pub ghost struct GroupChannelStripsView {
    pub drums: ChannelStripView,
    pub bass: ChannelStripView,
    pub melody: ChannelStripView,
    pub atmos: ChannelStripView,
}

impl DeepView for GroupChannelStrips {
    type V = GroupChannelStripsView;

    open spec fn deep_view(&self) -> GroupChannelStripsView {
        GroupChannelStripsView {
            drums: self.drums.deep_view(),
            bass: self.bass.deep_view(),
            melody: self.melody.deep_view(),
            atmos: self.atmos.deep_view(),
        }
    }
}

/// The final stereo bus created by the factory.
#[derive(Clone, Copy, PartialEq, Eq, Structural, Debug)]
pub struct PmxOutputStage {
    pub cross_fader_plugin_id: u32,
    pub left_channel_strip_id: u32,
    pub right_channel_strip_id: u32,
}

impl DeepView for PmxOutputStage {
    type V = PmxOutputStage;

    open spec fn deep_view(&self) -> PmxOutputStage {
        *self
    }
}

/// A configured physical output, as listed by the registry.
#[derive(Clone)]
pub struct PmxOutput {
    pub left_port_path: Option<String>,
    pub right_port_path: Option<String>,
}

/// Ghost mirror of [`PmxOutput`].
#[verifier::ext_equal]
pub ghost struct OutputView {
    pub left_port_path: Option<Seq<char>>,
    pub right_port_path: Option<Seq<char>>,
}

impl DeepView for PmxOutput {
    type V = OutputView;

    open spec fn deep_view(&self) -> OutputView {
        OutputView {
            left_port_path: self.left_port_path.deep_view(),
            right_port_path: self.right_port_path.deep_view(),
        }
    }
}

/// A processing plugin owned by a channel strip or output stage slot.
#[derive(Clone)]
pub struct PmxPlugin {
    pub id: u32,
    pub name: String,
}

/// Ghost mirror of [`PmxPlugin`].
#[verifier::ext_equal]
pub ghost struct PluginView {
    pub id: u32,
    pub name: Seq<char>,
}

impl DeepView for PmxPlugin {
    type V = PluginView;

    open spec fn deep_view(&self) -> PluginView {
        PluginView { id: self.id, name: self.name@ }
    }
}

/// A looper tap registered for one input, addressed by ordinal loop number.
#[derive(Clone, Copy, PartialEq, Eq, Structural, Debug)]
pub struct PmxLooper {
    pub loop_number: u32,
}

impl DeepView for PmxLooper {
    type V = PmxLooper;

    open spec fn deep_view(&self) -> PmxLooper {
        *self
    }
}

/// A node of the live media graph.
#[derive(Clone)]
pub struct ListNode {
    pub object_serial: u32,
    pub name: String,
}

/// Ghost mirror of [`ListNode`].
#[verifier::ext_equal]
pub ghost struct NodeView {
    pub object_serial: u32,
    pub name: Seq<char>,
}

impl DeepView for ListNode {
    type V = NodeView;

    open spec fn deep_view(&self) -> NodeView {
        NodeView { object_serial: self.object_serial, name: self.name@ }
    }
}

/// A port of the live media graph, owned by the node `node_id` points at.
#[derive(Clone)]
pub struct ListPort {
    pub id: u32,
    pub path: String,
    pub node_id: u32,
}

/// Ghost mirror of [`ListPort`].
#[verifier::ext_equal]
pub ghost struct PortView {
    pub id: u32,
    pub path: Seq<char>,
    pub node_id: u32,
}

impl DeepView for ListPort {
    type V = PortView;

    open spec fn deep_view(&self) -> PortView {
        PortView { id: self.id, path: self.path@, node_id: self.node_id }
    }
}

/// One point-to-point link the graph engine is asked to create, addressed by
/// endpoint name and port index.
#[derive(Clone, PartialEq, Eq, Debug)]
pub struct LinkRequest {
    pub output_node_name: String,
    pub output_port_id: u32,
    pub input_node_name: String,
    pub input_port_id: u32,
}

/// Ghost mirror of [`LinkRequest`].
#[verifier::ext_equal]
pub ghost struct LinkView {
    pub output_node_name: Seq<char>,
    pub output_port_id: u32,
    pub input_node_name: Seq<char>,
    pub input_port_id: u32,
}

impl DeepView for LinkRequest {
    type V = LinkView;

    open spec fn deep_view(&self) -> LinkView {
        LinkView {
            output_node_name: self.output_node_name@,
            output_port_id: self.output_port_id,
            input_node_name: self.input_node_name@,
            input_port_id: self.input_port_id,
        }
    }
}

/// One channel-strip creation request for the factory.
#[derive(Clone, PartialEq, Eq, Debug)]
pub struct CreateChannelStripRequest {
    pub name: String,
    pub channel_type: PmxChannelStripType,
}

/// Ghost mirror of [`CreateChannelStripRequest`].
#[verifier::ext_equal]
pub ghost struct CreateChannelStripRequestView {
    pub name: Seq<char>,
    pub channel_type: PmxChannelStripType,
}

impl DeepView for CreateChannelStripRequest {
    type V = CreateChannelStripRequestView;

    open spec fn deep_view(&self) -> CreateChannelStripRequestView {
        CreateChannelStripRequestView { name: self.name@, channel_type: self.channel_type }
    }
}

/// The single output-stage creation request for the factory.
#[derive(Clone, PartialEq, Eq, Debug)]
pub struct CreateOutputStageRequest {
    pub name: String,
}

/// Ghost mirror of [`CreateOutputStageRequest`].
#[verifier::ext_equal]
pub ghost struct CreateOutputStageRequestView {
    pub name: Seq<char>,
}

impl DeepView for CreateOutputStageRequest {
    type V = CreateOutputStageRequestView;

    open spec fn deep_view(&self) -> CreateOutputStageRequestView {
        CreateOutputStageRequestView { name: self.name@ }
    }
}

/// Short spec-side constructor for one link.
pub open spec fn link(
    output_node_name: Seq<char>,
    output_port_id: u32,
    input_node_name: Seq<char>,
    input_port_id: u32,
) -> LinkView {
    LinkView { output_node_name, output_port_id, input_node_name, input_port_id }
}

} // verus!
