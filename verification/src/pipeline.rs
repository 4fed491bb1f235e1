//! Provisioning requests and the whole-run plan.
//!
//! One run re-provisions everything from scratch: a cross-faded channel strip
//! per input, a looper per input, the four fixed group buses and one output
//! stage.  Nothing is deduplicated against entities of an earlier run — the
//! creation requests depend on the input list alone.  The whole-run planner
//! then derives every wiring stage from the snapshots the caller fetched
//! between the provisioning steps.

use vstd::prelude::*;

use crate::model::{
    CreateChannelStripRequest, CreateChannelStripRequestView, CreateOutputStageRequest,
    CreateOutputStageRequestView, GroupChannelStrips, InputView, LinkRequest, LinkView, ListNode,
    ListPort, NodeView, OutputView, PluginView, PmxChannelStrip, PmxChannelStripType, PmxInput,
    PmxLooper, PmxOutput, PmxOutputStage, PmxPlugin, PortView,
};
use crate::stages::{
    connect_channel_strips_to_group_channel_strips, connect_inputs_to_channel_strips,
    connect_loopers_to_channel_strips, connect_loopers_to_inputs,
    connect_output_stage_to_outputs, input_wiring, looper_input_wiring, looper_strip_wiring,
    output_stage_wiring, strip_group_wiring,
};
use crate::wiring::MAX_LOOP_NUMBER;

verus! {

/// The creation requests for the per-input channel strips: one cross-faded
/// strip per input, named after the input, in input order.
pub open spec fn channel_strip_requests(inputs: Seq<InputView>) -> Seq<
    CreateChannelStripRequestView,
> {
    Seq::new(
        inputs.len(),
        |i: int|
            CreateChannelStripRequestView {
                name: inputs[i].name,
                channel_type: PmxChannelStripType::CrossFaded,
            },
    )
}

/// The loop numbers to register: the 0-based index of each input.
pub open spec fn looper_numbers(count: nat) -> Seq<u32> {
    Seq::new(count, |i: int| i as u32)
}

/// The creation requests for the four fixed group buses, in their fixed
/// order.
pub open spec fn group_strip_requests() -> Seq<CreateChannelStripRequestView> {
    seq![
        CreateChannelStripRequestView {
            name: "Drums"@,
            channel_type: PmxChannelStripType::CrossFaded,
        },
        CreateChannelStripRequestView {
            name: "Bass"@,
            channel_type: PmxChannelStripType::CrossFaded,
        },
        CreateChannelStripRequestView {
            name: "Melody"@,
            channel_type: PmxChannelStripType::CrossFaded,
        },
        CreateChannelStripRequestView {
            name: "Atmos"@,
            channel_type: PmxChannelStripType::CrossFaded,
        },
    ]
}

/// The single output-stage creation request, under its fixed name.
pub open spec fn output_stage_request() -> CreateOutputStageRequestView {
    CreateOutputStageRequestView { name: "Output Stage"@ }
}

/// Plans stage two of a run: one cross-faded channel strip per input, named
/// after the input, in input order.
pub fn build_channel_strips(inputs: &Vec<PmxInput>) -> (r: Vec<CreateChannelStripRequest>)
    ensures
        r.deep_view() == channel_strip_requests(inputs.deep_view()),
{
    let mut r: Vec<CreateChannelStripRequest> = Vec::new();
    let n = inputs.len();
    for i in 0..n
        invariant
            n == inputs.len(),
            r@.len() == i,
            forall|j: int|
                0 <= j < i ==> #[trigger] r@[j].deep_view() == (CreateChannelStripRequestView {
                    name: inputs.deep_view()[j].name,
                    channel_type: PmxChannelStripType::CrossFaded,
                }),
    {
        r.push(
            CreateChannelStripRequest {
                name: inputs[i].name.clone(),
                channel_type: PmxChannelStripType::CrossFaded,
            },
        );
    }
    proof {
        assert forall|j: int| 0 <= j < n implies r.deep_view()[j] == channel_strip_requests(
            inputs.deep_view(),
        )[j] by {
            assert(r.deep_view()[j] == r@[j].deep_view());
        }
        assert(r.deep_view() =~= channel_strip_requests(inputs.deep_view()));
    }
    r
}

/// Plans the looper registrations of stage five: loop number `i` for the
/// `i`-th input.
pub fn register_loopers_for_input_channels(inputs: &Vec<PmxInput>) -> (r: Vec<u32>)
    requires
        inputs.len() <= MAX_LOOP_NUMBER + 1,
    ensures
        r.deep_view() == looper_numbers(inputs.len() as nat),
        forall|i: int| 0 <= i < r.len() ==> r[i] <= MAX_LOOP_NUMBER,
{
    let mut r: Vec<u32> = Vec::new();
    let n = inputs.len();
    for i in 0..n
        invariant
            n == inputs.len(),
            n <= MAX_LOOP_NUMBER + 1,
            r@.len() == i,
            forall|j: int| 0 <= j < i ==> r@[j] == j as u32,
    {
        r.push(i as u32);
    }
    proof {
        assert forall|j: int| 0 <= j < n implies r.deep_view()[j] == looper_numbers(
            inputs.len() as nat,
        )[j] by {
            assert(r.deep_view()[j] == r@[j]);
        }
        assert(r.deep_view() =~= looper_numbers(inputs.len() as nat));
    }
    r
}

/// Plans stage six: the four fixed group buses, in their fixed order.
pub fn build_group_channel_strips() -> (r: Vec<CreateChannelStripRequest>)
    ensures
        r.deep_view() == group_strip_requests(),
{
    let mut r: Vec<CreateChannelStripRequest> = Vec::new();
    r.push(
        CreateChannelStripRequest {
            name: "Drums".to_owned(),
            channel_type: PmxChannelStripType::CrossFaded,
        },
    );
    r.push(
        CreateChannelStripRequest {
            name: "Bass".to_owned(),
            channel_type: PmxChannelStripType::CrossFaded,
        },
    );
    r.push(
        CreateChannelStripRequest {
            name: "Melody".to_owned(),
            channel_type: PmxChannelStripType::CrossFaded,
        },
    );
    r.push(
        CreateChannelStripRequest {
            name: "Atmos".to_owned(),
            channel_type: PmxChannelStripType::CrossFaded,
        },
    );
    proof {
        assert(r.deep_view() =~= group_strip_requests());
    }
    r
}

/// Plans stage eight: the single output stage, under its fixed name.
pub fn build_output_stage() -> (r: CreateOutputStageRequest)
    ensures
        r.deep_view() == output_stage_request(),
{
    CreateOutputStageRequest { name: "Output Stage".to_owned() }
}

/// Everything one run asks the three services to do, in stage order: the
/// creation requests of the provisioning stages and the link requests of the
/// wiring stages.
pub struct BuildPlan {
    pub channel_strip_creations: Vec<CreateChannelStripRequest>,
    pub looper_registrations: Vec<u32>,
    pub group_creations: Vec<CreateChannelStripRequest>,
    pub output_stage_creation: CreateOutputStageRequest,
    pub input_links: Vec<LinkRequest>,
    pub looper_input_links: Vec<LinkRequest>,
    pub looper_strip_links: Vec<LinkRequest>,
    pub group_links: Vec<LinkRequest>,
    pub output_stage_links: Vec<LinkRequest>,
    pub output_links: Vec<LinkRequest>,
}

/// Ghost mirror of [`BuildPlan`].
#[verifier::ext_equal]
pub ghost struct BuildPlanView {
    pub channel_strip_creations: Seq<CreateChannelStripRequestView>,
    pub looper_registrations: Seq<u32>,
    pub group_creations: Seq<CreateChannelStripRequestView>,
    pub output_stage_creation: CreateOutputStageRequestView,
    pub input_links: Seq<LinkView>,
    pub looper_input_links: Seq<LinkView>,
    pub looper_strip_links: Seq<LinkView>,
    pub group_links: Seq<LinkView>,
    pub output_stage_links: Seq<LinkView>,
    pub output_links: Seq<LinkView>,
}

impl DeepView for BuildPlan {
    type V = BuildPlanView;

    open spec fn deep_view(&self) -> BuildPlanView {
        BuildPlanView {
            channel_strip_creations: self.channel_strip_creations.deep_view(),
            looper_registrations: self.looper_registrations.deep_view(),
            group_creations: self.group_creations.deep_view(),
            output_stage_creation: self.output_stage_creation.deep_view(),
            input_links: self.input_links.deep_view(),
            looper_input_links: self.looper_input_links.deep_view(),
            looper_strip_links: self.looper_strip_links.deep_view(),
            group_links: self.group_links.deep_view(),
            output_stage_links: self.output_stage_links.deep_view(),
            output_links: self.output_links.deep_view(),
        }
    }
}

/// The plan of one whole run over the given snapshots: provisioning from the
/// input list alone, then each wiring stage over the snapshot it runs
/// against.  `wiring_plugins` is the plugin snapshot taken after the
/// per-input strips exist, `group_plugins` the one taken after the group
/// buses exist, and `stage_plugins` the one taken after the output stage
/// exists, since each provisioning stage creates plugins the next wiring
/// stage must see.
pub open spec fn build_plan_view(
    inputs: Seq<InputView>,
    strips: Seq<crate::model::ChannelStripView>,
    loopers: Seq<PmxLooper>,
    groups: crate::model::GroupChannelStripsView,
    stage: PmxOutputStage,
    wiring_plugins: Seq<PluginView>,
    group_plugins: Seq<PluginView>,
    stage_plugins: Seq<PluginView>,
    all_strips: Seq<crate::model::ChannelStripView>,
    outputs: Seq<OutputView>,
    ports: Seq<PortView>,
    nodes: Seq<NodeView>,
) -> BuildPlanView {
    BuildPlanView {
        channel_strip_creations: channel_strip_requests(inputs),
        looper_registrations: looper_numbers(inputs.len()),
        group_creations: group_strip_requests(),
        output_stage_creation: output_stage_request(),
        input_links: input_wiring(inputs, strips, wiring_plugins, ports, nodes),
        looper_input_links: looper_input_wiring(inputs, loopers, ports, nodes),
        looper_strip_links: looper_strip_wiring(inputs, loopers, strips, wiring_plugins),
        group_links: strip_group_wiring(inputs, strips, groups, group_plugins),
        output_stage_links: crate::wiring::group_output_stage_links(
            groups,
            stage,
            stage_plugins,
            all_strips,
        ),
        output_links: output_stage_wiring(stage, outputs, ports, nodes, stage_plugins),
    }
}

/// Plans one whole run.  The caller performs the provisioning stages first,
/// snapshots the plugins after each one, and hands every snapshot in; the
/// returned plan holds the wiring of stages four to ten in stage order.
pub fn build_pmx_plan(
    inputs: &Vec<PmxInput>,
    strips: &Vec<PmxChannelStrip>,
    loopers: &Vec<PmxLooper>,
    groups: &GroupChannelStrips,
    stage: &PmxOutputStage,
    wiring_plugins: &Vec<PmxPlugin>,
    group_plugins: &Vec<PmxPlugin>,
    stage_plugins: &Vec<PmxPlugin>,
    all_strips: &Vec<PmxChannelStrip>,
    outputs: &Vec<PmxOutput>,
    ports: &Vec<ListPort>,
    nodes: &Vec<ListNode>,
) -> (r: BuildPlan)
    requires
        inputs.len() == strips.len(),
        inputs.len() == loopers.len(),
        inputs.len() <= MAX_LOOP_NUMBER + 1,
        forall|i: int| 0 <= i < loopers.len() ==> loopers[i].loop_number <= MAX_LOOP_NUMBER,
    ensures
        r.deep_view() == build_plan_view(
            inputs.deep_view(),
            strips.deep_view(),
            loopers.deep_view(),
            groups.deep_view(),
            *stage,
            wiring_plugins.deep_view(),
            group_plugins.deep_view(),
            stage_plugins.deep_view(),
            all_strips.deep_view(),
            outputs.deep_view(),
            ports.deep_view(),
            nodes.deep_view(),
        ),
{
    let channel_strip_creations = build_channel_strips(inputs);
    let looper_registrations = register_loopers_for_input_channels(inputs);
    let group_creations = build_group_channel_strips();
    let output_stage_creation = build_output_stage();
    let input_links = connect_inputs_to_channel_strips(
        inputs,
        strips,
        wiring_plugins,
        ports,
        nodes,
    );
    let looper_input_links = connect_loopers_to_inputs(inputs, loopers, ports, nodes);
    let looper_strip_links = connect_loopers_to_channel_strips(
        inputs,
        loopers,
        strips,
        wiring_plugins,
    );
    let group_links = connect_channel_strips_to_group_channel_strips(
        inputs,
        strips,
        groups,
        group_plugins,
    );
    let output_stage_links = crate::wiring::connect_group_channel_strips_to_output_stage_channels(
        groups,
        stage,
        stage_plugins,
        all_strips,
    );
    let output_links = connect_output_stage_to_outputs(stage, outputs, ports, nodes, stage_plugins);
    let r = BuildPlan {
        channel_strip_creations,
        looper_registrations,
        group_creations,
        output_stage_creation,
        input_links,
        looper_input_links,
        looper_strip_links,
        group_links,
        output_stage_links,
        output_links,
    };
    proof {
        assert(r.deep_view() =~= build_plan_view(
            inputs.deep_view(),
            strips.deep_view(),
            loopers.deep_view(),
            groups.deep_view(),
            *stage,
            wiring_plugins.deep_view(),
            group_plugins.deep_view(),
            stage_plugins.deep_view(),
            all_strips.deep_view(),
            outputs.deep_view(),
            ports.deep_view(),
            nodes.deep_view(),
        ));
    }
    r
}

} // verus!
