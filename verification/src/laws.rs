//! Laws of the planner, stated once and proved for every run.

use vstd::prelude::*;

use crate::groups::{group_bus_name, group_for_name, GroupBus};
use crate::model::{
    ChannelStripView, GroupChannelStripsView, InputView, LinkView, NodeView, OutputView,
    PluginView, PmxChannelStripType, PmxInputType, PmxLooper, PmxOutputStage, PortView,
};
use crate::pipeline::{
    build_plan_view, channel_strip_requests, group_strip_requests, looper_numbers,
    output_stage_request,
};
use crate::resolve::{find_node, find_plugin_opt, lemma_find_port_none, resolve_port};
use crate::stages::{
    input_wiring, lemma_concat_each_step, lemma_concat_pairwise_step, lemma_concat_triplewise_step,
    looper_input_wiring, looper_strip_wiring, output_stage_wiring, strip_group_wiring,
};
use crate::wiring::{
    group_output_stage_links, input_strip_links, looper_input_links, looper_strip_links,
    strip_group_links,
};

verus! {

/// Ordinal correspondence: one run provisions exactly one channel strip and
/// one looper per input, in input order — the `i`-th creation request
/// carries the `i`-th input's name and the `i`-th registration carries loop
/// number `i` — and each wiring stage extends its plan, input by input, with
/// the links of the `i`-th input, the `i`-th strip and the `i`-th looper
/// alone.
pub proof fn lemma_ordinal_correspondence(
    inputs: Seq<InputView>,
    strips: Seq<ChannelStripView>,
    loopers: Seq<PmxLooper>,
    plugins: Seq<PluginView>,
    ports: Seq<PortView>,
    nodes: Seq<NodeView>,
    i: int,
)
    requires
        strips.len() == inputs.len(),
        loopers.len() == inputs.len(),
        0 <= i < inputs.len(),
    ensures
        channel_strip_requests(inputs).len() == inputs.len(),
        looper_numbers(inputs.len()).len() == inputs.len(),
        channel_strip_requests(inputs)[i].name == inputs[i].name,
        channel_strip_requests(inputs)[i].channel_type == PmxChannelStripType::CrossFaded,
        looper_numbers(inputs.len())[i] == i as u32,
        input_wiring(inputs.take(i + 1), strips.take(i + 1), plugins, ports, nodes)
            == input_wiring(inputs.take(i), strips.take(i), plugins, ports, nodes)
            + input_strip_links(inputs[i], strips[i], plugins, ports, nodes),
        looper_input_wiring(inputs.take(i + 1), loopers.take(i + 1), ports, nodes)
            == looper_input_wiring(inputs.take(i), loopers.take(i), ports, nodes)
            + looper_input_links(inputs[i], loopers[i].loop_number, ports, nodes),
        looper_strip_wiring(inputs.take(i + 1), loopers.take(i + 1), strips.take(i + 1), plugins)
            == looper_strip_wiring(inputs.take(i), loopers.take(i), strips.take(i), plugins)
            + looper_strip_links(inputs[i].input_type, loopers[i].loop_number, strips[i], plugins),
{
    lemma_concat_pairwise_step(
        inputs,
        strips,
        |input: InputView, strip: ChannelStripView| input_strip_links(
            input,
            strip,
            plugins,
            ports,
            nodes,
        ),
        i,
    );
    lemma_concat_pairwise_step(
        inputs,
        loopers,
        |input: InputView, looper: PmxLooper| looper_input_links(
            input,
            looper.loop_number,
            ports,
            nodes,
        ),
        i,
    );
    lemma_concat_triplewise_step(
        inputs,
        loopers,
        strips,
        |input: InputView, looper: PmxLooper, strip: ChannelStripView| looper_strip_links(
            input.input_type,
            looper.loop_number,
            strip,
            plugins,
        ),
        i,
    );
}

/// A stereo input whose endpoints all resolve yields exactly two
/// input-to-strip, two input-to-looper and two looper-to-strip links.
pub proof fn lemma_stereo_connection_counts(
    input: InputView,
    strip: ChannelStripView,
    loop_number: u32,
    plugins: Seq<PluginView>,
    ports: Seq<PortView>,
    nodes: Seq<NodeView>,
)
    requires
        input.input_type == PmxInputType::StereoInput,
        strip.channel_type != PmxChannelStripType::Basic,
        find_plugin_opt(plugins, strip.cross_fader_plugin_id) is Some,
        resolve_port(input.left_port_path, ports) is Some,
        find_node(nodes, resolve_port(input.left_port_path, ports).unwrap().node_id) is Some,
        resolve_port(input.right_port_path, ports) is Some,
        find_node(nodes, resolve_port(input.right_port_path, ports).unwrap().node_id) is Some,
    ensures
        input_strip_links(input, strip, plugins, ports, nodes).len() == 2,
        looper_input_links(input, loop_number, ports, nodes).len() == 2,
        looper_strip_links(input.input_type, loop_number, strip, plugins).len() == 2,
{
}

/// A mono input whose endpoints resolve yields exactly one link of each
/// kind: its single channel into the strip, into the looper, and back from
/// the looper into the strip.
pub proof fn lemma_mono_connection_counts(
    input: InputView,
    strip: ChannelStripView,
    loop_number: u32,
    plugins: Seq<PluginView>,
    ports: Seq<PortView>,
    nodes: Seq<NodeView>,
)
    requires
        input.input_type == PmxInputType::MonoInput,
        strip.channel_type != PmxChannelStripType::Basic,
        find_plugin_opt(plugins, strip.cross_fader_plugin_id) is Some,
        resolve_port(input.left_port_path, ports) is Some,
        find_node(nodes, resolve_port(input.left_port_path, ports).unwrap().node_id) is Some,
    ensures
        input_strip_links(input, strip, plugins, ports, nodes).len() == 1,
        looper_input_links(input, loop_number, ports, nodes).len() == 1,
        looper_strip_links(input.input_type, loop_number, strip, plugins).len() == 1,
{
}

/// An input without ports yields no input-side link at all, yet its group
/// wiring is unaffected: the strip-to-group plan never reads the input type.
pub proof fn lemma_absent_input_counts(
    input: InputView,
    strip: ChannelStripView,
    loop_number: u32,
    strips: Seq<ChannelStripView>,
    groups: GroupChannelStripsView,
    plugins: Seq<PluginView>,
    ports: Seq<PortView>,
    nodes: Seq<NodeView>,
    other_type: PmxInputType,
)
    requires
        input.input_type == PmxInputType::NoInput,
    ensures
        input_strip_links(input, strip, plugins, ports, nodes) == Seq::<LinkView>::empty(),
        looper_input_links(input, loop_number, ports, nodes) == Seq::<LinkView>::empty(),
        looper_strip_links(input.input_type, loop_number, strip, plugins) == Seq::<
            LinkView,
        >::empty(),
        strip_group_links(input, strips, groups, plugins) == strip_group_links(
            InputView { input_type: other_type, ..input },
            strips,
            groups,
            plugins,
        ),
{
}

/// An input whose port paths exist nowhere in the snapshot yields zero link
/// requests and stays harmless: by [`lemma_ordinal_correspondence`] and
/// [`lemma_group_stage_per_input`] every other input's wiring is planned
/// independently, so processing continues.
pub proof fn lemma_missing_port_skips(
    input: InputView,
    strip: ChannelStripView,
    loop_number: u32,
    plugins: Seq<PluginView>,
    ports: Seq<PortView>,
    nodes: Seq<NodeView>,
)
    requires
        forall|j: int| 0 <= j < ports.len() ==> input.left_port_path != Some(
            (#[trigger] ports[j]).path,
        ),
        forall|j: int| 0 <= j < ports.len() ==> input.right_port_path != Some(
            (#[trigger] ports[j]).path,
        ),
    ensures
        input_strip_links(input, strip, plugins, ports, nodes) == Seq::<LinkView>::empty(),
        looper_input_links(input, loop_number, ports, nodes) == Seq::<LinkView>::empty(),
{
    if let Some(left) = input.left_port_path {
        lemma_find_port_none(ports, left);
    }
    if let Some(right) = input.right_port_path {
        lemma_find_port_none(ports, right);
    }
    assert(resolve_port(input.left_port_path, ports) is None);
    assert(resolve_port(input.right_port_path, ports) is None);
    assert(input_strip_links(input, strip, plugins, ports, nodes) =~= Seq::<LinkView>::empty());
    assert(looper_input_links(input, loop_number, ports, nodes) =~= Seq::<LinkView>::empty());
}

/// The strip-to-group stage, too, plans every input independently: the plan
/// for the first `i + 1` inputs extends the plan for the first `i` inputs
/// with the links of input `i` alone, so a skipped input never disturbs the
/// wiring of the others.
pub proof fn lemma_group_stage_per_input(
    inputs: Seq<InputView>,
    strips: Seq<ChannelStripView>,
    groups: GroupChannelStripsView,
    plugins: Seq<PluginView>,
    i: int,
)
    requires
        0 <= i < inputs.len(),
    ensures
        strip_group_wiring(inputs.take(i + 1), strips, groups, plugins) == strip_group_wiring(
            inputs.take(i),
            strips,
            groups,
            plugins,
        ) + strip_group_links(inputs[i], strips, groups, plugins),
{
    lemma_concat_each_step(
        inputs,
        |input: InputView| strip_group_links(input, strips, groups, plugins),
        i,
    );
}

/// A run against a registry with no inputs provisions no channel strip and
/// no looper but still provisions the four group buses and the one output
/// stage, plans no input-side wiring, and still plans the group-to-output
/// and output-stage wiring over whatever snapshot it sees.
pub proof fn lemma_empty_registry_run(
    groups: GroupChannelStripsView,
    stage: PmxOutputStage,
    wiring_plugins: Seq<PluginView>,
    group_plugins: Seq<PluginView>,
    stage_plugins: Seq<PluginView>,
    all_strips: Seq<ChannelStripView>,
    outputs: Seq<OutputView>,
    ports: Seq<PortView>,
    nodes: Seq<NodeView>,
)
    ensures
        ({
            let plan = build_plan_view(
                Seq::empty(),
                Seq::empty(),
                Seq::empty(),
                groups,
                stage,
                wiring_plugins,
                group_plugins,
                stage_plugins,
                all_strips,
                outputs,
                ports,
                nodes,
            );
            &&& plan.channel_strip_creations.len() == 0
            &&& plan.looper_registrations.len() == 0
            &&& plan.group_creations == group_strip_requests()
            &&& plan.group_creations.len() == 4
            &&& plan.output_stage_creation == output_stage_request()
            &&& plan.input_links == Seq::<LinkView>::empty()
            &&& plan.looper_input_links == Seq::<LinkView>::empty()
            &&& plan.looper_strip_links == Seq::<LinkView>::empty()
            &&& plan.group_links == Seq::<LinkView>::empty()
            &&& plan.output_stage_links == group_output_stage_links(
                groups,
                stage,
                stage_plugins,
                all_strips,
            )
            &&& plan.output_links == output_stage_wiring(
                stage,
                outputs,
                ports,
                nodes,
                stage_plugins,
            )
        }),
{
}

/// Group-name matching is exact and case-sensitive: a declared name selects
/// a bus exactly when it equals that bus's name letter for letter, and in
/// particular the lowercase "drums" selects nothing although "Drums" names a
/// bus.
pub proof fn lemma_group_matching_exact(name: Seq<char>)
    ensures
        forall|bus: GroupBus| group_for_name(name) == Some(bus) <==> name == group_bus_name(bus),
        group_for_name("drums"@) is None,
{
    reveal_strlit("Drums");
    reveal_strlit("Bass");
    reveal_strlit("Melody");
    reveal_strlit("Atmos");
    reveal_strlit("drums");
    assert("Drums"@[0] == 'D' && "Bass"@[0] == 'B' && "Melody"@[0] == 'M' && "Atmos"@[0] == 'A');
    assert("drums"@[0] == 'd');
    assert("Drums"@.len() == 5 && "Bass"@.len() == 4 && "Melody"@.len() == 6 && "Atmos"@.len()
        == 5);
    assert("drums"@.len() == 5);
    assert forall|bus: GroupBus| group_for_name(name) == Some(bus) <==> name == group_bus_name(
        bus,
    ) by {
        match bus {
            GroupBus::Drums => {},
            GroupBus::Bass => {},
            GroupBus::Melody => {},
            GroupBus::Atmos => {},
        }
    }
}

/// Provisioning consults the input list alone: two runs over the same
/// inputs plan identical creation requests, however every snapshot differs
/// between the runs, and the number of requested strips and loopers is never
/// reduced by entities that already exist in a snapshot.
pub proof fn lemma_rerun_reprovisions(
    inputs: Seq<InputView>,
    strips_a: Seq<ChannelStripView>,
    loopers_a: Seq<PmxLooper>,
    groups_a: GroupChannelStripsView,
    stage_a: PmxOutputStage,
    wiring_plugins_a: Seq<PluginView>,
    group_plugins_a: Seq<PluginView>,
    stage_plugins_a: Seq<PluginView>,
    all_strips_a: Seq<ChannelStripView>,
    outputs_a: Seq<OutputView>,
    ports_a: Seq<PortView>,
    nodes_a: Seq<NodeView>,
    strips_b: Seq<ChannelStripView>,
    loopers_b: Seq<PmxLooper>,
    groups_b: GroupChannelStripsView,
    stage_b: PmxOutputStage,
    wiring_plugins_b: Seq<PluginView>,
    group_plugins_b: Seq<PluginView>,
    stage_plugins_b: Seq<PluginView>,
    all_strips_b: Seq<ChannelStripView>,
    outputs_b: Seq<OutputView>,
    ports_b: Seq<PortView>,
    nodes_b: Seq<NodeView>,
)
    ensures
        ({
            let first = build_plan_view(
                inputs,
                strips_a,
                loopers_a,
                groups_a,
                stage_a,
                wiring_plugins_a,
                group_plugins_a,
                stage_plugins_a,
                all_strips_a,
                outputs_a,
                ports_a,
                nodes_a,
            );
            let second = build_plan_view(
                inputs,
                strips_b,
                loopers_b,
                groups_b,
                stage_b,
                wiring_plugins_b,
                group_plugins_b,
                stage_plugins_b,
                all_strips_b,
                outputs_b,
                ports_b,
                nodes_b,
            );
            &&& first.channel_strip_creations == second.channel_strip_creations
            &&& first.looper_registrations == second.looper_registrations
            &&& first.group_creations == second.group_creations
            &&& first.output_stage_creation == second.output_stage_creation
            &&& first.channel_strip_creations.len() == inputs.len()
            &&& first.looper_registrations.len() == inputs.len()
            &&& first.group_creations.len() == 4
        }),
{
}

} // verus!
