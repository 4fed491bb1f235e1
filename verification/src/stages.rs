//! Whole-stage wiring: each stage walks its snapshot lists in order and
//! concatenates the per-entity link requests.
//!
//! Inputs, channel strips and loopers are positionally paired: the list
//! planners walk the lists together, so the links for the `i`-th input come
//! from the `i`-th strip and the `i`-th looper, and every pair is planned
//! independently of the others.

use vstd::prelude::*;

use crate::model::{
    ChannelStripView, GroupChannelStrips, InputView, LinkRequest, LinkView, ListNode, ListPort,
    NodeView, OutputView, PluginView, PmxChannelStrip, PmxInput, PmxLooper, PmxOutput,
    PmxOutputStage, PmxPlugin, PortView,
};
use crate::resolve::{find_plugin, find_plugin_by_id};
use crate::wiring::{
    connect_looper_to_channel_strip, connect_looper_to_input, input_strip_link_requests,
    input_strip_links, looper_input_links, looper_strip_links, output_physical_link_requests,
    output_physical_links, strip_group_link_requests, strip_group_links, MAX_LOOP_NUMBER,
};

verus! {

/// Concatenation of `f` over the items of one list, in list order.
pub open spec fn concat_each<A>(items: Seq<A>, f: spec_fn(A) -> Seq<LinkView>) -> Seq<LinkView>
    decreases items.len(),
{
    if items.len() == 0 {
        Seq::empty()
    } else {
        concat_each(items.drop_last(), f) + f(items.last())
    }
}

/// Concatenation of `f` over two positionally paired lists, in list order.
pub open spec fn concat_pairwise<A, B>(
    xs: Seq<A>,
    ys: Seq<B>,
    f: spec_fn(A, B) -> Seq<LinkView>,
) -> Seq<LinkView>
    recommends
        xs.len() == ys.len(),
    decreases xs.len(),
{
    if xs.len() == 0 || ys.len() == 0 {
        Seq::empty()
    } else {
        concat_pairwise(xs.drop_last(), ys.drop_last(), f) + f(xs.last(), ys.last())
    }
}

/// Concatenation of `f` over three positionally paired lists, in list order.
pub open spec fn concat_triplewise<A, B, C>(
    xs: Seq<A>,
    ys: Seq<B>,
    zs: Seq<C>,
    f: spec_fn(A, B, C) -> Seq<LinkView>,
) -> Seq<LinkView>
    recommends
        xs.len() == ys.len(),
        ys.len() == zs.len(),
    decreases xs.len(),
{
    if xs.len() == 0 || ys.len() == 0 || zs.len() == 0 {
        Seq::empty()
    } else {
        concat_triplewise(xs.drop_last(), ys.drop_last(), zs.drop_last(), f) + f(
            xs.last(),
            ys.last(),
            zs.last(),
        )
    }
}

/// One step of [`concat_each`] along a growing prefix.
pub proof fn lemma_concat_each_step<A>(items: Seq<A>, f: spec_fn(A) -> Seq<LinkView>, i: int)
    requires
        0 <= i < items.len(),
    ensures
        concat_each(items.take(i + 1), f) == concat_each(items.take(i), f) + f(items[i]),
{
    assert(items.take(i + 1).drop_last() =~= items.take(i));
    assert(items.take(i + 1).last() == items[i]);
}

/// One step of [`concat_pairwise`] along growing prefixes.
pub proof fn lemma_concat_pairwise_step<A, B>(
    xs: Seq<A>,
    ys: Seq<B>,
    f: spec_fn(A, B) -> Seq<LinkView>,
    i: int,
)
    requires
        xs.len() == ys.len(),
        0 <= i < xs.len(),
    ensures
        concat_pairwise(xs.take(i + 1), ys.take(i + 1), f) == concat_pairwise(
            xs.take(i),
            ys.take(i),
            f,
        ) + f(xs[i], ys[i]),
{
    assert(xs.take(i + 1).drop_last() =~= xs.take(i));
    assert(ys.take(i + 1).drop_last() =~= ys.take(i));
    assert(xs.take(i + 1).last() == xs[i]);
    assert(ys.take(i + 1).last() == ys[i]);
}

/// One step of [`concat_triplewise`] along growing prefixes.
pub proof fn lemma_concat_triplewise_step<A, B, C>(
    xs: Seq<A>,
    ys: Seq<B>,
    zs: Seq<C>,
    f: spec_fn(A, B, C) -> Seq<LinkView>,
    i: int,
)
    requires
        xs.len() == ys.len(),
        ys.len() == zs.len(),
        0 <= i < xs.len(),
    ensures
        concat_triplewise(xs.take(i + 1), ys.take(i + 1), zs.take(i + 1), f) == concat_triplewise(
            xs.take(i),
            ys.take(i),
            zs.take(i),
            f,
        ) + f(xs[i], ys[i], zs[i]),
{
    assert(xs.take(i + 1).drop_last() =~= xs.take(i));
    assert(ys.take(i + 1).drop_last() =~= ys.take(i));
    assert(zs.take(i + 1).drop_last() =~= zs.take(i));
    assert(xs.take(i + 1).last() == xs[i]);
    assert(ys.take(i + 1).last() == ys[i]);
    assert(zs.take(i + 1).last() == zs[i]);
}

/// All input-to-strip links of one run: the `i`-th input wired into the
/// `i`-th channel strip.
pub open spec fn input_wiring(
    inputs: Seq<InputView>,
    strips: Seq<ChannelStripView>,
    plugins: Seq<PluginView>,
    ports: Seq<PortView>,
    nodes: Seq<NodeView>,
) -> Seq<LinkView> {
    concat_pairwise(
        inputs,
        strips,
        |input: InputView, strip: ChannelStripView| input_strip_links(
            input,
            strip,
            plugins,
            ports,
            nodes,
        ),
    )
}

/// All input-to-looper links of one run: the `i`-th input wired into the
/// `i`-th looper.
pub open spec fn looper_input_wiring(
    inputs: Seq<InputView>,
    loopers: Seq<PmxLooper>,
    ports: Seq<PortView>,
    nodes: Seq<NodeView>,
) -> Seq<LinkView> {
    concat_pairwise(
        inputs,
        loopers,
        |input: InputView, looper: PmxLooper| looper_input_links(
            input,
            looper.loop_number,
            ports,
            nodes,
        ),
    )
}

/// All looper-to-strip links of one run: the `i`-th looper wired into the
/// `i`-th channel strip, with the channel count of the `i`-th input.
pub open spec fn looper_strip_wiring(
    inputs: Seq<InputView>,
    loopers: Seq<PmxLooper>,
    strips: Seq<ChannelStripView>,
    plugins: Seq<PluginView>,
) -> Seq<LinkView> {
    concat_triplewise(
        inputs,
        loopers,
        strips,
        |input: InputView, looper: PmxLooper, strip: ChannelStripView| looper_strip_links(
            input.input_type,
            looper.loop_number,
            strip,
            plugins,
        ),
    )
}

/// All strip-to-group links of one run, one stereo pair per input whose
/// group name and strip resolve.
pub open spec fn strip_group_wiring(
    inputs: Seq<InputView>,
    strips: Seq<ChannelStripView>,
    groups: crate::model::GroupChannelStripsView,
    plugins: Seq<PluginView>,
) -> Seq<LinkView> {
    concat_each(
        inputs,
        |input: InputView| strip_group_links(input, strips, groups, plugins),
    )
}

/// All output-stage-to-physical-output links of one run: nothing when the
/// stage's cross-fader plugin does not resolve, else one stereo pair per
/// resolvable output.
pub open spec fn output_stage_wiring(
    stage: PmxOutputStage,
    outputs: Seq<OutputView>,
    ports: Seq<PortView>,
    nodes: Seq<NodeView>,
    plugins: Seq<PluginView>,
) -> Seq<LinkView> {
    match find_plugin(plugins, stage.cross_fader_plugin_id) {
        Some(cross_fader) => concat_each(
            outputs,
            |output: OutputView| output_physical_links(cross_fader, output, ports, nodes),
        ),
        None => Seq::empty(),
    }
}

/// Plans stage four of a run: every input into its channel strip.
pub fn connect_inputs_to_channel_strips(
    inputs: &Vec<PmxInput>,
    strips: &Vec<PmxChannelStrip>,
    plugins: &Vec<PmxPlugin>,
    ports: &Vec<ListPort>,
    nodes: &Vec<ListNode>,
) -> (r: Vec<LinkRequest>)
    requires
        inputs.len() == strips.len(),
    ensures
        r.deep_view() == input_wiring(
            inputs.deep_view(),
            strips.deep_view(),
            plugins.deep_view(),
            ports.deep_view(),
            nodes.deep_view(),
        ),
{
    let ghost f = |input: InputView, strip: ChannelStripView| input_strip_links(
        input,
        strip,
        plugins.deep_view(),
        ports.deep_view(),
        nodes.deep_view(),
    );
    let mut r: Vec<LinkRequest> = Vec::new();
    let n = inputs.len();
    proof {
        assert(r.deep_view() =~= Seq::<LinkView>::empty());
    }
    for i in 0..n
        invariant
            n == inputs.len(),
            n == strips.len(),
            r.deep_view() == concat_pairwise(
                inputs.deep_view().take(i as int),
                strips.deep_view().take(i as int),
                f,
            ),
            f == (|input: InputView, strip: ChannelStripView| input_strip_links(
                input,
                strip,
                plugins.deep_view(),
                ports.deep_view(),
                nodes.deep_view(),
            )),
    {
        let ghost before = r.deep_view();
        let mut links = input_strip_link_requests(&inputs[i], &strips[i], plugins, ports, nodes);
        let ghost links_view = links.deep_view();
        r.append(&mut links);
        proof {
            lemma_concat_pairwise_step(inputs.deep_view(), strips.deep_view(), f, i as int);
            assert(r.deep_view() =~= before + links_view);
        }
    }
    proof {
        assert(inputs.deep_view().take(n as int) =~= inputs.deep_view());
        assert(strips.deep_view().take(n as int) =~= strips.deep_view());
    }
    r
}

/// Plans the input side of stage five: every input into its looper.
pub fn connect_loopers_to_inputs(
    inputs: &Vec<PmxInput>,
    loopers: &Vec<PmxLooper>,
    ports: &Vec<ListPort>,
    nodes: &Vec<ListNode>,
) -> (r: Vec<LinkRequest>)
    requires
        inputs.len() == loopers.len(),
        forall|i: int| 0 <= i < loopers.len() ==> loopers[i].loop_number <= MAX_LOOP_NUMBER,
    ensures
        r.deep_view() == looper_input_wiring(
            inputs.deep_view(),
            loopers.deep_view(),
            ports.deep_view(),
            nodes.deep_view(),
        ),
{
    let ghost f = |input: InputView, looper: PmxLooper| looper_input_links(
        input,
        looper.loop_number,
        ports.deep_view(),
        nodes.deep_view(),
    );
    let mut r: Vec<LinkRequest> = Vec::new();
    let n = inputs.len();
    proof {
        assert(r.deep_view() =~= Seq::<LinkView>::empty());
    }
    for i in 0..n
        invariant
            n == inputs.len(),
            n == loopers.len(),
            forall|j: int| 0 <= j < loopers.len() ==> loopers[j].loop_number <= MAX_LOOP_NUMBER,
            r.deep_view() == concat_pairwise(
                inputs.deep_view().take(i as int),
                loopers.deep_view().take(i as int),
                f,
            ),
            f == (|input: InputView, looper: PmxLooper| looper_input_links(
                input,
                looper.loop_number,
                ports.deep_view(),
                nodes.deep_view(),
            )),
    {
        let ghost before = r.deep_view();
        let mut links = connect_looper_to_input(&inputs[i], &loopers[i], ports, nodes);
        let ghost links_view = links.deep_view();
        r.append(&mut links);
        proof {
            assert(loopers.deep_view()[i as int] == loopers[i as int]);
            lemma_concat_pairwise_step(inputs.deep_view(), loopers.deep_view(), f, i as int);
            assert(r.deep_view() =~= before + links_view);
        }
    }
    proof {
        assert(inputs.deep_view().take(n as int) =~= inputs.deep_view());
        assert(loopers.deep_view().take(n as int) =~= loopers.deep_view());
    }
    r
}

/// Plans the strip side of stage five: every looper into its channel strip,
/// with the channel count of its paired input.
pub fn connect_loopers_to_channel_strips(
    inputs: &Vec<PmxInput>,
    loopers: &Vec<PmxLooper>,
    strips: &Vec<PmxChannelStrip>,
    plugins: &Vec<PmxPlugin>,
) -> (r: Vec<LinkRequest>)
    requires
        inputs.len() == loopers.len(),
        inputs.len() == strips.len(),
        forall|i: int| 0 <= i < loopers.len() ==> loopers[i].loop_number <= MAX_LOOP_NUMBER,
    ensures
        r.deep_view() == looper_strip_wiring(
            inputs.deep_view(),
            loopers.deep_view(),
            strips.deep_view(),
            plugins.deep_view(),
        ),
{
    let ghost f = |input: InputView, looper: PmxLooper, strip: ChannelStripView| looper_strip_links(
        input.input_type,
        looper.loop_number,
        strip,
        plugins.deep_view(),
    );
    let mut r: Vec<LinkRequest> = Vec::new();
    let n = inputs.len();
    proof {
        assert(r.deep_view() =~= Seq::<LinkView>::empty());
    }
    for i in 0..n
        invariant
            n == inputs.len(),
            n == loopers.len(),
            n == strips.len(),
            forall|j: int| 0 <= j < loopers.len() ==> loopers[j].loop_number <= MAX_LOOP_NUMBER,
            r.deep_view() == concat_triplewise(
                inputs.deep_view().take(i as int),
                loopers.deep_view().take(i as int),
                strips.deep_view().take(i as int),
                f,
            ),
            f == (|input: InputView, looper: PmxLooper, strip: ChannelStripView|
                looper_strip_links(
                    input.input_type,
                    looper.loop_number,
                    strip,
                    plugins.deep_view(),
                )),
    {
        let ghost before = r.deep_view();
        let mut links = connect_looper_to_channel_strip(
            inputs[i].input_type,
            &loopers[i],
            &strips[i],
            plugins,
        );
        let ghost links_view = links.deep_view();
        r.append(&mut links);
        proof {
            assert(loopers.deep_view()[i as int] == loopers[i as int]);
            lemma_concat_triplewise_step(
                inputs.deep_view(),
                loopers.deep_view(),
                strips.deep_view(),
                f,
                i as int,
            );
            assert(r.deep_view() =~= before + links_view);
        }
    }
    proof {
        assert(inputs.deep_view().take(n as int) =~= inputs.deep_view());
        assert(loopers.deep_view().take(n as int) =~= loopers.deep_view());
        assert(strips.deep_view().take(n as int) =~= strips.deep_view());
    }
    r
}

/// Plans stage seven: every input's channel strip into its group bus.
pub fn connect_channel_strips_to_group_channel_strips(
    inputs: &Vec<PmxInput>,
    strips: &Vec<PmxChannelStrip>,
    groups: &GroupChannelStrips,
    plugins: &Vec<PmxPlugin>,
) -> (r: Vec<LinkRequest>)
    ensures
        r.deep_view() == strip_group_wiring(
            inputs.deep_view(),
            strips.deep_view(),
            groups.deep_view(),
            plugins.deep_view(),
        ),
{
    let ghost f = |input: InputView| strip_group_links(
        input,
        strips.deep_view(),
        groups.deep_view(),
        plugins.deep_view(),
    );
    let mut r: Vec<LinkRequest> = Vec::new();
    let n = inputs.len();
    proof {
        assert(r.deep_view() =~= Seq::<LinkView>::empty());
    }
    for i in 0..n
        invariant
            n == inputs.len(),
            r.deep_view() == concat_each(inputs.deep_view().take(i as int), f),
            f == (|input: InputView| strip_group_links(
                input,
                strips.deep_view(),
                groups.deep_view(),
                plugins.deep_view(),
            )),
    {
        let ghost before = r.deep_view();
        let mut links = strip_group_link_requests(&inputs[i], strips, groups, plugins);
        let ghost links_view = links.deep_view();
        r.append(&mut links);
        proof {
            lemma_concat_each_step(inputs.deep_view(), f, i as int);
            assert(r.deep_view() =~= before + links_view);
        }
    }
    proof {
        assert(inputs.deep_view().take(n as int) =~= inputs.deep_view());
    }
    r
}

/// Plans stage ten: the output stage's cross-fader into every physical
/// output that resolves.
pub fn connect_output_stage_to_outputs(
    stage: &PmxOutputStage,
    outputs: &Vec<PmxOutput>,
    ports: &Vec<ListPort>,
    nodes: &Vec<ListNode>,
    plugins: &Vec<PmxPlugin>,
) -> (r: Vec<LinkRequest>)
    ensures
        r.deep_view() == output_stage_wiring(
            *stage,
            outputs.deep_view(),
            ports.deep_view(),
            nodes.deep_view(),
            plugins.deep_view(),
        ),
{
    let mut r: Vec<LinkRequest> = Vec::new();
    let cross_fader = match find_plugin_by_id(plugins, stage.cross_fader_plugin_id) {
        Some(p) => p,
        None => {
            proof {
                assert(r.deep_view() =~= Seq::<LinkView>::empty());
            }
            return r;
        },
    };
    let ghost f = |output: OutputView| output_physical_links(
        cross_fader.deep_view(),
        output,
        ports.deep_view(),
        nodes.deep_view(),
    );
    let n = outputs.len();
    proof {
        assert(r.deep_view() =~= Seq::<LinkView>::empty());
    }
    for i in 0..n
        invariant
            n == outputs.len(),
            r.deep_view() == concat_each(outputs.deep_view().take(i as int), f),
            f == (|output: OutputView| output_physical_links(
                cross_fader.deep_view(),
                output,
                ports.deep_view(),
                nodes.deep_view(),
            )),
    {
        let ghost before = r.deep_view();
        let mut links = output_physical_link_requests(&cross_fader, &outputs[i], ports, nodes);
        let ghost links_view = links.deep_view();
        r.append(&mut links);
        proof {
            lemma_concat_each_step(outputs.deep_view(), f, i as int);
            assert(r.deep_view() =~= before + links_view);
        }
    }
    proof {
        assert(outputs.deep_view().take(n as int) =~= outputs.deep_view());
    }
    r
}

} // verus!
