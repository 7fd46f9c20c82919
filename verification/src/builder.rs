use vstd::prelude::*;

use crate::descriptor::ClearValue;
use crate::descriptor::ImageFormat;
use crate::descriptor::ImageSpec;
use crate::descriptor::MAX_DEPTH_MILLI;
use crate::descriptor::Node;
use crate::descriptor::NodeKind;
use crate::descriptor::RenderGraphDescriptor;
use crate::descriptor::SurfaceFormat;
use crate::descriptor::lemma_spec_graph_wf;
use crate::descriptor::spec_graph;
use crate::descriptor::wf;
use crate::dimensions::ScreenDimensions;

verus! {

/// The builder's record of what the cached graph was built against:
/// the last dimensions observed, and whether a rebuild is owed.
#[derive(Clone, Copy, Debug)]
pub struct GraphValidityState {
    /// The last dimensions the builder observed, if any.
    pub last_known_dimensions: Option<ScreenDimensions>,
    /// True when the built descriptor no longer matches the required
    /// output; cleared exactly once, at the start of a rebuild.
    pub dirty: bool,
}

impl Default for GraphValidityState {
    /// The state at application start: no known dimensions, not dirty.
    /// No draw submission occurs until the first successful build.
    fn default() -> (s: GraphValidityState)
        ensures
            s.last_known_dimensions is None,
            !s.dirty,
    {
        GraphValidityState { last_known_dimensions: None, dirty: false }
    }
}

/// The state a validity check leaves behind: an absent observation changes
/// nothing; an observation equal to the stored one changes nothing; any
/// other observation is stored and marks the graph dirty.
pub open spec fn spec_check_state(
    s: GraphValidityState,
    current: Option<ScreenDimensions>,
) -> GraphValidityState {
    match current {
        None => s,
        Some(d) => {
            if s.last_known_dimensions == Some(d) {
                s
            } else {
                GraphValidityState { last_known_dimensions: Some(d), dirty: true }
            }
        },
    }
}

/// What a validity check answers: with an absent observation or an
/// unchanged one, the current dirty flag; on a dimension change, false —
/// the caller re-checks next frame.
pub open spec fn spec_check_result(
    s: GraphValidityState,
    current: Option<ScreenDimensions>,
) -> bool {
    match current {
        None => s.dirty,
        Some(d) => {
            if s.last_known_dimensions == Some(d) {
                s.dirty
            } else {
                false
            }
        },
    }
}

/// The state a build leaves behind: the dirty flag cleared, the stored
/// dimensions kept.
pub open spec fn spec_after_build(s: GraphValidityState) -> GraphValidityState {
    GraphValidityState { last_known_dimensions: s.last_known_dimensions, dirty: false }
}

impl GraphValidityState {
    /// Decides, once per frame and before the graph is executed, whether
    /// the cached descriptor must be rebuilt. An absent observation means
    /// the surface is not ready: the decision is deferred and nothing is
    /// mutated. A changed observation is recorded, marks the state dirty
    /// and still answers false for this frame; the rebuild is owed to the
    /// re-check one frame later. An unchanged observation answers the
    /// dirty flag as it stands.
    pub fn check_validity(&mut self, current: Option<ScreenDimensions>) -> (rebuild: bool)
        ensures
            *final(self) == spec_check_state(*old(self), current),
            rebuild == spec_check_result(*old(self), current),
            current is None ==> *final(self) == *old(self) && rebuild == old(self).dirty,
            current is Some && old(self).last_known_dimensions != current ==> {
                &&& final(self).last_known_dimensions == current
                &&& final(self).dirty
                &&& !rebuild
            },
            current is Some && old(self).last_known_dimensions == current ==> {
                &&& *final(self) == *old(self)
                &&& rebuild == old(self).dirty
            },
    {
        match current {
            None => self.dirty,
            Some(c) => {
                let unchanged = match self.last_known_dimensions {
                    Some(l) => l == c,
                    None => false,
                };
                if unchanged {
                    self.dirty
                } else {
                    self.last_known_dimensions = Some(c);
                    self.dirty = true;
                    false
                }
            },
        }
    }

    /// Constructs a fresh descriptor for the given dimensions and surface
    /// format, clearing the dirty flag first. Called when `check_validity`
    /// answered true; a dimension observation must have occurred. The
    /// previous descriptor is discarded in full by the executor — no
    /// partial reuse.
    pub fn build(
        &mut self,
        current: ScreenDimensions,
        surface_format: SurfaceFormat,
    ) -> (g: RenderGraphDescriptor)
        requires
            old(self).last_known_dimensions is Some,
        ensures
            *final(self) == spec_after_build(*old(self)),
            !final(self).dirty,
            final(self).last_known_dimensions == old(self).last_known_dimensions,
            g@ == spec_graph(current, surface_format),
            wf(g@),
    {
        self.dirty = false;

        let color_image = ImageSpec {
            width: current.width,
            height: current.height,
            levels: 1,
            layers: 1,
            format: ImageFormat::Surface { format: surface_format },
            clear: ClearValue::Color { red: 0, green: 0, blue: 0, alpha: 255 },
        };
        let depth_image = ImageSpec {
            width: current.width,
            height: current.height,
            levels: 1,
            layers: 1,
            format: ImageFormat::DepthF32,
            clear: ClearValue::DepthStencil { depth_milli: MAX_DEPTH_MILLI, stencil: 0 },
        };

        let mut subpass_deps: Vec<usize> = Vec::new();
        subpass_deps.push(0);
        subpass_deps.push(1);
        let mut present_deps: Vec<usize> = Vec::new();
        present_deps.push(2);

        let mut nodes: Vec<Node> = Vec::new();
        nodes.push(Node { kind: NodeKind::ColorImage { color: color_image }, deps: Vec::new() });
        nodes.push(Node { kind: NodeKind::DepthImage { depth: depth_image }, deps: Vec::new() });
        nodes.push(
            Node { kind: (NodeKind::Subpass { color_target: 0, depth_target: 1 }), deps: subpass_deps },
        );
        nodes.push(Node { kind: (NodeKind::Present { source: 0 }), deps: present_deps });

        let g = RenderGraphDescriptor { nodes };
        proof {
            assert(g@ =~~= spec_graph(current, surface_format));
            lemma_spec_graph_wf(current, surface_format);
        }
        g
    }
}

/// Law: an observation that differs from the stored dimensions — the first
/// observation included — leaves the builder dirty: the rebuild it owes is
/// recorded at once.
pub proof fn lemma_dirty_after_change(s: GraphValidityState, d: ScreenDimensions)
    requires
        s.last_known_dimensions != Some(d),
    ensures
        spec_check_state(s, Some(d)).dirty,
        spec_check_state(s, Some(d)).last_known_dimensions == Some(d),
{
}

/// Law: a build always leaves the dirty flag false, whatever state it
/// started from.
pub proof fn lemma_clean_after_build(s: GraphValidityState)
    ensures
        !spec_after_build(s).dirty,
        spec_after_build(s).last_known_dimensions == s.last_known_dimensions,
{
}

/// Law: once the observed dimensions match the stored ones, a validity
/// check mutates nothing, so two consecutive checks with identical
/// dimensions and no intervening build answer the same value — in
/// particular, a pending rebuild request is answered true both times, not
/// silently dropped.
pub proof fn lemma_check_stable(s: GraphValidityState, d: ScreenDimensions)
    requires
        s.last_known_dimensions == Some(d),
    ensures
        spec_check_state(s, Some(d)) == s,
        spec_check_result(spec_check_state(s, Some(d)), Some(d)) == spec_check_result(
            s,
            Some(d),
        ),
        s.dirty ==> spec_check_result(s, Some(d)) && spec_check_result(
            spec_check_state(s, Some(d)),
            Some(d),
        ),
{
}

/// One event of the builder's per-frame life: a dimension observation
/// handed to `check_validity`, or a rebuild performed by `build`.
pub enum BuilderEvent {
    Observe { current: Option<ScreenDimensions> },
    Rebuild,
}

/// The state one event leaves behind.
pub open spec fn spec_step(s: GraphValidityState, e: BuilderEvent) -> GraphValidityState {
    match e {
        BuilderEvent::Observe { current } => spec_check_state(s, current),
        BuilderEvent::Rebuild => spec_after_build(s),
    }
}

/// The state a whole sequence of events leaves behind, applied in order.
pub open spec fn spec_run(s: GraphValidityState, events: Seq<BuilderEvent>) -> GraphValidityState
    decreases events.len(),
{
    if events.len() == 0 {
        s
    } else {
        spec_step(spec_run(s, events.drop_last()), events.last())
    }
}

/// Law: over every sequence of observations and rebuilds, from every
/// starting state, the dirty flag is true immediately after any
/// observation that differs from the dimensions stored before it, and
/// false immediately after any rebuild.
pub proof fn lemma_dirty_tracks_events(
    s: GraphValidityState,
    events: Seq<BuilderEvent>,
    i: int,
)
    requires
        0 <= i < events.len(),
    ensures
        events[i] is Observe && events[i]->current is Some && spec_run(
            s,
            events.take(i),
        ).last_known_dimensions != events[i]->current ==> spec_run(s, events.take(i + 1)).dirty,
        events[i] is Rebuild ==> !spec_run(s, events.take(i + 1)).dirty,
{
    assert(events.take(i + 1).drop_last() =~= events.take(i));
    assert(events.take(i + 1).last() == events[i]);
}

/// Law: a deferred decision defers everything — a check with absent
/// dimensions answers the dirty flag as it stands and mutates nothing, in
/// whatever state the builder is.
pub proof fn lemma_absent_defers(s: GraphValidityState)
    ensures
        spec_check_state(s, None) == s,
        spec_check_result(s, None) == s.dirty,
{
}

} // verus!
