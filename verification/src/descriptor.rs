use vstd::prelude::*;

use crate::dimensions::ScreenDimensions;

verus! {

/// The depth images of the graph clear to the maximum depth, 1.0. Depth
/// clear values are carried in thousandths, so the maximum is 1000.
pub const MAX_DEPTH_MILLI: u32 = 1000;

/// The pixel format the presentation surface reports as its native one.
/// The GPU factory hands it in as an opaque code; the descriptor carries
/// it through unchanged.
#[derive(Clone, Copy, Debug, PartialEq, Eq, Structural)]
pub struct SurfaceFormat {
    pub code: u32,
}

/// The format of an image resource of the graph.
#[derive(Clone, Copy, Debug, PartialEq, Eq, Structural)]
pub enum ImageFormat {
    /// The surface's native presentation format.
    Surface { format: SurfaceFormat },
    /// 32-bit float depth, no stencil bits used.
    DepthF32,
}

/// What an image is cleared to before each frame. Color channels run from
/// 0 to 255; depth is in thousandths (see [`MAX_DEPTH_MILLI`]).
#[derive(Clone, Copy, Debug, PartialEq, Eq, Structural)]
pub enum ClearValue {
    Color { red: u8, green: u8, blue: u8, alpha: u8 },
    DepthStencil { depth_milli: u32, stencil: u32 },
}

/// The shape of one image resource: its extent, mip levels, layers,
/// format and per-frame clear value.
#[derive(Clone, Copy, Debug, PartialEq, Eq, Structural)]
pub struct ImageSpec {
    pub width: u32,
    pub height: u32,
    pub levels: u32,
    pub layers: u32,
    pub format: ImageFormat,
    pub clear: ClearValue,
}

/// One node of the render graph.
#[derive(Clone, Copy, Debug, PartialEq, Eq, Structural)]
pub enum NodeKind {
    /// The color target the subpass draws into and the present node reads.
    ColorImage { color: ImageSpec },
    /// The depth target of the subpass.
    DepthImage { depth: ImageSpec },
    /// The one draw pass: reads per-frame sprite data supplied by the
    /// engine, writes the color and depth images it names by index.
    Subpass { color_target: usize, depth_target: usize },
    /// Transfers the finished color image (named by index) to the display
    /// surface.
    Present { source: usize },
}

/// A node together with the indices of the nodes it depends on. Edges
/// point only at earlier indices, which keeps the graph acyclic.
#[derive(Debug, PartialEq, Eq)]
pub struct Node {
    pub kind: NodeKind,
    pub deps: Vec<usize>,
}

impl View for Node {
    type V = (NodeKind, Seq<usize>);

    open spec fn view(&self) -> (NodeKind, Seq<usize>) {
        (self.kind, self.deps@)
    }
}

/// An ordered, acyclic description of the GPU passes and image resources
/// of one frame, created fresh on each rebuild and consumed whole by the
/// executor.
#[derive(Debug, PartialEq, Eq)]
pub struct RenderGraphDescriptor {
    pub nodes: Vec<Node>,
}

impl View for RenderGraphDescriptor {
    type V = Seq<(NodeKind, Seq<usize>)>;

    open spec fn view(&self) -> Seq<(NodeKind, Seq<usize>)> {
        self.nodes@.map_values(|n: Node| n@)
    }
}

/// The color image a build declares: sized to the given dimensions, in the
/// surface's native format, cleared to opaque black before each frame.
pub open spec fn spec_color_image(d: ScreenDimensions, f: SurfaceFormat) -> ImageSpec {
    ImageSpec {
        width: d.width,
        height: d.height,
        levels: 1,
        layers: 1,
        format: ImageFormat::Surface { format: f },
        clear: ClearValue::Color { red: 0, green: 0, blue: 0, alpha: 255 },
    }
}

/// The depth image a build declares: sized to the given dimensions, 32-bit
/// float depth, cleared to the maximum depth with no stencil bits used.
pub open spec fn spec_depth_image(d: ScreenDimensions) -> ImageSpec {
    ImageSpec {
        width: d.width,
        height: d.height,
        levels: 1,
        layers: 1,
        format: ImageFormat::DepthF32,
        clear: ClearValue::DepthStencil { depth_milli: MAX_DEPTH_MILLI, stencil: 0 },
    }
}

/// The whole graph a build declares for the given dimensions and surface
/// format: color image, depth image, one subpass writing both, and one
/// present node reading the color image after the subpass.
pub open spec fn spec_graph(d: ScreenDimensions, f: SurfaceFormat) -> Seq<(NodeKind, Seq<usize>)> {
    seq![
        (NodeKind::ColorImage { color: spec_color_image(d, f) }, Seq::<usize>::empty()),
        (NodeKind::DepthImage { depth: spec_depth_image(d) }, Seq::<usize>::empty()),
        (NodeKind::Subpass { color_target: 0, depth_target: 1 }, seq![0usize, 1usize]),
        (NodeKind::Present { source: 0 }, seq![2usize]),
    ]
}

/// Every dependency edge points at a strictly earlier node, so the graph
/// has no cycles.
pub open spec fn acyclic(g: Seq<(NodeKind, Seq<usize>)>) -> bool {
    forall|i: int, j: int|
        0 <= i < g.len() && 0 <= j < (#[trigger] g[i]).1.len() ==> #[trigger] g[i].1[j] < i
}

/// How many presentation nodes the graph holds.
pub open spec fn count_present(g: Seq<(NodeKind, Seq<usize>)>) -> nat
    decreases g.len(),
{
    if g.len() == 0 {
        0
    } else {
        count_present(g.drop_last()) + (if g.last().0 is Present { 1nat } else { 0nat })
    }
}

/// How many subpass nodes the graph holds.
pub open spec fn count_subpass(g: Seq<(NodeKind, Seq<usize>)>) -> nat
    decreases g.len(),
{
    if g.len() == 0 {
        0
    } else {
        count_subpass(g.drop_last()) + (if g.last().0 is Subpass { 1nat } else { 0nat })
    }
}

/// The subpass at index `i` names a color image and a depth image that
/// exist in the graph, and depends on both.
pub open spec fn subpass_ok(g: Seq<(NodeKind, Seq<usize>)>, i: int) -> bool {
    let c = g[i].0->color_target;
    let d = g[i].0->depth_target;
    &&& c < g.len()
    &&& d < g.len()
    &&& g[c as int].0 is ColorImage
    &&& g[d as int].0 is DepthImage
    &&& g[i].1.contains(c)
    &&& g[i].1.contains(d)
}

/// The present node at index `i` reads a color image that exists in the
/// graph and depends on a subpass.
pub open spec fn present_ok(g: Seq<(NodeKind, Seq<usize>)>, i: int) -> bool {
    let s = g[i].0->source;
    &&& s < g.len()
    &&& g[s as int].0 is ColorImage
    &&& exists|j: int| 0 <= j < g.len() && (#[trigger] g[j]).0 is Subpass && g[i].1.contains(j as usize)
}

/// A fully connected, acyclic descriptor ready for execution: exactly one
/// presentation node and exactly one subpass node, the subpass depending
/// on both image targets and the present node on the subpass.
pub open spec fn wf(g: Seq<(NodeKind, Seq<usize>)>) -> bool {
    &&& acyclic(g)
    &&& count_present(g) == 1
    &&& count_subpass(g) == 1
    &&& forall|i: int| 0 <= i < g.len() && (#[trigger] g[i]).0 is Subpass ==> subpass_ok(g, i)
    &&& forall|i: int| 0 <= i < g.len() && (#[trigger] g[i]).0 is Present ==> present_ok(g, i)
}

/// Law: every build, whatever the dimensions and surface format — a
/// degenerate 1-by-1 extent included — describes a well-formed graph:
/// exactly one presentation node, exactly one subpass node, and the
/// subpass depends on both the color and the depth image.
pub proof fn lemma_spec_graph_wf(d: ScreenDimensions, f: SurfaceFormat)
    ensures
        wf(spec_graph(d, f)),
        count_present(spec_graph(d, f)) == 1,
        count_subpass(spec_graph(d, f)) == 1,
{
    let g = spec_graph(d, f);
    let g3 = g.drop_last();
    let g2 = g3.drop_last();
    let g1 = g2.drop_last();
    let g0 = g1.drop_last();
    assert(g0.len() == 0);
    assert(g1.last() == g[0] && g2.last() == g[1] && g3.last() == g[2] && g.last() == g[3]);
    reveal_with_fuel(count_present, 5);
    reveal_with_fuel(count_subpass, 5);
    assert(count_present(g) == 1);
    assert(count_subpass(g) == 1);
    assert forall|i: int| 0 <= i < g.len() && (#[trigger] g[i]).0 is Subpass implies subpass_ok(
        g,
        i,
    ) by {
        assert(i == 2);
        assert(g[2].1[0] == 0usize && g[2].1[1] == 1usize);
    }
    assert forall|i: int| 0 <= i < g.len() && (#[trigger] g[i]).0 is Present implies present_ok(
        g,
        i,
    ) by {
        assert(i == 3);
        assert(g[3].1[0] == 2usize);
        assert(g[2].0 is Subpass && g[3].1.contains(2usize));
    }
}

/// Law: a build is deterministic in shape — two graphs built from the same
/// dimensions and the same surface format are identical, their image sizes
/// and formats included.
pub proof fn lemma_build_idempotent(
    d: ScreenDimensions,
    f: SurfaceFormat,
    g1: Seq<(NodeKind, Seq<usize>)>,
    g2: Seq<(NodeKind, Seq<usize>)>,
)
    requires
        g1 == spec_graph(d, f),
        g2 == spec_graph(d, f),
    ensures
        g1 == g2,
{
}

} // verus!
