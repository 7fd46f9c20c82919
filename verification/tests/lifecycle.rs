use render_graph::builder::GraphValidityState;
use render_graph::descriptor::ClearValue;
use render_graph::descriptor::ImageFormat;
use render_graph::descriptor::NodeKind;
use render_graph::descriptor::SurfaceFormat;
use render_graph::dimensions::ScreenDimensions;

fn dims(width: u32, height: u32) -> ScreenDimensions {
    ScreenDimensions { width, height }
}

#[test]
fn first_observation_returns_false_and_marks_dirty() {
    let mut state = GraphValidityState::default();
    assert!(state.last_known_dimensions.is_none());
    assert!(!state.dirty);

    let rebuild = state.check_validity(Some(dims(800, 600)));
    assert!(!rebuild);
    assert!(state.dirty);
    assert_eq!(state.last_known_dimensions, Some(dims(800, 600)));
}

#[test]
fn scenario_resize_then_rebuild() {
    let d1 = dims(800, 600);
    let d2 = dims(1024, 768);
    let format = SurfaceFormat { code: 3 };
    let mut state = GraphValidityState::default();

    assert!(!state.check_validity(Some(d1)));
    assert!(state.dirty);
    assert!(state.check_validity(Some(d1)));

    let _graph = state.build(d1, format);
    assert!(!state.dirty);
    assert!(!state.check_validity(Some(d1)));

    assert!(!state.check_validity(Some(d2)));
    assert!(state.dirty);
    assert!(state.check_validity(Some(d2)));
}

#[test]
fn absent_dimensions_defer_everything() {
    let mut state = GraphValidityState::default();
    assert!(!state.check_validity(None));
    assert!(state.last_known_dimensions.is_none());
    assert!(!state.dirty);

    assert!(!state.check_validity(Some(dims(640, 480))));
    assert!(state.dirty);
    assert!(state.check_validity(None));
    assert_eq!(state.last_known_dimensions, Some(dims(640, 480)));
    assert!(state.dirty);
}

#[test]
fn build_clears_dirty_and_keeps_dimensions() {
    let mut state = GraphValidityState::default();
    state.check_validity(Some(dims(320, 240)));
    assert!(state.dirty);

    let _graph = state.build(dims(320, 240), SurfaceFormat { code: 0 });
    assert!(!state.dirty);
    assert_eq!(state.last_known_dimensions, Some(dims(320, 240)));
}

#[test]
fn repeated_check_keeps_pending_rebuild() {
    let mut state = GraphValidityState::default();
    state.check_validity(Some(dims(800, 600)));

    let first = state.check_validity(Some(dims(800, 600)));
    let second = state.check_validity(Some(dims(800, 600)));
    assert!(first);
    assert!(second);
}

#[test]
fn descriptor_shape_holds_for_degenerate_dimensions() {
    let mut state = GraphValidityState::default();
    state.check_validity(Some(dims(1, 1)));
    let graph = state.build(dims(1, 1), SurfaceFormat { code: 9 });

    assert_eq!(graph.nodes.len(), 4);
    let presents = graph
        .nodes
        .iter()
        .filter(|n| matches!(n.kind, NodeKind::Present { .. }))
        .count();
    let subpasses = graph
        .nodes
        .iter()
        .filter(|n| matches!(n.kind, NodeKind::Subpass { .. }))
        .count();
    assert_eq!(presents, 1);
    assert_eq!(subpasses, 1);

    match graph.nodes[2].kind {
        NodeKind::Subpass { color_target, depth_target } => {
            assert!(matches!(graph.nodes[color_target].kind, NodeKind::ColorImage { .. }));
            assert!(matches!(graph.nodes[depth_target].kind, NodeKind::DepthImage { .. }));
            assert!(graph.nodes[2].deps.contains(&color_target));
            assert!(graph.nodes[2].deps.contains(&depth_target));
        }
        _ => panic!("expected the subpass node"),
    }
    match graph.nodes[3].kind {
        NodeKind::Present { source } => {
            assert!(matches!(graph.nodes[source].kind, NodeKind::ColorImage { .. }));
            assert!(graph.nodes[3].deps.contains(&2));
        }
        _ => panic!("expected the present node"),
    }
    for (i, node) in graph.nodes.iter().enumerate() {
        for &dep in node.deps.iter() {
            assert!(dep < i, "dependency edges must point at earlier nodes");
        }
    }
}

#[test]
fn descriptor_images_match_dimensions_and_formats() {
    let format = SurfaceFormat { code: 42 };
    let mut state = GraphValidityState::default();
    state.check_validity(Some(dims(800, 600)));
    let graph = state.build(dims(800, 600), format);

    match graph.nodes[0].kind {
        NodeKind::ColorImage { color } => {
            assert_eq!(color.width, 800);
            assert_eq!(color.height, 600);
            assert_eq!(color.levels, 1);
            assert_eq!(color.layers, 1);
            assert_eq!(color.format, ImageFormat::Surface { format });
            assert_eq!(
                color.clear,
                ClearValue::Color { red: 0, green: 0, blue: 0, alpha: 255 }
            );
        }
        _ => panic!("expected the color image node"),
    }
    match graph.nodes[1].kind {
        NodeKind::DepthImage { depth } => {
            assert_eq!(depth.width, 800);
            assert_eq!(depth.height, 600);
            assert_eq!(depth.format, ImageFormat::DepthF32);
            assert_eq!(
                depth.clear,
                ClearValue::DepthStencil { depth_milli: 1000, stencil: 0 }
            );
        }
        _ => panic!("expected the depth image node"),
    }
    assert!(graph.nodes[0].deps.is_empty());
    assert!(graph.nodes[1].deps.is_empty());
}

#[test]
fn build_is_idempotent_in_shape() {
    let format = SurfaceFormat { code: 5 };
    let d = dims(1024, 768);

    let mut first_state = GraphValidityState::default();
    first_state.check_validity(Some(d));
    let first = first_state.build(d, format);

    let mut second_state = GraphValidityState::default();
    second_state.check_validity(Some(d));
    second_state.check_validity(Some(d));
    let second = second_state.build(d, format);

    assert_eq!(first, second);
}
