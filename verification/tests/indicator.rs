use vcs_indicator::anim::ColorAnimation;
use vcs_indicator::anim::COLOR_STEP;
use vcs_indicator::anim::CONVERGENCE_TICKS;
use vcs_indicator::color::Color;
use vcs_indicator::indicator::StatusIndicator;
use vcs_indicator::model::StatusIndicatorModel;
use vcs_indicator::scene::SceneGraph;
use vcs_indicator::shape::ring_params;
use vcs_indicator::shape::ShapeParams;
use vcs_indicator::status::Status;
use vcs_indicator::status::Theme;

fn rgba(r: u8, g: u8, b: u8, a: u8) -> Color {
    Color { r, g, b, a }
}

fn test_theme() -> Theme {
    Theme {
        unchanged: rgba(255, 0, 0, 255),
        added: rgba(0, 255, 0, 255),
        edited: rgba(0, 0, 255, 255),
    }
}

#[test]
fn default_status_is_unchanged() {
    assert_eq!(Status::default(), Status::Unchanged);
}

#[test]
fn default_color_is_transparent() {
    assert_eq!(Color::default(), rgba(0, 0, 0, 0));
}

#[test]
fn highlight_colors_are_distinct_and_exact() {
    let theme = test_theme();
    let unchanged = Status::Unchanged.highlight_color(&theme);
    let added = Status::Added.highlight_color(&theme);
    let edited = Status::Edited.highlight_color(&theme);
    assert_eq!(unchanged, rgba(255, 0, 0, 255));
    assert_eq!(added, rgba(0, 255, 0, 255));
    assert_eq!(edited, rgba(0, 0, 255, 255));
    assert_ne!(unchanged, added);
    assert_ne!(unchanged, edited);
    assert_ne!(added, edited);
    // The lookup is deterministic: asking again gives the same color.
    assert_eq!(Status::Added.highlight_color(&theme), added);
}

#[test]
fn fresh_indicator_is_hidden_and_unchanged() {
    let indicator = StatusIndicator::new(test_theme());
    assert_eq!(indicator.status(), Status::Unchanged);
    assert!(!indicator.is_shown());
    assert_eq!(indicator.fill_color(), rgba(0, 0, 0, 0));
    assert_eq!(indicator.size(), (0, 0));
    // The synthetic status event has already retargeted the animation.
    assert_eq!(indicator.animation().target, test_theme().unchanged);
    assert_eq!(indicator.animation().current, rgba(0, 0, 0, 0));
}

#[test]
fn set_visibility_is_idempotent() {
    let mut once = StatusIndicator::new(test_theme());
    let mut twice = StatusIndicator::new(test_theme());
    once.set_visibility(true);
    twice.set_visibility(true);
    twice.set_visibility(true);
    assert_eq!(once.is_shown(), twice.is_shown());
    assert_eq!(once.status(), twice.status());
    assert_eq!(once.size(), twice.size());
    assert_eq!(once.fill_color(), twice.fill_color());
    assert_eq!(once.animation(), twice.animation());
    once.set_visibility(false);
    twice.set_visibility(false);
    twice.set_visibility(false);
    assert_eq!(once.is_shown(), twice.is_shown());
    assert_eq!(once.status(), twice.status());
    assert_eq!(once.size(), twice.size());
    assert_eq!(once.fill_color(), twice.fill_color());
    assert_eq!(once.animation(), twice.animation());
}

#[test]
fn output_status_mirrors_every_input() {
    let statuses = [Status::Added, Status::Edited, Status::Unchanged, Status::Edited];
    let mut indicator = StatusIndicator::new(test_theme());
    for s in statuses {
        indicator.set_status(s);
        assert_eq!(indicator.status(), s);
    }
}

#[test]
fn set_size_is_immediate() {
    let mut indicator = StatusIndicator::new(test_theme());
    indicator.set_size(100, 40);
    assert_eq!(indicator.size(), (100, 40));
    let ring = indicator.geometry();
    // Base rectangle: extent less padding of 4 on each side; boundaries
    // grow it by the ring widths 15 and 10 on each side.
    assert_eq!(ring.outer_width, 100 - 8 + 30);
    assert_eq!(ring.outer_height, 40 - 8 + 30);
    assert_eq!(ring.inner_width, 100 - 8 + 20);
    assert_eq!(ring.inner_height, 40 - 8 + 20);
    assert_eq!(ring.corner_radius, 14);
    // A second update replaces the first with no interpolation.
    indicator.set_size(7, 9);
    assert_eq!(indicator.size(), (7, 9));
}

#[test]
fn ring_stays_proper_for_degenerate_and_huge_sizes() {
    let zero = ring_params(&ShapeParams { width: 0, height: 0, fill: rgba(1, 2, 3, 4) });
    assert_eq!(zero.outer_width, 22);
    assert_eq!(zero.inner_width, 12);
    assert_eq!(zero.outer_height, 22);
    assert_eq!(zero.inner_height, 12);
    assert_eq!(zero.fill, rgba(1, 2, 3, 4));
    let huge = ring_params(&ShapeParams { width: u32::MAX, height: u32::MAX, fill: rgba(0, 0, 0, 0) });
    assert_eq!(huge.outer_width, 4294967295i64 - 8 + 30);
    assert_eq!(huge.inner_width, 4294967295i64 - 8 + 20);
    assert!(huge.outer_width > huge.inner_width);
    assert!(huge.outer_height > huge.inner_height);
}

#[test]
fn animation_single_step_is_exact() {
    let mut anim = ColorAnimation::new(rgba(0, 0, 0, 0));
    anim.set_target(rgba(20, 4, 0, 255));
    anim.step();
    // A channel further than COLOR_STEP away moves by exactly COLOR_STEP;
    // one within reach lands on its target.
    assert_eq!(anim.current, rgba(8, 4, 0, 8));
    assert_eq!(anim.target, rgba(20, 4, 0, 255));
    anim.step();
    assert_eq!(anim.current, rgba(16, 4, 0, 16));
    anim.step();
    assert_eq!(anim.current, rgba(20, 4, 0, 24));
}

#[test]
fn animation_steps_downward_too() {
    let mut anim = ColorAnimation::new(rgba(200, 7, 0, 0));
    anim.set_target(rgba(100, 0, 0, 0));
    anim.step();
    assert_eq!(anim.current, rgba(200 - COLOR_STEP, 0, 0, 0));
}

#[test]
fn converged_animation_is_a_fixed_point() {
    let mut anim = ColorAnimation::new(rgba(10, 20, 30, 40));
    anim.step();
    assert_eq!(anim.current, rgba(10, 20, 30, 40));
    assert_eq!(anim.target, rgba(10, 20, 30, 40));
}

#[test]
fn animation_converges_within_the_bound_and_not_before() {
    let mut anim = ColorAnimation::new(rgba(0, 0, 0, 0));
    anim.set_target(rgba(255, 255, 255, 255));
    for _ in 0..CONVERGENCE_TICKS - 1 {
        anim.step();
    }
    // The farthest transition is still in flight one tick short of the
    // bound...
    assert_ne!(anim.current, anim.target);
    anim.step();
    // ...and sits exactly on the target at the bound.
    assert_eq!(anim.current, rgba(255, 255, 255, 255));
}

#[test]
fn retargeting_supersedes_the_earlier_status() {
    let theme = test_theme();
    let added = theme.added;
    let edited = theme.edited;
    let mut indicator = StatusIndicator::new(theme);
    indicator.set_visibility(true);
    indicator.set_status(Status::Added);
    // A few ticks: the transition toward Added's color is in flight but
    // has not converged.
    for _ in 0..3 {
        indicator.tick();
    }
    assert_ne!(indicator.animation().current, added);
    // Retarget before convergence.
    indicator.set_status(Status::Edited);
    assert_eq!(indicator.animation().target, edited);
    for _ in 0..CONVERGENCE_TICKS {
        // The target never swings back, and whenever the animation is
        // settled it is settled at Edited's color, never at Added's.
        indicator.tick();
        let anim = indicator.animation();
        assert_eq!(anim.target, edited);
        if anim.current == anim.target {
            assert_eq!(anim.current, edited);
            assert_ne!(anim.current, added);
        }
    }
    assert_eq!(indicator.animation().current, edited);
    assert_eq!(indicator.fill_color(), edited);
}

#[test]
fn scenario_construct_show_status_size() {
    let theme = test_theme();
    let mut indicator = StatusIndicator::new(theme);
    assert_eq!(indicator.status(), Status::Unchanged);
    assert!(!indicator.is_shown());
    let fill_before = indicator.fill_color();
    indicator.set_visibility(true);
    assert!(indicator.is_shown());
    assert_eq!(indicator.fill_color(), fill_before);
    indicator.set_status(Status::Added);
    assert_eq!(indicator.status(), Status::Added);
    assert_eq!(indicator.animation().target, theme.added);
    indicator.set_size(100, 40);
    assert_eq!(indicator.size(), (100, 40));
}

#[test]
fn scenario_hide_show_preserves_converged_color() {
    let theme = test_theme();
    let mut indicator = StatusIndicator::new(theme);
    indicator.set_visibility(true);
    indicator.set_status(Status::Edited);
    for _ in 0..CONVERGENCE_TICKS {
        indicator.tick();
    }
    assert_eq!(indicator.fill_color(), theme.edited);
    indicator.set_visibility(false);
    assert!(!indicator.is_shown());
    indicator.set_visibility(true);
    assert!(indicator.is_shown());
    assert_eq!(indicator.status(), Status::Edited);
    // Hiding neither advanced nor reset the animation.
    assert_eq!(indicator.fill_color(), theme.edited);
    assert_eq!(indicator.animation().current, theme.edited);
}

#[test]
fn scene_graph_reparenting() {
    let mut scene = SceneGraph::new();
    let root = scene.new_node();
    let child = scene.new_node();
    assert_eq!(root, 0);
    assert_eq!(child, 1);
    assert_eq!(scene.parent(child), None);
    scene.add_child(root, child);
    assert_eq!(scene.parent(child), Some(root));
    assert_eq!(scene.parent(root), None);
    scene.unset_parent(child);
    assert_eq!(scene.parent(child), None);
    // Detaching an already detached node is a no-op.
    scene.unset_parent(child);
    assert_eq!(scene.parent(child), None);
    // The node survives detachment and can be reattached.
    scene.add_child(root, child);
    assert_eq!(scene.parent(child), Some(root));
}

#[test]
fn model_detach_preserves_uniforms() {
    let mut model = StatusIndicatorModel::new();
    assert!(model.shown());
    model.set_size(31, 17);
    model.set_fill(rgba(9, 8, 7, 6));
    model.detach();
    assert!(!model.shown());
    assert_eq!(model.uniforms().width, 31);
    assert_eq!(model.uniforms().height, 17);
    assert_eq!(model.uniforms().fill, rgba(9, 8, 7, 6));
    model.show();
    assert!(model.shown());
    assert_eq!(model.uniforms().width, 31);
    assert_eq!(model.uniforms().fill, rgba(9, 8, 7, 6));
}

#[test]
fn display_object_is_stable_across_visibility() {
    let mut indicator = StatusIndicator::new(test_theme());
    let root = indicator.display_object();
    indicator.set_visibility(true);
    assert_eq!(indicator.display_object(), root);
    indicator.set_visibility(false);
    assert_eq!(indicator.display_object(), root);
}
