use vwr::catalog::Catalog;
use vwr::catalog::ListingEntry;
use vwr::geometry::Dims;
use vwr::geometry::fit_to_viewport;
use vwr::geometry::zoom_in_target;
use vwr::geometry::zoom_out_target;
use vwr::viewport::InputEvent;
use vwr::viewport::Plan;
use vwr::viewport::ViewportController;

fn dims(width: u32, height: u32) -> Dims {
    Dims { width, height }
}

fn three_image_controller() -> ViewportController {
    let listing = vec![
        ListingEntry { path: b"d/a.jpg".to_vec(), is_file: true },
        ListingEntry { path: b"d/b.png".to_vec(), is_file: true },
        ListingEntry { path: b"d/c.jpeg".to_vec(), is_file: true },
    ];
    let catalog = Catalog::from_listing(&listing);
    let start = catalog.resolve_start_index(&b"d/b.png".to_vec());
    assert_eq!(start, 1);
    ViewportController::new(catalog, start, dims(800, 600), dims(400, 300))
}

#[test]
fn fit_scales_an_oversized_image_down_to_the_viewport() {
    assert_eq!(fit_to_viewport(dims(1600, 1200), dims(800, 600)), dims(800, 600));
    assert_eq!(fit_to_viewport(dims(400, 300), dims(800, 600)), dims(400, 300));
}

#[test]
fn fit_pins_the_relatively_larger_side() {
    assert_eq!(fit_to_viewport(dims(1600, 600), dims(800, 600)), dims(800, 300));
    assert_eq!(fit_to_viewport(dims(600, 1200), dims(800, 600)), dims(300, 600));
}

#[test]
fn fit_clamps_a_degenerate_side_to_the_floor() {
    assert_eq!(fit_to_viewport(dims(1000000, 1), dims(500, 500)), dims(500, 1));
}

#[test]
fn fit_is_idempotent_on_its_own_output() {
    let once = fit_to_viewport(dims(1601, 1200), dims(800, 600));
    let twice = fit_to_viewport(once, dims(800, 600));
    assert_eq!(twice, once);
    let natural = fit_to_viewport(dims(123, 45), dims(800, 600));
    assert_eq!(fit_to_viewport(natural, dims(800, 600)), natural);
}

#[test]
fn zoom_in_shrinks_both_sides_by_the_step() {
    assert_eq!(zoom_in_target(dims(800, 600)), dims(750, 550));
}

#[test]
fn zoom_out_grows_both_sides_by_the_step() {
    assert_eq!(zoom_out_target(dims(750, 550)), dims(800, 600));
}

#[test]
fn zoom_in_clamps_small_sides_to_the_floor() {
    assert_eq!(zoom_in_target(dims(30, 40)), dims(1, 1));
    assert_eq!(zoom_in_target(dims(51, 60)), dims(1, 10));
}

#[test]
fn zoom_out_saturates_at_the_machine_limit() {
    assert_eq!(zoom_out_target(dims(u32::MAX - 10, 100)), dims(u32::MAX, 150));
}

#[test]
fn stepping_through_a_three_image_catalog() {
    let mut c = three_image_controller();

    let plan = c.plan(InputEvent::StepRight);
    assert_eq!(plan, Plan::Navigate { index: 2 });
    assert_eq!(c.catalog.entry(2), &b"d/c.jpeg".to_vec());
    c.commit_navigation(2, dims(640, 480));
    assert_eq!(c.current_index, 2);

    assert_eq!(c.plan(InputEvent::StepRight), Plan::NoChange);
    assert_eq!(c.current_index, 2);

    let plan = c.plan(InputEvent::StepLeft);
    assert_eq!(plan, Plan::Navigate { index: 1 });
    c.commit_navigation(1, dims(640, 480));
    let plan = c.plan(InputEvent::StepLeft);
    assert_eq!(plan, Plan::Navigate { index: 0 });
    c.commit_navigation(0, dims(640, 480));
    assert_eq!(c.current_index, 0);
    assert_eq!(c.catalog.entry(0), &b"d/a.jpg".to_vec());
}

#[test]
fn navigation_saturates_at_both_ends() {
    let mut c = three_image_controller();
    c.commit_navigation(0, dims(640, 480));
    assert_eq!(c.plan(InputEvent::StepLeft), Plan::NoChange);
    assert_eq!(c.current_index, 0);
    c.commit_navigation(2, dims(640, 480));
    assert_eq!(c.plan(InputEvent::StepRight), Plan::NoChange);
    assert_eq!(c.current_index, 2);
}

#[test]
fn navigation_on_an_empty_catalog_is_a_no_op() {
    let catalog = Catalog::from_listing(&Vec::new());
    let c = ViewportController::new(catalog, 0, dims(800, 600), dims(100, 100));
    assert_eq!(c.plan(InputEvent::StepLeft), Plan::NoChange);
    assert_eq!(c.plan(InputEvent::StepRight), Plan::NoChange);
    assert_eq!(c.plan(InputEvent::ZoomIn), Plan::NoChange);
    assert_eq!(c.plan(InputEvent::ZoomOut), Plan::NoChange);
    assert_eq!(c.plan(InputEvent::Quit), Plan::Quit);
}

#[test]
fn zoom_plans_a_reload_of_the_current_image() {
    let mut c = three_image_controller();
    c.commit_navigation(1, dims(800, 600));
    let plan = c.plan(InputEvent::ZoomIn);
    assert_eq!(plan, Plan::Rescale { index: 1, target: dims(750, 550) });
    c.commit_rescale(dims(750, 550));
    assert_eq!(c.current_dimensions, dims(750, 550));
    assert_eq!(c.current_index, 1);
    let plan = c.plan(InputEvent::ZoomOut);
    assert_eq!(plan, Plan::Rescale { index: 1, target: dims(800, 600) });
}

#[test]
fn zoom_is_reset_by_the_next_navigation() {
    let mut c = three_image_controller();
    c.commit_navigation(1, dims(800, 600));
    for _ in 0..4 {
        let plan = c.plan(InputEvent::ZoomIn);
        match plan {
            Plan::Rescale { index, target } => {
                assert_eq!(index, 1);
                c.commit_rescale(target);
            }
            _ => panic!("zoom on a non-empty catalog must plan a rescale"),
        }
    }
    assert_eq!(c.current_dimensions, dims(600, 400));

    c.commit_navigation(2, dims(1600, 1200));
    assert_eq!(c.current_dimensions, dims(800, 600));

    let mut fresh = three_image_controller();
    fresh.commit_navigation(1, dims(800, 600));
    fresh.commit_navigation(2, dims(1600, 1200));
    assert_eq!(fresh.current_dimensions, c.current_dimensions);
    assert_eq!(fresh.current_index, c.current_index);
}

#[test]
fn startup_fits_the_initial_image() {
    let listing = vec![ListingEntry { path: b"d/a.jpg".to_vec(), is_file: true }];
    let catalog = Catalog::from_listing(&listing);
    let c = ViewportController::new(catalog, 0, dims(800, 600), dims(1600, 1200));
    assert_eq!(c.current_dimensions, dims(800, 600));
    assert_eq!(c.viewport_bounds, dims(800, 600));
    assert_eq!(c.current_index, 0);
}
