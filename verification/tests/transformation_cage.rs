use graphite_editor::communication::message::Message;
use graphite_editor::communication::UuidGenerator;
use graphite_editor::consts::{BOUNDS_ROTATE_THRESHOLD, BOUNDS_SELECT_THRESHOLD};
use graphite_editor::document::{
    BoxTransform, Color, DocumentMessage, Operation, OverlaysMessage, PathStyle, Stroke,
};
use graphite_editor::frontend::MouseCursorIcon;
use graphite_editor::geometry::{halve, midpoint, Point};
use graphite_editor::input::InputPreprocessorMessageHandler;
use graphite_editor::viewport_tools::tools::shared::transformation_cage::{
    add_bounding_box, add_transform_handles, evaluate_transform_handle_positions, rotate_zone_at,
    selected_edges_at, transform_from_box, BoundingBoxOverlays, ScaleTransform, SelectedEdges,
};

fn p(x: i64, y: i64) -> Point {
    Point::new(x, y)
}

fn overlay(operation: Operation) -> Message {
    Message::Document(DocumentMessage::Overlays(OverlaysMessage::DispatchOperation(operation)))
}

fn overlays_on(bounds: [Point; 2]) -> BoundingBoxOverlays {
    let mut buffer = Vec::new();
    let mut ids = UuidGenerator::new(1);
    let mut overlays = BoundingBoxOverlays::new(&mut buffer, &mut ids);
    overlays.bounds = bounds;
    overlays
}

fn input_at(x: i64, y: i64) -> InputPreprocessorMessageHandler {
    let mut input = InputPreprocessorMessageHandler::new();
    input.mouse.position = p(x, y);
    input
}

#[test]
fn halving_rounds_down() {
    assert_eq!(halve(5), 2);
    assert_eq!(halve(4), 2);
    assert_eq!(halve(-5), -3);
    assert_eq!(halve(-4), -2);
    assert_eq!(halve(0), 0);
    assert_eq!(halve(i64::MIN), i64::MIN / 2);
    assert_eq!(halve(i64::MAX), i64::MAX / 2);
}

#[test]
fn midpoint_does_not_overflow() {
    assert_eq!(midpoint(0, 5), 2);
    assert_eq!(midpoint(-5, 0), -3);
    assert_eq!(midpoint(i64::MAX, i64::MAX), i64::MAX);
    assert_eq!(midpoint(i64::MIN, i64::MAX), -1);
}

#[test]
fn edge_select_ambiguity_on_tiny_bounds() {
    let bounds = [p(0, 0), p(4, 4)];
    let edges = selected_edges_at(&bounds, p(2, 2), 5);
    assert_eq!(edges, None);
    let overlays = overlays_on(bounds);
    assert_eq!(BOUNDS_SELECT_THRESHOLD, 5);
    assert_eq!(overlays.check_selected_edges(p(2, 2)), None);
}

#[test]
fn edge_select_reports_single_edges() {
    let overlays = overlays_on([p(0, 0), p(100, 100)]);
    assert_eq!(overlays.check_selected_edges(p(50, 2)), Some((true, false, false, false)));
    assert_eq!(overlays.check_selected_edges(p(50, 98)), Some((false, true, false, false)));
    assert_eq!(overlays.check_selected_edges(p(2, 50)), Some((false, false, true, false)));
    assert_eq!(overlays.check_selected_edges(p(98, 50)), Some((false, false, false, true)));
}

#[test]
fn edge_select_reports_corners() {
    let overlays = overlays_on([p(0, 0), p(100, 100)]);
    assert_eq!(overlays.check_selected_edges(p(2, 2)), Some((true, false, true, false)));
    assert_eq!(overlays.check_selected_edges(p(98, 99)), Some((false, true, false, true)));
    assert_eq!(overlays.check_selected_edges(p(98, 1)), Some((true, false, false, true)));
    assert_eq!(overlays.check_selected_edges(p(1, 98)), Some((false, true, true, false)));
}

#[test]
fn edge_select_finds_nothing_inside_or_far_away() {
    let overlays = overlays_on([p(0, 0), p(100, 100)]);
    assert_eq!(overlays.check_selected_edges(p(50, 50)), None);
    assert_eq!(overlays.check_selected_edges(p(-5, 50)), None);
    assert_eq!(overlays.check_selected_edges(p(-4, 50)), Some((false, false, true, false)));
    assert_eq!(overlays.check_selected_edges(p(50, 105)), None);
    assert_eq!(overlays.check_selected_edges(p(50, 104)), Some((false, true, false, false)));
    // Near the left edge but out of reach above the box.
    assert_eq!(overlays.check_selected_edges(p(2, -30)), None);
}

#[test]
fn edge_select_threshold_is_strict() {
    let bounds = [p(0, 0), p(100, 100)];
    assert_eq!(selected_edges_at(&bounds, p(50, 5), 5), None);
    assert_eq!(selected_edges_at(&bounds, p(50, 4), 5), Some((true, false, false, false)));
    assert_eq!(selected_edges_at(&bounds, p(50, 9), 10), Some((true, false, false, false)));
}

#[test]
fn edge_select_never_reports_opposite_edges() {
    let boxes = [
        [p(0, 0), p(4, 4)],
        [p(0, 0), p(100, 4)],
        [p(0, 0), p(4, 100)],
        [p(0, 0), p(9, 9)],
        [p(0, 0), p(10, 10)],
        [p(0, 0), p(100, 100)],
        [p(100, 100), p(0, 0)],
        [p(-3, 7), p(-3, 7)],
    ];
    for bounds in boxes.iter() {
        for x in -12..115 {
            for y in -12..115 {
                if let Some((top, bottom, left, right)) = selected_edges_at(bounds, p(x, y), 5) {
                    assert!(!(top && bottom));
                    assert!(!(left && right));
                    assert!(top || bottom || left || right);
                }
            }
        }
    }
}

#[test]
fn edge_select_on_a_thin_box_keeps_the_clear_axis() {
    let bounds = [p(0, 0), p(100, 4)];
    // Both horizontal edges are in reach of the pointer: neither is grabbed.
    assert_eq!(selected_edges_at(&bounds, p(50, 2), 5), None);
    assert_eq!(selected_edges_at(&bounds, p(2, 2), 5), Some((false, false, true, false)));
    // Above the box only the top edge is in reach.
    assert_eq!(selected_edges_at(&bounds, p(50, -3), 5), Some((true, false, false, false)));
}

#[test]
fn edge_select_orders_the_corners_itself() {
    let bounds = [p(100, 100), p(0, 0)];
    assert_eq!(selected_edges_at(&bounds, p(2, 2), 5), Some((true, false, true, false)));
    assert_eq!(selected_edges_at(&bounds, p(98, 50), 5), Some((false, false, false, true)));
}

#[test]
fn edge_select_takes_extreme_coordinates() {
    let bounds = [p(i64::MIN, i64::MIN), p(i64::MAX, i64::MAX)];
    assert_eq!(selected_edges_at(&bounds, p(0, 0), 5), None);
    assert_eq!(
        selected_edges_at(&bounds, p(i64::MIN, 0), 5),
        Some((false, false, true, false))
    );
    assert!(!rotate_zone_at(&bounds, p(0, 0), 20));
}

#[test]
fn rotate_zone_is_a_band_around_the_box() {
    let overlays = overlays_on([p(0, 0), p(100, 100)]);
    assert_eq!(BOUNDS_ROTATE_THRESHOLD, 20);
    assert!(overlays.check_rotate(p(-10, 50)));
    assert!(overlays.check_rotate(p(-19, 50)));
    assert!(!overlays.check_rotate(p(-20, 50)));
    assert!(overlays.check_rotate(p(110, 110)));
    assert!(overlays.check_rotate(p(50, -5)));
    assert!(!overlays.check_rotate(p(50, 50)));
    assert!(!overlays.check_rotate(p(0, 0)));
    assert!(!overlays.check_rotate(p(100, 100)));
    assert!(!overlays.check_rotate(p(50, 120)));
}

#[test]
fn rotate_zone_does_not_overlap_the_resize_frame() {
    let overlays = overlays_on([p(0, 0), p(100, 100)]);
    // Just outside the box the pointer grabs the edge and does not rotate.
    assert_eq!(overlays.check_selected_edges(p(-2, 50)), Some((false, false, true, false)));
    assert!(!overlays.check_rotate(p(-2, 50)));
    assert!(!overlays.check_rotate(p(50, -1)));
    assert!(!overlays.check_rotate(p(-4, -4)));
    // One step farther out no edge is in reach, and the pointer rotates.
    assert_eq!(overlays.check_selected_edges(p(-5, 50)), None);
    assert!(overlays.check_rotate(p(-5, 50)));
    for x in -25..126 {
        for y in -25..126 {
            if overlays.check_rotate(p(x, y)) {
                assert_eq!(overlays.check_selected_edges(p(x, y)), None);
            }
        }
    }
    // Where both edges of each axis are in reach none is grabbed, and the
    // pointer rotates as soon as it is outside the box.
    let tiny = overlays_on([p(0, 0), p(2, 2)]);
    assert_eq!(tiny.check_selected_edges(p(-1, 1)), None);
    assert!(tiny.check_rotate(p(-1, 1)));
    assert!(!tiny.check_rotate(p(1, 1)));
}

#[test]
fn cursor_follows_the_edges() {
    let overlays = overlays_on([p(0, 0), p(100, 100)]);
    assert_eq!(overlays.get_cursor(&input_at(50, 2)), MouseCursorIcon::NSResize);
    assert_eq!(overlays.get_cursor(&input_at(50, 98)), MouseCursorIcon::NSResize);
    assert_eq!(overlays.get_cursor(&input_at(2, 50)), MouseCursorIcon::EWResize);
    assert_eq!(overlays.get_cursor(&input_at(98, 50)), MouseCursorIcon::EWResize);
    assert_eq!(overlays.get_cursor(&input_at(2, 2)), MouseCursorIcon::NWSEResize);
    assert_eq!(overlays.get_cursor(&input_at(98, 98)), MouseCursorIcon::NWSEResize);
    assert_eq!(overlays.get_cursor(&input_at(98, 2)), MouseCursorIcon::NESWResize);
    assert_eq!(overlays.get_cursor(&input_at(2, 98)), MouseCursorIcon::NESWResize);
    assert_eq!(overlays.get_cursor(&input_at(-10, 50)), MouseCursorIcon::Grabbing);
    assert_eq!(overlays.get_cursor(&input_at(50, 50)), MouseCursorIcon::Default);
    assert_eq!(overlays.get_cursor(&input_at(500, 500)), MouseCursorIcon::Default);
}

#[test]
fn pivot_is_opposite_the_dragged_edges() {
    let bounds = [p(0, 0), p(100, 50)];
    assert_eq!(SelectedEdges::new(true, false, true, false, bounds).calculate_pivot(), p(100, 50));
    assert_eq!(SelectedEdges::new(false, true, false, true, bounds).calculate_pivot(), p(0, 0));
    assert_eq!(SelectedEdges::new(false, false, false, true, bounds).calculate_pivot(), p(0, 25));
    assert_eq!(SelectedEdges::new(true, false, false, false, bounds).calculate_pivot(), p(50, 50));
    assert_eq!(SelectedEdges::new(false, false, false, false, bounds).calculate_pivot(), p(50, 25));
    let odd = [p(0, 0), p(5, -5)];
    assert_eq!(SelectedEdges::new(false, false, false, false, odd).calculate_pivot(), p(2, -3));
}

#[test]
fn new_size_moves_the_dragged_edge() {
    let bounds = [p(0, 0), p(100, 50)];
    let right = SelectedEdges::new(false, false, false, true, bounds);
    assert_eq!(right.new_size(p(150, 70), false, false), [p(0, 0), p(150, 50)]);
    let bottom = SelectedEdges::new(false, true, false, false, bounds);
    assert_eq!(bottom.new_size(p(150, 70), false, false), [p(0, 0), p(100, 70)]);
    let left = SelectedEdges::new(false, false, true, false, bounds);
    assert_eq!(left.new_size(p(120, 70), false, false), [p(120, 0), p(-20, 50)]);
    let top_left = SelectedEdges::new(true, false, true, false, bounds);
    assert_eq!(top_left.new_size(p(10, 20), false, false), [p(10, 20), p(90, 30)]);
    let none = SelectedEdges::new(false, false, false, false, bounds);
    assert_eq!(none.new_size(p(10, 20), true, false), [p(0, 0), p(100, 50)]);
}

#[test]
fn new_size_constrains_every_drag_to_a_square() {
    let bounds = [p(0, 0), p(100, 50)];
    let corner = SelectedEdges::new(false, true, false, true, bounds);
    assert_eq!(corner.new_size(p(150, 70), false, true), [p(0, 0), p(150, 150)]);
    assert_eq!(corner.new_size(p(30, 70), false, true), [p(0, 0), p(70, 70)]);
    assert_eq!(corner.new_size(p(-30, 20), false, true), [p(0, 0), p(-30, 30)]);
    // An edge that has not moved counts as positive.
    assert_eq!(corner.new_size(p(0, 20), false, true), [p(0, 0), p(20, 20)]);
    let top_left = SelectedEdges::new(true, false, true, false, bounds);
    assert_eq!(top_left.new_size(p(120, 10), false, true), [p(120, 10), p(-40, 40)]);
    // An edge drag is constrained too.
    let right = SelectedEdges::new(false, false, false, true, bounds);
    assert_eq!(right.new_size(p(150, 70), false, true), [p(0, 0), p(150, 150)]);
    assert_eq!(right.new_size(p(30, 70), false, true), [p(0, 0), p(50, 50)]);
    let small = SelectedEdges::new(false, false, false, true, [p(0, 0), p(10, 10)]);
    assert_eq!(small.new_size(p(30, 5), false, true), [p(0, 0), p(30, 30)]);
    let top = SelectedEdges::new(true, false, false, false, bounds);
    assert_eq!(top.new_size(p(7, 80), false, true), [p(0, 80), p(100, -100)]);
    let none = SelectedEdges::new(false, false, false, false, bounds);
    assert_eq!(none.new_size(p(10, 20), false, true), [p(0, 0), p(100, 100)]);
    // From the centre only the dragged axis is doubled.
    assert_eq!(right.new_size(p(150, 70), true, true), [p(0, 0), p(300, 150)]);
}

#[test]
fn new_size_doubles_when_resizing_from_the_centre() {
    let bounds = [p(0, 0), p(100, 50)];
    let right = SelectedEdges::new(false, false, false, true, bounds);
    let resized = right.new_size(p(150, 70), true, false);
    assert_eq!(resized, [p(0, 0), p(300, 50)]);
    assert_eq!(right.centre_position(resized[0], resized[1], true), p(-150, 0));
    let corner = SelectedEdges::new(false, true, false, true, bounds);
    let resized = corner.new_size(p(150, 70), true, true);
    assert_eq!(resized, [p(0, 0), p(300, 300)]);
    assert_eq!(corner.centre_position(resized[0], resized[1], true), p(-150, -150));
    let left = SelectedEdges::new(false, false, true, false, bounds);
    let resized = left.new_size(p(20, 0), true, false);
    assert_eq!(resized, [p(20, 0), p(160, 50)]);
    assert_eq!(left.centre_position(resized[0], resized[1], true), p(20, 0));
}

#[test]
fn centre_position_only_moves_when_asked() {
    let bounds = [p(0, 0), p(100, 50)];
    let corner = SelectedEdges::new(false, true, false, true, bounds);
    assert_eq!(corner.centre_position(p(7, 9), p(30, 11), false), p(7, 9));
    assert_eq!(corner.centre_position(p(7, 9), p(30, 11), true), p(-8, 4));
    assert_eq!(corner.centre_position(p(7, 9), p(-30, -11), true), p(22, 15));
    let top = SelectedEdges::new(true, false, false, false, bounds);
    assert_eq!(top.centre_position(p(7, 9), p(30, 11), true), p(7, 9));
}

#[test]
fn offset_pivot_is_half_the_size_towards_the_far_side() {
    let bounds = [p(0, 0), p(100, 50)];
    let right = SelectedEdges::new(false, false, false, true, bounds);
    assert_eq!(right.offset_pivot(true, p(300, 50)), p(-150, 0));
    assert_eq!(right.offset_pivot(false, p(300, 50)), p(0, 0));
    assert_eq!(right.offset_pivot(true, p(5, 5)), p(-2, 0));
    let top_left = SelectedEdges::new(true, false, true, false, bounds);
    assert_eq!(top_left.offset_pivot(true, p(300, 50)), p(150, 25));
    let bottom = SelectedEdges::new(false, true, false, false, bounds);
    assert_eq!(bottom.offset_pivot(true, p(300, 50)), p(0, -25));
}

#[test]
fn scale_transform_keeps_exact_fractions() {
    let bounds = [p(10, 20), p(110, 70)];
    let right = SelectedEdges::new(false, false, false, true, bounds);
    assert_eq!(
        right.bounds_to_scale_transform(true, p(300, 50)),
        ScaleTransform { offset: p(-150, 0), numerator: p(300, 50), denominator: p(100, 50) }
    );
    assert_eq!(
        right.bounds_to_scale_transform(false, p(150, 50)),
        ScaleTransform { offset: p(0, 0), numerator: p(150, 50), denominator: p(100, 50) }
    );
}

#[test]
fn transform_from_box_round_trip() {
    let transform = transform_from_box(p(10, 20), p(110, 70));
    assert_eq!(transform, BoxTransform { scale: p(100, 50), translation: p(10, 20) });
    assert_eq!(transform.translation.x + transform.scale.x, 110);
    assert_eq!(transform.translation.y + transform.scale.y, 70);
    let flipped = transform_from_box(p(110, 70), p(10, 20));
    assert_eq!(flipped, BoxTransform { scale: p(-100, -50), translation: p(110, 70) });
    let empty = transform_from_box(p(3, 4), p(3, 4));
    assert_eq!(empty, BoxTransform { scale: p(0, 0), translation: p(3, 4) });
}

#[test]
fn handles_sit_on_corners_and_edge_middles() {
    assert_eq!(
        evaluate_transform_handle_positions(p(0, 0), p(100, 50)),
        [
            p(0, 0),
            p(0, 25),
            p(0, 50),
            p(50, 0),
            p(50, 50),
            p(100, 0),
            p(100, 25),
            p(100, 50),
        ]
    );
    // A middle between two units goes to the higher one.
    assert_eq!(
        evaluate_transform_handle_positions(p(0, 0), p(5, 5)),
        [p(0, 0), p(0, 3), p(0, 5), p(3, 0), p(3, 5), p(5, 0), p(5, 3), p(5, 5)]
    );
    assert_eq!(evaluate_transform_handle_positions(p(-5, -5), p(0, 0))[1], p(-5, -2));
    assert_eq!(evaluate_transform_handle_positions(p(-3, 0), p(-3, 0))[3], p(-3, 0));
}

#[test]
fn bounding_box_is_added_under_a_fresh_identifier() {
    let mut responses = Vec::new();
    let mut ids = UuidGenerator::new(41);
    let path = add_bounding_box(&mut responses, &mut ids);
    assert_eq!(path, vec![41]);
    assert_eq!(ids.next, 42);
    assert_eq!(
        responses,
        vec![overlay(Operation::AddOverlayRect {
            path: vec![41],
            style: PathStyle {
                stroke: Some(Stroke { color: Color::accent(), weight: 1 }),
                fill: None,
            },
        })]
    );
}

#[test]
fn transform_handles_are_added_in_order() {
    let mut responses = vec![Message::NoOp];
    let mut ids = UuidGenerator::new(u64::MAX - 2);
    let paths = add_transform_handles(&mut responses, &mut ids);
    let expected: Vec<u64> = vec![u64::MAX - 2, u64::MAX - 1, u64::MAX, 0, 1, 2, 3, 4];
    assert_eq!(paths.len(), 8);
    assert_eq!(responses.len(), 9);
    assert_eq!(responses[0], Message::NoOp);
    for i in 0..8 {
        assert_eq!(paths[i], vec![expected[i]]);
        assert_eq!(
            responses[i + 1],
            overlay(Operation::AddOverlayRect {
                path: vec![expected[i]],
                style: PathStyle {
                    stroke: Some(Stroke { color: Color::accent(), weight: 2 }),
                    fill: Some(Color::white()),
                },
            })
        );
    }
    assert_eq!(ids.next, 5);
}

#[test]
fn new_overlays_take_nine_identifiers() {
    let mut buffer = Vec::new();
    let mut ids = UuidGenerator::new(100);
    let overlays = BoundingBoxOverlays::new(&mut buffer, &mut ids);
    assert_eq!(overlays.bounding_box, vec![100]);
    assert_eq!(overlays.transform_handles.len(), 8);
    for i in 0..8 {
        assert_eq!(overlays.transform_handles[i], vec![101 + i as u64]);
    }
    assert_eq!(overlays.bounds, [p(0, 0), p(0, 0)]);
    assert!(overlays.selected_edges.is_none());
    assert_eq!(overlays.pivot, p(0, 0));
    assert_eq!(ids.next, 109);
    assert_eq!(buffer.len(), 9);
}

#[test]
fn transform_places_the_box_and_its_handles() {
    let overlays_bounds = [p(0, 0), p(100, 50)];
    let mut overlays = overlays_on(overlays_bounds);
    let mut buffer = Vec::new();
    overlays.transform(&mut buffer);
    assert_eq!(buffer.len(), 9);
    assert_eq!(
        buffer[0],
        overlay(Operation::SetLayerTransformInViewport {
            path: vec![1],
            transform: BoxTransform { scale: p(100, 50), translation: p(0, 0) },
        })
    );
    let positions = evaluate_transform_handle_positions(p(0, 0), p(100, 50));
    for i in 0..8 {
        assert_eq!(
            buffer[i + 1],
            overlay(Operation::SetLayerTransformInViewport {
                path: vec![2 + i as u64],
                transform: BoxTransform {
                    scale: p(5, 5),
                    translation: p(positions[i].x - 3, positions[i].y - 3),
                },
            })
        );
    }
    assert_eq!(overlays.bounds, overlays_bounds);
}

#[test]
fn transform_places_middle_handles_of_odd_boxes_on_the_higher_side() {
    let mut overlays = overlays_on([p(0, 0), p(5, 5)]);
    let mut buffer = Vec::new();
    overlays.transform(&mut buffer);
    let expected = [
        p(-3, -3),
        p(-3, 0),
        p(-3, 2),
        p(0, -3),
        p(0, 2),
        p(2, -3),
        p(2, 0),
        p(2, 2),
    ];
    for i in 0..8 {
        assert_eq!(
            buffer[i + 1],
            overlay(Operation::SetLayerTransformInViewport {
                path: vec![2 + i as u64],
                transform: BoxTransform { scale: p(5, 5), translation: expected[i] },
            })
        );
    }
}

#[test]
fn delete_removes_the_box_then_the_handles() {
    let overlays = overlays_on([p(0, 0), p(100, 50)]);
    let mut buffer = vec![Message::NoOp];
    overlays.delete(&mut buffer);
    assert_eq!(buffer.len(), 10);
    assert_eq!(buffer[0], Message::NoOp);
    for i in 0..9 {
        assert_eq!(buffer[i + 1], overlay(Operation::DeleteLayer { path: vec![1 + i as u64] }));
    }
}
