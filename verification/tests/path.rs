use std::collections::VecDeque;

use graphite_editor::communication::message::Message;
use graphite_editor::communication::UuidGenerator;
use graphite_editor::consts::SELECTION_THRESHOLD;
use graphite_editor::document::{
    Color, DocumentMessage, DocumentMessageHandler, DocumentToolData, Operation, OverlaysMessage,
    VectorShape,
};
use graphite_editor::frontend::{FrontendMessage, MouseCursorIcon};
use graphite_editor::geometry::Point;
use graphite_editor::input::{InputPreprocessorMessageHandler, Key, MouseMotion};
use graphite_editor::misc::{HintData, HintGroup, HintInfo, KeysGroup};
use graphite_editor::viewport_tools::shape_manipulation::{
    is_near, is_within_distance, ManipulationHandler,
};
use graphite_editor::viewport_tools::tool_message::ToolMessage;
use graphite_editor::viewport_tools::tools::line::LineMessage;
use graphite_editor::viewport_tools::tools::path::{
    Path, PathMessage, PathMessageDiscriminant, PathToolFsmState,
};

fn v(x: i64, y: i64) -> Point {
    Point::new(x, y)
}

fn shape(layer: u64, anchors: Vec<Point>, overlay: Option<u64>) -> VectorShape {
    VectorShape {
        layer_path: vec![layer],
        anchors,
        overlay_path: overlay.map(|id| vec![id]),
    }
}

fn path_document() -> DocumentMessageHandler {
    DocumentMessageHandler {
        snapping_enabled: true,
        artboards: Vec::new(),
        visible_layer_bounds: vec![[v(0, 0), v(100, 50)]],
        artboards_under_cursor: Vec::new(),
        layers_under_cursor: Vec::new(),
        new_layer_path: vec![1],
        selected_shapes: vec![
            shape(5, vec![v(300, 300), v(400, 300)], Some(50)),
            shape(6, vec![v(305, 300), v(500, 500)], None),
        ],
    }
}

fn path_pointer(x: i64, y: i64) -> InputPreprocessorMessageHandler {
    let mut input = InputPreprocessorMessageHandler::new();
    input.mouse.position = v(x, y);
    input.viewport_size = v(800, 600);
    input
}

fn path(message: PathMessage) -> ToolMessage {
    ToolMessage::Path(message)
}

fn drag_start() -> ToolMessage {
    path(PathMessage::DragStart { add_to_selection: Key::KeyShift })
}

fn pointer_move() -> ToolMessage {
    path(PathMessage::PointerMove { alt_mirror_toggle: Key::KeyAlt })
}

fn default_cursor() -> Message {
    Message::Frontend(FrontendMessage::UpdateMouseCursor { cursor: MouseCursorIcon::Default })
}

fn delete_overlay(id: u64) -> Message {
    Message::Document(DocumentMessage::Overlays(OverlaysMessage::DispatchOperation(
        Operation::DeleteLayer { path: vec![id] },
    )))
}

fn plain_hint(keys: Vec<Key>, mouse: Option<MouseMotion>, label: &str, plus: bool) -> HintInfo {
    HintInfo {
        key_groups: keys.into_iter().map(|key| KeysGroup(vec![key])).collect(),
        mouse,
        label: String::from(label),
        plus,
    }
}

fn path_ready_hints() -> Message {
    Message::Frontend(FrontendMessage::UpdateInputHints {
        hint_data: HintData(vec![
            HintGroup(vec![
                plain_hint(vec![], Some(MouseMotion::Lmb), "Select Point", false),
                plain_hint(vec![Key::KeyShift], None, "Add/Remove Point (coming soon)", true),
            ]),
            HintGroup(vec![plain_hint(vec![], Some(MouseMotion::LmbDrag), "Drag Selected", false)]),
            HintGroup(vec![
                plain_hint(
                    vec![Key::KeyArrowUp, Key::KeyArrowRight, Key::KeyArrowDown, Key::KeyArrowLeft],
                    None,
                    "Nudge Selected (coming soon)",
                    false,
                ),
                plain_hint(vec![Key::KeyShift], None, "Big Increment Nudge", true),
            ]),
            HintGroup(vec![
                plain_hint(vec![Key::KeyG], None, "Grab Selected (coming soon)", false),
                plain_hint(vec![Key::KeyR], None, "Rotate Selected (coming soon)", false),
                plain_hint(vec![Key::KeyS], None, "Scale Selected (coming soon)", false),
            ]),
        ]),
    })
}

fn path_dragging_hints() -> Message {
    Message::Frontend(FrontendMessage::UpdateInputHints {
        hint_data: HintData(vec![HintGroup(vec![plain_hint(
            vec![Key::KeyAlt],
            None,
            "Handle Mirroring Toggle",
            false,
        )])]),
    })
}

fn say(
    tool: &mut Path,
    message: ToolMessage,
    document: &DocumentMessageHandler,
    input: &InputPreprocessorMessageHandler,
    ids: &mut UuidGenerator,
) -> Vec<Message> {
    let colors = DocumentToolData { primary_color: Color::black(), secondary_color: Color::white() };
    let mut responses = VecDeque::new();
    tool.process_action(message, document, &colors, input, &mut responses, ids);
    responses.into_iter().collect()
}

fn tool_with_selection(ids: &mut UuidGenerator) -> Path {
    let mut tool = Path::new();
    say(&mut tool, path(PathMessage::SelectionChanged), &path_document(), &path_pointer(0, 0), ids);
    tool
}

#[test]
fn nearness_is_measured_in_a_straight_line() {
    assert_eq!(SELECTION_THRESHOLD, 10);
    assert!(is_near(v(0, 0), v(6, 7), 10));
    assert!(!is_near(v(0, 0), v(6, 8), 10));
    assert!(!is_near(v(0, 0), v(0, 0), 0));
    assert!(is_near(v(0, 0), v(0, 9), -10));
    assert!(!is_near(v(i64::MIN, i64::MIN), v(i64::MAX, i64::MAX), i64::MAX));
    assert!(is_within_distance(v(0, 0), v(6, 8), 10));
    assert!(!is_within_distance(v(0, 0), v(6, 9), 10));
    assert!(is_within_distance(v(3, 3), v(3, 3), 0));
    assert!(is_within_distance(v(0, 0), v(1, 0), 1));
    assert!(!is_within_distance(v(0, 0), v(1, 1), 1));
    assert!(!is_within_distance(v(i64::MIN, 0), v(i64::MAX, 0), i64::MAX));
}

#[test]
fn select_manipulator_grabs_the_first_near_point() {
    let mut handler = ManipulationHandler::new();
    handler.set_selected_shapes(path_document().selected_shapes);
    assert!(!handler.select_manipulator(v(0, 0), 10));
    assert!(!handler.has_selection);
    // Both the first anchor of the first shape and the first of the second are near.
    assert!(handler.select_manipulator(v(303, 300), 10));
    assert!(handler.has_selection);
    assert_eq!((handler.selected_shape, handler.selected_point), (0, 0));
    assert!(handler.select_manipulator(v(499, 503), 10));
    assert_eq!((handler.selected_shape, handler.selected_point), (1, 1));
    assert_eq!(
        handler.move_selected_to(v(1, 2), true),
        Some(Operation::MoveManipulatorPoint {
            path: vec![6],
            point: 1,
            position: v(1, 2),
            mirror: true,
        })
    );
    assert_eq!(
        handler.anchor_positions(),
        vec![v(300, 300), v(400, 300), v(305, 300), v(500, 500)]
    );
}

#[test]
fn update_shapes_reads_anchors_again_and_lets_go_of_a_lost_point() {
    let mut handler = ManipulationHandler::new();
    handler.set_selected_shapes(path_document().selected_shapes);
    assert!(handler.select_manipulator(v(400, 300), 10));
    assert_eq!((handler.selected_shape, handler.selected_point), (0, 1));
    let fresh = vec![shape(6, vec![v(1, 1), v(2, 2), v(3, 3)], Some(99)), shape(5, vec![v(9, 9)], None)];
    handler.update_shapes(&fresh);
    assert_eq!(
        handler.selected_shapes,
        vec![shape(5, vec![v(9, 9)], Some(50)), shape(6, vec![v(1, 1), v(2, 2), v(3, 3)], None)]
    );
    assert!(!handler.has_selection);
    assert_eq!(handler.move_selected_to(v(1, 2), true), None);
}

#[test]
fn path_selection_changed_swaps_the_shapes() {
    let mut ids = UuidGenerator::new(1);
    let mut tool = tool_with_selection(&mut ids);
    assert_eq!(tool.data.manipulation_handler.selected_shapes, path_document().selected_shapes);
    let mut document = path_document();
    document.selected_shapes = vec![shape(8, vec![v(1, 1)], Some(80))];
    let emitted = say(&mut tool, path(PathMessage::SelectionChanged), &document, &path_pointer(0, 0), &mut ids);
    assert_eq!(emitted, vec![delete_overlay(50)]);
    assert_eq!(tool.data.manipulation_handler.selected_shapes, document.selected_shapes);
    assert_eq!(tool.fsm_state, PathToolFsmState::Ready);
}

#[test]
fn path_drag_moves_the_grabbed_point() {
    let mut ids = UuidGenerator::new(1);
    let mut tool = tool_with_selection(&mut ids);
    let document = path_document();

    let emitted = say(&mut tool, drag_start(), &document, &path_pointer(402, 298), &mut ids);
    assert_eq!(
        emitted,
        vec![
            Message::Document(DocumentMessage::StartTransaction),
            path_dragging_hints(),
            default_cursor(),
        ]
    );
    assert_eq!(tool.fsm_state, PathToolFsmState::Dragging);
    let targets = tool.data.snap_handler.snap_targets.clone().expect("snapping has started");
    assert_eq!(targets.x, vec![0, 50, 100, 300, 400, 305, 500]);
    assert_eq!(targets.y, vec![0, 25, 50, 300, 300, 300, 500]);

    let emitted = say(&mut tool, pointer_move(), &document, &path_pointer(450, 200), &mut ids);
    assert_eq!(
        emitted,
        vec![Message::Document(DocumentMessage::DispatchOperation(
            Operation::MoveManipulatorPoint {
                path: vec![5],
                point: 1,
                position: v(450, 200),
                mirror: true,
            }
        ))]
    );

    let mut input = path_pointer(51, 200);
    input.keyboard.set(Key::KeyAlt);
    let emitted = say(&mut tool, pointer_move(), &document, &input, &mut ids);
    assert_eq!(emitted.len(), 2);
    assert_eq!(
        emitted[1],
        Message::Document(DocumentMessage::DispatchOperation(Operation::MoveManipulatorPoint {
            path: vec![5],
            point: 1,
            position: v(50, 200),
            mirror: false,
        }))
    );

    let emitted = say(&mut tool, path(PathMessage::DragStop), &document, &input, &mut ids);
    assert_eq!(emitted, vec![delete_overlay(1), path_ready_hints(), default_cursor()]);
    assert_eq!(tool.fsm_state, PathToolFsmState::Ready);
    assert!(tool.data.snap_handler.snap_targets.is_none());
}

#[test]
fn path_press_beside_the_points_selects_layers() {
    let mut ids = UuidGenerator::new(1);
    let mut tool = tool_with_selection(&mut ids);
    let mut document = path_document();
    document.layers_under_cursor = vec![vec![3], vec![4, 1]];

    let emitted = say(&mut tool, drag_start(), &document, &path_pointer(0, 0), &mut ids);
    assert_eq!(
        emitted,
        vec![
            delete_overlay(50),
            Message::Document(DocumentMessage::SetSelectedLayers {
                replacement_selected_layers: vec![vec![3], vec![4, 1]],
            }),
        ]
    );
    assert_eq!(tool.fsm_state, PathToolFsmState::Ready);

    let mut input = path_pointer(0, 0);
    input.keyboard.set(Key::KeyShift);
    let emitted = say(&mut tool, drag_start(), &document, &input, &mut ids);
    assert_eq!(
        emitted,
        vec![Message::Document(DocumentMessage::AddSelectedLayers {
            additional_layers: vec![vec![3], vec![4, 1]],
        })]
    );
}

#[test]
fn path_press_on_empty_canvas_clears_the_selection() {
    let mut ids = UuidGenerator::new(1);
    let mut tool = tool_with_selection(&mut ids);
    let document = path_document();
    let emitted = say(&mut tool, drag_start(), &document, &path_pointer(0, 0), &mut ids);
    assert_eq!(emitted, vec![Message::Document(DocumentMessage::DeselectAllLayers)]);
    let mut input = path_pointer(0, 0);
    input.keyboard.set(Key::KeyShift);
    let emitted = say(&mut tool, drag_start(), &document, &input, &mut ids);
    assert!(emitted.is_empty());
    assert_eq!(tool.fsm_state, PathToolFsmState::Ready);
}

#[test]
fn path_document_is_dirty_refreshes_without_messages() {
    let mut ids = UuidGenerator::new(1);
    let mut tool = tool_with_selection(&mut ids);
    let mut document = path_document();
    document.selected_shapes = vec![shape(6, vec![v(7, 7)], None)];
    let emitted = say(&mut tool, path(PathMessage::DocumentIsDirty), &document, &path_pointer(0, 0), &mut ids);
    assert!(emitted.is_empty());
    assert_eq!(
        tool.data.manipulation_handler.selected_shapes,
        vec![shape(5, vec![v(300, 300), v(400, 300)], Some(50)), shape(6, vec![v(7, 7)], None)]
    );
}

#[test]
fn path_abort_removes_overlays_and_returns_to_ready() {
    let mut ids = UuidGenerator::new(1);
    let mut tool = tool_with_selection(&mut ids);
    let document = path_document();
    say(&mut tool, drag_start(), &document, &path_pointer(300, 300), &mut ids);
    assert_eq!(tool.fsm_state, PathToolFsmState::Dragging);
    let emitted = say(&mut tool, path(PathMessage::Abort), &document, &path_pointer(0, 0), &mut ids);
    assert_eq!(emitted, vec![delete_overlay(50), path_ready_hints(), default_cursor()]);
    assert_eq!(tool.fsm_state, PathToolFsmState::Ready);
    assert!(tool
        .data
        .manipulation_handler
        .selected_shapes
        .iter()
        .all(|shape| shape.overlay_path.is_none()));
    let emitted = say(&mut tool, path(PathMessage::Abort), &document, &path_pointer(0, 0), &mut ids);
    assert!(emitted.is_empty());
}

#[test]
fn path_abort_during_a_drag_removes_the_snap_guides_too() {
    let mut ids = UuidGenerator::new(1);
    let mut tool = tool_with_selection(&mut ids);
    let document = path_document();
    say(&mut tool, drag_start(), &document, &path_pointer(300, 300), &mut ids);
    let emitted = say(&mut tool, pointer_move(), &document, &path_pointer(51, 200), &mut ids);
    assert_eq!(emitted.len(), 2);
    let emitted = say(&mut tool, path(PathMessage::Abort), &document, &path_pointer(0, 0), &mut ids);
    assert_eq!(
        emitted,
        vec![delete_overlay(50), delete_overlay(1), path_ready_hints(), default_cursor()]
    );
    assert!(tool.data.snap_handler.snap_targets.is_none());
    assert!(tool.data.snap_handler.overlay_paths.is_empty());
    assert_eq!(Path::default().fsm_state, PathToolFsmState::Ready);
}

#[test]
fn path_ignores_what_it_does_not_match() {
    let mut ids = UuidGenerator::new(1);
    let mut tool = tool_with_selection(&mut ids);
    let document = path_document();
    for message in [
        pointer_move(),
        ToolMessage::Line(LineMessage::DragStart),
        ToolMessage::DocumentIsDirty,
    ] {
        let emitted = say(&mut tool, message, &document, &path_pointer(300, 300), &mut ids);
        assert!(emitted.is_empty());
        assert_eq!(tool.fsm_state, PathToolFsmState::Ready);
        assert_eq!(tool.data.manipulation_handler.selected_shapes, document.selected_shapes);
        assert!(!tool.data.manipulation_handler.has_selection);
    }
    assert_eq!(ids.next, 1);
}

#[test]
fn path_hints_cursor_and_actions_follow_the_state() {
    let mut ids = UuidGenerator::new(1);
    let mut tool = tool_with_selection(&mut ids);
    let document = path_document();
    assert_eq!(
        say(&mut tool, ToolMessage::UpdateHints, &document, &path_pointer(0, 0), &mut ids),
        vec![path_ready_hints()]
    );
    assert_eq!(
        say(&mut tool, ToolMessage::UpdateCursor, &document, &path_pointer(0, 0), &mut ids),
        vec![default_cursor()]
    );
    assert_eq!(tool.actions(), vec![PathMessageDiscriminant::DragStart]);
    say(&mut tool, drag_start(), &document, &path_pointer(300, 300), &mut ids);
    assert_eq!(
        say(&mut tool, ToolMessage::UpdateHints, &document, &path_pointer(0, 0), &mut ids),
        vec![path_dragging_hints()]
    );
    assert_eq!(
        tool.actions(),
        vec![PathMessageDiscriminant::DragStop, PathMessageDiscriminant::PointerMove]
    );
    assert_eq!(PathToolFsmState::default(), PathToolFsmState::Ready);
}
