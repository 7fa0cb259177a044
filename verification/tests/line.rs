use std::collections::VecDeque;

use graphite_editor::communication::message::Message;
use graphite_editor::communication::UuidGenerator;
use graphite_editor::document::{
    Color, DocumentMessage, DocumentMessageHandler, DocumentToolData, Operation, OverlaysMessage,
    PathStyle, Stroke,
};
use graphite_editor::frontend::{FrontendMessage, MouseCursorIcon};
use graphite_editor::geometry::Point;
use graphite_editor::input::{InputPreprocessorMessageHandler, Key, MouseMotion};
use graphite_editor::misc::{HintData, HintGroup, HintInfo, KeysGroup};
use graphite_editor::viewport_tools::tool_message::ToolMessage;
use graphite_editor::viewport_tools::tools::crop::CropMessage;
use graphite_editor::viewport_tools::tools::line::{
    line_redraw_message, Line, LineAngle, LineMessage, LineMessageDiscriminant, LineOptions,
    LineOptionsUpdate, LineToolFsmState,
};

fn xy(x: i64, y: i64) -> Point {
    Point::new(x, y)
}

fn line_colors() -> DocumentToolData {
    DocumentToolData {
        primary_color: Color { red: 1, green: 2, blue: 3, alpha: 255 },
        secondary_color: Color::white(),
    }
}

fn line_document() -> DocumentMessageHandler {
    DocumentMessageHandler {
        snapping_enabled: true,
        artboards: Vec::new(),
        visible_layer_bounds: vec![[xy(200, 200), xy(300, 300)]],
        artboards_under_cursor: Vec::new(),
        layers_under_cursor: Vec::new(),
        new_layer_path: vec![4, 2],
        selected_shapes: Vec::new(),
    }
}

fn line_pointer(x: i64, y: i64) -> InputPreprocessorMessageHandler {
    let mut input = InputPreprocessorMessageHandler::new();
    input.mouse.position = xy(x, y);
    input.viewport_size = xy(800, 600);
    input
}

fn line(message: LineMessage) -> ToolMessage {
    ToolMessage::Line(message)
}

fn redraw() -> ToolMessage {
    line(LineMessage::Redraw {
        center: Key::KeyAlt,
        lock_angle: Key::KeyControl,
        snap_angle: Key::KeyShift,
    })
}

fn doc(message: DocumentMessage) -> Message {
    Message::Document(message)
}

fn hints(hint_data: HintData) -> Message {
    Message::Frontend(FrontendMessage::UpdateInputHints { hint_data })
}

fn crosshair() -> Message {
    Message::Frontend(FrontendMessage::UpdateMouseCursor { cursor: MouseCursorIcon::Crosshair })
}

fn key_hint(key: Key, label: &str, plus: bool) -> HintInfo {
    HintInfo {
        key_groups: vec![KeysGroup(vec![key])],
        mouse: None,
        label: String::from(label),
        plus,
    }
}

fn ready_hints() -> HintData {
    HintData(vec![HintGroup(vec![
        HintInfo {
            key_groups: vec![],
            mouse: Some(MouseMotion::LmbDrag),
            label: String::from("Draw Line"),
            plus: false,
        },
        key_hint(Key::KeyShift, "Snap 15°", true),
        key_hint(Key::KeyAlt, "From Center", true),
        key_hint(Key::KeyControl, "Lock Angle", true),
    ])])
}

fn drawing_hints() -> HintData {
    HintData(vec![HintGroup(vec![
        key_hint(Key::KeyShift, "Snap 15°", false),
        key_hint(Key::KeyAlt, "From Center", false),
        key_hint(Key::KeyControl, "Lock Angle", false),
    ])])
}

fn tell(
    tool: &mut Line,
    message: ToolMessage,
    input: &InputPreprocessorMessageHandler,
    ids: &mut UuidGenerator,
) -> Vec<Message> {
    let mut responses = VecDeque::new();
    tool.process_action(message, &line_document(), &line_colors(), input, &mut responses, ids);
    responses.into_iter().collect()
}

#[test]
fn line_scenario_redraws_towards_the_pointer_with_angle_snapping() {
    let mut tool = Line::new();
    let mut ids = UuidGenerator::new(1);
    let emitted = tell(&mut tool, line(LineMessage::DragStart), &line_pointer(0, 0), &mut ids);
    assert_eq!(
        emitted,
        vec![
            doc(DocumentMessage::StartTransaction),
            doc(DocumentMessage::DeselectAllLayers),
            doc(DocumentMessage::DispatchOperation(Operation::AddLine {
                path: vec![4, 2],
                insert_index: -1,
                style: PathStyle {
                    stroke: Some(Stroke {
                        color: Color { red: 1, green: 2, blue: 3, alpha: 255 },
                        weight: 5,
                    }),
                    fill: None,
                },
            })),
            hints(drawing_hints()),
            crosshair(),
        ]
    );
    assert_eq!(tool.fsm_state, LineToolFsmState::Drawing);
    assert_eq!(tool.data.drag_start, xy(0, 0));
    assert_eq!(tool.data.path, Some(vec![4, 2]));
    assert_eq!(tool.data.weight, 5);

    let mut input = line_pointer(10, 0);
    input.keyboard.set(Key::KeyShift);
    let emitted = tell(&mut tool, redraw(), &input, &mut ids);
    assert_eq!(
        emitted,
        vec![doc(DocumentMessage::DispatchOperation(Operation::SetLineInViewport {
            path: vec![4, 2],
            start: xy(0, 0),
            end: xy(10, 0),
            lock_angle: false,
            snap_angle: true,
            center: false,
        }))]
    );
    assert_eq!(tool.data.drag_current, xy(10, 0));
    assert_eq!(tool.fsm_state, LineToolFsmState::Drawing);
}

#[test]
fn line_redraw_reads_each_modifier_key() {
    let mut tool = Line::new();
    let mut ids = UuidGenerator::new(1);
    tell(&mut tool, line(LineMessage::DragStart), &line_pointer(5, 5), &mut ids);
    let mut input = line_pointer(50, 60);
    input.keyboard.set(Key::KeyControl);
    input.keyboard.set(Key::KeyAlt);
    let emitted = tell(&mut tool, redraw(), &input, &mut ids);
    assert_eq!(
        emitted,
        vec![doc(DocumentMessage::DispatchOperation(Operation::SetLineInViewport {
            path: vec![4, 2],
            start: xy(5, 5),
            end: xy(50, 60),
            lock_angle: true,
            snap_angle: false,
            center: true,
        }))]
    );
    assert_eq!(
        line_redraw_message(&tool.data, false, true, false),
        doc(DocumentMessage::DispatchOperation(Operation::SetLineInViewport {
            path: vec![4, 2],
            start: xy(5, 5),
            end: xy(50, 60),
            lock_angle: false,
            snap_angle: true,
            center: false,
        }))
    );
}

#[test]
fn line_drag_snaps_its_ends() {
    let mut tool = Line::new();
    let mut ids = UuidGenerator::new(30);
    let emitted = tell(&mut tool, line(LineMessage::DragStart), &line_pointer(198, 10), &mut ids);
    assert_eq!(tool.data.drag_start, xy(200, 10));
    assert_eq!(emitted.len(), 6);
    assert!(matches!(
        &emitted[0],
        Message::Document(DocumentMessage::Overlays(OverlaysMessage::DispatchOperation(
            Operation::AddOverlayLine { path, start, end, .. }
        ))) if *path == vec![30] && *start == xy(200, 0) && *end == xy(200, 600)
    ));
    let emitted = tell(&mut tool, redraw(), &line_pointer(251, 299), &mut ids);
    assert_eq!(tool.data.drag_current, xy(250, 300));
    // The old guide goes, two new ones come, then the line is placed.
    assert_eq!(emitted.len(), 4);
    assert!(matches!(
        &emitted[3],
        Message::Document(DocumentMessage::DispatchOperation(Operation::SetLineInViewport {
            start, end, ..
        })) if *start == xy(200, 10) && *end == xy(250, 300)
    ));
}

#[test]
fn line_drag_stop_commits_a_real_drag() {
    let mut tool = Line::new();
    let mut ids = UuidGenerator::new(1);
    tell(&mut tool, line(LineMessage::DragStart), &line_pointer(0, 0), &mut ids);
    let emitted = tell(&mut tool, line(LineMessage::DragStop), &line_pointer(1, 1), &mut ids);
    assert_eq!(
        emitted,
        vec![doc(DocumentMessage::CommitTransaction), hints(ready_hints()), crosshair()]
    );
    assert_eq!(tool.fsm_state, LineToolFsmState::Ready);
    assert_eq!(tool.data.path, None);
    assert_eq!(tool.data.drag_current, xy(1, 1));
}

#[test]
fn line_drag_stop_aborts_a_click() {
    for end in [xy(0, 0), xy(1, 0), xy(0, -1)] {
        let mut tool = Line::new();
        let mut ids = UuidGenerator::new(1);
        tell(&mut tool, line(LineMessage::DragStart), &line_pointer(0, 0), &mut ids);
        let emitted = tell(&mut tool, line(LineMessage::DragStop), &line_pointer(end.x, end.y), &mut ids);
        assert_eq!(
            emitted,
            vec![doc(DocumentMessage::AbortTransaction), hints(ready_hints()), crosshair()]
        );
        assert_eq!(tool.fsm_state, LineToolFsmState::Ready);
    }
}

#[test]
fn line_abort_gives_up_the_line() {
    let mut tool = Line::new();
    let mut ids = UuidGenerator::new(1);
    tell(&mut tool, line(LineMessage::DragStart), &line_pointer(198, 0), &mut ids);
    let emitted = tell(&mut tool, line(LineMessage::Abort), &line_pointer(50, 50), &mut ids);
    assert_eq!(emitted.len(), 4);
    assert_eq!(
        emitted[0],
        Message::Document(DocumentMessage::Overlays(OverlaysMessage::DispatchOperation(
            Operation::DeleteLayer { path: vec![1] }
        )))
    );
    assert_eq!(emitted[1], doc(DocumentMessage::AbortTransaction));
    assert_eq!(emitted[2], hints(ready_hints()));
    assert_eq!(emitted[3], crosshair());
    assert_eq!(tool.fsm_state, LineToolFsmState::Ready);
    assert_eq!(tool.data.path, None);
    assert!(tool.data.snap_handler.snap_targets.is_none());
}

#[test]
fn line_ignores_what_it_does_not_match() {
    let mut ids = UuidGenerator::new(1);
    let mut ready = Line::new();
    for message in [
        line(LineMessage::DragStop),
        line(LineMessage::Abort),
        redraw(),
        ToolMessage::Crop(CropMessage::MouseDown),
        ToolMessage::SelectionChanged,
    ] {
        let emitted = tell(&mut ready, message, &line_pointer(9, 9), &mut ids);
        assert!(emitted.is_empty());
        assert_eq!(ready.fsm_state, LineToolFsmState::Ready);
        assert_eq!(ready.data.path, None);
        assert_eq!(ready.data.drag_start, xy(0, 0));
    }
    let mut drawing = Line::new();
    tell(&mut drawing, line(LineMessage::DragStart), &line_pointer(0, 0), &mut ids);
    let next = ids.next;
    let emitted = tell(&mut drawing, line(LineMessage::DragStart), &line_pointer(9, 9), &mut ids);
    assert!(emitted.is_empty());
    assert_eq!(drawing.fsm_state, LineToolFsmState::Drawing);
    assert_eq!(drawing.data.drag_start, xy(0, 0));
    assert_eq!(ids.next, next);
}

#[test]
fn line_options_update_sets_the_weight() {
    let mut tool = Line::new();
    let mut ids = UuidGenerator::new(1);
    assert_eq!(LineOptions::default(), LineOptions { line_weight: 5 });
    assert_eq!(tool.options.line_weight, 5);
    let emitted = tell(
        &mut tool,
        line(LineMessage::UpdateOptions(LineOptionsUpdate::LineWeight(12))),
        &line_pointer(0, 0),
        &mut ids,
    );
    assert!(emitted.is_empty());
    assert_eq!(tool.options.line_weight, 12);
    assert_eq!(tool.fsm_state, LineToolFsmState::Ready);
    let emitted = tell(&mut tool, line(LineMessage::DragStart), &line_pointer(0, 0), &mut ids);
    assert!(matches!(
        &emitted[2],
        Message::Document(DocumentMessage::DispatchOperation(Operation::AddLine { style, .. }))
            if style.stroke.map(|stroke| stroke.weight) == Some(12)
    ));
}

#[test]
fn line_properties_describe_the_weight_field() {
    let mut tool = Line::new();
    tool.options.line_weight = 9;
    let field = tool.properties();
    assert_eq!(field.unit, " px");
    assert_eq!(field.label, "Weight");
    assert_eq!(field.value, 9);
    assert!(field.is_integer);
    assert_eq!(field.min, Some(0));
    assert_eq!(
        Line::weight_update(3),
        Message::Tool(line(LineMessage::UpdateOptions(LineOptionsUpdate::LineWeight(3))))
    );
}

#[test]
fn line_hints_cursor_and_actions_follow_the_state() {
    let mut tool = Line::new();
    let mut ids = UuidGenerator::new(1);
    assert_eq!(
        tell(&mut tool, ToolMessage::UpdateHints, &line_pointer(0, 0), &mut ids),
        vec![hints(ready_hints())]
    );
    assert_eq!(
        tell(&mut tool, ToolMessage::UpdateCursor, &line_pointer(0, 0), &mut ids),
        vec![crosshair()]
    );
    assert_eq!(tool.actions(), vec![LineMessageDiscriminant::DragStart]);
    tell(&mut tool, line(LineMessage::DragStart), &line_pointer(0, 0), &mut ids);
    assert_eq!(
        tell(&mut tool, ToolMessage::UpdateHints, &line_pointer(0, 0), &mut ids),
        vec![hints(drawing_hints())]
    );
    assert_eq!(
        tool.actions(),
        vec![
            LineMessageDiscriminant::DragStop,
            LineMessageDiscriminant::Redraw,
            LineMessageDiscriminant::Abort,
        ]
    );
    assert_eq!(LineToolFsmState::default(), LineToolFsmState::Ready);
    assert_eq!(Line::default().options, LineOptions { line_weight: 5 });
}

#[test]
fn line_angle_snaps_to_the_nearest_fifteen_degrees() {
    // The direction from (0, 0) to (10, 0.2) is about 1.145763 degrees.
    let mut state = LineAngle::new();
    assert_eq!(state.resolve(1_145_763, false, true), 0);
    assert_eq!(state.angle, 0);
    assert_eq!(state.resolve(7_499_999, false, true), 0);
    assert_eq!(state.resolve(7_500_000, false, true), 15_000_000);
    assert_eq!(state.resolve(-7_500_000, false, true), -15_000_000);
    assert_eq!(state.resolve(-7_499_999, false, true), 0);
    assert_eq!(state.resolve(44_000_000, false, true), 45_000_000);
    assert_eq!(state.resolve(-100_000_000, false, true), -105_000_000);
    assert_eq!(state.resolve(180_000_000, false, true), 180_000_000);
    assert_eq!(state.resolve(-172_500_000, false, true), -180_000_000);
    assert_eq!(state.angle, -180_000_000);
}

#[test]
fn line_angle_is_kept_while_locked() {
    let mut state = LineAngle::new();
    assert_eq!(state.resolve(33_000_000, false, false), 33_000_000);
    assert_eq!(state.resolve(-90_000_000, true, false), 33_000_000);
    assert_eq!(state.angle, 33_000_000);
    // Locked and snapped: the remembered angle is snapped.
    assert_eq!(state.resolve(-90_000_000, true, true), 30_000_000);
    assert_eq!(state.angle, 30_000_000);
    assert_eq!(state.resolve(-90_000_000, false, false), -90_000_000);
}
