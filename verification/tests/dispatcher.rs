use std::collections::VecDeque;

use graphite_editor::communication::dispatcher::{
    BackendReply, BackendRequest, Dispatcher, DocumentBackend, NoDocument,
};
use graphite_editor::communication::message::{
    push_back_all, push_front_all, GlobalMessage, HandlerCategory, Message,
};
use graphite_editor::communication::UuidGenerator;
use graphite_editor::consts::{COORDINATE_LIMIT, DISPATCH_ITERATION_LIMIT};
use graphite_editor::document::{
    paths_equal, Artboard, ArtboardMessage, Color, DocumentMessage, DocumentMessageHandler,
    DocumentMessageHandlerView,
};
use graphite_editor::frontend::{FrontendMessage, MouseCursorIcon};
use graphite_editor::geometry::Point;
use graphite_editor::global::LogLevel;
use graphite_editor::input::{InputPreprocessorMessage, InputPreprocessorMessageHandler, Key};
use graphite_editor::misc::EditorError;
use graphite_editor::viewport_tools::tool::ToolType;
use graphite_editor::viewport_tools::tool_message::ToolMessage;
use graphite_editor::viewport_tools::tool_message_handler::ToolMessageHandler;
use graphite_editor::viewport_tools::tools::crop::{CropMessage, CropToolFsmState};
use graphite_editor::viewport_tools::tools::line::{LineMessage, LineToolFsmState};
use graphite_editor::viewport_tools::tools::path::PathMessage;
use graphite_editor::Editor;

fn c(x: i64, y: i64) -> Point {
    Point::new(x, y)
}

fn layers(id: u64) -> Vec<Vec<u64>> {
    vec![vec![id]]
}

fn trigger() -> DocumentMessage {
    DocumentMessage::DeselectAllLayers
}

fn message_a() -> DocumentMessage {
    DocumentMessage::AddSelectedLayers { additional_layers: layers(1) }
}

fn message_b() -> DocumentMessage {
    DocumentMessage::SetSelectedLayers { replacement_selected_layers: layers(2) }
}

fn message_c() -> DocumentMessage {
    DocumentMessage::CommitTransaction
}

/// A document that records what it is given. The seed message queues the
/// trigger and then `C`; the trigger puts `A` before everything queued and `B`
/// behind it.
struct Recorder {
    log: Vec<DocumentMessage>,
    artboards: Vec<Artboard>,
    far_away: bool,
    echo: bool,
}

impl Recorder {
    fn new() -> Recorder {
        Recorder { log: Vec::new(), artboards: Vec::new(), far_away: false, echo: false }
    }
}

impl DocumentBackend for Recorder {
    // The two descriptions below exist for proofs only; nothing runs them.
    fn handled(&self, _request: BackendRequest) -> BackendReply<Self> {
        unreachable!()
    }

    fn shown(&self, _input: InputPreprocessorMessageHandler) -> DocumentMessageHandlerView {
        unreachable!()
    }

    fn process_action(
        &mut self,
        message: DocumentMessage,
        responses: &mut VecDeque<Message>,
        _ids: &mut UuidGenerator,
    ) {
        self.log.push(message.clone());
        match message {
            DocumentMessage::StartTransaction => {
                responses.push_back(Message::Document(trigger()));
                responses.push_back(Message::Document(message_c()));
            }
            DocumentMessage::DeselectAllLayers => {
                responses.push_front(Message::Document(message_a()));
                responses.push_back(Message::Document(message_b()));
            }
            DocumentMessage::AbortTransaction => {
                if self.echo {
                    responses.push_back(Message::Document(DocumentMessage::AbortTransaction));
                }
            }
            DocumentMessage::Artboard(ArtboardMessage::AddArtboard { id, position, size }) => {
                self.artboards.push(Artboard {
                    path: vec![id.unwrap_or(0)],
                    bounds: [position, Point::new(position.x + size.x, position.y + size.y)],
                });
                responses.push_back(Message::Frontend(FrontendMessage::UpdateMouseCursor {
                    cursor: MouseCursorIcon::Crosshair,
                }));
            }
            DocumentMessage::Artboard(ArtboardMessage::ResizeArtboard { artboard, position, size }) => {
                for board in self.artboards.iter_mut() {
                    if paths_equal(&board.path, &artboard) {
                        board.bounds =
                            [position, Point::new(position.x + size.x, position.y + size.y)];
                    }
                }
            }
            _ => {}
        }
    }

    fn snapshot(&self, _input: &InputPreprocessorMessageHandler) -> DocumentMessageHandler {
        DocumentMessageHandler {
            snapping_enabled: false,
            artboards: self.artboards.clone(),
            visible_layer_bounds: if self.far_away {
                vec![[c(0, 0), c(COORDINATE_LIMIT + 1, 0)]]
            } else {
                Vec::new()
            },
            artboards_under_cursor: Vec::new(),
            layers_under_cursor: Vec::new(),
            new_layer_path: vec![1],
            selected_shapes: Vec::new(),
        }
    }
}

#[test]
fn message_variant_decides_the_handler() {
    assert_eq!(Message::NoOp.category(), HandlerCategory::Nobody);
    assert_eq!(Message::Document(trigger()).category(), HandlerCategory::Document);
    assert_eq!(Message::Global(GlobalMessage::LogInfo).category(), HandlerCategory::Global);
    assert_eq!(Message::Tool(ToolMessage::NoOp).category(), HandlerCategory::Tool);
    assert_eq!(
        Message::InputPreprocessor(InputPreprocessorMessage::KeyDown { key: Key::KeyS }).category(),
        HandlerCategory::InputPreprocessor
    );
    assert_eq!(
        Message::Frontend(FrontendMessage::UpdateActiveTool { tool_type: ToolType::Line }).category(),
        HandlerCategory::Frontend
    );
}

#[test]
fn queue_helpers_keep_the_order_of_the_buffer() {
    let one = Message::Document(message_a());
    let two = Message::Document(message_b());
    let three = Message::Document(message_c());
    let mut queue = VecDeque::from(vec![Message::NoOp]);
    push_front_all(&mut queue, vec![one.clone(), two.clone(), three.clone()]);
    assert_eq!(
        queue,
        VecDeque::from(vec![one.clone(), two.clone(), three.clone(), Message::NoOp])
    );
    let mut queue = VecDeque::from(vec![Message::NoOp]);
    push_back_all(&mut queue, vec![one.clone(), two.clone(), three.clone()]);
    assert_eq!(queue, VecDeque::from(vec![Message::NoOp, one, two, three]));
    let mut queue = VecDeque::from(vec![Message::NoOp]);
    push_front_all(&mut queue, Vec::new());
    push_back_all(&mut queue, Vec::new());
    assert_eq!(queue, VecDeque::from(vec![Message::NoOp]));
}

#[test]
fn dispatch_ordering_front_before_queued_before_back() {
    let mut dispatcher = Dispatcher::new(Recorder::new(), 1);
    let result = dispatcher.handle_message(Message::Document(DocumentMessage::StartTransaction));
    assert_eq!(result, Ok(()));
    assert_eq!(
        dispatcher.document.log,
        vec![
            DocumentMessage::StartTransaction,
            trigger(),
            message_a(),
            message_c(),
            message_b(),
        ]
    );
    assert!(dispatcher.message_queue.is_empty());
}

#[test]
fn dispatch_of_one_message_leaves_the_cascade_queued() {
    let mut dispatcher = Dispatcher::new(Recorder::new(), 1);
    dispatcher.message_queue.push_back(Message::Document(message_c()));
    assert_eq!(dispatcher.dispatch(Message::Document(trigger())), Ok(()));
    assert_eq!(
        dispatcher.message_queue,
        VecDeque::from(vec![
            Message::Document(message_a()),
            Message::Document(message_c()),
            Message::Document(message_b()),
        ])
    );
    assert_eq!(dispatcher.document.log, vec![trigger()]);
}

#[test]
fn frontend_messages_are_collected_in_emission_order() {
    let mut dispatcher = Dispatcher::new(Recorder::new(), 1);
    let first = FrontendMessage::UpdateActiveTool { tool_type: ToolType::Path };
    let second = FrontendMessage::UpdateMouseCursor { cursor: MouseCursorIcon::Text };
    assert_eq!(dispatcher.handle_message(Message::Frontend(first.clone())), Ok(()));
    assert_eq!(dispatcher.handle_message(Message::NoOp), Ok(()));
    assert_eq!(dispatcher.handle_message(Message::Frontend(second.clone())), Ok(()));
    assert_eq!(dispatcher.responses, vec![first, second]);
    assert!(dispatcher.document.log.is_empty());
}

#[test]
fn input_and_global_messages_reach_their_handlers() {
    let mut dispatcher = Dispatcher::new(Recorder::new(), 1);
    let events = [
        InputPreprocessorMessage::BoundsOfViewports { size: c(800, 600) },
        InputPreprocessorMessage::MouseMove { position: c(3, 4) },
        InputPreprocessorMessage::KeyDown { key: Key::KeyShift },
        InputPreprocessorMessage::MouseDown { position: c(5, 6) },
    ];
    for event in events {
        assert_eq!(dispatcher.handle_message(Message::InputPreprocessor(event)), Ok(()));
    }
    assert_eq!(dispatcher.input.viewport_size, c(800, 600));
    assert_eq!(dispatcher.input.mouse.position, c(5, 6));
    assert!(dispatcher.input.keyboard.get(Key::KeyShift));
    assert!(dispatcher.input.keyboard.get(Key::Lmb));
    assert!(!dispatcher.input.keyboard.get(Key::KeyAlt));
    for event in [
        InputPreprocessorMessage::KeyUp { key: Key::KeyShift },
        InputPreprocessorMessage::MouseUp { position: c(7, 8) },
    ] {
        assert_eq!(dispatcher.handle_message(Message::InputPreprocessor(event)), Ok(()));
    }
    assert!(!dispatcher.input.keyboard.get(Key::KeyShift));
    assert!(!dispatcher.input.keyboard.get(Key::Lmb));
    assert_eq!(dispatcher.input.mouse.position, c(7, 8));

    assert_eq!(dispatcher.global.log_level, LogLevel::Info);
    assert_eq!(dispatcher.handle_message(Message::Global(GlobalMessage::LogTrace)), Ok(()));
    assert_eq!(dispatcher.global.log_level, LogLevel::Trace);
    assert_eq!(dispatcher.handle_message(Message::Global(GlobalMessage::LogDebug)), Ok(()));
    assert_eq!(dispatcher.global.log_level, LogLevel::Debug);
    assert_eq!(dispatcher.handle_message(Message::Global(GlobalMessage::LogInfo)), Ok(()));
    assert_eq!(dispatcher.global.log_level, LogLevel::Info);
    assert!(dispatcher.responses.is_empty());
}

#[test]
fn a_message_that_queues_itself_hits_the_limit() {
    let mut backend = Recorder::new();
    backend.echo = true;
    let mut dispatcher = Dispatcher::new(backend, 1);
    assert_eq!(dispatcher.iteration_limit, DISPATCH_ITERATION_LIMIT);
    dispatcher.iteration_limit = 10;
    let result = dispatcher.handle_message(Message::Document(DocumentMessage::AbortTransaction));
    assert_eq!(result, Err(EditorError::DispatchLimit));
    assert_eq!(dispatcher.document.log.len(), 10);
    assert!(dispatcher.message_queue.is_empty());
    // The dispatcher is usable again.
    dispatcher.document.echo = false;
    assert_eq!(dispatcher.handle_message(Message::NoOp), Ok(()));
}

#[test]
fn a_limit_of_zero_processes_nothing() {
    let mut dispatcher = Dispatcher::new(Recorder::new(), 1);
    dispatcher.iteration_limit = 0;
    assert_eq!(dispatcher.handle_message(Message::NoOp), Err(EditorError::DispatchLimit));
    assert!(dispatcher.message_queue.is_empty());
}

#[test]
fn geometry_off_the_canvas_stops_the_tools() {
    let mut backend = Recorder::new();
    backend.far_away = true;
    let mut dispatcher = Dispatcher::new(backend, 1);
    let result = dispatcher.handle_message(Message::Tool(ToolMessage::Crop(CropMessage::MouseDown)));
    assert_eq!(result, Err(EditorError::MalformedGeometry));
    assert_eq!(dispatcher.tools.crop.fsm_state, CropToolFsmState::Ready);
    assert!(dispatcher.message_queue.is_empty());

    let mut dispatcher = Dispatcher::new(Recorder::new(), 1);
    dispatcher.input.mouse.position = c(COORDINATE_LIMIT + 1, 0);
    let snapshot = dispatcher.document.snapshot(&dispatcher.input);
    assert_eq!(
        dispatcher.route_tool(ToolMessage::Crop(CropMessage::MouseDown), &snapshot),
        Err(EditorError::MalformedGeometry)
    );
    dispatcher.input.mouse.position = c(COORDINATE_LIMIT, -COORDINATE_LIMIT);
    assert_eq!(
        dispatcher.route_tool(ToolMessage::Crop(CropMessage::MouseDown), &snapshot),
        Ok(())
    );
    assert_eq!(dispatcher.tools.crop.fsm_state, CropToolFsmState::Drawing);
}

#[test]
fn snapshot_validity_is_checked_field_by_field() {
    let far = c(0, -COORDINATE_LIMIT - 1);
    let backend = Recorder::new();
    let input = InputPreprocessorMessageHandler::new();
    assert!(backend.snapshot(&input).is_wf());
    let mut document = backend.snapshot(&input);
    document.artboards.push(Artboard { path: vec![1], bounds: [c(0, 0), far] });
    assert!(!document.is_wf());
    let mut document = backend.snapshot(&input);
    document.visible_layer_bounds.push([far, c(0, 0)]);
    assert!(!document.is_wf());
    let mut document = backend.snapshot(&input);
    document.selected_shapes.push(graphite_editor::document::VectorShape {
        layer_path: vec![1],
        anchors: vec![c(0, 0), far],
        overlay_path: None,
    });
    assert!(!document.is_wf());
    assert!(c(COORDINATE_LIMIT, -COORDINATE_LIMIT).is_in_canvas());
    assert!(!c(COORDINATE_LIMIT + 1, 0).is_in_canvas());
}

#[test]
fn artboard_lookup_finds_the_first_match() {
    let document = DocumentMessageHandler {
        snapping_enabled: true,
        artboards: vec![
            Artboard { path: vec![1], bounds: [c(0, 0), c(1, 1)] },
            Artboard { path: vec![2, 3], bounds: [c(0, 0), c(2, 2)] },
            Artboard { path: vec![2, 3], bounds: [c(0, 0), c(3, 3)] },
        ],
        visible_layer_bounds: Vec::new(),
        artboards_under_cursor: Vec::new(),
        layers_under_cursor: Vec::new(),
        new_layer_path: vec![1],
        selected_shapes: Vec::new(),
    };
    assert_eq!(document.artboard_bounding_box(&vec![2, 3]), Some([c(0, 0), c(2, 2)]));
    assert_eq!(document.artboard_bounding_box(&vec![1]), Some([c(0, 0), c(1, 1)]));
    assert_eq!(document.artboard_bounding_box(&vec![2]), None);
    assert_eq!(document.artboard_bounding_box(&vec![]), None);
    assert!(paths_equal(&vec![], &vec![]));
    assert!(!paths_equal(&vec![1, 2], &vec![1, 3]));
}

#[test]
fn editor_runs_the_crop_scenario_end_to_end() {
    let mut editor = Editor::new(Recorder::new(), 500);
    let send = |editor: &mut Editor<Recorder>, message: Message| editor.handle_message(message);

    assert_eq!(
        send(&mut editor, Message::InputPreprocessor(InputPreprocessorMessage::MouseMove {
            position: c(10, 20)
        })),
        Ok(Vec::new())
    );
    // The tool sets its cursor after the state change; the backend answers
    // the new artboard with a frontend instruction of its own.
    assert_eq!(
        send(&mut editor, Message::Tool(ToolMessage::Crop(CropMessage::MouseDown))),
        Ok(vec![
            FrontendMessage::UpdateMouseCursor { cursor: MouseCursorIcon::Default },
            FrontendMessage::UpdateMouseCursor { cursor: MouseCursorIcon::Crosshair },
        ])
    );
    assert_eq!(editor.dispatcher.tools.crop.fsm_state, CropToolFsmState::Drawing);
    assert_eq!(
        editor.dispatcher.document.log,
        vec![DocumentMessage::Artboard(ArtboardMessage::AddArtboard {
            id: Some(500),
            position: c(0, 0),
            size: c(0, 0),
        })]
    );
    send(&mut editor, Message::InputPreprocessor(InputPreprocessorMessage::MouseMove {
        position: c(110, 70),
    }))
    .expect("input is handled");
    let shown = send(
        &mut editor,
        Message::Tool(ToolMessage::Crop(CropMessage::MouseMove {
            axis_align: Key::KeyShift,
            centre: Key::KeyAlt,
        })),
    );
    assert_eq!(shown, Ok(Vec::new()));
    assert_eq!(
        editor.dispatcher.document.log[1],
        DocumentMessage::Artboard(ArtboardMessage::ResizeArtboard {
            artboard: vec![500],
            position: c(10, 20),
            size: c(100, 50),
        })
    );
    assert_eq!(editor.dispatcher.document.artboards[0].bounds, [c(10, 20), c(110, 70)]);
    assert_eq!(
        send(&mut editor, Message::Tool(ToolMessage::Crop(CropMessage::MouseUp))),
        Ok(vec![FrontendMessage::UpdateMouseCursor { cursor: MouseCursorIcon::Default }])
    );
    assert_eq!(editor.dispatcher.tools.crop.fsm_state, CropToolFsmState::Ready);
    // Mouse up sends no further resize: the rest of the log is overlay traffic.
    let artboard_messages = editor
        .dispatcher
        .document
        .log
        .iter()
        .filter(|message| matches!(message, DocumentMessage::Artboard(_)))
        .count();
    assert_eq!(artboard_messages, 2);
    assert_eq!(editor.dispatcher.document.log.len(), 21);
    // The refresh that followed the drag put the overlays on the new artboard.
    let overlays = editor.dispatcher.tools.crop.data.bounding_box_overlays.as_ref();
    assert_eq!(overlays.map(|overlays| overlays.bounds), Some([c(10, 20), c(110, 70)]));
    assert!(editor.dispatcher.responses.is_empty());
}

#[test]
fn editor_hands_back_nothing_after_an_error() {
    let mut editor = Editor::new(Recorder::new(), 1);
    editor.dispatcher.iteration_limit = 1;
    let result = editor.handle_message(Message::Document(DocumentMessage::StartTransaction));
    assert_eq!(result, Err(EditorError::DispatchLimit));
    assert!(editor.dispatcher.responses.is_empty());
    assert!(editor.dispatcher.message_queue.is_empty());
}

#[test]
fn tool_switch_aborts_the_old_tool_and_introduces_the_new() {
    let mut tools = ToolMessageHandler::new(ToolType::Crop);
    let backend = Recorder::new();
    let input = InputPreprocessorMessageHandler::new();
    let document = backend.snapshot(&input);
    let mut ids = UuidGenerator::new(1);
    let mut responses = VecDeque::new();
    tools.process_action(ToolMessage::Crop(CropMessage::MouseDown), &document, &input, &mut responses, &mut ids);
    assert_eq!(tools.crop.fsm_state, CropToolFsmState::Drawing);
    responses.clear();

    tools.process_action(
        ToolMessage::ActivateTool { tool_type: ToolType::Line },
        &document,
        &input,
        &mut responses,
        &mut ids,
    );
    assert_eq!(tools.active_tool_type, ToolType::Line);
    assert_eq!(tools.crop.fsm_state, CropToolFsmState::Ready);
    let responses: Vec<Message> = responses.into_iter().collect();
    assert_eq!(responses.len(), 4);
    // The aborted crop tool returns to its ready state and sets its cursor.
    assert_eq!(
        responses[0],
        Message::Frontend(FrontendMessage::UpdateMouseCursor { cursor: MouseCursorIcon::Default })
    );
    assert!(matches!(
        &responses[1],
        Message::Frontend(FrontendMessage::UpdateInputHints { .. })
    ));
    assert_eq!(
        responses[2],
        Message::Frontend(FrontendMessage::UpdateMouseCursor { cursor: MouseCursorIcon::Crosshair })
    );
    assert_eq!(
        responses[3],
        Message::Frontend(FrontendMessage::UpdateActiveTool { tool_type: ToolType::Line })
    );

    let mut responses = VecDeque::new();
    tools.process_action(
        ToolMessage::ActivateTool { tool_type: ToolType::Line },
        &document,
        &input,
        &mut responses,
        &mut ids,
    );
    assert!(responses.is_empty());
}

#[test]
fn only_the_active_tool_hears_its_messages() {
    let mut tools = ToolMessageHandler::new(ToolType::Line);
    let backend = Recorder::new();
    let input = InputPreprocessorMessageHandler::new();
    let document = backend.snapshot(&input);
    let mut ids = UuidGenerator::new(1);
    let mut responses = VecDeque::new();
    for message in [
        ToolMessage::Crop(CropMessage::MouseDown),
        ToolMessage::Path(PathMessage::DragStart { add_to_selection: Key::KeyShift }),
        ToolMessage::DocumentIsDirty,
        ToolMessage::SelectionChanged,
        ToolMessage::NoOp,
    ] {
        tools.process_action(message, &document, &input, &mut responses, &mut ids);
        assert!(responses.is_empty());
    }
    assert_eq!(tools.crop.fsm_state, CropToolFsmState::Ready);
    tools.process_action(ToolMessage::Line(LineMessage::DragStart), &document, &input, &mut responses, &mut ids);
    assert_eq!(tools.line.fsm_state, LineToolFsmState::Drawing);
    assert_eq!(responses.len(), 5);
}

#[test]
fn colour_messages_set_the_tool_colours() {
    let mut tools = ToolMessageHandler::new(ToolType::Line);
    let backend = Recorder::new();
    let input = InputPreprocessorMessageHandler::new();
    let document = backend.snapshot(&input);
    let mut ids = UuidGenerator::new(1);
    let mut responses = VecDeque::new();
    let red = Color { red: 255, green: 0, blue: 0, alpha: 255 };
    let blue = Color { red: 0, green: 0, blue: 255, alpha: 255 };
    assert_eq!(tools.document_tool_data.primary_color, Color::black());
    assert_eq!(tools.document_tool_data.secondary_color, Color::white());
    tools.process_action(ToolMessage::SelectPrimaryColor { color: red }, &document, &input, &mut responses, &mut ids);
    tools.process_action(ToolMessage::SelectSecondaryColor { color: blue }, &document, &input, &mut responses, &mut ids);
    assert_eq!((tools.document_tool_data.primary_color, tools.document_tool_data.secondary_color), (red, blue));
    tools.process_action(ToolMessage::SwapColors, &document, &input, &mut responses, &mut ids);
    assert_eq!((tools.document_tool_data.primary_color, tools.document_tool_data.secondary_color), (blue, red));
    tools.process_action(ToolMessage::ResetColors, &document, &input, &mut responses, &mut ids);
    assert_eq!(
        (tools.document_tool_data.primary_color, tools.document_tool_data.secondary_color),
        (Color::black(), Color::white())
    );
    assert!(responses.is_empty());
    assert_eq!(Color::accent(), Color { red: 0, green: 0xA8, blue: 0xFF, alpha: 0xFF });
}

#[test]
fn an_editor_without_a_document_still_runs_the_tools() {
    let mut editor: Editor<NoDocument> = Editor::default();
    assert_eq!(editor.dispatcher.ids.next, 0);
    let record = editor.dispatcher.document.snapshot(&editor.dispatcher.input);
    assert!(!record.snapping_enabled);
    assert!(record.artboards.is_empty() && record.selected_shapes.is_empty());
    assert!(record.is_wf());
    // A cursor request on a new editor comes back as one instruction.
    assert_eq!(
        editor.handle_message(Message::Tool(ToolMessage::UpdateCursor)),
        Ok(vec![FrontendMessage::UpdateMouseCursor { cursor: MouseCursorIcon::Default }])
    );
    // The crop tool begins to draw; the artboard it asks for is dropped.
    assert_eq!(
        editor.handle_message(Message::Tool(ToolMessage::Crop(CropMessage::MouseDown))),
        Ok(vec![FrontendMessage::UpdateMouseCursor { cursor: MouseCursorIcon::Default }])
    );
    assert_eq!(editor.dispatcher.tools.crop.fsm_state, CropToolFsmState::Drawing);
    assert_eq!(editor.dispatcher.ids.next, 1);
    assert_eq!(
        editor.handle_message(Message::Document(DocumentMessage::StartTransaction)),
        Ok(Vec::new())
    );
    assert!(editor.dispatcher.message_queue.is_empty());
    assert!(editor.dispatcher.responses.is_empty());
}

#[test]
fn pending_frontend_messages_come_back_first_and_only_once() {
    let mut editor = Editor::new(Recorder::new(), 1);
    let pending = FrontendMessage::UpdateActiveTool { tool_type: ToolType::Path };
    editor.dispatcher.responses.push(pending.clone());
    assert_eq!(
        editor.handle_message(Message::Tool(ToolMessage::UpdateCursor)),
        Ok(vec![pending, FrontendMessage::UpdateMouseCursor { cursor: MouseCursorIcon::Default }])
    );
    assert_eq!(editor.handle_message(Message::NoOp), Ok(Vec::new()));
}
