//! What the tools read of the document, and the commands they send to it.

use vstd::prelude::*;
use crate::geometry::{bounds_in_canvas, Bounds, Point};

verus! {

/// The identifier of a layer among its siblings; a path of them names a layer.
pub type LayerId = u64;

/// The layer paths of a list, each as the sequence of its identifiers.
pub open spec fn path_views(paths: Seq<Vec<LayerId>>) -> Seq<Seq<LayerId>> {
    paths.map_values(|path: Vec<LayerId>| path@)
}

/// A colour with eight bits for each channel.
#[derive(Clone, Copy, Debug, PartialEq, Eq, Hash, Structural)]
pub struct Color {
    pub red: u8,
    pub green: u8,
    pub blue: u8,
    pub alpha: u8,
}

impl Color {
    /// The accent colour.
    pub open spec fn accent_spec() -> Color {
        Color { red: 0x00, green: 0xA8, blue: 0xFF, alpha: 0xFF }
    }

    /// Opaque white.
    pub open spec fn white_spec() -> Color {
        Color { red: 0xFF, green: 0xFF, blue: 0xFF, alpha: 0xFF }
    }

    /// Opaque black.
    pub open spec fn black_spec() -> Color {
        Color { red: 0x00, green: 0x00, blue: 0x00, alpha: 0xFF }
    }

    /// Colour of selection outlines and guides.
    #[verifier::when_used_as_spec(accent_spec)]
    pub fn accent() -> (color: Color)
        ensures
            color == Color::accent_spec(),
    {
        Color { red: 0x00, green: 0xA8, blue: 0xFF, alpha: 0xFF }
    }

    /// Opaque white.
    #[verifier::when_used_as_spec(white_spec)]
    pub fn white() -> (color: Color)
        ensures
            color == Color::white_spec(),
    {
        Color { red: 0xFF, green: 0xFF, blue: 0xFF, alpha: 0xFF }
    }

    /// Opaque black.
    #[verifier::when_used_as_spec(black_spec)]
    pub fn black() -> (color: Color)
        ensures
            color == Color::black_spec(),
    {
        Color { red: 0x00, green: 0x00, blue: 0x00, alpha: 0xFF }
    }
}

/// An outline: its colour and its width.
#[derive(Clone, Copy, Debug, PartialEq, Eq, Hash, Structural)]
pub struct Stroke {
    pub color: Color,
    pub weight: u32,
}

/// How a shape is drawn: its outline and its fill, either of which may be
/// absent.
#[derive(Clone, Copy, Debug, PartialEq, Eq, Hash, Structural)]
pub struct PathStyle {
    pub stroke: Option<Stroke>,
    pub fill: Option<Color>,
}

/// An unrotated placement: a unit square scaled by `scale`, then moved by
/// `translation`.
#[derive(Clone, Copy, Debug, PartialEq, Eq, Hash, Structural)]
pub struct BoxTransform {
    pub scale: Point,
    pub translation: Point,
}

/// A change to the layers of a document or of its overlays.
#[derive(Clone, Debug, PartialEq, Eq)]
pub enum Operation {
    AddLine { path: Vec<LayerId>, insert_index: isize, style: PathStyle },
    AddOverlayLine { path: Vec<LayerId>, start: Point, end: Point, style: PathStyle },
    AddOverlayRect { path: Vec<LayerId>, style: PathStyle },
    DeleteLayer { path: Vec<LayerId> },
    /// Moves the grabbed point of the shape at `path` to `position`.
    MoveManipulatorPoint { path: Vec<LayerId>, point: usize, position: Point, mirror: bool },
    SetLayerTransformInViewport { path: Vec<LayerId>, transform: BoxTransform },
    /// Places the line at `path` so that it runs from `start` towards `end`,
    /// under the given modifiers.
    SetLineInViewport {
        path: Vec<LayerId>,
        start: Point,
        end: Point,
        lock_angle: bool,
        snap_angle: bool,
        center: bool,
    },
}

/// An operation with its layer path as a sequence.
pub enum OperationView {
    AddLine { path: Seq<LayerId>, insert_index: isize, style: PathStyle },
    AddOverlayLine { path: Seq<LayerId>, start: Point, end: Point, style: PathStyle },
    AddOverlayRect { path: Seq<LayerId>, style: PathStyle },
    DeleteLayer { path: Seq<LayerId> },
    MoveManipulatorPoint { path: Seq<LayerId>, point: usize, position: Point, mirror: bool },
    SetLayerTransformInViewport { path: Seq<LayerId>, transform: BoxTransform },
    SetLineInViewport {
        path: Seq<LayerId>,
        start: Point,
        end: Point,
        lock_angle: bool,
        snap_angle: bool,
        center: bool,
    },
}

impl View for Operation {
    type V = OperationView;

    open spec fn view(&self) -> OperationView {
        match *self {
            Operation::AddLine { path, insert_index, style } => OperationView::AddLine {
                path: path@,
                insert_index,
                style,
            },
            Operation::AddOverlayLine { path, start, end, style } => OperationView::AddOverlayLine {
                path: path@,
                start,
                end,
                style,
            },
            Operation::AddOverlayRect { path, style } => OperationView::AddOverlayRect {
                path: path@,
                style,
            },
            Operation::DeleteLayer { path } => OperationView::DeleteLayer { path: path@ },
            Operation::MoveManipulatorPoint {
                path,
                point,
                position,
                mirror,
            } => OperationView::MoveManipulatorPoint { path: path@, point, position, mirror },
            Operation::SetLayerTransformInViewport {
                path,
                transform,
            } => OperationView::SetLayerTransformInViewport { path: path@, transform },
            Operation::SetLineInViewport {
                path,
                start,
                end,
                lock_angle,
                snap_angle,
                center,
            } => OperationView::SetLineInViewport {
                path: path@,
                start,
                end,
                lock_angle,
                snap_angle,
                center,
            },
        }
    }
}

/// Commands that add and resize artboards.
#[derive(Clone, Debug, PartialEq, Eq)]
pub enum ArtboardMessage {
    AddArtboard { id: Option<LayerId>, position: Point, size: Point },
    ResizeArtboard { artboard: Vec<LayerId>, position: Point, size: Point },
}

/// An artboard command with its layer path as a sequence.
pub enum ArtboardMessageView {
    AddArtboard { id: Option<LayerId>, position: Point, size: Point },
    ResizeArtboard { artboard: Seq<LayerId>, position: Point, size: Point },
}

impl View for ArtboardMessage {
    type V = ArtboardMessageView;

    open spec fn view(&self) -> ArtboardMessageView {
        match *self {
            ArtboardMessage::AddArtboard { id, position, size } => ArtboardMessageView::AddArtboard {
                id,
                position,
                size,
            },
            ArtboardMessage::ResizeArtboard {
                artboard,
                position,
                size,
            } => ArtboardMessageView::ResizeArtboard { artboard: artboard@, position, size },
        }
    }
}

/// Commands for the overlays drawn on top of the document.
#[derive(Clone, Debug, PartialEq, Eq)]
pub enum OverlaysMessage {
    DispatchOperation(Operation),
    Rerender,
}

/// An overlay command with its layer path as a sequence.
pub enum OverlaysMessageView {
    DispatchOperation(OperationView),
    Rerender,
}

impl View for OverlaysMessage {
    type V = OverlaysMessageView;

    open spec fn view(&self) -> OverlaysMessageView {
        match *self {
            OverlaysMessage::DispatchOperation(operation) => OverlaysMessageView::DispatchOperation(
                operation@,
            ),
            OverlaysMessage::Rerender => OverlaysMessageView::Rerender,
        }
    }
}

/// Commands for the document: its selection, its transactions, its layers,
/// its artboards and its overlays.
#[derive(Clone, Debug, PartialEq, Eq)]
pub enum DocumentMessage {
    AbortTransaction,
    AddSelectedLayers { additional_layers: Vec<Vec<LayerId>> },
    Artboard(ArtboardMessage),
    CommitTransaction,
    DeselectAllLayers,
    DispatchOperation(Operation),
    Overlays(OverlaysMessage),
    SetSelectedLayers { replacement_selected_layers: Vec<Vec<LayerId>> },
    StartTransaction,
}

/// A document command with its layer paths as sequences.
pub enum DocumentMessageView {
    AbortTransaction,
    AddSelectedLayers { additional_layers: Seq<Seq<LayerId>> },
    Artboard(ArtboardMessageView),
    CommitTransaction,
    DeselectAllLayers,
    DispatchOperation(OperationView),
    Overlays(OverlaysMessageView),
    SetSelectedLayers { replacement_selected_layers: Seq<Seq<LayerId>> },
    StartTransaction,
}

impl View for DocumentMessage {
    type V = DocumentMessageView;

    open spec fn view(&self) -> DocumentMessageView {
        match *self {
            DocumentMessage::AbortTransaction => DocumentMessageView::AbortTransaction,
            DocumentMessage::AddSelectedLayers {
                additional_layers,
            } => DocumentMessageView::AddSelectedLayers {
                additional_layers: path_views(additional_layers@),
            },
            DocumentMessage::Artboard(message) => DocumentMessageView::Artboard(message@),
            DocumentMessage::CommitTransaction => DocumentMessageView::CommitTransaction,
            DocumentMessage::DeselectAllLayers => DocumentMessageView::DeselectAllLayers,
            DocumentMessage::DispatchOperation(operation) => DocumentMessageView::DispatchOperation(
                operation@,
            ),
            DocumentMessage::Overlays(message) => DocumentMessageView::Overlays(message@),
            DocumentMessage::SetSelectedLayers {
                replacement_selected_layers,
            } => DocumentMessageView::SetSelectedLayers {
                replacement_selected_layers: path_views(replacement_selected_layers@),
            },
            DocumentMessage::StartTransaction => DocumentMessageView::StartTransaction,
        }
    }
}

/// An artboard and the box it occupies.
#[derive(Clone, Debug, PartialEq, Eq)]
pub struct Artboard {
    pub path: Vec<LayerId>,
    pub bounds: Bounds,
}

/// An artboard with its path as a sequence.
pub struct ArtboardView {
    pub path: Seq<LayerId>,
    pub bounds: Bounds,
}

impl View for Artboard {
    type V = ArtboardView;

    open spec fn view(&self) -> ArtboardView {
        ArtboardView { path: self.path@, bounds: self.bounds }
    }
}

/// The artboards of a list, each by its view.
pub open spec fn artboard_views(artboards: Seq<Artboard>) -> Seq<ArtboardView> {
    artboards.map_values(|artboard: Artboard| artboard@)
}

/// A selected vector shape: its anchor points, and the overlay that outlines
/// it while it has one.
#[derive(Clone, Debug, PartialEq, Eq)]
pub struct VectorShape {
    pub layer_path: Vec<LayerId>,
    pub anchors: Vec<Point>,
    pub overlay_path: Option<Vec<LayerId>>,
}

/// A shape with its path and anchors as sequences.
pub struct VectorShapeView {
    pub layer_path: Seq<LayerId>,
    pub anchors: Seq<Point>,
    pub overlay_path: Option<Seq<LayerId>>,
}

impl View for VectorShape {
    type V = VectorShapeView;

    open spec fn view(&self) -> VectorShapeView {
        VectorShapeView {
            layer_path: self.layer_path@,
            anchors: self.anchors@,
            overlay_path: match self.overlay_path {
                Some(path) => Some(path@),
                None => None,
            },
        }
    }
}

/// The shapes of a list, each by its view.
pub open spec fn shape_views(shapes: Seq<VectorShape>) -> Seq<VectorShapeView> {
    shapes.map_values(|shape: VectorShape| shape@)
}

/// Every anchor of every shape lies on the canvas.
pub open spec fn shapes_in_canvas(shapes: Seq<VectorShapeView>) -> bool {
    forall|i: int| 0 <= i < shapes.len() ==> points_in_canvas((#[trigger] shapes[i]).anchors)
}

/// The colours the tools draw with.
#[derive(Clone, Copy, Debug, PartialEq, Eq, Structural)]
pub struct DocumentToolData {
    pub primary_color: Color,
    pub secondary_color: Color,
}

/// What a tool may read of the document during one transition. Hit tests are
/// for the pointer position of the same transition.
#[derive(Clone, Debug, PartialEq, Eq)]
pub struct DocumentMessageHandler {
    pub snapping_enabled: bool,
    pub artboards: Vec<Artboard>,
    /// Bounding boxes of the visible layers.
    pub visible_layer_bounds: Vec<Bounds>,
    /// Artboards under the pointer, the topmost last.
    pub artboards_under_cursor: Vec<Vec<LayerId>>,
    /// Layers under the pointer, the topmost last.
    pub layers_under_cursor: Vec<Vec<LayerId>>,
    /// Where the next new layer goes.
    pub new_layer_path: Vec<LayerId>,
    /// The selected visible vector shapes.
    pub selected_shapes: Vec<VectorShape>,
}

/// The record with its lists and paths as sequences.
pub struct DocumentMessageHandlerView {
    pub snapping_enabled: bool,
    pub artboards: Seq<ArtboardView>,
    pub visible_layer_bounds: Seq<Bounds>,
    pub artboards_under_cursor: Seq<Seq<LayerId>>,
    pub layers_under_cursor: Seq<Seq<LayerId>>,
    pub new_layer_path: Seq<LayerId>,
    pub selected_shapes: Seq<VectorShapeView>,
}

impl View for DocumentMessageHandler {
    type V = DocumentMessageHandlerView;

    open spec fn view(&self) -> DocumentMessageHandlerView {
        DocumentMessageHandlerView {
            snapping_enabled: self.snapping_enabled,
            artboards: artboard_views(self.artboards@),
            visible_layer_bounds: self.visible_layer_bounds@,
            artboards_under_cursor: path_views(self.artboards_under_cursor@),
            layers_under_cursor: path_views(self.layers_under_cursor@),
            new_layer_path: self.new_layer_path@,
            selected_shapes: shape_views(self.selected_shapes@),
        }
    }
}

impl DocumentMessageHandlerView {
    /// All the geometry of the document lies on the canvas.
    pub open spec fn wf(self) -> bool {
        &&& boxes_in_canvas(self.visible_layer_bounds)
        &&& forall|i: int|
            0 <= i < self.artboards.len() ==> bounds_in_canvas((#[trigger] self.artboards[i]).bounds)
        &&& shapes_in_canvas(self.selected_shapes)
    }
}

/// Every box of the list lies on the canvas.
pub open spec fn boxes_in_canvas(boxes: Seq<Bounds>) -> bool {
    forall|i: int| 0 <= i < boxes.len() ==> bounds_in_canvas(#[trigger] boxes[i])
}

/// Every point of the list lies on the canvas.
pub open spec fn points_in_canvas(points: Seq<Point>) -> bool {
    forall|i: int| 0 <= i < points.len() ==> (#[trigger] points[i]).in_canvas()
}

/// The box of the first artboard at or after `from` whose path is `path`.
pub open spec fn artboard_bounds_from(
    artboards: Seq<ArtboardView>,
    path: Seq<LayerId>,
    from: int,
) -> Option<Bounds>
    decreases artboards.len() - from,
{
    if from < 0 || from >= artboards.len() {
        None
    } else if artboards[from].path == path {
        Some(artboards[from].bounds)
    } else {
        artboard_bounds_from(artboards, path, from + 1)
    }
}

/// The box of the first artboard whose path is `path`.
pub open spec fn artboard_bounds(artboards: Seq<ArtboardView>, path: Seq<LayerId>) -> Option<Bounds> {
    artboard_bounds_from(artboards, path, 0)
}

/// The last path of the list: the topmost hit of a hit test.
pub open spec fn topmost(paths: Seq<Seq<LayerId>>) -> Option<Seq<LayerId>> {
    if paths.len() == 0 {
        None
    } else {
        Some(paths.last())
    }
}

/// Whether two layer paths name the same layer.
pub fn paths_equal(a: &Vec<LayerId>, b: &Vec<LayerId>) -> (same: bool)
    ensures
        same == (a@ == b@),
{
    if a.len() != b.len() {
        return false;
    }
    let mut index: usize = 0;
    while index < a.len()
        invariant
            index <= a.len(),
            a.len() == b.len(),
            forall|i: int| 0 <= i < index ==> a[i] == b[i],
        decreases a.len() - index,
    {
        if a[index] != b[index] {
            return false;
        }
        index = index + 1;
    }
    assert(a@ =~= b@);
    true
}

/// A copy of a layer path.
pub fn clone_path(path: &Vec<LayerId>) -> (copy: Vec<LayerId>)
    ensures
        copy@ == path@,
{
    let copy = path.clone();
    assert(copy@ =~= path@);
    copy
}

/// A copy of a list of layer paths.
pub fn clone_paths(paths: &Vec<Vec<LayerId>>) -> (copy: Vec<Vec<LayerId>>)
    ensures
        path_views(copy@) == path_views(paths@),
{
    let mut copy: Vec<Vec<LayerId>> = Vec::new();
    let mut index: usize = 0;
    while index < paths.len()
        invariant
            index <= paths.len(),
            path_views(copy@) == path_views(paths@).take(index as int),
        decreases paths.len() - index,
    {
        let ghost seen = path_views(copy@);
        let path = paths[index].clone();
        assert(path@ =~= paths[index as int]@);
        copy.push(path);
        proof {
            assert(path_views(paths@)[index as int] == path@);
            assert(path_views(copy@) =~= seen.push(path@));
            assert(path_views(paths@).take(index + 1) =~= seen.push(path@));
        }
        index = index + 1;
    }
    assert(path_views(paths@).take(paths.len() as int) =~= path_views(paths@));
    copy
}

impl DocumentMessageHandler {
    /// All the geometry of the document lies on the canvas.
    pub open spec fn wf(self) -> bool {
        self@.wf()
    }

    /// Whether all the geometry of the document lies on the canvas.
    pub fn is_wf(&self) -> (valid: bool)
        ensures
            valid == self.wf(),
    {
        let mut index: usize = 0;
        while index < self.visible_layer_bounds.len()
            invariant
                index <= self.visible_layer_bounds.len(),
                boxes_in_canvas(self.visible_layer_bounds@.take(index as int)),
            decreases self.visible_layer_bounds.len() - index,
        {
            let bounds = self.visible_layer_bounds[index];
            if !(bounds[0].is_in_canvas() && bounds[1].is_in_canvas()) {
                return false;
            }
            index = index + 1;
        }
        assert(self.visible_layer_bounds@.take(self.visible_layer_bounds.len() as int)
            =~= self.visible_layer_bounds@);
        let mut index: usize = 0;
        while index < self.artboards.len()
            invariant
                index <= self.artboards.len(),
                boxes_in_canvas(self.visible_layer_bounds@),
                forall|i: int| 0 <= i < index ==> bounds_in_canvas((#[trigger] self.artboards@[i]).bounds),
            decreases self.artboards.len() - index,
        {
            let bounds = self.artboards[index].bounds;
            if !(bounds[0].is_in_canvas() && bounds[1].is_in_canvas()) {
                assert(self@.artboards[index as int] == self.artboards@[index as int]@);
                return false;
            }
            index = index + 1;
        }
        let mut index: usize = 0;
        while index < self.selected_shapes.len()
            invariant
                index <= self.selected_shapes.len(),
                boxes_in_canvas(self.visible_layer_bounds@),
                forall|i: int|
                    0 <= i < self.artboards@.len() ==> bounds_in_canvas(
                        (#[trigger] self.artboards@[i]).bounds,
                    ),
                forall|i: int|
                    0 <= i < index ==> points_in_canvas(
                        (#[trigger] shape_views(self.selected_shapes@)[i]).anchors,
                    ),
            decreases self.selected_shapes.len() - index,
        {
            let anchors = &self.selected_shapes[index].anchors;
            assert(shape_views(self.selected_shapes@)[index as int].anchors == anchors@);
            let mut point: usize = 0;
            while point < anchors.len()
                invariant
                    point <= anchors.len(),
                    index < self.selected_shapes.len(),
                    shape_views(self.selected_shapes@)[index as int].anchors == anchors@,
                    forall|i: int| 0 <= i < point ==> (#[trigger] anchors@[i]).in_canvas(),
                decreases anchors.len() - point,
            {
                if !anchors[point].is_in_canvas() {
                    assert(!points_in_canvas(anchors@));
                    assert(!shapes_in_canvas(shape_views(self.selected_shapes@)));
                    return false;
                }
                point = point + 1;
            }
            index = index + 1;
        }
        proof {
            assert forall|i: int| 0 <= i < self@.artboards.len() implies bounds_in_canvas(
                (#[trigger] self@.artboards[i]).bounds,
            ) by {
                assert(self@.artboards[i] == self.artboards@[i]@);
            }
        }
        true
    }

    /// The box of the artboard at `path`, if there is one.
    pub fn artboard_bounding_box(&self, path: &Vec<LayerId>) -> (bounds: Option<Bounds>)
        ensures
            bounds == artboard_bounds(self@.artboards, path@),
            self.wf() ==> (bounds matches Some(b) ==> bounds_in_canvas(b)),
    {
        let mut index: usize = 0;
        while index < self.artboards.len()
            invariant
                index <= self.artboards.len(),
                artboard_bounds(self@.artboards, path@) == artboard_bounds_from(
                    self@.artboards,
                    path@,
                    index as int,
                ),
            decreases self.artboards.len() - index,
        {
            assert(self@.artboards[index as int] == self.artboards@[index as int]@);
            if paths_equal(&self.artboards[index].path, path) {
                return Some(self.artboards[index].bounds);
            }
            index = index + 1;
        }
        None
    }
}

} // verus!
