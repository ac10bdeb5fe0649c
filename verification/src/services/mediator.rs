//! Requests of the user interface and the state that it is shown.

use vstd::prelude::*;

use crate::api::{
    BoundQuadrant, DetectionTemplate, Operation, OperationUpdate, Request, ResponseKind, State,
    TransparentShapeDifficulty,
};
use crate::ecs::{Minimap, OperationState, Resources, World};
use crate::geometry::{Point, Rect};
use crate::models::actions::Bound;
use crate::models::stored::copy;
use crate::player::context::Quadrant;

verus! {

/// Something to be done by a service.
#[derive(Clone, Copy, PartialEq, Eq, Debug, Structural)]
pub enum ServiceCommand {
    UpdateOperation(OperationUpdate),
    /// Creates a map from what is seen, under the name of the request.
    CreateMap,
    /// Selects the map and the preset of the request.
    SelectMap,
    ApplyMap,
    /// Builds the rotation from the selected map.
    RotateMap,
    /// Selects the character of the request.
    SelectCharacter,
    ApplyCharacter,
    /// Builds the rotation from the selected character.
    RotateCharacter,
    /// Enables the buffs of the selected character, if there is one.
    UpdateBuffs,
    /// Hands what was built to the rotator.
    ApplyRotation,
    RedetectMinimap,
    SubscribeState,
    SubscribeKey,
    UpdateWindows,
    SelectWindow(Option<usize>),
    /// Captures the selected window from now on.
    CaptureWindow,
    /// Sends inputs to the selected window from now on.
    InputToWindow,
    QueryWindows,
    QueryTemplate(DetectionTemplate),
    /// Converts the image of the request.
    ConvertImage(bool),
    SaveCaptureImage(bool),
    SubscribeDebugState,
    RecordVideo(bool),
    TestSpinRune,
    TestVioletta,
    TestTransparentShape(TransparentShapeDifficulty),
    /// Tries out the video of the request.
    TestTransparentShapeFile,
}

/// What a window is to be used for once it is selected.
pub open spec fn window_commands(index: Option<usize>) -> Seq<ServiceCommand> {
    seq![
        ServiceCommand::SelectWindow(index),
        ServiceCommand::CaptureWindow,
        ServiceCommand::InputToWindow,
    ]
}

/// What is done for a request, in order.
pub open spec fn request_commands(request: &Request, has_map: bool, has_character: bool) -> Seq<
    ServiceCommand,
> {
    match request {
        Request::UpdateOperation(update) => if has_map && has_character {
            seq![ServiceCommand::UpdateOperation(*update)]
        } else {
            seq![]
        },
        Request::CreateMap(_) => seq![ServiceCommand::CreateMap],
        Request::UpdateMap(_, _) => seq![
            ServiceCommand::SelectMap,
            ServiceCommand::ApplyMap,
            ServiceCommand::RotateMap,
            ServiceCommand::ApplyRotation,
        ],
        Request::UpdateCharacter(_) => seq![
            ServiceCommand::SelectCharacter,
            ServiceCommand::ApplyCharacter,
            ServiceCommand::RotateCharacter,
            ServiceCommand::UpdateBuffs,
            ServiceCommand::ApplyRotation,
        ],
        Request::RedetectMinimap => seq![ServiceCommand::RedetectMinimap],
        Request::StateReceiver => seq![ServiceCommand::SubscribeState],
        Request::KeyReceiver => seq![ServiceCommand::SubscribeKey],
        Request::RefreshCaptureHandles => seq![ServiceCommand::UpdateWindows] + window_commands(
            None,
        ),
        Request::QueryCaptureHandles => seq![ServiceCommand::QueryWindows],
        Request::SelectCaptureHandle(index) => window_commands(*index),
        Request::QueryTemplate(template) => seq![ServiceCommand::QueryTemplate(*template)],
        Request::ConvertImageToBase64(_, is_grayscale) => seq![
            ServiceCommand::ConvertImage(*is_grayscale),
        ],
        Request::SaveCaptureImage(is_grayscale) => seq![
            ServiceCommand::SaveCaptureImage(*is_grayscale),
        ],
        Request::DebugStateReceiver => seq![ServiceCommand::SubscribeDebugState],
        Request::AutoSaveRune(_) | Request::AutoRecordLieDetector(_) => seq![],
        Request::RecordVideo(start) => seq![ServiceCommand::RecordVideo(*start)],
        Request::TestSpinRune => seq![ServiceCommand::TestSpinRune],
        Request::TestVioletta => seq![ServiceCommand::TestVioletta],
        Request::TestTransparentShape(difficulty) => seq![
            ServiceCommand::TestTransparentShape(*difficulty),
        ],
        Request::TestTransparentShapeFile(_) => seq![ServiceCommand::TestTransparentShapeFile],
    }
}

/// What is done to the settings for debugging.
pub open spec fn debug_after(debug: crate::ecs::Debug, request: &Request) -> crate::ecs::Debug {
    match request {
        Request::AutoSaveRune(auto_save) => crate::ecs::Debug { auto_save_rune: *auto_save, ..debug },
        Request::AutoRecordLieDetector(auto_record) => crate::ecs::Debug {
            auto_record_lie_detector: *auto_record,
            ..debug
        },
        _ => debug,
    }
}

/// The operation is left alone as long as no map or no character is selected.
fn update_operation(
    commands: &mut Vec<ServiceCommand>,
    update: OperationUpdate,
    has_map: bool,
    has_character: bool,
)
    requires
        old(commands)@.len() == 0,
    ensures
        final(commands)@ == if has_map && has_character {
            seq![ServiceCommand::UpdateOperation(update)]
        } else {
            seq![]
        },
{
    if !has_map || !has_character {
        return;
    }
    commands.push(ServiceCommand::UpdateOperation(update));
}

fn update_map(commands: &mut Vec<ServiceCommand>)
    requires
        old(commands)@.len() == 0,
    ensures
        final(commands)@ == seq![
            ServiceCommand::SelectMap,
            ServiceCommand::ApplyMap,
            ServiceCommand::RotateMap,
            ServiceCommand::ApplyRotation,
        ],
{
    commands.push(ServiceCommand::SelectMap);
    commands.push(ServiceCommand::ApplyMap);
    commands.push(ServiceCommand::RotateMap);
    commands.push(ServiceCommand::ApplyRotation);
}

fn update_character(commands: &mut Vec<ServiceCommand>)
    requires
        old(commands)@.len() == 0,
    ensures
        final(commands)@ == seq![
            ServiceCommand::SelectCharacter,
            ServiceCommand::ApplyCharacter,
            ServiceCommand::RotateCharacter,
            ServiceCommand::UpdateBuffs,
            ServiceCommand::ApplyRotation,
        ],
{
    commands.push(ServiceCommand::SelectCharacter);
    commands.push(ServiceCommand::ApplyCharacter);
    commands.push(ServiceCommand::RotateCharacter);
    commands.push(ServiceCommand::UpdateBuffs);
    commands.push(ServiceCommand::ApplyRotation);
}

fn select_capture_handle(commands: &mut Vec<ServiceCommand>, index: Option<usize>)
    ensures
        final(commands)@ == old(commands)@ + window_commands(index),
{
    commands.push(ServiceCommand::SelectWindow(index));
    commands.push(ServiceCommand::CaptureWindow);
    commands.push(ServiceCommand::InputToWindow);
    assert(commands@ =~= old(commands)@ + window_commands(index));
}

fn refresh_capture_handles(commands: &mut Vec<ServiceCommand>)
    requires
        old(commands)@.len() == 0,
    ensures
        final(commands)@ == seq![ServiceCommand::UpdateWindows] + window_commands(None),
{
    commands.push(ServiceCommand::UpdateWindows);
    assert(commands@ =~= seq![ServiceCommand::UpdateWindows]);
    select_capture_handle(commands, None);
}

/// Handles a request: returns which response it is answered with and what the services are to do
/// for it, in order.
pub fn handle_ui_request(
    request: &Request,
    has_map: bool,
    has_character: bool,
    debug: &mut crate::ecs::Debug,
) -> (res: (ResponseKind, Vec<ServiceCommand>))
    ensures
        res.0 == request.response(),
        res.1@ == request_commands(request, has_map, has_character),
        *final(debug) == debug_after(*old(debug), request),
{
    let mut commands: Vec<ServiceCommand> = Vec::new();
    let response: ResponseKind = match request {
        Request::UpdateOperation(update) => {
            update_operation(&mut commands, *update, has_map, has_character);
            ResponseKind::UpdateOperation
        },
        Request::CreateMap(_) => {
            commands.push(ServiceCommand::CreateMap);
            ResponseKind::CreateMap
        },
        Request::UpdateMap(_, _) => {
            update_map(&mut commands);
            ResponseKind::UpdateMap
        },
        Request::UpdateCharacter(_) => {
            update_character(&mut commands);
            ResponseKind::UpdateCharacter
        },
        Request::RedetectMinimap => {
            commands.push(ServiceCommand::RedetectMinimap);
            ResponseKind::RedetectMinimap
        },
        Request::StateReceiver => {
            commands.push(ServiceCommand::SubscribeState);
            ResponseKind::StateReceiver
        },
        Request::KeyReceiver => {
            commands.push(ServiceCommand::SubscribeKey);
            ResponseKind::KeyReceiver
        },
        Request::RefreshCaptureHandles => {
            refresh_capture_handles(&mut commands);
            ResponseKind::RefreshCaptureHandles
        },
        Request::QueryCaptureHandles => {
            commands.push(ServiceCommand::QueryWindows);
            ResponseKind::QueryCaptureHandles
        },
        Request::SelectCaptureHandle(index) => {
            select_capture_handle(&mut commands, *index);
            ResponseKind::SelectCaptureHandle
        },
        Request::QueryTemplate(template) => {
            commands.push(ServiceCommand::QueryTemplate(*template));
            ResponseKind::QueryTemplate
        },
        Request::ConvertImageToBase64(_, is_grayscale) => {
            commands.push(ServiceCommand::ConvertImage(*is_grayscale));
            ResponseKind::ConvertImageToBase64
        },
        Request::SaveCaptureImage(is_grayscale) => {
            commands.push(ServiceCommand::SaveCaptureImage(*is_grayscale));
            ResponseKind::SaveCaptureImage
        },
        Request::DebugStateReceiver => {
            commands.push(ServiceCommand::SubscribeDebugState);
            ResponseKind::DebugStateReceiver
        },
        Request::AutoSaveRune(auto_save) => {
            debug.auto_save_rune = *auto_save;
            ResponseKind::AutoSaveRune
        },
        Request::AutoRecordLieDetector(auto_record) => {
            debug.auto_record_lie_detector = *auto_record;
            ResponseKind::AutoRecordLieDetector
        },
        Request::RecordVideo(start) => {
            commands.push(ServiceCommand::RecordVideo(*start));
            ResponseKind::RecordVideo
        },
        Request::TestSpinRune => {
            commands.push(ServiceCommand::TestSpinRune);
            ResponseKind::TestSpinRune
        },
        Request::TestVioletta => {
            commands.push(ServiceCommand::TestVioletta);
            ResponseKind::TestVioletta
        },
        Request::TestTransparentShape(difficulty) => {
            commands.push(ServiceCommand::TestTransparentShape(*difficulty));
            ResponseKind::TestTransparentShape
        },
        Request::TestTransparentShapeFile(_) => {
            commands.push(ServiceCommand::TestTransparentShapeFile);
            ResponseKind::TestTransparentShapeFile
        },
    };
    assert(commands@ =~= request_commands(request, has_map, has_character));
    (response, commands)
}

/// What is known of the player besides its state, and what is shown as text.
#[derive(Debug)]
pub struct Shown {
    pub health: Option<(u32, u32)>,
    pub state: String,
    pub normal_action: Option<String>,
    pub priority_action: Option<String>,
    pub erda_shower_state: String,
    pub input_state: String,
    pub gpu_enabled: bool,
    pub frame: Option<(Vec<u8>, usize, usize)>,
}

/// The operation as it is shown.
pub open spec fn operation_shown(state: OperationState) -> Operation {
    match state {
        OperationState::TemporaryHalting(resume) => Operation::TemporaryHalting(resume),
        OperationState::Halting => Operation::Halting,
        OperationState::Running => Operation::Running,
        OperationState::RunUntil(instant) => Operation::RunUntil(instant),
    }
}

pub open spec fn quadrant_shown(quadrant: Option<Quadrant>) -> Option<BoundQuadrant> {
    match quadrant {
        None => None,
        Some(Quadrant::TopLeft) => Some(BoundQuadrant::TopLeft),
        Some(Quadrant::TopRight) => Some(BoundQuadrant::TopRight),
        Some(Quadrant::BottomRight) => Some(BoundQuadrant::BottomRight),
        Some(Quadrant::BottomLeft) => Some(BoundQuadrant::BottomLeft),
    }
}

/// The places that the player was last on its way to, if it was on its way, as coordinates.
pub open spec fn destinations_shown(destinations: Option<Vec<Point>>) -> Seq<(i32, i32)> {
    match destinations {
        Some(points) => Seq::new(points@.len(), |i: int| (points@[i].x, points@[i].y)),
        None => seq![],
    }
}

fn show_destinations(destinations: &Option<Vec<Point>>) -> (res: Vec<(i32, i32)>)
    ensures
        res@ == destinations_shown(*destinations),
{
    let mut res: Vec<(i32, i32)> = Vec::new();
    if let Some(points) = destinations {
        let mut i: usize = 0;
        while i < points.len()
            invariant
                i <= points@.len(),
                *destinations == Some(*points),
                res@ =~= destinations_shown(*destinations).take(i as int),
            decreases points@.len() - i,
        {
            res.push((points[i].x, points[i].y));
            i = i + 1;
        }
    }
    assert(res@ =~= destinations_shown(*destinations));
    res
}

/// The state that the user interface is shown. A new one is made only once the last one was
/// picked up.
pub fn broadcast_state(resources: &Resources, world: &World, shown: Shown, picked_up: bool) -> (res:
    Option<State>)
    ensures
        res is Some <==> picked_up,
        res matches Some(state) ==> {
            &&& state.position == match world.player.context.last_known_pos {
                Some(pos) => Some((pos.x, pos.y)),
                None => None,
            }
            &&& state.lie_detector_count == resources.lie_detector_count
            &&& state.total_runtime == resources.total_runtime
            &&& state.operation == operation_shown(resources.operation)
            &&& state.portals@ == if world.minimap.state is Idle {
                world.minimap.portals@
            } else {
                seq![]
            }
            &&& state.auto_mob_quadrant == quadrant_shown(
                world.player.context.auto_mob_last_quadrant,
            )
            &&& state.frame == if world.minimap.state is Idle && resources.detector is Some {
                shown.frame
            } else {
                None
            }
            &&& state.health == shown.health
            &&& state.state == shown.state
            &&& state.normal_action == shown.normal_action
            &&& state.priority_action == shown.priority_action
            &&& state.erda_shower_state == shown.erda_shower_state
            &&& state.input_state == shown.input_state
            &&& state.gpu_enabled == shown.gpu_enabled
            &&& state.destinations@ == destinations_shown(world.player.last_destinations)
        },
{
    if !picked_up {
        return None;
    }
    let position: Option<(i32, i32)> = match world.player.context.last_known_pos {
        Some(pos) => Some((pos.x, pos.y)),
        None => None,
    };
    let idle: bool = matches!(world.minimap.state, Minimap::Idle(_));
    let portals: Vec<Bound> = if idle {
        copy(&world.minimap.portals)
    } else {
        Vec::new()
    };
    let operation: Operation = match resources.operation {
        OperationState::TemporaryHalting(resume) => Operation::TemporaryHalting(resume),
        OperationState::Halting => Operation::Halting,
        OperationState::Running => Operation::Running,
        OperationState::RunUntil(instant) => Operation::RunUntil(instant),
    };
    let auto_mob_quadrant: Option<BoundQuadrant> =
        match world.player.context.auto_mob_last_quadrant {
        None => None,
        Some(Quadrant::TopLeft) => Some(BoundQuadrant::TopLeft),
        Some(Quadrant::TopRight) => Some(BoundQuadrant::TopRight),
        Some(Quadrant::BottomRight) => Some(BoundQuadrant::BottomRight),
        Some(Quadrant::BottomLeft) => Some(BoundQuadrant::BottomLeft),
    };
    let frame: Option<(Vec<u8>, usize, usize)> = if idle && resources.detector.is_some() {
        shown.frame
    } else {
        None
    };
    Some(
        State {
            position,
            health: shown.health,
            state: shown.state,
            normal_action: shown.normal_action,
            priority_action: shown.priority_action,
            erda_shower_state: shown.erda_shower_state,
            input_state: shown.input_state,
            gpu_enabled: shown.gpu_enabled,
            lie_detector_count: resources.lie_detector_count,
            total_runtime: resources.total_runtime,
            destinations: show_destinations(&world.player.last_destinations),
            operation,
            frame,
            portals,
            auto_mob_quadrant,
        },
    )
}

/// A channel of a pixel of a picture that has four of them, stored row by row.
pub open spec fn channel(picture: Seq<u8>, width: int, x: int, y: int, k: int) -> u8 {
    picture[(y * width + x) * 4 + k]
}

/// A channel in the order red, green, blue, alpha of a pixel of an opaque picture that is stored in
/// the order blue, green, red, alpha.
pub open spec fn rgba_channel(bgra: Seq<u8>, width: int, x: int, y: int, k: int) -> u8 {
    if k < 3 {
        channel(bgra, width, x, y, 2 - k)
    } else {
        255
    }
}

/// Whether a box lies inside of a picture.
pub open spec fn lies_inside(bbox: Rect, width: int, height: int) -> bool {
    &&& 0 <= bbox.x
    &&& 0 <= bbox.y
    &&& 0 <= bbox.width
    &&& 0 <= bbox.height
    &&& bbox.x + bbox.width <= width
    &&& bbox.y + bbox.height <= height
}

/// Whether the first pixels of a part of a picture, up to column `c` of row `r`, are in place.
pub open spec fn is_part(
    rgba: Seq<u8>,
    bgra: Seq<u8>,
    width: int,
    bbox: Rect,
    c: int,
    r: int,
) -> bool {
    forall|x: int, y: int, k: int|
        0 <= x < bbox.width && (0 <= y < r || y == r && x < c) && 0 <= k < 4
            ==> #[trigger] channel(rgba, bbox.width as int, x, y, k) == rgba_channel(
            bgra,
            width,
            bbox.x + x,
            bbox.y + y,
            k,
        )
}

proof fn lemma_pixel_fits(x: int, y: int, width: int, height: int)
    requires
        0 <= x < width,
        0 <= y < height,
    ensures
        0 <= y * width <= y * width + x < width * height,
{
    assert(0 <= y * width) by (nonlinear_arith)
        requires
            0 <= y,
            0 < width,
    ;
    assert(y * width + x < width * height) by (nonlinear_arith)
        requires
            0 <= x < width,
            0 <= y < height,
    ;
}

proof fn lemma_pushed_pixel(
    before: Seq<u8>,
    after: Seq<u8>,
    bgra: Seq<u8>,
    width: int,
    bbox: Rect,
    c: int,
    r: int,
)
    requires
        0 <= c < bbox.width,
        0 <= r,
        before.len() == (r * bbox.width + c) * 4,
        after.len() == before.len() + 4,
        after.take(before.len() as int) == before,
        forall|k: int|
            0 <= k < 4 ==> #[trigger] after[before.len() + k] == rgba_channel(
                bgra,
                width,
                bbox.x + c,
                bbox.y + r,
                k,
            ),
        is_part(before, bgra, width, bbox, c, r),
    ensures
        is_part(after, bgra, width, bbox, c + 1, r),
{
    let w = bbox.width as int;
    assert forall|x: int, y: int, k: int|
        0 <= x < w && (0 <= y < r || y == r && x < c + 1) && 0 <= k < 4 implies #[trigger] channel(
        after,
        w,
        x,
        y,
        k,
    ) == rgba_channel(bgra, width, bbox.x + x, bbox.y + y, k) by {
        if y == r && x == c {
            assert(after[before.len() + k] == channel(after, w, x, y, k));
        } else {
            assert(0 <= y * w + x < r * w + c) by (nonlinear_arith)
                requires
                    0 <= x < w,
                    0 <= c,
                    0 <= y,
                    y < r || y == r && x < c,
            ;
            let i = (y * w + x) * 4 + k;
            assert(after.take(before.len() as int)[i] == after[i]);
            assert(channel(before, w, x, y, k) == channel(after, w, x, y, k));
        }
    }
}

/// The minimap as it is shown, cut out of the pixels of a captured frame.
pub fn minimap_frame_from(bbox: Rect, width: usize, height: usize, bgra: &Vec<u8>) -> (res: (
    Vec<u8>,
    usize,
    usize,
))
    requires
        lies_inside(bbox, width as int, height as int),
        bgra@.len() == width * height * 4,
    ensures
        res.0@.len() == bbox.width * bbox.height * 4,
        is_part(res.0@, bgra@, width as int, bbox, 0, bbox.height as int),
        res.1 == bbox.width,
        res.2 == bbox.height,
{
    let (left, top): (usize, usize) = (bbox.x as usize, bbox.y as usize);
    let (columns, rows): (usize, usize) = (bbox.width as usize, bbox.height as usize);
    let mut rgba: Vec<u8> = Vec::new();
    let mut r: usize = 0;
    assert(0 * columns == 0) by (nonlinear_arith);
    while r < rows
        invariant
            r <= rows,
            left == bbox.x,
            top == bbox.y,
            columns == bbox.width,
            rows == bbox.height,
            lies_inside(bbox, width as int, height as int),
            bgra@.len() == width * height * 4,
            rgba@.len() == r * columns * 4,
            is_part(rgba@, bgra@, width as int, bbox, 0, r as int),
        decreases rows - r,
    {
        let mut c: usize = 0;
        while c < columns
            invariant
                r < rows,
                c <= columns,
                left == bbox.x,
                top == bbox.y,
                columns == bbox.width,
                rows == bbox.height,
                lies_inside(bbox, width as int, height as int),
                bgra@.len() == width * height * 4,
                rgba@.len() == (r * columns + c) * 4,
                is_part(rgba@, bgra@, width as int, bbox, c as int, r as int),
            decreases columns - c,
        {
            proof {
                lemma_pixel_fits(left + c, top + r, width as int, height as int);
            }
            assert(width * height * 4 == bgra.len());
            let ghost before = rgba@;
            let at: usize = ((top + r) * width + left + c) * 4;
            assert(at == ((top + r) * width + (left + c)) * 4);
            rgba.push(bgra[at + 2]);
            rgba.push(bgra[at + 1]);
            rgba.push(bgra[at]);
            rgba.push(255);
            proof {
                assert(rgba@.take(before.len() as int) =~= before);
                assert forall|k: int| 0 <= k < 4 implies #[trigger] rgba@[before.len() + k]
                    == rgba_channel(bgra@, width as int, bbox.x + c, bbox.y + r, k) by {}
                lemma_pushed_pixel(
                    before,
                    rgba@,
                    bgra@,
                    width as int,
                    bbox,
                    c as int,
                    r as int,
                );
            }
            c = c + 1;
        }
        assert((r + 1) * columns == r * columns + columns) by (nonlinear_arith);
        r = r + 1;
    }
    assert(rows * columns == columns * rows) by (nonlinear_arith);
    (rgba, columns, rows)
}

/// Only the flags for debugging are changed by a request itself, and never both of them.
pub proof fn law_requests_change_one_flag_at_most(debug: crate::ecs::Debug, request: &Request)
    ensures
        ({
            let after = debug_after(debug, request);
            &&& after.last_rune_detector == debug.last_rune_detector
            &&& after.last_rune_result == debug.last_rune_result
            &&& after.auto_save_rune == debug.auto_save_rune || after.auto_record_lie_detector
                == debug.auto_record_lie_detector
        }),
{
}

/// An operation is never started without both a map and a character.
pub proof fn law_operation_needs_map_and_character(
    update: OperationUpdate,
    has_map: bool,
    has_character: bool,
)
    requires
        !has_map || !has_character,
    ensures
        request_commands(
            &Request::UpdateOperation(update),
            has_map,
            has_character,
        ).len() == 0,
{
}

/// A map is selected and applied before the rotation is built from it, and only then is the rotation
/// handed on. So it is with a character, whose buffs are enabled before that as well.
pub proof fn law_rotation_is_built_from_what_is_selected(
    request: &Request,
    has_map: bool,
    has_character: bool,
)
    ensures
        ({
            let commands = request_commands(request, has_map, has_character);
            &&& *request is UpdateMap ==> {
                &&& commands.len() == 4
                &&& commands[0] is SelectMap
                &&& commands[1] is ApplyMap
                &&& commands[2] is RotateMap
                &&& commands[3] is ApplyRotation
            }
            &&& *request is UpdateCharacter ==> {
                &&& commands.len() == 5
                &&& commands[0] is SelectCharacter
                &&& commands[1] is ApplyCharacter
                &&& commands[2] is RotateCharacter
                &&& commands[3] is UpdateBuffs
                &&& commands[4] is ApplyRotation
            }
            &&& forall|i: int|
                0 <= i < commands.len() && ((#[trigger] commands[i]) is ApplyRotation
                    || commands[i] is SelectMap || commands[i] is ApplyMap || commands[i]
                    is RotateMap || commands[i] is SelectCharacter || commands[i]
                    is ApplyCharacter || commands[i] is RotateCharacter || commands[i]
                    is UpdateBuffs) ==> *request is UpdateMap || *request is UpdateCharacter
        }),
{
}

/// A window that is selected is captured and receives the inputs. Where the windows are looked for
/// again none is selected any longer.
pub proof fn law_selected_window_is_captured_and_receives_inputs(
    request: &Request,
    has_map: bool,
    has_character: bool,
)
    ensures
        ({
            let commands = request_commands(request, has_map, has_character);
            &&& *request matches Request::SelectCaptureHandle(index) ==> {
                &&& commands.len() == 3
                &&& commands[0] == ServiceCommand::SelectWindow(index)
                &&& commands[1] is CaptureWindow
                &&& commands[2] is InputToWindow
            }
            &&& *request is RefreshCaptureHandles ==> {
                &&& commands.len() == 4
                &&& commands[0] is UpdateWindows
                &&& commands[1] == ServiceCommand::SelectWindow(None)
                &&& commands[2] is CaptureWindow
                &&& commands[3] is InputToWindow
            }
            &&& forall|i: int|
                0 <= i < commands.len() && ((#[trigger] commands[i]) is SelectWindow || commands[i]
                    is CaptureWindow || commands[i] is InputToWindow || commands[i]
                    is UpdateWindows) ==> *request is SelectCaptureHandle || *request
                    is RefreshCaptureHandles
        }),
{
}

/// An operation is updated as it was asked for, given a map and a character. Every other request that
/// takes one step takes its own, with what was asked for, and those for the flags take none.
pub proof fn law_requests_are_carried_out_as_asked(
    request: &Request,
    has_map: bool,
    has_character: bool,
)
    ensures
        ({
            let commands = request_commands(request, has_map, has_character);
            match *request {
                Request::UpdateOperation(update) => if has_map && has_character {
                    commands.len() == 1 && commands[0] == ServiceCommand::UpdateOperation(update)
                } else {
                    commands.len() == 0
                },
                Request::UpdateMap(_, _) => commands.len() == 4,
                Request::UpdateCharacter(_) => commands.len() == 5,
                Request::RefreshCaptureHandles => commands.len() == 4,
                Request::SelectCaptureHandle(_) => commands.len() == 3,
                Request::AutoSaveRune(_) => commands.len() == 0,
                Request::AutoRecordLieDetector(_) => commands.len() == 0,
                single => {
                    &&& commands.len() == 1
                    &&& commands[0] is CreateMap <==> single is CreateMap
                    &&& commands[0] is RedetectMinimap <==> single is RedetectMinimap
                    &&& commands[0] is SubscribeState <==> single is StateReceiver
                    &&& commands[0] is SubscribeKey <==> single is KeyReceiver
                    &&& commands[0] is QueryWindows <==> single is QueryCaptureHandles
                    &&& commands[0] is SubscribeDebugState <==> single is DebugStateReceiver
                    &&& commands[0] is TestSpinRune <==> single is TestSpinRune
                    &&& commands[0] is TestVioletta <==> single is TestVioletta
                    &&& commands[0] is TestTransparentShapeFile <==> single
                        is TestTransparentShapeFile
                    &&& single matches Request::QueryTemplate(template) ==> commands[0]
                        == ServiceCommand::QueryTemplate(template)
                    &&& single matches Request::ConvertImageToBase64(_, grayscale) ==> commands[0]
                        == ServiceCommand::ConvertImage(grayscale)
                    &&& single matches Request::SaveCaptureImage(grayscale) ==> commands[0]
                        == ServiceCommand::SaveCaptureImage(grayscale)
                    &&& single matches Request::RecordVideo(start) ==> commands[0]
                        == ServiceCommand::RecordVideo(start)
                    &&& single matches Request::TestTransparentShape(difficulty) ==> commands[0]
                        == ServiceCommand::TestTransparentShape(difficulty)
                },
            }
        }),
{
}

/// Each flag for debugging is what was asked for last.
pub proof fn law_flags_are_set_as_asked(debug: crate::ecs::Debug, request: &Request)
    ensures
        debug_after(debug, request).auto_save_rune == match *request {
            Request::AutoSaveRune(save) => save,
            _ => debug.auto_save_rune,
        },
        debug_after(debug, request).auto_record_lie_detector == match *request {
            Request::AutoRecordLieDetector(record) => record,
            _ => debug.auto_record_lie_detector,
        },
{
}

/// The operation, the quadrant and the destinations are shown as they are.
pub proof fn law_state_is_shown_as_it_is(
    state: OperationState,
    quadrant: Option<Quadrant>,
    destinations: Option<Vec<Point>>,
)
    ensures
        operation_shown(state) is Halting <==> state is Halting,
        operation_shown(state) is Running <==> state is Running,
        state matches OperationState::TemporaryHalting(left) ==> operation_shown(state)
            == Operation::TemporaryHalting(left),
        state matches OperationState::RunUntil(end) ==> operation_shown(state)
            == Operation::RunUntil(end),
        quadrant_shown(quadrant) is None <==> quadrant is None,
        quadrant_shown(quadrant) == Some(BoundQuadrant::TopLeft) <==> quadrant == Some(
            Quadrant::TopLeft,
        ),
        quadrant_shown(quadrant) == Some(BoundQuadrant::TopRight) <==> quadrant == Some(
            Quadrant::TopRight,
        ),
        quadrant_shown(quadrant) == Some(BoundQuadrant::BottomLeft) <==> quadrant == Some(
            Quadrant::BottomLeft,
        ),
        destinations is None ==> destinations_shown(destinations).len() == 0,
        destinations matches Some(points) ==> {
            &&& destinations_shown(destinations).len() == points@.len()
            &&& forall|i: int|
                0 <= i < points@.len() ==> (#[trigger] destinations_shown(destinations)[i])
                    == (points@[i].x, points@[i].y)
        },
{
}

/// Of every pixel of the minimap that is shown, the colors are those of the pixel of the frame that is
/// as far from the corner of the box, with red and blue in each other's place, and it is opaque.
pub proof fn law_shown_pixels_are_those_of_the_frame(
    rgba: Seq<u8>,
    bgra: Seq<u8>,
    width: int,
    bbox: Rect,
    x: int,
    y: int,
)
    requires
        is_part(rgba, bgra, width, bbox, 0, bbox.height as int),
        0 <= x < bbox.width,
        0 <= y < bbox.height,
    ensures
        ({
            let shown = 4 * (y * bbox.width + x);
            let captured = 4 * ((bbox.y + y) * width + (bbox.x + x));
            &&& rgba[shown] == bgra[captured + 2]
            &&& rgba[shown + 1] == bgra[captured + 1]
            &&& rgba[shown + 2] == bgra[captured]
            &&& rgba[shown + 3] == 255
        }),
{
    let w = bbox.width as int;
    assert(channel(rgba, w, x, y, 0) == rgba_channel(bgra, width, bbox.x + x, bbox.y + y, 0));
    assert(channel(rgba, w, x, y, 1) == rgba_channel(bgra, width, bbox.x + x, bbox.y + y, 1));
    assert(channel(rgba, w, x, y, 2) == rgba_channel(bgra, width, bbox.x + x, bbox.y + y, 2));
    assert(channel(rgba, w, x, y, 3) == rgba_channel(bgra, width, bbox.x + x, bbox.y + y, 3));
}

} // verus!
