//! What the user interface asks for and what it is told.

use vstd::prelude::*;

use crate::clock::{Duration, Instant};
use crate::models::actions::Bound;
use crate::models::stored::{Character, GameMap};

verus! {

#[derive(Clone, Copy, PartialEq, Eq, Debug, Structural)]
pub enum TransparentShapeDifficulty {
    Normal,
    Hard,
}

/// Represents request from UI.
#[derive(Debug)]
pub enum Request {
    UpdateOperation(OperationUpdate),
    CreateMap(String),
    UpdateMap(Option<GameMap>, Option<String>),
    UpdateCharacter(Option<Character>),
    RedetectMinimap,
    StateReceiver,
    KeyReceiver,
    RefreshCaptureHandles,
    QueryCaptureHandles,
    SelectCaptureHandle(Option<usize>),
    QueryTemplate(DetectionTemplate),
    ConvertImageToBase64(Vec<u8>, bool),
    SaveCaptureImage(bool),
    DebugStateReceiver,
    AutoSaveRune(bool),
    AutoRecordLieDetector(bool),
    RecordVideo(bool),
    TestSpinRune,
    TestVioletta,
    TestTransparentShape(TransparentShapeDifficulty),
    TestTransparentShapeFile(String),
}

/// Which [`Request`] a response answers.
#[derive(Clone, Copy, PartialEq, Eq, Debug, Structural)]
pub enum ResponseKind {
    UpdateOperation,
    CreateMap,
    UpdateMap,
    UpdateCharacter,
    RedetectMinimap,
    StateReceiver,
    KeyReceiver,
    RefreshCaptureHandles,
    QueryCaptureHandles,
    SelectCaptureHandle,
    QueryTemplate,
    ConvertImageToBase64,
    SaveCaptureImage,
    DebugStateReceiver,
    AutoSaveRune,
    AutoRecordLieDetector,
    RecordVideo,
    TestSpinRune,
    TestVioletta,
    TestTransparentShape,
    TestTransparentShapeFile,
}

impl Request {
    /// The response that the request is answered with.
    pub open spec fn response(&self) -> ResponseKind {
        match self {
            Request::UpdateOperation(_) => ResponseKind::UpdateOperation,
            Request::CreateMap(_) => ResponseKind::CreateMap,
            Request::UpdateMap(_, _) => ResponseKind::UpdateMap,
            Request::UpdateCharacter(_) => ResponseKind::UpdateCharacter,
            Request::RedetectMinimap => ResponseKind::RedetectMinimap,
            Request::StateReceiver => ResponseKind::StateReceiver,
            Request::KeyReceiver => ResponseKind::KeyReceiver,
            Request::RefreshCaptureHandles => ResponseKind::RefreshCaptureHandles,
            Request::QueryCaptureHandles => ResponseKind::QueryCaptureHandles,
            Request::SelectCaptureHandle(_) => ResponseKind::SelectCaptureHandle,
            Request::QueryTemplate(_) => ResponseKind::QueryTemplate,
            Request::ConvertImageToBase64(_, _) => ResponseKind::ConvertImageToBase64,
            Request::SaveCaptureImage(_) => ResponseKind::SaveCaptureImage,
            Request::DebugStateReceiver => ResponseKind::DebugStateReceiver,
            Request::AutoSaveRune(_) => ResponseKind::AutoSaveRune,
            Request::AutoRecordLieDetector(_) => ResponseKind::AutoRecordLieDetector,
            Request::RecordVideo(_) => ResponseKind::RecordVideo,
            Request::TestSpinRune => ResponseKind::TestSpinRune,
            Request::TestVioletta => ResponseKind::TestVioletta,
            Request::TestTransparentShape(_) => ResponseKind::TestTransparentShape,
            Request::TestTransparentShapeFile(_) => ResponseKind::TestTransparentShapeFile,
        }
    }
}

#[derive(Clone, Copy, PartialEq, Eq, Debug, Structural)]
pub enum DetectionTemplate {
    CashShop,
    ChangeChannel,
    Timer,
    PopupConfirm,
    PopupYes,
    PopupNext,
    PopupEndChat,
    PopupOkNew,
    PopupOkOld,
    PopupCancelNew,
    PopupCancelOld,
    FamiliarsLevelSort,
    FamiliarsSaveButton,
    HexaErdaConversionButton,
    HexaBoosterButton,
    HexaMaxButton,
    HexaConvertButton,
    LieDetectorNew,
    LieDetectorOld,
}

/// The four quads of a bound.
#[derive(Clone, Copy, PartialEq, Eq, Debug, Structural)]
pub enum BoundQuadrant {
    TopLeft,
    TopRight,
    BottomRight,
    BottomLeft,
}

impl BoundQuadrant {
    /// The quad as it is shown.
    pub fn name(&self) -> (res: &'static str)
        ensures
            res@ == match self {
                BoundQuadrant::TopLeft => "TopLeft"@,
                BoundQuadrant::TopRight => "TopRight"@,
                BoundQuadrant::BottomRight => "BottomRight"@,
                BoundQuadrant::BottomLeft => "BottomLeft"@,
            },
    {
        match self {
            BoundQuadrant::TopLeft => "TopLeft",
            BoundQuadrant::TopRight => "TopRight",
            BoundQuadrant::BottomRight => "BottomRight",
            BoundQuadrant::BottomLeft => "BottomLeft",
        }
    }
}

/// A struct for storing debug information.
#[derive(Clone, Copy, PartialEq, Eq, Debug, Structural)]
pub struct DebugState {
    pub is_recording: bool,
    pub is_rune_auto_saving: bool,
    pub is_lie_detector_auto_recording: bool,
}

impl Default for DebugState {
    fn default() -> (res: Self)
        ensures
            !res.is_recording && !res.is_rune_auto_saving && !res.is_lie_detector_auto_recording,
    {
        DebugState {
            is_recording: false,
            is_rune_auto_saving: false,
            is_lie_detector_auto_recording: false,
        }
    }
}

/// A struct for storing current's bot state information.
#[derive(Clone, Debug)]
pub struct State {
    pub position: Option<(i32, i32)>,
    pub health: Option<(u32, u32)>,
    pub state: String,
    pub normal_action: Option<String>,
    pub priority_action: Option<String>,
    pub erda_shower_state: String,
    pub input_state: String,
    pub gpu_enabled: bool,
    pub lie_detector_count: u64,
    pub total_runtime: Duration,
    pub destinations: Vec<(i32, i32)>,
    pub operation: Operation,
    pub frame: Option<(Vec<u8>, usize, usize)>,
    pub portals: Vec<Bound>,
    pub auto_mob_quadrant: Option<BoundQuadrant>,
}

#[derive(Clone, Copy, PartialEq, Eq, Debug, Structural)]
pub enum Operation {
    Halting,
    TemporaryHalting(Duration),
    Running,
    RunUntil(Instant),
}

#[derive(Clone, Copy, PartialEq, Eq, Debug, Structural)]
pub enum OperationUpdate {
    Halt,
    TemporaryHalt,
    Run,
}

/// Every request is answered with the response of its own kind, and with no other.
pub proof fn law_requests_are_answered_in_kind(request: &Request)
    ensures
        *request is UpdateOperation <==> request.response() is UpdateOperation,
        *request is CreateMap <==> request.response() is CreateMap,
        *request is UpdateMap <==> request.response() is UpdateMap,
        *request is UpdateCharacter <==> request.response() is UpdateCharacter,
        *request is RedetectMinimap <==> request.response() is RedetectMinimap,
        *request is StateReceiver <==> request.response() is StateReceiver,
        *request is KeyReceiver <==> request.response() is KeyReceiver,
        *request is RefreshCaptureHandles <==> request.response() is RefreshCaptureHandles,
        *request is QueryCaptureHandles <==> request.response() is QueryCaptureHandles,
        *request is SelectCaptureHandle <==> request.response() is SelectCaptureHandle,
        *request is QueryTemplate <==> request.response() is QueryTemplate,
        *request is ConvertImageToBase64 <==> request.response() is ConvertImageToBase64,
        *request is SaveCaptureImage <==> request.response() is SaveCaptureImage,
        *request is DebugStateReceiver <==> request.response() is DebugStateReceiver,
        *request is AutoSaveRune <==> request.response() is AutoSaveRune,
        *request is AutoRecordLieDetector <==> request.response() is AutoRecordLieDetector,
        *request is RecordVideo <==> request.response() is RecordVideo,
        *request is TestSpinRune <==> request.response() is TestSpinRune,
        *request is TestVioletta <==> request.response() is TestVioletta,
        *request is TestTransparentShape <==> request.response() is TestTransparentShape,
        *request is TestTransparentShapeFile <==> request.response() is TestTransparentShapeFile,
{
}

} // verus!
