//! What can be read off a captured frame.

use vstd::prelude::*;

use crate::geometry::Rect;

verus! {

#[derive(Clone, Copy, PartialEq, Eq, Debug, Structural)]
pub enum FamiliarLevel {
    Level5,
    LevelOther,
}

#[derive(Clone, Copy, PartialEq, Eq, Debug, Structural)]
pub enum FamiliarRank {
    Rare,
    Epic,
}

#[derive(Clone, Copy, PartialEq, Eq, Debug, Structural)]
pub enum QuickSlotsHexaBooster {
    Available,
    Unavailable,
}

#[derive(Clone, Copy, PartialEq, Eq, Debug, Structural)]
pub enum SolErda {
    Full,
    AtLeastOne,
    Empty,
}

/// The detections made on one captured frame, as far as they were asked for.
#[derive(Debug)]
pub struct Detector {
    pub lie_detector_shape_preparing: bool,
    /// The title of a transparent shape puzzle.
    pub lie_detector_shape: Option<Rect>,
    pub familiar_menu_opened: bool,
    /// The familiar slots and whether each of them is free.
    pub familiar_slots: Vec<(Rect, bool)>,
    /// Those boxes in which a free slot is seen.
    pub familiar_free_boxes: Vec<Rect>,
    pub familiar_level_button: Option<Rect>,
    /// The level of the familiar under the cursor.
    pub familiar_hover_level: Option<FamiliarLevel>,
    pub familiar_cards: Vec<(Rect, FamiliarRank)>,
    pub familiar_scrollbar: Option<Rect>,
    pub familiar_save_button: Option<Rect>,
}

impl Detector {
    pub open spec fn slot_free(&self, bbox: Rect) -> bool {
        self.familiar_free_boxes@.contains(bbox)
    }

    pub fn detect_familiar_slot_is_free(&self, bbox: Rect) -> (res: bool)
        ensures
            res == self.slot_free(bbox),
    {
        for i in 0..self.familiar_free_boxes.len()
            invariant
                forall|j: int| 0 <= j < i ==> self.familiar_free_boxes@[j] != bbox,
        {
            if self.familiar_free_boxes[i] == bbox {
                assert(self.familiar_free_boxes@[i as int] == bbox);
                return true;
            }
        }
        false
    }
}

} // verus!
