//! Swapping familiars of the highest level for others.

use vstd::prelude::*;

use crate::bridge::{InputCommand, KeyKind, MouseKind};
use crate::detect::{Detector, FamiliarLevel, FamiliarRank};
use crate::ecs::{PlayerEntity, Resources};
use crate::geometry::{mid_point, Point, Rect};
use crate::models::actions::{FamiliarRarities, FamiliarRarity, SwappableFamiliars};
use crate::player::context::next_action;
use crate::player::timeout::{fresh, next_timeout_lifecycle, ticked, Lifecycle, Timeout};
use crate::player::Player;

verus! {

/// Number of familiar slots available.
pub const FAMILIAR_SLOTS: usize = 3;

/// How many cards can be remembered.
pub const FAMILIAR_CARDS: usize = 64;

/// Delay between mouse move and click events during familiar swapping.
/// Gives the game UI time to react to cursor movement before clicking,
/// which is especially important for hardware input devices.
pub const MOUSE_MOVE_CLICK_DELAY_MS: u64 = 100;

pub const OPEN_MENU_TIMEOUT: u32 = 120;

/// The tick in which the familiar menu is opened.
pub const OPEN_MENU_TICK: u32 = 60;

pub const FREE_SLOT_TIMEOUT: u32 = 10;

/// The tick in which a slot is checked for having been freed.
pub const CHECK_FREE_TICK: u32 = 10;

/// The tick in which the level of the familiar in a slot is looked at.
pub const CHECK_LEVEL_TICK: u32 = 5;

/// Timeout for ensuring sorting takes effect.
pub const FIND_CARDS_TIMEOUT: u32 = 5;

/// Checks only for the first fixed number of familiar cards.
pub const MAX_CHECK_COUNT: usize = 10;

pub const SWAPPING_TIMEOUT: u32 = 10;

/// The tick in which the level of the familiar on a card is looked at.
pub const SWAPPING_DETECT_LEVEL_TICK: u32 = 5;

/// How often scrolling is tried again.
pub const MAX_SCROLL_RETRY: u32 = 3;

/// Timeout for scrolling familiar cards list.
pub const SCROLLING_TIMEOUT: u32 = 10;

/// Tick to move the mouse beside scrollbar at.
pub const SCROLLING_REST_TICK: u32 = 5;

/// Y distance difference indicating the scrollbar has scrolled.
pub const SCROLLBAR_SCROLLED_THRESHOLD: i32 = 10;

pub const SAVING_TIMEOUT: u32 = 20;

pub const COMPLETING_TIMEOUT: u32 = 20;

/// Internal state machine representing the current state of familiar swapping.
#[derive(Clone, Copy, PartialEq, Eq, Debug, Structural)]
pub enum State {
    /// Opening the familiar menu.
    OpenMenu(Timeout),
    /// Find the familiar slots.
    FindSlots,
    /// Check if slot is free or occupied to release the slot.
    FreeSlots(usize, bool),
    /// Try releasing a single slot.
    FreeSlot(Timeout, usize),
    /// Find swappable familiar cards.
    FindCards(Timeout),
    /// Swapping a card into an empty slot.
    Swapping(Timeout, usize),
    /// Scrolling the familiar cards list to find more cards.
    Scrolling(Timeout, Option<Rect>, u32),
    /// Saving the familiar setup.
    Saving(Timeout),
    Completing(Timeout, bool),
}

#[derive(Clone, Copy, PartialEq, Eq, Debug, Structural)]
pub struct FamiliarSlot {
    pub bbox: Rect,
    pub is_free: bool,
}

/// Struct for storing familiar swapping data.
#[derive(Debug)]
pub struct FamiliarsSwapping {
    /// Current state of the familiar swapping state machine.
    pub state: State,
    /// Detected familiar slots with free/occupied status.
    pub slots: Vec<FamiliarSlot>,
    /// Detected familiar cards.
    pub cards: Vec<Rect>,
    /// Indicates which familiar slots are allowed to be swapped.
    pub swappable_slots: SwappableFamiliars,
    /// Only familiars with these rarities will be considered for swapping.
    pub swappable_rarities: FamiliarRarities,
    /// Mouse rest point for other operations.
    pub mouse_rest: Point,
    /// Whether swapping is successful.
    pub success: bool,
}

/// What swapping familiars has come to.
#[verifier::ext_equal]
pub struct SwappingView {
    pub state: State,
    pub slots: Seq<FamiliarSlot>,
    pub cards: Seq<Rect>,
    pub swappable_slots: SwappableFamiliars,
    pub swappable_rarities: FamiliarRarities,
    pub mouse_rest: Point,
    pub success: bool,
}

impl View for FamiliarsSwapping {
    type V = SwappingView;

    open spec fn view(&self) -> SwappingView {
        SwappingView {
            state: self.state,
            slots: self.slots@,
            cards: self.cards@,
            swappable_slots: self.swappable_slots,
            swappable_rarities: self.swappable_rarities,
            mouse_rest: self.mouse_rest,
            success: self.success,
        }
    }
}

/// Whether the mouse can go to the middle of a slot, and to a point above and below it.
pub open spec fn slot_usable(bbox: Rect) -> bool {
    &&& bbox.has_middle()
    &&& i32::MIN <= bbox.y - 20
    &&& bbox.y + 20 <= i32::MAX
}

/// Whether the mouse can go to the middle of a scrollbar, and to a point on its right.
pub open spec fn scrollbar_usable(bbox: Rect) -> bool {
    bbox.has_middle() && bbox.middle().x + 70 <= i32::MAX
}

/// A timeout that has not been counted past `limit`.
pub open spec fn within(timeout: Timeout, limit: u32) -> bool {
    timeout.total <= timeout.current <= limit
}

pub open spec fn mouse_move(point: Point) -> InputCommand {
    InputCommand::Mouse(point.x, point.y, MouseKind::Move)
}

pub open spec fn mouse_click(bbox: Rect) -> InputCommand {
    InputCommand::Mouse(bbox.middle().x, bbox.middle().y, MouseKind::Click)
}

/// The slots from `from` on with what is seen of them now.
pub open spec fn slots_checked(slots: Seq<FamiliarSlot>, from: int, detector: Detector) -> Seq<
    FamiliarSlot,
> {
    Seq::new(
        slots.len(),
        |i: int|
            if i < from {
                slots[i]
            } else {
                FamiliarSlot { is_free: detector.slot_free(slots[i].bbox), ..slots[i] }
            },
    )
}

pub open spec fn any_free(slots: Seq<FamiliarSlot>) -> bool {
    exists|i: int| 0 <= i < slots.len() && (#[trigger] slots[i]).is_free
}

pub open spec fn rarity_of(rank: FamiliarRank) -> FamiliarRarity {
    match rank {
        FamiliarRank::Rare => FamiliarRarity::Rare,
        FamiliarRank::Epic => FamiliarRarity::Epic,
    }
}

/// The cards of those rarities, in order.
pub open spec fn swappable_cards(cards: Seq<(Rect, FamiliarRank)>, rarities: FamiliarRarities) -> Seq<
    Rect,
>
    decreases cards.len(),
{
    if cards.len() == 0 {
        seq![]
    } else {
        let before = swappable_cards(cards.drop_last(), rarities);
        if rarities.has(rarity_of(cards.last().1)) {
            before.push(cards.last().0)
        } else {
            before
        }
    }
}

/// The most ticks of a state.
pub open spec fn state_timeout(state: State) -> u32 {
    match state {
        State::OpenMenu(_) => OPEN_MENU_TIMEOUT,
        State::FindSlots | State::FreeSlots(_, _) => 0,
        State::FreeSlot(_, _) => FREE_SLOT_TIMEOUT,
        State::FindCards(_) => FIND_CARDS_TIMEOUT,
        State::Swapping(_, _) => SWAPPING_TIMEOUT,
        State::Scrolling(_, _, _) => SCROLLING_TIMEOUT,
        State::Saving(_) => SAVING_TIMEOUT,
        State::Completing(_, _) => COMPLETING_TIMEOUT,
    }
}

/// How long a state has been going on.
pub open spec fn state_elapsed(state: State) -> Timeout {
    match state {
        State::OpenMenu(timeout) => timeout,
        State::FindSlots | State::FreeSlots(_, _) => fresh(),
        State::FreeSlot(timeout, _) => timeout,
        State::FindCards(timeout) => timeout,
        State::Swapping(timeout, _) => timeout,
        State::Scrolling(timeout, _, _) => timeout,
        State::Saving(timeout) => timeout,
        State::Completing(timeout, _) => timeout,
    }
}

impl SwappingView {
    /// The slots are either all known or not at all, and whatever the state points to is there.
    pub open spec fn wf(self) -> bool {
        &&& self.slots.len() == 0 || self.slots.len() == FAMILIAR_SLOTS
        &&& self.cards.len() <= FAMILIAR_CARDS
        &&& forall|i: int| 0 <= i < self.slots.len() ==> slot_usable((#[trigger] self.slots[i]).bbox)
        &&& forall|i: int| 0 <= i < self.cards.len() ==> (#[trigger] self.cards[i]).has_middle()
        &&& within(state_elapsed(self.state), state_timeout(self.state))
        &&& match self.state {
            State::OpenMenu(_) | State::FindSlots => true,
            State::FreeSlots(index, _) => index < self.slots.len(),
            State::FreeSlot(_, index) => index < self.slots.len(),
            State::FindCards(_) => self.slots.len() == FAMILIAR_SLOTS,
            State::Swapping(_, index) => index < self.cards.len() && self.slots.len()
                == FAMILIAR_SLOTS,
            State::Scrolling(timeout, scrollbar, _) => self.slots.len() == FAMILIAR_SLOTS && (
            timeout.started ==> scrollbar is Some) && (scrollbar matches Some(bbox)
                ==> scrollbar_usable(bbox)),
            State::Saving(_) | State::Completing(_, _) => true,
        }
    }

    pub open spec fn with_state(self, state: State) -> Self {
        SwappingView { state, ..self }
    }

    /// The menu is to be closed; whether that counts as a success is known already.
    pub open spec fn to_completing(self, success: bool) -> Self {
        SwappingView {
            state: State::Completing(fresh(), false),
            success: self.success || success,
            ..self
        }
    }

    pub open spec fn open_menu_step(self, timeout: Timeout, detector: Detector, key: KeyKind) -> (
        SwappingView,
        Seq<InputCommand>,
    ) {
        match ticked(timeout, OPEN_MENU_TIMEOUT) {
            Lifecycle::Started(timeout) => (
                self.with_state(State::OpenMenu(timeout)),
                seq![mouse_move(self.mouse_rest)],
            ),
            Lifecycle::Ended => if detector.familiar_menu_opened {
                (self.with_state(State::FindSlots), seq![])
            } else {
                (self.to_completing(true), seq![])
            },
            Lifecycle::Updated(timeout) => (
                self.with_state(State::OpenMenu(timeout)),
                if timeout.current == OPEN_MENU_TICK {
                    seq![InputCommand::Key(key)]
                } else {
                    seq![]
                },
            ),
        }
    }

    pub open spec fn find_slots_step(self, detector: Detector) -> (SwappingView, Seq<InputCommand>) {
        let seen = detector.familiar_slots@;
        let free_last = State::FreeSlots((FAMILIAR_SLOTS - 1) as usize, false);
        if self.slots.len() > 0 {
            (self.with_state(free_last), seq![])
        } else if seen.len() == FAMILIAR_SLOTS {
            (
                SwappingView {
                    state: free_last,
                    slots: Seq::new(
                        seen.len(),
                        |i: int| FamiliarSlot { bbox: seen[i].0, is_free: seen[i].1 },
                    ),
                    ..self
                },
                seq![],
            )
        } else {
            (self.to_completing(true), seq![])
        }
    }

    /// Whether the slot may be swapped.
    pub open spec fn can_free(self, index: usize) -> bool {
        match self.swappable_slots {
            SwappableFamiliars::All => true,
            SwappableFamiliars::Last => index == FAMILIAR_SLOTS - 1,
            SwappableFamiliars::SecondAndLast => index == FAMILIAR_SLOTS - 1 || index
                == FAMILIAR_SLOTS - 2,
        }
    }

    /// Cards are looked for if a slot is free to take one.
    pub open spec fn find_cards_or_complete(self, detector: Detector) -> (
        SwappingView,
        Seq<InputCommand>,
    ) {
        if any_free(self.slots) {
            (
                self.with_state(State::FindCards(fresh())),
                match detector.familiar_level_button {
                    Some(bbox) => seq![mouse_click(bbox)],
                    None => seq![mouse_move(self.mouse_rest)],
                },
            )
        } else {
            (self.to_completing(true), seq![])
        }
    }

    pub open spec fn free_slots_step(self, index: usize, was_freeing: bool, detector: Detector) -> (
        SwappingView,
        Seq<InputCommand>,
    ) {
        if self.slots[index as int].is_free && index > 0 {
            (self.with_state(State::FreeSlots((index - 1) as usize, false)), seq![])
        } else if self.slots[index as int].is_free || !self.can_free(index) {
            self.find_cards_or_complete(detector)
        } else if was_freeing {
            // This could indicate that the menu was closed or overlapped
            (
                SwappingView { slots: seq![], state: State::OpenMenu(fresh()), ..self },
                seq![],
            )
        } else {
            (self.with_state(State::FreeSlot(fresh(), index)), seq![])
        }
    }

    /// The familiar in a slot has been hovered for long enough to see its level.
    pub open spec fn level_checked(self, timeout: Timeout, index: usize, detector: Detector) -> (
        SwappingView,
        Seq<InputCommand>,
    ) {
        let bbox = self.slots[index as int].bbox;
        match detector.familiar_hover_level {
            Some(FamiliarLevel::Level5) => (
                self.with_state(State::FreeSlot(timeout, index)),
                seq![
                    mouse_click(bbox),
                    InputCommand::Sleep(MOUSE_MOVE_CLICK_DELAY_MS),
                    mouse_click(bbox),
                    InputCommand::Sleep(MOUSE_MOVE_CLICK_DELAY_MS),
                    InputCommand::Mouse(bbox.middle().x, (bbox.y - 20) as i32, MouseKind::Move),
                ],
            ),
            Some(FamiliarLevel::LevelOther) => if index > 0 {
                (self.with_state(State::FreeSlots((index - 1) as usize, false)), seq![])
            } else if any_free(self.slots) {
                (
                    self.with_state(State::FindCards(fresh())),
                    seq![mouse_move(self.mouse_rest)],
                )
            } else {
                (self.to_completing(true), seq![])
            },
            None => (self.with_state(State::FreeSlot(timeout, index)), seq![]),
        }
    }

    /// The slot was clicked long enough ago to see whether it is free.
    pub open spec fn free_checked(self, timeout: Timeout, index: usize, detector: Detector) -> SwappingView {
        let slot = self.slots[index as int];
        if detector.slot_free(slot.bbox) {
            SwappingView {
                state: State::FreeSlot(
                    Timeout { current: FREE_SLOT_TIMEOUT, ..timeout },
                    index,
                ),
                slots: self.slots.update(index as int, FamiliarSlot { is_free: true, ..slot }),
                ..self
            }
        } else {
            SwappingView {
                state: State::FreeSlot(fresh(), index),
                slots: slots_checked(self.slots, index + 1, detector),
                ..self
            }
        }
    }

    pub open spec fn free_slot_step(self, timeout: Timeout, index: usize, detector: Detector) -> (
        SwappingView,
        Seq<InputCommand>,
    ) {
        let bbox = self.slots[index as int].bbox;
        match ticked(timeout, FREE_SLOT_TIMEOUT) {
            Lifecycle::Started(timeout) => (
                self.with_state(State::FreeSlot(timeout, index)),
                seq![InputCommand::Mouse(bbox.middle().x, (bbox.y + 20) as i32, MouseKind::Move)],
            ),
            Lifecycle::Ended => (self.with_state(State::FreeSlots(index, true)), seq![]),
            Lifecycle::Updated(timeout) => if timeout.current == CHECK_LEVEL_TICK {
                self.level_checked(timeout, index, detector)
            } else if timeout.current == CHECK_FREE_TICK {
                (self.free_checked(timeout, index, detector), seq![])
            } else {
                (self.with_state(State::FreeSlot(timeout, index)), seq![])
            },
        }
    }

    /// The cards that can be swapped in: those remembered, or those seen now.
    pub open spec fn cards_found(self, detector: Detector) -> Seq<Rect> {
        if self.cards.len() > 0 {
            self.cards
        } else {
            swappable_cards(detector.familiar_cards@, self.swappable_rarities)
        }
    }

    pub open spec fn find_cards_step(self, timeout: Timeout, detector: Detector) -> (
        SwappingView,
        Seq<InputCommand>,
    ) {
        match ticked(timeout, FIND_CARDS_TIMEOUT) {
            Lifecycle::Ended => {
                let cards = self.cards_found(detector);
                (
                    SwappingView {
                        cards,
                        state: if cards.len() == 0 {
                            State::Scrolling(fresh(), None, 0)
                        } else {
                            State::Swapping(fresh(), 0)
                        },
                        ..self
                    },
                    seq![],
                )
            },
            Lifecycle::Started(timeout) => (self.with_state(State::FindCards(timeout)), seq![]),
            Lifecycle::Updated(timeout) => (self.with_state(State::FindCards(timeout)), seq![]),
        }
    }

    /// A card was clicked, if it was to be, and its effect can be seen.
    pub open spec fn swap_checked(self, index: usize, detector: Detector) -> SwappingView {
        let slots = slots_checked(self.slots, 0, detector);
        SwappingView {
            slots,
            state: if !any_free(slots) {
                State::Saving(fresh())
            } else if index + 1 < self.cards.len() && index + 1 < MAX_CHECK_COUNT {
                State::Swapping(fresh(), (index + 1) as usize)
            } else {
                State::Completing(fresh(), false)
            },
            ..self
        }
    }

    pub open spec fn swapping_step(self, timeout: Timeout, index: usize, detector: Detector) -> (
        SwappingView,
        Seq<InputCommand>,
    ) {
        let card = self.cards[index as int];
        match ticked(timeout, SWAPPING_TIMEOUT) {
            Lifecycle::Started(timeout) => (
                self.with_state(State::Swapping(timeout, index)),
                seq![mouse_move(card.middle())],
            ),
            Lifecycle::Ended => (self.swap_checked(index, detector), seq![]),
            Lifecycle::Updated(timeout) => {
                let on = self.with_state(State::Swapping(timeout, index));
                if timeout.current != SWAPPING_DETECT_LEVEL_TICK {
                    (on, seq![])
                } else {
                    match detector.familiar_hover_level {
                        Some(FamiliarLevel::Level5) => (on, seq![mouse_move(self.mouse_rest)]),
                        Some(FamiliarLevel::LevelOther) => (
                            on,
                            seq![
                                mouse_click(card),
                                InputCommand::Sleep(MOUSE_MOVE_CLICK_DELAY_MS),
                                mouse_move(self.mouse_rest),
                            ],
                        ),
                        None => if detector.familiar_menu_opened {
                            (on, seq![])
                        } else {
                            (self.to_completing(false), seq![])
                        },
                    }
                }
            },
        }
    }

    pub open spec fn scrolling_step(
        self,
        timeout: Timeout,
        scrollbar: Option<Rect>,
        retry_count: u32,
        detector: Detector,
    ) -> (SwappingView, Seq<InputCommand>) {
        match ticked(timeout, SCROLLING_TIMEOUT) {
            Lifecycle::Started(timeout) => match detector.familiar_scrollbar {
                Some(seen) => (
                    self.with_state(State::Scrolling(timeout, Some(seen), retry_count)),
                    seq![
                        InputCommand::Mouse(seen.middle().x, seen.middle().y, MouseKind::Scroll),
                    ],
                ),
                None => (self.to_completing(false), seq![]),
            },
            Lifecycle::Ended => match detector.familiar_scrollbar {
                Some(seen) => {
                    let moved = seen.y - scrollbar->0.y;
                    if moved >= SCROLLBAR_SCROLLED_THRESHOLD || -moved
                        >= SCROLLBAR_SCROLLED_THRESHOLD {
                        (
                            SwappingView {
                                cards: seq![],
                                state: State::FindCards(fresh()),
                                ..self
                            },
                            seq![],
                        )
                    } else if retry_count < MAX_SCROLL_RETRY {
                        (
                            self.with_state(
                                State::Scrolling(fresh(), Some(seen), (retry_count + 1) as u32),
                            ),
                            seq![],
                        )
                    } else {
                        (self.to_completing(false), seq![])
                    }
                },
                None => (self.to_completing(false), seq![]),
            },
            Lifecycle::Updated(timeout) => (
                self.with_state(State::Scrolling(timeout, scrollbar, retry_count)),
                if timeout.current == SCROLLING_REST_TICK {
                    let middle = scrollbar->0.middle();
                    seq![InputCommand::Mouse((middle.x + 70) as i32, middle.y, MouseKind::Move)]
                } else {
                    seq![]
                },
            ),
        }
    }

    pub open spec fn saving_step(self, timeout: Timeout, detector: Detector) -> (
        SwappingView,
        Seq<InputCommand>,
    ) {
        match ticked(timeout, SAVING_TIMEOUT) {
            Lifecycle::Started(timeout) => match detector.familiar_save_button {
                Some(button) => (
                    self.with_state(State::Saving(timeout)),
                    seq![mouse_click(button)],
                ),
                None => (self.to_completing(false), seq![]),
            },
            Lifecycle::Ended => (self.to_completing(true), seq![]),
            Lifecycle::Updated(timeout) => (self.with_state(State::Saving(timeout)), seq![]),
        }
    }

    pub open spec fn completing_step(self, timeout: Timeout, completed: bool, detector: Detector) -> (
        SwappingView,
        Seq<InputCommand>,
    ) {
        match ticked(timeout, COMPLETING_TIMEOUT) {
            Lifecycle::Started(timeout) => (
                self.with_state(State::Completing(timeout, completed)),
                seq![],
            ),
            Lifecycle::Updated(timeout) => (
                self.with_state(State::Completing(timeout, completed)),
                seq![],
            ),
            Lifecycle::Ended => (
                self.with_state(State::Completing(fresh(), true)),
                if detector.familiar_menu_opened {
                    seq![InputCommand::Key(KeyKind::Esc)]
                } else {
                    seq![]
                },
            ),
        }
    }

    /// What swapping familiars comes to with one more tick, and the inputs sent for it.
    pub open spec fn step(self, detector: Detector, key: KeyKind) -> (
        SwappingView,
        Seq<InputCommand>,
    ) {
        match self.state {
            State::OpenMenu(timeout) => self.open_menu_step(timeout, detector, key),
            State::FindSlots => self.find_slots_step(detector),
            State::FreeSlots(index, was_freeing) => self.free_slots_step(
                index,
                was_freeing,
                detector,
            ),
            State::FreeSlot(timeout, index) => self.free_slot_step(timeout, index, detector),
            State::FindCards(timeout) => self.find_cards_step(timeout, detector),
            State::Swapping(timeout, index) => self.swapping_step(timeout, index, detector),
            State::Scrolling(timeout, scrollbar, retry_count) => self.scrolling_step(
                timeout,
                scrollbar,
                retry_count,
                detector,
            ),
            State::Saving(timeout) => self.saving_step(timeout, detector),
            State::Completing(timeout, completed) => self.completing_step(
                timeout,
                completed,
                detector,
            ),
        }
    }

    /// Whether what the state looks at on a frame can be clicked and remembered.
    pub open spec fn can_use(self, detector: Detector) -> bool {
        match self.state {
            State::FindSlots => detector.familiar_slots@.len() == FAMILIAR_SLOTS ==> forall|i: int|
                0 <= i < FAMILIAR_SLOTS ==> slot_usable(
                    (#[trigger] detector.familiar_slots@[i]).0,
                ),
            State::FreeSlots(_, _) => detector.familiar_level_button matches Some(bbox)
                ==> bbox.has_middle(),
            State::FindCards(_) => {
                &&& self.cards_found(detector).len() <= FAMILIAR_CARDS
                &&& forall|i: int|
                    0 <= i < self.cards_found(detector).len() ==> (#[trigger] self.cards_found(
                        detector,
                    )[i]).has_middle()
            },
            State::Scrolling(_, _, _) => detector.familiar_scrollbar matches Some(bbox)
                ==> scrollbar_usable(bbox),
            State::Saving(_) => detector.familiar_save_button matches Some(bbox)
                ==> bbox.has_middle(),
            State::OpenMenu(_) | State::FreeSlot(_, _) | State::Swapping(_, _) => true,
            State::Completing(_, _) => true,
        }
    }

    /// Whether the next tick looks at the frame captured last.
    pub open spec fn looks(self) -> bool {
        let next = ticked(state_elapsed(self.state), state_timeout(self.state));
        match self.state {
            State::OpenMenu(_) | State::Completing(_, _) => next is Ended,
            State::FindSlots => self.slots.len() == 0,
            State::FreeSlots(index, _) => any_free(self.slots) && (if self.slots[index as int].is_free {
                index == 0
            } else {
                !self.can_free(index)
            }),
            State::FreeSlot(_, _) => next is Updated,
            State::FindCards(_) => next is Ended && self.cards.len() == 0,
            State::Swapping(_, _) => next is Ended || (next matches Lifecycle::Updated(timeout)
                && timeout.current == SWAPPING_DETECT_LEVEL_TICK),
            State::Scrolling(_, _, _) => next is Started || next is Ended,
            State::Saving(_) => next is Started,
        }
    }
}

/// The detections on the frame captured last.
pub open spec fn seen(resources: &Resources) -> Detector {
    *resources.detector->0
}

/// Whether there is a frame to look at where one is looked at, and what is looked at on it can be
/// clicked and remembered.
pub open spec fn sees(resources: &Resources, swapping: SwappingView) -> bool {
    swapping.looks() ==> {
        &&& resources.detector is Some
        &&& swapping.can_use(seen(resources))
    }
}

/// The resources with inputs added to those to be sent.
pub open spec fn sent(before: Resources, after: Resources, inputs: Seq<InputCommand>) -> bool {
    &&& after.input@ == before.input@ + inputs
    &&& after == (Resources { input: after.input, ..before })
}

fn send(resources: &mut Resources, command: InputCommand)
    ensures
        sent(*old(resources), *final(resources), seq![command]),
{
    resources.input.push(command);
    assert(resources.input@ =~= old(resources).input@ + seq![command]);
}

fn move_mouse(resources: &mut Resources, point: Point)
    ensures
        sent(*old(resources), *final(resources), seq![mouse_move(point)]),
{
    send(resources, InputCommand::Mouse(point.x, point.y, MouseKind::Move));
}

fn click(resources: &mut Resources, bbox: Rect)
    requires
        bbox.has_middle(),
    ensures
        sent(*old(resources), *final(resources), seq![mouse_click(bbox)]),
{
    let (x, y): (i32, i32) = bbox_click_point(bbox);
    send(resources, InputCommand::Mouse(x, y, MouseKind::Click));
}

fn bbox_click_point(bbox: Rect) -> (res: (i32, i32))
    requires
        bbox.has_middle(),
    ensures
        res == (bbox.middle().x, bbox.middle().y),
{
    let middle: Point = mid_point(bbox);
    (middle.x, middle.y)
}

impl FamiliarsSwapping {
    pub fn new(swappable_slots: SwappableFamiliars, swappable_rarities: FamiliarRarities) -> (res:
        Self)
        ensures
            res@ == (SwappingView {
                state: State::OpenMenu(fresh()),
                slots: seq![],
                cards: seq![],
                swappable_slots,
                swappable_rarities,
                mouse_rest: Point { x: 50, y: 50 },
                success: false,
            }),
            res@.wf(),
    {
        FamiliarsSwapping {
            state: State::OpenMenu(Timeout::default()),
            slots: Vec::new(),
            cards: Vec::new(),
            swappable_slots,
            swappable_rarities,
            mouse_rest: Point::new(50, 50),
            success: false,
        }
    }

    /// The name of the current state.
    pub fn name(&self) -> (res: &'static str)
        ensures
            res@ == match self.state {
                State::OpenMenu(_) => "OpenMenu"@,
                State::FindSlots => "FindSlots"@,
                State::FreeSlots(_, _) | State::FreeSlot(_, _) => "FreeSlots"@,
                State::FindCards(_) => "FindCards"@,
                State::Swapping(_, _) => "Swapping"@,
                State::Scrolling(_, _, _) => "Scrolling"@,
                State::Saving(_) => "Saving"@,
                State::Completing(_, _) => "Completing"@,
            },
    {
        match self.state {
            State::OpenMenu(_) => "OpenMenu",
            State::FindSlots => "FindSlots",
            State::FreeSlots(_, _) | State::FreeSlot(_, _) => "FreeSlots",
            State::FindCards(_) => "FindCards",
            State::Swapping(_, _) => "Swapping",
            State::Scrolling(_, _, _) => "Scrolling",
            State::Saving(_) => "Saving",
            State::Completing(_, _) => "Completing",
        }
    }

    fn has_free_slot(&self) -> (res: bool)
        ensures
            res == any_free(self@.slots),
    {
        let mut i: usize = 0;
        while i < self.slots.len()
            invariant
                i <= self.slots.len(),
                forall|j: int| 0 <= j < i ==> !(#[trigger] self@.slots[j]).is_free,
            decreases self.slots.len() - i,
        {
            if self.slots[i].is_free {
                assert(self@.slots[i as int].is_free);
                return true;
            }
            i = i + 1;
        }
        false
    }

    /// Looks again at the slots from `from` on.
    fn check_slots(&mut self, from: usize, detector: &Detector)
        ensures
            final(self)@ == (SwappingView {
                slots: slots_checked(old(self)@.slots, from as int, *detector),
                ..old(self)@
            }),
    {
        let ghost before = self@;
        let mut i: usize = from;
        assert(before.slots =~= slots_checked(before.slots, before.slots.len() as int, *detector));
        while i < self.slots.len()
            invariant
                from <= i,
                from < self.slots@.len() ==> i <= self.slots@.len(),
                self.slots@.len() == before.slots.len(),
                self@ == (SwappingView { slots: self.slots@, ..before }),
                forall|j: int|
                    0 <= j < before.slots.len() ==> #[trigger] self.slots@[j] == if from <= j < i {
                        slots_checked(before.slots, from as int, *detector)[j]
                    } else {
                        before.slots[j]
                    },
            decreases self.slots@.len() - i,
        {
            let slot: FamiliarSlot = self.slots[i];
            let is_free: bool = detector.detect_familiar_slot_is_free(slot.bbox);
            self.slots.set(i, FamiliarSlot { is_free, ..slot });
            i = i + 1;
        }
        assert(self.slots@ =~= slots_checked(before.slots, from as int, *detector));
    }

    fn complete(&mut self, success: bool)
        ensures
            final(self)@ == old(self)@.to_completing(success),
    {
        if success {
            self.success = true;
        }
        self.state = State::Completing(Timeout::default(), false);
    }
}

pub fn update_open_menu(resources: &mut Resources, swapping: &mut FamiliarsSwapping, key: KeyKind)
    requires
        old(swapping).state matches State::OpenMenu(timeout) && timeout.total < u32::MAX,
        sees(old(resources), old(swapping)@),
    ensures
        ({
            let (after, inputs) = old(swapping)@.open_menu_step(
                state_elapsed(old(swapping).state),
                seen(old(resources)),
                key,
            );
            final(swapping)@ == after && sent(*old(resources), *final(resources), inputs)
        }),
{
    let timeout: Timeout = match swapping.state {
        State::OpenMenu(timeout) => timeout,
        _ => vstd::pervasive::unreached(),
    };
    assert(resources.input@ + seq![] =~= resources.input@);
    match next_timeout_lifecycle(timeout, OPEN_MENU_TIMEOUT) {
        Lifecycle::Started(timeout) => {
            move_mouse(resources, swapping.mouse_rest);
            swapping.state = State::OpenMenu(timeout);
        },
        Lifecycle::Ended => {
            if resources.detector().familiar_menu_opened {
                swapping.state = State::FindSlots;
            } else {
                swapping.complete(true);
            }
        },
        Lifecycle::Updated(timeout) => {
            if timeout.current == OPEN_MENU_TICK {
                send(resources, InputCommand::Key(key));
            }
            swapping.state = State::OpenMenu(timeout);
        },
    }
}

pub fn update_find_slots(resources: &mut Resources, swapping: &mut FamiliarsSwapping)
    requires
        old(swapping).state is FindSlots,
        sees(old(resources), old(swapping)@),
    ensures
        ({
            let (after, inputs) = old(swapping)@.find_slots_step(seen(old(resources)));
            final(swapping)@ == after && sent(*old(resources), *final(resources), inputs)
        }),
{
    assert(resources.input@ + seq![] =~= resources.input@);
    // Detect familiar slots and whether each slot is free
    if swapping.slots.len() == 0 {
        let detector: &Detector = resources.detector();
        if detector.familiar_slots.len() != FAMILIAR_SLOTS {
            // Weird spots with false positives
            swapping.complete(true);
            return;
        }
        let mut i: usize = 0;
        while i < detector.familiar_slots.len()
            invariant
                i <= detector.familiar_slots@.len(),
                swapping.slots@.len() == i,
                swapping@ == (SwappingView { slots: swapping.slots@, ..old(swapping)@ }),
                forall|j: int|
                    0 <= j < i ==> #[trigger] swapping.slots@[j] == (FamiliarSlot {
                        bbox: detector.familiar_slots@[j].0,
                        is_free: detector.familiar_slots@[j].1,
                    }),
            decreases detector.familiar_slots@.len() - i,
        {
            let (bbox, is_free): (Rect, bool) = detector.familiar_slots[i];
            swapping.slots.push(FamiliarSlot { bbox, is_free });
            i = i + 1;
        }
    }
    swapping.state = State::FreeSlots(FAMILIAR_SLOTS - 1, false);
}

fn find_cards_or_complete(resources: &mut Resources, swapping: &mut FamiliarsSwapping)
    requires
        any_free(old(swapping)@.slots) ==> old(resources).detector is Some && (seen(
            old(resources),
        ).familiar_level_button matches Some(bbox) ==> bbox.has_middle()),
    ensures
        ({
            let (after, inputs) = old(swapping)@.find_cards_or_complete(seen(old(resources)));
            final(swapping)@ == after && sent(*old(resources), *final(resources), inputs)
        }),
{
    assert(resources.input@ + seq![] =~= resources.input@);
    if swapping.has_free_slot() {
        match resources.detector().familiar_level_button {
            Some(bbox) => click(resources, bbox),
            None => move_mouse(resources, swapping.mouse_rest),
        }
        swapping.state = State::FindCards(Timeout::default());
        return;
    }
    // No slot is free so move to completing.
    swapping.complete(true);
}

pub fn update_free_slots(resources: &mut Resources, swapping: &mut FamiliarsSwapping)
    requires
        old(swapping).state matches State::FreeSlots(index, _) && index < old(swapping)@.slots.len(),
        sees(old(resources), old(swapping)@),
    ensures
        ({
            let (after, inputs) = old(swapping)@.free_slots_step(
                old(swapping).state->FreeSlots_0,
                old(swapping).state->FreeSlots_1,
                seen(old(resources)),
            );
            final(swapping)@ == after && sent(*old(resources), *final(resources), inputs)
        }),
{
    let (index, was_freeing): (usize, bool) = match swapping.state {
        State::FreeSlots(index, was_freeing) => (index, was_freeing),
        _ => vstd::pervasive::unreached(),
    };
    assert(resources.input@ + seq![] =~= resources.input@);
    if swapping.slots[index].is_free {
        if index > 0 {
            swapping.state = State::FreeSlots(index - 1, false);
        } else {
            find_cards_or_complete(resources, swapping);
        }
        return;
    }
    let can_free: bool = match swapping.swappable_slots {
        SwappableFamiliars::All => true,
        SwappableFamiliars::Last => index == FAMILIAR_SLOTS - 1,
        SwappableFamiliars::SecondAndLast => index == FAMILIAR_SLOTS - 1 || index == FAMILIAR_SLOTS
            - 2,
    };
    if !can_free {
        find_cards_or_complete(resources, swapping);
        return;
    }
    // Bail and retry as this could indicate the menu closed/overlap
    if was_freeing {
        swapping.slots = Vec::new();
        swapping.state = State::OpenMenu(Timeout::default());
        return;
    }
    swapping.state = State::FreeSlot(Timeout::default(), index);
}

fn check_level(
    resources: &mut Resources,
    swapping: &mut FamiliarsSwapping,
    timeout: Timeout,
    index: usize,
)
    requires
        index < old(swapping)@.slots.len(),
        slot_usable(old(swapping)@.slots[index as int].bbox),
        old(resources).detector is Some,
    ensures
        ({
            let (after, inputs) = old(swapping)@.level_checked(
                timeout,
                index,
                seen(old(resources)),
            );
            final(swapping)@ == after && sent(*old(resources), *final(resources), inputs)
        }),
{
    let bbox: Rect = swapping.slots[index].bbox;
    let (x, _): (i32, i32) = bbox_click_point(bbox);
    assert(resources.input@ + seq![] =~= resources.input@);
    match resources.detector().familiar_hover_level {
        Some(FamiliarLevel::Level5) => {
            // Double click to free
            click(resources, bbox);
            send(resources, InputCommand::Sleep(MOUSE_MOVE_CLICK_DELAY_MS));
            click(resources, bbox);
            send(resources, InputCommand::Sleep(MOUSE_MOVE_CLICK_DELAY_MS));
            // Move mouse to rest position to check if it has been truely freed
            send(resources, InputCommand::Mouse(x, bbox.y - 20, MouseKind::Move));
            swapping.state = State::FreeSlot(timeout, index);
            assert(resources.input@ =~= old(resources).input@ + old(swapping)@.level_checked(
                timeout,
                index,
                seen(old(resources)),
            ).1);
        },
        Some(FamiliarLevel::LevelOther) => {
            // If current slot is already non-level-5, check next slot
            if index > 0 {
                swapping.state = State::FreeSlots(index - 1, false);
                return;
            }
            // If there is no more slot to check and any of them is free,
            // starts finding cards for swapping
            if swapping.has_free_slot() {
                move_mouse(resources, swapping.mouse_rest);
                swapping.state = State::FindCards(Timeout::default());
                return;
            }
            // All of the slots are occupied and non-level-5
            swapping.complete(true);
        },
        None => {
            swapping.state = State::FreeSlot(timeout, index);
        },
    }
}

pub fn update_free_slot(resources: &mut Resources, swapping: &mut FamiliarsSwapping)
    requires
        old(swapping).state matches State::FreeSlot(timeout, index) && index
            < old(swapping)@.slots.len() && timeout.total < u32::MAX && slot_usable(
            old(swapping)@.slots[index as int].bbox,
        ),
        sees(old(resources), old(swapping)@),
        old(swapping)@.slots.len() <= FAMILIAR_SLOTS,
    ensures
        ({
            let (after, inputs) = old(swapping)@.free_slot_step(
                old(swapping).state->FreeSlot_0,
                old(swapping).state->FreeSlot_1,
                seen(old(resources)),
            );
            final(swapping)@ == after && sent(*old(resources), *final(resources), inputs)
        }),
{
    let (timeout, index): (Timeout, usize) = match swapping.state {
        State::FreeSlot(timeout, index) => (timeout, index),
        _ => vstd::pervasive::unreached(),
    };
    let bbox: Rect = swapping.slots[index].bbox;
    assert(resources.input@ + seq![] =~= resources.input@);
    match next_timeout_lifecycle(timeout, FREE_SLOT_TIMEOUT) {
        Lifecycle::Started(timeout) => {
            let (x, _): (i32, i32) = bbox_click_point(bbox);
            send(resources, InputCommand::Mouse(x, bbox.y + 20, MouseKind::Move));
            swapping.state = State::FreeSlot(timeout, index);
        },
        Lifecycle::Ended => {
            swapping.state = State::FreeSlots(index, true);
        },
        Lifecycle::Updated(timeout) => {
            if timeout.current == CHECK_LEVEL_TICK {
                check_level(resources, swapping, timeout, index);
                return;
            }
            if timeout.current != CHECK_FREE_TICK {
                swapping.state = State::FreeSlot(timeout, index);
                return;
            }
            let detector: &Detector = resources.detector();
            if detector.detect_familiar_slot_is_free(bbox) {
                // If familiar is free, timeout and set flag
                swapping.slots.set(index, FamiliarSlot { bbox, is_free: true });
                swapping.state = State::FreeSlot(
                    Timeout { current: FREE_SLOT_TIMEOUT, ..timeout },
                    index,
                );
            } else {
                // After double clicking, previous slots will move forward so this updates
                // previous slot free status. But this else could also mean the menu is already
                // closed, so the update here can be wrong. However, resetting the timeout below
                // will account for this case because of familiar level detection.
                swapping.check_slots(index + 1, detector);
                swapping.state = State::FreeSlot(Timeout::default(), index);
            }
        },
    }
}

/// The cards of those rarities, in order.
fn filter_cards(cards: &Vec<(Rect, FamiliarRank)>, rarities: &FamiliarRarities) -> (res: Vec<Rect>)
    ensures
        res@ == swappable_cards(cards@, *rarities),
{
    let mut res: Vec<Rect> = Vec::new();
    let mut i: usize = 0;
    assert(cards@.take(0) =~= seq![]);
    while i < cards.len()
        invariant
            i <= cards.len(),
            res@ == swappable_cards(cards@.take(i as int), *rarities),
        decreases cards.len() - i,
    {
        assert(cards@.take(i + 1).drop_last() =~= cards@.take(i as int));
        let (bbox, rank): (Rect, FamiliarRank) = cards[i];
        let rarity: FamiliarRarity = match rank {
            FamiliarRank::Rare => FamiliarRarity::Rare,
            FamiliarRank::Epic => FamiliarRarity::Epic,
        };
        if rarities.contains(rarity) {
            res.push(bbox);
        }
        i = i + 1;
    }
    assert(cards@.take(i as int) =~= cards@);
    res
}

pub fn update_find_cards(resources: &mut Resources, swapping: &mut FamiliarsSwapping)
    requires
        old(swapping).state matches State::FindCards(timeout) && timeout.total < u32::MAX,
        sees(old(resources), old(swapping)@),
    ensures
        ({
            let (after, inputs) = old(swapping)@.find_cards_step(
                state_elapsed(old(swapping).state),
                seen(old(resources)),
            );
            final(swapping)@ == after && sent(*old(resources), *final(resources), inputs)
        }),
{
    let timeout: Timeout = match swapping.state {
        State::FindCards(timeout) => timeout,
        _ => vstd::pervasive::unreached(),
    };
    assert(resources.input@ + seq![] =~= resources.input@);
    // Timeout for ensuring sorting takes effect
    match next_timeout_lifecycle(timeout, FIND_CARDS_TIMEOUT) {
        Lifecycle::Ended => {
            if swapping.cards.len() == 0 {
                swapping.cards = filter_cards(
                    &resources.detector().familiar_cards,
                    &swapping.swappable_rarities,
                );
            }
            swapping.state = if swapping.cards.len() == 0 {
                State::Scrolling(Timeout::default(), None, 0)
            } else {
                State::Swapping(Timeout::default(), 0)
            };
        },
        Lifecycle::Started(timeout) | Lifecycle::Updated(timeout) => {
            swapping.state = State::FindCards(timeout);
        },
    }
}

pub fn update_swapping(resources: &mut Resources, swapping: &mut FamiliarsSwapping)
    requires
        old(swapping).state matches State::Swapping(timeout, index) && index
            < old(swapping)@.cards.len() && timeout.total < u32::MAX && old(
            swapping,
        )@.cards[index as int].has_middle(),
        sees(old(resources), old(swapping)@),
    ensures
        ({
            let (after, inputs) = old(swapping)@.swapping_step(
                old(swapping).state->Swapping_0,
                old(swapping).state->Swapping_1,
                seen(old(resources)),
            );
            final(swapping)@ == after && sent(*old(resources), *final(resources), inputs)
        }),
{
    let (timeout, index): (Timeout, usize) = match swapping.state {
        State::Swapping(timeout, index) => (timeout, index),
        _ => vstd::pervasive::unreached(),
    };
    let card: Rect = swapping.cards[index];
    assert(resources.input@ + seq![] =~= resources.input@);
    match next_timeout_lifecycle(timeout, SWAPPING_TIMEOUT) {
        Lifecycle::Started(timeout) => {
            move_mouse(resources, mid_point(card));
            swapping.state = State::Swapping(timeout, index);
        },
        Lifecycle::Ended => {
            // Check free slot in timeout
            swapping.check_slots(0, resources.detector());
            // Save if all slots are occupied. Could also mean UI is already closed.
            if !swapping.has_free_slot() {
                swapping.state = State::Saving(Timeout::default());
                return;
            }
            // At least one slot is free and there are more cards. Could mean double click
            // failed or familiar already level 5, advances either way.
            let count: usize = swapping.cards.len();
            let next: usize = index + 1;
            swapping.state = if next < count && next < MAX_CHECK_COUNT {
                State::Swapping(Timeout::default(), next)
            } else {
                State::Completing(Timeout::default(), false)
            };
        },
        Lifecycle::Updated(timeout) => {
            if timeout.current == SWAPPING_DETECT_LEVEL_TICK {
                match resources.detector().familiar_hover_level {
                    Some(FamiliarLevel::Level5) => {
                        // Move to rest position and wait for timeout
                        move_mouse(resources, swapping.mouse_rest);
                    },
                    Some(FamiliarLevel::LevelOther) => {
                        // Click to select and then move to rest point
                        click(resources, card);
                        send(resources, InputCommand::Sleep(MOUSE_MOVE_CLICK_DELAY_MS));
                        move_mouse(resources, swapping.mouse_rest);
                        assert(resources.input@ =~= old(resources).input@ + seq![
                            mouse_click(card),
                            InputCommand::Sleep(MOUSE_MOVE_CLICK_DELAY_MS),
                            mouse_move(swapping.mouse_rest),
                        ]);
                    },
                    None => {
                        // Recoverable in an edge case where the mouse overlap with the level
                        if !resources.detector().familiar_menu_opened {
                            swapping.complete(false);
                            return;
                        }
                    },
                }
            }
            swapping.state = State::Swapping(timeout, index);
        },
    }
}

pub fn update_scrolling(resources: &mut Resources, swapping: &mut FamiliarsSwapping)
    requires
        old(swapping).state matches State::Scrolling(timeout, scrollbar, _) && timeout.total
            < u32::MAX && (timeout.started ==> scrollbar is Some) && (scrollbar matches Some(bbox)
            ==> scrollbar_usable(bbox)),
        sees(old(resources), old(swapping)@),
    ensures
        ({
            let (after, inputs) = old(swapping)@.scrolling_step(
                old(swapping).state->Scrolling_0,
                old(swapping).state->Scrolling_1,
                old(swapping).state->Scrolling_2,
                seen(old(resources)),
            );
            final(swapping)@ == after && sent(*old(resources), *final(resources), inputs)
        }),
{
    let (timeout, scrollbar, retry_count): (Timeout, Option<Rect>, u32) = match swapping.state {
        State::Scrolling(timeout, scrollbar, retry_count) => (timeout, scrollbar, retry_count),
        _ => vstd::pervasive::unreached(),
    };
    assert(resources.input@ + seq![] =~= resources.input@);
    match next_timeout_lifecycle(timeout, SCROLLING_TIMEOUT) {
        Lifecycle::Started(timeout) => match resources.detector().familiar_scrollbar {
            Some(seen) => {
                let (x, y): (i32, i32) = bbox_click_point(seen);
                send(resources, InputCommand::Mouse(x, y, MouseKind::Scroll));
                swapping.state = State::Scrolling(timeout, Some(seen), retry_count);
            },
            None => swapping.complete(false),
        },
        Lifecycle::Ended => match resources.detector().familiar_scrollbar {
            Some(seen) => {
                let moved: i64 = seen.y as i64 - scrollbar.unwrap().y as i64;
                if moved >= SCROLLBAR_SCROLLED_THRESHOLD as i64 || -moved
                    >= SCROLLBAR_SCROLLED_THRESHOLD as i64 {
                    swapping.cards = Vec::new();
                    swapping.state = State::FindCards(Timeout::default());
                    return;
                }
                // Try again because scrolling might have failed. This could also indicate
                // the list is empty.
                if retry_count < MAX_SCROLL_RETRY {
                    swapping.state = State::Scrolling(
                        Timeout::default(),
                        Some(seen),
                        retry_count + 1,
                    );
                } else {
                    swapping.complete(false);
                }
            },
            None => swapping.complete(false),
        },
        Lifecycle::Updated(timeout) => {
            if timeout.current == SCROLLING_REST_TICK {
                let (x, y): (i32, i32) = bbox_click_point(scrollbar.unwrap());
                send(resources, InputCommand::Mouse(x + 70, y, MouseKind::Move));
            }
            swapping.state = State::Scrolling(timeout, scrollbar, retry_count);
        },
    }
}

pub fn update_saving(resources: &mut Resources, swapping: &mut FamiliarsSwapping)
    requires
        old(swapping).state matches State::Saving(timeout) && timeout.total < u32::MAX,
        sees(old(resources), old(swapping)@),
    ensures
        ({
            let (after, inputs) = old(swapping)@.saving_step(
                state_elapsed(old(swapping).state),
                seen(old(resources)),
            );
            final(swapping)@ == after && sent(*old(resources), *final(resources), inputs)
        }),
{
    let timeout: Timeout = match swapping.state {
        State::Saving(timeout) => timeout,
        _ => vstd::pervasive::unreached(),
    };
    assert(resources.input@ + seq![] =~= resources.input@);
    match next_timeout_lifecycle(timeout, SAVING_TIMEOUT) {
        Lifecycle::Started(timeout) => match resources.detector().familiar_save_button {
            Some(button) => {
                click(resources, button);
                swapping.state = State::Saving(timeout);
            },
            None => swapping.complete(false),
        },
        Lifecycle::Ended => swapping.complete(true),
        Lifecycle::Updated(timeout) => {
            swapping.state = State::Saving(timeout);
        },
    }
}

pub fn update_completing(resources: &mut Resources, swapping: &mut FamiliarsSwapping)
    requires
        old(swapping).state matches State::Completing(timeout, _) && timeout.total < u32::MAX,
        sees(old(resources), old(swapping)@),
    ensures
        ({
            let (after, inputs) = old(swapping)@.completing_step(
                old(swapping).state->Completing_0,
                old(swapping).state->Completing_1,
                seen(old(resources)),
            );
            final(swapping)@ == after && sent(*old(resources), *final(resources), inputs)
        }),
{
    let (timeout, completed): (Timeout, bool) = match swapping.state {
        State::Completing(timeout, completed) => (timeout, completed),
        _ => vstd::pervasive::unreached(),
    };
    assert(resources.input@ + seq![] =~= resources.input@);
    match next_timeout_lifecycle(timeout, COMPLETING_TIMEOUT) {
        Lifecycle::Started(timeout) | Lifecycle::Updated(timeout) => {
            swapping.state = State::Completing(timeout, completed);
        },
        Lifecycle::Ended => {
            if resources.detector().familiar_menu_opened {
                send(resources, InputCommand::Key(KeyKind::Esc));
            }
            swapping.state = State::Completing(Timeout::default(), true);
        },
    }
}

/// Whatever is seen, a step leaves everything that the next state points to in place. In
/// particular each state is left after a bounded number of ticks, since none is counted past its
/// timeout.
pub proof fn law_swapping_stays_well_formed(swapping: SwappingView, detector: Detector, key: KeyKind)
    requires
        swapping.wf(),
        swapping.looks() ==> swapping.can_use(detector),
    ensures
        swapping.step(detector, key).0.wf(),
{
    let after = swapping.step(detector, key).0;
    assert(forall|i: int| 0 <= i < after.slots.len() ==> slot_usable((#[trigger] after.slots[i]).bbox))
        by {
        if swapping.state is FindSlots && swapping.slots.len() == 0 && after.slots.len() > 0 {
            assert forall|i: int| 0 <= i < after.slots.len() implies slot_usable(
                (#[trigger] after.slots[i]).bbox,
            ) by {
                assert(slot_usable(detector.familiar_slots@[i].0));
            }
        } else {
            assert(after.slots.len() > 0 ==> after.slots.len() == swapping.slots.len());
            assert forall|i: int| 0 <= i < after.slots.len() implies slot_usable(
                (#[trigger] after.slots[i]).bbox,
            ) by {
                assert(slot_usable(swapping.slots[i].bbox));
            }
        }
    }
}

/// What a whole update makes of the player, once the familiar menu can be opened.
pub open spec fn swapping_updated(
    after: SwappingView,
    before: PlayerEntity,
    player: PlayerEntity,
) -> bool {
    if before.context.next() is None {
        // Force cancel if not from action
        player == (PlayerEntity { state: Player::Idle, ..before })
    } else if after.state matches State::Completing(_, true) {
        player == (PlayerEntity {
            state: Player::Idle,
            context: before.context.action_completed().swap_tracked(after.success),
            ..before
        })
    } else {
        &&& player.state matches Player::FamiliarsSwapping(next)
        &&& next@ == after
        &&& player == (PlayerEntity { state: player.state, ..before })
    }
}

/// Updates [`Player::FamiliarsSwapping`] contextual state.
///
/// Note: All detections of this state are blocking. But this should be acceptable for this state.
pub fn update_familiars_swapping_state(resources: &mut Resources, player: &mut PlayerEntity)
    requires
        old(player).state matches Player::FamiliarsSwapping(swapping) && swapping@.wf() && (old(
            player,
        ).context.config.familiar_key is Some ==> sees(old(resources), swapping@)),
    ensures
        ({
            let swapping = old(player).state->FamiliarsSwapping_0@;
            match old(player).context.config.familiar_key {
                None => {
                    &&& *final(player) == (PlayerEntity {
                        state: Player::Idle,
                        context: old(player).context.action_completed(),
                        ..*old(player)
                    })
                    &&& *final(resources) == *old(resources)
                },
                Some(key) => {
                    let (after, inputs) = swapping.step(seen(old(resources)), key);
                    &&& swapping_updated(after, *old(player), *final(player))
                    &&& sent(*old(resources), *final(resources), inputs)
                },
            }
        }),
        final(player).state matches Player::FamiliarsSwapping(next) ==> next@.wf(),
{
    let familiar_key: KeyKind = match player.context.config.familiar_key {
        Some(key) => key,
        None => {
            player.context.clear_action_completed();
            player.state = Player::Idle;
            return;
        },
    };
    let mut state: Player = Player::Idle;
    std::mem::swap(&mut state, &mut player.state);
    let mut swapping: FamiliarsSwapping = match state {
        Player::FamiliarsSwapping(swapping) => swapping,
        _ => vstd::pervasive::unreached(),
    };
    proof {
        law_swapping_stays_well_formed(swapping@, seen(resources), familiar_key);
    }
    match swapping.state {
        State::OpenMenu(_) => update_open_menu(resources, &mut swapping, familiar_key),
        State::FindSlots => update_find_slots(resources, &mut swapping),
        State::FreeSlots(_, _) => update_free_slots(resources, &mut swapping),
        State::FreeSlot(_, _) => update_free_slot(resources, &mut swapping),
        State::FindCards(_) => update_find_cards(resources, &mut swapping),
        State::Swapping(_, _) => update_swapping(resources, &mut swapping),
        State::Scrolling(_, _, _) => update_scrolling(resources, &mut swapping),
        State::Saving(_) => update_saving(resources, &mut swapping),
        State::Completing(_, _) => update_completing(resources, &mut swapping),
    }
    if next_action(&player.context).is_none() {
        return;
    }
    if matches!(swapping.state, State::Completing(_, true)) {
        player.context.clear_action_completed();
        if swapping.success {
            player.context.clear_familiars_swap_fail_count();
        } else {
            player.context.track_familiars_swap_fail_count();
        }
        return;
    }
    player.state = Player::FamiliarsSwapping(swapping);
}

/// Whether a card of one of those rarities was seen there.
pub open spec fn seen_swappable(
    cards: Seq<(Rect, FamiliarRank)>,
    rarities: FamiliarRarities,
    bbox: Rect,
) -> bool {
    exists|j: int|
        0 <= j < cards.len() && (#[trigger] cards[j]).0 == bbox && rarities.has(
            rarity_of(cards[j].1),
        )
}

/// Only cards of the configured rarities are ever swapped in.
pub proof fn law_only_swappable_rarities_are_remembered(
    cards: Seq<(Rect, FamiliarRank)>,
    rarities: FamiliarRarities,
    i: int,
)
    requires
        0 <= i < swappable_cards(cards, rarities).len(),
    ensures
        seen_swappable(cards, rarities, swappable_cards(cards, rarities)[i]),
    decreases cards.len(),
{
    let rest = cards.drop_last();
    let bbox = swappable_cards(cards, rarities)[i];
    if i < swappable_cards(rest, rarities).len() {
        law_only_swappable_rarities_are_remembered(rest, rarities, i);
        let j = choose|j: int|
            0 <= j < rest.len() && (#[trigger] rest[j]).0 == bbox && rarities.has(
                rarity_of(rest[j].1),
            );
        assert(cards[j].0 == bbox);
    } else {
        assert(cards[cards.len() - 1].0 == bbox);
    }
}

/// A slot that may not be swapped is never clicked: no step from it leads to freeing it.
pub proof fn law_only_swappable_slots_are_freed(
    swapping: SwappingView,
    index: usize,
    was_freeing: bool,
    detector: Detector,
)
    requires
        !swapping.can_free(index),
    ensures
        !(swapping.free_slots_step(index, was_freeing, detector).0.state is FreeSlot),
{
}

/// Once swapping has succeeded, it stays so until the menu is closed.
pub proof fn law_success_is_kept(swapping: SwappingView, detector: Detector, key: KeyKind)
    requires
        swapping.success,
    ensures
        swapping.step(detector, key).0.success,
{
}

} // verus!
