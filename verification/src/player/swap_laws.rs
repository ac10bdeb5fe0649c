//! What swapping familiars does in each of its states, and what it never does.

use vstd::prelude::*;

use crate::bridge::{InputCommand, KeyKind, MouseKind};
use crate::detect::{Detector, FamiliarLevel, FamiliarRank};
use crate::ecs::{PlayerEntity, Resources};
use crate::geometry::Rect;
use crate::models::actions::{FamiliarRarities, SwappableFamiliars};
use crate::player::familiars_swap::{
    sent, swappable_cards, swapping_updated, FamiliarSlot, State, SwappingView,
};
use crate::player::timeout::Timeout;
use crate::player::Player;

verus! {

/// A timeout of which no tick has passed.
pub open spec fn unstarted() -> Timeout {
    Timeout { current: 0, total: 0, started: false }
}

/// The same timeout one tick later.
pub open spec fn tick_later(timeout: Timeout) -> Timeout {
    Timeout {
        current: (timeout.current + 1) as u32,
        total: (timeout.total + 1) as u32,
        started: true,
    }
}

/// Whether nothing is clicked.
pub open spec fn clicks_nothing(inputs: Seq<InputCommand>) -> bool {
    forall|i: int|
        0 <= i < inputs.len() ==> !(#[trigger] inputs[i] matches InputCommand::Mouse(
            _,
            _,
            MouseKind::Click,
        ))
}

/// The same swapping in another state.
pub open spec fn in_state(swapping: SwappingView, state: State) -> SwappingView {
    SwappingView { state, ..swapping }
}

/// The same swapping about to end, as a success where it was one already or is one now.
pub open spec fn ending(swapping: SwappingView, success: bool) -> SwappingView {
    SwappingView {
        state: State::Completing(unstarted(), false),
        success: swapping.success || success,
        ..swapping
    }
}

/// Whether one of the slots is free.
pub open spec fn some_free(slots: Seq<FamiliarSlot>) -> bool {
    exists|i: int| 0 <= i < slots.len() && (#[trigger] slots[i]).is_free
}

pub open spec fn click_at(bbox: Rect) -> InputCommand {
    InputCommand::Mouse(bbox.middle().x, bbox.middle().y, MouseKind::Click)
}

pub open spec fn move_to(x: int, y: int) -> InputCommand {
    InputCommand::Mouse(x as i32, y as i32, MouseKind::Move)
}

/// A familiar is taken out of its slot only where it was just seen to be of the highest level.
pub proof fn law_only_the_highest_level_is_taken_out(
    swapping: SwappingView,
    detector: Detector,
    key: KeyKind,
)
    requires
        swapping.state is FreeSlot,
        detector.familiar_hover_level != Some(FamiliarLevel::Level5),
    ensures
        clicks_nothing(swapping.step(detector, key).1),
{
}

/// In the fifth tick the level of the familiar in a slot decides: of the highest level, it is taken
/// out by two clicks. Of another one, it stays and the slot before is looked at; where there is none,
/// cards are looked for if a slot is free, and otherwise swapping ends well. As long as the level is
/// not seen, nothing is done.
pub proof fn law_level_decides_what_becomes_of_a_slot(
    swapping: SwappingView,
    detector: Detector,
    key: KeyKind,
    timeout: Timeout,
    index: usize,
)
    requires
        swapping.state == State::FreeSlot(timeout, index),
        timeout.started,
        timeout.current == 4,
    ensures
        ({
            let (after, inputs) = swapping.step(detector, key);
            let bbox = swapping.slots[index as int].bbox;
            let on = in_state(swapping, State::FreeSlot(tick_later(timeout), index));
            match detector.familiar_hover_level {
                Some(FamiliarLevel::Level5) => {
                    &&& after == on
                    &&& inputs == seq![
                        click_at(bbox),
                        InputCommand::Sleep(100),
                        click_at(bbox),
                        InputCommand::Sleep(100),
                        move_to(bbox.middle().x as int, bbox.y - 20),
                    ]
                },
                Some(FamiliarLevel::LevelOther) => if index > 0 {
                    &&& after == in_state(swapping, State::FreeSlots((index - 1) as usize, false))
                    &&& inputs.len() == 0
                } else if some_free(swapping.slots) {
                    &&& after == in_state(swapping, State::FindCards(unstarted()))
                    &&& inputs == seq![
                        move_to(swapping.mouse_rest.x as int, swapping.mouse_rest.y as int),
                    ]
                } else {
                    &&& after == ending(swapping, true)
                    &&& inputs.len() == 0
                },
                None => after == on && inputs.len() == 0,
            }
        }),
{
}

/// In all other ticks of a slot nothing is clicked: the mouse goes below it first; in the tenth tick
/// it is seen whether the slot is free now, which is noted, or else it is tried again; and after that
/// the slots are gone through again.
pub proof fn law_freeing_a_slot_takes_its_time(
    swapping: SwappingView,
    detector: Detector,
    key: KeyKind,
    timeout: Timeout,
    index: usize,
)
    requires
        swapping.state == State::FreeSlot(timeout, index),
        0 <= index < swapping.slots.len(),
        !(timeout.started && timeout.current == 4),
    ensures
        ({
            let (after, inputs) = swapping.step(detector, key);
            let slot = swapping.slots[index as int];
            let seen_free = |bbox: Rect| detector.familiar_free_boxes@.contains(bbox);
            &&& clicks_nothing(inputs)
            &&& !timeout.started ==> {
                &&& after == in_state(
                    swapping,
                    State::FreeSlot(Timeout { started: true, ..timeout }, index),
                )
                &&& inputs == seq![move_to(slot.bbox.middle().x as int, slot.bbox.y + 20)]
            }
            &&& timeout.started ==> inputs.len() == 0
            &&& timeout.started && timeout.current >= 10 ==> after == in_state(
                swapping,
                State::FreeSlots(index, true),
            )
            &&& timeout.started && timeout.current < 9 ==> after == in_state(
                swapping,
                State::FreeSlot(tick_later(timeout), index),
            )
            &&& timeout.started && timeout.current == 9 ==> {
                &&& after.slots.len() == swapping.slots.len()
                &&& after == (SwappingView {
                    state: after.state,
                    slots: after.slots,
                    ..swapping
                })
                &&& seen_free(slot.bbox) ==> {
                    &&& after.state == State::FreeSlot(tick_later(timeout), index)
                    &&& after.slots == swapping.slots.update(
                        index as int,
                        FamiliarSlot { is_free: true, ..slot },
                    )
                }
                &&& !seen_free(slot.bbox) ==> {
                    &&& after.state == State::FreeSlot(unstarted(), index)
                    &&& forall|i: int|
                        0 <= i < after.slots.len() ==> #[trigger] after.slots[i] == if i <= index {
                            swapping.slots[i]
                        } else {
                            FamiliarSlot {
                                is_free: seen_free(swapping.slots[i].bbox),
                                ..swapping.slots[i]
                            }
                        }
                }
            }
        }),
{
}

/// The slots are gone through from the last one on: a free one is passed, one that may be swapped is
/// freed, and the first other one ends that. Where a slot could not be freed, the menu is opened
/// again. Once that is over, cards are looked for if a slot is free, and otherwise swapping ends well.
pub proof fn law_slots_are_gone_through_from_the_last(
    swapping: SwappingView,
    detector: Detector,
    key: KeyKind,
    index: usize,
    was_freeing: bool,
)
    requires
        swapping.state == State::FreeSlots(index, was_freeing),
        0 <= index < swapping.slots.len(),
    ensures
        ({
            let (after, inputs) = swapping.step(detector, key);
            let is_free = swapping.slots[index as int].is_free;
            let may_swap = match swapping.swappable_slots {
                SwappableFamiliars::All => true,
                SwappableFamiliars::Last => index == 2,
                SwappableFamiliars::SecondAndLast => index == 1 || index == 2,
            };
            let rest = move_to(swapping.mouse_rest.x as int, swapping.mouse_rest.y as int);
            if is_free && index > 0 {
                &&& after == in_state(swapping, State::FreeSlots((index - 1) as usize, false))
                &&& inputs.len() == 0
            } else if !is_free && may_swap && !was_freeing {
                &&& after == in_state(swapping, State::FreeSlot(unstarted(), index))
                &&& inputs.len() == 0
            } else if !is_free && may_swap {
                &&& after == (SwappingView {
                    state: State::OpenMenu(unstarted()),
                    slots: seq![],
                    ..swapping
                })
                &&& inputs.len() == 0
            } else if some_free(swapping.slots) {
                &&& after == in_state(swapping, State::FindCards(unstarted()))
                &&& inputs == match detector.familiar_level_button {
                    Some(bbox) => seq![click_at(bbox)],
                    None => seq![rest],
                }
            } else {
                &&& after == ending(swapping, true)
                &&& inputs.len() == 0
            }
        }),
{
}

/// The key that opens the menu is pressed once, in the sixtieth tick, after the mouse was moved out of
/// the way. When the time is over, the slots are looked for if the menu is open; otherwise swapping
/// ends, which counts as a success.
pub proof fn law_menu_is_opened_once(
    swapping: SwappingView,
    detector: Detector,
    key: KeyKind,
    timeout: Timeout,
)
    requires
        swapping.state == State::OpenMenu(timeout),
    ensures
        ({
            let (after, inputs) = swapping.step(detector, key);
            if !timeout.started {
                &&& after == in_state(
                    swapping,
                    State::OpenMenu(Timeout { started: true, ..timeout }),
                )
                &&& inputs == seq![
                    move_to(swapping.mouse_rest.x as int, swapping.mouse_rest.y as int),
                ]
            } else if timeout.current >= 120 {
                &&& inputs.len() == 0
                &&& after == if detector.familiar_menu_opened {
                    in_state(swapping, State::FindSlots)
                } else {
                    ending(swapping, true)
                }
            } else {
                &&& after == in_state(swapping, State::OpenMenu(tick_later(timeout)))
                &&& inputs == if timeout.current == 59 {
                    seq![InputCommand::Key(key)]
                } else {
                    seq![]
                }
            }
        }),
{
}

/// Three slots are remembered as they are seen, unless they are known already. Where another number
/// of them is seen, swapping ends, which counts as a success.
pub proof fn law_three_slots_are_found(swapping: SwappingView, detector: Detector, key: KeyKind)
    requires
        swapping.state == State::FindSlots,
    ensures
        ({
            let (after, inputs) = swapping.step(detector, key);
            let seen = detector.familiar_slots@;
            &&& inputs.len() == 0
            &&& if swapping.slots.len() > 0 {
                after == in_state(swapping, State::FreeSlots(2, false))
            } else if seen.len() == 3 {
                &&& after == (SwappingView {
                    state: State::FreeSlots(2, false),
                    slots: after.slots,
                    ..swapping
                })
                &&& after.slots.len() == 3
                &&& forall|i: int|
                    0 <= i < 3 ==> (#[trigger] after.slots[i]).bbox == seen[i].0
                        && after.slots[i].is_free == seen[i].1
            } else {
                after == ending(swapping, true)
            }
        }),
{
}

/// The cards that may be swapped in are those of the chosen rarities, in the order in which they are
/// seen.
pub proof fn law_cards_of_the_chosen_rarities_are_found(
    cards: Seq<(Rect, FamiliarRank)>,
    rarities: FamiliarRarities,
)
    ensures
        swappable_cards(cards, rarities) == cards.filter(
            |card: (Rect, FamiliarRank)|
                match card.1 {
                    FamiliarRank::Rare => rarities.rare,
                    FamiliarRank::Epic => rarities.epic,
                },
        ).map_values(|card: (Rect, FamiliarRank)| card.0),
    decreases cards.len(),
{
    reveal(Seq::filter);
    let chosen = |card: (Rect, FamiliarRank)|
        match card.1 {
            FamiliarRank::Rare => rarities.rare,
            FamiliarRank::Epic => rarities.epic,
        };
    let bbox = |card: (Rect, FamiliarRank)| card.0;
    if cards.len() > 0 {
        law_cards_of_the_chosen_rarities_are_found(cards.drop_last(), rarities);
        let before = cards.drop_last().filter(chosen);
        assert(before.push(cards.last()).map_values(bbox) =~= before.map_values(bbox).push(
            cards.last().0,
        ));
    } else {
        assert(cards.filter(chosen).map_values(bbox) =~= seq![]);
    }
    assert(swappable_cards(cards, rarities) =~= cards.filter(chosen).map_values(bbox));
}

/// Cards are looked for after five ticks, unless they are known already. The first one is then tried,
/// or the list is scrolled if there is none. Nothing is clicked for that.
pub proof fn law_cards_are_looked_for_after_five_ticks(
    swapping: SwappingView,
    detector: Detector,
    key: KeyKind,
    timeout: Timeout,
)
    requires
        swapping.state == State::FindCards(timeout),
    ensures
        ({
            let (after, inputs) = swapping.step(detector, key);
            let cards = if swapping.cards.len() > 0 {
                swapping.cards
            } else {
                swappable_cards(detector.familiar_cards@, swapping.swappable_rarities)
            };
            &&& inputs.len() == 0
            &&& if !timeout.started {
                after == in_state(
                    swapping,
                    State::FindCards(Timeout { started: true, ..timeout }),
                )
            } else if timeout.current < 5 {
                after == in_state(swapping, State::FindCards(tick_later(timeout)))
            } else {
                after == (SwappingView {
                    cards,
                    state: if cards.len() == 0 {
                        State::Scrolling(unstarted(), None, 0)
                    } else {
                        State::Swapping(unstarted(), 0)
                    },
                    ..swapping
                })
            }
        }),
{
}

/// A card is clicked only where the familiar on it was just seen not to be of the highest level, in
/// the fifth tick. Of the highest level, it is passed.
pub proof fn law_cards_of_the_highest_level_are_passed(
    swapping: SwappingView,
    detector: Detector,
    key: KeyKind,
    timeout: Timeout,
    index: usize,
)
    requires
        swapping.state == State::Swapping(timeout, index),
    ensures
        ({
            let (after, inputs) = swapping.step(detector, key);
            let card = swapping.cards[index as int];
            let rest = move_to(swapping.mouse_rest.x as int, swapping.mouse_rest.y as int);
            let on = in_state(swapping, State::Swapping(tick_later(timeout), index));
            &&& !timeout.started ==> {
                &&& after == in_state(
                    swapping,
                    State::Swapping(Timeout { started: true, ..timeout }, index),
                )
                &&& inputs == seq![move_to(card.middle().x as int, card.middle().y as int)]
            }
            &&& timeout.started && timeout.current < 10 && timeout.current != 4 ==> after == on
                && inputs.len() == 0
            &&& timeout.started && timeout.current == 4 ==> match detector.familiar_hover_level {
                Some(FamiliarLevel::Level5) => after == on && inputs == seq![rest],
                Some(FamiliarLevel::LevelOther) => after == on && inputs == seq![
                    click_at(card),
                    InputCommand::Sleep(100),
                    rest,
                ],
                None => inputs.len() == 0 && after == if detector.familiar_menu_opened {
                    on
                } else {
                    ending(swapping, false)
                },
            }
        }),
{
}

/// After ten ticks of a card it is seen which slots are free. Where none is any more, that is saved.
/// Otherwise the next card is tried, but no more than ten of them; after the last one swapping ends.
pub proof fn law_cards_are_tried_until_no_slot_is_free(
    swapping: SwappingView,
    detector: Detector,
    key: KeyKind,
    timeout: Timeout,
    index: usize,
)
    requires
        swapping.state == State::Swapping(timeout, index),
        timeout.started,
        timeout.current >= 10,
    ensures
        ({
            let (after, inputs) = swapping.step(detector, key);
            &&& inputs.len() == 0
            &&& after == (SwappingView { state: after.state, slots: after.slots, ..swapping })
            &&& after.slots.len() == swapping.slots.len()
            &&& forall|i: int|
                0 <= i < after.slots.len() ==> (#[trigger] after.slots[i]).bbox
                    == swapping.slots[i].bbox && after.slots[i].is_free
                    == detector.familiar_free_boxes@.contains(swapping.slots[i].bbox)
            &&& after.state == if !some_free(after.slots) {
                State::Saving(unstarted())
            } else if index + 1 < swapping.cards.len() && index < 9 {
                State::Swapping(unstarted(), (index + 1) as usize)
            } else {
                State::Completing(unstarted(), false)
            }
        }),
{
}

/// The list is scrolled where its scrollbar is. Where that has moved by ten pixels, the cards are
/// looked for anew; otherwise it is tried up to three times more. Without a scrollbar swapping ends.
pub proof fn law_list_is_scrolled_until_it_moves(
    swapping: SwappingView,
    detector: Detector,
    key: KeyKind,
    timeout: Timeout,
    scrollbar: Option<Rect>,
    retry_count: u32,
)
    requires
        swapping.state == State::Scrolling(timeout, scrollbar, retry_count),
        timeout.started ==> scrollbar is Some,
    ensures
        ({
            let (after, inputs) = swapping.step(detector, key);
            &&& clicks_nothing(inputs)
            &&& !timeout.started ==> match detector.familiar_scrollbar {
                None => after == ending(swapping, false) && inputs.len() == 0,
                Some(seen) => {
                    &&& after == in_state(
                        swapping,
                        State::Scrolling(
                            Timeout { started: true, ..timeout },
                            Some(seen),
                            retry_count,
                        ),
                    )
                    &&& inputs == seq![
                        InputCommand::Mouse(seen.middle().x, seen.middle().y, MouseKind::Scroll),
                    ]
                },
            }
            &&& timeout.started && timeout.current < 10 ==> {
                &&& after == in_state(
                    swapping,
                    State::Scrolling(tick_later(timeout), scrollbar, retry_count),
                )
                &&& inputs == if timeout.current == 4 {
                    seq![
                        move_to(
                            scrollbar->0.middle().x + 70,
                            scrollbar->0.middle().y as int,
                        ),
                    ]
                } else {
                    seq![]
                }
            }
            &&& timeout.started && timeout.current >= 10 ==> {
                &&& inputs.len() == 0
                &&& match detector.familiar_scrollbar {
                    None => after == ending(swapping, false),
                    Some(seen) => if seen.y <= scrollbar->0.y - 10 || seen.y >= scrollbar->0.y + 10
                    {
                        after == (SwappingView {
                            cards: seq![],
                            state: State::FindCards(unstarted()),
                            ..swapping
                        })
                    } else if retry_count < 3 {
                        after == in_state(
                            swapping,
                            State::Scrolling(unstarted(), Some(seen), (retry_count + 1) as u32),
                        )
                    } else {
                        after == ending(swapping, false)
                    },
                }
            }
        }),
{
}

/// What was swapped is saved by one click, and counts as a success once twenty ticks have passed.
/// Without the button to do so swapping ends, and is no success by that.
pub proof fn law_saving_makes_it_a_success(
    swapping: SwappingView,
    detector: Detector,
    key: KeyKind,
    timeout: Timeout,
)
    requires
        swapping.state == State::Saving(timeout),
    ensures
        ({
            let (after, inputs) = swapping.step(detector, key);
            if !timeout.started {
                match detector.familiar_save_button {
                    Some(button) => {
                        &&& after == in_state(
                            swapping,
                            State::Saving(Timeout { started: true, ..timeout }),
                        )
                        &&& inputs == seq![click_at(button)]
                    },
                    None => after == ending(swapping, false) && inputs.len() == 0,
                }
            } else if timeout.current >= 20 {
                after == ending(swapping, true) && inputs.len() == 0
            } else {
                &&& after == in_state(swapping, State::Saving(tick_later(timeout)))
                &&& inputs.len() == 0
            }
        }),
{
}

/// In the end, after twenty ticks, the menu is closed if it is still open, and swapping is over.
pub proof fn law_menu_is_closed_in_the_end(
    swapping: SwappingView,
    detector: Detector,
    key: KeyKind,
    timeout: Timeout,
    completed: bool,
)
    requires
        swapping.state == State::Completing(timeout, completed),
    ensures
        ({
            let (after, inputs) = swapping.step(detector, key);
            if timeout.started && timeout.current >= 20 {
                &&& after == in_state(swapping, State::Completing(unstarted(), true))
                &&& inputs == if detector.familiar_menu_opened {
                    seq![InputCommand::Key(KeyKind::Esc)]
                } else {
                    seq![]
                }
            } else {
                &&& inputs.len() == 0
                &&& after == in_state(
                    swapping,
                    State::Completing(
                        if timeout.started {
                            tick_later(timeout)
                        } else {
                            Timeout { started: true, ..timeout }
                        },
                        completed,
                    ),
                )
            }
        }),
{
}

/// When swapping is over, the player is idle, has one action less to carry out, and it is counted
/// whether that has failed: a success starts the count over. Without an action swapping is given up
/// at once, and in all other cases it goes on and the player is told nothing new.
pub proof fn law_swapping_ends_an_action(
    after: SwappingView,
    before: PlayerEntity,
    player: PlayerEntity,
)
    requires
        swapping_updated(after, before, player),
    ensures
        ({
            let has_action = before.context.priority_action is Some
                || before.context.normal_action is Some;
            let over = after.state matches State::Completing(_, true);
            let old = before.context;
            let new = player.context;
            &&& !has_action ==> player.state is Idle && new == old
            &&& has_action && !over ==> {
                &&& player.state matches Player::FamiliarsSwapping(next)
                &&& next@ == after
                &&& new == old
            }
            &&& has_action && over ==> {
                &&& player.state is Idle
                &&& old.priority_action is Some ==> {
                    &&& new.priority_action is None && new.priority_action_id is None
                    &&& new.normal_action == old.normal_action
                    &&& new.normal_action_id == old.normal_action_id
                }
                &&& old.priority_action is None ==> {
                    &&& new.normal_action is None && new.normal_action_id is None
                    &&& new.priority_action is None
                }
                &&& after.success ==> new.familiars_swap_fail_count == 0
                &&& !after.success && old.familiars_swap_fail_count < u32::MAX
                    ==> new.familiars_swap_fail_count == old.familiars_swap_fail_count + 1
            }
        }),
{
}

/// Inputs are sent after those that are already to be sent, and nothing else changes by that.
pub proof fn law_inputs_are_sent_in_order(
    before: Resources,
    after: Resources,
    inputs: Seq<InputCommand>,
)
    requires
        sent(before, after, inputs),
    ensures
        after.input@.len() == before.input@.len() + inputs.len(),
        after.input@.take(before.input@.len() as int) == before.input@,
        after.input@.skip(before.input@.len() as int) == inputs,
        after.tick == before.tick,
        after.operation == before.operation,
        after.detector == before.detector,
        after.debug == before.debug,
        after.lie_detector_count == before.lie_detector_count,
{
    assert(after.input@.take(before.input@.len() as int) =~= before.input@);
    assert(after.input@.skip(before.input@.len() as int) =~= inputs);
}

} // verus!
