use std::sync::Arc;

use komari::bridge::{InputCommand, KeyKind, MouseKind};
use komari::clock::Instant;
use komari::detect::{Detector, FamiliarLevel, FamiliarRank};
use komari::ecs::{OperationState, PlayerEntity, Resources};
use komari::geometry::Rect;
use komari::models::actions::{FamiliarRarities, SwappableFamiliars};
use komari::player::actions::{FamiliarsSwap, PlayerAction};
use komari::player::context::{PlayerConfiguration, PlayerContext};
use komari::player::familiars_swap::{
    update_completing, update_familiars_swapping_state, update_find_cards, update_find_slots,
    update_free_slot, update_free_slots, update_open_menu, update_saving, update_scrolling,
    update_swapping, FamiliarSlot, FamiliarsSwapping, State, FAMILIAR_SLOTS,
};
use komari::player::timeout::Timeout;
use komari::player::Player;

const BBOX: Rect = Rect { x: 0, y: 0, width: 0, height: 0 };

fn mock_detector() -> Detector {
    Detector {
        lie_detector_shape_preparing: false,
        lie_detector_shape: None,
        familiar_menu_opened: false,
        familiar_slots: vec![],
        familiar_free_boxes: vec![],
        familiar_level_button: None,
        familiar_hover_level: None,
        familiar_cards: vec![],
        familiar_scrollbar: None,
        familiar_save_button: None,
    }
}

fn mock_resources(detector: Option<Detector>) -> Resources {
    Resources::new(detector.map(Arc::new), OperationState::Running, Instant { nanos: 0 })
}

fn mock_swapping(slots: SwappableFamiliars) -> FamiliarsSwapping {
    FamiliarsSwapping::new(slots, FamiliarRarities { rare: false, epic: false })
}

fn slot(is_free: bool) -> FamiliarSlot {
    FamiliarSlot { bbox: BBOX, is_free }
}

fn mouse_inputs(resources: &Resources) -> usize {
    resources.input.iter().filter(|input| matches!(input, InputCommand::Mouse(_, _, _))).count()
}

fn running(current: u32) -> Timeout {
    Timeout { current, total: 0, started: true }
}

#[test]
fn update_free_slots_advance_index_if_already_free() {
    let mut resources = mock_resources(None);
    let mut swapping = mock_swapping(SwappableFamiliars::All);
    swapping.slots.push(slot(false));
    swapping.slots.push(slot(true)); // Index 1 already free
    swapping.state = State::FreeSlots(1, false);

    update_free_slots(&mut resources, &mut swapping);

    assert!(matches!(swapping.state, State::FreeSlots(0, false)));
}

#[test]
fn update_free_slots_move_to_find_cards() {
    let mut detector = mock_detector();
    detector.familiar_level_button = Some(Rect::new(10, 10, 10, 10));
    let mut resources = mock_resources(Some(detector));

    let mut swapping = mock_swapping(SwappableFamiliars::All);
    swapping.slots.push(slot(true));
    swapping.state = State::FreeSlots(0, false);

    update_free_slots(&mut resources, &mut swapping);

    assert_eq!(resources.input, vec![InputCommand::Mouse(15, 15, MouseKind::Click)]);
    assert!(matches!(swapping.state, State::FindCards(_)));
}

#[test]
fn update_free_slots_can_free() {
    let mut resources = mock_resources(None);
    let mut swapping = mock_swapping(SwappableFamiliars::All);
    swapping.slots.push(slot(false));
    // Second slot not free but can free because of SwappableFamiliars::All
    swapping.slots.push(slot(false));
    swapping.state = State::FreeSlots(1, false);

    update_free_slots(&mut resources, &mut swapping);

    assert!(matches!(swapping.state, State::FreeSlot(_, 1)));
}

#[test]
fn update_free_slots_cannot_free() {
    let mut resources = mock_resources(None);
    let mut swapping = mock_swapping(SwappableFamiliars::Last);
    swapping.slots.push(slot(false));
    // Second slot not free but also cannot free because of SwappableFamiliars::Last
    swapping.slots.push(slot(false));
    swapping.state = State::FreeSlots(1, false);

    update_free_slots(&mut resources, &mut swapping);

    // Completing because there is no free slot to swap
    assert!(matches!(swapping.state, State::Completing(_, _)));
}

#[test]
fn update_free_slot_detect_level_5_and_click() {
    let mut detector = mock_detector();
    detector.familiar_hover_level = Some(FamiliarLevel::Level5);
    let mut resources = mock_resources(Some(detector));

    let mut swapping = mock_swapping(SwappableFamiliars::All);
    swapping.slots.push(slot(false));
    // One tick before the level is looked at
    swapping.state = State::FreeSlot(running(4), 0);

    update_free_slot(&mut resources, &mut swapping);

    // Click, click, move to rest
    assert_eq!(mouse_inputs(&resources), 3);
    // Should still be in FreeSlot (updated)
    assert!(matches!(swapping.state, State::FreeSlot(_, 0)));
}

#[test]
fn update_free_slot_detect_free_and_set_flag() {
    let mut detector = mock_detector();
    detector.familiar_free_boxes.push(BBOX);
    let mut resources = mock_resources(Some(detector));

    let mut swapping = mock_swapping(SwappableFamiliars::All);
    swapping.slots.push(slot(false));
    // One tick before the slot is checked
    swapping.state = State::FreeSlot(running(9), 0);

    update_free_slot(&mut resources, &mut swapping);

    assert!(swapping.slots[0].is_free);
    assert!(matches!(swapping.state, State::FreeSlot(Timeout { current: 10, .. }, 0)));
}

#[test]
fn update_swapping_detect_level_5_and_move_to_rest() {
    let mut detector = mock_detector();
    detector.familiar_hover_level = Some(FamiliarLevel::Level5);
    let mut resources = mock_resources(Some(detector));

    let mut swapping = mock_swapping(SwappableFamiliars::All);
    swapping.cards.push(BBOX);
    swapping.state = State::Swapping(running(4), 0);

    update_swapping(&mut resources, &mut swapping);

    assert_eq!(mouse_inputs(&resources), 1);
    assert!(matches!(swapping.state, State::Swapping(_, 0)));
}

#[test]
fn update_swapping_detect_level_other_double_click_and_move_to_rest() {
    let mut detector = mock_detector();
    detector.familiar_hover_level = Some(FamiliarLevel::LevelOther);
    let mut resources = mock_resources(Some(detector));

    let mut swapping = mock_swapping(SwappableFamiliars::All);
    swapping.cards.push(BBOX);
    swapping.state = State::Swapping(running(4), 0);

    update_swapping(&mut resources, &mut swapping);

    assert_eq!(mouse_inputs(&resources), 2);
    assert!(matches!(swapping.state, State::Swapping(_, 0)));
}

#[test]
fn update_swapping_timeout_advance_to_next_card_if_slot_and_card_available() {
    let mut detector = mock_detector();
    detector.familiar_free_boxes.push(BBOX);
    let mut resources = mock_resources(Some(detector));

    let mut swapping = mock_swapping(SwappableFamiliars::All);
    swapping.cards.push(BBOX);
    swapping.cards.push(BBOX);
    for _ in 0..FAMILIAR_SLOTS {
        swapping.slots.push(slot(true));
    }
    swapping.state = State::Swapping(running(10), 0);

    update_swapping(&mut resources, &mut swapping);

    assert!(matches!(swapping.state, State::Swapping(_, 1)));
}

#[test]
fn update_swapping_timeout_completing_if_max_check_exceeded() {
    let mut detector = mock_detector();
    detector.familiar_free_boxes.push(BBOX);
    let mut resources = mock_resources(Some(detector));

    let mut swapping = mock_swapping(SwappableFamiliars::All);
    swapping.cards.push(BBOX);
    for _ in 0..FAMILIAR_SLOTS {
        swapping.slots.push(slot(true));
    }
    swapping.state = State::Swapping(running(10), 0);

    update_swapping(&mut resources, &mut swapping);

    assert!(matches!(swapping.state, State::Completing(_, false)));
}

#[test]
fn update_saving_detect_and_click_save_button() {
    let mut detector = mock_detector();
    detector.familiar_save_button = Some(BBOX);
    let mut resources = mock_resources(Some(detector));

    let mut swapping = mock_swapping(SwappableFamiliars::All);
    swapping.state = State::Saving(Timeout::default());

    update_saving(&mut resources, &mut swapping);

    assert_eq!(mouse_inputs(&resources), 1);
    assert!(matches!(swapping.state, State::Saving(_)));
}

#[test]
fn menu_is_opened_with_a_key() {
    let mut swapping = mock_swapping(SwappableFamiliars::All);
    let mut resources = mock_resources(Some(mock_detector()));

    swapping.state = State::OpenMenu(running(59));
    update_open_menu(&mut resources, &mut swapping, KeyKind::F);
    assert_eq!(resources.input, vec![InputCommand::Key(KeyKind::F)]);

    // A menu that does not open is not worth failing for.
    swapping.state = State::OpenMenu(running(120));
    update_open_menu(&mut resources, &mut swapping, KeyKind::F);
    assert!(swapping.success);
    assert!(matches!(swapping.state, State::Completing(_, false)));
}

#[test]
fn slots_are_found_all_or_not_at_all() {
    let mut detector = mock_detector();
    detector.familiar_slots = vec![(BBOX, false), (BBOX, true), (BBOX, false)];
    let mut resources = mock_resources(Some(detector));
    let mut swapping = mock_swapping(SwappableFamiliars::All);
    swapping.state = State::FindSlots;
    update_find_slots(&mut resources, &mut swapping);
    assert_eq!(swapping.slots, vec![slot(false), slot(true), slot(false)]);
    assert!(matches!(swapping.state, State::FreeSlots(2, false)));

    let mut detector = mock_detector();
    detector.familiar_slots = vec![(BBOX, false), (BBOX, true)];
    let mut resources = mock_resources(Some(detector));
    let mut swapping = mock_swapping(SwappableFamiliars::All);
    swapping.state = State::FindSlots;
    update_find_slots(&mut resources, &mut swapping);
    assert!(swapping.slots.is_empty());
    assert!(matches!(swapping.state, State::Completing(_, false)));
}

#[test]
fn slot_that_stays_occupied_opens_the_menu_again() {
    let mut resources = mock_resources(None);
    let mut swapping = mock_swapping(SwappableFamiliars::SecondAndLast);
    for _ in 0..FAMILIAR_SLOTS {
        swapping.slots.push(slot(false));
    }
    swapping.state = State::FreeSlots(1, true);
    update_free_slots(&mut resources, &mut swapping);
    assert!(swapping.slots.is_empty());
    assert!(matches!(swapping.state, State::OpenMenu(_)));
}

#[test]
fn only_swappable_rarities_are_remembered() {
    let rare = Rect::new(1, 1, 2, 2);
    let epic = Rect::new(3, 3, 2, 2);
    let mut detector = mock_detector();
    detector.familiar_cards = vec![(rare, FamiliarRank::Rare), (epic, FamiliarRank::Epic)];
    let mut resources = mock_resources(Some(detector));
    let mut swapping = FamiliarsSwapping::new(
        SwappableFamiliars::All,
        FamiliarRarities { rare: false, epic: true },
    );
    swapping.state = State::FindCards(running(5));
    update_find_cards(&mut resources, &mut swapping);
    assert_eq!(swapping.cards, vec![epic]);
    assert!(matches!(swapping.state, State::Swapping(_, 0)));

    // Without a card of such a rarity there may be more further down.
    let mut swapping = mock_swapping(SwappableFamiliars::All);
    swapping.state = State::FindCards(running(5));
    update_find_cards(&mut resources, &mut swapping);
    assert!(matches!(swapping.state, State::Scrolling(_, None, 0)));
}

#[test]
fn scrolling_is_tried_again_and_given_up() {
    let bar = Rect::new(100, 200, 10, 20);
    let mut detector = mock_detector();
    detector.familiar_scrollbar = Some(bar);
    let mut resources = mock_resources(Some(detector));
    let mut swapping = mock_swapping(SwappableFamiliars::All);

    swapping.state = State::Scrolling(Timeout::default(), None, 0);
    update_scrolling(&mut resources, &mut swapping);
    assert_eq!(resources.input, vec![InputCommand::Mouse(105, 210, MouseKind::Scroll)]);

    swapping.state = State::Scrolling(running(10), Some(bar), 2);
    update_scrolling(&mut resources, &mut swapping);
    assert!(matches!(swapping.state, State::Scrolling(_, Some(_), 3)));

    swapping.state = State::Scrolling(running(10), Some(bar), 3);
    update_scrolling(&mut resources, &mut swapping);
    assert!(matches!(swapping.state, State::Completing(_, false)));

    swapping.state = State::Scrolling(running(10), Some(Rect::new(100, 190, 10, 20)), 3);
    update_scrolling(&mut resources, &mut swapping);
    assert!(matches!(swapping.state, State::FindCards(_)));
}

#[test]
fn open_menu_is_closed_at_the_end() {
    let mut detector = mock_detector();
    detector.familiar_menu_opened = true;
    let mut resources = mock_resources(Some(detector));
    let mut swapping = mock_swapping(SwappableFamiliars::All);
    swapping.state = State::Completing(running(20), false);
    update_completing(&mut resources, &mut swapping);
    assert_eq!(resources.input, vec![InputCommand::Key(KeyKind::Esc)]);
    assert!(matches!(swapping.state, State::Completing(_, true)));
}

fn mock_player(swapping: FamiliarsSwapping) -> PlayerEntity {
    let mut context = PlayerContext::new(PlayerConfiguration {
        jump_key: KeyKind::Space,
        teleport_key: None,
        familiar_key: Some(KeyKind::F),
        has_extended_teleport_range: false,
        disable_teleport_on_fall: false,
        move_timeout: 5,
        grappling_threshold: 24,
        familiars_swap_fail_limit: 3,
    });
    context.set_priority_action(
        Some(3),
        PlayerAction::FamiliarsSwap(FamiliarsSwap {
            swappable_slots: SwappableFamiliars::All,
            swappable_rarities: FamiliarRarities { rare: true, epic: true },
        }),
    );
    PlayerEntity {
        state: Player::FamiliarsSwapping(swapping),
        context,
        last_destinations: None,
        can_override_state: false,
        can_override_state_anywhere: false,
    }
}

#[test]
fn failures_are_counted_until_a_success() {
    for (success, count) in [(false, 2), (true, 0)] {
        let mut swapping = mock_swapping(SwappableFamiliars::All);
        swapping.state = State::Completing(running(20), false);
        swapping.success = success;
        let mut player = mock_player(swapping);
        player.context.familiars_swap_fail_count = 1;

        let mut resources = mock_resources(Some(mock_detector()));
        update_familiars_swapping_state(&mut resources, &mut player);

        assert!(matches!(player.state, Player::Idle));
        assert!(!player.context.has_priority_action());
        assert_eq!(player.context.familiars_swap_fail_count, count);
    }
}

#[test]
fn swapping_without_an_action_is_cancelled() {
    let mut player = mock_player(mock_swapping(SwappableFamiliars::All));
    player.context.clear_actions_aborted();
    update_familiars_swapping_state(&mut mock_resources(Some(mock_detector())), &mut player);
    assert!(matches!(player.state, Player::Idle));
    assert_eq!(player.context.familiars_swap_fail_count, 0);
}
