use backend::daily::{DailyQuestId, WorldMapRegion};
use backend::ecs::{Detections, Draws, InputEvent, MouseKind, OperationState, Resources};
use backend::geometry::{Point, Rect};
use backend::models::KeyKind;
use backend::player::actions::{NavigateToHuntingGround, PlayerAction};
use backend::player::context::PlayerContext;
use backend::player::enter_monster_park::{
    last_active_dungeon_tile, update_entering_monster_park_state, EnteringMonsterPark,
    MonsterParkQuery, MonsterParkSight, State as EnteringState,
};
use backend::player::navigate_to_hunting_ground::{
    update_navigating_to_hunting_ground_state, NavigatingToHuntingGround, NavigationQuery, State,
};
use backend::player::timeout::{Lifecycle, Timeout};
use backend::player::{Player, PlayerEntity};

fn resources() -> Resources {
    Resources::new(
        Detections::unavailable(),
        Draws::default(),
        OperationState::Running,
    )
}

fn rect(x: i32, y: i32, width: i32, height: i32) -> Rect {
    Rect {
        x,
        y,
        width,
        height,
    }
}

fn target(id: DailyQuestId, skip_dropdown_slots: usize) -> NavigateToHuntingGround {
    let navigation = id.navigation();
    NavigateToHuntingGround {
        region: navigation.region,
        dropdown_path: navigation.dropdown_path,
        location_point: navigation.location_point,
        sub_location_label: navigation.sub_location_label,
        skip_dropdown_slots,
    }
}

fn traveler(target: NavigateToHuntingGround) -> PlayerEntity {
    let mut player = PlayerEntity {
        state: Player::NavigatingToHuntingGround(NavigatingToHuntingGround::new(target.clone())),
        context: PlayerContext::default(),
    };
    player
        .context
        .set_priority_action(None, PlayerAction::NavigateToHuntingGround(target));
    player
}

fn state(player: &PlayerEntity) -> State {
    match &player.state {
        Player::NavigatingToHuntingGround(navigating) => navigating.state,
        _ => panic!("not traveling"),
    }
}

fn step(
    resources: &mut Resources,
    player: &mut PlayerEntity,
    lifecycle: Lifecycle,
    seen: Option<Rect>,
) {
    update_navigating_to_hunting_ground_state(resources, player, lifecycle, seen);
}

const STARTED: Lifecycle = Lifecycle::Started(Timeout {
    current: 0,
    total: 0,
    started: true,
});

fn click(x: i32, y: i32) -> InputEvent {
    InputEvent::Mouse(x, y, MouseKind::Click)
}

#[test]
fn a_journey_goes_through_the_dropdowns_to_the_teleport() {
    let mut player = traveler(target(DailyQuestId::Limina, 1));
    player.context.config.world_map_key = Some(KeyKind::C);
    let mut resources = resources();
    let anchor = rect(100, 50, 80, 20);

    step(&mut resources, &mut player, STARTED, None);
    step(&mut resources, &mut player, Lifecycle::Ended, Some(anchor));
    assert_eq!(
        state(&player),
        State::OpeningDropdown(Timeout::default(), anchor, 1)
    );
    step(&mut resources, &mut player, STARTED, None);
    step(&mut resources, &mut player, Lifecycle::Ended, None);
    step(
        &mut resources,
        &mut player,
        STARTED,
        Some(rect(300, 120, 40, 10)),
    );
    step(&mut resources, &mut player, Lifecycle::Ended, None);
    assert_eq!(
        state(&player),
        State::OpeningDropdown(Timeout::default(), anchor, 2)
    );
    step(&mut resources, &mut player, Lifecycle::Ended, None);
    step(&mut resources, &mut player, Lifecycle::Ended, None);
    assert_eq!(
        state(&player),
        State::SelectingLocation(Timeout::default(), anchor)
    );
    step(&mut resources, &mut player, STARTED, None);
    step(
        &mut resources,
        &mut player,
        Lifecycle::Ended,
        Some(rect(0, 0, 1, 1)),
    );
    step(
        &mut resources,
        &mut player,
        STARTED,
        Some(rect(10, 10, 20, 30)),
    );
    assert!(player.context.has_priority_action());
    step(&mut resources, &mut player, Lifecycle::Ended, None);

    assert!(matches!(player.state, Player::Idle));
    assert!(!player.context.has_priority_action());
    assert!(!player.context.daily_quest_navigate_failed);
    assert_eq!(
        resources.input.events,
        vec![
            InputEvent::Key(KeyKind::C),
            click(100 + 204 + 46, 50 + 36 + 10),
            click(320, 125),
            click(693, 431),
            click(693, 431),
            click(20, 25),
        ]
    );
}

#[test]
fn without_a_key_the_minimap_button_is_clicked() {
    let mut player = traveler(target(DailyQuestId::Limina, 3));
    let mut resources = resources();

    step(&mut resources, &mut player, STARTED, None);
    assert_eq!(
        state(&player),
        State::ClickingMinimapButton(Timeout::default())
    );
    step(
        &mut resources,
        &mut player,
        STARTED,
        Some(rect(10, 20, 5, 7)),
    );
    assert_eq!(resources.input.events, vec![click(12, 23)]);
    let anchor = rect(1, 2, 3, 4);
    step(&mut resources, &mut player, Lifecycle::Ended, Some(anchor));
    assert_eq!(
        state(&player),
        State::SelectingLocation(Timeout::default(), anchor)
    );
}

#[test]
fn a_journey_that_fails_closes_the_world_map_and_is_noted() {
    let mut player = traveler(target(DailyQuestId::Limina, 3));
    player.context.config.world_map_key = Some(KeyKind::C);
    let mut resources = resources();
    step(
        &mut resources,
        &mut player,
        Lifecycle::Ended,
        Some(rect(1, 2, 3, 4)),
    );
    step(&mut resources, &mut player, Lifecycle::Ended, None);

    assert!(matches!(player.state, Player::Idle));
    assert!(!player.context.has_priority_action());
    assert!(player.context.take_daily_quest_navigate_failed());
    assert_eq!(
        resources.input.events,
        vec![InputEvent::Key(KeyKind::Esc)]
    );

    // Before the world map is open there is nothing to close.
    let mut player = traveler(target(DailyQuestId::Limina, 3));
    let mut resources = self::resources();
    step(&mut resources, &mut player, STARTED, None);
    step(&mut resources, &mut player, STARTED, None);
    assert!(player.context.daily_quest_navigate_failed);
    assert!(resources.input.events.is_empty());
}

#[test]
fn a_journey_without_an_action_ends() {
    let mut player = traveler(target(DailyQuestId::Limina, 3));
    player.context.clear_actions_aborted(false);
    step(&mut resources(), &mut player, STARTED, None);
    assert!(matches!(player.state, Player::Idle));
}

#[test]
fn sub_locations_are_selected_where_there_are_some() {
    let mut sub = target(DailyQuestId::Limina, 3);
    sub.sub_location_label = Some("Inner".to_owned());
    let mut player = traveler(sub);
    let anchor = rect(100, 200, 3, 4);
    if let Player::NavigatingToHuntingGround(navigating) = &mut player.state {
        navigating.state = State::SelectingLocation(Timeout::default(), anchor);
    }
    let mut resources = resources();
    step(&mut resources, &mut player, Lifecycle::Ended, None);
    assert_eq!(
        state(&player),
        State::SelectingSubLocation(Timeout::default(), anchor)
    );
    if let Player::NavigatingToHuntingGround(navigating) = &player.state {
        match navigating.query(None, STARTED) {
            NavigationQuery::Label(area, text) => {
                assert_eq!(area, rect(106, 273, 630, 465));
                assert_eq!(text, "Inner");
            }
            other => panic!("{other:?}"),
        }
    }
    step(
        &mut resources,
        &mut player,
        STARTED,
        Some(rect(0, 0, 10, 10)),
    );
    assert_eq!(resources.input.events, vec![click(5, 5), click(5, 5)]);
    step(
        &mut resources,
        &mut player,
        Lifecycle::Ended,
        Some(rect(0, 0, 10, 10)),
    );
    assert_eq!(
        state(&player),
        State::ConfirmingTeleport(Timeout::default())
    );
}

#[test]
fn steps_ask_for_what_they_need_and_wait_as_long_as_they_should() {
    let mut navigating = NavigatingToHuntingGround::new(target(DailyQuestId::Arteria, 0));
    assert_eq!(navigating.timeout(None), None);
    assert_eq!(
        navigating.timeout(Some(KeyKind::C)),
        Some((Timeout::default(), 35))
    );
    assert!(matches!(
        navigating.query(Some(KeyKind::C), Lifecycle::Ended),
        NavigationQuery::WorldMapTitle
    ));
    let anchor = rect(10, 10, 5, 5);
    navigating.state = State::SelectingOption(Timeout::default(), anchor, 0);
    match navigating.query(None, STARTED) {
        NavigationQuery::Label(area, text) => {
            assert_eq!(area, rect(104, 46, 107, 300));
            assert_eq!(text, WorldMapRegion::Grandis.label());
        }
        other => panic!("{other:?}"),
    }
    assert_eq!(navigating.timeout(None), Some((Timeout::default(), 20)));
    assert_eq!(
        navigating.dropdown_slot_text(2),
        Some("Arteria".to_owned())
    );
    assert_eq!(navigating.dropdown_slot_text(3), None);
    navigating.state = State::OpeningDropdown(Timeout::default(), anchor, 2);
    assert_eq!(navigating.timeout(None), Some((Timeout::default(), 15)));
    navigating.state = State::OpeningDropdown(Timeout::default(), anchor, 3);
    assert_eq!(navigating.timeout(None), None);
}

#[test]
fn a_dropdown_that_does_not_exist_ends_the_journey() {
    let mut player = traveler(target(DailyQuestId::Limina, 0));
    if let Player::NavigatingToHuntingGround(navigating) = &mut player.state {
        navigating.state = State::OpeningDropdown(Timeout::default(), rect(0, 0, 1, 1), 3);
    }
    let mut resources = resources();
    step(&mut resources, &mut player, STARTED, None);
    assert!(player.context.daily_quest_navigate_failed);
    assert_eq!(
        resources.input.events,
        vec![InputEvent::Key(KeyKind::Esc)]
    );
}

fn tile(x: i32, y: i32) -> Rect {
    rect(x - 5, y - 5, 10, 10)
}

#[test]
fn the_last_unlocked_dungeon_is_picked() {
    let label = rect(10, 20, 30, 10);
    let pick = |tiles: Vec<Rect>| last_active_dungeon_tile(&tiles, label);

    // No locked tile at all.
    assert_eq!(pick(vec![]), Point { x: 347, y: 343 });
    // Only the right tile of a row is locked.
    assert_eq!(pick(vec![tile(347, 300)]), Point { x: 132, y: 300 });
    // Only the left column shows: the tile above and to the right.
    assert_eq!(
        pick(vec![tile(130, 300), tile(131, 365)]),
        Point { x: 347, y: 235 }
    );
    // Both tiles of the last two rows are locked.
    assert_eq!(
        pick(vec![
            tile(345, 372),
            tile(130, 301),
            tile(345, 302),
            tile(131, 371)
        ]),
        Point { x: 345, y: 231 }
    );
    // From the right tile of a row on.
    assert_eq!(
        pick(vec![tile(345, 302), tile(130, 370), tile(345, 371)]),
        Point { x: 130, y: 302 }
    );
}

fn sight() -> MonsterParkSight {
    MonsterParkSight {
        ticket_label: None,
        locked_tiles: vec![],
        enter_button: None,
    }
}

#[test]
fn monster_park_is_entered_through_the_dialog() {
    let mut player = PlayerEntity {
        state: Player::EnteringMonsterPark(EnteringMonsterPark::new()),
        context: PlayerContext::default(),
    };
    player
        .context
        .set_priority_action(None, PlayerAction::EnterMonsterPark);
    let mut resources = resources();
    let label = rect(10, 20, 30, 10);

    let asks = |player: &PlayerEntity, lifecycle: Lifecycle| match &player.state {
        Player::EnteringMonsterPark(entering) => entering.query(lifecycle),
        _ => MonsterParkQuery::Nothing,
    };
    assert_eq!(asks(&player, STARTED), MonsterParkQuery::Nothing);
    update_entering_monster_park_state(&mut resources, &mut player, STARTED, &sight());
    assert_eq!(
        asks(&player, Lifecycle::Ended),
        MonsterParkQuery::TicketLabel
    );
    update_entering_monster_park_state(
        &mut resources,
        &mut player,
        Lifecycle::Ended,
        &MonsterParkSight {
            ticket_label: Some(label),
            ..sight()
        },
    );
    assert_eq!(asks(&player, STARTED), MonsterParkQuery::LockedTiles);
    update_entering_monster_park_state(&mut resources, &mut player, STARTED, &sight());
    update_entering_monster_park_state(&mut resources, &mut player, Lifecycle::Ended, &sight());
    assert_eq!(asks(&player, STARTED), MonsterParkQuery::EnterButton);
    update_entering_monster_park_state(
        &mut resources,
        &mut player,
        STARTED,
        &MonsterParkSight {
            enter_button: Some(rect(0, 0, 20, 10)),
            ..sight()
        },
    );
    update_entering_monster_park_state(&mut resources, &mut player, Lifecycle::Ended, &sight());

    assert!(matches!(player.state, Player::Idle));
    assert!(!player.context.has_priority_action());
    assert_eq!(
        resources.input.events,
        vec![
            InputEvent::Key(KeyKind::Up),
            click(347, 343),
            click(10, 5)
        ]
    );
}

#[test]
fn monster_park_is_given_up_without_the_dialog_or_the_button() {
    for state in [
        (
            EnteringState::PressingUp(Timeout::default()),
            Lifecycle::Ended,
        ),
        (EnteringState::Confirming(Timeout::default()), STARTED),
    ] {
        let mut player = PlayerEntity {
            state: Player::EnteringMonsterPark(EnteringMonsterPark { state: state.0 }),
            context: PlayerContext::default(),
        };
        player
            .context
            .set_priority_action(None, PlayerAction::EnterMonsterPark);
        let mut resources = resources();
        update_entering_monster_park_state(&mut resources, &mut player, state.1, &sight());
        assert!(matches!(player.state, Player::Idle));
        assert!(!player.context.has_priority_action());
        assert!(resources.input.events.is_empty());
    }
    assert_eq!(
        EnteringMonsterPark::default().timeout(),
        Some((Timeout::default(), 35))
    );
}
