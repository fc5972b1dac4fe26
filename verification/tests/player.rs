use backend::ecs::{
    Detections, Draws, InputEvent, Minimap, MinimapContext, MinimapEntity, MinimapIdle,
    OperationState, Resources,
};
use backend::geometry::Point;
use backend::models::{
    ActionKeyDirection, ActionKeyWith, KeyKind, LinkKeyKind, Position, WaitAfterBuffered,
};
use backend::player::actions::{
    AutoMob, Key, Move, PanicTo, PingPong, PingPongDirection, PlayerAction,
};
use backend::player::context::{LastMovement, PlayerContext, Speed, Velocity};
use backend::player::moving::{Moving, MovingIntermediates};
use backend::player::timeout::{MovingLifecycle, Timeout};
use backend::player::up_jump::{
    perlin_draw, up_jump_timeout, update_up_jumping_state, FollowUp, Mage, MageState, PerlinDraw,
    UpJumping, UpJumpingKind,
    SECOND_PRESS_DELAY, SOFT_SPAM_DELAY, SPAM_DELAY, TELEPORT_WITH_JUMP_THRESHOLD,
};
use backend::player::{
    release_keys_held_by, run_system, start_unstucking, Adjusting, DoubleJumping, Grappling,
    NextUpdate, Panicking, Player, PlayerEntity, StateUpdate, Unstucking, UseKey,
};

fn resources() -> Resources {
    Resources::new(
        Detections::unavailable(),
        Draws::default(),
        OperationState::Running,
    )
}

fn moving(y: i32, exact: bool) -> Moving {
    Moving::new(Point { x: 0, y: 0 }, Point { x: 0, y }, exact, None)
}

fn key_a() -> Key {
    Key {
        key: KeyKind::A,
        key_hold_ticks: 0,
        key_hold_buffered_to_wait_after: false,
        link_key: LinkKeyKind::Unlinked,
        count: 1,
        position: None,
        direction: ActionKeyDirection::Any,
        with: ActionKeyWith::Any,
        wait_before_use_ticks: 0,
        wait_before_use_ticks_random_range: 0,
        wait_after_use_ticks: 0,
        wait_after_use_ticks_random_range: 0,
        wait_after_buffered: WaitAfterBuffered::Unbuffered,
    }
}

fn velocity(x: f32, y: f32) -> Velocity {
    Velocity {
        x: Speed { bits: x.to_bits() },
        y: Speed { bits: y.to_bits() },
    }
}

#[test]
fn release_keys_held_by_direction_holding_states_releases_left_and_right() {
    for state in [
        Player::Adjusting(Adjusting {
            moving: moving(0, false),
        }),
        Player::Stalling(Timeout::default(), 0),
        Player::Unstucking(Unstucking::new_esc()),
    ] {
        let mut resources = resources();

        release_keys_held_by(&mut resources, &state);

        assert_eq!(
            resources.input.events,
            vec![
                InputEvent::KeyUp(KeyKind::Left),
                InputEvent::KeyUp(KeyKind::Right)
            ]
        );
    }
}

#[test]
fn release_keys_held_by_up_jumping_releases_up() {
    let mut new_resources = resources();
    let up_jumping = UpJumping::new(
        moving(20, false),
        &mut new_resources,
        &PlayerContext::default(),
    );
    let mut resources = resources();

    release_keys_held_by(&mut resources, &Player::UpJumping(up_jumping));

    assert_eq!(
        resources.input.events,
        vec![InputEvent::KeyUp(KeyKind::Up)]
    );
}

#[test]
fn release_keys_held_by_use_key_with_along_link_key_releases_both_keys() {
    let use_key = UseKey::from_key(Key {
        link_key: LinkKeyKind::Along(KeyKind::Alt),
        ..key_a()
    });
    let mut resources = resources();

    release_keys_held_by(&mut resources, &Player::UseKey(use_key));

    assert_eq!(
        resources.input.events,
        vec![
            InputEvent::KeyUp(KeyKind::A),
            InputEvent::KeyUp(KeyKind::Alt)
        ]
    );
}

#[test]
fn release_keys_held_by_idle_does_nothing() {
    let mut resources = resources();

    release_keys_held_by(&mut resources, &Player::Idle);

    assert!(resources.input.events.is_empty());
}

#[test]
fn a_key_that_is_held_is_released_alone() {
    let held = UseKey::from_key(Key {
        key_hold_ticks: 3,
        link_key: LinkKeyKind::Before(KeyKind::Alt),
        ..key_a()
    });
    assert_eq!(held.held_keys(), vec![KeyKind::A]);
    assert!(UseKey::from_key(key_a()).held_keys().is_empty());
}

fn setup_player(up_jumping: UpJumping) -> PlayerEntity {
    let mut player = PlayerEntity {
        state: Player::UpJumping(up_jumping),
        context: PlayerContext::default(),
    };
    player.context.last_known_pos = Some(Point { x: 0, y: 0 });
    player.context.config.jump_key = KeyKind::Space;
    player
}

fn up_jumping(moving: Moving, kind: UpJumpingKind, second_press_sent: bool) -> UpJumping {
    UpJumping {
        moving,
        kind,
        spam_delay: SPAM_DELAY,
        auto_mob_wait_completion: false,
        second_press_sent,
    }
}

fn started(moving: Moving) -> MovingLifecycle {
    let mut moving = moving;
    moving.timeout.started = true;
    MovingLifecycle::Started(moving)
}

#[test]
fn update_up_jumping_state_started_jump_key_presses_up_and_jump() {
    let moving = moving(20, true);
    let mut player = setup_player(up_jumping(moving, UpJumpingKind::JumpKey, false));
    let mut resources = resources();

    update_up_jumping_state(&mut resources, &mut player, Minimap::Detecting, started(moving));

    assert_eq!(
        resources.input.events,
        vec![
            InputEvent::KeyDown(KeyKind::Up),
            InputEvent::Key(KeyKind::Space)
        ]
    );
    assert!(matches!(player.state, Player::UpJumping(_)));
    assert_eq!(player.context.last_movement, Some(LastMovement::UpJumping));
}

#[test]
fn update_up_jumping_state_started_up_arrow_presses_jump_only() {
    let moving = moving(20, true);
    let mut player = setup_player(up_jumping(moving, UpJumpingKind::UpArrow, false));
    let mut resources = resources();

    update_up_jumping_state(&mut resources, &mut player, Minimap::Detecting, started(moving));

    assert_eq!(
        resources.input.events,
        vec![InputEvent::Key(KeyKind::Space)]
    );
    assert!(matches!(player.state, Player::UpJumping(_)));
}

#[test]
fn update_up_jumping_state_started_specific_key_presses_up_only() {
    let moving = moving(20, true);
    let mut player = setup_player(up_jumping(moving, UpJumpingKind::SpecificKey, false));
    player.context.config.up_jump_key = Some(KeyKind::C);
    let mut resources = resources();

    update_up_jumping_state(&mut resources, &mut player, Minimap::Detecting, started(moving));

    assert_eq!(
        resources.input.events,
        vec![InputEvent::KeyDown(KeyKind::Up)]
    );
    assert!(matches!(player.state, Player::UpJumping(_)));
}

#[test]
fn update_up_jumping_state_started_mage_up_and_jump() {
    let moving = moving(25, true);
    let mage = UpJumpingKind::Mage(Mage {
        state: MageState::Teleporting,
        teleport_with_jump_threshold: TELEPORT_WITH_JUMP_THRESHOLD,
    });
    let mut player = setup_player(up_jumping(moving, mage, false));
    player.context.config.teleport_key = Some(KeyKind::Shift);
    let mut resources = resources();

    update_up_jumping_state(&mut resources, &mut player, Minimap::Detecting, started(moving));

    assert_eq!(
        resources.input.events,
        vec![
            InputEvent::KeyDown(KeyKind::Up),
            InputEvent::Key(KeyKind::Space)
        ]
    );
    assert!(matches!(player.state, Player::UpJumping(_)));
}

#[test]
fn update_up_jumping_state_updated_velocity_marks_completed() {
    let mut moving = moving(20, true);
    moving.timeout.started = true;
    let mut player = setup_player(up_jumping(moving, UpJumpingKind::JumpKey, true));
    player.context.velocity = velocity(0.0, 2.0);
    let mut resources = resources();

    update_up_jumping_state(
        &mut resources,
        &mut player,
        Minimap::Detecting,
        MovingLifecycle::Updated(moving),
    );

    assert!(matches!(
        player.state,
        Player::UpJumping(UpJumping {
            moving: Moving {
                completed: true,
                ..
            },
            ..
        })
    ));
}

#[test]
fn update_up_jumping_state_updated_before_second_press_delay_no_keys_sent() {
    let mut moving = moving(20, true);
    moving.timeout.started = true;
    moving.timeout.total = SECOND_PRESS_DELAY - 1;
    let mut player = setup_player(up_jumping(moving, UpJumpingKind::JumpKey, false));
    let mut resources = resources();

    update_up_jumping_state(
        &mut resources,
        &mut player,
        Minimap::Detecting,
        MovingLifecycle::Updated(moving),
    );

    assert!(resources.input.events.is_empty());
    assert!(matches!(player.state, Player::UpJumping(_)));
}

#[test]
fn update_up_jumping_state_updated_sends_follow_up_key_after_delay() {
    let mut moving = moving(20, true);
    moving.timeout.started = true;
    moving.timeout.total = SECOND_PRESS_DELAY;
    let mut player = setup_player(up_jumping(moving, UpJumpingKind::JumpKey, false));
    let mut resources = resources();

    update_up_jumping_state(
        &mut resources,
        &mut player,
        Minimap::Detecting,
        MovingLifecycle::Updated(moving),
    );

    assert_eq!(
        resources.input.events,
        vec![InputEvent::Key(KeyKind::Space)]
    );
    assert!(matches!(player.state, Player::UpJumping(_)));
}

#[test]
fn update_up_jumping_state_updated_spam_fallback_after_follow_up_press() {
    let mut moving = moving(20, true);
    moving.timeout.started = true;
    moving.timeout.total = SPAM_DELAY;
    let mut player = setup_player(up_jumping(moving, UpJumpingKind::JumpKey, true));
    player.context.velocity = velocity(0.0, 0.0);
    let mut resources = resources();

    update_up_jumping_state(
        &mut resources,
        &mut player,
        Minimap::Detecting,
        MovingLifecycle::Updated(moving),
    );

    assert_eq!(
        resources.input.events,
        vec![InputEvent::Key(KeyKind::Space)]
    );
    assert!(matches!(player.state, Player::UpJumping(_)));
}

#[test]
fn update_up_jumping_state_updated_spam_specific_key_after_delay() {
    let mut moving = moving(20, true);
    moving.timeout.started = true;
    moving.timeout.total = SPAM_DELAY;
    let mut player = setup_player(up_jumping(moving, UpJumpingKind::SpecificKey, false));
    player.context.config.up_jump_key = Some(KeyKind::C);
    let mut resources = resources();

    update_up_jumping_state(
        &mut resources,
        &mut player,
        Minimap::Detecting,
        MovingLifecycle::Updated(moving),
    );

    assert_eq!(resources.input.events, vec![InputEvent::Key(KeyKind::C)]);
    assert!(matches!(player.state, Player::UpJumping(_)));
}

#[test]
fn update_up_jumping_state_updated_mage_spam_jump_after_delay() {
    let mut moving = moving(25, true);
    moving.timeout.started = true;
    moving.timeout.total = SPAM_DELAY;
    let mage = UpJumpingKind::Mage(Mage {
        state: MageState::UpJumping,
        teleport_with_jump_threshold: TELEPORT_WITH_JUMP_THRESHOLD,
    });
    let mut player = setup_player(up_jumping(moving, mage, false));
    player.context.config.teleport_key = Some(KeyKind::Shift);
    let mut resources = resources();

    update_up_jumping_state(
        &mut resources,
        &mut player,
        Minimap::Detecting,
        MovingLifecycle::Updated(moving),
    );

    assert_eq!(
        resources.input.events,
        vec![InputEvent::Key(KeyKind::Space)]
    );
    assert!(matches!(player.state, Player::UpJumping(_)));
}

#[test]
fn update_up_jumping_state_updated_completed_and_releases_up() {
    let mut moving = moving(20, true);
    moving.completed = true;
    moving.timeout.started = true;
    let mut player = setup_player(up_jumping(moving, UpJumpingKind::JumpKey, false));
    let mut resources = resources();

    update_up_jumping_state(
        &mut resources,
        &mut player,
        Minimap::Detecting,
        MovingLifecycle::Updated(moving),
    );

    assert_eq!(
        resources.input.events,
        vec![InputEvent::KeyUp(KeyKind::Up)]
    );
    assert!(matches!(player.state, Player::UpJumping(_)));
}

#[test]
fn an_up_jump_waits_until_the_player_stands_still() {
    let moving = moving(20, true);
    let mut player = setup_player(up_jumping(moving, UpJumpingKind::JumpKey, false));
    player.context.velocity = velocity(0.29, 0.0);
    let mut resources = resources();

    update_up_jumping_state(&mut resources, &mut player, Minimap::Detecting, started(moving));

    assert!(resources.input.events.is_empty());
    assert!(matches!(
        player.state,
        Player::UpJumping(UpJumping {
            moving: Moving {
                timeout: Timeout { started: false, .. },
                ..
            },
            ..
        })
    ));
}

#[test]
fn an_up_jump_is_given_up_inside_a_portal() {
    let moving = moving(20, true);
    let mut player = setup_player(up_jumping(moving, UpJumpingKind::JumpKey, false));
    player
        .context
        .set_normal_action(Some(1), PlayerAction::SolveRune);
    let mut resources = resources();
    let idle = MinimapIdle {
        player_inside_portal: true,
        ..MinimapIdle::default()
    };

    update_up_jumping_state(&mut resources, &mut player, Minimap::Idle(idle), started(moving));

    assert!(resources.input.events.is_empty());
    assert!(matches!(player.state, Player::Idle));
    assert!(!player.context.has_normal_action());
}

#[test]
fn an_up_jump_that_takes_too_long_goes_back_to_moving() {
    let moving = moving(20, true);
    let mut player = setup_player(up_jumping(moving, UpJumpingKind::JumpKey, false));
    let mut resources = resources();

    update_up_jumping_state(
        &mut resources,
        &mut player,
        Minimap::Detecting,
        MovingLifecycle::Ended(moving),
    );

    assert_eq!(
        resources.input.events,
        vec![InputEvent::KeyUp(KeyKind::Up)]
    );
    assert!(matches!(
        player.state,
        Player::Moving(Point { x: 0, y: 20 }, true, None)
    ));
    assert_eq!(up_jump_timeout(5), 8);
}

#[test]
fn a_mage_teleports_after_the_up_jump() {
    let mut moving = moving(25, true);
    moving.timeout.started = true;
    let mage = UpJumpingKind::Mage(Mage {
        state: MageState::UpJumping,
        teleport_with_jump_threshold: TELEPORT_WITH_JUMP_THRESHOLD,
    });
    let mut player = setup_player(up_jumping(moving, mage, false));
    player.context.config.teleport_key = Some(KeyKind::Shift);
    player.context.config.up_jump_key = Some(KeyKind::C);
    let mut resources = resources();

    update_up_jumping_state(
        &mut resources,
        &mut player,
        Minimap::Detecting,
        MovingLifecycle::Updated(moving),
    );
    assert_eq!(resources.input.events, vec![InputEvent::Key(KeyKind::C)]);

    let mut risen = moving;
    risen.pos = Point { x: 0, y: 10 };
    update_up_jumping_state(
        &mut resources,
        &mut player,
        Minimap::Detecting,
        MovingLifecycle::Updated(risen),
    );
    assert_eq!(
        resources.input.events,
        vec![
            InputEvent::Key(KeyKind::C),
            InputEvent::Key(KeyKind::Shift)
        ]
    );
    assert!(matches!(
        player.state,
        Player::UpJumping(UpJumping {
            moving: Moving {
                completed: true,
                ..
            },
            ..
        })
    ));
}

#[test]
fn a_flight_holds_the_key_until_the_destination() {
    let mut moving = moving(25, true);
    moving.timeout.started = true;
    let mut player = setup_player(up_jumping(moving, UpJumpingKind::SpecificKey, false));
    player.context.config.up_jump_key = Some(KeyKind::C);
    player.context.config.up_jump_is_flight = true;
    let mut resources = resources();

    update_up_jumping_state(
        &mut resources,
        &mut player,
        Minimap::Detecting,
        MovingLifecycle::Updated(moving),
    );
    let mut risen = moving;
    risen.pos = Point { x: 0, y: 25 };
    update_up_jumping_state(
        &mut resources,
        &mut player,
        Minimap::Detecting,
        MovingLifecycle::Updated(risen),
    );

    assert_eq!(
        resources.input.events,
        vec![
            InputEvent::KeyDownRepeatable(KeyKind::C),
            InputEvent::KeyUp(KeyKind::C)
        ]
    );
}

fn mob() -> AutoMob {
    AutoMob {
        key: KeyKind::A,
        key_hold_ticks: 0,
        link_key: LinkKeyKind::Unlinked,
        count: 1,
        with: ActionKeyWith::Any,
        wait_before_ticks: 0,
        wait_before_ticks_random_range: 0,
        wait_after_ticks: 0,
        wait_after_ticks_random_range: 0,
        position: Position::default(),
        is_pathing: false,
        is_monster_park: false,
    }
}

#[test]
fn an_up_jump_leads_over_to_mobbing() {
    let mut moving = moving(20, true);
    moving.timeout.started = true;
    moving.intermediates = Some(MovingIntermediates {
        last: Point { x: 30, y: 50 },
        at_intermediate: true,
    });
    let mut player = setup_player(up_jumping(moving, UpJumpingKind::JumpKey, false));
    player
        .context
        .set_normal_action(None, PlayerAction::AutoMob(mob()));
    let mut resources = resources();

    let follow_up = update_up_jumping_state(
        &mut resources,
        &mut player,
        Minimap::Detecting,
        MovingLifecycle::Updated(moving),
    );
    assert_eq!(
        follow_up,
        FollowUp::AutoMob {
            mob: mob(),
            x_distance: 30,
            x_direction: 30,
            y_distance: 50,
            y_direction: 50,
        }
    );

    let mut arrived = moving;
    arrived.completed = true;
    arrived.pos = Point { x: 0, y: 20 };
    player.state = Player::UpJumping(up_jumping(moving, UpJumpingKind::JumpKey, true));
    let follow_up = update_up_jumping_state(
        &mut resources,
        &mut player,
        Minimap::Detecting,
        MovingLifecycle::Updated(arrived),
    );
    assert_eq!(follow_up, FollowUp::Nothing);
    assert!(matches!(player.state, Player::Moving(_, true, Some(_))));
}

#[test]
fn an_up_jump_leads_over_to_a_key_or_a_sweep() {
    let mut moving = moving(20, true);
    moving.timeout.started = true;
    moving.completed = true;
    moving.pos = Point { x: 0, y: 21 };
    let mut player = setup_player(up_jumping(moving, UpJumpingKind::JumpKey, true));
    player
        .context
        .set_normal_action(None, PlayerAction::Key(key_a()));
    update_up_jumping_state(
        &mut resources(),
        &mut player,
        Minimap::Detecting,
        MovingLifecycle::Updated(moving),
    );
    assert!(matches!(player.state, Player::UseKey(UseKey { key }) if key == key_a()));

    let ping_pong = PingPong {
        key: KeyKind::A,
        key_hold_ticks: 0,
        link_key: LinkKeyKind::Unlinked,
        count: 1,
        with: ActionKeyWith::Any,
        wait_before_ticks: 0,
        wait_before_ticks_random_range: 0,
        wait_after_ticks: 0,
        wait_after_ticks_random_range: 0,
        bound: Default::default(),
        direction: PingPongDirection::Left,
    };
    for perlin in [false, true] {
        let mut player = setup_player(up_jumping(moving, UpJumpingKind::JumpKey, true));
        player
            .context
            .set_normal_action(None, PlayerAction::PingPong(ping_pong));
        let mut resources = resources();
        resources.draws.perlin = perlin;
        resources.tick = 9;
        let draw = perlin_draw(&resources, &player, MovingLifecycle::Updated(moving));
        assert_eq!(
            draw,
            Some(PerlinDraw {
                position: Point { x: 0, y: 21 },
                tick: 9,
                percent: 70,
            })
        );
        assert_eq!(
            perlin_draw(&resources, &player, MovingLifecycle::Started(moving)),
            None
        );
        let mut rising = moving;
        rising.completed = false;
        assert_eq!(
            perlin_draw(&resources, &player, MovingLifecycle::Updated(rising)),
            None
        );
        let follow_up = update_up_jumping_state(
            &mut resources,
            &mut player,
            Minimap::Detecting,
            MovingLifecycle::Updated(moving),
        );
        let expected = if perlin {
            FollowUp::PingPong(ping_pong, Point { x: 0, y: 21 })
        } else {
            FollowUp::Nothing
        };
        assert_eq!(follow_up, expected);
    }
}

#[test]
fn up_jumping_is_planned_by_configuration_and_distance() {
    let mut context = PlayerContext::default();
    let mut resources = resources();

    let soft = UpJumping::new(moving(16, true), &mut resources, &context);
    assert_eq!(soft.spam_delay, SOFT_SPAM_DELAY);
    assert_eq!(soft.kind, UpJumpingKind::JumpKey);
    let far = UpJumping::new(moving(17, true), &mut resources, &context);
    assert_eq!(far.spam_delay, SPAM_DELAY);

    context.config.up_jump_key = Some(KeyKind::Up);
    let arrow = UpJumping::new(moving(17, true), &mut resources, &context);
    assert_eq!(arrow.kind, UpJumpingKind::UpArrow);

    context.config.up_jump_key = Some(KeyKind::C);
    let specific = UpJumping::new(moving(17, true), &mut resources, &context);
    assert_eq!(specific.kind, UpJumpingKind::SpecificKey);

    context.config.teleport_key = Some(KeyKind::Shift);
    context.config.has_extended_teleport_range = true;
    let mage = UpJumping::new(moving(17, true), &mut resources, &context);
    assert_eq!(
        mage.kind,
        UpJumpingKind::Mage(Mage {
            state: MageState::Teleporting,
            teleport_with_jump_threshold: 20,
        })
    );
    assert!(!mage.auto_mob_wait_completion);

    context.set_normal_action(None, PlayerAction::AutoMob(mob()));
    resources.draws.coin = true;
    let waiting = UpJumping::new(moving(17, true), &mut resources, &context);
    assert!(waiting.auto_mob_wait_completion);
}

#[test]
fn speeds_are_compared_as_numbers() {
    let threshold = Speed {
        bits: 1.3f32.to_bits(),
    };
    for value in [
        0.0,
        -0.0,
        1.3,
        1.29,
        1.31,
        -5.0,
        f32::INFINITY,
        f32::NEG_INFINITY,
        f32::NAN,
        -f32::NAN,
        f32::MIN_POSITIVE,
    ] {
        let speed = Speed {
            bits: value.to_bits(),
        };
        assert_eq!(speed.above(threshold), value > 1.3f32, "{value}");
        assert_eq!(speed.at_most(threshold), value <= 1.3f32, "{value}");
    }
}

fn minimap(state: Minimap) -> MinimapEntity {
    MinimapEntity {
        state,
        context: MinimapContext { platforms: vec![] },
    }
}

#[test]
fn the_cash_shop_comes_first() {
    let mut player = PlayerEntity {
        state: Player::Idle,
        context: PlayerContext::default(),
    };
    player.context.rune_cash_shop = true;
    player.context.reset_to_idle_next_update = true;
    let mut resources = resources();

    let next = run_system(
        &mut resources,
        &mut player,
        &minimap(Minimap::Detecting),
        false,
    );

    assert_eq!(next.update, StateUpdate::Done);
    assert!(matches!(player.state, Player::CashShopThenExit));
    assert!(!player.context.rune_cash_shop);
    assert!(!player.context.reset_to_idle_next_update);
    assert_eq!(
        resources.input.events,
        vec![
            InputEvent::KeyUp(KeyKind::Up),
            InputEvent::KeyUp(KeyKind::Down),
            InputEvent::KeyUp(KeyKind::Left),
            InputEvent::KeyUp(KeyKind::Right),
        ]
    );
}

#[test]
fn a_lost_player_is_looked_for_or_gets_unstuck() {
    let state = || {
        Player::Adjusting(Adjusting {
            moving: moving(0, false),
        })
    };
    let mut player = PlayerEntity {
        state: state(),
        context: PlayerContext::default(),
    };
    let mut resources = resources();
    let next = run_system(
        &mut resources,
        &mut player,
        &minimap(Minimap::Detecting),
        false,
    );
    assert_eq!(next.update, StateUpdate::Done);
    assert!(matches!(player.state, Player::Detecting));
    assert_eq!(resources.input.events.len(), 2);

    player.state = state();
    player.context.last_known_direction = ActionKeyDirection::Left;
    let next = run_system(
        &mut resources,
        &mut player,
        &minimap(Minimap::Idle(MinimapIdle::default())),
        false,
    );
    assert_eq!(next.update, StateUpdate::StartUnstucking);
    assert_eq!(resources.input.events.len(), 4);
    start_unstucking(&mut player, false, true);
    assert!(matches!(
        player.state,
        Player::Unstucking(Unstucking::Movement {
            random: false,
            blink: false,
            ..
        })
    ));
    assert_eq!(player.context.last_known_direction, ActionKeyDirection::Any);

    let next = run_system(
        &mut resources,
        &mut player,
        &minimap(Minimap::Idle(MinimapIdle::default())),
        false,
    );
    assert_eq!(next.update, StateUpdate::Unstucking);
}

#[test]
fn a_pending_reset_drops_the_state_and_releases_its_keys() {
    let mut player = PlayerEntity {
        state: Player::Stalling(Timeout::default(), 5),
        context: PlayerContext::default(),
    };
    player.context.reset_to_idle_next_update = true;
    player.context.reset_stalling_buffer_states_next_update = true;
    let mut resources = resources();

    let next = run_system(
        &mut resources,
        &mut player,
        &minimap(Minimap::Detecting),
        true,
    );

    assert_eq!(
        next,
        NextUpdate {
            clear_stalling_buffer: true,
            update: StateUpdate::Idle
        }
    );
    assert!(matches!(player.state, Player::Idle));
    assert_eq!(
        resources.input.events,
        vec![
            InputEvent::KeyUp(KeyKind::Left),
            InputEvent::KeyUp(KeyKind::Right)
        ]
    );
    assert!(!player.context.reset_stalling_buffer_states_next_update);
}

#[test]
fn updates_are_picked_by_state() {
    let cases = [
        (Player::Detecting, StateUpdate::Done),
        (Player::Idle, StateUpdate::Idle),
        (
            Player::Moving(Point { x: 1, y: 2 }, true, None),
            StateUpdate::Moving,
        ),
        (Player::SolvingRune, StateUpdate::SolvingRune),
        (Player::CashShopThenExit, StateUpdate::CashShop(false)),
        (
            Player::Panicking(Panicking {
                to: PanicTo::Channel,
            }),
            StateUpdate::Panicking(Panicking {
                to: PanicTo::Channel,
            }),
        ),
        (
            Player::Stalling(Timeout::default(), 5),
            StateUpdate::Stalling(Timeout::default(), 5),
        ),
    ];
    for (state, update) in cases {
        let mut player = PlayerEntity {
            state,
            context: PlayerContext::default(),
        };
        let next = run_system(
            &mut resources(),
            &mut player,
            &minimap(Minimap::Detecting),
            true,
        );
        assert_eq!(next.update, update);
        assert!(!matches!(player.state, Player::Detecting));
    }
}

#[test]
fn states_are_overridden_unless_busy_or_close() {
    let pos = Some(Point { x: 0, y: 0 });
    let far = Moving::new(Point { x: 0, y: 0 }, Point { x: 12, y: 0 }, true, None);
    let close = Moving::new(Point { x: 0, y: 0 }, Point { x: 11, y: 0 }, true, None);

    assert!(Player::Idle.can_override_current_state(pos, 25));
    assert!(Player::Moving(far.dest, true, None).can_override_current_state(pos, 25));
    assert!(!Player::Moving(close.dest, true, None).can_override_current_state(pos, 25));
    assert!(Player::Moving(close.dest, true, None).can_override_current_state(None, 25));
    assert!(Player::Adjusting(Adjusting { moving: far }).can_override_current_state(None, 25));
    assert!(!Player::Adjusting(Adjusting { moving: close }).can_override_current_state(None, 25));
    assert!(
        !Player::DoubleJumping(DoubleJumping {
            moving: far,
            forced: true
        })
        .can_override_current_state(pos, 25)
    );
    assert!(
        Player::DoubleJumping(DoubleJumping {
            moving: far,
            forced: false
        })
        .can_override_current_state(pos, 25)
    );
    assert!(!Player::Grappling(Grappling { moving: far }).can_override_current_state(pos, 25));
    let completed = Moving {
        completed: true,
        ..far
    };
    assert!(Player::Jumping(completed).can_override_current_state(pos, 25));
    assert!(!Player::SolvingRune.can_override_current_state(pos, 25));
}

#[test]
fn actions_are_set_replaced_and_cleared() {
    let mut context = PlayerContext::default();
    let walk = || {
        PlayerAction::Move(Move {
            position: Position::default(),
            wait_after_move_ticks: 0,
        })
    };
    context.set_normal_action(Some(1), walk());
    assert_eq!(context.replace_priority_action(Some(2), walk()), None);
    assert_eq!(context.replace_priority_action(Some(3), walk()), Some(2));
    assert_eq!(context.priority_action_id(), Some(3));
    assert!(matches!(context.next_action(), Some(PlayerAction::Move(_))));
    context.clear_action_completed();
    assert!(!context.has_priority_action());
    assert!(context.has_normal_action());
    context.set_priority_action(Some(4), PlayerAction::SolveRune);
    assert_eq!(context.take_priority_action(), Some(4));
    context.clear_actions_aborted(false);
    assert!(!context.has_normal_action());
    assert!(!context.reset_to_idle_next_update);
    context.set_daily_quest_navigate_failed();
    assert!(context.take_daily_quest_navigate_failed());
    assert!(!context.take_daily_quest_navigate_failed());
}
