use std::collections::VecDeque;
use std::time::{Duration, Instant};

use backend::daily::{DailyQuestEntry, DailyQuestId};
use backend::ecs::{
    Buff, BuffKind, Buffs, CompletedQuest, DetectionRequest, DetectionTask, Detections, Draws,
    Minimap, MinimapContext, MinimapEntity, MinimapIdle, MobSighting, NotificationKind,
    OperationState, Resources, Skill, Skills, Update, World,
};
use backend::geometry::{Point, Rect};
use backend::models::{
    Action, ActionCondition, ActionKey, ActionKeyDirection, ActionKeyWith, ActionMove, Bound,
    EliteBossBehavior, ExchangeHexaBoosterCondition, Familiars, KeyKind, LinkKeyKind, MobbingKey,
    Platform, Position, WaitAfterBuffered,
};
use backend::player::actions::{
    Booster, Key, Move, Panic, PanicTo, PingPong, PingPongDirection, PlayerAction,
};
use backend::player::context::{PlayerContext, Quadrant};
use backend::player::{Player, PlayerEntity};
use backend::rotator::action::{rotator_action, LinkedAction, RotatorAction};
use backend::rotator::condition::{
    needs_sol_erda, should_exchange_hexa_booster, should_queue_fixed_action, Condition, QuickSlotsHexaBooster,
    SolErda,
};
use backend::rotator::daily_quest::{quest_complete_label, shared_dropdown_prefix_len};
use backend::rotator::mobbing::{candidate_position, rotate_ping_pong};
use backend::rotator::priority::{PriorityAction, PriorityActionQueueInfo, Verdict};
use backend::rotator::standing::{
    elite_boss_use_key_priority_action, panic_priority_action, unstuck_priority_action,
    use_booster_priority_action,
};
use backend::rotator::{DefaultRotator, Rotator, RotatorBuildArgs, RotatorMode, Tuning};

const COOLDOWN_BETWEEN_QUEUE_MILLIS: u128 = 20_000;
const TUNING: Tuning = Tuning {
    ms_per_tick: 33,
    double_jump_threshold: 25,
};
const ORIGIN: Position = Position {
    x: 0,
    x_random_range: 0,
    y: 0,
    allow_adjusting: false,
};
const NORMAL_ACTION: Action = Action::Move(ActionMove {
    position: ORIGIN,
    condition: ActionCondition::Any,
    wait_after_move_millis: 0,
});
const PRIORITY_ACTION: Action = Action::Move(ActionMove {
    position: ORIGIN,
    condition: ActionCondition::ErdaShowerOffCooldown,
    wait_after_move_millis: 0,
});

fn mock_world() -> World {
    World {
        minimap: MinimapEntity {
            state: Minimap::Detecting,
            context: MinimapContext { platforms: vec![] },
        },
        player: PlayerEntity {
            state: Player::Idle,
            context: PlayerContext::default(),
        },
        skills: Skills {
            erda_shower: Skill::Detecting,
        },
        buffs: Buffs { states: vec![] },
    }
}

fn resources() -> Resources {
    Resources::new(
        Detections::unavailable(),
        Draws::default(),
        OperationState::Running,
    )
}

fn walk() -> PlayerAction {
    NORMAL_ACTION.player_action(33)
}

fn always(inner: RotatorAction, queue_to_front: bool) -> PriorityAction {
    PriorityAction {
        condition: Condition::Fixed(ActionCondition::EveryMillis(0)),
        condition_kind: None,
        inner,
        metadata: None,
        queue_to_front,
        suppress_during_daily_quest: false,
        queue_info: PriorityActionQueueInfo::default(),
    }
}

fn single(queue_to_front: bool) -> PriorityAction {
    always(RotatorAction::Single(walk()), queue_to_front)
}

fn queue(ids: &[u32]) -> VecDeque<u32> {
    ids.iter().copied().collect()
}

#[test]
fn rotator_should_queue_fixed_action_every_millis() {
    let world = mock_world();
    let now = Instant::now();

    assert!(should_queue_fixed_action(
        &world,
        Some(now - Duration::from_millis(3000)),
        ActionCondition::EveryMillis(2000)
    ));
    assert!(!should_queue_fixed_action(
        &world,
        Some(now - Duration::from_millis(1000)),
        ActionCondition::EveryMillis(2000)
    ));
}

#[test]
fn rotator_should_queue_fixed_action_erda_shower() {
    let mut world = mock_world();
    let now = Instant::now();

    world.skills.erda_shower = Skill::Idle;
    assert!(!should_queue_fixed_action(
        &world,
        Some(now - Duration::from_millis(COOLDOWN_BETWEEN_QUEUE_MILLIS as u64 - 1000)),
        ActionCondition::ErdaShowerOffCooldown
    ));
    assert!(should_queue_fixed_action(
        &world,
        Some(now - Duration::from_millis(COOLDOWN_BETWEEN_QUEUE_MILLIS as u64)),
        ActionCondition::ErdaShowerOffCooldown
    ));

    world.skills.erda_shower = Skill::Detecting;
    assert!(!should_queue_fixed_action(
        &world,
        Some(now - Duration::from_millis(COOLDOWN_BETWEEN_QUEUE_MILLIS as u64)),
        ActionCondition::ErdaShowerOffCooldown
    ));
}

fn build_args() -> RotatorBuildArgs {
    RotatorBuildArgs {
        mode: RotatorMode::default(),
        character_level: 1,
        map_actions: vec![NORMAL_ACTION, NORMAL_ACTION, PRIORITY_ACTION],
        character_actions: vec![],
        buffs: vec![(BuffKind::Rune, KeyKind::A); 4],
        familiars: Familiars::default(),
        familiar_essence_key: KeyKind::A,
        elite_boss_behavior: EliteBossBehavior::CycleChannel,
        elite_boss_behavior_key: KeyKind::A,
        hexa_booster_exchange_condition: ExchangeHexaBoosterCondition::Never,
        hexa_booster_exchange_amount: 1,
        hexa_booster_exchange_all: false,
        enable_panic_mode: true,
        enable_rune_solving: true,
        enable_transparent_shape_solving: true,
        enable_violetta_solving: true,
        enable_reset_normal_actions_on_erda: false,
        enable_using_generic_booster: false,
        enable_using_hexa_booster: false,
        daily_quest_entries: vec![],
        daily_quest_mobbing_key: MobbingKey::default(),
        daily_quest_character_id: None,
    }
}

#[test]
fn rotator_build_actions() {
    let mut rotator = DefaultRotator::new(TUNING);

    rotator.build_actions(build_args());

    assert_eq!(rotator.priority.actions.len(), 11);
    assert_eq!(rotator.normal.actions.len(), 2);
}

#[test]
fn rotator_rotate_action_start_to_end_then_reverse() {
    let mut rotator = DefaultRotator::new(TUNING);
    let mut world = mock_world();
    let mut resources = resources();
    rotator.normal_rotate_mode = RotatorMode::StartToEndThenReverse;
    for i in 0..3 {
        rotator
            .normal
            .actions
            .push((i, RotatorAction::Single(walk())));
    }

    rotator.rotate_action(&mut resources, &mut world);
    assert_eq!(world.player.context.normal_action_id(), Some(0));
    assert!(!rotator.normal.backward);
    assert_eq!(rotator.normal.index, 1);

    world.player.context.clear_actions_aborted(true);
    rotator.rotate_action(&mut resources, &mut world);
    assert_eq!(world.player.context.normal_action_id(), Some(1));
    assert!(!rotator.normal.backward);
    assert_eq!(rotator.normal.index, 2);

    world.player.context.clear_actions_aborted(true);
    rotator.rotate_action(&mut resources, &mut world);
    assert_eq!(world.player.context.normal_action_id(), Some(2));
    assert!(rotator.normal.backward);
    assert_eq!(rotator.normal.index, 1);

    world.player.context.clear_actions_aborted(true);
    rotator.rotate_action(&mut resources, &mut world);
    assert_eq!(world.player.context.normal_action_id(), Some(1));
    assert!(rotator.normal.backward);
    assert_eq!(rotator.normal.index, 2);

    world.player.context.clear_actions_aborted(true);
    rotator.rotate_action(&mut resources, &mut world);
    assert_eq!(world.player.context.normal_action_id(), Some(0));
    assert!(!rotator.normal.backward);
    assert_eq!(rotator.normal.index, 1);
}

#[test]
fn rotator_rotate_action_start_to_end() {
    let mut world = mock_world();
    let mut rotator = DefaultRotator::new(TUNING);
    let mut resources = resources();
    rotator.normal_rotate_mode = RotatorMode::StartToEnd;
    for i in 0..2 {
        rotator
            .normal
            .actions
            .push((i, RotatorAction::Single(walk())));
    }

    rotator.rotate_action(&mut resources, &mut world);
    assert!(world.player.context.has_normal_action());
    assert!(!rotator.normal.backward);
    assert_eq!(rotator.normal.index, 1);

    world.player.context.clear_actions_aborted(true);

    rotator.rotate_action(&mut resources, &mut world);
    assert!(world.player.context.has_normal_action());
    assert!(!rotator.normal.backward);
    assert_eq!(rotator.normal.index, 0);
}

#[test]
fn rotator_priority_actions_queue() {
    let mut rotator = DefaultRotator::new(TUNING);
    let mut world = mock_world();
    world.minimap.state = Minimap::Idle(MinimapIdle {
        rune: Some(Point::default()),
        ..MinimapIdle::default()
    });
    world.buffs.states.push((BuffKind::Rune, Buff::No));
    rotator.priority.actions.insert(
        55,
        PriorityAction {
            condition: Condition::SolveRune,
            ..always(RotatorAction::Single(PlayerAction::SolveRune), true)
        },
    );
    let mut resources = resources();

    rotator.rotate_action(&mut resources, &mut world);
    assert_eq!(rotator.priority.queue.len(), 0);
    assert_eq!(world.player.context.priority_action_id(), Some(55));
}

#[test]
fn rotator_priority_actions_queue_to_front() {
    let mut rotator = DefaultRotator::new(TUNING);
    let mut world = mock_world();
    let mut resources = resources();
    // queue 2 non-front priority actions
    rotator.priority.actions.insert(2, single(false));
    rotator.priority.actions.insert(3, single(false));

    rotator.rotate_action(&mut resources, &mut world);
    assert_eq!(rotator.priority.queue.len(), 1);
    assert_eq!(world.player.context.priority_action_id(), Some(2));

    // add 1 front priority action
    rotator.priority.actions.insert(4, single(true));

    // non-front priority action get replaced
    rotator.rotate_action(&mut resources, &mut world);
    assert_eq!(rotator.priority.queue, queue(&[2, 3]));
    assert_eq!(world.player.context.priority_action_id(), Some(4));

    // add another front priority action
    rotator.priority.actions.insert(5, single(true));

    // queued front priority action cannot be replaced
    // by another front priority action
    rotator.rotate_action(&mut resources, &mut world);
    assert_eq!(rotator.priority.queue, queue(&[5, 2, 3]));
    assert_eq!(world.player.context.priority_action_id(), Some(4));
}

#[test]
fn rotator_priority_linked_action() {
    let mut rotator = DefaultRotator::new(TUNING);
    let mut world = mock_world();
    let mut resources = resources();
    rotator.priority.actions.insert(
        2,
        always(
            RotatorAction::Linked(LinkedAction {
                inner: walk(),
                next: Some(Box::new(LinkedAction {
                    inner: walk(),
                    next: None,
                })),
            }),
            false,
        ),
    );

    // linked action queued
    rotator.rotate_action(&mut resources, &mut world);
    assert!(rotator.priority.queue.is_empty());
    assert!(rotator.priority.queuing_linked_action.is_some());
    assert_eq!(world.player.context.priority_action_id(), Some(2));

    // linked action cannot be replaced by queue to front
    rotator.priority.actions.insert(
        4,
        always(RotatorAction::Single(PlayerAction::SolveRune), true),
    );
    rotator.rotate_action(&mut resources, &mut world);
    assert_eq!(rotator.priority.queue, queue(&[4]));

    world.player.context.clear_actions_aborted(true);
    rotator.rotate_action(&mut resources, &mut world);
    assert!(rotator.priority.queuing_linked_action.is_none());
    assert_eq!(rotator.priority.queue, queue(&[4]));
    assert_eq!(world.player.context.priority_action_id(), Some(2));
}

#[test]
fn rotate_ping_pong_direction() {
    let mut player = PlayerContext::default();
    let idle = MinimapIdle {
        bbox: Rect {
            x: 0,
            y: 0,
            width: 100,
            height: 100,
        },
        ..MinimapIdle::default()
    };
    let bound = Bound {
        x: 20,
        y: 20,
        width: 80,
        height: 80,
    };

    // Closer to right, further than left -> Go left
    player.last_known_pos = Some(Point { x: 80, y: 50 });
    rotate_ping_pong(
        &mut player,
        Minimap::Idle(idle),
        MobbingKey::default(),
        bound,
        33,
    );
    assert!(matches!(
        player.normal_action(),
        Some(PlayerAction::PingPong(PingPong {
            direction: PingPongDirection::Left,
            ..
        }))
    ));

    // Closer to left, further than right -> Go right
    player.clear_actions_aborted(true);
    player.last_known_pos = Some(Point { x: 10, y: 50 });
    rotate_ping_pong(
        &mut player,
        Minimap::Idle(idle),
        MobbingKey::default(),
        bound,
        33,
    );
    assert!(matches!(
        player.normal_action(),
        Some(PlayerAction::PingPong(PingPong {
            direction: PingPongDirection::Right,
            bound: Rect {
                x: 20,
                y: 0,
                width: 80,
                height: 80
            },
            count: 1,
            ..
        }))
    ));
}

#[test]
fn rotator_priority_action_is_ignored_when_executing() {
    let mut rotator = DefaultRotator::new(TUNING);
    let mut world = mock_world();
    let mut resources = resources();

    let action_id = 99;
    rotator.priority.actions.insert(action_id, single(false));
    // The action is currently being executed by the player
    world
        .player
        .context
        .set_priority_action(Some(action_id), walk());

    rotator.rotate_priority_actions(&mut resources, &mut world);

    let action = rotator.priority.actions.get(&action_id).unwrap();
    assert!(action.queue_info.ignoring);
    assert!(action.queue_info.last_queued_time.is_some());
    assert!(!rotator.priority.queue.contains(&action_id));
}

#[test]
fn rotator_priority_linked_action_is_ignored_when_executing() {
    let mut rotator = DefaultRotator::new(TUNING);
    let mut world = mock_world();
    let mut resources = resources();

    let action_id = 42;
    rotator.priority.actions.insert(
        action_id,
        PriorityAction {
            condition_kind: Some(ActionCondition::Linked),
            ..always(
                RotatorAction::Linked(LinkedAction {
                    inner: walk(),
                    next: None,
                }),
                false,
            )
        },
    );
    world
        .player
        .context
        .set_priority_action(Some(action_id), walk());

    rotator.rotate_priority_actions(&mut resources, &mut world);

    let action = rotator.priority.actions.get(&action_id).unwrap();
    assert!(action.queue_info.ignoring);
    assert!(action.queue_info.last_queued_time.is_some());
    assert!(!rotator.priority.queue.contains(&action_id));
}

#[test]
fn rotator_erda_shower_action_ignored_if_another_erda_is_queued() {
    let mut rotator = DefaultRotator::new(TUNING);
    let mut world = mock_world();
    let mut resources = resources();

    let first_erda_id = 1;
    let second_erda_id = 2;
    rotator.priority.actions.insert(
        first_erda_id,
        PriorityAction {
            condition_kind: Some(ActionCondition::ErdaShowerOffCooldown),
            queue_info: PriorityActionQueueInfo {
                ignoring: false,
                last_queued_time: Some(Instant::now()),
            },
            ..single(false)
        },
    );
    rotator.priority.actions.insert(
        second_erda_id,
        PriorityAction {
            condition_kind: Some(ActionCondition::ErdaShowerOffCooldown),
            ..single(false)
        },
    );
    // Queue the first erda action manually
    rotator.priority.queue.push_back(first_erda_id);

    rotator.rotate_priority_actions(&mut resources, &mut world);

    let second_erda = rotator.priority.actions.get(&second_erda_id).unwrap();
    assert!(second_erda.queue_info.ignoring);
    assert!(second_erda.queue_info.last_queued_time.is_some());
    assert!(!rotator.priority.queue.contains(&second_erda_id));
}

#[test]
fn unstuck_priority_action_triggers_when_esc_settings_detected() {
    let mut rotator = DefaultRotator::new(TUNING);
    let mut world = mock_world();
    let mut resources = resources();
    resources.detections.available = true;
    resources.detections.esc_settings = Update::Ready(true);
    rotator.priority.actions.insert(1, unstuck_priority_action());

    rotator.rotate_priority_actions(&mut resources, &mut world);

    assert_eq!(rotator.priority.queue, queue(&[1]));
    assert_eq!(resources.polled, vec![DetectionRequest::EscSettings]);
}

#[test]
fn getting_unstuck_waits_for_a_dialog_and_is_never_put_off() {
    let mut rotator = DefaultRotator::new(TUNING);
    let mut world = mock_world();
    let mut resources = resources();
    resources.detections.available = true;
    rotator.priority.actions.insert(1, unstuck_priority_action());
    assert!(matches!(
        rotator.priority.actions.get(&1).unwrap().inner,
        RotatorAction::Single(PlayerAction::Unstuck)
    ));

    for outcome in [Update::Pending, Update::Failed, Update::Ready(false)] {
        resources.detections.esc_settings = outcome;
        rotator.rotate_priority_actions(&mut resources, &mut world);
        assert!(rotator.priority.queue.is_empty());
        let info = rotator.priority.actions.get(&1).unwrap().queue_info;
        assert_eq!(info.last_queued_time, None);
    }
    resources.detections.esc_settings = Update::Ready(true);
    world.player.context.dead = true;
    rotator.rotate_priority_actions(&mut resources, &mut world);
    assert!(rotator.priority.queue.is_empty());

    world.player.context.dead = false;
    rotator.rotate_priority_actions(&mut resources, &mut world);
    assert_eq!(rotator.priority.queue, queue(&[1]));
}

#[test]
fn elite_boss_use_key_priority_action_triggers_when_elite_present() {
    let mut rotator = DefaultRotator::new(TUNING);
    let mut world = mock_world();
    let mut resources = resources();
    resources.detections.available = true;
    resources.detections.elite_boss_bar = Update::Ready(true);
    rotator
        .priority
        .actions
        .insert(1, elite_boss_use_key_priority_action(KeyKind::A));

    rotator.rotate_priority_actions(&mut resources, &mut world);

    assert_eq!(rotator.priority.queue, queue(&[1]));
}

#[test]
fn panic_priority_action_triggers_when_has_other_players() {
    let mut rotator = DefaultRotator::new(TUNING);
    let mut world = mock_world();
    let mut resources = resources();
    world.minimap.state = Minimap::Idle(MinimapIdle {
        has_any_other_player: true,
        ..MinimapIdle::default()
    });
    let mut action = panic_priority_action();
    action.queue_info.last_queued_time = Some(Instant::now() - Duration::from_millis(16000));
    rotator.priority.actions.insert(1, action);

    rotator.rotate_priority_actions(&mut resources, &mut world);

    assert_eq!(rotator.priority.queue, queue(&[1]));
}

#[test]
fn another_player_has_to_be_around_for_a_while() {
    let mut rotator = DefaultRotator::new(TUNING);
    let mut world = mock_world();
    world.minimap.state = Minimap::Idle(MinimapIdle {
        has_any_other_player: true,
        ..MinimapIdle::default()
    });
    rotator.priority.actions.insert(1, panic_priority_action());

    rotator.rotate_priority_actions(&mut resources(), &mut world);
    assert!(rotator.priority.queue.is_empty());
    let info = rotator.priority.actions.get(&1).unwrap().queue_info;
    assert!(info.last_queued_time.is_some());

    rotator.rotate_priority_actions(&mut resources(), &mut world);
    assert!(rotator.priority.queue.is_empty());
}

#[test]
fn ids_that_are_inserted_again_move_to_the_end() {
    let mut rotator = DefaultRotator::new(TUNING);
    for id in [1, 2, 3] {
        rotator.priority.actions.insert(id, single(false));
    }
    rotator.priority.actions.insert(1, single(false));
    let mut world = mock_world();

    rotator.rotate_priority_actions(&mut resources(), &mut world);

    assert_eq!(rotator.priority.queue, queue(&[2, 3, 1]));
}

#[test]
fn verdicts_are_carried_out_in_order() {
    let mut rotator = DefaultRotator::new(TUNING);
    let ids = vec![1, 2, 3, 4];
    for id in &ids {
        rotator.priority.actions.insert(*id, single(*id == 4));
    }
    let now = Instant::now();
    let queue_it = Verdict::Decided(backend::rotator::condition::ConditionResult::Queue);
    let verdicts = vec![queue_it, Verdict::Ignored, Verdict::Held, queue_it];

    let queued_erda = rotator.priority.carry_out(None, &ids, &verdicts, now);

    assert!(!queued_erda);
    assert_eq!(rotator.priority.queue, queue(&[4, 1]));
    let info = |id: u32| rotator.priority.actions.get(&id).unwrap().queue_info;
    assert_eq!(info(1).last_queued_time, Some(now));
    assert!(info(2).ignoring);
    assert_eq!(info(2).last_queued_time, Some(now));
    assert_eq!(info(3).last_queued_time, None);
}

#[test]
fn boosters_conflict_with_each_other() {
    let mut rotator = DefaultRotator::new(TUNING);
    let mut world = mock_world();
    let mut resources = resources();
    resources.detections.available = true;
    resources.detections.generic_booster_timer_visible = Update::Ready(false);
    resources.detections.hexa_booster_timer_visible = Update::Ready(false);
    rotator
        .priority
        .actions
        .insert(1, use_booster_priority_action(Booster::Generic));
    rotator
        .priority
        .actions
        .insert(2, use_booster_priority_action(Booster::Hexa));

    rotator.rotate_priority_actions(&mut resources, &mut world);

    assert_eq!(rotator.priority.queue, queue(&[1]));
    let info = rotator.priority.actions.get(&2).unwrap().queue_info;
    assert!(info.last_queued_time.is_some());
    assert_eq!(
        resources.polled,
        vec![
            DetectionRequest::BoosterTimer(Booster::Generic),
            DetectionRequest::BoosterTimer(Booster::Hexa)
        ]
    );
}

#[test]
fn a_booster_in_use_is_not_used_again() {
    let mut rotator = DefaultRotator::new(TUNING);
    let mut world = mock_world();
    let mut resources = resources();
    resources.detections.available = true;
    resources.detections.generic_booster_timer_visible = Update::Ready(true);
    rotator
        .priority
        .actions
        .insert(1, use_booster_priority_action(Booster::Generic));

    rotator.rotate_priority_actions(&mut resources, &mut world);

    assert!(rotator.priority.queue.is_empty());
}

#[test]
fn erda_shower_restarts_the_rotation() {
    let mut rotator = DefaultRotator::new(TUNING);
    let mut world = mock_world();
    world.skills.erda_shower = Skill::Idle;
    rotator.build_actions(RotatorBuildArgs {
        enable_reset_normal_actions_on_erda: true,
        buffs: vec![],
        ..build_args()
    });
    rotator.normal.index = 1;
    world.player.context.set_normal_action(Some(7), walk());

    rotator.rotate_priority_actions(&mut resources(), &mut world);

    assert_eq!(rotator.priority.queue.len(), 1);
    assert_eq!(rotator.normal.index, 0);
    assert!(!world.player.context.has_normal_action());
}

#[test]
fn buffs_that_do_not_add_up_exclude_each_other() {
    let run = |active: BuffKind| {
        let mut rotator = DefaultRotator::new(TUNING);
        let mut world = mock_world();
        world.minimap.state = Minimap::Idle(MinimapIdle::default());
        world.buffs.states.push((active, Buff::Volatile));
        rotator.priority.actions.insert(
            1,
            backend::rotator::standing::buff_priority_action(BuffKind::ExpCouponX3, KeyKind::A),
        );
        rotator.rotate_priority_actions(&mut resources(), &mut world);
        rotator.priority.queue.len()
    };
    assert_eq!(run(BuffKind::ExpCouponX2), 0);
    assert_eq!(run(BuffKind::ExpCouponX3), 0);
    assert_eq!(run(BuffKind::ExpCouponX4), 0);
    assert_eq!(run(BuffKind::BonusExpCoupon), 1);
}

#[test]
fn the_essence_is_refilled_when_it_is_used_up() {
    let run = |familiar: Buff, depleted: Update<bool>| {
        let mut rotator = DefaultRotator::new(TUNING);
        let mut world = mock_world();
        let mut resources = resources();
        world.buffs.states.push((BuffKind::Familiar, familiar));
        resources.detections.familiar_essence_depleted = depleted;
        rotator.priority.actions.insert(
            1,
            backend::rotator::standing::familiar_essence_replenish_priority_action(KeyKind::A),
        );
        rotator.rotate_priority_actions(&mut resources, &mut world);
        let info = rotator.priority.actions.get(&1).unwrap().queue_info;
        (
            rotator.priority.queue.len(),
            info.last_queued_time.is_some(),
            resources.polled.len(),
        )
    };
    assert_eq!(run(Buff::Yes, Update::Ready(true)), (1, true, 1));
    assert_eq!(run(Buff::Yes, Update::Ready(false)), (0, true, 1));
    assert_eq!(run(Buff::Yes, Update::Failed), (0, true, 1));
    assert_eq!(run(Buff::Yes, Update::Pending), (0, false, 1));
    assert_eq!(run(Buff::Volatile, Update::Ready(true)), (0, false, 0));
}

#[test]
fn a_rune_is_solved_unless_one_is_being_validated() {
    let run = |rune: Option<Point>, validating: bool, buff: Buff| {
        let mut rotator = DefaultRotator::new(TUNING);
        let mut world = mock_world();
        world.minimap.state = Minimap::Idle(MinimapIdle {
            rune,
            ..MinimapIdle::default()
        });
        world.player.context.validating_rune = validating;
        world.buffs.states.push((BuffKind::Rune, buff));
        rotator.priority.actions.insert(
            1,
            backend::rotator::standing::solve_rune_priority_action(),
        );
        rotator.rotate_priority_actions(&mut resources(), &mut world);
        rotator.priority.queue.len()
    };
    let rune = Some(Point { x: 1, y: 2 });
    assert_eq!(run(rune, false, Buff::No), 1);
    assert_eq!(run(rune, true, Buff::No), 0);
    assert_eq!(run(rune, false, Buff::Yes), 0);
    assert_eq!(run(None, false, Buff::No), 0);
}

#[test]
fn injected_actions_come_before_queued_ones() {
    let mut rotator = DefaultRotator::new(TUNING);
    let mut world = mock_world();
    rotator.priority.actions.insert(1, single(true));
    rotator.priority.queue = queue(&[1]);
    rotator.inject_action(PlayerAction::SolveRune);

    rotator.rotate_priority_actions_queue(&mut world.player);

    assert!(matches!(
        world.player.context.priority_action(),
        Some(PlayerAction::SolveRune)
    ));
    assert_eq!(world.player.context.priority_action_id(), None);
    assert_eq!(rotator.priority.queue, queue(&[1]));
    assert!(rotator.priority.side_queue.is_empty());
}

#[test]
fn sol_erda_is_exchanged_as_configured() {
    let full = ExchangeHexaBoosterCondition::Full;
    let one = ExchangeHexaBoosterCondition::AtLeastOne;
    let without = QuickSlotsHexaBooster::Unavailable;
    assert!(needs_sol_erda(without));
    assert!(!needs_sol_erda(QuickSlotsHexaBooster::Available));
    assert!(should_exchange_hexa_booster(full, without, SolErda::Full));
    assert!(!should_exchange_hexa_booster(
        full,
        without,
        SolErda::AtLeastOne
    ));
    assert!(should_exchange_hexa_booster(
        one,
        without,
        SolErda::AtLeastOne
    ));
    assert!(should_exchange_hexa_booster(one, without, SolErda::Full));
    assert!(!should_exchange_hexa_booster(one, without, SolErda::Empty));
    assert!(!should_exchange_hexa_booster(
        one,
        QuickSlotsHexaBooster::Available,
        SolErda::Full
    ));
}

fn key_action(condition: ActionCondition, queue_to_front: Option<bool>) -> Action {
    Action::Key(ActionKey {
        key: Key {
            key: KeyKind::C,
            key_hold_ticks: 0,
            key_hold_buffered_to_wait_after: false,
            link_key: LinkKeyKind::Unlinked,
            count: 1,
            position: None,
            direction: ActionKeyDirection::Any,
            with: ActionKeyWith::Any,
            wait_before_use_ticks: 0,
            wait_before_use_ticks_random_range: 0,
            wait_after_use_ticks: 0,
            wait_after_use_ticks_random_range: 0,
            wait_after_buffered: WaitAfterBuffered::Unbuffered,
        },
        condition,
        queue_to_front,
    })
}

#[test]
fn linked_actions_form_a_row() {
    let actions = vec![
        NORMAL_ACTION,
        key_action(ActionCondition::Linked, None),
        key_action(ActionCondition::Linked, None),
        NORMAL_ACTION,
    ];
    let (action, offset) = rotator_action(0, &actions, 33);
    assert_eq!(offset, 3);
    let RotatorAction::Linked(head) = action else {
        panic!("not linked");
    };
    assert!(matches!(head.inner, PlayerAction::Move(_)));
    let second = head.next.unwrap();
    assert!(matches!(second.inner, PlayerAction::Key(_)));
    assert!(second.next.unwrap().next.is_none());

    let (action, offset) = rotator_action(3, &actions, 33);
    assert_eq!(offset, 1);
    assert!(matches!(action, RotatorAction::Single(_)));
}

#[test]
fn actions_are_numbered_in_order() {
    let mut rotator = DefaultRotator::new(TUNING);
    rotator.build_actions(RotatorBuildArgs {
        character_actions: vec![key_action(ActionCondition::EveryMillis(5000), Some(true))],
        map_actions: vec![key_action(ActionCondition::Linked, None), NORMAL_ACTION],
        enable_using_generic_booster: true,
        enable_using_hexa_booster: true,
        hexa_booster_exchange_condition: ExchangeHexaBoosterCondition::Full,
        familiars: Familiars {
            enable_familiars_swapping: true,
            swappable_familiars: 7,
            swappable_rarities: 3,
            swap_check_millis: 1000,
        },
        elite_boss_behavior: EliteBossBehavior::UseKey,
        buffs: vec![(BuffKind::Familiar, KeyKind::C)],
        ..build_args()
    });
    let ids: Vec<u32> = rotator.priority.actions.keys().copied().collect();
    assert_eq!(ids, vec![0, 1, 2, 3, 4, 6, 7, 8, 9, 10, 11, 12, 13]);
    assert_eq!(rotator.normal.actions.len(), 1);
    assert_eq!(rotator.normal.actions[0].0, 5);
    assert_eq!(rotator.next_id, 14);
    let fixed = rotator.priority.actions.get(&4).unwrap();
    assert!(fixed.queue_to_front);
    assert!(matches!(fixed.inner, RotatorAction::Linked(_)));
    let last = rotator.priority.actions.get(&13).unwrap();
    assert_eq!(last.condition, Condition::Unstuck);

    rotator.build_actions(build_args());
    let first = *rotator.priority.actions.keys().next().unwrap();
    assert!(first >= 14);
    assert!(rotator
        .stale_tasks
        .contains(&DetectionTask::EscSettings));
}

#[test]
fn monster_park_goes_without_boosters_buffs_and_erda_shower() {
    let mut rotator = DefaultRotator::new(TUNING);
    rotator.build_actions(RotatorBuildArgs {
        mode: RotatorMode::MonsterPark(MobbingKey::default(), Bound::default()),
        enable_using_generic_booster: true,
        enable_using_hexa_booster: true,
        ..build_args()
    });
    assert_eq!(rotator.priority.actions.len(), 6);
    assert_eq!(rotator.normal.actions.len(), 2);
}

#[test]
fn mobbing_rotates_no_configured_actions() {
    let mut rotator = DefaultRotator::new(TUNING);
    rotator.build_actions(RotatorBuildArgs {
        mode: RotatorMode::AutoMobbing(MobbingKey::default(), Bound::default()),
        ..build_args()
    });
    assert!(rotator.normal.actions.is_empty());
    assert_eq!(rotator.priority.actions.len(), 11);
}

#[test]
fn halting_rotates_what_was_injected_only() {
    let mut rotator = DefaultRotator::new(TUNING);
    let mut world = mock_world();
    let mut resources = resources();
    resources.operation = OperationState::Halting;
    rotator.priority.actions.insert(1, single(true));
    rotator
        .normal
        .actions
        .push((0, RotatorAction::Single(walk())));

    rotator.rotate_action(&mut resources, &mut world);
    assert!(!world.player.context.has_normal_action());
    assert!(!world.player.context.has_priority_action());

    rotator.inject_action(PlayerAction::SolveRune);
    rotator.inject_action(PlayerAction::SolveShape);
    rotator.rotate_action(&mut resources, &mut world);
    assert!(matches!(
        world.player.context.priority_action(),
        Some(PlayerAction::SolveRune)
    ));
    rotator.rotate_action(&mut resources, &mut world);
    assert!(matches!(
        world.player.context.priority_action(),
        Some(PlayerAction::SolveRune)
    ));
    assert_eq!(rotator.priority.side_queue.len(), 1);
    assert!(rotator.priority.queue.is_empty());
}

#[test]
fn resetting_keeps_what_was_built() {
    let mut rotator = DefaultRotator::new(TUNING);
    rotator.build_actions(RotatorBuildArgs {
        daily_quest_entries: vec![
            DailyQuestEntry::new(DailyQuestId::Arcana),
            DailyQuestEntry::new(DailyQuestId::Limina),
        ],
        ..build_args()
    });
    rotator.daily_quest.index = 1;
    rotator.daily_quest.navigating = true;
    rotator.priority.queue.push_back(1);
    rotator.normal.backward = true;
    rotator.inject_action(PlayerAction::SolveRune);
    assert!(rotator.is_navigating_daily_quest());

    rotator.reset_queue();

    assert_eq!(rotator.priority.actions.len(), 11);
    assert_eq!(rotator.normal.actions.len(), 2);
    assert_eq!(rotator.daily_quest.index, 1);
    assert_eq!(rotator.daily_quest.entries.len(), 2);
    assert_eq!(rotator.priority.side_queue.len(), 1);
    assert!(!rotator.is_navigating_daily_quest());
    assert!(rotator.priority.queue.is_empty());
    assert!(!rotator.normal.backward);
    assert_eq!(rotator.mode(), RotatorMode::StartToEndThenReverse);
}

fn mob(x: i32, y: i32, reachable: Option<Point>) -> MobSighting {
    MobSighting {
        point: Point { x, y },
        reachable,
    }
}

fn mobbing_world() -> World {
    let mut world = mock_world();
    world.minimap.state = Minimap::Idle(MinimapIdle {
        bbox: Rect {
            x: 0,
            y: 0,
            width: 200,
            height: 100,
        },
        ..MinimapIdle::default()
    });
    world.player.context.last_known_pos = Some(Point { x: 10, y: 40 });
    world
}

fn mobbing_rotator() -> DefaultRotator {
    let mut rotator = DefaultRotator::new(TUNING);
    rotator.normal_rotate_mode = RotatorMode::AutoMobbing(
        MobbingKey {
            key: KeyKind::C,
            key_hold_millis: 100,
            ..MobbingKey::default()
        },
        Bound::default(),
    );
    rotator
}

#[test]
fn the_quest_decides_where_to_explore_before_the_mode() {
    let bound = Bound {
        x: 1,
        y: 2,
        width: 3,
        height: 4,
    };
    let mut rotator = DefaultRotator::new(TUNING);
    assert_eq!(rotator.hunting_bound(), None);
    rotator.normal_rotate_mode = RotatorMode::PingPong(MobbingKey::default(), bound);
    assert_eq!(rotator.hunting_bound(), None);
    rotator.normal_rotate_mode = RotatorMode::AutoMobbing(MobbingKey::default(), bound);
    assert_eq!(rotator.hunting_bound(), Some(bound));

    let mut rotator = quest_rotator(&[DailyQuestId::Limina]);
    rotator.normal_rotate_mode = RotatorMode::AutoMobbing(MobbingKey::default(), bound);
    assert_eq!(rotator.hunting_bound(), Some(DailyQuestId::Limina.bound()));
    rotator.daily_quest.index = 1;
    assert_eq!(rotator.hunting_bound(), Some(bound));
}

#[test]
fn rotators_that_hand_on_the_count_share_no_ids() {
    let mut first = DefaultRotator::new(TUNING);
    first.build_actions(build_args());
    let mut second = DefaultRotator::new(TUNING);
    second.number_from(first.next_id);
    second.build_actions(build_args());

    let ids = |rotator: &DefaultRotator| {
        let mut ids: Vec<u32> = rotator.priority.actions.keys().copied().collect();
        ids.extend(rotator.normal.actions.iter().map(|(id, _)| *id));
        ids
    };
    let earlier = ids(&first);
    assert!(earlier.iter().all(|id| *id < first.next_id));
    assert_eq!(ids(&second).len(), earlier.len());
    assert!(ids(&second).iter().all(|id| *id >= first.next_id));
}

#[test]
fn mobbing_goes_for_a_mob_within_reach() {
    let mut rotator = mobbing_rotator();
    let mut world = mobbing_world();
    let mut resources = resources();
    let place = Point { x: 55, y: 30 };
    world.player.context.name = Some("Hero".to_string());
    resources.detections.mobs = Update::Ready(vec![
        mob(50, 10, Some(Point { x: 1, y: 1 })),
        mob(50, 60, None),
        mob(50, 36, Some(place)),
    ]);
    resources.draws.number = 7;

    rotator.rotate_action(&mut resources, &mut world);

    let Some(PlayerAction::AutoMob(action)) = world.player.context.normal_action() else {
        panic!("no mob");
    };
    assert_eq!((action.position.x, action.position.y), (55, 30));
    assert!(!action.is_pathing);
    assert_eq!(action.key, KeyKind::C);
    assert_eq!(action.key_hold_ticks, 3);
    assert_eq!(action.count, 1);
    assert_eq!(
        resources.polled,
        vec![DetectionRequest::Mobs {
            bbox: Rect {
                x: 0,
                y: 0,
                width: 200,
                height: 100
            },
            bound: Bound::default(),
            pos: Point { x: 10, y: 40 },
            name: Some("Hero".to_string()),
        }]
    );
}

#[test]
fn mobbing_explores_where_there_is_no_mob() {
    let mut rotator = mobbing_rotator();
    let mut world = mobbing_world();
    let mut resources = resources();
    resources.detections.mobs = Update::Ready(vec![]);
    resources.draws.pathing_point = Point { x: 3, y: 4 };

    rotator.rotate_action(&mut resources, &mut world);

    let Some(PlayerAction::AutoMob(action)) = world.player.context.normal_action() else {
        panic!("no mob");
    };
    assert_eq!((action.position.x, action.position.y), (3, 4));
    assert!(action.is_pathing);

    for failed in [Update::Failed, Update::Pending] {
        let mut rotator = mobbing_rotator();
        let mut world = mobbing_world();
        let mut resources = self::resources();
        resources.detections.mobs = failed;
        rotator.rotate_action(&mut resources, &mut world);
        assert!(!world.player.context.has_normal_action());
    }
}

#[test]
fn mobbing_explores_every_fifth_time_in_a_quadrant() {
    let mut rotator = mobbing_rotator();
    let mut world = mobbing_world();
    let mut resources = resources();
    resources.detections.mobs =
        Update::Ready(vec![mob(50, 60, Some(Point { x: 55, y: 30 }))]);
    world.player.context.auto_mob_last_quadrant = Some(Quadrant::TopLeft);

    for time in 1..=10 {
        rotator.rotate_action(&mut resources, &mut world);
        let Some(PlayerAction::AutoMob(action)) = world.player.context.normal_action() else {
            panic!("no mob");
        };
        assert_eq!(action.is_pathing, time % 5 == 0);
        world.player.context.clear_actions_aborted(true);
    }
}

#[test]
fn mobs_that_are_too_high_up_are_left_alone() {
    let minimap = Rect {
        x: 0,
        y: 0,
        width: 200,
        height: 100,
    };
    let pos = Point { x: 0, y: 40 };
    assert_eq!(
        candidate_position(Point { x: 5, y: 36 }, minimap, pos),
        Some(Point { x: 5, y: 64 })
    );
    assert_eq!(candidate_position(Point { x: 5, y: 35 }, minimap, pos), None);
    assert_eq!(
        candidate_position(Point { x: 5, y: 99 }, minimap, pos),
        Some(Point { x: 5, y: 1 })
    );
}

fn quest(id: DailyQuestId) -> DailyQuestEntry {
    DailyQuestEntry {
        kill_target: 100,
        enabled: true,
        ..DailyQuestEntry::new(id)
    }
}

fn quest_rotator(ids: &[DailyQuestId]) -> DefaultRotator {
    let mut rotator = DefaultRotator::new(TUNING);
    rotator.build_actions(RotatorBuildArgs {
        daily_quest_entries: ids.iter().copied().map(quest).collect(),
        daily_quest_mobbing_key: MobbingKey {
            key: KeyKind::C,
            ..MobbingKey::default()
        },
        daily_quest_character_id: Some(5),
        map_actions: vec![PRIORITY_ACTION],
        buffs: vec![],
        elite_boss_behavior: EliteBossBehavior::Nothing,
        enable_panic_mode: false,
        ..build_args()
    });
    rotator
}

#[test]
fn a_daily_quest_starts_with_the_journey() {
    let mut rotator = quest_rotator(&[DailyQuestId::Moonbridge, DailyQuestId::Limina]);
    let mut world = mobbing_world();
    let mut resources = resources();
    world.skills.erda_shower = Skill::Idle;
    let platform = Platform {
        x_start: 1,
        x_end: 2,
        y: 3,
    };
    world.minimap.context.platforms = vec![platform];
    world
        .player
        .context
        .config
        .auto_mob_use_key_when_pathing_update_millis = 77;

    rotator.rotate_action(&mut resources, &mut world);

    assert!(rotator.is_navigating_daily_quest());
    assert!(rotator.priority.queue.is_empty());
    let Some(PlayerAction::NavigateToHuntingGround(target)) =
        world.player.context.priority_action()
    else {
        panic!("no journey");
    };
    assert_eq!(target.dropdown_path, vec!["Tenebris", "Moonbridge"]);
    assert_eq!(target.location_point, (604, 455));
    assert_eq!(target.skip_dropdown_slots, 0);
    assert_eq!(world.player.context.priority_action_id(), None);
    assert_eq!(
        world.minimap.context.platforms,
        DailyQuestId::Moonbridge.platforms()
    );
    let config = world.player.context.config;
    assert!(config.auto_mob_platforms_pathing);
    assert!(config.auto_mob_use_key_when_pathing);
    assert_eq!(config.auto_mob_use_key_when_pathing_update_millis, 500);

    // Failing to get there skips the quest, and the next one shares two selections.
    world.player.context.clear_action_completed();
    world.player.context.set_daily_quest_navigate_failed();
    rotator.rotate_action(&mut resources, &mut world);
    assert_eq!(rotator.daily_quest.index, 1);
    assert!(!rotator.is_navigating_daily_quest());
    rotator.rotate_action(&mut resources, &mut world);
    let Some(PlayerAction::NavigateToHuntingGround(target)) =
        world.player.context.priority_action()
    else {
        panic!("no journey");
    };
    assert_eq!(target.skip_dropdown_slots, 2);

    // Failing the last one too restores how the map is explored.
    world.player.context.clear_action_completed();
    world.player.context.set_daily_quest_navigate_failed();
    rotator.rotate_action(&mut resources, &mut world);
    assert_eq!(rotator.daily_quest.index, 2);
    assert_eq!(world.minimap.context.platforms, vec![platform]);
    let config = world.player.context.config;
    assert!(!config.auto_mob_platforms_pathing);
    assert_eq!(config.auto_mob_use_key_when_pathing_update_millis, 77);
    assert!(resources.notifications.is_empty());
    assert!(resources.completed_quests.is_empty());
    assert!(matches!(resources.operation, OperationState::Running));
}

#[test]
fn daily_quests_are_completed_by_count_or_notice() {
    let mut rotator = quest_rotator(&[DailyQuestId::Arcana, DailyQuestId::Cernium]);
    let mut world = mobbing_world();
    let mut resources = resources();
    rotator.rotate_action(&mut resources, &mut world);
    world.player.context.clear_action_completed();

    // Mobbing goes on until the count reaches its target.
    resources.detections.daily_quest_progress = Update::Ready(vec![(500, 400), (99, 100)]);
    resources.detections.mobs = Update::Ready(vec![]);
    rotator.rotate_action(&mut resources, &mut world);
    assert_eq!(rotator.daily_quest.index, 0);
    assert!(matches!(
        world.player.context.normal_action(),
        Some(PlayerAction::AutoMob(_))
    ));

    // A failed look does not drop what was seen before.
    resources.detections.daily_quest_progress = Update::Ready(vec![(100, 100)]);
    rotator.rotate_action(&mut resources, &mut world);
    assert_eq!(rotator.daily_quest.index, 1);
    assert_eq!(
        resources.completed_quests,
        vec![CompletedQuest {
            character_id: Some(5),
            id: DailyQuestId::Arcana
        }]
    );
    assert!(resources.notifications.is_empty());

    world.player.context.clear_actions_aborted(true);
    resources.detections.daily_quest_progress = Update::Failed;
    rotator.rotate_action(&mut resources, &mut world);
    world.player.context.clear_action_completed();
    resources.detections.daily_quest_complete = Update::Ready(());
    rotator.rotate_action(&mut resources, &mut world);

    assert_eq!(rotator.daily_quest.index, 2);
    assert_eq!(resources.completed_quests.len(), 2);
    assert_eq!(
        resources.notifications,
        vec![NotificationKind::DailyQuestCompleted]
    );
    assert!(matches!(resources.operation, OperationState::Halting));
    assert!(world.minimap.context.platforms.is_empty());
    assert!(!world.player.context.config.auto_mob_platforms_pathing);

    // The way to town is taken although halting.
    world.player.context.clear_actions_aborted(true);
    rotator.rotate_action(&mut resources, &mut world);
    assert!(matches!(
        world.player.context.priority_action(),
        Some(PlayerAction::Panic(Panic { to: PanicTo::Town }))
    ));
}

#[test]
fn dropdowns_are_shared_up_to_the_first_difference() {
    let shared = |a: DailyQuestId, b: DailyQuestId| {
        shared_dropdown_prefix_len(&a.navigation(), &b.navigation())
    };
    assert_eq!(shared(DailyQuestId::Moonbridge, DailyQuestId::Limina), 2);
    assert_eq!(shared(DailyQuestId::Limina, DailyQuestId::Limina), 3);
    assert_eq!(shared(DailyQuestId::Arcana, DailyQuestId::Limina), 1);
    assert_eq!(shared(DailyQuestId::Limina, DailyQuestId::Cernium), 0);
}

#[test]
fn the_quest_is_named_below_the_notice() {
    let (area, text) = quest_complete_label(Rect {
        x: 10,
        y: 20,
        width: 30,
        height: 40,
    });
    assert_eq!(
        area,
        Rect {
            x: 10,
            y: 60,
            width: 300,
            height: 64
        }
    );
    assert_eq!(text, "[Daily Quest]");
}

fn park_rotator() -> DefaultRotator {
    let mut rotator = DefaultRotator::new(TUNING);
    rotator.normal_rotate_mode =
        RotatorMode::MonsterPark(MobbingKey::default(), Bound::default());
    rotator
}

fn dot(x: i32, y: i32) -> Rect {
    Rect {
        x,
        y,
        width: 6,
        height: 6,
    }
}

#[test]
fn enemies_are_chased_from_the_second_sighting_until_gone() {
    let mut rotator = park_rotator();
    let mut world = mobbing_world();
    let mut resources = resources();
    resources.detections.monster_park_enemies = Update::Ready(vec![dot(100, 10), dot(20, 50)]);

    rotator.rotate_action(&mut resources, &mut world);
    assert!(!world.player.context.has_normal_action());
    rotator.rotate_action(&mut resources, &mut world);
    let Some(PlayerAction::AutoMob(action)) = world.player.context.normal_action() else {
        panic!("no enemy");
    };
    // The dot at (20, 50) is centered at (23, 100 - 56 + 3).
    assert_eq!((action.position.x, action.position.y), (23, 47));
    assert!(action.is_monster_park);

    resources.detections.monster_park_enemies = Update::Ready(vec![dot(100, 10)]);
    for _ in 0..2 {
        rotator.rotate_action(&mut resources, &mut world);
        assert!(world.player.context.has_normal_action());
    }
    rotator.rotate_action(&mut resources, &mut world);
    assert!(!world.player.context.has_normal_action());
    assert_eq!(rotator.monster_park.target, None);
}

#[test]
fn portals_are_used_once_the_map_is_clear() {
    let mut rotator = park_rotator();
    let mut world = mobbing_world();
    let mut resources = resources();
    resources.detections.monster_park_enemies = Update::Ready(vec![]);
    resources.detections.monster_park_portals = Update::Ready(vec![Rect {
        x: 100,
        y: 40,
        width: 10,
        height: 20,
    }]);

    for _ in 0..2 {
        rotator.rotate_action(&mut resources, &mut world);
        assert!(!world.player.context.has_normal_action());
    }
    rotator.rotate_action(&mut resources, &mut world);
    // Centered at (105, 40 + 10), with the ground 6 below.
    let expected = |x: i32, y: i32| Move {
        position: Position {
            x,
            x_random_range: 0,
            y,
            allow_adjusting: true,
        },
        wait_after_move_ticks: 0,
    };
    assert!(matches!(
        world.player.context.normal_action(),
        Some(PlayerAction::Move(to)) if *to == expected(105, 44)
    ));

    // Close by, the height is not corrected.
    world.player.context.clear_actions_aborted(true);
    world.player.context.last_known_pos = Some(Point { x: 90, y: 50 });
    rotator.rotate_action(&mut resources, &mut world);
    assert!(matches!(
        world.player.context.normal_action(),
        Some(PlayerAction::Move(to)) if *to == expected(105, 50)
    ));

    // At the portal, up is pressed five times, and then enemies are looked for again.
    world.player.context.clear_actions_aborted(true);
    world.player.context.last_known_pos = Some(Point { x: 106, y: 44 });
    resources.detections.monster_park_portals = Update::Ready(vec![]);
    for _ in 0..5 {
        rotator.rotate_action(&mut resources, &mut world);
        assert!(matches!(
            world.player.context.priority_action(),
            Some(PlayerAction::Key(Key {
                key: KeyKind::Up,
                with: ActionKeyWith::Stationary,
                wait_before_use_ticks: 5,
                ..
            }))
        ));
        world.player.context.clear_action_completed();
    }
    rotator.rotate_action(&mut resources, &mut world);
    assert!(!world.player.context.has_priority_action());
    assert_eq!(rotator.monster_park.no_enemy_count, 0);
    assert_eq!(rotator.monster_park.last_portal, None);
}

#[test]
fn a_portal_is_forgotten_as_soon_as_an_enemy_is_seen() {
    let mut rotator = park_rotator();
    let mut world = mobbing_world();
    let mut resources = resources();
    rotator.monster_park.last_portal = Some(dot(1, 1));
    rotator.monster_park.no_enemy_count = 3;
    resources.detections.monster_park_enemies = Update::Ready(vec![dot(20, 50)]);

    rotator.rotate_action(&mut resources, &mut world);

    assert_eq!(rotator.monster_park.last_portal, None);
    assert_eq!(rotator.monster_park.no_enemy_count, 0);
}

#[test]
fn the_reward_dialog_is_dismissed() {
    let mut rotator = park_rotator();
    let mut world = mobbing_world();
    world.player.context.config.interact_key = KeyKind::Space;
    let mut resources = resources();
    resources.detections.dialog_continue_button = true;

    rotator.rotate_action(&mut resources, &mut world);

    assert!(matches!(
        world.player.context.priority_action(),
        Some(PlayerAction::Key(Key {
            key: KeyKind::Space,
            ..
        }))
    ));
}

#[test]
fn monster_park_is_entered_by_level() {
    for (level, x) in [(259, 109), (260, 120)] {
        let mut rotator = park_rotator();
        rotator.character_level = level;
        let mut world = mobbing_world();
        let mut resources = resources();
        resources.detections.monster_park_entry_map = true;

        rotator.rotate_action(&mut resources, &mut world);
        let Some(PlayerAction::Move(to)) = world.player.context.normal_action() else {
            panic!("no move");
        };
        assert_eq!((to.position.x, to.position.y), (x, 0));

        world.player.context.clear_actions_aborted(true);
        world.player.context.last_known_pos = Some(Point { x: x + 1, y: -1 });
        rotator.rotate_action(&mut resources, &mut world);
        assert!(matches!(
            world.player.context.priority_action(),
            Some(PlayerAction::EnterMonsterPark)
        ));
    }
}
