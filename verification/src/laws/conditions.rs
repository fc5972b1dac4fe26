//! When priority actions are queued.

use vstd::prelude::*;

use std::time::Instant;

use crate::clock::{may_have_passed, millis_passed, time_between, whole_millis};
use crate::ecs::{
    buff_state, Buff, BuffKind, DetectionRequest, Detections, Minimap, Skill, Update, World,
};
use crate::models::{ActionCondition, ExchangeHexaBoosterCondition};
use crate::player::actions::Booster;
use crate::rotator::condition::{decision, requests, Condition, ConditionResult};

verus! {

/// How long to wait until an action is queued again, in milliseconds: as long as configured, or
/// else by what it is for.
pub proof fn cooldowns(condition: Condition)
    ensures
        ({
            let millis = condition.spec_cooldown_millis();
            &&& condition matches Condition::Fixed(ActionCondition::EveryMillis(every)) ==> millis
                == every
            &&& condition matches Condition::FamiliarsSwap(every) ==> millis == every
            &&& condition == Condition::Fixed(ActionCondition::ErdaShowerOffCooldown)
                || condition is FamiliarEssence || condition is Buff || condition is UseBooster
                || condition is ExchangeHexaBooster ==> millis == 20000
            &&& condition is Panic || condition is EliteBoss ==> millis == 15000
            &&& condition is SolveRune ==> millis == 10000
            &&& condition is Unstuck ==> millis == 3000
            &&& condition is SolveShape || condition is SolveVioletta ==> millis == 0
        }),
{
}

/// Time passes from the moment an action was queued to now: as soon as the given number of
/// milliseconds lies in between, it has passed, and an action that was never queued need not
/// wait.
pub proof fn waiting_starts_when_queued(since: Instant, now: Instant, millis: u128, passed: bool)
    ensures
        millis_passed(since, now, millis) <==> whole_millis(time_between(now, since)) >= millis,
        millis_passed(since, now, 0),
        may_have_passed(None, millis, passed) <==> passed,
        may_have_passed(Some(since), millis, passed) ==> exists|then: Instant|
            passed <==> whole_millis(#[trigger] time_between(then, since)) >= millis,
{
    if may_have_passed(Some(since), millis, passed) {
        let then = choose|then: Instant| passed == #[trigger] millis_passed(since, then, millis);
        assert(passed <==> whole_millis(time_between(then, since)) >= millis);
    }
}

/// A configured action is queued exactly if it has waited long enough and, if it is to wait for
/// the Erda Shower skill, that skill is off cooldown. It is never put off.
pub proof fn configured_actions_wait_for_their_condition(
    kind: ActionCondition,
    detections: Detections,
    world: World,
    queued_before: bool,
    passed: bool,
    threshold: i32,
)
    ensures
        ({
            let result = decision(
                Condition::Fixed(kind),
                detections,
                world,
                queued_before,
                passed,
                threshold,
            );
            &&& result == ConditionResult::Queue <==> passed && (kind
                == ActionCondition::ErdaShowerOffCooldown ==> world.skills.erda_shower
                == Skill::Idle)
            &&& result != ConditionResult::Ignore
        }),
{
}

/// Swapping familiars is queued exactly if it has waited long enough and has not failed too
/// often. It is never put off.
pub proof fn familiars_are_swapped_in_turn(
    millis: u64,
    detections: Detections,
    world: World,
    queued_before: bool,
    passed: bool,
    threshold: i32,
)
    ensures
        ({
            let result = decision(
                Condition::FamiliarsSwap(millis),
                detections,
                world,
                queued_before,
                passed,
                threshold,
            );
            &&& result == ConditionResult::Queue <==> passed
                && !world.player.context.familiars_swap_fail_count_limit_reached
            &&& result != ConditionResult::Ignore
        }),
{
}

/// The essence of familiars is refilled exactly if that has waited long enough, familiars are
/// summoned, and their essence was seen to be used up. A look that shows otherwise, or fails, puts
/// it off.
pub proof fn essence_is_refilled(
    detections: Detections,
    world: World,
    queued_before: bool,
    passed: bool,
    threshold: i32,
)
    ensures
        ({
            let result = decision(
                Condition::FamiliarEssence,
                detections,
                world,
                queued_before,
                passed,
                threshold,
            );
            let looks = passed && buff_state(world.buffs.states@, BuffKind::Familiar) == Buff::Yes;
            let seen = detections.familiar_essence_depleted;
            &&& result == ConditionResult::Queue <==> looks && seen == Update::Ready(true)
            &&& result == ConditionResult::Ignore <==> looks && (seen == Update::Ready(false)
                || seen == Update::<bool>::Failed)
        }),
{
}

/// With a screen to look at, each kind of lie detector is solved exactly when it is seen, however
/// long ago the last one was and whatever else is seen. Without one, or when it is not seen, it is
/// put off.
pub proof fn lie_detectors_are_told_apart(
    detections: Detections,
    world: World,
    queued_before: bool,
    passed: bool,
    threshold: i32,
)
    ensures
        ({
            let shape = decision(
                Condition::SolveShape,
                detections,
                world,
                queued_before,
                passed,
                threshold,
            );
            let violetta = decision(
                Condition::SolveVioletta,
                detections,
                world,
                queued_before,
                passed,
                threshold,
            );
            &&& shape == ConditionResult::Queue <==> detections.available
                && detections.lie_detector_shape == Update::Ready(true)
            &&& shape == ConditionResult::Skip <==> detections.available
                && detections.lie_detector_shape == Update::<bool>::Pending
            &&& violetta == ConditionResult::Queue <==> detections.available
                && detections.lie_detector_violetta == Update::Ready(true)
            &&& violetta == ConditionResult::Skip <==> detections.available
                && detections.lie_detector_violetta == Update::<bool>::Pending
        }),
{
}

/// A rune is solved exactly if none is being validated, it has waited long enough, there is one on
/// the minimap and no rune buff is active. It is put off exactly while one is being validated.
pub proof fn runes_are_solved(
    detections: Detections,
    world: World,
    queued_before: bool,
    passed: bool,
    threshold: i32,
)
    ensures
        ({
            let result = decision(
                Condition::SolveRune,
                detections,
                world,
                queued_before,
                passed,
                threshold,
            );
            let validating = world.player.context.validating_rune;
            &&& result == ConditionResult::Ignore <==> validating
            &&& result == ConditionResult::Queue <==> {
                &&& !validating && passed
                &&& buff_state(world.buffs.states@, BuffKind::Rune) == Buff::No
                &&& world.minimap.state matches Minimap::Idle(idle)
                &&& idle.rune is Some
            }
        }),
{
}

/// Whether a buff multiplies experience.
pub open spec fn is_coupon(kind: BuffKind) -> bool {
    kind is ExpCouponX2 || kind is ExpCouponX3 || kind is ExpCouponX4
}

/// Whether a buff makes mobs drop more.
pub open spec fn is_wealth(kind: BuffKind) -> bool {
    kind is WealthAcquisitionPotion || kind is SmallWealthAcquisitionPotion
}

/// Whether a buff accumulates experience.
pub open spec fn is_accumulation(kind: BuffKind) -> bool {
    kind is ExpAccumulationPotion || kind is SmallExpAccumulationPotion
}

/// Whether `kind` must not be used while `active` is active: two of one sort do not add up, and
/// neither does the bonus coupon with the better one.
pub open spec fn excludes(active: BuffKind, kind: BuffKind) -> bool {
    ||| active == kind
    ||| is_coupon(active) && is_coupon(kind)
    ||| is_wealth(active) && is_wealth(kind)
    ||| is_accumulation(active) && is_accumulation(kind)
    ||| active is MvpBonusExpCoupon && kind is BonusExpCoupon
}

/// A buff is used exactly if that has waited long enough, the minimap is there, and neither the
/// buff itself nor one that excludes it is, or may be, active. It is never put off.
pub proof fn buffs_are_kept_up(
    kind: BuffKind,
    detections: Detections,
    world: World,
    queued_before: bool,
    passed: bool,
    threshold: i32,
)
    ensures
        ({
            let result = decision(
                Condition::Buff(kind),
                detections,
                world,
                queued_before,
                passed,
                threshold,
            );
            &&& result == ConditionResult::Queue <==> {
                &&& passed && world.minimap.state is Idle
                &&& forall|active: BuffKind|
                    excludes(active, kind) ==> #[trigger] buff_state(world.buffs.states@, active)
                        == Buff::No
            }
            &&& result != ConditionResult::Ignore
        }),
{
    let states = world.buffs.states@;
    let free = forall|active: BuffKind|
        excludes(active, kind) ==> #[trigger] buff_state(states, active) == Buff::No;
    if free {
        assert(excludes(kind, kind));
        assert(buff_state(states, kind) == Buff::No);
        assert(excludes(BuffKind::ExpCouponX2, kind) ==> buff_state(states, BuffKind::ExpCouponX2)
            == Buff::No);
        assert(excludes(BuffKind::ExpCouponX3, kind) ==> buff_state(states, BuffKind::ExpCouponX3)
            == Buff::No);
        assert(excludes(BuffKind::ExpCouponX4, kind) ==> buff_state(states, BuffKind::ExpCouponX4)
            == Buff::No);
    }
}

/// Another player makes the channel change exactly after being around for some time: for the
/// first time the clock is only started, and it starts over whenever nobody is around.
pub proof fn panic_takes_a_lasting_visitor(
    detections: Detections,
    world: World,
    queued_before: bool,
    passed: bool,
    threshold: i32,
)
    ensures
        ({
            let result = decision(
                Condition::Panic,
                detections,
                world,
                queued_before,
                passed,
                threshold,
            );
            match world.minimap.state {
                Minimap::Detecting => result == ConditionResult::Skip,
                Minimap::Idle(idle) => {
                    &&& result == ConditionResult::Queue <==> idle.has_any_other_player
                        && queued_before && passed
                    &&& result == ConditionResult::Ignore <==> !(idle.has_any_other_player
                        && queued_before)
                },
            }
        }),
{
}

/// An elite boss is responded to exactly if that has waited long enough and its bar was seen. With
/// no screen to look at, or when it is not there, it is put off.
pub proof fn elite_bosses_are_responded_to(
    detections: Detections,
    world: World,
    queued_before: bool,
    passed: bool,
    threshold: i32,
)
    ensures
        ({
            let result = decision(
                Condition::EliteBoss,
                detections,
                world,
                queued_before,
                passed,
                threshold,
            );
            let seen = detections.elite_boss_bar;
            &&& result == ConditionResult::Queue <==> passed && detections.available && seen
                == Update::Ready(true)
            &&& result == ConditionResult::Ignore <==> passed && (!detections.available || seen
                == Update::Ready(false) || seen == Update::<bool>::Failed)
        }),
{
}

/// A booster is used exactly if that has waited long enough, did not fail too often for this kind
/// of booster, and no timer was seen by the task for this kind. It is put off when it failed too
/// often, there is no screen to look at, or the timer is there.
pub proof fn boosters_are_kept_in_use(
    kind: Booster,
    detections: Detections,
    world: World,
    queued_before: bool,
    passed: bool,
    threshold: i32,
)
    ensures
        ({
            let result = decision(
                Condition::UseBooster(kind),
                detections,
                world,
                queued_before,
                passed,
                threshold,
            );
            let given_up = if kind is Generic {
                world.player.context.generic_booster_fail_count_limit_reached
            } else {
                world.player.context.hexa_booster_fail_count_limit_reached
            };
            let timer = if kind is Generic {
                detections.generic_booster_timer_visible
            } else {
                detections.hexa_booster_timer_visible
            };
            &&& result == ConditionResult::Queue <==> passed && !given_up && detections.available
                && timer == Update::Ready(false)
            &&& result == ConditionResult::Skip <==> !passed || (!given_up && detections.available
                && timer == Update::<bool>::Pending)
        }),
{
}

/// Sol Erda is exchanged exactly if that has waited long enough and it was seen to be due. It is
/// put off only when it was seen not to be, or the look failed.
pub proof fn boosters_are_exchanged(
    amount: ExchangeHexaBoosterCondition,
    detections: Detections,
    world: World,
    queued_before: bool,
    passed: bool,
    threshold: i32,
)
    ensures
        ({
            let result = decision(
                Condition::ExchangeHexaBooster(amount),
                detections,
                world,
                queued_before,
                passed,
                threshold,
            );
            let seen = detections.hexa_booster_exchangeable;
            let looks = passed && detections.available;
            &&& result == ConditionResult::Queue <==> looks && seen == Update::Ready(true)
            &&& result == ConditionResult::Ignore <==> looks && (seen == Update::Ready(false)
                || seen == Update::<bool>::Failed)
        }),
{
}

/// The detection that a condition looks at, if it looks at one.
pub open spec fn sight_of(condition: Condition) -> Option<DetectionRequest> {
    match condition {
        Condition::FamiliarEssence => Some(DetectionRequest::FamiliarEssence),
        Condition::SolveShape => Some(DetectionRequest::LieDetectorShape),
        Condition::SolveVioletta => Some(DetectionRequest::LieDetectorVioletta),
        Condition::EliteBoss => Some(DetectionRequest::EliteBossBar),
        Condition::UseBooster(kind) => Some(DetectionRequest::BoosterTimer(kind)),
        Condition::ExchangeHexaBooster(amount) => Some(
            DetectionRequest::HexaBoosterExchange(amount),
        ),
        Condition::Unstuck => Some(DetectionRequest::EscSettings),
        _ => None,
    }
}

/// The detections of two looks at the screen that differ only in what `request` shows.
pub open spec fn differ_only_in(
    one: Detections,
    other: Detections,
    request: Option<DetectionRequest>,
) -> bool {
    &&& one.available == other.available
    &&& request != Some(DetectionRequest::FamiliarEssence) ==> one.familiar_essence_depleted
        == other.familiar_essence_depleted
    &&& request != Some(DetectionRequest::LieDetectorShape) ==> one.lie_detector_shape
        == other.lie_detector_shape
    &&& request != Some(DetectionRequest::LieDetectorVioletta) ==> one.lie_detector_violetta
        == other.lie_detector_violetta
    &&& request != Some(DetectionRequest::EliteBossBar) ==> one.elite_boss_bar
        == other.elite_boss_bar
    &&& request != Some(DetectionRequest::BoosterTimer(Booster::Generic))
        ==> one.generic_booster_timer_visible == other.generic_booster_timer_visible
    &&& request != Some(DetectionRequest::BoosterTimer(Booster::Hexa))
        ==> one.hexa_booster_timer_visible == other.hexa_booster_timer_visible
    &&& !(request matches Some(DetectionRequest::HexaBoosterExchange(_)))
        ==> one.hexa_booster_exchangeable == other.hexa_booster_exchangeable
    &&& request != Some(DetectionRequest::EscSettings) ==> one.esc_settings == other.esc_settings
}

/// A condition uses no detection but its own, and uses it exactly when the outcome of that
/// detection makes a difference.
pub proof fn conditions_use_the_detection_they_depend_on(
    condition: Condition,
    detections: Detections,
    other: Detections,
    world: World,
    queued_before: bool,
    passed: bool,
    threshold: i32,
)
    requires
        differ_only_in(detections, other, sight_of(condition)),
    ensures
        ({
            let used = requests(
                condition,
                detections,
                world,
                queued_before,
                passed,
                threshold,
            );
            &&& used.len() <= 1
            &&& used.len() == 1 ==> sight_of(condition) == Some(used[0])
            &&& used.len() == 0 ==> decision(
                condition,
                detections,
                world,
                queued_before,
                passed,
                threshold,
            ) == decision(condition, other, world, queued_before, passed, threshold)
        }),
{
}

/// Where a detection is used, it can make a difference: what a condition comes to with one outcome
/// is not what it comes to with every other.
pub proof fn used_detections_decide(
    condition: Condition,
    detections: Detections,
    seen: Detections,
    unseen: Detections,
    world: World,
    queued_before: bool,
    passed: bool,
    threshold: i32,
)
    requires
        requests(condition, detections, world, queued_before, passed, threshold).len() == 1,
        seen.available == detections.available,
        unseen.available == detections.available,
        seen.familiar_essence_depleted == Update::Ready(true),
        seen.lie_detector_shape == Update::Ready(true),
        seen.lie_detector_violetta == Update::Ready(true),
        seen.elite_boss_bar == Update::Ready(true),
        seen.generic_booster_timer_visible == Update::Ready(false),
        seen.hexa_booster_timer_visible == Update::Ready(false),
        seen.hexa_booster_exchangeable == Update::Ready(true),
        seen.esc_settings == Update::Ready(true),
        unseen.familiar_essence_depleted == Update::<bool>::Pending,
        unseen.lie_detector_shape == Update::<bool>::Pending,
        unseen.lie_detector_violetta == Update::<bool>::Pending,
        unseen.elite_boss_bar == Update::<bool>::Pending,
        unseen.generic_booster_timer_visible == Update::<bool>::Pending,
        unseen.hexa_booster_timer_visible == Update::<bool>::Pending,
        unseen.hexa_booster_exchangeable == Update::<bool>::Pending,
        unseen.esc_settings == Update::<bool>::Pending,
    ensures
        decision(condition, seen, world, queued_before, passed, threshold)
            == ConditionResult::Queue,
        decision(condition, unseen, world, queued_before, passed, threshold)
            == ConditionResult::Skip,
{
}

/// The state of a buff is that of its first entry, and a buff without an entry is not active.
pub proof fn first_entries_of_buffs_count(states: Seq<(BuffKind, Buff)>, kind: BuffKind)
    ensures
        (forall|i: int| 0 <= i < states.len() ==> (#[trigger] states[i]).0 != kind) ==> buff_state(
            states,
            kind,
        ) == Buff::No,
        forall|i: int|
            0 <= i < states.len() && (#[trigger] states[i]).0 == kind && (forall|j: int|
                0 <= j < i ==> (#[trigger] states[j]).0 != kind) ==> buff_state(states, kind)
                == states[i].1,
    decreases states.len(),
{
    if states.len() > 0 {
        let rest = states.skip(1);
        first_entries_of_buffs_count(rest, kind);
        if forall|i: int| 0 <= i < states.len() ==> (#[trigger] states[i]).0 != kind {
            assert forall|i: int| 0 <= i < rest.len() implies (#[trigger] rest[i]).0 != kind by {
                assert(rest[i] == states[i + 1]);
            }
            assert(states[0].0 != kind);
        }
        assert forall|i: int|
            0 <= i < states.len() && (#[trigger] states[i]).0 == kind && (forall|j: int|
                0 <= j < i ==> (#[trigger] states[j]).0 != kind) implies buff_state(states, kind)
            == states[i].1 by {
            if i > 0 {
                assert(states[0].0 != kind);
                assert(rest[i - 1] == states[i]);
                assert forall|j: int| 0 <= j < i - 1 implies (#[trigger] rest[j]).0 != kind by {
                    assert(rest[j] == states[j + 1]);
                }
            }
        }
    }
}

} // verus!
