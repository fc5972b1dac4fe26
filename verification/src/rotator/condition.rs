//! When a priority action is queued.

use vstd::prelude::*;

use std::time::Instant;

use crate::clock::{at_least_millis_passed_since, may_have_passed};
use crate::ecs::{
    Buff, BuffKind, Buffs, DetectionRequest, Detections, Minimap, Resources, Skill, Update, World,
};
use crate::models::{ActionCondition, ExchangeHexaBoosterCondition};
use crate::player::actions::Booster;

verus! {

/// What a [`Condition`] comes to.
#[derive(Clone, Copy, Debug, PartialEq, Eq, Structural)]
pub enum ConditionResult {
    /// The action is queued.
    Queue,
    /// The action is skipped.
    Skip,
    /// The action is skipped, and counts as queued just now.
    Ignore,
}

/// When a priority action is queued.
#[derive(Clone, Copy, Debug, PartialEq, Eq, Structural)]
pub enum Condition {
    /// By a configured condition.
    Fixed(ActionCondition),
    /// Familiars are summoned and their essence is used up.
    FamiliarEssence,
    /// This many milliseconds have passed, and swapping familiars did not fail too often.
    FamiliarsSwap(u64),
    /// There is a rune that has not been solved.
    SolveRune,
    /// There is a lie detector with transparent shapes.
    SolveShape,
    /// There is a lie detector with Violetta.
    SolveVioletta,
    /// The buff is missing.
    Buff(BuffKind),
    /// Another player has been around for some time.
    Panic,
    /// There is an elite boss.
    EliteBoss,
    /// No booster is in use.
    UseBooster(Booster),
    /// There is as much Sol Erda as configured, and no booster.
    ExchangeHexaBooster(ExchangeHexaBoosterCondition),
    /// A dialog is in the way.
    Unstuck,
}

impl Condition {
    /// Whether this is a condition that a priority action can have.
    pub open spec fn wf(self) -> bool {
        match self {
            Condition::Fixed(condition) => {
                condition is EveryMillis || condition is ErdaShowerOffCooldown
            },
            Condition::ExchangeHexaBooster(amount) => amount !is Never,
            _ => true,
        }
    }

    /// How many milliseconds have to pass between two times that the action is queued.
    pub open spec fn spec_cooldown_millis(self) -> u64 {
        match self {
            Condition::Fixed(ActionCondition::EveryMillis(millis)) => millis,
            Condition::Fixed(_) => 20000,
            Condition::FamiliarEssence => 20000,
            Condition::FamiliarsSwap(millis) => millis,
            Condition::SolveRune => 10000,
            Condition::SolveShape | Condition::SolveVioletta => 0,
            Condition::Buff(_) => 20000,
            Condition::Panic | Condition::EliteBoss => 15000,
            Condition::UseBooster(_) | Condition::ExchangeHexaBooster(_) => 20000,
            Condition::Unstuck => 3000,
        }
    }

    /// How many milliseconds have to pass between two times that the action is queued.
    pub fn cooldown_millis(&self) -> (r: u64)
        ensures
            r == self.spec_cooldown_millis(),
    {
        match self {
            Condition::Fixed(ActionCondition::EveryMillis(millis)) => *millis,
            Condition::Fixed(_) => 20000,
            Condition::FamiliarEssence => 20000,
            Condition::FamiliarsSwap(millis) => *millis,
            Condition::SolveRune => 10000,
            Condition::SolveShape | Condition::SolveVioletta => 0,
            Condition::Buff(_) => 20000,
            Condition::Panic | Condition::EliteBoss => 15000,
            Condition::UseBooster(_) | Condition::ExchangeHexaBooster(_) => 20000,
            Condition::Unstuck => 3000,
        }
    }
}

/// Whether a buff is not active.
pub open spec fn missing(buffs: Buffs, kind: BuffKind) -> bool {
    buffs.spec_state(kind) == Buff::No
}

/// Whether a buff may be used while others are active: potions and coupons that do not add up
/// exclude each other.
pub open spec fn compatible(buffs: Buffs, kind: BuffKind) -> bool {
    match kind {
        BuffKind::SmallWealthAcquisitionPotion => missing(buffs, BuffKind::WealthAcquisitionPotion),
        BuffKind::WealthAcquisitionPotion => missing(
            buffs,
            BuffKind::SmallWealthAcquisitionPotion,
        ),
        BuffKind::SmallExpAccumulationPotion => missing(buffs, BuffKind::ExpAccumulationPotion),
        BuffKind::ExpAccumulationPotion => missing(buffs, BuffKind::SmallExpAccumulationPotion),
        BuffKind::ExpCouponX2 => {
            missing(buffs, BuffKind::ExpCouponX3) && missing(buffs, BuffKind::ExpCouponX4)
        },
        BuffKind::ExpCouponX3 => {
            missing(buffs, BuffKind::ExpCouponX2) && missing(buffs, BuffKind::ExpCouponX4)
        },
        BuffKind::ExpCouponX4 => {
            missing(buffs, BuffKind::ExpCouponX2) && missing(buffs, BuffKind::ExpCouponX3)
        },
        BuffKind::BonusExpCoupon => missing(buffs, BuffKind::MvpBonusExpCoupon),
        _ => true,
    }
}

/// The outcome of a detection that queues the action if it is positive.
pub open spec fn queue_if_detected(detected: Update<bool>) -> ConditionResult {
    match detected {
        Update::Ready(true) => ConditionResult::Queue,
        Update::Ready(false) | Update::Failed => ConditionResult::Ignore,
        Update::Pending => ConditionResult::Skip,
    }
}

/// The outcome of a detection, turned around.
pub open spec fn not_detected(detected: Update<bool>) -> Update<bool> {
    match detected {
        Update::Ready(detected) => Update::Ready(!detected),
        _ => detected,
    }
}

/// Whether the Erda Shower skill is off cooldown.
pub open spec fn erda_shower_ready(world: World) -> bool {
    world.skills.erda_shower is Idle
}

/// What a condition comes to without a detection, or `None` if it takes one. `passed` is whether
/// the cooldown has passed.
pub open spec fn decided_at_once(
    condition: Condition,
    available: bool,
    world: World,
    queued_before: bool,
    passed: bool,
    double_jump_threshold: i32,
) -> Option<ConditionResult> {
    let context = world.player.context;
    match condition {
        Condition::Fixed(kind) => if passed && (kind is ErdaShowerOffCooldown
            ==> erda_shower_ready(world)) {
            Some(ConditionResult::Queue)
        } else {
            Some(ConditionResult::Skip)
        },
        Condition::FamiliarEssence => if !passed || world.buffs.spec_state(BuffKind::Familiar)
            != Buff::Yes {
            Some(ConditionResult::Skip)
        } else {
            None
        },
        Condition::FamiliarsSwap(_) => if !passed
            || context.familiars_swap_fail_count_limit_reached {
            Some(ConditionResult::Skip)
        } else {
            Some(ConditionResult::Queue)
        },
        Condition::SolveRune => if context.validating_rune {
            Some(ConditionResult::Ignore)
        } else if passed && (world.minimap.state matches Minimap::Idle(idle) && idle.rune is Some)
            && missing(world.buffs, BuffKind::Rune) {
            Some(ConditionResult::Queue)
        } else {
            Some(ConditionResult::Skip)
        },
        Condition::SolveShape | Condition::SolveVioletta => if !available {
            Some(ConditionResult::Ignore)
        } else {
            None
        },
        Condition::Buff(kind) => if passed && world.minimap.state is Idle && compatible(
            world.buffs,
            kind,
        ) && missing(world.buffs, kind) {
            Some(ConditionResult::Queue)
        } else {
            Some(ConditionResult::Skip)
        },
        Condition::Panic => match world.minimap.state {
            Minimap::Detecting => Some(ConditionResult::Skip),
            Minimap::Idle(idle) => if !idle.has_any_other_player || !queued_before {
                Some(ConditionResult::Ignore)
            } else if passed {
                Some(ConditionResult::Queue)
            } else {
                Some(ConditionResult::Skip)
            },
        },
        Condition::EliteBoss => if !passed {
            Some(ConditionResult::Skip)
        } else if !available {
            Some(ConditionResult::Ignore)
        } else {
            None
        },
        Condition::UseBooster(kind) => if !passed {
            Some(ConditionResult::Skip)
        } else if context.spec_booster_limit_reached(kind) || !available {
            Some(ConditionResult::Ignore)
        } else {
            None
        },
        Condition::ExchangeHexaBooster(_) => if !passed || !available {
            Some(ConditionResult::Skip)
        } else {
            None
        },
        Condition::Unstuck => if !passed || !world.player.state.overridable(
            None,
            double_jump_threshold,
        ) || !available || context.dead {
            Some(ConditionResult::Skip)
        } else {
            None
        },
    }
}

/// The detection that a condition takes.
pub open spec fn request_of(condition: Condition) -> DetectionRequest {
    match condition {
        Condition::SolveShape => DetectionRequest::LieDetectorShape,
        Condition::SolveVioletta => DetectionRequest::LieDetectorVioletta,
        Condition::EliteBoss => DetectionRequest::EliteBossBar,
        Condition::UseBooster(kind) => DetectionRequest::BoosterTimer(kind),
        Condition::ExchangeHexaBooster(amount) => DetectionRequest::HexaBoosterExchange(amount),
        Condition::Unstuck => DetectionRequest::EscSettings,
        _ => DetectionRequest::FamiliarEssence,
    }
}

/// What the detection of a condition comes to.
pub open spec fn detection_result(condition: Condition, detections: Detections) -> ConditionResult {
    match condition {
        Condition::SolveShape => queue_if_detected(detections.lie_detector_shape),
        Condition::SolveVioletta => queue_if_detected(detections.lie_detector_violetta),
        Condition::EliteBoss => queue_if_detected(detections.elite_boss_bar),
        Condition::UseBooster(kind) => queue_if_detected(
            not_detected(detections.spec_booster_timer(kind)),
        ),
        Condition::ExchangeHexaBooster(_) => queue_if_detected(detections.hexa_booster_exchangeable),
        Condition::Unstuck => if detections.esc_settings == Update::Ready(true) {
            ConditionResult::Queue
        } else {
            ConditionResult::Skip
        },
        _ => queue_if_detected(detections.familiar_essence_depleted),
    }
}

/// What a condition comes to. `passed` is whether the cooldown has passed.
pub open spec fn decision(
    condition: Condition,
    detections: Detections,
    world: World,
    queued_before: bool,
    passed: bool,
    double_jump_threshold: i32,
) -> ConditionResult {
    match decided_at_once(
        condition,
        detections.available,
        world,
        queued_before,
        passed,
        double_jump_threshold,
    ) {
        Some(result) => result,
        None => detection_result(condition, detections),
    }
}

/// The detections that deciding a condition uses.
pub open spec fn requests(
    condition: Condition,
    detections: Detections,
    world: World,
    queued_before: bool,
    passed: bool,
    double_jump_threshold: i32,
) -> Seq<DetectionRequest> {
    if decided_at_once(
        condition,
        detections.available,
        world,
        queued_before,
        passed,
        double_jump_threshold,
    ) is None {
        seq![request_of(condition)]
    } else {
        seq![]
    }
}

fn is_missing(buffs: &Buffs, kind: BuffKind) -> (r: bool)
    ensures
        r == missing(*buffs, kind),
{
    match buffs.state(kind) {
        Buff::No => true,
        _ => false,
    }
}

/// Whether a buff may be used while others are active.
pub fn is_compatible(buffs: &Buffs, kind: BuffKind) -> (r: bool)
    ensures
        r == compatible(*buffs, kind),
{
    match kind {
        BuffKind::SmallWealthAcquisitionPotion => {
            is_missing(buffs, BuffKind::WealthAcquisitionPotion)
        },
        BuffKind::WealthAcquisitionPotion => {
            is_missing(buffs, BuffKind::SmallWealthAcquisitionPotion)
        },
        BuffKind::SmallExpAccumulationPotion => {
            is_missing(buffs, BuffKind::ExpAccumulationPotion)
        },
        BuffKind::ExpAccumulationPotion => {
            is_missing(buffs, BuffKind::SmallExpAccumulationPotion)
        },
        BuffKind::ExpCouponX2 => {
            is_missing(buffs, BuffKind::ExpCouponX3) && is_missing(buffs, BuffKind::ExpCouponX4)
        },
        BuffKind::ExpCouponX3 => {
            is_missing(buffs, BuffKind::ExpCouponX2) && is_missing(buffs, BuffKind::ExpCouponX4)
        },
        BuffKind::ExpCouponX4 => {
            is_missing(buffs, BuffKind::ExpCouponX3) && is_missing(buffs, BuffKind::ExpCouponX2)
        },
        BuffKind::BonusExpCoupon => is_missing(buffs, BuffKind::MvpBonusExpCoupon),
        _ => true,
    }
}

fn from_detection(detected: &Update<bool>) -> (r: ConditionResult)
    ensures
        r == queue_if_detected(*detected),
{
    match detected {
        Update::Ready(true) => ConditionResult::Queue,
        Update::Ready(false) | Update::Failed => ConditionResult::Ignore,
        Update::Pending => ConditionResult::Skip,
    }
}

fn decide_at_once(
    condition: Condition,
    available: bool,
    world: &World,
    queued_before: bool,
    passed: bool,
    double_jump_threshold: i32,
) -> (r: Option<ConditionResult>)
    ensures
        r == decided_at_once(
            condition,
            available,
            *world,
            queued_before,
            passed,
            double_jump_threshold,
        ),
{
    let queue_or_skip = |queue: bool| -> (r: Option<ConditionResult>)
        ensures
            r == (if queue {
                Some(ConditionResult::Queue)
            } else {
                Some(ConditionResult::Skip)
            }),
        {
            if queue {
                Some(ConditionResult::Queue)
            } else {
                Some(ConditionResult::Skip)
            }
        };
    match condition {
        Condition::Fixed(kind) => {
            let ready = match kind {
                ActionCondition::ErdaShowerOffCooldown => match world.skills.erda_shower {
                    Skill::Idle => true,
                    _ => false,
                },
                _ => true,
            };
            queue_or_skip(passed && ready)
        },
        Condition::FamiliarEssence => {
            let active = match world.buffs.state(BuffKind::Familiar) {
                Buff::Yes => true,
                _ => false,
            };
            if !passed || !active {
                Some(ConditionResult::Skip)
            } else {
                None
            }
        },
        Condition::FamiliarsSwap(_) => {
            queue_or_skip(
                passed && !world.player.context.familiars_swap_fail_count_limit_reached,
            )
        },
        Condition::SolveRune => {
            if world.player.context.validating_rune {
                return Some(ConditionResult::Ignore);
            }
            let has_rune = match world.minimap.state {
                Minimap::Idle(idle) => idle.rune.is_some(),
                Minimap::Detecting => false,
            };
            queue_or_skip(passed && has_rune && is_missing(&world.buffs, BuffKind::Rune))
        },
        Condition::SolveShape | Condition::SolveVioletta => if !available {
            Some(ConditionResult::Ignore)
        } else {
            None
        },
        Condition::Buff(kind) => {
            let idle = match world.minimap.state {
                Minimap::Idle(_) => true,
                Minimap::Detecting => false,
            };
            queue_or_skip(
                passed && idle && is_compatible(&world.buffs, kind) && is_missing(
                    &world.buffs,
                    kind,
                ),
            )
        },
        Condition::Panic => match world.minimap.state {
            Minimap::Detecting => Some(ConditionResult::Skip),
            Minimap::Idle(idle) => {
                if !idle.has_any_other_player || !queued_before {
                    return Some(ConditionResult::Ignore);
                }
                queue_or_skip(passed)
            },
        },
        Condition::EliteBoss => {
            if !passed {
                Some(ConditionResult::Skip)
            } else if !available {
                Some(ConditionResult::Ignore)
            } else {
                None
            }
        },
        Condition::UseBooster(kind) => {
            if !passed {
                Some(ConditionResult::Skip)
            } else if world.player.context.is_booster_fail_count_limit_reached(kind) || !available {
                Some(ConditionResult::Ignore)
            } else {
                None
            }
        },
        Condition::ExchangeHexaBooster(_) => {
            if !passed || !available {
                Some(ConditionResult::Skip)
            } else {
                None
            }
        },
        Condition::Unstuck => {
            if !passed || !world.player.state.can_override_current_state(
                None,
                double_jump_threshold,
            ) || !available || world.player.context.dead {
                Some(ConditionResult::Skip)
            } else {
                None
            }
        },
    }
}

/// Decides a condition, given whether the cooldown has passed.
pub fn decide(
    condition: Condition,
    resources: &mut Resources,
    world: &World,
    queued_before: bool,
    passed: bool,
    double_jump_threshold: i32,
) -> (r: ConditionResult)
    ensures
        r == decision(
            condition,
            old(resources).detections,
            *world,
            queued_before,
            passed,
            double_jump_threshold,
        ),
        final(resources).used(
            *old(resources),
            requests(
                condition,
                old(resources).detections,
                *world,
                queued_before,
                passed,
                double_jump_threshold,
            ),
        ),
{
    if let Some(result) = decide_at_once(
        condition,
        resources.detections.available,
        world,
        queued_before,
        passed,
        double_jump_threshold,
    ) {
        return result;
    }
    let request = match condition {
        Condition::SolveShape => DetectionRequest::LieDetectorShape,
        Condition::SolveVioletta => DetectionRequest::LieDetectorVioletta,
        Condition::EliteBoss => DetectionRequest::EliteBossBar,
        Condition::UseBooster(kind) => DetectionRequest::BoosterTimer(kind),
        Condition::ExchangeHexaBooster(amount) => DetectionRequest::HexaBoosterExchange(amount),
        Condition::Unstuck => DetectionRequest::EscSettings,
        _ => DetectionRequest::FamiliarEssence,
    };
    resources.polled.push(request);
    match condition {
        Condition::SolveShape => from_detection(&resources.detections.lie_detector_shape),
        Condition::SolveVioletta => from_detection(&resources.detections.lie_detector_violetta),
        Condition::EliteBoss => from_detection(&resources.detections.elite_boss_bar),
        Condition::UseBooster(kind) => match resources.detections.booster_timer(kind) {
            Update::Ready(visible) => from_detection(&Update::Ready(!*visible)),
            Update::Failed => ConditionResult::Ignore,
            Update::Pending => ConditionResult::Skip,
        },
        Condition::ExchangeHexaBooster(_) => {
            from_detection(&resources.detections.hexa_booster_exchangeable)
        },
        Condition::Unstuck => match resources.detections.esc_settings {
            Update::Ready(true) => ConditionResult::Queue,
            _ => ConditionResult::Skip,
        },
        _ => from_detection(&resources.detections.familiar_essence_depleted),
    }
}

/// Whether an action with a configured condition is to be queued.
pub fn should_queue_fixed_action(
    world: &World,
    last_queued_time: Option<Instant>,
    condition: ActionCondition,
) -> (r: bool)
    requires
        Condition::Fixed(condition).wf(),
    ensures
        exists|passed: bool| #[trigger]
            may_have_passed(
                last_queued_time,
                Condition::Fixed(condition).spec_cooldown_millis() as u128,
                passed,
            ) && r == (passed && (condition is ErdaShowerOffCooldown ==> erda_shower_ready(
                *world,
            ))),
{
    let millis: u128 = Condition::Fixed(condition).cooldown_millis() as u128;
    let passed = at_least_millis_passed_since(last_queued_time, millis);
    match decide_at_once(Condition::Fixed(condition), false, world, false, passed, 0) {
        Some(ConditionResult::Queue) => true,
        _ => false,
    }
}

/// What the quick slot of the HEXA booster shows.
#[derive(Clone, Copy, Debug, PartialEq, Eq, Structural)]
pub enum QuickSlotsHexaBooster {
    Available,
    Unavailable,
}

/// How much Sol Erda there is.
#[derive(Clone, Copy, Debug, PartialEq, Eq, Structural)]
pub enum SolErda {
    Empty,
    AtLeastOne,
    Full,
}

/// Whether the Sol Erda is to be looked at: only if there is no booster.
pub fn needs_sol_erda(booster: QuickSlotsHexaBooster) -> (r: bool)
    ensures
        r == (booster is Unavailable),
{
    match booster {
        QuickSlotsHexaBooster::Available => false,
        QuickSlotsHexaBooster::Unavailable => true,
    }
}

/// Whether Sol Erda is to be exchanged for a HEXA booster: if there is no booster, and as much
/// Sol Erda as configured. Where [`needs_sol_erda`] says no, there is nothing to exchange.
pub fn should_exchange_hexa_booster(
    condition: ExchangeHexaBoosterCondition,
    booster: QuickSlotsHexaBooster,
    sol_erda: SolErda,
) -> (r: bool)
    requires
        condition !is Never,
    ensures
        r == (booster is Unavailable && match condition {
            ExchangeHexaBoosterCondition::AtLeastOne => sol_erda !is Empty,
            _ => sol_erda is Full,
        }),
{
    match (booster, condition, sol_erda) {
        (QuickSlotsHexaBooster::Available, _, _) => false,
        (_, ExchangeHexaBoosterCondition::AtLeastOne, SolErda::AtLeastOne) => true,
        (_, _, SolErda::Full) => true,
        _ => false,
    }
}

/// A coupon that multiplies experience is used only while none is active.
pub proof fn coupons_do_not_overlap(
    kind: BuffKind,
    detections: Detections,
    world: World,
    queued_before: bool,
    passed: bool,
    double_jump_threshold: i32,
)
    requires
        kind == BuffKind::ExpCouponX2 || kind == BuffKind::ExpCouponX3 || kind
            == BuffKind::ExpCouponX4,
        decision(
            Condition::Buff(kind),
            detections,
            world,
            queued_before,
            passed,
            double_jump_threshold,
        ) == ConditionResult::Queue,
    ensures
        missing(world.buffs, BuffKind::ExpCouponX2),
        missing(world.buffs, BuffKind::ExpCouponX3),
        missing(world.buffs, BuffKind::ExpCouponX4),
{
}

/// The essence of the familiars is refilled exactly if the cooldown has passed, familiars are
/// summoned and their essence is used up. If it is not used up, this counts as queued just now.
pub proof fn familiars_are_refilled_when_depleted(
    detections: Detections,
    world: World,
    queued_before: bool,
    passed: bool,
    double_jump_threshold: i32,
)
    ensures
        ({
            let result = decision(
                Condition::FamiliarEssence,
                detections,
                world,
                queued_before,
                passed,
                double_jump_threshold,
            );
            let looks = passed && world.buffs.spec_state(BuffKind::Familiar) == Buff::Yes;
            let depleted = detections.familiar_essence_depleted;
            &&& result == ConditionResult::Queue <==> looks && depleted == Update::Ready(true)
            &&& looks && depleted == Update::Ready(false) ==> result == ConditionResult::Ignore
        }),
{
}

/// A rune is solved exactly if none is being validated, the cooldown has passed, there is a rune
/// on the minimap and no rune buff is active.
pub proof fn runes_are_solved_when_there(
    detections: Detections,
    world: World,
    queued_before: bool,
    passed: bool,
    double_jump_threshold: i32,
)
    ensures
        decision(
            Condition::SolveRune,
            detections,
            world,
            queued_before,
            passed,
            double_jump_threshold,
        ) == ConditionResult::Queue <==> {
            &&& !world.player.context.validating_rune
            &&& passed
            &&& world.minimap.state matches Minimap::Idle(idle)
            &&& idle.rune is Some
            &&& missing(world.buffs, BuffKind::Rune)
        },
{
}

/// A buff that no active one excludes is used exactly if the cooldown has passed, the minimap is
/// there and the buff is missing.
pub proof fn buffs_are_used_when_missing(
    kind: BuffKind,
    detections: Detections,
    world: World,
    queued_before: bool,
    passed: bool,
    double_jump_threshold: i32,
)
    requires
        compatible(world.buffs, kind),
    ensures
        decision(
            Condition::Buff(kind),
            detections,
            world,
            queued_before,
            passed,
            double_jump_threshold,
        ) == ConditionResult::Queue <==> passed && world.minimap.state is Idle && missing(
            world.buffs,
            kind,
        ),
{
}

/// Getting unstuck is queued exactly if the cooldown has passed, the player is alive and in a
/// state that can be overridden, there is a screen to look at, and a dialog was seen there. It is
/// skipped otherwise, also as long as the look at the screen is not over, and never counts as
/// queued just now.
pub proof fn dialogs_are_dismissed_when_seen(
    detections: Detections,
    world: World,
    queued_before: bool,
    passed: bool,
    double_jump_threshold: i32,
)
    ensures
        decision(
            Condition::Unstuck,
            detections,
            world,
            queued_before,
            passed,
            double_jump_threshold,
        ) == (if {
            &&& passed
            &&& world.player.state.overridable(None, double_jump_threshold)
            &&& detections.available
            &&& !world.player.context.dead
            &&& detections.esc_settings == Update::Ready(true)
        } {
            ConditionResult::Queue
        } else {
            ConditionResult::Skip
        }),
{
}

/// Looking for a dialog again and again, with a cooldown that has passed, a living player in a
/// state that can be overridden, and a screen to look at: nothing happens up to the first look
/// that shows one, and that look queues getting unstuck.
pub proof fn the_first_sight_of_a_dialog_is_enough(
    looks: Seq<Detections>,
    first: int,
    world: World,
    queued_before: bool,
    double_jump_threshold: i32,
)
    requires
        0 <= first < looks.len(),
        looks[first].esc_settings == Update::Ready(true),
        forall|i: int|
            0 <= i < first ==> (#[trigger] looks[i]).esc_settings != Update::Ready(true),
        looks[first].available,
        world.player.state.overridable(None, double_jump_threshold),
        !world.player.context.dead,
    ensures
        forall|i: int|
            0 <= i <= first ==> #[trigger] decision(
                Condition::Unstuck,
                looks[i],
                world,
                queued_before,
                true,
                double_jump_threshold,
            ) == (if i == first {
                ConditionResult::Queue
            } else {
                ConditionResult::Skip
            }),
{
}

/// Nothing but a lie detector is queued for before its cooldown has passed.
pub proof fn cooldowns_are_kept(
    condition: Condition,
    detections: Detections,
    world: World,
    queued_before: bool,
    double_jump_threshold: i32,
)
    requires
        condition !is SolveShape,
        condition !is SolveVioletta,
    ensures
        decision(condition, detections, world, queued_before, false, double_jump_threshold)
            != ConditionResult::Queue,
{
}

} // verus!
