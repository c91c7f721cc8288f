//! Laws of the effect pipeline, stated over the specifications its operations meet.
use vstd::prelude::*;
use vstd::arithmetic::div_mod::{
    lemma_fundamental_div_mod, lemma_fundamental_div_mod_converse_div,
    lemma_fundamental_div_mod_converse_mod, lemma_mod_pos_bound,
};

use super::application::EffectApplicationInput;
use super::definition::{EffectClockPolicy, EffectKind};
use super::events::{EffectFact, EffectInstance, ExecutionRecord};
use super::ids::{lemma_active_effect_id_raw_injective, ActiveEffectId};
use super::pipeline::{
    accumulated_units, advance_facts, advanced_effects, advanced_facts, advanced_instance,
    application_applied, elapsed_for, expires_within, interrupted_facts, kept_effects, periodic_fact,
    periodic_runs, policy_selects, selected_effects, timer_facts,
    EffectApplyOutcome, EffectObjectRemovalPolicy,
};
use crate::ability::indexed_store::has_key;
use crate::identity::ObjectId;

verus! {

/// Ticking an effect by `a` and then by `b` leaves it as ticking it once by `a + b` does,
/// runs the same number of periodic executions in total, and exhausts it exactly when the
/// single tick would, provided the first tick does not exhaust it.
pub proof fn lemma_tick_split<Tags, Payload>(effect: EffectInstance<Tags, Payload>, a: u64, b: u64)
    requires
        !expires_within(effect, a),
        a + b <= u64::MAX,
        effect.period matches Some(period) ==> period.units > 0 && accumulated_units(
            effect,
            (a + b) as u64,
        ) <= u64::MAX,
    ensures
        advanced_instance(advanced_instance(effect, a), b) == advanced_instance(effect, (a + b) as u64),
        periodic_runs(effect, a) + periodic_runs(advanced_instance(effect, a), b) == periodic_runs(
            effect,
            (a + b) as u64,
        ),
        expires_within(advanced_instance(effect, a), b) == expires_within(effect, (a + b) as u64),
{
    let once = advanced_instance(effect, a);
    let total = (a + b) as u64;
    assert(elapsed_for(effect, a) + elapsed_for(once, b) == elapsed_for(effect, total));
    match effect.period {
        Some(period) => {
            let u = period.units as int;
            let x = effect.period_elapsed_units + elapsed_for(effect, a);
            let q1 = x / u;
            let r1 = x % u;
            lemma_fundamental_div_mod(x, u);
            lemma_mod_pos_bound(x, u);
            assert(once.period_elapsed_units == r1);
            let y = r1 + elapsed_for(once, b);
            let q2 = y / u;
            let r2 = y % u;
            lemma_fundamental_div_mod(y, u);
            lemma_mod_pos_bound(y, u);
            let whole = accumulated_units(effect, total);
            assert(whole == x + elapsed_for(once, b));
            assert(u * q1 + u * q2 == (q1 + q2) * u) by (nonlinear_arith);
            assert(whole == (q1 + q2) * u + r2);
            lemma_fundamental_div_mod_converse_div(whole, u, q1 + q2, r2);
            lemma_fundamental_div_mod_converse_mod(whole, u, q1 + q2, r2);
            assert(advanced_instance(once, b).period_elapsed_units == advanced_instance(
                effect,
                total,
            ).period_elapsed_units);
        },
        None => {},
    }
}

/// An effect is still active after a tick exactly when the tick does not exhaust it.
pub proof fn lemma_tick_survivors<Tags, Payload>(
    effects: Seq<EffectInstance<Tags, Payload>>,
    elapsed: u64,
    key: u64,
)
    ensures
        has_key(advanced_effects(effects, elapsed), key) <==> exists|i: int|
            0 <= i < effects.len() && (#[trigger] effects[i]).id.raw() == key && !expires_within(
                effects[i],
                elapsed,
            ),
    decreases effects.len(),
{
    if effects.len() > 0 {
        let rest = effects.drop_last();
        lemma_tick_survivors(rest, elapsed, key);
        let before = advanced_effects(rest, elapsed);
        let after = advanced_effects(effects, elapsed);
        let last = effects.last();
        if has_key(after, key) {
            let k = choose|k: int| 0 <= k < after.len() && (#[trigger] after[k]).id.raw() == key;
            if k < before.len() {
                assert(after[k] == before[k]);
                assert(has_key(before, key));
                let i = choose|i: int|
                    0 <= i < rest.len() && (#[trigger] rest[i]).id.raw() == key && !expires_within(
                        rest[i],
                        elapsed,
                    );
                assert(effects[i] == rest[i]);
            } else {
                assert(effects[effects.len() - 1] == last);
            }
        }
        if exists|i: int|
            0 <= i < effects.len() && (#[trigger] effects[i]).id.raw() == key && !expires_within(
                effects[i],
                elapsed,
            ) {
            let i = choose|i: int|
                0 <= i < effects.len() && (#[trigger] effects[i]).id.raw() == key && !expires_within(
                    effects[i],
                    elapsed,
                );
            if i < rest.len() {
                assert(rest[i] == effects[i]);
                let k = choose|k: int| 0 <= k < before.len() && (#[trigger] before[k]).id.raw() == key;
                assert(after[k] == before[k]);
            } else {
                assert(after[after.len() - 1] == advanced_instance(last, elapsed));
            }
        }
    }
}

/// Cleanup for an object partitions the effects: every effect it keeps is unselected, every
/// effect it removes is selected, and none is lost or duplicated.
pub proof fn lemma_cleanup_partitions<Tags, Payload>(
    effects: Seq<EffectInstance<Tags, Payload>>,
    object_id: ObjectId,
    policy: EffectObjectRemovalPolicy,
)
    ensures
        forall|i: int|
            0 <= i < kept_effects(effects, object_id, policy).len() ==> !policy_selects(
                policy,
                #[trigger] kept_effects(effects, object_id, policy)[i],
                object_id,
            ),
        forall|i: int|
            0 <= i < selected_effects(effects, object_id, policy).len() ==> policy_selects(
                policy,
                #[trigger] selected_effects(effects, object_id, policy)[i],
                object_id,
            ),
        kept_effects(effects, object_id, policy).len() + selected_effects(effects, object_id, policy).len()
            == effects.len(),
    decreases effects.len(),
{
    if effects.len() > 0 {
        lemma_cleanup_partitions(effects.drop_last(), object_id, policy);
        let kept_before = kept_effects(effects.drop_last(), object_id, policy);
        let selected_before = selected_effects(effects.drop_last(), object_id, policy);
        let kept = kept_effects(effects, object_id, policy);
        let selected = selected_effects(effects, object_id, policy);
        assert forall|i: int| 0 <= i < kept.len() implies !policy_selects(
            policy,
            #[trigger] kept[i],
            object_id,
        ) by {
            if i < kept_before.len() {
                assert(kept[i] == kept_before[i]);
            }
        }
        assert forall|i: int| 0 <= i < selected.len() implies policy_selects(
            policy,
            #[trigger] selected[i],
            object_id,
        ) by {
            if i < selected_before.len() {
                assert(selected[i] == selected_before[i]);
            }
        }
    }
}

/// Cleanup by source or target selects exactly what cleanup by source and cleanup by target
/// select together: an effect whose source is the object, or whose target is. What each policy
/// keeps no longer references the object in the way it names: after cleanup by source or
/// target, no kept effect has the object as source or as target.
pub proof fn lemma_cleanup_policies<Tags, Payload>(
    effects: Seq<EffectInstance<Tags, Payload>>,
    object_id: ObjectId,
)
    ensures
        forall|effect: EffectInstance<Tags, Payload>|
            #[trigger] policy_selects(EffectObjectRemovalPolicy::SourceOrTarget, effect, object_id) <==> (
            policy_selects(EffectObjectRemovalPolicy::Source, effect, object_id) || policy_selects(
                EffectObjectRemovalPolicy::Target,
                effect,
                object_id,
            )),
        forall|i: int|
            0 <= i < kept_effects(effects, object_id, EffectObjectRemovalPolicy::Source).len()
                ==> (#[trigger] kept_effects(effects, object_id, EffectObjectRemovalPolicy::Source)[i]).source_id
                != Some(object_id),
        forall|i: int|
            0 <= i < kept_effects(effects, object_id, EffectObjectRemovalPolicy::Target).len()
                ==> (#[trigger] kept_effects(effects, object_id, EffectObjectRemovalPolicy::Target)[i]).target_id
                != object_id,
        forall|i: int|
            0 <= i < kept_effects(effects, object_id, EffectObjectRemovalPolicy::SourceOrTarget).len() ==> {
                let kept = #[trigger] kept_effects(effects, object_id, EffectObjectRemovalPolicy::SourceOrTarget)[i];
                kept.source_id != Some(object_id) && kept.target_id != object_id
            },
        forall|i: int|
            0 <= i < selected_effects(effects, object_id, EffectObjectRemovalPolicy::SourceOrTarget).len() ==> {
                let removed = #[trigger] selected_effects(
                    effects,
                    object_id,
                    EffectObjectRemovalPolicy::SourceOrTarget,
                )[i];
                removed.source_id == Some(object_id) || removed.target_id == object_id
            },
{
    lemma_cleanup_partitions(effects, object_id, EffectObjectRemovalPolicy::Source);
    lemma_cleanup_partitions(effects, object_id, EffectObjectRemovalPolicy::Target);
    lemma_cleanup_partitions(effects, object_id, EffectObjectRemovalPolicy::SourceOrTarget);
}

/// An advance report is honest about time: it reports counting at most what the effect had
/// left, and exactly what the effect lost.
pub open spec fn advance_report_consistent(fact: EffectFact) -> bool {
    match fact {
        EffectFact::Advanced { effect, elapsed_units, previous_remaining_units } => {
            &&& previous_remaining_units matches Some(previous)
            &&& elapsed_units <= previous
            &&& effect.remaining_units == Some((previous - elapsed_units) as u64)
        },
        _ => true,
    }
}

/// Ticking a timed effect by `elapsed` reports one advance, counting the smaller of `elapsed`
/// and the units it had left, from what it had left down to what it has left; an indefinite
/// effect reports no advance.
pub proof fn lemma_advance_report<Tags, Payload>(effect: EffectInstance<Tags, Payload>, elapsed: u64)
    ensures
        effect.remaining_units matches Some(previous) ==> {
            let facts = timer_facts(effect, elapsed);
            &&& facts.len() == 1
            &&& facts[0] matches EffectFact::Advanced { effect: reported, elapsed_units, previous_remaining_units }
                && previous_remaining_units == Some(previous) && elapsed_units == (if elapsed < previous {
                elapsed
            } else {
                previous
            }) && reported.remaining_units == Some((previous - elapsed_units) as u64)
            &&& advance_report_consistent(facts[0])
        },
        effect.remaining_units is None ==> timer_facts(effect, elapsed).len() == 0,
        forall|runs: nat, i: int|
            0 <= i < interrupted_facts(effect, elapsed, runs).len() ==> advance_report_consistent(
                #[trigger] interrupted_facts(effect, elapsed, runs)[i],
            ),
{
    assert forall|runs: nat, i: int|
        0 <= i < interrupted_facts(effect, elapsed, runs).len() implies advance_report_consistent(
            #[trigger] interrupted_facts(effect, elapsed, runs)[i],
        ) by {
        let timer = timer_facts(effect, elapsed);
        if i >= timer.len() {
            assert(interrupted_facts(effect, elapsed, runs)[i] == periodic_fact(effect));
        }
    }
}

/// Every advance a tick of all of `effects` by `elapsed` reports is honest about time.
pub proof fn lemma_tick_reports_consistent<Tags, Payload>(
    effects: Seq<EffectInstance<Tags, Payload>>,
    elapsed: u64,
)
    ensures
        forall|i: int|
            0 <= i < advanced_facts(effects, elapsed).len() ==> advance_report_consistent(
                #[trigger] advanced_facts(effects, elapsed)[i],
            ),
    decreases effects.len(),
{
    if effects.len() > 0 {
        let rest = effects.drop_last();
        let effect = effects.last();
        lemma_tick_reports_consistent(rest, elapsed);
        lemma_advance_report(effect, elapsed);
        let before = advanced_facts(rest, elapsed);
        let own = advance_facts(effect, elapsed);
        let timer = timer_facts(effect, elapsed);
        let periodic = Seq::new(periodic_runs(effect, elapsed), |k: int| periodic_fact(effect));
        assert forall|i: int| 0 <= i < advanced_facts(effects, elapsed).len() implies advance_report_consistent(
            #[trigger] advanced_facts(effects, elapsed)[i],
        ) by {
            if i < before.len() {
                assert(advanced_facts(effects, elapsed)[i] == before[i]);
            } else {
                let k = i - before.len();
                assert(advanced_facts(effects, elapsed)[i] == own[k]);
                if k < timer.len() {
                    assert(own[k] == timer[k]);
                } else if k < timer.len() + periodic.len() {
                    assert(own[k] == periodic[k - timer.len()]);
                }
            }
        }
    }
}

/// Two successive applications that each create an active effect hand out successive,
/// distinct ids.
pub proof fn lemma_successive_ids<Tags, Payload>(
    effects0: Seq<EffectInstance<Tags, Payload>>,
    next0: u64,
    effects1: Seq<EffectInstance<Tags, Payload>>,
    next1: u64,
    effects2: Seq<EffectInstance<Tags, Payload>>,
    next2: u64,
    facts0: Seq<EffectFact>,
    facts1: Seq<EffectFact>,
    facts2: Seq<EffectFact>,
    executed0: Seq<ExecutionRecord>,
    executed1: Seq<ExecutionRecord>,
    executed2: Seq<ExecutionRecord>,
    key1: Seq<char>,
    kind1: EffectKind,
    duration1: Option<EffectClockPolicy>,
    period1: Option<EffectClockPolicy>,
    input1: EffectApplicationInput<Tags, Payload>,
    key2: Seq<char>,
    kind2: EffectKind,
    duration2: Option<EffectClockPolicy>,
    period2: Option<EffectClockPolicy>,
    input2: EffectApplicationInput<Tags, Payload>,
    executes1: bool,
    executes2: bool,
    id1: ActiveEffectId,
    id2: ActiveEffectId,
)
    requires
        application_applied(
            effects0,
            next0,
            effects1,
            next1,
            facts0,
            facts1,
            executed0,
            executed1,
            key1,
            kind1,
            duration1,
            period1,
            input1,
            executes1,
            Some(EffectApplyOutcome::ActiveCreated(id1)),
        ),
        application_applied(
            effects1,
            next1,
            effects2,
            next2,
            facts1,
            facts2,
            executed1,
            executed2,
            key2,
            kind2,
            duration2,
            period2,
            input2,
            executes2,
            Some(EffectApplyOutcome::ActiveCreated(id2)),
        ),
    ensures
        id1.raw() == next0,
        id2.raw() == id1.raw() + 1,
        id1 != id2,
{
    broadcast use lemma_active_effect_id_raw_injective;
}

/// One application in a run: its definition's key, kind and clocks, its input, whether the
/// executor's action never fails, and what the application returned.
pub struct ApplicationStep<Tags, Payload> {
    pub key: Seq<char>,
    pub kind: EffectKind,
    pub duration: Option<EffectClockPolicy>,
    pub period: Option<EffectClockPolicy>,
    pub input: EffectApplicationInput<Tags, Payload>,
    pub executes_every_effect: bool,
    pub outcome: Option<EffectApplyOutcome>,
}

/// Step `i` of a run of pipeline calls takes the pipeline from state `i` to state `i + 1`: an
/// application (`Some`) as its contract says, with its facts and executions; any other call
/// (`None`: a tick or a removal) keeping the id cursor, as each of their contracts says.
pub open spec fn stepped_at<Tags, Payload>(
    effects: Seq<Seq<EffectInstance<Tags, Payload>>>,
    nexts: Seq<u64>,
    facts: Seq<Seq<EffectFact>>,
    executed: Seq<Seq<ExecutionRecord>>,
    steps: Seq<Option<ApplicationStep<Tags, Payload>>>,
    i: int,
) -> bool {
    match steps[i] {
        Some(step) => application_applied(
            effects[i],
            nexts[i],
            effects[i + 1],
            nexts[i + 1],
            facts[i],
            facts[i + 1],
            executed[i],
            executed[i + 1],
            step.key,
            step.kind,
            step.duration,
            step.period,
            step.input,
            step.executes_every_effect,
            step.outcome,
        ),
        None => nexts[i + 1] == nexts[i],
    }
}

/// The active effect a step of a run created, if it created one.
pub open spec fn created_by<Tags, Payload>(step: Option<ApplicationStep<Tags, Payload>>) -> Option<ActiveEffectId> {
    match step {
        Some(application) => match application.outcome {
            Some(EffectApplyOutcome::ActiveCreated(id)) => Some(id),
            _ => None,
        },
        None => None,
    }
}

/// How many of the first `n` steps of a run created an active effect.
pub open spec fn creations_before<Tags, Payload>(steps: Seq<Option<ApplicationStep<Tags, Payload>>>, n: int) -> nat
    decreases n,
{
    if n <= 0 {
        0
    } else {
        creations_before(steps, n - 1) + if created_by(steps[n - 1]) is Some {
            1nat
        } else {
            0nat
        }
    }
}

/// A run of `steps.len()` pipeline calls, with the states between them.
pub open spec fn is_pipeline_run<Tags, Payload>(
    effects: Seq<Seq<EffectInstance<Tags, Payload>>>,
    nexts: Seq<u64>,
    facts: Seq<Seq<EffectFact>>,
    executed: Seq<Seq<ExecutionRecord>>,
    steps: Seq<Option<ApplicationStep<Tags, Payload>>>,
) -> bool {
    &&& effects.len() == steps.len() + 1
    &&& nexts.len() == steps.len() + 1
    &&& facts.len() == steps.len() + 1
    &&& executed.len() == steps.len() + 1
    &&& forall|i: int| 0 <= i < steps.len() ==> #[trigger] stepped_at(effects, nexts, facts, executed, steps, i)
}

proof fn lemma_cursor_counts_creations<Tags, Payload>(
    effects: Seq<Seq<EffectInstance<Tags, Payload>>>,
    nexts: Seq<u64>,
    facts: Seq<Seq<EffectFact>>,
    executed: Seq<Seq<ExecutionRecord>>,
    steps: Seq<Option<ApplicationStep<Tags, Payload>>>,
    k: int,
)
    requires
        is_pipeline_run(effects, nexts, facts, executed, steps),
        0 <= k <= steps.len(),
    ensures
        nexts[k] == nexts[0] + creations_before(steps, k),
    decreases k,
{
    if k > 0 {
        lemma_cursor_counts_creations(effects, nexts, facts, executed, steps, k - 1);
        assert(stepped_at(effects, nexts, facts, executed, steps, k - 1));
    }
}

/// Starting from a fresh pipeline, whose id cursor is 1, each call of a run that creates an
/// active effect gives it as id one more than the number of effects created before it, and
/// that effect is the last one the pipeline then holds; every other call leaves the cursor
/// where it was. After the run the cursor stands one past the number of created effects.
pub proof fn lemma_ids_in_creation_order<Tags, Payload>(
    effects: Seq<Seq<EffectInstance<Tags, Payload>>>,
    nexts: Seq<u64>,
    facts: Seq<Seq<EffectFact>>,
    executed: Seq<Seq<ExecutionRecord>>,
    steps: Seq<Option<ApplicationStep<Tags, Payload>>>,
)
    requires
        is_pipeline_run(effects, nexts, facts, executed, steps),
        nexts[0] == 1,
    ensures
        forall|i: int|
            0 <= i < steps.len() ==> (created_by(#[trigger] steps[i]) matches Some(id) ==> id.raw()
                == creations_before(steps, i) + 1 && effects[i + 1].last().id == id),
        forall|i: int|
            0 <= i < steps.len() && created_by(#[trigger] steps[i]) is None ==> nexts[i + 1] == nexts[i],
        nexts[steps.len() as int] == creations_before(steps, steps.len() as int) + 1,
{
    assert forall|i: int|
        0 <= i < steps.len() implies (created_by(#[trigger] steps[i]) matches Some(id) ==> id.raw()
            == creations_before(steps, i) + 1 && effects[i + 1].last().id == id) by {
        lemma_cursor_counts_creations(effects, nexts, facts, executed, steps, i);
        assert(stepped_at(effects, nexts, facts, executed, steps, i));
    }
    assert forall|i: int| 0 <= i < steps.len() && created_by(#[trigger] steps[i]) is None implies nexts[i + 1]
        == nexts[i] by {
        assert(stepped_at(effects, nexts, facts, executed, steps, i));
    }
    lemma_cursor_counts_creations(effects, nexts, facts, executed, steps, steps.len() as int);
}

} // verus!
