//! Laws of the ability store, stated over the specifications its operations meet.
use vstd::prelude::*;

use super::ids::AbilityActivationId;
use super::operation::activation_step;
use super::store::AbilityStore;

verus! {

/// One call in a run on an ability store: an activation attempt, with the activation it
/// started if it started one, or any other call (a grant, commit, end, cancel, rollback or
/// owner removal).
pub enum StoreCall {
    Activation { started: Option<AbilityActivationId> },
    Other,
}

/// The activation a call of a run started, if it started one.
pub open spec fn started_by(call: StoreCall) -> Option<AbilityActivationId> {
    match call {
        StoreCall::Activation { started } => started,
        StoreCall::Other => None,
    }
}

/// Call `i` of a run takes the store from state `i` to state `i + 1`: an activation attempt as
/// its contract says, any other call keeping the activation cursor, as each of their
/// contracts says.
pub open spec fn called_at<Tags, Payload>(
    stores: Seq<AbilityStore<Tags, Payload>>,
    calls: Seq<StoreCall>,
    i: int,
) -> bool {
    match calls[i] {
        StoreCall::Activation { started } => activation_step(stores[i], stores[i + 1], started),
        StoreCall::Other => stores[i + 1].next_activation_raw() == stores[i].next_activation_raw(),
    }
}

/// How many of the first `n` calls of a run started an activation.
pub open spec fn starts_before(calls: Seq<StoreCall>, n: int) -> nat
    decreases n,
{
    if n <= 0 {
        0
    } else {
        starts_before(calls, n - 1) + if started_by(calls[n - 1]) is Some {
            1nat
        } else {
            0nat
        }
    }
}

/// A run of `calls.len()` calls on an ability store, with the stores between them.
pub open spec fn is_store_run<Tags, Payload>(stores: Seq<AbilityStore<Tags, Payload>>, calls: Seq<StoreCall>) -> bool {
    &&& stores.len() == calls.len() + 1
    &&& forall|i: int| 0 <= i < calls.len() ==> #[trigger] called_at(stores, calls, i)
}

proof fn lemma_cursor_counts_starts<Tags, Payload>(
    stores: Seq<AbilityStore<Tags, Payload>>,
    calls: Seq<StoreCall>,
    k: int,
)
    requires
        is_store_run(stores, calls),
        0 <= k <= calls.len(),
    ensures
        stores[k].next_activation_raw() == stores[0].next_activation_raw() + starts_before(calls, k),
    decreases k,
{
    if k > 0 {
        lemma_cursor_counts_starts(stores, calls, k - 1);
        assert(called_at(stores, calls, k - 1));
    }
}

/// Starting from a fresh store, whose activation cursor is 1, each activation a run starts
/// gets as id one more than the number of activations started before it, and is the last one
/// the store then holds; every other call leaves the cursor where it was. After the run the
/// cursor stands one past the number of started activations.
pub proof fn lemma_activation_ids_in_start_order<Tags, Payload>(
    stores: Seq<AbilityStore<Tags, Payload>>,
    calls: Seq<StoreCall>,
)
    requires
        is_store_run(stores, calls),
        stores[0].next_activation_raw() == 1,
    ensures
        forall|i: int|
            0 <= i < calls.len() ==> (started_by(#[trigger] calls[i]) matches Some(id) ==> id.raw()
                == starts_before(calls, i) + 1 && stores[i + 1].actives().last().activation_id == id),
        forall|i: int|
            0 <= i < calls.len() && started_by(#[trigger] calls[i]) is None ==> stores[i + 1].next_activation_raw()
                == stores[i].next_activation_raw(),
        stores[calls.len() as int].next_activation_raw() == starts_before(calls, calls.len() as int) + 1,
{
    assert forall|i: int|
        0 <= i < calls.len() implies (started_by(#[trigger] calls[i]) matches Some(id) ==> id.raw()
            == starts_before(calls, i) + 1 && stores[i + 1].actives().last().activation_id == id) by {
        lemma_cursor_counts_starts(stores, calls, i);
        assert(called_at(stores, calls, i));
    }
    assert forall|i: int|
        0 <= i < calls.len() && started_by(#[trigger] calls[i]) is None implies stores[i + 1].next_activation_raw()
            == stores[i].next_activation_raw() by {
        assert(called_at(stores, calls, i));
    }
    lemma_cursor_counts_starts(stores, calls, calls.len() as int);
}

} // verus!
