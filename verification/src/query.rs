//! Deterministic query helpers.
use vstd::prelude::*;

use crate::data_store::DataStore;
use crate::errors::CoreError;
use crate::identity::{ObjectId, ObjectStore};
use crate::object_map::{has_id, value_of};

verus! {

/// The ids of `ids` whose matching `kept` flag is set, in order.
pub open spec fn select_kept(ids: Seq<ObjectId>, kept: Seq<bool>) -> Seq<ObjectId>
    decreases ids.len(),
{
    if ids.len() == 0 || kept.len() == 0 {
        Seq::empty()
    } else {
        let rest = select_kept(ids.drop_last(), kept.drop_last());
        if kept.last() {
            rest.push(ids.last())
        } else {
            rest
        }
    }
}

/// Fails when `id` is not live in `store`.
pub fn require_object(store: &ObjectStore, id: ObjectId) -> (result: Result<(), CoreError>)
    ensures
        (id.raw() != 0 && store@.contains(id)) <==> result is Ok,
        result is Err ==> result == Err::<(), CoreError>(CoreError::InvalidObjectId),
{
    if store.is_live(id) {
        Ok(())
    } else {
        Err(CoreError::InvalidObjectId)
    }
}

/// Returns data attached to `id` or fails with `MissingRequiredData`.
pub fn require_attached<T>(store: &DataStore<T>, id: ObjectId) -> (result: Result<&T, CoreError>)
    requires
        store.wf(),
    ensures
        match result {
            Ok(v) => has_id(store@, id) && *v == value_of(store@, id),
            Err(e) => !has_id(store@, id) && e == CoreError::MissingRequiredData,
        },
{
    match store.get(id) {
        Some(v) => Ok(v),
        None => Err(CoreError::MissingRequiredData),
    }
}

/// Collects object ids accepted by `predicate`, in object creation order.
///
/// The predicate is asked once per live id, in order; the result holds exactly the
/// ids for which it answered `true`.
pub fn collect_where<F>(store: &ObjectStore, predicate: F) -> (ids: Vec<ObjectId>)
    where
        F: Fn(ObjectId) -> bool,
    requires
        forall|id: ObjectId| predicate.requires((id,)),
    ensures
        exists|kept: Seq<bool>|
            {
                &&& kept.len() == store@.len()
                &&& forall|i: int|
                    0 <= i < store@.len() ==> predicate.ensures((store@[i],), #[trigger] kept[i])
                &&& ids@ == select_kept(store@, kept)
            },
{
    let all = store.iter();
    let mut ids: Vec<ObjectId> = Vec::new();
    let ghost mut kept: Seq<bool> = Seq::empty();
    let mut index: usize = 0;
    while index < all.len()
        invariant
            all@ == store@,
            0 <= index <= all@.len(),
            kept.len() == index,
            forall|id: ObjectId| predicate.requires((id,)),
            forall|i: int| 0 <= i < index ==> predicate.ensures((all@[i],), #[trigger] kept[i]),
            ids@ == select_kept(all@.take(index as int), kept),
        decreases all@.len() - index,
    {
        let candidate = all[index];
        let keep = predicate(candidate);
        proof {
            let prev = kept;
            kept = kept.push(keep);
            assert(all@.take(index + 1).drop_last() == all@.take(index as int));
            assert(kept.drop_last() == prev);
        }
        if keep {
            ids.push(candidate);
        }
        index = index + 1;
    }
    assert(all@.take(all@.len() as int) == all@);
    ids
}

} // verus!
