//! The encoder: from an ordered sequence of entities to one batch.

use vstd::prelude::*;
use crate::batch::{BatchView, ColumnarBatch};
use crate::model::{Entity, EntityView, entity_views};
use crate::text::{task_list_text, tasks_json, uuid_text, uuid_to_text};

verus! {

/// Why a batch could not be built: the task at index `task` of the entity at
/// index `row` holds a string that could not be written as JSON. The encoder
/// maps a refusal of the JSON writer to this error; strings are never
/// refused, so the encoder's contract owes a batch for every input.
#[derive(Debug, Clone, Copy, PartialEq, Eq, Structural)]
pub struct EncodingError {
    pub row: usize,
    pub task: usize,
}

/// The batch of a sequence of entities: row `i` holds the printed identifier
/// of entity `i`, its name, its latitude as `x`, its longitude as `y`, and
/// the JSON array of its tasks. The time of the last change is not part of a
/// row.
pub open spec fn encoded(entities: Seq<EntityView>) -> BatchView {
    BatchView {
        ids: Seq::new(entities.len(), |i: int| uuid_text(entities[i].id)),
        names: Seq::new(entities.len(), |i: int| entities[i].name),
        xs: Seq::new(entities.len(), |i: int| entities[i].position.lat),
        ys: Seq::new(entities.len(), |i: int| entities[i].position.lon),
        tasks: Seq::new(entities.len(), |i: int| task_list_text(entities[i].tasks)),
    }
}

/// `outcome` is the encoding of `entities`: the whole batch, well-formed,
/// with one row for each entity.
pub open spec fn is_encoding_of(entities: Seq<Entity>, outcome: Result<ColumnarBatch, EncodingError>) -> bool {
    outcome matches Ok(batch) && {
        &&& batch@ == encoded(entity_views(entities))
        &&& batch.wf()
        &&& batch@.rows() == entities.len()
    }
}

impl Entity {
    /// Encodes the entities, in order, as one batch.
    ///
    /// Every input has its batch: the result is always `Ok`, with one row
    /// for each entity and nothing else. An empty input gives the batch
    /// without rows.
    pub fn to_record_batch(entities: &[Entity]) -> (r: Result<ColumnarBatch, EncodingError>)
        ensures
            is_encoding_of(entities@, r),
            entities@.len() == 0 ==> (r matches Ok(batch) && batch@ == BatchView::empty()),
    {
        proof {
            if entities@.len() == 0 {
                assert(entity_views(entities@) =~= Seq::<EntityView>::empty());
                encoded_empty_is_empty();
            }
        }
        let mut batch = ColumnarBatch::new();
        let mut i: usize = 0;
        while i < entities.len()
            invariant
                0 <= i <= entities@.len(),
                batch.ids@.len() == i,
                batch.names@.len() == i,
                batch.xs@.len() == i,
                batch.ys@.len() == i,
                batch.tasks@.len() == i,
                forall|k: int| 0 <= k < i ==> (#[trigger] batch.ids@[k])@ == uuid_text(entities@[k].id),
                forall|k: int| 0 <= k < i ==> (#[trigger] batch.names@[k])@ == entities@[k].name@,
                forall|k: int| 0 <= k < i ==> #[trigger] batch.xs@[k] == entities@[k].position.lat,
                forall|k: int| 0 <= k < i ==> #[trigger] batch.ys@[k] == entities@[k].position.lon,
                forall|k: int| 0 <= k < i ==> (#[trigger] batch.tasks@[k])@ == task_list_text(entities@[k]@.tasks),
            decreases entities@.len() - i,
        {
            let entity = &entities[i];
            let tasks_text = match tasks_json(&entity.tasks) {
                Ok(text) => text,
                Err(task) => {
                    return Err(EncodingError { row: i, task });
                },
            };
            batch.ids.push(uuid_to_text(entity.id));
            batch.names.push(entity.name.clone());
            batch.xs.push(entity.position.lat);
            batch.ys.push(entity.position.lon);
            batch.tasks.push(tasks_text);
            i = i + 1;
        }
        proof {
            let want = encoded(entity_views(entities@));
            assert(batch@.ids =~= want.ids);
            assert(batch@.names =~= want.names);
            assert(batch@.xs =~= want.xs);
            assert(batch@.ys =~= want.ys);
            assert(batch@.tasks =~= want.tasks);
        }
        Ok(batch)
    }
}

/// Every column of the batch of `entities` is as long as `entities`.
pub proof fn encoded_columns_match_input_length(entities: Seq<EntityView>)
    ensures
        encoded(entities).wf(),
        encoded(entities).rows() == entities.len(),
        encoded(entities).ids.len() == entities.len(),
        encoded(entities).names.len() == entities.len(),
        encoded(entities).xs.len() == entities.len(),
        encoded(entities).ys.len() == entities.len(),
        encoded(entities).tasks.len() == entities.len(),
{
}

/// Row `i` of the batch of `entities` describes entity `i`, in all five
/// columns.
pub proof fn encoded_row_matches_entity(entities: Seq<EntityView>, i: int)
    requires
        0 <= i < entities.len(),
    ensures
        encoded(entities).ids[i] == uuid_text(entities[i].id),
        encoded(entities).names[i] == entities[i].name,
        encoded(entities).xs[i] == entities[i].position.lat,
        encoded(entities).ys[i] == entities[i].position.lon,
        encoded(entities).tasks[i] == task_list_text(entities[i].tasks),
{
}

/// The batch of no entities has no rows.
pub proof fn encoded_empty_is_empty()
    ensures
        encoded(Seq::<EntityView>::empty()) == BatchView::empty(),
{
    let batch = encoded(Seq::<EntityView>::empty());
    assert(batch.ids =~= Seq::empty());
    assert(batch.names =~= Seq::empty());
    assert(batch.xs =~= Seq::empty());
    assert(batch.ys =~= Seq::empty());
    assert(batch.tasks =~= Seq::empty());
}

/// The encoder is a function of its input: whatever it returns for two
/// inputs with the same views is twice `Ok`, with the same batch, column by
/// column. Nothing else (no clock, no state, no earlier call) has a part in
/// the result.
pub proof fn encoding_is_deterministic(
    first: Seq<Entity>,
    second: Seq<Entity>,
    a: Result<ColumnarBatch, EncodingError>,
    b: Result<ColumnarBatch, EncodingError>,
)
    requires
        entity_views(first) == entity_views(second),
        is_encoding_of(first, a),
        is_encoding_of(second, b),
    ensures
        a is Ok,
        b is Ok,
        a->Ok_0@ == b->Ok_0@,
        a->Ok_0@.rows() == first.len(),
{
}

} // verus!
