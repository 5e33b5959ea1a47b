//! The messages of one snapshot: the layout first, then the rows in chunks.

use vstd::prelude::*;
use crate::batch::{BatchView, ColumnarBatch};
use crate::model::Entity;
use crate::schema::{FieldView, Schema, standard_schema};

verus! {

/// One message of a snapshot stream.
#[derive(Debug, Clone, PartialEq, Eq)]
pub enum Message {
    /// The layout of the rows that follow.
    Schema(Schema),
    /// A run of consecutive rows.
    Data(ColumnarBatch),
}

/// What a [`Message`] is, mathematically.
pub enum MessageView {
    Schema(Seq<FieldView>),
    Data(BatchView),
}

impl View for Message {
    type V = MessageView;

    open spec fn view(&self) -> MessageView {
        match self {
            Message::Schema(schema) => MessageView::Schema(schema@),
            Message::Data(batch) => MessageView::Data(batch@),
        }
    }
}

/// The views of a sequence of messages, in order.
pub open spec fn message_views(messages: Seq<Message>) -> Seq<MessageView> {
    Seq::new(messages.len(), |i: int| messages[i]@)
}

/// The rows of `batch` from index `from` on, cut into runs of `max_rows`
/// rows; the last run holds what is left.
pub open spec fn chunks_from(batch: BatchView, from: int, max_rows: int) -> Seq<BatchView>
    decreases batch.rows() - from,
{
    if max_rows <= 0 || from < 0 || from >= batch.rows() {
        Seq::empty()
    } else if batch.rows() - from <= max_rows {
        seq![batch.slice(from, batch.rows() as int)]
    } else {
        seq![batch.slice(from, from + max_rows)] + chunks_from(batch, from + max_rows, max_rows)
    }
}

/// The data of a snapshot: the rows of `batch` in runs of at most `max_rows`
/// rows. A limit of zero stands for no limit, and a batch without rows still
/// gives one run, without rows.
pub open spec fn data_chunks(batch: BatchView, max_rows: int) -> Seq<BatchView> {
    if batch.rows() == 0 || max_rows <= 0 {
        seq![batch]
    } else {
        chunks_from(batch, 0, max_rows)
    }
}

/// The stream of a snapshot: the standard layout, then each run of rows.
pub open spec fn snapshot_stream(batch: BatchView, max_rows: int) -> Seq<MessageView> {
    seq![MessageView::Schema(standard_schema())] + Seq::new(
        data_chunks(batch, max_rows).len(),
        |i: int| MessageView::Data(data_chunks(batch, max_rows)[i]),
    )
}

/// The rows of all the batches, in order, as one batch.
pub open spec fn concat_all(parts: Seq<BatchView>) -> BatchView
    decreases parts.len(),
{
    if parts.len() == 0 {
        BatchView::empty()
    } else {
        parts[0].concat(concat_all(parts.drop_first()))
    }
}

/// Two batches with the same five columns are the same batch.
proof fn batch_views_equal(a: BatchView, b: BatchView)
    requires
        a.ids =~= b.ids,
        a.names =~= b.names,
        a.xs =~= b.xs,
        a.ys =~= b.ys,
        a.tasks =~= b.tasks,
    ensures
        a == b,
{
}

/// The runs from `from` on, put together again, are the rows from `from` on,
/// in their order; each run is well-formed and within the limit.
pub proof fn chunks_rebuild_rows(batch: BatchView, from: int, max_rows: int)
    requires
        batch.wf(),
        0 <= from <= batch.rows(),
        max_rows > 0,
    ensures
        concat_all(chunks_from(batch, from, max_rows)) == batch.slice(from, batch.rows() as int),
        forall|k: int| 0 <= k < chunks_from(batch, from, max_rows).len() ==> {
            &&& (#[trigger] chunks_from(batch, from, max_rows)[k]).wf()
            &&& 1 <= chunks_from(batch, from, max_rows)[k].rows() <= max_rows
        },
        from < batch.rows() ==> chunks_from(batch, from, max_rows).len() >= 1,
    decreases batch.rows() - from,
{
    let rows = batch.rows() as int;
    let parts = chunks_from(batch, from, max_rows);
    if from >= rows {
        batch_views_equal(concat_all(parts), batch.slice(from, rows));
    } else if rows - from <= max_rows {
        assert(parts.drop_first() =~= Seq::<BatchView>::empty());
        assert(concat_all(parts.drop_first()) == BatchView::empty());
        batch_views_equal(concat_all(parts), batch.slice(from, rows));
    } else {
        let rest = chunks_from(batch, from + max_rows, max_rows);
        chunks_rebuild_rows(batch, from + max_rows, max_rows);
        assert(parts.drop_first() =~= rest);
        assert(parts[0] == batch.slice(from, from + max_rows));
        batch_views_equal(concat_all(parts), batch.slice(from, rows));
        assert forall|k: int| 0 <= k < parts.len() implies {
            &&& (#[trigger] parts[k]).wf()
            &&& 1 <= parts[k].rows() <= max_rows
        } by {
            if k > 0 {
                assert(parts[k] == rest[k - 1]);
            }
        }
    }
}

/// The data of a snapshot, put together again, is the batch: the rows come
/// back in the order in which the batch holds them.
pub proof fn data_chunks_rebuild_batch(batch: BatchView, max_rows: int)
    requires
        batch.wf(),
    ensures
        concat_all(data_chunks(batch, max_rows)) == batch,
        data_chunks(batch, max_rows).len() >= 1,
{
    let parts = data_chunks(batch, max_rows);
    if batch.rows() == 0 || max_rows <= 0 {
        assert(parts.drop_first() =~= Seq::<BatchView>::empty());
        assert(concat_all(parts.drop_first()) == BatchView::empty());
        batch_views_equal(concat_all(parts), batch);
    } else {
        chunks_rebuild_rows(batch, 0, max_rows);
        batch_views_equal(batch.slice(0, batch.rows() as int), batch);
    }
}

/// In the stream of a snapshot the first message is the standard layout and
/// every later message is data: the run of rows that the data holds at that
/// place. There is at least one data message.
pub proof fn stream_starts_with_schema(batch: BatchView, max_rows: int)
    requires
        batch.wf(),
    ensures
        snapshot_stream(batch, max_rows).len() == 1 + data_chunks(batch, max_rows).len(),
        snapshot_stream(batch, max_rows).len() >= 2,
        snapshot_stream(batch, max_rows)[0] == MessageView::Schema(standard_schema()),
        forall|k: int| 1 <= k < snapshot_stream(batch, max_rows).len() ==>
            #[trigger] snapshot_stream(batch, max_rows)[k] == MessageView::Data(data_chunks(batch, max_rows)[k - 1]),
{
    data_chunks_rebuild_batch(batch, max_rows);
}

/// Builds the messages of the snapshot of `batch`: the layout, then the rows
/// in runs of at most `max_rows` rows (zero: no limit).
pub fn snapshot_messages(batch: ColumnarBatch, max_rows: usize) -> (messages: Vec<Message>)
    requires
        batch.wf(),
    ensures
        message_views(messages@) == snapshot_stream(batch@, max_rows as int),
{
    let mut messages: Vec<Message> = Vec::new();
    messages.push(Message::Schema(Entity::arrow_schema()));
    let rows = batch.num_rows();
    if rows == 0 || max_rows == 0 {
        messages.push(Message::Data(batch));
        assert(message_views(messages@) =~= snapshot_stream(batch@, max_rows as int));
        return messages;
    }
    let ghost all = chunks_from(batch@, 0, max_rows as int);
    let mut from: usize = 0;
    while from < rows
        invariant
            batch.wf(),
            rows == batch@.rows(),
            max_rows > 0,
            0 <= from <= rows,
            all == chunks_from(batch@, 0, max_rows as int),
            messages@.len() >= 1,
            messages@[0]@ == MessageView::Schema(standard_schema()),
            messages@.len() - 1 + chunks_from(batch@, from as int, max_rows as int).len() == all.len(),
            forall|k: int| 1 <= k < messages@.len() ==> (#[trigger] messages@[k])@ == MessageView::Data(all[k - 1]),
            forall|k: int| 0 <= k < chunks_from(batch@, from as int, max_rows as int).len() ==>
                #[trigger] chunks_from(batch@, from as int, max_rows as int)[k] == all[messages@.len() - 1 + k],
        decreases rows - from,
    {
        let to: usize = if rows - from <= max_rows {
            rows
        } else {
            from + max_rows
        };
        let ghost here = chunks_from(batch@, from as int, max_rows as int);
        let ghost there = chunks_from(batch@, to as int, max_rows as int);
        let ghost sent = messages@.len() - 1;
        let part = batch.slice(from, to);
        proof {
            assert(here[0] == part@);
            assert(here.len() == 1 + there.len());
            assert forall|k: int| 0 <= k < there.len() implies #[trigger] there[k] == all[sent + 1 + k] by {
                assert(there[k] == here[k + 1]);
            }
        }
        messages.push(Message::Data(part));
        from = to;
    }
    assert(message_views(messages@) =~= snapshot_stream(batch@, max_rows as int));
    messages
}

} // verus!
