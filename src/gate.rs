use vstd::prelude::*;
use crate::events::{ChainEvent, event_height};

verus! {

/// An event is admitted unless it carries a height below the watermark
/// captured before its batch.
pub open spec fn admitted(watermark: u64, height: Option<u64>) -> bool {
    match height {
        Some(h) => h >= watermark,
        None => true,
    }
}

/// The larger of a mark and an optional height.
pub open spec fn raised(mark: u64, height: Option<u64>) -> u64 {
    match height {
        Some(h) => if h > mark { h } else { mark },
        None => mark,
    }
}

/// The watermark after a batch: the largest of the watermark before it and
/// every height the batch carries.
pub open spec fn batch_watermark(w0: u64, events: Seq<ChainEvent>) -> u64
    decreases events.len(),
{
    if events.len() == 0 {
        w0
    } else {
        raised(batch_watermark(w0, events.drop_last()), event_height(events.last()))
    }
}

pub fn passes_gate(watermark: u64, height: Option<u64>) -> (r: bool)
    ensures
        r == admitted(watermark, height),
{
    match height {
        Some(h) => h >= watermark,
        None => true,
    }
}

pub fn raise(mark: u64, height: Option<u64>) -> (r: u64)
    ensures
        r == raised(mark, height),
{
    match height {
        Some(h) => if h > mark { h } else { mark },
        None => mark,
    }
}

pub proof fn lemma_batch_watermark_above(w0: u64, events: Seq<ChainEvent>)
    ensures
        batch_watermark(w0, events) >= w0,
    decreases events.len(),
{
    if events.len() > 0 {
        lemma_batch_watermark_above(w0, events.drop_last());
    }
}

} // verus!
