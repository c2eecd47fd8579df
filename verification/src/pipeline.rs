//! One step of the processing pipeline, as the capture thread runs it for
//! every arriving chunk: slide the chunk into the window, score the window
//! against the template, and emit an event if the score exceeds the
//! threshold.  The returned score is what a second, low-priority consumer
//! mirrors into the display history.

use vstd::prelude::*;

use crate::dsp::exceeds;
use crate::dsp::spec_score_of;
use crate::dsp::CorrelationScore;
use crate::dsp::SignalProcessor;
use crate::dsp::Threshold;
use crate::event::EventQueue;
use crate::event::FroskEvent;

verus! {

/// Processes one chunk and returns the score it produced.
///
/// The window slides by the chunk, the returned score is exactly the new
/// window's score against the template, and the queue receives exactly one
/// `FishBite` event carrying it when (and only when) it exceeds the
/// threshold.
pub fn pipeline_step(
    processor: &mut SignalProcessor,
    threshold: &Threshold,
    queue: &mut EventQueue,
    chunk: &[i32],
) -> (score: CorrelationScore)
    requires
        old(processor).wf(),
        threshold.wf(),
        old(queue).wf(),
    ensures
        final(processor).wf(),
        final(processor).template() == old(processor).template(),
        final(processor).window() == (old(processor).window() + chunk@).skip(
            chunk@.len() as int,
        ),
        score == spec_score_of(final(processor).window(), final(processor).template()),
        score.wf(),
        final(queue).wf(),
        final(queue).spec_capacity() == old(queue).spec_capacity(),
        exceeds(score, *threshold) && old(queue)@.len() < old(queue).spec_capacity()
            ==> final(queue)@ == old(queue)@.push((FroskEvent::FishBite { score })),
        exceeds(score, *threshold) && old(queue)@.len() == old(queue).spec_capacity()
            ==> final(queue)@ == old(queue)@.skip(1).push((FroskEvent::FishBite { score })),
        !exceeds(score, *threshold) ==> final(queue)@ == old(queue)@,
{
    processor.process_chunk(chunk);
    let score = processor.compute_correlation();
    if let Some(event) = SignalProcessor::determine_event(score, threshold) {
        queue.push(event);
    }
    score
}

} // verus!
