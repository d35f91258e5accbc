use vstd::prelude::*;
use crate::error::Resource;
use crate::line_renderer::{
    allocated_after, flatten, LineRendererView, Phase, Segment, UploadMode,
};
use crate::vector::Mat4;

verus! {

/// Submitting a segment keeps the two pending counts in step.
pub proof fn lemma_push_line_wf(r: LineRendererView, seg: Segment)
    requires
        r.wf(),
    ensures
        r.push_line(seg).wf(),
        !r.enabled ==> r.push_line(seg) == r,
{
}

/// The records of `n` segments take `12 * n` components, and the record of
/// the `i`-th segment submitted is the `i`-th block of twelve.
pub proof fn lemma_flatten(segs: Seq<Segment>)
    ensures
        flatten(segs).len() == 12 * segs.len(),
        forall|i: int|
            0 <= i < segs.len() ==> #[trigger] flatten(segs).subrange(12 * i, 12 * i + 12)
                == segs[i].words(),
    decreases segs.len(),
{
    if segs.len() > 0 {
        let front = segs.drop_last();
        lemma_flatten(front);
        assert forall|i: int| 0 <= i < segs.len() implies #[trigger] flatten(segs).subrange(
            12 * i,
            12 * i + 12,
        ) == segs[i].words() by {
            if i < front.len() {
                assert(front[i] == segs[i]);
                assert(flatten(segs).subrange(12 * i, 12 * i + 12) =~= flatten(front).subrange(
                    12 * i,
                    12 * i + 12,
                ));
            } else {
                assert(flatten(segs).subrange(12 * i, 12 * i + 12) =~= segs.last().words());
            }
        }
    }
}

/// An enabled batch that takes `segs` in turn holds its earlier data followed
/// by their records, in the order submitted, and has counted all of them.
pub proof fn lemma_push_all(r: LineRendererView, segs: Seq<Segment>)
    requires
        r.wf(),
        r.enabled,
    ensures
        r.push_all(segs).wf(),
        r.push_all(segs).pending == r.pending + flatten(segs),
        r.push_all(segs).pushed == r.pushed + 12 * segs.len(),
        r.push_all(segs).retained == r.retained,
        r.push_all(segs).enabled,
        r.push_all(segs).destroyed == r.destroyed,
    decreases segs.len(),
{
    if segs.len() == 0 {
        assert(r.pending + flatten(segs) =~= r.pending);
    } else {
        let front = segs.drop_last();
        lemma_push_all(r, front);
        lemma_flatten(front);
        assert(r.pending + flatten(front) + segs.last().words() =~= r.pending + flatten(segs));
    }
}

/// A flush leaves nothing pending, draw or no draw, and touches neither the
/// enabled flag nor the destroyed flag.
pub proof fn lemma_flush_drains(r: LineRendererView)
    requires
        r.wf(),
    ensures
        r.flush().wf(),
        r.flush().pending.len() == 0,
        r.flush().pushed == 0,
        r.flush().enabled == r.enabled,
        r.flush().destroyed == r.destroyed,
{
}

/// A flush with no segment submitted draws nothing and changes nothing.
pub proof fn lemma_flush_without_segments(r: LineRendererView, matrix: Mat4)
    requires
        r.wf(),
        r.pending.len() == 0,
    ensures
        r.push_all(Seq::empty()) == r,
        r.plan(matrix).is_none(),
        r.flush() == r,
        r.flush().pending.len() == 0,
{
}

/// One segment submitted to an idle, enabled batch is drawn by the next
/// flush as exactly two vertices holding that segment's record.
pub proof fn lemma_flush_one_segment(r: LineRendererView, seg: Segment, matrix: Mat4)
    requires
        r.wf(),
        r.enabled,
        r.pending.len() == 0,
    ensures
        r.push_line(seg).plan(matrix).is_some(),
        r.push_line(seg).plan(matrix).unwrap().vertex_count == 2,
        r.push_line(seg).plan(matrix).unwrap().words == seg.words(),
        r.push_line(seg).plan(matrix).unwrap().matrix == matrix,
{
    assert(r.pending + seg.words() =~= seg.words());
}

/// Any number of segments submitted to an idle, enabled batch, over however
/// many calls, are drawn by the next flush in one draw: two vertices per
/// segment, the records in the order submitted.
pub proof fn lemma_flush_batch(r: LineRendererView, segs: Seq<Segment>, matrix: Mat4)
    requires
        r.wf(),
        r.enabled,
        r.pending.len() == 0,
        segs.len() >= 1,
    ensures
        r.push_all(segs).plan(matrix).is_some(),
        r.push_all(segs).plan(matrix).unwrap().vertex_count == 2 * segs.len(),
        r.push_all(segs).plan(matrix).unwrap().words == flatten(segs),
        r.push_all(segs).plan(matrix).unwrap().matrix == matrix,
        forall|i: int|
            0 <= i < segs.len() ==> #[trigger] flatten(segs).subrange(12 * i, 12 * i + 12)
                == segs[i].words(),
        r.push_all(segs).flush().pending.len() == 0,
{
    lemma_push_all(r, segs);
    lemma_flatten(segs);
    assert(r.pending + flatten(segs) =~= flatten(segs));
}

/// Submitting in two runs is submitting in one: a batch does not depend on
/// how the frame's segments were split over calls.
pub proof fn lemma_push_all_concat(r: LineRendererView, a: Seq<Segment>, b: Seq<Segment>)
    ensures
        r.push_all(a).push_all(b) == r.push_all(a + b),
    decreases b.len(),
{
    if b.len() == 0 {
        assert(a + b =~= a);
    } else {
        lemma_push_all_concat(r, a, b.drop_last());
        assert((a + b).drop_last() =~= a + b.drop_last());
        assert((a + b).last() == b.last());
    }
}

/// A flush that directly follows a flush draws nothing and changes nothing.
pub proof fn lemma_second_flush_is_idle(r: LineRendererView, matrix: Mat4)
    requires
        r.wf(),
    ensures
        r.flush().plan(matrix).is_none(),
        r.flush().flush() == r.flush(),
{
}

/// A batch that outgrew what the last draw left in the buffer is uploaded by
/// reallocation, any other in place; the choice changes nothing else about
/// the draw.
pub proof fn lemma_upload_choice(a: LineRendererView, b: LineRendererView, matrix: Mat4)
    requires
        a.draws(),
        a.pending == b.pending,
        a.pushed == b.pushed,
    ensures
        a.plan(matrix).is_some(),
        b.plan(matrix).is_some(),
        a.plan(matrix).unwrap().upload == UploadMode::Reallocate <==> a.pushed > a.retained,
        a.plan(matrix).unwrap().upload == UploadMode::Update <==> a.pushed <= a.retained,
        a.plan(matrix).unwrap().words == b.plan(matrix).unwrap().words,
        a.plan(matrix).unwrap().vertex_count == b.plan(matrix).unwrap().vertex_count,
        a.plan(matrix).unwrap().matrix == b.plan(matrix).unwrap().matrix,
{
}

/// Frame after frame: once a batch of `first` was drawn, the next batch
/// `second` is uploaded in place exactly when it has no more segments than
/// `first` had, so a steady segment count never reallocates.
pub proof fn lemma_steady_state(
    r: LineRendererView,
    first: Seq<Segment>,
    second: Seq<Segment>,
    matrix: Mat4,
)
    requires
        r.wf(),
        r.enabled,
        r.pending.len() == 0,
        first.len() >= 1,
        second.len() >= 1,
    ensures
        r.push_all(first).flush().push_all(second).plan(matrix).is_some(),
        r.push_all(first).flush().push_all(second).plan(matrix).unwrap().upload
            == UploadMode::Update <==> second.len() <= first.len(),
        r.push_all(first).flush().push_all(second).plan(matrix).unwrap().words == flatten(second),
{
    lemma_push_all(r, first);
    let drawn = r.push_all(first).flush();
    lemma_flush_batch(drawn, second, matrix);
    lemma_push_all(drawn, second);
}

/// A disabled batch ignores every submission, yet what was pending when it
/// was disabled is drawn by the next flush as if nothing had happened.
pub proof fn lemma_disabled_batch(r: LineRendererView, segs: Seq<Segment>, matrix: Mat4)
    requires
        !r.enabled,
    ensures
        r.push_all(segs) == r,
        r.push_all(segs).plan(matrix) == r.plan(matrix),
        r.plan(matrix) == (LineRendererView { enabled: true, ..r }).plan(matrix),
    decreases segs.len(),
{
    if segs.len() > 0 {
        lemma_disabled_batch(r, segs.drop_last(), matrix);
    }
}

/// The vertex buffer is never written past its end. If it holds at least
/// what the last draw left in it, an in-place upload fits, and after the
/// flush it again holds at least what this draw left.
pub proof fn lemma_upload_fits(r: LineRendererView, matrix: Mat4, allocated: nat)
    requires
        r.wf(),
        allocated >= r.retained,
    ensures
        r.plan(matrix).is_some() ==> r.plan(matrix).unwrap().words.len() <= allocated_after(
            allocated,
            r.plan(matrix),
        ),
        allocated_after(allocated, r.plan(matrix)) >= r.flush().retained,
{
}

/// The life of a batch: it starts idle; a submission to an enabled, live
/// batch leaves it accumulating; a flush of a live batch leaves it idle,
/// draw or no draw; a destroyed batch stays destroyed whatever is done.
pub proof fn lemma_phases(r: LineRendererView, seg: Segment)
    requires
        r.wf(),
    ensures
        LineRendererView::fresh().phase() == Phase::Idle,
        r.enabled && !r.destroyed ==> r.push_line(seg).phase() == Phase::Accumulating,
        !r.enabled ==> r.push_line(seg).phase() == r.phase(),
        !r.destroyed ==> r.flush().phase() == Phase::Idle,
        r.destroy().phase() == Phase::Destroyed,
        r.destroyed ==> r.push_line(seg).phase() == Phase::Destroyed && r.flush().phase()
            == Phase::Destroyed,
{
}

/// Destroying twice is destroying once: the first call on a live batch
/// releases each of the three objects once, a later call releases nothing and
/// changes nothing.
pub proof fn lemma_destroy_once(r: LineRendererView)
    ensures
        !r.destroyed ==> r.releases() == seq![
            Resource::Program,
            Resource::Buffer,
            Resource::VertexArray,
        ],
        r.destroy().destroyed,
        r.destroy().releases().len() == 0,
        r.destroy().destroy() == r.destroy(),
        r.destroy().pending == r.pending,
{
}

} // verus!
