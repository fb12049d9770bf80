//! The raw sample record and the bounded stack buffer it carries.
use vstd::prelude::*;

use backtrace::Frame;
use smallvec::SmallVec;

use crate::{MAX_DEPTH, MAX_THREAD_NAME};

verus! {

#[verifier::external_type_specification]
#[verifier::external_body]
pub struct ExFrame(backtrace::Frame);

/// A fixed-capacity stack buffer: at most `MAX_DEPTH` frames stay inline, so
/// filling it up to that depth never allocates.
#[verifier::external_body]
#[derive(Debug)]
pub struct StackBuffer {
    inner: SmallVec<[Frame; MAX_DEPTH]>,
}

/// The frames held by a stack buffer, oldest push first.
pub uninterp spec fn stack_frames(v: StackBuffer) -> Seq<Frame>;

/// Relies on `SmallVec::with_capacity`: the new buffer is empty.
#[verifier::external_body]
pub(crate) fn new_stack() -> (r: StackBuffer)
    ensures
        stack_frames(r) == Seq::<Frame>::empty(),
{
    StackBuffer { inner: SmallVec::with_capacity(MAX_DEPTH) }
}

/// Relies on `SmallVec::len`: the number of frames held.
#[verifier::external_body]
pub(crate) fn stack_len(v: &StackBuffer) -> (r: usize)
    ensures
        r == stack_frames(*v).len(),
{
    v.inner.len()
}

/// Relies on `SmallVec::push`: the frame is appended after the others. Below
/// the inline capacity the push stores in place and cannot fail.
#[verifier::external_body]
pub(crate) fn stack_push(v: &mut StackBuffer, f: Frame)
    requires
        stack_frames(*old(v)).len() < MAX_DEPTH,
    ensures
        stack_frames(*final(v)) == stack_frames(*old(v)).push(f),
{
    v.inner.push(f)
}

impl StackBuffer {
    /// The number of frames held.
    pub fn len(&self) -> (r: usize)
        ensures
            r == stack_frames(*self).len(),
    {
        stack_len(self)
    }
}

/// The buffer after offering it one frame during a stack walk: the frame is
/// kept while fewer than `MAX_DEPTH` are held, dropped after that.
pub open spec fn capture_step(held: Seq<Frame>, f: Frame) -> Seq<Frame> {
    if held.len() < MAX_DEPTH {
        held.push(f)
    } else {
        held
    }
}

/// The buffer after a walk that offered `walk` in order, starting empty.
pub open spec fn capture_walk(walk: Seq<Frame>) -> Seq<Frame>
    decreases walk.len(),
{
    if walk.len() == 0 {
        Seq::empty()
    } else {
        capture_step(capture_walk(walk.drop_last()), walk.last())
    }
}

/// An empty stack buffer, ready for a walk.
pub fn empty_stack() -> (r: StackBuffer)
    ensures
        stack_frames(r) == capture_walk(Seq::empty()),
{
    new_stack()
}

/// Offers one frame of a stack walk to `bt`. Returns whether the walk should
/// go on: false once `MAX_DEPTH` frames are held, and the frame is then
/// dropped.
pub fn push_frame(bt: &mut StackBuffer, frame: Frame) -> (more: bool)
    ensures
        stack_frames(*final(bt)) == capture_step(stack_frames(*old(bt)), frame),
        more == (stack_frames(*old(bt)).len() < MAX_DEPTH),
{
    if stack_len(bt) < MAX_DEPTH {
        stack_push(bt, frame);
        true
    } else {
        false
    }
}

/// Stack capture is bounded: whatever the depth of the walk, the buffer holds
/// its first `MAX_DEPTH` frames at most, in walk order.
pub proof fn lemma_capture_bounded(walk: Seq<Frame>)
    ensures
        capture_walk(walk).len() <= MAX_DEPTH,
        walk.len() <= MAX_DEPTH ==> capture_walk(walk) == walk,
        walk.len() > MAX_DEPTH ==> capture_walk(walk) == walk.take(MAX_DEPTH as int),
    decreases walk.len(),
{
    if walk.len() > 0 {
        let prev = walk.drop_last();
        lemma_capture_bounded(prev);
        if walk.len() <= MAX_DEPTH {
            assert(prev.push(walk.last()) =~= walk);
        } else if walk.len() == MAX_DEPTH + 1 {
            assert(prev =~= walk.take(MAX_DEPTH as int));
        } else {
            assert(prev.take(MAX_DEPTH as int) =~= walk.take(MAX_DEPTH as int));
        }
    }
}

/// A thread name as stored in a sample: its bytes, then zeros up to the
/// buffer's capacity.
pub open spec fn padded_name(tn: Seq<u8>) -> Seq<u8> {
    tn.add(Seq::new((MAX_THREAD_NAME - tn.len()) as nat, |i: int| 0u8))
}

/// One raw, unresolved sample: the captured stack, the thread's name and id.
#[derive(Debug)]
pub struct UnresolvedFrames {
    pub frames: StackBuffer,
    pub thread_name: [u8; MAX_THREAD_NAME],
    pub thread_name_length: usize,
    pub thread_id: u64,
}

impl UnresolvedFrames {
    /// Builds a record, copying the name into the fixed-size buffer.
    pub fn new(frames: StackBuffer, tn: &[u8], thread_id: u64) -> (r: Self)
        requires
            tn@.len() <= MAX_THREAD_NAME,
        ensures
            r.frames == frames,
            r.thread_name@ == padded_name(tn@),
            r.thread_name_length == tn@.len(),
            r.thread_id == thread_id,
    {
        let thread_name_length = tn.len();
        let mut thread_name: [u8; MAX_THREAD_NAME] = [0u8; MAX_THREAD_NAME];
        let mut i: usize = 0;
        while i < thread_name_length
            invariant
                thread_name_length == tn@.len() <= MAX_THREAD_NAME,
                0 <= i <= thread_name_length,
                forall|k: int| 0 <= k < i ==> thread_name@[k] == tn@[k],
                forall|k: int| i <= k < MAX_THREAD_NAME ==> thread_name@[k] == 0,
            decreases thread_name_length - i,
        {
            thread_name[i] = tn[i];
            i = i + 1;
        }
        assert(thread_name@ =~= padded_name(tn@));
        UnresolvedFrames { frames, thread_name, thread_name_length, thread_id }
    }
}

} // verus!
