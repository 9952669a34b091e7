use vstd::prelude::*;

verus! {

/// The frames `first..=last` of a sprite sheet that an animation walks through.
#[derive(PartialEq, Eq, Structural, Clone, Copy, Debug)]
pub struct AnimationIndices {
    pub first: usize,
    pub last: usize,
}

/// The period, in milliseconds, of the repeating timer that advances an animation.
#[derive(PartialEq, Eq, Structural, Clone, Copy, Debug)]
pub struct AnimationTimer(pub u32);

/// How a sprite is animated.
#[derive(PartialEq, Eq, Structural, Clone, Copy, Debug)]
pub struct AnimationInfo {
    pub indices: AnimationIndices,
    pub timer: AnimationTimer,
}

/// The frame shown after `index` once a period is over: the next one, and
/// `first` again after `last`.
pub open spec fn next_frame(index: usize, indices: AnimationIndices) -> usize {
    if index == indices.last {
        indices.first
    } else {
        (index + 1) as usize
    }
}

/// The frame shown `n` periods after `index`.
pub open spec fn frame_after(index: usize, indices: AnimationIndices, n: nat) -> usize
    decreases n,
{
    if n == 0 {
        index
    } else {
        frame_after(next_frame(index, indices), indices, (n - 1) as nat)
    }
}

/// The frame an animated sprite shows after this update: the next frame when
/// the animation timer just finished a period, the same frame otherwise.
pub fn animate_sprite(index: usize, indices: &AnimationIndices, just_finished: bool) -> (next: usize)
    requires
        just_finished && index != indices.last ==> index < usize::MAX,
    ensures
        next == (if just_finished { next_frame(index, *indices) } else { index }),
{
    if !just_finished {
        index
    } else if index == indices.last {
        indices.first
    } else {
        index + 1
    }
}

/// A frame of the range stays in the range after an update.
pub proof fn lemma_frame_stays_in_range(index: usize, indices: AnimationIndices)
    requires
        indices.first <= index <= indices.last,
    ensures
        indices.first <= next_frame(index, indices) <= indices.last,
{
}

proof fn lemma_frames_count_up(index: usize, indices: AnimationIndices, n: nat)
    requires
        index + n <= indices.last,
    ensures
        frame_after(index, indices, n) == index + n,
    decreases n,
{
    if n > 0 {
        lemma_frames_count_up(next_frame(index, indices), indices, (n - 1) as nat);
    }
}

proof fn lemma_frames_compose(index: usize, indices: AnimationIndices, a: nat, b: nat)
    ensures
        frame_after(index, indices, a + b) == frame_after(frame_after(index, indices, a), indices, b),
    decreases a,
{
    if a > 0 {
        lemma_frames_compose(next_frame(index, indices), indices, (a - 1) as nat, b);
        assert((a + b - 1) as nat == ((a - 1) as nat + b));
    }
}

/// An animation loops: from any frame of its range it comes back to that frame
/// after as many periods as the range has frames.
pub proof fn lemma_animation_loops(index: usize, indices: AnimationIndices)
    requires
        indices.first <= index <= indices.last,
    ensures
        frame_after(index, indices, (indices.last - indices.first + 1) as nat) == index,
{
    let up = (indices.last - index) as nat;
    let back = (index - indices.first) as nat;
    lemma_frames_count_up(index, indices, up);
    assert(frame_after(indices.last, indices, 1) == indices.first) by {
        assert(frame_after(indices.first, indices, 0) == indices.first);
    }
    lemma_frames_compose(index, indices, up, 1);
    lemma_frames_count_up(indices.first, indices, back);
    lemma_frames_compose(index, indices, up + 1, back);
    assert(up + 1 + back == (indices.last - indices.first + 1) as nat);
}

} // verus!
