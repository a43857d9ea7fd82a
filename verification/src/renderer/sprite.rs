//! Sprite texture identifiers and animation frames.
use vstd::prelude::*;

verus! {

/// Texture that a sprite or a shape is drawn with.
#[derive(Copy, Clone, Debug, Default, PartialEq, Eq, Structural)]
pub enum TextureId {
    /// The renderer's default texture.
    #[default]
    Default,
    /// The texture with this identifier.
    Texture(usize),
    /// No texture.
    NoTexture,
}

/// Whether a non-looping animation has reached its last frame and stays there.
pub open spec fn spec_animation_finished(frame: i32, frames_count: i32, looped: bool) -> bool {
    frame == frames_count - 1 && !looped
}

/// The frame after `frame` in an animation of `frames_count` frames, forwards or
/// backwards, wrapping around.
pub open spec fn spec_next_frame(frame: i32, frames_count: i32, backward: bool) -> i32 {
    if !backward {
        if frame + 1 >= 0 {
            ((frame + 1) % (frames_count as int)) as i32
        } else {
            (-((-(frame + 1)) % (frames_count as int))) as i32
        }
    } else if frame - 1 < 0 {
        (frame - 1 + frames_count) as i32
    } else {
        (frame - 1) as i32
    }
}

/// Whether a non-looping animation has reached its last frame and stays there.
pub fn animation_finished(frame: i32, frames_count: i32, looped: bool) -> (finished: bool)
    requires
        frames_count > i32::MIN,
    ensures
        finished == spec_animation_finished(frame, frames_count, looped),
{
    frame == frames_count - 1 && !looped
}

/// The frame after `frame` in an animation of `frames_count` frames, forwards or
/// backwards, wrapping around.
pub fn next_animation_frame(frame: i32, frames_count: i32, backward: bool) -> (next: i32)
    requires
        frames_count > 0,
        i32::MIN < frame < i32::MAX,
    ensures
        next == spec_next_frame(frame, frames_count, backward),
        0 <= frame < frames_count ==> 0 <= next < frames_count,
{
    if !backward {
        (frame + 1) % frames_count
    } else {
        let mut next = frame - 1;
        if next < 0 {
            next = next + frames_count;
        }
        next
    }
}

/// One animation step of a sprite of `frames_count` frames: a finished animation, or one
/// whose step is not `due` yet, keeps its frame; otherwise the frame moves one step forwards
/// or backwards. Also returns whether it moved, in which case the step's time is taken as
/// the sprite's new timestamp.
pub fn animate_frame(frame: i32, frames_count: i32, looped: bool, backward: bool, due: bool) -> (step: (
    i32,
    bool,
))
    requires
        frames_count >= 0,
        due && !spec_animation_finished(frame, frames_count, looped) ==> frames_count > 0 && i32::MIN
            < frame < i32::MAX,
    ensures
        step.1 == (due && !spec_animation_finished(frame, frames_count, looped)),
        step.0 == if step.1 {
            spec_next_frame(frame, frames_count, backward)
        } else {
            frame
        },
        0 <= frame < frames_count ==> 0 <= step.0 < frames_count,
{
    if animation_finished(frame, frames_count, looped) || !due {
        return (frame, false);
    }
    (next_animation_frame(frame, frames_count, backward), true)
}

/// Stepping backwards undoes stepping forwards, and the other way around.
pub proof fn lemma_backward_undoes_forward(frame: i32, frames_count: i32)
    requires
        frames_count > 0,
        0 <= frame < frames_count,
    ensures
        spec_next_frame(spec_next_frame(frame, frames_count, false), frames_count, true) == frame,
        spec_next_frame(spec_next_frame(frame, frames_count, true), frames_count, false) == frame,
{
    assert forall|x: int| 0 <= x < frames_count implies #[trigger] (x % (frames_count as int)) == x by {
        vstd::arithmetic::div_mod::lemma_small_mod(x as nat, frames_count as nat);
    }
    assert((frames_count as int) % (frames_count as int) == 0) by {
        vstd::arithmetic::div_mod::lemma_mod_self_0(frames_count as int);
    }
}

} // verus!
