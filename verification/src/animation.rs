//! Keyframe animations of a sprite: a list of frames shown one after
//! another, round and round.

use vstd::prelude::*;

verus! {

/// A looping animation over frames of type `F`.
pub struct Animation<F> {
    pub name: String,
    pub keyframes: Vec<F>,
    /// The place of the frame that is shown. It may lie beyond the frames
    /// until the animation is first stepped.
    pub current_frame: u32,
}

impl<F> Animation<F> {
    /// The place of the frame that follows `current` among `count` frames.
    pub open spec fn next_frame_spec(current: int, count: int) -> int
        recommends
            count > 0,
    {
        (current + 1) % count
    }

    /// An animation without frames, named "Unnamed".
    pub fn new() -> (animation: Animation<F>)
        ensures
            animation.name@ == "Unnamed"@,
            animation.keyframes@.len() == 0,
            animation.current_frame == 0,
    {
        Animation { name: "Unnamed".to_string(), keyframes: Vec::new(), current_frame: 0 }
    }

    /// The frame that is shown, if the current place holds one.
    pub fn current_frame(&self) -> (frame: Option<&F>)
        ensures
            self.current_frame < self.keyframes@.len() ==> frame == Some(
                &self.keyframes@[self.current_frame as int],
            ),
            self.current_frame >= self.keyframes@.len() ==> frame.is_none(),
    {
        let at: usize = self.current_frame as usize;
        if at < self.keyframes.len() {
            Some(&self.keyframes[at])
        } else {
            None
        }
    }

    /// Ends one frame of time. Where that completes the time of the frame
    /// shown (`cycle_done`), the next frame is shown, the first one after
    /// the last; otherwise nothing changes.
    pub fn update(&mut self, cycle_done: bool)
        requires
            cycle_done ==> 0 < old(self).keyframes@.len() <= u32::MAX,
            cycle_done ==> old(self).current_frame < u32::MAX,
        ensures
            final(self).name == old(self).name,
            final(self).keyframes == old(self).keyframes,
            cycle_done ==> final(self).current_frame == Self::next_frame_spec(
                old(self).current_frame as int,
                old(self).keyframes@.len() as int,
            ),
            cycle_done ==> final(self).current_frame < final(self).keyframes@.len(),
            !cycle_done ==> final(self).current_frame == old(self).current_frame,
    {
        if cycle_done {
            let count: u32 = self.keyframes.len() as u32;
            self.current_frame = (self.current_frame + 1) % count;
        }
    }
}

} // verus!
