//! The render loop's decisions.
//!
//! Each frame drains the pending input events, applies every key-down to the
//! camera, recomputes the per-frame uniform values, and only then draws; a
//! quit event clears the running flag but the frame still completes.  The
//! loop itself — polling, GL calls, presenting — lives outside the library
//! and feeds these functions plain events.

use crate::camera::{spec_camera_change, Camera, Key};
use crate::matrix::{spec_look_at, Mat4I};
use crate::vec3::Vec3I;
use vstd::prelude::*;

verus! {

/// An input event, as the windowing layer hands it over.
#[derive(Clone, Copy, PartialEq, Eq, Structural, Debug)]
pub enum InputEvent {
    KeyDown(Key),
    Quit,
    Other,
}

/// What one event does to the camera: a key-down applies its transition,
/// anything else leaves the camera alone.
pub open spec fn spec_event_step(c: Camera, ev: InputEvent) -> Camera {
    match ev {
        InputEvent::KeyDown(k) => spec_camera_change(c, k),
        _ => c,
    }
}

/// The camera after a whole batch of events, applied in order.
pub open spec fn spec_apply_events(c: Camera, evs: Seq<InputEvent>) -> Camera
    decreases evs.len(),
{
    if evs.len() == 0 {
        c
    } else {
        spec_apply_events(spec_event_step(c, evs[0]), evs.subrange(1, evs.len() as int))
    }
}

/// Whether the batch holds a quit signal.
pub open spec fn spec_has_quit(evs: Seq<InputEvent>) -> bool {
    exists|i: int| 0 <= i < evs.len() && evs[i] is Quit
}

/// Appending one event to a batch applies it last.
proof fn lemma_apply_events_snoc(c: Camera, evs: Seq<InputEvent>, ev: InputEvent)
    ensures
        spec_apply_events(c, evs.push(ev)) == spec_event_step(spec_apply_events(c, evs), ev),
    decreases evs.len(),
{
    reveal_with_fuel(spec_apply_events, 3);
    if evs.len() == 0 {
        assert(evs.push(ev)[0] == ev);
        assert(evs.push(ev).subrange(1, 1) =~= Seq::<InputEvent>::empty());
    } else {
        assert(evs.push(ev)[0] == evs[0]);
        assert(evs.push(ev).subrange(1, evs.len() as int + 1) =~= evs.subrange(
            1,
            evs.len() as int,
        ).push(ev));
        lemma_apply_events_snoc(spec_event_step(c, evs[0]), evs.subrange(1, evs.len() as int), ev);
    }
}

/// Drain one frame's events: apply every key-down to the camera in order,
/// and report whether the loop should keep running — false exactly when a
/// quit signal was among the events.  A quit does not cut the batch short.
pub fn process_keyboard_events(camera: &mut Camera, events: &Vec<InputEvent>) -> (running: bool)
    requires
        old(camera).wf(),
    ensures
        *final(camera) == spec_apply_events(*old(camera), events@),
        final(camera).wf(),
        running == !spec_has_quit(events@),
{
    let ghost start = *camera;
    let mut running = true;
    let mut i: usize = 0;
    proof {
        assert(events@.take(0) =~= Seq::<InputEvent>::empty());
    }
    while i < events.len()
        invariant
            i <= events@.len(),
            *camera == spec_apply_events(start, events@.take(i as int)),
            camera.wf(),
            running == !spec_has_quit(events@.take(i as int)),
        decreases events@.len() - i,
    {
        let ghost prefix = events@.take(i as int);
        proof {
            lemma_apply_events_snoc(start, prefix, events@[i as int]);
            assert(events@.take(i as int + 1) =~= prefix.push(events@[i as int]));
        }
        match events[i] {
            InputEvent::KeyDown(k) => {
                camera.camera_change(k);
            },
            InputEvent::Quit => {
                running = false;
            },
            InputEvent::Other => {},
        }
        proof {
            let t = events@.take(i as int + 1);
            if spec_has_quit(t) && !spec_has_quit(prefix) {
                let w = choose|w: int| 0 <= w < t.len() && (#[trigger] t[w]) is Quit;
                assert(w == i);
            }
            if events@[i as int] is Quit {
                assert(events@.take(i as int + 1)[i as int] is Quit);
            }
        }
        i = i + 1;
    }
    proof {
        assert(events@.take(events@.len() as int) =~= events@);
    }
    running
}

/// The simulation clock: elapsed time, advanced by a fixed per-frame
/// increment, both in micro-units.
pub struct SimClock {
    pub time_micro: u64,
    pub speed_micro: u64,
}

impl SimClock {
    /// A clock at zero with the configured per-frame increment.
    pub fn start(speed_micro: u64) -> (c: SimClock)
        ensures
            c.time_micro == 0,
            c.speed_micro == speed_micro,
    {
        SimClock { time_micro: 0, speed_micro }
    }

    /// One frame's tick: time grows by the configured speed, saturating at
    /// the top of the representable range.
    pub fn advance(&mut self)
        ensures
            final(self).speed_micro == old(self).speed_micro,
            final(self).time_micro == if old(self).time_micro + old(self).speed_micro <= u64::MAX {
                old(self).time_micro + old(self).speed_micro
            } else {
                u64::MAX as int
            },
    {
        self.time_micro = match self.time_micro.checked_add(self.speed_micro) {
            Some(t) => t,
            None => u64::MAX,
        };
    }
}

/// One frame's uniform values, computed before the draw is issued: the
/// view matrix of the camera as it stands, the eye position, and the
/// elapsed time.
pub struct FrameUniforms {
    pub view: Mat4I,
    pub camera_pos: Vec3I,
    pub time_micro: u64,
}

/// Gather the per-frame uniform values from the current state.  Building
/// the whole set before any of it is uploaded keeps the ordering guarantee:
/// a frame's uniforms are fully determined before its draw call.
pub fn frame_uniforms(camera: &Camera, clock: &SimClock) -> (u: FrameUniforms)
    requires
        camera.wf(),
    ensures
        u.view == spec_look_at(*camera),
        u.camera_pos == camera.position,
        u.time_micro == clock.time_micro,
{
    FrameUniforms { view: camera.look_at(), camera_pos: camera.position, time_micro: clock.time_micro }
}

} // verus!
