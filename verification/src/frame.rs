//! What exists once for every frame in flight.

use vstd::prelude::*;

verus! {

/// Number of frames that the device may work on at one time. Everything
/// that the device writes while the host reads exists once per such frame.
pub const MAX_FRAMES_IN_FLIGHT: usize = 2;

/// Something that holds resources of the device and frees them when told,
/// given the context that they were made in.
pub trait VkObject {
    type Context;

    fn destroy(&self, ctx: &Self::Context);
}

/// Which of the frames in flight is recorded next, and what is to be freed
/// once the device is done with a frame.
pub struct FrameSync<T: VkObject> {
    pub deletion_queues: Vec<Vec<T>>,
    pub current_frame: usize,
}

impl<T: VkObject> FrameSync<T> {
    /// One queue for every frame in flight, and a current frame among them.
    pub open spec fn wf(&self) -> bool {
        &&& self.deletion_queues.len() == MAX_FRAMES_IN_FLIGHT
        &&& self.current_frame < MAX_FRAMES_IN_FLIGHT
    }

    /// Says whether there is a queue for every frame in flight and the
    /// current frame is one of them.
    pub fn check(&self) -> (ok: bool)
        ensures
            ok == self.wf(),
    {
        self.deletion_queues.len() == MAX_FRAMES_IN_FLIGHT && self.current_frame
            < MAX_FRAMES_IN_FLIGHT
    }

    pub fn new() -> (sync: FrameSync<T>)
        ensures
            sync.wf(),
            sync.current_frame == 0,
            forall|f: int|
                0 <= f < MAX_FRAMES_IN_FLIGHT ==> (#[trigger] sync.deletion_queues[f])@
                    == Seq::<T>::empty(),
    {
        let mut deletion_queues: Vec<Vec<T>> = Vec::new();
        deletion_queues.push(Vec::new());
        deletion_queues.push(Vec::new());
        FrameSync { deletion_queues, current_frame: 0 }
    }

    /// Hands out the frame to record and moves on to the one after it, round
    /// the frames in flight.
    pub fn next_frame(&mut self) -> (frame: usize)
        requires
            old(self).wf(),
        ensures
            final(self).wf(),
            frame == old(self).current_frame,
            final(self).current_frame == (old(self).current_frame + 1) % (
            MAX_FRAMES_IN_FLIGHT as int),
            final(self).deletion_queues == old(self).deletion_queues,
    {
        let frame = self.current_frame;
        self.current_frame = (self.current_frame + 1) % MAX_FRAMES_IN_FLIGHT;
        frame
    }

    /// Notes that an object is to be freed once the device is done with a
    /// frame.
    pub fn add_to_deletion_queue(&mut self, frame: usize, object: T)
        requires
            old(self).wf(),
            frame < MAX_FRAMES_IN_FLIGHT,
        ensures
            final(self).wf(),
            final(self).current_frame == old(self).current_frame,
            final(self).deletion_queues[frame as int]@ == old(
                self,
            ).deletion_queues[frame as int]@.push(object),
            forall|f: int|
                0 <= f < MAX_FRAMES_IN_FLIGHT && f != frame ==> old(self).deletion_queues[f]
                    == #[trigger] final(self).deletion_queues[f],
    {
        let mut queue: Vec<T> = Vec::new();
        core::mem::swap(&mut queue, &mut self.deletion_queues[frame]);
        queue.push(object);
        core::mem::swap(&mut queue, &mut self.deletion_queues[frame]);
    }

    /// Frees what was noted for a frame, in the order in which it was
    /// noted, and forgets it.
    pub fn process_deletion_queue(&mut self, ctx: &T::Context, frame: usize)
        requires
            old(self).wf(),
            frame < MAX_FRAMES_IN_FLIGHT,
        ensures
            final(self).wf(),
            final(self).current_frame == old(self).current_frame,
            final(self).deletion_queues[frame as int]@ == Seq::<T>::empty(),
            forall|f: int|
                0 <= f < MAX_FRAMES_IN_FLIGHT && f != frame ==> old(self).deletion_queues[f]
                    == #[trigger] final(self).deletion_queues[f],
    {
        let mut queue: Vec<T> = Vec::new();
        core::mem::swap(&mut queue, &mut self.deletion_queues[frame]);
        destroy_each(&queue, ctx);
    }

    /// Frees what was noted for every frame.
    pub fn destroy(&mut self, ctx: &T::Context)
        requires
            old(self).wf(),
        ensures
            final(self).wf(),
            final(self).current_frame == old(self).current_frame,
            forall|f: int|
                0 <= f < MAX_FRAMES_IN_FLIGHT ==> (#[trigger] final(self).deletion_queues[f])@
                    == Seq::<T>::empty(),
    {
        self.process_deletion_queue(ctx, 0);
        self.process_deletion_queue(ctx, 1);
    }
}

/// Frees the objects of a list, from the first to the last.
fn destroy_each<T: VkObject>(objects: &Vec<T>, ctx: &T::Context) {
    let mut i: usize = 0;
    while i < objects.len()
        invariant
            i <= objects.len(),
        decreases objects.len() - i,
    {
        objects[i].destroy(ctx);
        i = i + 1;
    }
}

/// The buffers that a frame uploads from, kept until the device is done
/// with the frame.
pub struct StagingArena<T: VkObject> {
    pub per_frame: Vec<Vec<T>>,
}

impl<T: VkObject> StagingArena<T> {
    /// One list for every frame in flight.
    pub open spec fn wf(&self) -> bool {
        self.per_frame.len() == MAX_FRAMES_IN_FLIGHT
    }

    /// Says whether there is a list for every frame in flight.
    pub fn check(&self) -> (ok: bool)
        ensures
            ok == self.wf(),
    {
        self.per_frame.len() == MAX_FRAMES_IN_FLIGHT
    }

    pub fn new() -> (arena: StagingArena<T>)
        ensures
            arena.wf(),
            forall|f: int|
                0 <= f < MAX_FRAMES_IN_FLIGHT ==> (#[trigger] arena.per_frame[f])@
                    == Seq::<T>::empty(),
    {
        let mut per_frame: Vec<Vec<T>> = Vec::new();
        per_frame.push(Vec::new());
        per_frame.push(Vec::new());
        StagingArena { per_frame }
    }

    /// Keeps a buffer for a frame.
    pub fn push(&mut self, frame_index: usize, buffer: T)
        requires
            old(self).wf(),
            frame_index < MAX_FRAMES_IN_FLIGHT,
        ensures
            final(self).wf(),
            final(self).per_frame[frame_index as int]@ == old(
                self,
            ).per_frame[frame_index as int]@.push(buffer),
            forall|f: int|
                0 <= f < MAX_FRAMES_IN_FLIGHT && f != frame_index ==> old(self).per_frame[f]
                    == #[trigger] final(self).per_frame[f],
    {
        let mut list: Vec<T> = Vec::new();
        core::mem::swap(&mut list, &mut self.per_frame[frame_index]);
        list.push(buffer);
        core::mem::swap(&mut list, &mut self.per_frame[frame_index]);
    }

    /// Frees the buffers of a frame and forgets them.
    pub fn clear_frame(&mut self, ctx: &T::Context, frame_index: usize)
        requires
            old(self).wf(),
            frame_index < MAX_FRAMES_IN_FLIGHT,
        ensures
            final(self).wf(),
            final(self).per_frame[frame_index as int]@ == Seq::<T>::empty(),
            forall|f: int|
                0 <= f < MAX_FRAMES_IN_FLIGHT && f != frame_index ==> old(self).per_frame[f]
                    == #[trigger] final(self).per_frame[f],
    {
        let mut list: Vec<T> = Vec::new();
        core::mem::swap(&mut list, &mut self.per_frame[frame_index]);
        destroy_each(&list, ctx);
    }

    /// Frees the buffers of every frame.
    pub fn destroy_all(&mut self, ctx: &T::Context)
        requires
            old(self).wf(),
        ensures
            final(self).wf(),
            forall|f: int|
                0 <= f < MAX_FRAMES_IN_FLIGHT ==> (#[trigger] final(self).per_frame[f])@
                    == Seq::<T>::empty(),
    {
        self.clear_frame(ctx, 0);
        self.clear_frame(ctx, 1);
    }
}

} // verus!
