//! The scene stack: scenes layered over each other, with stack changes
//! queued during a frame and applied between frames.

use vstd::prelude::*;

use crate::player::KeyEvent;

verus! {

/// One layer of the game: it reacts to events, advances with time, and
/// draws itself. Implemented by the host's scenes.
pub trait Scene {
    fn update(&mut self, dt: u64);

    fn process_event(&mut self, event: &KeyEvent);

    fn draw(&self);
}

/// What to do to the scene stack between frames.
#[derive(Clone, Copy, Debug, PartialEq, Eq, Structural)]
pub enum Action {
    Push,
    Pop,
    Clear,
}

/// One queued stack change.
#[derive(Clone, Copy, Debug, PartialEq, Eq, Structural)]
pub struct PendingChange {
    pub action: Action,
    pub id: usize,
}

/// A stack after one queued change: `Pop` drops the top scene, `Clear`
/// empties the stack, and `Push` — whose scene would come from a factory —
/// leaves it as it is.
pub open spec fn apply_one<S>(scenes: Seq<S>, change: PendingChange) -> Seq<S> {
    match change.action {
        Action::Push => scenes,
        Action::Pop => if scenes.len() > 0 {
            scenes.drop_last()
        } else {
            scenes
        },
        Action::Clear => Seq::empty(),
    }
}

/// A stack after a queue of changes, applied in order.
pub open spec fn apply_changes<S>(scenes: Seq<S>, changes: Seq<PendingChange>) -> Seq<S>
    decreases changes.len(),
{
    if changes.len() == 0 {
        scenes
    } else {
        apply_changes(apply_one(scenes, changes[0]), changes.skip(1))
    }
}

/// Appending one change applies it after all the others.
pub proof fn lemma_apply_changes_push<S>(
    scenes: Seq<S>,
    changes: Seq<PendingChange>,
    change: PendingChange,
)
    ensures
        apply_changes(scenes, changes.push(change)) == apply_one(
            apply_changes(scenes, changes),
            change,
        ),
    decreases changes.len(),
{
    assert(changes.push(change)[0] == if changes.len() == 0 {
        change
    } else {
        changes[0]
    });
    if changes.len() == 0 {
        assert(changes.push(change).skip(1) =~= Seq::<PendingChange>::empty());
        assert(apply_changes(scenes, changes.push(change)) == apply_changes(
            apply_one(scenes, change),
            changes.push(change).skip(1),
        ));
        assert(apply_changes(apply_one(scenes, change), changes.push(change).skip(1))
            == apply_one(scenes, change));
    } else {
        assert(changes.push(change).skip(1) =~= changes.skip(1).push(change));
        lemma_apply_changes_push(apply_one(scenes, changes[0]), changes.skip(1), change);
        assert(apply_changes(scenes, changes.push(change)) == apply_changes(
            apply_one(scenes, changes[0]),
            changes.skip(1).push(change),
        ));
        assert(apply_changes(scenes, changes) == apply_changes(
            apply_one(scenes, changes[0]),
            changes.skip(1),
        ));
    }
}

/// The scene stack and its queue of pending changes.
pub struct Manager<S: Scene> {
    pub scenes: Vec<S>,
    pub pending_list: Vec<PendingChange>,
}

impl<S: Scene> Manager<S> {
    pub fn new() -> (m: Manager<S>)
        ensures
            m.scenes@.len() == 0,
            m.pending_list@.len() == 0,
    {
        Manager { scenes: Vec::new(), pending_list: Vec::new() }
    }

    /// Queues a stack change for the end of the frame.
    pub fn schedule(&mut self, change: PendingChange)
        ensures
            final(self).scenes == old(self).scenes,
            final(self).pending_list@ == old(self).pending_list@.push(change),
    {
        self.pending_list.push(change);
    }

    /// Hands an event to every scene, bottom to top.
    pub fn process_event(&mut self, event: &KeyEvent)
        ensures
            final(self).scenes@.len() == old(self).scenes@.len(),
            final(self).pending_list == old(self).pending_list,
    {
        let mut i: usize = 0;
        while i < self.scenes.len()
            invariant
                i <= self.scenes@.len(),
                self.scenes@.len() == old(self).scenes@.len(),
                self.pending_list == old(self).pending_list,
            decreases self.scenes@.len() - i,
        {
            let scene = &mut self.scenes[i];
            scene.process_event(event);
            i += 1;
        }
    }

    /// Advances every scene by `dt` milliseconds, bottom to top.
    pub fn update(&mut self, dt: u64)
        ensures
            final(self).scenes@.len() == old(self).scenes@.len(),
            final(self).pending_list == old(self).pending_list,
    {
        let mut i: usize = 0;
        while i < self.scenes.len()
            invariant
                i <= self.scenes@.len(),
                self.scenes@.len() == old(self).scenes@.len(),
                self.pending_list == old(self).pending_list,
            decreases self.scenes@.len() - i,
        {
            let scene = &mut self.scenes[i];
            scene.update(dt);
            i += 1;
        }
    }

    /// Draws every scene, bottom to top.
    pub fn draw(&self) {
        let mut i: usize = 0;
        while i < self.scenes.len()
            decreases self.scenes@.len() - i,
        {
            self.scenes[i].draw();
            i += 1;
        }
    }

    /// Applies every queued change to the stack, in order, and empties the
    /// queue.
    pub fn apply_pending_changes(&mut self)
        ensures
            final(self).scenes@ == apply_changes(old(self).scenes@, old(self).pending_list@),
            final(self).pending_list@.len() == 0,
    {
        let mut i: usize = 0;
        while i < self.pending_list.len()
            invariant
                i <= self.pending_list@.len(),
                self.pending_list == old(self).pending_list,
                self.scenes@ == apply_changes(
                    old(self).scenes@,
                    self.pending_list@.take(i as int),
                ),
            decreases self.pending_list@.len() - i,
        {
            proof {
                lemma_apply_changes_push(
                    old(self).scenes@,
                    self.pending_list@.take(i as int),
                    self.pending_list@[i as int],
                );
                assert(self.pending_list@.take(i as int).push(self.pending_list@[i as int])
                    =~= self.pending_list@.take(i as int + 1));
            }
            let change = self.pending_list[i];
            match change.action {
                Action::Push => {},
                Action::Pop => {
                    self.scenes.pop();
                },
                Action::Clear => {
                    self.scenes.clear();
                },
            }
            i += 1;
        }
        proof {
            assert(self.pending_list@.take(self.pending_list@.len() as int)
                =~= self.pending_list@);
        }
        self.pending_list.clear();
    }
}

} // verus!
