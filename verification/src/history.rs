//! The bounded store of snapshots behind undo.
use vstd::prelude::*;
use std::collections::VecDeque;
use crate::vertex::Vertex;

verus! {

/// The number of snapshots that are kept.
pub const HISTORY_CAPACITY: usize = 20;

/// Snapshots of the drawing, oldest first. A push onto a full history
/// drops the oldest snapshot; a pop takes the newest. A history that began
/// empty never holds more than `HISTORY_CAPACITY` snapshots.
#[derive(Debug)]
pub struct History {
    entries: VecDeque<Vec<Vertex>>,
}

/// The snapshots after `snapshot` was pushed onto `history`.
pub open spec fn pushed(history: Seq<Seq<Vertex>>, snapshot: Seq<Vertex>) -> Seq<Seq<Vertex>> {
    if history.len() >= HISTORY_CAPACITY {
        history.drop_first().push(snapshot)
    } else {
        history.push(snapshot)
    }
}

impl View for History {
    type V = Seq<Seq<Vertex>>;

    closed spec fn view(&self) -> Seq<Seq<Vertex>> {
        self.entries@.map_values(|entry: Vec<Vertex>| entry@)
    }
}

impl History {
    /// A history without snapshots.
    pub fn new() -> (history: History)
        ensures
            history@ == Seq::<Seq<Vertex>>::empty(),
    {
        let history = History { entries: VecDeque::with_capacity(HISTORY_CAPACITY) };
        assert(history@ =~= Seq::<Seq<Vertex>>::empty());
        history
    }

    /// The number of snapshots held.
    pub fn len(&self) -> (n: usize)
        ensures
            n == self@.len(),
    {
        self.entries.len()
    }

    /// Adds `snapshot` as the newest, dropping the oldest where the history is full.
    pub fn push(&mut self, snapshot: Vec<Vertex>)
        ensures
            final(self)@ == pushed(old(self)@, snapshot@),
            final(self)@.last() == snapshot@,
            old(self)@.len() <= HISTORY_CAPACITY ==> final(self)@.len() <= HISTORY_CAPACITY,
    {
        if self.entries.len() >= HISTORY_CAPACITY {
            self.entries.pop_front();
        }
        self.entries.push_back(snapshot);
        assert(self@ =~= pushed(old(self)@, snapshot@));
    }

    /// Takes the newest snapshot out, if there is one.
    pub fn pop(&mut self) -> (newest: Option<Vec<Vertex>>)
        ensures
            match newest {
                Some(snapshot) => old(self)@.len() > 0 && snapshot@ == old(self)@.last() && final(self)@
                    == old(self)@.drop_last(),
                None => old(self)@.len() == 0 && final(self)@ == old(self)@,
            },
    {
        let newest = self.entries.pop_back();
        assert(self@ =~= if newest is Some {
            old(self)@.drop_last()
        } else {
            old(self)@
        });
        newest
    }
}

} // verus!
