//! The walk from a folder up to the root that finds the path of a file.
//!
//! The walk asks for one folder at a time. The caller fetches the folder
//! from the store and hands its name and parent to [`PathWalk::accept`]. The
//! number of folders that a walk may ask for is bounded, so a store that
//! reports a chain without end cannot keep the walk going.

use crate::events::failure_message;
use vstd::prelude::*;
use vstd::string::StringExecFns;

verus! {

/// The number of folders that a walk asks for at most, unless it is started
/// with another bound.
pub const MAX_PATH_DEPTH: usize = 256;

/// A walk in progress.
#[derive(Debug)]
pub struct PathWalk {
    parent_id: i64,
    parts: Vec<String>,
    depth: usize,
    max_depth: usize,
}

/// View of a [`PathWalk`].
pub struct PathWalkView {
    /// The folder to ask for next; 0 once the root is reached.
    pub parent_id: i64,
    /// The names found so far, innermost first.
    pub parts: Seq<Seq<char>>,
    /// The number of folders asked for so far.
    pub depth: nat,
    /// The number of folders that may be asked for.
    pub max_depth: nat,
}

/// What the walk needs next, or how it ended.
#[derive(Debug)]
pub enum WalkStep {
    /// Fetch this folder and hand it to [`PathWalk::accept`].
    Fetch { folder_id: i64 },
    /// The root is reached: the names of the folders, outermost first.
    Done { parts: Vec<String> },
    /// The walk has gone on for too long.
    Failed { message: String },
}

/// View of a [`WalkStep`].
pub enum WalkStepView {
    Fetch { folder_id: i64 },
    Done { parts: Seq<Seq<char>> },
    Failed { message: Seq<char> },
}

/// The names of a vector, each as a sequence of characters.
pub open spec fn part_views(parts: Seq<String>) -> Seq<Seq<char>> {
    parts.map_values(|p: String| p@)
}

impl View for PathWalk {
    type V = PathWalkView;

    closed spec fn view(&self) -> PathWalkView {
        PathWalkView {
            parent_id: self.parent_id,
            parts: part_views(self.parts@),
            depth: self.depth as nat,
            max_depth: self.max_depth as nat,
        }
    }
}

impl View for WalkStep {
    type V = WalkStepView;

    open spec fn view(&self) -> WalkStepView {
        match self {
            WalkStep::Fetch { folder_id } => WalkStepView::Fetch { folder_id: *folder_id },
            WalkStep::Done { parts } => WalkStepView::Done { parts: part_views(parts@) },
            WalkStep::Failed { message } => WalkStepView::Failed { message: message@ },
        }
    }
}

impl PathWalkView {
    /// The number of folders that the walk may still ask for.
    pub open spec fn remaining(self) -> nat {
        if self.depth <= self.max_depth {
            (self.max_depth - self.depth) as nat
        } else {
            0
        }
    }

    /// The walk before its first step.
    pub open spec fn start(parent_id: i64, max_depth: nat) -> PathWalkView {
        PathWalkView { parent_id, parts: Seq::empty(), depth: 0, max_depth }
    }

    /// What the walk needs next, and the walk after asking for it.
    pub open spec fn advance(self) -> (PathWalkView, WalkStepView) {
        if self.parent_id == 0 {
            (self, WalkStepView::Done { parts: self.parts.reverse() })
        } else if self.depth >= self.max_depth {
            (self, WalkStepView::Failed { message: "Path lookup failed: path too deep."@ })
        } else {
            (
                PathWalkView { depth: self.depth + 1, ..self },
                WalkStepView::Fetch { folder_id: self.parent_id },
            )
        }
    }

    /// The walk after the folder it asked for has been fetched, or the reason
    /// why it cannot go on: the folder has no name, or is its own parent.
    pub open spec fn accept(self, name: Seq<char>, folder_parent_id: i64) -> Result<
        PathWalkView,
        Seq<char>,
    > {
        if name.len() == 0 {
            Err("Path lookup failed: missing folder name."@)
        } else if folder_parent_id == self.parent_id {
            Err("Path lookup failed: parent loop detected."@)
        } else {
            Ok(PathWalkView { parts: self.parts.push(name), parent_id: folder_parent_id, ..self })
        }
    }
}

/// Every folder that a walk asks for brings it nearer to its bound, and
/// taking in a folder does not move it away: a walk asks for no more folders
/// than its bound allows.
pub proof fn lemma_walk_is_bounded(walk: PathWalkView, name: Seq<char>, folder_parent_id: i64)
    ensures
        walk.advance().1 is Fetch ==> walk.advance().0.remaining() < walk.remaining(),
        !(walk.advance().1 is Fetch) ==> walk.advance().0 == walk,
        walk.remaining() == 0 ==> !(walk.advance().1 is Fetch),
        walk.accept(name, folder_parent_id) matches Ok(next) ==> next.remaining()
            == walk.remaining(),
{
}

/// A folder that names itself as its parent ends the walk.
pub proof fn lemma_walk_rejects_loop(walk: PathWalkView, name: Seq<char>)
    ensures
        walk.accept(name, walk.parent_id) is Err,
{
}

/// The message for a folder that the store could not list.
pub fn lookup_failure(reason: &str) -> (message: String)
    ensures
        message@ == "Path lookup failed: "@ + reason@,
{
    failure_message("Path lookup failed: ", reason)
}

impl PathWalk {
    /// Starts a walk at the folder `parent_id` with the usual bound. A
    /// negative identifier is refused.
    pub fn start(parent_id: i64) -> (r: Result<PathWalk, String>)
        ensures
            match r {
                Ok(walk) => parent_id >= 0 && walk@ == PathWalkView::start(
                    parent_id,
                    MAX_PATH_DEPTH as nat,
                ),
                Err(message) => parent_id < 0 && message@
                    == "Path lookup failed: invalid parent id."@,
            },
    {
        PathWalk::start_with_limit(parent_id, MAX_PATH_DEPTH)
    }

    /// Starts a walk at the folder `parent_id` that asks for `max_depth`
    /// folders at most. A negative identifier is refused.
    pub fn start_with_limit(parent_id: i64, max_depth: usize) -> (r: Result<PathWalk, String>)
        ensures
            match r {
                Ok(walk) => parent_id >= 0 && walk@ == PathWalkView::start(
                    parent_id,
                    max_depth as nat,
                ),
                Err(message) => parent_id < 0 && message@
                    == "Path lookup failed: invalid parent id."@,
            },
    {
        if parent_id < 0 {
            return Err(String::from_str("Path lookup failed: invalid parent id."));
        }
        let walk = PathWalk { parent_id, parts: Vec::new(), depth: 0, max_depth };
        proof {
            assert(walk@.parts =~= Seq::<Seq<char>>::empty());
        }
        Ok(walk)
    }

    /// The number of folders that the walk may still ask for.
    pub fn remaining(&self) -> (r: usize)
        ensures
            r as nat == self@.remaining(),
    {
        if self.depth <= self.max_depth {
            self.max_depth - self.depth
        } else {
            0
        }
    }

    /// Says what the walk needs next. At the root the walk is done and hands
    /// out the names, outermost first. Otherwise it asks for the next folder,
    /// unless it has asked for as many as its bound allows.
    pub fn advance(&mut self) -> (step: WalkStep)
        ensures
            (final(self)@, step@) == old(self)@.advance(),
    {
        if self.parent_id == 0 {
            let mut parts: Vec<String> = Vec::new();
            let mut left: usize = self.parts.len();
            while left > 0
                invariant
                    *self == *old(self),
                    left <= self.parts.len(),
                    part_views(parts@) == part_views(self.parts@).reverse().take(
                        self.parts.len() - left,
                    ),
                decreases left,
            {
                left = left - 1;
                parts.push(self.parts[left].clone());
                proof {
                    let all = part_views(self.parts@).reverse();
                    let k = self.parts.len() - left;
                    assert(all.take(k).drop_last() =~= all.take(k - 1));
                    assert(part_views(parts@) =~= all.take(k));
                }
            }
            proof {
                let all = part_views(self.parts@).reverse();
                assert(all.take(self.parts.len() as int) =~= all);
            }
            WalkStep::Done { parts }
        } else if self.depth >= self.max_depth {
            WalkStep::Failed { message: String::from_str("Path lookup failed: path too deep.") }
        } else {
            self.depth = self.depth + 1;
            WalkStep::Fetch { folder_id: self.parent_id }
        }
    }

    /// Takes in the folder that the walk asked for: its name and the
    /// identifier of its parent. A folder without a name, or one that is its
    /// own parent, ends the walk with an error and leaves it as it is.
    pub fn accept(&mut self, name: String, folder_parent_id: i64) -> (r: Result<(), String>)
        ensures
            match r {
                Ok(_) => old(self)@.accept(name@, folder_parent_id) == Ok::<
                    PathWalkView,
                    Seq<char>,
                >(final(self)@),
                Err(message) => old(self)@.accept(name@, folder_parent_id) == Err::<
                    PathWalkView,
                    Seq<char>,
                >(message@) && final(self)@ == old(self)@,
            },
    {
        if name.as_str().is_empty() {
            Err(String::from_str("Path lookup failed: missing folder name."))
        } else if folder_parent_id == self.parent_id {
            Err(String::from_str("Path lookup failed: parent loop detected."))
        } else {
            self.parts.push(name);
            self.parent_id = folder_parent_id;
            proof {
                assert(part_views(self.parts@) =~= part_views(old(self).parts@).push(name@));
            }
            Ok(())
        }
    }
}

} // verus!
