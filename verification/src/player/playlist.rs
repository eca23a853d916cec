//! The playlist cursor, a position over a list with a sentinel at each end,
//! and the files that a walk through a directory yields for a playlist.

use std::path::PathBuf;
use vstd::prelude::*;

pub mod handler;

pub use handler::Playlist;

verus! {

/// A cursor over a list: before the first element, at an index, or past the
/// last element.
#[derive(Debug, Clone, Copy, PartialEq, Eq, Structural)]
pub enum Pos {
    Start,
    Normal(usize),
    End,
}

impl Pos {
    /// The cursor selects an element of a list of `len` elements, or rests on
    /// a sentinel.
    pub open spec fn in_bounds(self, len: int) -> bool {
        match self {
            Pos::Normal(i) => i < len,
            _ => true,
        }
    }

    /// The index that the cursor selects, if it rests on no sentinel.
    pub open spec fn index(self) -> Option<usize> {
        match self {
            Pos::Normal(i) => Some(i),
            _ => None,
        }
    }

    /// Where a cursor over `len` elements stands after `d` steps, forward
    /// where `d` is positive and back where it is negative.
    ///
    /// From an index the steps are counted off: a cursor that would pass the
    /// first element lands on `Start`, one that would pass the last lands on
    /// `End`. Leaving a sentinel costs one step. From `Start`, `d` steps
    /// forward lead to the index `d - 1`, or to `End` where the list is too
    /// short for that. From `End`, `d` steps back lead to the index
    /// `len + d`, or to `Start` where the list is too short for that. A
    /// sentinel holds against steps that lead further out.
    pub open spec fn stepped(self, d: int, len: int) -> Pos {
        match self {
            Pos::Start => if d <= 0 {
                Pos::Start
            } else if d - 1 < len {
                Pos::Normal((d - 1) as usize)
            } else {
                Pos::End
            },
            Pos::End => if d >= 0 {
                Pos::End
            } else if len + d >= 0 {
                Pos::Normal((len + d) as usize)
            } else {
                Pos::Start
            },
            Pos::Normal(i) => if i + d < 0 {
                Pos::Start
            } else if i + d >= len {
                Pos::End
            } else {
                Pos::Normal((i + d) as usize)
            },
        }
    }

    /// Where a cursor over `len` elements stands after the steps `ds`, taken
    /// in order.
    pub open spec fn walked(self, ds: Seq<isize>, len: usize) -> Pos
        decreases ds.len(),
    {
        if ds.len() == 0 {
            self
        } else {
            self.walked(ds.drop_last(), len).stepped(ds.last() as int, len as int)
        }
    }

    /// The cursor rests on no sentinel.
    pub fn is_normal(&self) -> (r: bool)
        ensures
            r == (*self is Normal),
    {
        match self {
            Pos::Normal(_) => true,
            _ => false,
        }
    }

    /// Moves the cursor over a list of `len` elements by `d` steps.
    pub fn advance(&mut self, d: isize, len: usize)
        ensures
            *final(self) == old(self).stepped(d as int, len as int),
            old(self).in_bounds(len as int) ==> final(self).in_bounds(len as int),
    {
        match *self {
            Pos::Start => {
                if d > 0 {
                    let i: usize = (d - 1) as usize;
                    *self = if i < len {
                        Pos::Normal(i)
                    } else {
                        Pos::End
                    };
                }
            },
            Pos::End => {
                if d < 0 {
                    *self = match len.checked_add_signed(d) {
                        Some(i) => Pos::Normal(i),
                        None => Pos::Start,
                    };
                }
            },
            Pos::Normal(i) => {
                *self = match i.checked_add_signed(d) {
                    Some(n) => if n >= len {
                        Pos::End
                    } else {
                        Pos::Normal(n)
                    },
                    None => if d < 0 {
                        Pos::Start
                    } else {
                        Pos::End
                    },
                };
            },
        }
    }

    /// The index that the cursor selects; none on a sentinel.
    pub fn to_index(&self) -> (r: Option<usize>)
        ensures
            r == self.index(),
    {
        match self {
            Pos::Start | Pos::End => None,
            Pos::Normal(p) => Some(*p),
        }
    }
}

impl Default for Pos {
    fn default() -> (r: Self)
        ensures
            r == Pos::Start,
    {
        Pos::Start
    }
}

/// A step keeps a cursor within its list.
pub proof fn lemma_step_in_bounds(p: Pos, d: isize, len: usize)
    requires
        p.in_bounds(len as int),
    ensures
        p.stepped(d as int, len as int).in_bounds(len as int),
{
}

/// Whatever steps are taken from a cursor within its list, the cursor yields
/// no index on a sentinel and an index below the list's length anywhere
/// else.
pub proof fn lemma_walk_in_bounds(p: Pos, ds: Seq<isize>, len: usize)
    requires
        p.in_bounds(len as int),
    ensures
        p.walked(ds, len).in_bounds(len as int),
        match p.walked(ds, len) {
            Pos::Normal(i) => p.walked(ds, len).index() == Some(i) && i < len,
            _ => p.walked(ds, len).index() is None,
        },
    decreases ds.len(),
{
    if ds.len() > 0 {
        lemma_walk_in_bounds(p, ds.drop_last(), len);
        lemma_step_in_bounds(p.walked(ds.drop_last(), len), ds.last(), len);
    }
}

/// Over an empty list a cursor at rest on a sentinel stays on a sentinel,
/// whatever steps are taken: no step yields an index.
pub proof fn lemma_empty_list_has_no_index(p: Pos, ds: Seq<isize>)
    requires
        p.in_bounds(0),
    ensures
        p.walked(ds, 0).index() is None,
{
    lemma_walk_in_bounds(p, ds, 0);
}

/// A step of zero leaves a cursor within its list where it is.
pub proof fn lemma_zero_step_stays(p: Pos, len: usize)
    requires
        p.in_bounds(len as int),
    ensures
        p.stepped(0, len as int) == p,
{
}

/// A sentinel holds against steps that lead further out: `Start` against
/// steps back, `End` against steps forward.
pub proof fn lemma_sentinels_hold(d: isize, len: usize)
    ensures
        d <= 0 ==> Pos::Start.stepped(d as int, len as int) == Pos::Start,
        d >= 0 ==> Pos::End.stepped(d as int, len as int) == Pos::End,
{
}

/// At the ends of a list that is not empty, one step leads from each
/// sentinel to the element next to it, and from that element back to the
/// sentinel.
pub proof fn lemma_boundary_steps(len: usize)
    requires
        len > 0,
    ensures
        Pos::Start.stepped(1, len as int) == Pos::Normal(0),
        Pos::Normal(0).stepped(-1, len as int) == Pos::Start,
        Pos::Normal((len - 1) as usize).stepped(1, len as int) == Pos::End,
        Pos::End.stepped(-1, len as int) == Pos::Normal((len - 1) as usize),
{
}

/// What a walk through a directory tree found at one place.
#[derive(Debug)]
pub struct Entry {
    pub path: PathBuf,
    /// The place holds a file: not a directory, and no link.
    pub is_file: bool,
}

/// The paths of the files among the entries of a walk, in the order of the
/// walk.
pub open spec fn files(entries: Seq<Entry>) -> Seq<PathBuf>
    decreases entries.len(),
{
    if entries.len() == 0 {
        Seq::empty()
    } else if entries.last().is_file {
        files(entries.drop_last()).push(entries.last().path)
    } else {
        files(entries.drop_last())
    }
}

/// Appends to `sources` the files that a walk has found, in the order of
/// the walk; what is no file is passed over.
pub fn read_dir(entries: Vec<Entry>, sources: &mut Vec<PathBuf>)
    ensures
        final(sources)@ == old(sources)@ + files(entries@),
{
    let ghost before = sources@;
    for entry in iter: entries
        invariant
            iter.seq() == entries@,
            sources@ == before + files(entries@.take(iter.index() as int)),
    {
        proof {
            let k = iter.index() as int;
            assert(entries@.take(k + 1).drop_last() =~= entries@.take(k));
            assert(entries@.take(k + 1).last() == entries@[k]);
        }
        if entry.is_file {
            sources.push(entry.path);
        }
    }
    assert(entries@.take(entries@.len() as int) =~= entries@);
}

} // verus!
