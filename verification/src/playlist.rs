//! A playlist whose cursor wraps around at both ends.

use std::path::PathBuf;
use vstd::arithmetic::div_mod::{
    lemma_add_mod_noop, lemma_fundamental_div_mod, lemma_fundamental_div_mod_converse,
    lemma_mod_bound, lemma_mod_sub_multiples_vanish, lemma_small_mod,
};
use vstd::prelude::*;

verus! {

/// `std::path::PathBuf`, carried through as an opaque value.
#[verifier::external_type_specification]
#[verifier::external_body]
pub struct ExPathBuf(PathBuf);

/// An ordered list of image files and the index of the current one.
#[derive(Debug, Clone)]
pub struct Playlist {
    pub sources: Vec<PathBuf>,
    pub pos: usize,
}

/// The index `d` steps from `pos` on a ring of `len` places; 0 on an empty
/// ring.
pub open spec fn wrapped(pos: int, d: int, len: int) -> int {
    if len > 0 {
        (pos + d) % len
    } else {
        0
    }
}

impl Playlist {
    /// The cursor selects a source, or the list is empty and the cursor is 0.
    pub open spec fn wf(&self) -> bool {
        self.pos < self.sources@.len() || (self.sources@.len() == 0 && self.pos == 0)
    }

    /// A playlist of the given files, its cursor on the first.
    pub fn new(sources: Vec<PathBuf>) -> (r: Self)
        ensures
            r.sources == sources,
            r.pos == 0,
            r.wf(),
    {
        Self { sources, pos: 0 }
    }

    /// The file that the cursor selects; none where the cursor selects
    /// none, as in an empty playlist.
    pub fn current(&self) -> (r: Option<&PathBuf>)
        ensures
            self.pos < self.sources@.len() ==> r == Some(&self.sources@[self.pos as int]),
            self.pos >= self.sources@.len() ==> r is None,
    {
        if self.pos < self.sources.len() {
            Some(&self.sources[self.pos])
        } else {
            None
        }
    }

    /// Moves the cursor by `d` steps round the ring of the playlist's files.
    /// In an empty playlist the cursor stays at 0.
    pub fn advance(&mut self, d: isize)
        ensures
            final(self).sources == old(self).sources,
            final(self).pos == wrapped(
                old(self).pos as int,
                d as int,
                old(self).sources@.len() as int,
            ),
            final(self).wf(),
            old(self).wf() && old(self).sources@.len() == 0 ==> *final(self) == *old(self),
    {
        let len: usize = self.sources.len();
        if len == 0 {
            self.pos = 0;
            return ;
        }
        let base: usize = self.pos % len;
        let shift: usize = if d >= 0 {
            (d as usize) % len
        } else {
            let back: usize = ((-(d + 1)) as usize) % len + 1;
            proof {
                let m = -(d + 1) as int;
                let q = m / (len as int);
                lemma_mod_bound(m, len as int);
                lemma_fundamental_div_mod(m, len as int);
                assert(d == (-q - 1) * len + (len - back)) by (nonlinear_arith)
                    requires
                        m == len * q + (back - 1),
                        m == -(d + 1),
                ;
                if back < len {
                    lemma_fundamental_div_mod_converse(
                        d as int,
                        len as int,
                        -q - 1,
                        (len - back) as int,
                    );
                } else {
                    assert(d == (-q - 1) * len + 0);
                    lemma_fundamental_div_mod_converse(d as int, len as int, -q - 1, 0);
                }
            }
            if back == len { 0 } else { len - back }
        };
        assert(shift == (d as int) % (len as int));
        assert(base == (self.pos as int) % (len as int));
        proof {
            lemma_add_mod_noop(self.pos as int, d as int, len as int);
            if base + shift >= len {
                lemma_mod_sub_multiples_vanish((base + shift) as int, len as int);
                lemma_small_mod((base + shift - len) as nat, len as nat);
            } else {
                lemma_small_mod((base + shift) as nat, len as nat);
            }
        }
        self.pos = if shift > 0 && base >= len - shift {
            base - (len - shift)
        } else {
            base + shift
        };
    }
}

impl Default for Playlist {
    fn default() -> (r: Self)
        ensures
            r.sources@.len() == 0,
            r.pos == 0,
    {
        Self { sources: Vec::new(), pos: 0 }
    }
}

/// On a ring that is not empty, a step forward from the last place leads to
/// the first, a step back from the first leads to the last, and a step of
/// zero leads nowhere.
pub proof fn lemma_wraps_at_ends(pos: usize, len: usize)
    requires
        pos < len,
    ensures
        wrapped(len - 1, 1, len as int) == 0,
        wrapped(0, -1, len as int) == len - 1,
        wrapped(pos as int, 0, len as int) == pos,
{
    lemma_small_mod(pos as nat, len as nat);
    lemma_fundamental_div_mod_converse(len as int, len as int, 1, 0);
    lemma_fundamental_div_mod_converse(-1, len as int, -1, len - 1);
}

/// Where the cursor of a playlist that is not empty stands after a step, a
/// source stands too.
pub proof fn lemma_wrapped_in_range(pos: usize, d: isize, len: usize)
    requires
        len > 0,
    ensures
        0 <= wrapped(pos as int, d as int, len as int) < len,
{
    lemma_mod_bound(pos + d, len as int);
}

} // verus!
