//! Ordered playback list with a current-position cursor.

use vstd::prelude::*;
use vstd::arithmetic::div_mod::{
    lemma_add_mod_noop, lemma_mod_add_multiples_vanish, lemma_mod_bound, lemma_mod_equivalence,
    lemma_mod_self_0, lemma_small_mod,
};

verus! {

/// Mathematical model of a [`Queue`]: the track names as sequences of
/// characters, and the cursor position.
pub ghost struct QueueModel {
    pub tracks: Seq<Seq<char>>,
    pub cursor: nat,
}

impl QueueModel {
    /// The cursor is a valid index whenever the list is non-empty, and
    /// sits at zero when the list is empty.
    pub open spec fn wf(self) -> bool {
        if self.tracks.len() == 0 {
            self.cursor == 0
        } else {
            self.cursor < self.tracks.len()
        }
    }

    /// The track under the cursor, if any.
    pub open spec fn current(self) -> Option<Seq<char>> {
        if self.tracks.len() == 0 {
            None
        } else {
            Some(self.tracks[self.cursor as int])
        }
    }
}

/// Cursor position after one forward step: advance by one, wrapping from
/// the last index back to zero.
pub open spec fn next_cursor(c: nat, len: nat) -> nat {
    if c + 1 < len {
        c + 1
    } else {
        0
    }
}

/// Cursor position after one backward step: retreat by one, wrapping
/// from zero to the last index.
pub open spec fn prev_cursor(c: nat, len: nat) -> nat {
    if c > 0 {
        (c - 1) as nat
    } else if len == 0 {
        0
    } else {
        (len - 1) as nat
    }
}

/// What [`Queue::select_or_push`] does to the queue model: when the
/// track occurs in the list, the cursor moves to its first occurrence
/// and the list is untouched; otherwise the track is appended and
/// selected.
pub open spec fn select_or_push_post(pre: QueueModel, t: Seq<char>, post: QueueModel) -> bool {
    &&& (pre.tracks.contains(t) ==> {
        &&& post.tracks == pre.tracks
        &&& post.cursor < post.tracks.len()
        &&& pre.tracks[post.cursor as int] == t
        &&& forall|j: int| 0 <= j < post.cursor ==> pre.tracks[j] != t
    })
    &&& (!pre.tracks.contains(t) ==> {
        &&& post.tracks == pre.tracks.push(t)
        &&& post.cursor == pre.tracks.len()
    })
    &&& post.wf()
}

/// A playback queue: an ordered list of track names plus a cursor.
pub struct Queue {
    tracks: Vec<String>,
    index: usize,
}

impl View for Queue {
    type V = QueueModel;

    closed spec fn view(&self) -> QueueModel {
        QueueModel { tracks: self.tracks.deep_view(), cursor: self.index as nat }
    }
}

impl Queue {
    /// Well-formedness of the concrete queue, stated over its model.
    pub open spec fn wf(&self) -> bool {
        self@.wf()
    }

    /// Creates an empty queue with the cursor at zero.
    pub fn new() -> (q: Queue)
        ensures
            q@.tracks == Seq::<Seq<char>>::empty(),
            q@.cursor == 0,
            q.wf(),
    {
        Queue { tracks: Vec::new(), index: 0 }
    }

    /// Builds a queue over the given tracks with the cursor at zero.
    pub fn from_vec(v: Vec<String>) -> (q: Queue)
        ensures
            q@.tracks == v.deep_view(),
            q@.cursor == 0,
            q.wf(),
    {
        Queue { tracks: v, index: 0 }
    }

    /// Appends a track; the cursor does not move.
    pub fn push(&mut self, path: String)
        requires
            old(self).wf(),
        ensures
            final(self)@.tracks == old(self)@.tracks.push(path@),
            final(self)@.cursor == old(self)@.cursor,
            final(self).wf(),
    {
        self.tracks.push(path);
        proof {
            assert(self@.tracks =~= old(self)@.tracks.push(path@));
        }
    }

    /// Removes and returns the last track.  The cursor is pulled back
    /// onto the last remaining index if it would otherwise fall off the
    /// end, so the queue stays well formed.
    pub fn pop(&mut self) -> (r: Option<String>)
        requires
            old(self).wf(),
        ensures
            old(self)@.tracks.len() == 0 ==> {
                &&& r is None
                &&& final(self)@ == old(self)@
            },
            old(self)@.tracks.len() > 0 ==> {
                &&& r matches Some(t) && t@ == old(self)@.tracks.last()
                &&& final(self)@.tracks == old(self)@.tracks.drop_last()
                &&& final(self)@.cursor == if old(self)@.cursor < final(self)@.tracks.len() {
                    old(self)@.cursor
                } else if final(self)@.tracks.len() == 0 {
                    0
                } else {
                    (final(self)@.tracks.len() - 1) as nat
                }
            },
            final(self).wf(),
    {
        let r = self.tracks.pop();
        if self.index >= self.tracks.len() {
            if self.tracks.len() == 0 {
                self.index = 0;
            } else {
                self.index = self.tracks.len() - 1;
            }
        }
        proof {
            if old(self)@.tracks.len() > 0 {
                assert(self@.tracks =~= old(self)@.tracks.drop_last());
            }
        }
        r
    }

    /// Number of tracks in the queue.
    pub fn len(&self) -> (n: usize)
        ensures
            n == self@.tracks.len(),
    {
        self.tracks.len()
    }

    /// Whether the queue holds no tracks.
    pub fn is_empty(&self) -> (b: bool)
        ensures
            b == (self@.tracks.len() == 0),
    {
        self.tracks.len() == 0
    }

    /// Removes every track and returns the cursor to zero.
    pub fn clear(&mut self)
        ensures
            final(self)@.tracks == Seq::<Seq<char>>::empty(),
            final(self)@.cursor == 0,
            final(self).wf(),
    {
        self.tracks.clear();
        self.index = 0;
    }

    /// The track under the cursor, or nothing when the queue is empty.
    pub fn current(&self) -> (r: Option<String>)
        requires
            self.wf(),
        ensures
            (r is Some) <==> (self@.current() is Some),
            r matches Some(t) ==> Some(t@) == self@.current(),
    {
        if self.tracks.len() == 0 {
            None
        } else {
            Some(self.tracks[self.index].clone())
        }
    }

    /// Read-only access to the track list.
    pub fn tracks(&self) -> (r: &Vec<String>)
        ensures
            r.deep_view() == self@.tracks,
    {
        &self.tracks
    }

    /// Advances the cursor by one with wraparound and returns the newly
    /// selected track; on an empty queue nothing changes.
    pub fn next(&mut self) -> (r: Option<String>)
        requires
            old(self).wf(),
        ensures
            final(self)@.tracks == old(self)@.tracks,
            old(self)@.tracks.len() == 0 ==> {
                &&& r is None
                &&& final(self)@ == old(self)@
            },
            old(self)@.tracks.len() > 0 ==> {
                &&& final(self)@.cursor == next_cursor(old(self)@.cursor, old(self)@.tracks.len())
                &&& r matches Some(t) && t@ == old(self)@.tracks[final(self)@.cursor as int]
            },
            final(self).wf(),
    {
        if self.tracks.len() == 0 {
            return None;
        }
        if self.index + 1 < self.tracks.len() {
            self.index = self.index + 1;
        } else {
            self.index = 0;
        }
        Some(self.tracks[self.index].clone())
    }

    /// Retreats the cursor by one with wraparound and returns the newly
    /// selected track; on an empty queue nothing changes.
    pub fn prev(&mut self) -> (r: Option<String>)
        requires
            old(self).wf(),
        ensures
            final(self)@.tracks == old(self)@.tracks,
            old(self)@.tracks.len() == 0 ==> {
                &&& r is None
                &&& final(self)@ == old(self)@
            },
            old(self)@.tracks.len() > 0 ==> {
                &&& final(self)@.cursor == prev_cursor(old(self)@.cursor, old(self)@.tracks.len())
                &&& r matches Some(t) && t@ == old(self)@.tracks[final(self)@.cursor as int]
            },
            final(self).wf(),
    {
        if self.tracks.len() == 0 {
            return None;
        }
        if self.index > 0 {
            self.index = self.index - 1;
        } else {
            self.index = self.tracks.len() - 1;
        }
        Some(self.tracks[self.index].clone())
    }

    /// Moves the cursor to the first occurrence of the given track, or
    /// appends the track and selects it when it is not yet present.
    pub fn select_or_push(&mut self, path: String)
        requires
            old(self).wf(),
        ensures
            select_or_push_post(old(self)@, path@, final(self)@),
            final(self).wf(),
    {
        let ghost t = path@;
        let n = self.tracks.len();
        let mut i: usize = 0;
        while i < n
            invariant
                n == self.tracks.len(),
                0 <= i <= n,
                forall|j: int| 0 <= j < i ==> self@.tracks[j] != t,
                self == old(self),
                t == path@,
            decreases n - i,
        {
            if self.tracks[i] == path {
                self.index = i;
                proof {
                    assert(old(self)@.tracks[i as int] == path@);
                    assert(old(self)@.tracks.contains(path@));
                }
                return ;
            }
            i = i + 1;
        }
        proof {
            assert(forall|j: int|
                0 <= j < old(self)@.tracks.len() ==> old(self)@.tracks[j] != path@);
            assert(!old(self)@.tracks.contains(path@));
        }
        self.tracks.push(path);
        self.index = self.tracks.len() - 1;
        proof {
            assert(self@.tracks =~= old(self)@.tracks.push(t));
        }
    }
}

/// Cursor position after `k` forward steps.
pub open spec fn iter_next(c: nat, len: nat, k: nat) -> nat
    decreases k,
{
    if k == 0 {
        c
    } else {
        next_cursor(iter_next(c, len, (k - 1) as nat), len)
    }
}

/// Cursor position after `k` backward steps.
pub open spec fn iter_prev(c: nat, len: nat, k: nat) -> nat
    decreases k,
{
    if k == 0 {
        c
    } else {
        prev_cursor(iter_prev(c, len, (k - 1) as nat), len)
    }
}

/// One backward step undoes one forward step.
pub proof fn lemma_prev_undoes_next(c: nat, len: nat)
    requires
        len > 0,
        c < len,
    ensures
        prev_cursor(next_cursor(c, len), len) == c,
{
}

/// After any number of forward steps the cursor is still in range.
pub proof fn lemma_iter_next_in_range(c: nat, len: nat, k: nat)
    requires
        len > 0,
        c < len,
    ensures
        iter_next(c, len, k) < len,
    decreases k,
{
    if k > 0 {
        lemma_iter_next_in_range(c, len, (k - 1) as nat);
    }
}

/// Closed form of `iter_next`: `k` forward steps move the cursor from
/// `c` to `(c + k) % len`.
pub proof fn lemma_iter_next_at(c: nat, len: nat, k: nat)
    requires
        len > 0,
        c < len,
    ensures
        iter_next(c, len, k) == (c + k) % len,
    decreases k,
{
    if k == 0 {
        lemma_small_mod(c, len);
    } else {
        lemma_iter_next_at(c, len, (k - 1) as nat);
        lemma_iter_next_in_range(c, len, (k - 1) as nat);
        let p = iter_next(c, len, (k - 1) as nat);
        lemma_add_mod_noop((c + k - 1) as int, 1, len as int);
        if len == 1 {
            lemma_mod_bound((c + k) as int, len as int);
        } else {
            lemma_small_mod(1, len);
            if p + 1 < len {
                lemma_small_mod((p + 1) as nat, len);
            } else {
                lemma_mod_self_0(len as int);
            }
        }
    }
}

/// Law: from any position of a non-empty queue, `len` forward steps
/// return the cursor to where it started, and the positions reached
/// after 1, 2, …, `len` steps are pairwise distinct — so repeated
/// `next` selects every element exactly once per full cycle.
pub proof fn lemma_next_full_cycle(c: nat, len: nat)
    requires
        len > 0,
        c < len,
    ensures
        iter_next(c, len, len) == c,
        forall|a: nat, b: nat|
            1 <= a < b <= len ==> iter_next(c, len, a) != iter_next(c, len, b),
{
    lemma_iter_next_at(c, len, len);
    lemma_mod_add_multiples_vanish(c as int, len as int);
    lemma_small_mod(c, len);
    assert forall|a: nat, b: nat|
        1 <= a < b <= len implies iter_next(c, len, a) != iter_next(c, len, b) by {
        lemma_iter_next_at(c, len, a);
        lemma_iter_next_at(c, len, b);
        if iter_next(c, len, a) == iter_next(c, len, b) {
            lemma_mod_equivalence((c + b) as int, (c + a) as int, len as int);
            lemma_small_mod((b - a) as nat, len);
            assert(false);
        }
    }
}

/// `k` backward steps land on the same position as `len - k` forward
/// steps.
pub proof fn lemma_iter_prev_as_next(c: nat, len: nat, k: nat)
    requires
        len > 0,
        c < len,
        k <= len,
    ensures
        iter_prev(c, len, k) == iter_next(c, len, (len - k) as nat),
    decreases k,
{
    if k == 0 {
        lemma_next_full_cycle(c, len);
    } else {
        lemma_iter_prev_as_next(c, len, (k - 1) as nat);
        let x = iter_next(c, len, (len - k) as nat);
        lemma_iter_next_in_range(c, len, (len - k) as nat);
        assert(iter_next(c, len, (len - k + 1) as nat) == next_cursor(x, len));
        lemma_prev_undoes_next(x, len);
    }
}

/// Law: the backward cycle mirrors the forward one — `len` backward
/// steps return the cursor to its start, and the positions reached
/// after 1, 2, …, `len` steps are pairwise distinct, so repeated
/// `prev` selects every element exactly once per full cycle.
pub proof fn lemma_prev_full_cycle(c: nat, len: nat)
    requires
        len > 0,
        c < len,
    ensures
        iter_prev(c, len, len) == c,
        forall|a: nat, b: nat|
            1 <= a < b <= len ==> iter_prev(c, len, a) != iter_prev(c, len, b),
{
    lemma_next_full_cycle(c, len);
    lemma_iter_prev_as_next(c, len, len);
    assert forall|a: nat, b: nat|
        1 <= a < b <= len implies iter_prev(c, len, a) != iter_prev(c, len, b) by {
        lemma_iter_prev_as_next(c, len, a);
        lemma_iter_prev_as_next(c, len, b);
        assert(iter_next(c, len, (len - a) as nat) != iter_next(c, len, (len - b) as nat));
    }
}

/// Law: `select_or_push` is idempotent — repeating it at once with the
/// same track leaves both the track list and the cursor unchanged.
pub proof fn lemma_select_or_push_idempotent(
    m0: QueueModel,
    m1: QueueModel,
    m2: QueueModel,
    t: Seq<char>,
)
    requires
        m0.wf(),
        select_or_push_post(m0, t, m1),
        select_or_push_post(m1, t, m2),
    ensures
        m2.tracks == m1.tracks,
        m2.cursor == m1.cursor,
{
    if m0.tracks.contains(t) {
        assert(m1.tracks.contains(t)) by {
            assert(m1.tracks[m1.cursor as int] == t);
        }
        if m2.cursor > m1.cursor {
            assert(m1.tracks[m1.cursor as int] != t);
            assert(false);
        }
    } else {
        assert(m1.tracks.contains(t)) by {
            assert(m1.tracks[m1.cursor as int] == t);
        }
        if m2.cursor < m1.cursor {
            assert(m1.tracks[m2.cursor as int] == m0.tracks[m2.cursor as int]);
            assert(m0.tracks.contains(t));
            assert(false);
        }
    }
}

} // verus!
