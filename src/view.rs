use vstd::prelude::*;
use crate::protocol::{Packet, StatusPacket};
use crate::shuffle::{permute, permuted};

verus! {

/// What the presentation layer knows of the playlist: the song names in the
/// engine's order and the position it believes current.
pub struct Playlist {
    names: Vec<String>,
    index: usize,
}

/// Every element of `p` is a position below `n`.
pub open spec fn within(p: Seq<usize>, n: nat) -> bool {
    forall|k: int| 0 <= k < p.len() ==> (#[trigger] p[k]) < n
}

/// Whether `perm` has length `n` and every element is a position below `n`.
pub fn fits(perm: &Vec<usize>, n: usize) -> (r: bool)
    ensures
        r == (perm@.len() == n && within(perm@, n as nat)),
{
    if perm.len() != n {
        return false;
    }
    let mut k: usize = 0;
    while k < perm.len()
        invariant
            k <= perm@.len(),
            within(perm@.take(k as int), n as nat),
        decreases perm@.len() - k,
    {
        if perm[k] >= n {
            assert(perm@.take(k as int + 1)[k as int] == perm@[k as int]);
            return false;
        }
        assert(within(perm@.take(k as int + 1), n as nat)) by {
            assert forall|i: int| 0 <= i < k + 1 implies (#[trigger] perm@.take(k as int + 1)[i]) < n by {
                if i < k {
                    assert(perm@.take(k as int + 1)[i] == perm@.take(k as int)[i]);
                }
            }
        }
        k = k + 1;
    }
    assert(perm@.take(k as int) =~= perm@);
    true
}

impl Playlist {
    pub closed spec fn names(&self) -> Seq<String> {
        self.names@
    }

    pub closed spec fn position(&self) -> int {
        self.index as int
    }

    pub open spec fn wf(&self) -> bool {
        self.names().len() > 0 && 0 <= self.position() < self.names().len()
    }

    /// A playlist at the first name; `None` when there are no names.
    pub fn new(names: Vec<String>) -> (r: Option<Playlist>)
        ensures
            r is None <==> names@.len() == 0,
            r matches Some(p) ==> p.wf() && p.names() == names@ && p.position() == 0,
    {
        if names.len() == 0 {
            None
        } else {
            Some(Playlist { names, index: 0 })
        }
    }

    /// Follows a status event of the engine: `NextSong` moves to the next
    /// name, wrapping to the first; `Shuffle` rearranges the names the same
    /// way as the engine's list and moves to the first. A permutation of the
    /// wrong length or with a position out of range is ignored.
    pub fn on_status(&mut self, status: StatusPacket)
        requires
            old(self).wf(),
        ensures
            final(self).wf(),
            status is NextSong ==> final(self).names() == old(self).names() && final(self).position()
                == (old(self).position() + 1) % (old(self).names().len() as int),
            status matches StatusPacket::Shuffle(p) ==> if p@.len() == old(self).names().len()
                && within(p@, old(self).names().len()) {
                final(self).names() == permuted(old(self).names(), p@) && final(self).position()
                    == 0
            } else {
                final(self).names() == old(self).names() && final(self).position() == old(
                    self,
                ).position()
            },
    {
        match status {
            StatusPacket::NextSong => {
                let n = self.names.len();
                self.index = if self.index + 1 == n {
                    0
                } else {
                    self.index + 1
                };
                proof {
                    let i = old(self).position();
                    if i + 1 == n {
                        vstd::arithmetic::div_mod::lemma_mod_self_0(n as int);
                    } else {
                        vstd::arithmetic::div_mod::lemma_small_mod((i + 1) as nat, n as nat);
                    }
                }
            },
            StatusPacket::Shuffle(perm) => {
                if fits(&perm, self.names.len()) {
                    self.names = permute(&self.names, &perm);
                    self.index = 0;
                }
            },
        }
    }

    /// The user chose the name at `i`: when it is another valid position,
    /// it becomes current and the engine is asked to play it; otherwise
    /// nothing happens.
    pub fn select(&mut self, i: usize) -> (r: Option<Packet>)
        requires
            old(self).wf(),
        ensures
            final(self).wf(),
            final(self).names() == old(self).names(),
            r is Some <==> (i < old(self).names().len() && i != old(self).position()),
            r matches Some(p) ==> p == Packet::Play(i) && final(self).position() == i,
            r is None ==> final(self).position() == old(self).position(),
    {
        if i < self.names.len() && i != self.index {
            self.index = i;
            Some(Packet::Play(i))
        } else {
            None
        }
    }

    /// The current position.
    pub fn index(&self) -> (r: usize)
        ensures
            r == self.position(),
    {
        self.index
    }

    /// The names, in the engine's order.
    pub fn names_vec(&self) -> (r: &Vec<String>)
        ensures
            r@ == self.names(),
    {
        &self.names
    }
}

} // verus!
