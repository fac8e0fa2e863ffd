use vstd::prelude::*;
use crate::address::Address;
use crate::error::FaucetError;

verus! {

/// A claim marker: its existence records that `user` has claimed `mint`.
#[derive(Debug, Clone, Copy, PartialEq, Eq)]
pub struct Done {
    pub user: Address,
    pub mint: Address,
}

impl Done {
    pub open spec fn key(self) -> (Seq<u8>, Seq<u8>) {
        (self.user@, self.mint@)
    }
}

/// The claim markers created so far, one per requester and asset. Markers are
/// only ever added.
pub struct ClaimLedger {
    markers: Vec<Done>,
}

impl View for ClaimLedger {
    type V = Set<(Seq<u8>, Seq<u8>)>;

    /// The keys `(requester, asset)` that hold a marker.
    closed spec fn view(&self) -> Set<(Seq<u8>, Seq<u8>)> {
        Set::new(|k: (Seq<u8>, Seq<u8>)| exists|i: int| 0 <= i < self.markers@.len() && #[trigger] self.markers@[i].key() == k)
    }
}

impl ClaimLedger {
    /// No two markers share a key.
    pub closed spec fn wf(&self) -> bool {
        forall|i: int, j: int|
            0 <= i < j < self.markers@.len() ==> #[trigger] self.markers@[i].key() != #[trigger] self.markers@[j].key()
    }

    /// Whether a marker exists for `user` and `mint`.
    pub open spec fn claimed(&self, user: Seq<u8>, mint: Seq<u8>) -> bool {
        self@.contains((user, mint))
    }

    /// An empty ledger.
    pub fn new() -> (r: ClaimLedger)
        ensures
            r.wf(),
            r@ == Set::<(Seq<u8>, Seq<u8>)>::empty(),
    {
        let r = ClaimLedger { markers: Vec::new() };
        assert(r@ =~= Set::<(Seq<u8>, Seq<u8>)>::empty());
        r
    }

    /// The number of markers.
    pub fn len(&self) -> (r: usize)
        requires
            self.wf(),
        ensures
            r == self@.len(),
    {
        proof {
            self.lemma_len();
        }
        self.markers.len()
    }

    proof fn lemma_len(&self)
        requires
            self.wf(),
        ensures
            self@.finite(),
            self@.len() == self.markers@.len(),
        decreases self.markers@.len(),
    {
        let keys = self.markers@.map_values(|d: Done| d.key());
        assert forall|i: int, j: int| 0 <= i < j < keys.len() implies keys[i] != keys[j] by {
            assert(keys[i] == self.markers@[i].key());
            assert(keys[j] == self.markers@[j].key());
        }
        assert(keys.no_duplicates());
        assert(self@ =~= keys.to_set()) by {
            assert forall|k: (Seq<u8>, Seq<u8>)| self@.contains(k) implies keys.to_set().contains(k) by {
                let i = choose|i: int| 0 <= i < self.markers@.len() && #[trigger] self.markers@[i].key() == k;
                assert(keys[i] == k);
            }
            assert forall|k: (Seq<u8>, Seq<u8>)| keys.to_set().contains(k) implies self@.contains(k) by {
                let i = choose|i: int| 0 <= i < keys.len() && keys[i] == k;
                assert(self.markers@[i].key() == k);
            }
        }
        keys.unique_seq_to_set();
    }

    /// Whether a marker exists for `user` and `mint`.
    pub fn has_claimed(&self, user: &Address, mint: &Address) -> (r: bool)
        ensures
            r == self.claimed(user@, mint@),
    {
        let mut i: usize = 0;
        while i < self.markers.len()
            invariant
                i <= self.markers@.len(),
                forall|j: int| 0 <= j < i ==> #[trigger] self.markers@[j].key() != (user@, mint@),
            decreases self.markers@.len() - i,
        {
            let d = &self.markers[i];
            if d.user.same(user) && d.mint.same(mint) {
                assert(self.markers@[i as int].key() == (user@, mint@));
                return true;
            }
            i = i + 1;
        }
        false
    }

    /// Creates the marker of `user` and `mint`, and fails with `AlreadyClaimed`,
    /// changing nothing, where it exists already.
    pub fn create_marker(&mut self, user: &Address, mint: &Address) -> (r: Result<(), FaucetError>)
        requires
            old(self).wf(),
        ensures
            final(self).wf(),
            old(self).claimed(user@, mint@) <==> r.is_err(),
            r.is_err() ==> r == Err::<(), FaucetError>(FaucetError::AlreadyClaimed),
            r.is_ok() ==> final(self)@ == old(self)@.insert((user@, mint@)),
            r.is_err() ==> final(self)@ == old(self)@,
    {
        if self.has_claimed(user, mint) {
            return Err(FaucetError::AlreadyClaimed);
        }
        let ghost before = self.markers@;
        self.markers.push(Done { user: *user, mint: *mint });
        proof {
            assert(self.markers@ == before.push(Done { user: *user, mint: *mint }));
            assert forall|i: int, j: int|
                0 <= i < j < self.markers@.len() implies #[trigger] self.markers@[i].key() != #[trigger] self.markers@[j].key() by {
                if j == before.len() {
                    assert(self.markers@[i] == before[i]);
                    assert(!old(self)@.contains((user@, mint@)));
                    assert(before[i].key() != (user@, mint@));
                } else {
                    assert(self.markers@[i] == before[i]);
                    assert(self.markers@[j] == before[j]);
                }
            }
            assert forall|k: (Seq<u8>, Seq<u8>)| #[trigger] self@.contains(k) == old(self)@.insert((user@, mint@)).contains(k) by {
                if self@.contains(k) {
                    let i = choose|i: int| 0 <= i < self.markers@.len() && #[trigger] self.markers@[i].key() == k;
                    if i < before.len() {
                        assert(before[i].key() == k);
                    }
                }
                if old(self)@.contains(k) {
                    let i = choose|i: int| 0 <= i < before.len() && #[trigger] before[i].key() == k;
                    assert(self.markers@[i].key() == k);
                }
                if k == (user@, mint@) {
                    assert(self.markers@[before.len() as int].key() == k);
                }
            }
            assert(self@ =~= old(self)@.insert((user@, mint@)));
        }
        Ok(())
    }
}

} // verus!
