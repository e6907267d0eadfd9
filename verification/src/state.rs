use vstd::prelude::*;

verus! {

/// Tracks, in one machine word, how many shared borrows of some guarded
/// object are outstanding and whether an exclusive borrow is held.
///
/// The low `W - 1` bits of the word (`W` the word width) count the shared
/// borrows; the top bit flags an exclusive borrow. The two never coexist:
/// see [`AtomicBorrow::wf`].
#[derive(Debug)]
pub struct AtomicBorrow {
    borrow: usize,
}

impl Default for AtomicBorrow {
    /// The default state is the free one, as [`AtomicBorrow::new`] makes it.
    fn default() -> (r: Self)
        ensures
            r.wf(),
            r.is_free(),
    {
        Self::new()
    }
}

impl AtomicBorrow {
    /// The mask for the shared borrow count: every bit but the top one.
    pub const SHARED_MASK: usize = !0usize >> 1;
    /// The mask for the unique borrow bit: the top bit alone.
    pub const UNIQUE_MASK: usize = !(!0usize >> 1);

    /// Number of outstanding shared borrows encoded in the word.
    pub closed spec fn shared(self) -> usize {
        self.borrow & Self::SHARED_MASK
    }

    /// Whether the word flags an outstanding exclusive borrow.
    pub closed spec fn unique_held(self) -> bool {
        self.borrow & Self::UNIQUE_MASK != 0
    }

    /// The state is well formed when no shared borrow coexists with an
    /// exclusive one. Every operation preserves this.
    pub open spec fn wf(self) -> bool {
        self.unique_held() ==> self.shared() == 0
    }

    /// No borrow of either kind is outstanding.
    pub open spec fn is_free(self) -> bool {
        self.shared() == 0 && !self.unique_held()
    }

    /// Some borrow, shared or exclusive, is outstanding.
    pub open spec fn borrowed(self) -> bool {
        self.shared() > 0 || self.unique_held()
    }

    /// The well-formed state with `n` outstanding shared borrows and no
    /// exclusive one; see [`lemma_with_shared`].
    pub closed spec fn with_shared(n: usize) -> AtomicBorrow {
        AtomicBorrow { borrow: n & Self::SHARED_MASK }
    }

    /// Creates a new `AtomicBorrow` in the free state.
    pub fn new() -> (r: Self)
        ensures
            r.wf(),
            r.is_free(),
    {
        proof {
            lemma_word_parts(0);
        }
        Self { borrow: 0 }
    }

    /// Returns the number of shared borrows.
    pub fn shared_count(&self) -> (r: usize)
        ensures
            r == self.shared(),
    {
        self.borrow & Self::SHARED_MASK
    }

    /// Returns true if no exclusive borrow is outstanding, so that `self`
    /// could still hand out a unique view of the data it guards.
    pub fn is_unique(&self) -> (r: bool)
        ensures
            r == !self.unique_held(),
    {
        self.borrow & Self::UNIQUE_MASK == 0
    }

    /// Returns true if `self` is borrowed in any way.
    pub fn is_borrowed(&self) -> (r: bool)
        ensures
            r == self.borrowed(),
    {
        proof {
            lemma_word_parts(self.borrow);
        }
        self.borrow != 0
    }

    /// Tries to acquire a shared reference: one more shared borrower is
    /// counted unless an exclusive borrow is outstanding.
    ///
    /// Returns `true` if the reference was acquired; on failure the state
    /// is left exactly as it was. The count must be below the capacity of
    /// the word: one acquisition past it would corrupt the encoding, so
    /// no call at the capacity is allowed.
    pub fn borrow(&mut self) -> (r: bool)
        requires
            old(self).wf(),
            old(self).shared() < AtomicBorrow::SHARED_MASK,
        ensures
            final(self).wf(),
            r == !old(self).unique_held(),
            r ==> final(self).shared() == old(self).shared() + 1
                && !final(self).unique_held(),
            !r ==> *final(self) == *old(self),
    {
        let prev: usize = self.borrow;
        proof {
            lemma_word_parts(prev);
            lemma_unique_mask_parts();
            if prev & Self::UNIQUE_MASK == 0 {
                lemma_shared_increment(prev);
            }
        }
        self.borrow = prev + 1;

        if prev & Self::UNIQUE_MASK != 0 {
            // the word is uniquely borrowed, so undo the increment
            self.borrow = self.borrow - 1;
            false
        } else {
            true
        }
    }

    /// Tries to acquire a unique reference: succeeds exactly when the
    /// state is free, with no shared and no exclusive borrow outstanding.
    ///
    /// Returns `true` if the reference was acquired; on failure the state
    /// is left exactly as it was.
    pub fn borrow_mut(&mut self) -> (r: bool)
        requires
            old(self).wf(),
        ensures
            final(self).wf(),
            r == old(self).is_free(),
            r ==> final(self).unique_held() && final(self).shared() == 0,
            !r ==> *final(self) == *old(self),
    {
        proof {
            lemma_word_parts(self.borrow);
            lemma_unique_mask_parts();
        }
        if self.borrow == 0 {
            self.borrow = Self::UNIQUE_MASK;
            true
        } else {
            false
        }
    }

    /// Releases a shared reference: one shared borrower fewer is counted.
    ///
    /// At least one shared borrow must be outstanding and no exclusive
    /// one: releasing more often than was acquired, or releasing a shared
    /// borrow while the state is exclusively held, is a misuse the caller
    /// must rule out.
    pub fn release(&mut self)
        requires
            old(self).wf(),
            old(self).shared() >= 1,
            !old(self).unique_held(),
        ensures
            final(self).wf(),
            final(self).shared() == old(self).shared() - 1,
            !final(self).unique_held(),
    {
        proof {
            lemma_shared_decrement(self.borrow);
        }
        self.borrow = self.borrow - 1;
    }

    /// Releases a unique reference: the exclusive bit is cleared and the
    /// state is free again.
    ///
    /// An exclusive borrow must be outstanding: releasing one that was
    /// never acquired is a misuse the caller must rule out.
    pub fn release_mut(&mut self)
        requires
            old(self).wf(),
            old(self).unique_held(),
        ensures
            final(self).wf(),
            final(self).is_free(),
    {
        proof {
            lemma_unique_clear(self.borrow);
        }
        self.borrow = self.borrow & Self::SHARED_MASK;
    }
}

/// The two projections determine the whole state: two states that agree
/// on the shared count and on the exclusive flag are the same bit
/// pattern, well formed or not.
pub proof fn lemma_projections_determine_state(a: AtomicBorrow, b: AtomicBorrow)
    requires
        a.shared() == b.shared(),
        a.unique_held() == b.unique_held(),
    ensures
        a == b,
{
    lemma_word_parts(a.borrow);
    lemma_word_parts(b.borrow);
    assert(a.borrow == b.borrow);
}

/// [`AtomicBorrow::with_shared`] holds what its name says, for any count
/// the shared bits can carry.
pub proof fn lemma_with_shared(n: usize)
    requires
        n <= AtomicBorrow::SHARED_MASK,
    ensures
        AtomicBorrow::with_shared(n).shared() == n,
        !AtomicBorrow::with_shared(n).unique_held(),
        AtomicBorrow::with_shared(n).wf(),
{
    assert(n <= !0usize >> 1 ==> n & (!0usize >> 1) == n) by (bit_vector);
    lemma_unique_clear(n);
}

/// The shared count's capacity is at least that of a 32-bit word: enough
/// to discharge the capacity precondition of [`AtomicBorrow::borrow`] for
/// any count a caller keeps track of concretely.
pub proof fn lemma_capacity_lower_bound()
    by (bit_vector)
    ensures
        AtomicBorrow::SHARED_MASK >= 0x7fff_ffff,
{
}

/// Any word splits into its shared bits and its unique bit, and the unique
/// part is either zero or exactly the unique mask.
proof fn lemma_word_parts(w: usize)
    by (bit_vector)
    ensures
        w == (w & (!0usize >> 1)) + (w & !(!0usize >> 1)),
        (w & !(!0usize >> 1)) == 0 || (w & !(!0usize >> 1)) == !(!0usize >> 1),
        w & (!0usize >> 1) <= !0usize >> 1,
{
}

/// The unique mask is a single set bit, disjoint from the shared mask.
proof fn lemma_unique_mask_parts()
    by (bit_vector)
    ensures
        !(!0usize >> 1) & (!0usize >> 1) == 0,
        !(!0usize >> 1) & !(!0usize >> 1) == !(!0usize >> 1),
        !(!0usize >> 1) != 0,
        !(!0usize >> 1) < !0usize,
        0usize & (!0usize >> 1) == 0,
        0usize & !(!0usize >> 1) == 0,
{
}

/// Incrementing a word with a clear unique bit and a shared count below
/// the capacity adds one to the count and leaves the unique bit clear.
proof fn lemma_shared_increment(w: usize)
    by (bit_vector)
    requires
        w & !(!0usize >> 1) == 0,
        w & (!0usize >> 1) < !0usize >> 1,
    ensures
        w < !0usize >> 1,
        ((w + 1) as usize) & (!0usize >> 1) == (w & (!0usize >> 1)) + 1,
        ((w + 1) as usize) & !(!0usize >> 1) == 0,
{
}

/// Decrementing a word with a clear unique bit and a positive shared
/// count subtracts one from the count and leaves the unique bit clear.
proof fn lemma_shared_decrement(w: usize)
    by (bit_vector)
    requires
        w & !(!0usize >> 1) == 0,
        w & (!0usize >> 1) >= 1,
    ensures
        w >= 1,
        ((w - 1) as usize) & (!0usize >> 1) == (w & (!0usize >> 1)) - 1,
        ((w - 1) as usize) & !(!0usize >> 1) == 0,
{
}

/// Masking a word with the shared mask clears the unique bit and keeps
/// the shared count.
proof fn lemma_unique_clear(w: usize)
    by (bit_vector)
    ensures
        (w & (!0usize >> 1)) & !(!0usize >> 1) == 0,
        (w & (!0usize >> 1)) & (!0usize >> 1) == w & (!0usize >> 1),
{
}

} // verus!
