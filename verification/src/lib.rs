//! A runtime borrow tracker: a single machine word that enforces, at run
//! time, the exclusivity rules of a shared/exclusive reference pair — any
//! number of readers or exactly one writer, never both.
//!
//! [`AtomicBorrow`] holds the word and carries a proved contract on every
//! transition; [`SharedGuard`] and [`UniqueGuard`] pair an acquired borrow
//! with the data it protects; the laws state and prove what whole
//! sequences of acquisitions and releases do to the state.

mod guard;
mod laws;
mod state;

pub use guard::SharedGuard;
pub use guard::UniqueGuard;
pub use laws::acquisitions;
pub use laws::lemma_acquisitions_reach_capacity;
pub use laws::lemma_shared_only_trace;
pub use laws::lemma_shared_round_trip;
pub use laws::lemma_unique_round_trip;
pub use laws::releases;
pub use laws::shared_step;
pub use state::AtomicBorrow;
pub use state::lemma_capacity_lower_bound;
pub use state::lemma_projections_determine_state;
pub use state::lemma_with_shared;
