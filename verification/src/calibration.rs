//! The rolling sample window of the online calibrator: the calibrator keeps
//! the latest samples it was given and refits its model on the newest of them.

use std::collections::VecDeque;
use vstd::prelude::*;

verus! {

/// Largest number of samples that the window keeps.
pub const WINDOW_SIZE: usize = 200;

/// Fewest samples in the window before the model is refitted.
pub const MIN_SAMPLES_FOR_UPDATE: usize = 10;

/// Largest number of samples that one refit runs over.
pub const UPDATE_BATCH: usize = 50;

/// The latest `WINDOW_SIZE` samples of a history, in the order they arrived.
pub open spec fn windowed<T>(history: Seq<T>) -> Seq<T> {
    if history.len() > WINDOW_SIZE {
        history.skip(history.len() - WINDOW_SIZE)
    } else {
        history
    }
}

/// The samples that one refit runs over: the newest `UPDATE_BATCH` of the
/// window, newest first.
pub open spec fn update_batch<T>(window: Seq<T>) -> Seq<T> {
    let n = if window.len() < UPDATE_BATCH { window.len() } else { UPDATE_BATCH as nat };
    Seq::new(n, |i: int| window[window.len() - 1 - i])
}

/// The latest samples given to the calibrator, oldest first, never more than
/// `WINDOW_SIZE` of them.
pub struct SampleWindow<T> {
    samples: VecDeque<T>,
}

impl<T> View for SampleWindow<T> {
    type V = Seq<T>;

    closed spec fn view(&self) -> Seq<T> {
        self.samples@
    }
}

impl<T> SampleWindow<T> {
    /// The window never holds more than `WINDOW_SIZE` samples.
    #[verifier::type_invariant]
    closed spec fn within_capacity(self) -> bool {
        self.samples@.len() <= WINDOW_SIZE
    }

    /// An empty window with room for `WINDOW_SIZE` samples.
    pub fn new() -> (w: Self)
        ensures
            w@ == Seq::<T>::empty(),
    {
        SampleWindow { samples: VecDeque::with_capacity(WINDOW_SIZE) }
    }

    /// Number of samples in the window.
    pub fn len(&self) -> (n: usize)
        ensures
            n == self@.len(),
            n <= WINDOW_SIZE,
    {
        proof {
            use_type_invariant(self);
        }
        self.samples.len()
    }

    /// Appends the newest sample; when the window is already full, the
    /// oldest sample leaves it.
    pub fn push(&mut self, sample: T)
        ensures
            final(self)@ == windowed(old(self)@.push(sample)),
    {
        proof {
            use_type_invariant(&*self);
        }
        let mut samples = VecDeque::new();
        std::mem::swap(&mut samples, &mut self.samples);
        let ghost before = samples@;
        samples.push_back(sample);
        if samples.len() > WINDOW_SIZE {
            let _ = samples.pop_front();
            assert(samples@ =~= before.push(sample).skip(1));
        }
        self.samples = samples;
    }

    /// Whether the window holds enough samples for a refit.
    pub fn ready_for_update(&self) -> (ready: bool)
        ensures
            ready == (self@.len() >= MIN_SAMPLES_FOR_UPDATE),
    {
        self.samples.len() >= MIN_SAMPLES_FOR_UPDATE
    }

    /// The samples of one refit: the newest `UPDATE_BATCH` samples of the
    /// window, newest first.
    pub fn newest_first(&self) -> (batch: Vec<&T>)
        ensures
            batch@.len() == update_batch(self@).len(),
            forall|i: int| 0 <= i < batch@.len() ==> *#[trigger] batch@[i] == update_batch(self@)[i],
            batch@.len() == if self@.len() < UPDATE_BATCH { self@.len() } else { UPDATE_BATCH as nat },
            forall|i: int| 0 <= i < batch@.len() ==> *#[trigger] batch@[i] == self@[self@.len() - 1 - i],
    {
        let len = self.samples.len();
        let n = if len < UPDATE_BATCH { len } else { UPDATE_BATCH };
        let mut batch: Vec<&T> = Vec::new();
        let mut i: usize = 0;
        while i < n
            invariant
                len == self@.len(),
                n <= len,
                n == update_batch(self@).len(),
                i <= n,
                batch@.len() == i,
                forall|j: int| 0 <= j < i ==> *#[trigger] batch@[j] == update_batch(self@)[j],
            decreases n - i,
        {
            batch.push(&self.samples[len - 1 - i]);
            i = i + 1;
        }
        batch
    }
}

impl<T: Clone> Clone for SampleWindow<T> {
    /// A window holding clones of the same samples, in the same order.
    fn clone(&self) -> (res: Self)
        ensures
            res@.len() == self@.len(),
            forall|i: int| 0 <= i < self@.len() ==> cloned::<T>(#[trigger] self@[i], res@[i]),
    {
        proof {
            use_type_invariant(self);
        }
        SampleWindow { samples: self.samples.clone() }
    }
}

/// A refit runs over every sample of a window that holds fewer than
/// `UPDATE_BATCH` samples and over exactly `UPDATE_BATCH` samples otherwise;
/// the first sample of the batch is the newest of the window, each next one
/// the sample that arrived just before.
pub proof fn lemma_update_batch_is_newest_first<T>(window: Seq<T>)
    ensures
        update_batch(window).len() == if window.len() < UPDATE_BATCH {
            window.len()
        } else {
            UPDATE_BATCH as nat
        },
        window.len() < UPDATE_BATCH ==> update_batch(window) == window.reverse(),
        forall|i: int|
            0 <= i < update_batch(window).len() ==> #[trigger] update_batch(window)[i] == window[window.len()
                - 1 - i],
{
    if window.len() < UPDATE_BATCH {
        assert(update_batch(window) =~= window.reverse());
    }
}

/// The window of a history is its latest samples: all of them while there
/// are at most `WINDOW_SIZE`, else exactly the last `WINDOW_SIZE`, in the
/// order they arrived.
pub proof fn lemma_windowed_is_latest<T>(history: Seq<T>)
    ensures
        windowed(history).len() == if history.len() <= WINDOW_SIZE {
            history.len()
        } else {
            WINDOW_SIZE as nat
        },
        forall|i: int|
            0 <= i < windowed(history).len() ==> #[trigger] windowed(history)[i] == history[history.len()
                - windowed(history).len() + i],
{
}

/// The window holds the latest samples: pushing a sample onto the window of
/// a history gives the window of that history extended by the sample. So,
/// from an empty window, the window after any run of pushes is the latest
/// `WINDOW_SIZE` samples pushed, in the order they arrived.
pub proof fn lemma_window_holds_latest<T>(history: Seq<T>, sample: T)
    ensures
        windowed(windowed(history).push(sample)) == windowed(history.push(sample)),
{
    let w = windowed(history);
    if history.len() > WINDOW_SIZE {
        assert(windowed(w.push(sample)) =~= windowed(history.push(sample)));
    } else {
        assert(w =~= history);
    }
}

} // verus!
