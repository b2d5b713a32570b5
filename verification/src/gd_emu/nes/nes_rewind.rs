use vstd::prelude::*;
use std::collections::VecDeque;

verus! {

/// Save-state checkpoints every `checkpoint_interval` frames and the input
/// of every frame since the oldest of them: rewinding loads the nearest
/// earlier checkpoint and replays the inputs after it.
pub struct RewindBuffer {
    pub checkpoints: VecDeque<(u64, Vec<u8>)>,
    pub checkpoint_interval: u64,
    pub max_checkpoints: usize,
    pub input_history: VecDeque<(u64, u16)>,
    pub max_input_history: usize,
}

/// The last `max` entries of `s` (all of it when shorter).
pub open spec fn keep_last<T>(s: Seq<T>, max: nat) -> Seq<T> {
    if s.len() > max { s.subrange(s.len() - max, s.len() as int) } else { s }
}

/// The entries of `s` stamped at or before `frame`, in order.
pub open spec fn keep_upto<T>(s: Seq<(u64, T)>, frame: u64) -> Seq<(u64, T)>
    decreases s.len(),
{
    if s.len() == 0 {
        s
    } else {
        let rest = keep_upto(s.drop_last(), frame);
        if s.last().0 <= frame { rest.push(s.last()) } else { rest }
    }
}

/// The inputs of the frames after `after` up to and including `upto`, in
/// order.
pub open spec fn inputs_in(s: Seq<(u64, u16)>, after: u64, upto: u64) -> Seq<u16>
    decreases s.len(),
{
    if s.len() == 0 {
        Seq::empty()
    } else {
        let rest = inputs_in(s.drop_last(), after, upto);
        if after < s.last().0 && s.last().0 <= upto { rest.push(s.last().1) } else { rest }
    }
}

/// Drops entries from the front until at most `max` are left.
fn trim_front<T>(q: &mut VecDeque<T>, max: usize)
    ensures
        final(q)@ == keep_last(old(q)@, max as nat),
{
    let ghost h = q@;
    while q.len() > max
        invariant
            h.len() >= q@.len(),
            q@ == h.subrange(h.len() - q@.len(), h.len() as int),
            q@.len() >= max || q@.len() == h.len(),
        decreases q@.len(),
    {
        q.pop_front();
    }
    assert(q@ == keep_last(h, max as nat));
}

impl RewindBuffer {
    pub open spec fn wf(&self) -> bool {
        self.checkpoint_interval > 0
    }

    /// `max_input_history` covers all checkpoints plus one interval.
    pub fn new(checkpoint_interval: u64, max_checkpoints: usize) -> (r: Self)
        requires
            checkpoint_interval * max_checkpoints + checkpoint_interval <= usize::MAX,
        ensures
            r.checkpoints@ == Seq::<(u64, Vec<u8>)>::empty(),
            r.input_history@ == Seq::<(u64, u16)>::empty(),
            r.checkpoint_interval == checkpoint_interval,
            r.max_checkpoints == max_checkpoints,
            r.max_input_history == checkpoint_interval * max_checkpoints + checkpoint_interval,
    {
        proof {
            vstd::arithmetic::mul::lemma_mul_upper_bound(checkpoint_interval as int, checkpoint_interval as int,
                max_checkpoints as int, max_checkpoints as int);
        }
        let interval = checkpoint_interval as usize;
        let max_input_history = (interval * max_checkpoints) + interval;
        Self {
            checkpoints: VecDeque::with_capacity(max_checkpoints),
            checkpoint_interval,
            max_checkpoints,
            input_history: VecDeque::with_capacity(max_input_history),
            max_input_history,
        }
    }

    /// Once per completed frame: records its input, and every
    /// `checkpoint_interval` frames a checkpoint taken by `snapshot`; both
    /// histories keep only their newest entries.
    pub fn record_frame<F: FnOnce() -> Vec<u8>>(&mut self, frame_number: u64, input_mask: u16, snapshot: F)
        requires
            old(self).wf(),
            snapshot.requires(()),
        ensures
            final(self).wf(),
            final(self).input_history@ == keep_last(old(self).input_history@.push((frame_number, input_mask)),
                old(self).max_input_history as nat),
            frame_number % old(self).checkpoint_interval != 0 ==> final(self).checkpoints@ == old(self).checkpoints@,
            frame_number % old(self).checkpoint_interval == 0 ==> exists|b: Vec<u8>| snapshot.ensures((), b)
                && final(self).checkpoints@ == #[trigger] keep_last(old(self).checkpoints@.push((frame_number, b)),
                old(self).max_checkpoints as nat),
            final(self).checkpoint_interval == old(self).checkpoint_interval,
            final(self).max_checkpoints == old(self).max_checkpoints,
            final(self).max_input_history == old(self).max_input_history,
    {
        self.input_history.push_back((frame_number, input_mask));
        trim_front(&mut self.input_history, self.max_input_history);
        if frame_number % self.checkpoint_interval == 0 {
            let bytes = snapshot();
            self.checkpoints.push_back((frame_number, bytes));
            trim_front(&mut self.checkpoints, self.max_checkpoints);
        }
    }

    /// The newest checkpoint stamped at or before `target_frame`, as an
    /// index into `checkpoints`.
    pub fn checkpoint_for(&self, target_frame: u64) -> (r: Option<usize>)
        ensures
            r matches Some(i) ==> i < self.checkpoints@.len() && self.checkpoints@[i as int].0 <= target_frame
                && forall|j: int| i < j < self.checkpoints@.len() ==> #[trigger] self.checkpoints@[j].0 > target_frame,
            r is None ==> forall|j: int| 0 <= j < self.checkpoints@.len() ==> #[trigger] self.checkpoints@[j].0 > target_frame,
    {
        let mut j = self.checkpoints.len();
        while j > 0
            invariant
                j <= self.checkpoints@.len(),
                forall|k: int| j <= k < self.checkpoints@.len() ==> #[trigger] self.checkpoints@[k].0 > target_frame,
            decreases j,
        {
            j = j - 1;
            if self.checkpoints[j].0 <= target_frame {
                return Some(j);
            }
        }
        None
    }

    /// The inputs to replay from a checkpoint at `checkpoint_frame` up to
    /// `target_frame`.
    pub fn inputs_between(&self, checkpoint_frame: u64, target_frame: u64) -> (r: Vec<u16>)
        ensures
            r@ == inputs_in(self.input_history@, checkpoint_frame, target_frame),
    {
        let mut out: Vec<u16> = Vec::new();
        let n = self.input_history.len();
        let mut i: usize = 0;
        while i < n
            invariant
                n == self.input_history@.len(),
                i <= n,
                out@ == inputs_in(self.input_history@.take(i as int), checkpoint_frame, target_frame),
            decreases n - i,
        {
            let (f, input) = self.input_history[i];
            assert(self.input_history@.take(i as int + 1).drop_last() == self.input_history@.take(i as int));
            if f > checkpoint_frame && f <= target_frame {
                out.push(input);
            }
            i = i + 1;
        }
        assert(self.input_history@.take(n as int) == self.input_history@);
        out
    }

    /// Forgets everything recorded after `frame`.
    pub fn truncate_after(&mut self, frame: u64)
        ensures
            final(self).checkpoints@ == keep_upto(old(self).checkpoints@, frame),
            final(self).input_history@ == keep_upto(old(self).input_history@, frame),
            final(self).checkpoint_interval == old(self).checkpoint_interval,
            final(self).max_checkpoints == old(self).max_checkpoints,
            final(self).max_input_history == old(self).max_input_history,
    {
        let ghost c0 = self.checkpoints@;
        let n0 = self.checkpoints.len();
        let mut kept: VecDeque<(u64, Vec<u8>)> = VecDeque::new();
        let mut k: usize = 0;
        while self.checkpoints.len() > 0
            invariant
                c0.len() == n0,
                k <= c0.len(),
                self.input_history@ == old(self).input_history@,
                self.checkpoint_interval == old(self).checkpoint_interval,
                self.max_checkpoints == old(self).max_checkpoints,
                self.max_input_history == old(self).max_input_history,
                self.checkpoints@ == c0.subrange(k as int, c0.len() as int),
                kept@ == keep_upto(c0.take(k as int), frame),
            decreases self.checkpoints@.len(),
        {
            let e = self.checkpoints.pop_front().unwrap();
            assert(c0.take(k as int + 1).drop_last() == c0.take(k as int));
            if e.0 <= frame {
                kept.push_back(e);
            }
            k = k + 1;
        }
        assert(c0.take(k as int) == c0);
        self.checkpoints = kept;
        let ghost h0 = self.input_history@;
        let m0 = self.input_history.len();
        let mut kept_inputs: VecDeque<(u64, u16)> = VecDeque::new();
        let mut m: usize = 0;
        while self.input_history.len() > 0
            invariant
                h0.len() == m0,
                m <= h0.len(),
                h0 == old(self).input_history@,
                self.checkpoints@ == keep_upto(old(self).checkpoints@, frame),
                self.checkpoint_interval == old(self).checkpoint_interval,
                self.max_checkpoints == old(self).max_checkpoints,
                self.max_input_history == old(self).max_input_history,
                self.input_history@ == h0.subrange(m as int, h0.len() as int),
                kept_inputs@ == keep_upto(h0.take(m as int), frame),
            decreases self.input_history@.len(),
        {
            let e = self.input_history.pop_front().unwrap();
            assert(h0.take(m as int + 1).drop_last() == h0.take(m as int));
            if e.0 <= frame {
                kept_inputs.push_back(e);
            }
            m = m + 1;
        }
        assert(h0.take(m as int) == h0);
        self.input_history = kept_inputs;
    }

    /// The furthest back a rewind can reach: the oldest checkpoint.
    pub fn oldest_available_frame(&self) -> (r: Option<u64>)
        ensures
            r == (if self.checkpoints@.len() == 0 { None } else { Some(self.checkpoints@[0].0) }),
    {
        if self.checkpoints.len() == 0 {
            None
        } else {
            Some(self.checkpoints[0].0)
        }
    }

    pub fn clear(&mut self)
        ensures
            final(self).checkpoints@ == Seq::<(u64, Vec<u8>)>::empty(),
            final(self).input_history@ == Seq::<(u64, u16)>::empty(),
            final(self).checkpoint_interval == old(self).checkpoint_interval,
            final(self).max_checkpoints == old(self).max_checkpoints,
            final(self).max_input_history == old(self).max_input_history,
    {
        self.checkpoints.clear();
        self.input_history.clear();
    }
}

impl Default for RewindBuffer {
    /// A checkpoint every 60 frames, 60 of them, and 61 intervals of input.
    fn default() -> (r: Self)
        ensures
            r.checkpoints@ == Seq::<(u64, Vec<u8>)>::empty(),
            r.input_history@ == Seq::<(u64, u16)>::empty(),
            r.checkpoint_interval == 60,
            r.max_checkpoints == 60,
            r.max_input_history == 3660,
    {
        Self {
            checkpoints: VecDeque::new(),
            checkpoint_interval: 60,
            max_checkpoints: 60,
            input_history: VecDeque::new(),
            max_input_history: 3660,
        }
    }
}

} // verus!
