//! The sliding window, the reference template and the correlation engine.
//!
//! Samples are raw fixed-point amplitudes (`i32`).  A correlation score is the
//! exact rational `dot / norm`, carried as its integer numerator and
//! denominator, where `dot` is the dot product of the current window with the
//! template and `norm` is the template's energy (its dot product with itself).

use vstd::prelude::*;

verus! {

/// The largest template length the engine accepts.  Together with the sample
/// range this keeps every dot product inside `i128`.
pub const MAX_TEMPLATE_LEN: usize = 0x8000_0000;

/// The largest magnitude a product of two samples can have (`2^31 * 2^31`).
pub const MAX_SAMPLE_PRODUCT: i128 = 0x4000_0000_0000_0000;

/// The largest magnitude a dot product over an accepted template can have
/// (`MAX_TEMPLATE_LEN * MAX_SAMPLE_PRODUCT`).
pub const MAX_ENERGY: i128 = 0x8000_0000 * 0x4000_0000_0000_0000;

/// The dot product of the first `n` positions of `a` and `b`.
pub open spec fn dot_to(a: Seq<i32>, b: Seq<i32>, n: int) -> int
    recommends
        n <= a.len(),
        n <= b.len(),
    decreases n,
{
    if n <= 0 {
        0
    } else {
        dot_to(a, b, n - 1) + (a[n - 1] as int) * (b[n - 1] as int)
    }
}

/// The dot product of two equally long sample sequences.
pub open spec fn dot(a: Seq<i32>, b: Seq<i32>) -> int
    recommends
        a.len() == b.len(),
{
    dot_to(a, b, a.len() as int)
}

/// The energy of a sample sequence: the sum of the squares of its samples.
pub open spec fn energy(s: Seq<i32>) -> int {
    dot(s, s)
}

/// An all-zero sequence of the given length.
pub open spec fn zeros(n: nat) -> Seq<i32> {
    Seq::new(n, |i: int| 0i32)
}

/// The concatenation of a sequence of chunks, in order.
pub open spec fn concat_chunks(chunks: Seq<Seq<i32>>) -> Seq<i32>
    decreases chunks.len(),
{
    if chunks.len() == 0 {
        Seq::empty()
    } else {
        concat_chunks(chunks.drop_last()) + chunks.last()
    }
}

/// The window contents after the chunks have been pushed, in order, into a
/// window that starts as `w0`.
pub open spec fn window_after(w0: Seq<i32>, chunks: Seq<Seq<i32>>) -> Seq<i32>
    decreases chunks.len(),
{
    if chunks.len() == 0 {
        w0
    } else {
        let prev = window_after(w0, chunks.drop_last());
        (prev + chunks.last()).skip(chunks.last().len() as int)
    }
}

/// However the stream is cut into chunks, the window always keeps its length
/// and holds exactly the last `w0.len()` samples of everything pushed, oldest
/// first (still preceded by a tail of the initial contents while fewer than
/// `w0.len()` samples have arrived).
pub proof fn lemma_window_holds_last_samples(w0: Seq<i32>, chunks: Seq<Seq<i32>>)
    ensures
        window_after(w0, chunks).len() == w0.len(),
        window_after(w0, chunks) == (w0 + concat_chunks(chunks)).skip(
            concat_chunks(chunks).len() as int,
        ),
    decreases chunks.len(),
{
    if chunks.len() == 0 {
        assert(window_after(w0, chunks) =~= (w0 + concat_chunks(chunks)).skip(
            concat_chunks(chunks).len() as int,
        ));
    } else {
        lemma_window_holds_last_samples(w0, chunks.drop_last());
        assert(window_after(w0, chunks) =~= (w0 + concat_chunks(chunks)).skip(
            concat_chunks(chunks).len() as int,
        ));
    }
}

/// A product of two samples stays within `MAX_SAMPLE_PRODUCT`.
proof fn lemma_sample_product_bound(a: i32, b: i32)
    ensures
        -MAX_SAMPLE_PRODUCT <= (a as int) * (b as int) <= MAX_SAMPLE_PRODUCT,
{
    assert(-0x4000_0000_0000_0000 <= (a as int) * (b as int) <= 0x4000_0000_0000_0000)
        by (nonlinear_arith)
        requires
            -0x8000_0000 <= (a as int) && (a as int) <= 0x7fff_ffff,
            -0x8000_0000 <= (b as int) && (b as int) <= 0x7fff_ffff,
    ;
}

/// A partial dot product over `n` positions stays within `n` sample products.
proof fn lemma_dot_to_bound(a: Seq<i32>, b: Seq<i32>, n: int)
    requires
        0 <= n <= a.len(),
        n <= b.len(),
    ensures
        -n * MAX_SAMPLE_PRODUCT <= dot_to(a, b, n) <= n * MAX_SAMPLE_PRODUCT,
    decreases n,
{
    if n > 0 {
        lemma_dot_to_bound(a, b, n - 1);
        lemma_sample_product_bound(a[n - 1], b[n - 1]);
    }
}

/// A square is never negative, so partial energies only grow.
proof fn lemma_energy_to_nonneg(s: Seq<i32>, n: int)
    requires
        0 <= n <= s.len(),
    ensures
        dot_to(s, s, n) >= 0,
    decreases n,
{
    if n > 0 {
        lemma_energy_to_nonneg(s, n - 1);
        assert((s[n - 1] as int) * (s[n - 1] as int) >= 0) by (nonlinear_arith);
    }
}

/// A dot product over an accepted template length fits under `MAX_ENERGY`.
proof fn lemma_dot_fits(a: Seq<i32>, b: Seq<i32>)
    requires
        a.len() == b.len(),
        a.len() <= MAX_TEMPLATE_LEN,
    ensures
        -MAX_ENERGY <= dot(a, b) <= MAX_ENERGY,
{
    let n = a.len() as int;
    lemma_dot_to_bound(a, b, n);
    assert(n * MAX_SAMPLE_PRODUCT <= MAX_ENERGY) by (nonlinear_arith)
        requires
            0 <= n <= 0x8000_0000,
            MAX_SAMPLE_PRODUCT == 0x4000_0000_0000_0000,
            MAX_ENERGY == 0x8000_0000 * 0x4000_0000_0000_0000,
    ;
}

/// A window identical to the template correlates to exactly its energy: the
/// score is exactly one whenever template and window hold the same samples.
pub proof fn lemma_matched_window_score(w: Seq<i32>, t: Seq<i32>)
    requires
        w == t,
    ensures
        dot(w, t) == energy(t),
        spec_score_of(w, t).is_one(),
{
}

/// An all-zero window correlates to exactly zero, whatever the template.
pub proof fn lemma_zero_window_score(t: Seq<i32>)
    ensures
        dot(zeros(t.len()), t) == 0,
        spec_score_of(zeros(t.len()), t).is_zero(),
{
    lemma_zero_window_dot_to(t, t.len() as int);
}

proof fn lemma_zero_window_dot_to(t: Seq<i32>, n: int)
    requires
        0 <= n <= t.len(),
    ensures
        dot_to(zeros(t.len()), t, n) == 0,
    decreases n,
{
    if n > 0 {
        lemma_zero_window_dot_to(t, n - 1);
    }
}

/// One correlation score: the exact rational `dot / norm`.
///
/// `norm` is the energy of the template the score was measured against, so it
/// is positive; a score of exactly one has `dot == norm` and an all-zero
/// window scores `dot == 0`.
#[derive(Clone, Copy, Debug, PartialEq, Eq, Structural)]
pub struct CorrelationScore {
    pub dot: i128,
    pub norm: i128,
}

impl CorrelationScore {
    /// Both components are in the range a bounded template can produce, and
    /// the denominator is a genuine energy: positive.
    pub open spec fn wf(self) -> bool {
        &&& 0 < self.norm <= MAX_ENERGY
        &&& -MAX_ENERGY <= self.dot <= MAX_ENERGY
    }

    /// The score is exactly one.
    pub open spec fn is_one(self) -> bool {
        self.dot == self.norm
    }

    /// The score is exactly zero.
    pub open spec fn is_zero(self) -> bool {
        self.dot == 0
    }
}

/// A detection threshold, the exact rational `num / den`.
#[derive(Clone, Copy, Debug, PartialEq, Eq, Structural)]
pub struct Threshold {
    pub num: u32,
    pub den: u32,
}

impl Threshold {
    /// The denominator must be positive for the ratio to mean anything.
    pub open spec fn wf(self) -> bool {
        self.den > 0
    }

    /// A threshold of `num / den`.
    pub fn new(num: u32, den: u32) -> (t: Threshold)
        requires
            den > 0,
        ensures
            t == (Threshold { num, den }),
    {
        Threshold { num, den }
    }
}

/// The score a window yields against a template: the exact dot product over
/// the template's energy.
pub open spec fn spec_score_of(window: Seq<i32>, template: Seq<i32>) -> CorrelationScore {
    CorrelationScore { dot: dot(window, template) as i128, norm: energy(template) as i128 }
}

/// `score > threshold` as exact rationals: both denominators are positive, so
/// the comparison cross-multiplies without changing direction.
pub open spec fn exceeds(score: CorrelationScore, threshold: Threshold) -> bool {
    (score.dot as int) * (threshold.den as int) > (threshold.num as int) * (score.norm as int)
}

/// The reasons a reference template can be rejected at construction.
#[derive(Clone, Copy, Debug, PartialEq, Eq, Structural)]
pub enum TemplateError {
    /// The template holds no samples at all.
    Empty,
    /// The template is longer than `MAX_TEMPLATE_LEN`.
    TooLong,
    /// Every sample is zero, so the template's energy is zero and correlation
    /// against it is undefined.
    Silent,
}

/// The fixed waveform being matched, with its energy precomputed.
#[derive(Debug)]
pub struct Target {
    samples: Vec<i32>,
    norm: i128,
}

impl View for Target {
    type V = Seq<i32>;

    closed spec fn view(&self) -> Seq<i32> {
        self.samples@
    }
}

impl Target {
    /// The template is non-empty, not longer than the engine accepts, and its
    /// stored norm is its energy, which is positive.
    pub open spec fn wf(self) -> bool {
        &&& 0 < self@.len() <= MAX_TEMPLATE_LEN
        &&& self.spec_norm() == energy(self@)
        &&& self.spec_norm() > 0
    }

    /// The template's precomputed energy.
    pub closed spec fn spec_norm(self) -> i128 {
        self.norm
    }

    /// Builds a template from its samples, rejecting one that is empty, too
    /// long, or silent (zero energy), and precomputing the energy otherwise.
    pub fn new(samples: Vec<i32>) -> (r: Result<Target, TemplateError>)
        ensures
            match r {
                Ok(t) => {
                    &&& t@ == samples@
                    &&& t.wf()
                    &&& t.spec_norm() == energy(samples@)
                },
                Err(e) => match e {
                    TemplateError::Empty => samples@.len() == 0,
                    TemplateError::TooLong => samples@.len() > MAX_TEMPLATE_LEN,
                    TemplateError::Silent => {
                        &&& 0 < samples@.len() <= MAX_TEMPLATE_LEN
                        &&& energy(samples@) == 0
                    },
                },
            },
    {
        let n = samples.len();
        if n == 0 {
            return Err(TemplateError::Empty);
        }
        if n > MAX_TEMPLATE_LEN {
            return Err(TemplateError::TooLong);
        }
        let ghost s = samples@;
        let mut norm: i128 = 0;
        let mut i: usize = 0;
        while i < n
            invariant
                i <= n,
                n == s.len() <= MAX_TEMPLATE_LEN,
                samples@ == s,
                norm == dot_to(s, s, i as int),
                0 <= norm <= (i as int) * MAX_SAMPLE_PRODUCT,
            decreases n - i,
        {
            let x = samples[i];
            proof {
                lemma_sample_product_bound(x, x);
                lemma_energy_to_nonneg(s, i + 1);
                assert((i as int) * MAX_SAMPLE_PRODUCT + MAX_SAMPLE_PRODUCT == (i + 1)
                    * MAX_SAMPLE_PRODUCT);
                assert((i + 1) * MAX_SAMPLE_PRODUCT <= 0x8000_0000 * MAX_SAMPLE_PRODUCT)
                    by (nonlinear_arith)
                    requires
                        0 <= i + 1 <= 0x8000_0000,
                        MAX_SAMPLE_PRODUCT == 0x4000_0000_0000_0000,
                ;
            }
            norm = norm + (x as i128) * (x as i128);
            i = i + 1;
        }
        if norm == 0 {
            return Err(TemplateError::Silent);
        }
        Ok(Target { samples, norm })
    }

    /// The template's sample count.
    pub fn len(&self) -> (n: usize)
        ensures
            n == self@.len(),
    {
        self.samples.len()
    }

    /// The template's precomputed energy.
    pub fn norm(&self) -> (norm: i128)
        ensures
            norm == self.spec_norm(),
    {
        self.norm
    }
}

/// The correlation engine: the sliding window plus the template it is matched
/// against, window length locked to the template length.
pub struct SignalProcessor {
    buffer: Buffer,
    target: Target,
}

impl SignalProcessor {
    /// The template is well formed, its precomputed energy is stored, and the
    /// window is exactly as long as it.
    pub open spec fn wf(self) -> bool {
        &&& 0 < self.template().len() <= MAX_TEMPLATE_LEN
        &&& self.spec_norm() == energy(self.template())
        &&& self.spec_norm() > 0
        &&& self.window().len() == self.template().len()
    }

    /// The precomputed energy of the template being matched.
    pub closed spec fn spec_norm(self) -> i128 {
        self.target.norm
    }

    /// The current window contents, oldest sample first.
    pub closed spec fn window(self) -> Seq<i32> {
        self.buffer@
    }

    /// The template being matched.
    pub closed spec fn template(self) -> Seq<i32> {
        self.target@
    }

    /// An engine whose window starts silent.
    pub fn new(target: Target) -> (p: SignalProcessor)
        requires
            target.wf(),
        ensures
            p.wf(),
            p.template() == target@,
            p.window() == zeros(target@.len()),
    {
        let capacity = target.len();
        SignalProcessor { buffer: Buffer::new(capacity), target }
    }

    /// Slides the chunk into the window; the window keeps its length and now
    /// ends with the chunk (or with the chunk's own tail, if the chunk is
    /// longer than the window).
    pub fn process_chunk(&mut self, chunk: &[i32])
        requires
            old(self).wf(),
        ensures
            final(self).wf(),
            final(self).template() == old(self).template(),
            final(self).window() == (old(self).window() + chunk@).skip(chunk@.len() as int),
    {
        self.buffer.process_chunk(chunk);
    }

    /// The current score: the dot product of window and template over the
    /// template's energy, both exact.
    pub fn compute_correlation(&self) -> (score: CorrelationScore)
        requires
            self.wf(),
        ensures
            score.dot == dot(self.window(), self.template()),
            score.norm == energy(self.template()),
            score == spec_score_of(self.window(), self.template()),
            score.wf(),
    {
        let ghost w = self.buffer@;
        let ghost t = self.target@;
        let n = self.target.len();
        let mut acc: i128 = 0;
        let mut i: usize = 0;
        while i < n
            invariant
                i <= n,
                n == w.len() == t.len(),
                n <= MAX_TEMPLATE_LEN,
                self.buffer@ == w,
                self.target@ == t,
                acc == dot_to(w, t, i as int),
                -(i as int) * MAX_SAMPLE_PRODUCT <= acc <= (i as int) * MAX_SAMPLE_PRODUCT,
            decreases n - i,
        {
            let a = self.buffer.get(i);
            let b = self.target.samples[i];
            proof {
                lemma_sample_product_bound(a, b);
                assert((i as int) * MAX_SAMPLE_PRODUCT + MAX_SAMPLE_PRODUCT == (i + 1)
                    * MAX_SAMPLE_PRODUCT);
                assert((i + 1) * MAX_SAMPLE_PRODUCT <= 0x8000_0000 * MAX_SAMPLE_PRODUCT)
                    by (nonlinear_arith)
                    requires
                        0 <= i + 1 <= 0x8000_0000,
                        MAX_SAMPLE_PRODUCT == 0x4000_0000_0000_0000,
                ;
            }
            acc = acc + (a as i128) * (b as i128);
            i = i + 1;
        }
        proof {
            lemma_dot_fits(w, t);
            lemma_energy_to_nonneg(t, t.len() as int);
            lemma_dot_fits(t, t);
        }
        CorrelationScore { dot: acc, norm: self.target.norm() }
    }

    /// Emits an event exactly when the score strictly exceeds the threshold;
    /// the emitted event carries the triggering score.  At or below the
    /// threshold nothing is emitted, and there is no hysteresis: each call
    /// decides from its score alone.
    pub fn determine_event(correlation: CorrelationScore, threshold: &Threshold) -> (r: Option<
        crate::event::FroskEvent,
    >)
        requires
            correlation.wf(),
            threshold.wf(),
        ensures
            match r {
                Some(e) => {
                    &&& exceeds(correlation, *threshold)
                    &&& e == (crate::event::FroskEvent::FishBite { score: correlation })
                },
                None => !exceeds(correlation, *threshold),
            },
    {
        proof {
            lemma_score_threshold_products_fit(correlation, *threshold);
        }
        if correlation.dot * (threshold.den as i128) > (threshold.num as i128) * correlation.norm {
            return Some(crate::event::FroskEvent::FishBite { score: correlation });
        }
        None
    }
}

/// The cross-multiplied comparison of a well-formed score against a threshold
/// stays inside `i128`.
proof fn lemma_score_threshold_products_fit(score: CorrelationScore, threshold: Threshold)
    requires
        score.wf(),
        threshold.wf(),
    ensures
        -(i128::MAX as int) <= (score.dot as int) * (threshold.den as int) <= i128::MAX as int,
        -(i128::MAX as int) <= (threshold.num as int) * (score.norm as int) <= i128::MAX as int,
{
    assert(-(i128::MAX as int) <= (score.dot as int) * (threshold.den as int) <= i128::MAX as int)
        by (nonlinear_arith)
        requires
            -MAX_ENERGY <= (score.dot as int) && (score.dot as int) <= MAX_ENERGY,
            0 < (threshold.den as int) && (threshold.den as int) < 0x1_0000_0000,
            MAX_ENERGY == 0x8000_0000 * 0x4000_0000_0000_0000,
    ;
    assert(-(i128::MAX as int) <= (threshold.num as int) * (score.norm as int) <= i128::MAX as int)
        by (nonlinear_arith)
        requires
            0 < (score.norm as int) && (score.norm as int) <= MAX_ENERGY,
            0 <= (threshold.num as int) && (threshold.num as int) < 0x1_0000_0000,
            MAX_ENERGY == 0x8000_0000 * 0x4000_0000_0000_0000,
    ;
}

/// The fixed-capacity sliding window over the most recent samples.
///
/// The window's length is chosen at construction and never changes: every
/// newly inserted sample evicts the oldest one.  Its view is the current
/// contents in chronological order, oldest first.
pub struct Buffer {
    samples: std::collections::VecDeque<i32>,
}

impl View for Buffer {
    type V = Seq<i32>;

    closed spec fn view(&self) -> Seq<i32> {
        self.samples@
    }
}

impl Buffer {
    /// A window of `capacity` samples, initially silent.
    pub fn new(capacity: usize) -> (b: Buffer)
        requires
            capacity > 0,
        ensures
            b@ == zeros(capacity as nat),
    {
        let mut samples = std::collections::VecDeque::<i32>::with_capacity(capacity);
        let mut i: usize = 0;
        while i < capacity
            invariant
                i <= capacity,
                samples@ == zeros(i as nat),
            decreases capacity - i,
        {
            samples.push_back(0);
            proof {
                assert(samples@ =~= zeros((i + 1) as nat));
            }
            i = i + 1;
        }
        Buffer { samples }
    }

    /// The window's fixed length.
    pub fn len(&self) -> (n: usize)
        ensures
            n == self@.len(),
    {
        self.samples.len()
    }

    /// Appends the chunk's samples in order, evicting one oldest sample for
    /// each inserted one.  The new window is the last `len` samples of the old
    /// window followed by the chunk; a chunk longer than the window is valid
    /// and leaves only its own tail behind.
    pub fn process_chunk(&mut self, chunk: &[i32])
        requires
            old(self)@.len() > 0,
        ensures
            final(self)@ == (old(self)@ + chunk@).skip(chunk@.len() as int),
            final(self)@.len() == old(self)@.len(),
    {
        let n = chunk.len();
        let mut i: usize = 0;
        while i < n
            invariant
                i <= n,
                n == chunk@.len(),
                self@.len() == old(self)@.len() > 0,
                self@ == (old(self)@ + chunk@.take(i as int)).skip(i as int),
            decreases n - i,
        {
            let ghost prev = self@;
            let x = chunk[i];
            let _ = self.samples.pop_front();
            self.samples.push_back(x);
            proof {
                assert(self@ =~= prev.skip(1).push(chunk@[i as int]));
                assert(self@ =~= (old(self)@ + chunk@.take(i + 1)).skip(i + 1));
            }
            i = i + 1;
        }
        proof {
            assert(chunk@.take(n as int) == chunk@);
            assert(final(self)@ =~= (old(self)@ + chunk@).skip(chunk@.len() as int));
        }
    }

    /// The sample at position `i`, counted from the oldest retained sample.
    pub fn get(&self, i: usize) -> (x: i32)
        requires
            i < self@.len(),
        ensures
            x == self@[i as int],
    {
        self.samples[i]
    }

    /// The current contents in chronological order, oldest first.
    pub fn snapshot(&self) -> (r: Vec<i32>)
        ensures
            r@ == self@,
    {
        let n = self.samples.len();
        let mut r: Vec<i32> = Vec::with_capacity(n);
        let mut i: usize = 0;
        while i < n
            invariant
                i <= n,
                n == self@.len(),
                r@ == self@.take(i as int),
            decreases n - i,
        {
            r.push(self.samples[i]);
            proof {
                assert(r@ =~= self@.take(i + 1));
            }
            i = i + 1;
        }
        proof {
            assert(r@ =~= self@);
        }
        r
    }
}

} // verus!
