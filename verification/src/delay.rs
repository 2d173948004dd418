//! The circular-buffer delay line.
//!
//! `Delay` owns a fixed-length buffer of samples, a write cursor and a read
//! cursor.  Each `process_sample` call writes the input at the write cursor,
//! reads the delayed sample at the read cursor, and advances both cursors by
//! one modulo the buffer length.  Because the write lands before the read, a
//! delay time of zero returns the input with no latency.
//!
//! `DelayModel` is the mathematical image of a delay line; every method's
//! contract is stated as a pure step on that model, and the impulse-response
//! and zero-time laws at the end of the file are proved over it.

use vstd::prelude::*;
use crate::fixed::{Q_ONE, in_sample_range};
use vstd::arithmetic::div_mod::{
    lemma_mod_bound, lemma_small_mod, lemma_fundamental_div_mod, lemma_mod_multiples_vanish,
    lemma_mod_equivalence,
};

verus! {

/// The mathematical state of a delay line: buffer contents, write cursor,
/// read cursor and the sample returned by the last call.
pub struct DelayModel {
    pub buf: Seq<i64>,
    pub w: int,
    pub r: int,
    pub last: i64,
}

/// Read cursor that puts the line `time` samples behind a write cursor at
/// zero: `(-time) mod len`.  Times beyond the length alias (wrap).
pub open spec fn read_cursor(time: int, len: int) -> int {
    (-time) % len
}

impl DelayModel {
    pub open spec fn len(self) -> int {
        self.buf.len() as int
    }

    pub open spec fn wf(self) -> bool {
        &&& 1 <= self.len() <= 0x4000_0000
        &&& 0 <= self.w < self.len()
        &&& 0 <= self.r < self.len()
        &&& forall|i: int| 0 <= i < self.len() ==> in_sample_range(#[trigger] self.buf[i])
        &&& in_sample_range(self.last)
    }

    /// What one call returns: the write lands before the read, so when the
    /// cursors coincide the input itself comes back.
    pub open spec fn out(self, x: i64) -> i64 {
        if self.r == self.w {
            x
        } else {
            self.buf[self.r]
        }
    }

    /// The state after one call: input written at the write cursor, both
    /// cursors advanced by one modulo the length.
    pub open spec fn step(self, x: i64) -> DelayModel {
        DelayModel {
            buf: self.buf.update(self.w, x),
            w: (self.w + 1) % self.len(),
            r: (self.r + 1) % self.len(),
            last: self.out(x),
        }
    }

    /// The state after `set_time(time)`: only the read cursor moves.
    pub open spec fn with_time(self, time: int) -> DelayModel {
        DelayModel { r: read_cursor(time, self.len()), ..self }
    }

    /// A freshly constructed line: zero-filled buffer of length `len`, write
    /// cursor at zero, read cursor `time` samples behind.
    pub open spec fn fresh(len: int, time: int) -> DelayModel {
        DelayModel {
            buf: Seq::new(len as nat, |i: int| 0i64),
            w: 0,
            r: read_cursor(time, len),
            last: 0,
        }
    }
}

/// A fixed-capacity circular-buffer delay line with a runtime-adjustable
/// delay time.
pub struct Delay {
    buffer: Vec<i64>,
    input_i: usize,
    output_i: usize,
    former_output: i64,
}

impl View for Delay {
    type V = DelayModel;

    closed spec fn view(&self) -> DelayModel {
        DelayModel {
            buf: self.buffer@,
            w: self.input_i as int,
            r: self.output_i as int,
            last: self.former_output,
        }
    }
}

/// Computes `(-time) mod len` with unsigned machine arithmetic.
fn cursor_for(time: i32, len: usize) -> (r: usize)
    requires
        1 <= len <= 0x4000_0000,
    ensures
        r as int == read_cursor(time as int, len as int),
        r < len,
{
    proof {
        lemma_mod_bound(-(time as int), len as int);
    }
    if time >= 0 {
        let m: usize = (time as usize) % len;
        proof {
            let t = time as int;
            let l = len as int;
            lemma_mod_bound(t, l);
            lemma_fundamental_div_mod(t, l);
            // -t == l * (-(t/l) - 1) + (l - t % l), so (-t) % l == (l - t % l) % l
            let q = t / l;
            assert(l * (-q - 1) == -(l * q) - l) by (nonlinear_arith);
            assert(-t == l * (-q - 1) + (l - t % l));
            lemma_mod_multiples_vanish(-(t / l) - 1, l - t % l, l);
            if t % l == 0 {
                assert((l - t % l) % l == 0) by {
                    lemma_mod_multiples_vanish(1, 0, l);
                };
            } else {
                lemma_small_mod((l - t % l) as nat, l as nat);
            }
        }
        if m == 0 {
            0
        } else {
            len - m
        }
    } else {
        let neg: i64 = -(time as i64);
        let m: usize = (neg as usize) % len;
        proof {
            lemma_mod_bound(neg as int, len as int);
        }
        m
    }
}

impl Delay {
    /// A zero-filled delay line of length `sample_rate / 4` (a quarter
    /// second) with its read cursor `time` samples behind the write cursor.
    pub fn new(sample_rate: u32, time: i32) -> (d: Delay)
        requires
            sample_rate >= 4,
        ensures
            d@ == DelayModel::fresh(sample_rate as int / 4, time as int),
            d@.wf(),
    {
        let length: usize = (sample_rate / 4) as usize;
        let mut buffer: Vec<i64> = Vec::new();
        let mut k: usize = 0;
        while k < length
            invariant
                k <= length,
                buffer@.len() == k as int,
                forall|i: int| 0 <= i < k as int ==> buffer@[i] == 0i64,
            decreases length - k,
        {
            buffer.push(0i64);
            k = k + 1;
        }
        let output_i = cursor_for(time, length);
        let d = Delay { buffer, input_i: 0, output_i, former_output: 0 };
        proof {
            assert(d@.buf =~= Seq::new(length as nat, |i: int| 0i64));
        }
        d
    }

    /// Repositions the read cursor `time` samples behind a write cursor at
    /// zero, keeping the existing buffer; times beyond the length alias.
    pub fn set_time(&mut self, time: i32)
        requires
            old(self)@.wf(),
        ensures
            final(self)@ == old(self)@.with_time(time as int),
            final(self)@.wf(),
    {
        self.output_i = cursor_for(time, self.buffer.len());
    }

    /// Writes the input at the write cursor, returns the sample at the read
    /// cursor (the write happens first), then advances both cursors by one
    /// modulo the buffer length.
    pub fn process_sample(&mut self, input: i64) -> (out: i64)
        requires
            old(self)@.wf(),
            in_sample_range(input),
        ensures
            final(self)@ == old(self)@.step(input),
            out == old(self)@.out(input),
            final(self)@.wf(),
            in_sample_range(out),
    {
        let len = self.buffer.len();
        self.buffer.set(self.input_i, input);
        self.former_output = self.buffer[self.output_i];
        self.input_i = (self.input_i + 1) % len;
        self.output_i = (self.output_i + 1) % len;
        proof {
            lemma_mod_bound(old(self)@.w + 1, len as int);
            lemma_mod_bound(old(self)@.r + 1, len as int);
        }
        self.former_output
    }
}

/// The outputs a delay line emits while consuming `xs` front to back.
pub open spec fn outputs(m: DelayModel, xs: Seq<i64>) -> Seq<i64>
    decreases xs.len(),
{
    if xs.len() == 0 {
        Seq::empty()
    } else {
        seq![m.out(xs.first())] + outputs(m.step(xs.first()), xs.drop_first())
    }
}

/// A delay line whose read and write cursors coincide returns every input
/// unchanged, and they stay coincident forever.
pub proof fn lemma_coincident_cursors_identity(m: DelayModel, xs: Seq<i64>)
    requires
        m.len() >= 1,
        0 <= m.w < m.len(),
        m.r == m.w,
    ensures
        outputs(m, xs) == xs,
    decreases xs.len(),
{
    if xs.len() == 0 {
        assert(outputs(m, xs) =~= xs);
    } else {
        let m1 = m.step(xs.first());
        lemma_mod_bound(m.w + 1, m.len());
        lemma_coincident_cursors_identity(m1, xs.drop_first());
        assert(outputs(m, xs) =~= xs);
    }
}

/// `set_time(0)` makes `process_sample` the identity: a line whose write
/// cursor is at zero (as after construction) returns every subsequent input
/// unchanged once its time is set to zero.
pub proof fn lemma_set_time_zero_identity(m: DelayModel, xs: Seq<i64>)
    requires
        m.len() >= 1,
        m.w == 0,
    ensures
        outputs(m.with_time(0), xs) == xs,
{
    let m0 = m.with_time(0);
    lemma_mod_bound(0, m.len());
    lemma_small_mod(0nat, m.len() as nat);
    lemma_coincident_cursors_identity(m0, xs);
}

/// The impulse: one at step zero, silence after.
pub open spec fn impulse(n: int) -> i64 {
    if n == 0 {
        Q_ONE
    } else {
        0
    }
}

/// The state a delay line reaches after `n` impulse steps.
pub open spec fn run_impulse(m: DelayModel, n: nat) -> DelayModel
    decreases n,
{
    if n == 0 {
        m
    } else {
        run_impulse(m, (n - 1) as nat).step(impulse(n as int - 1))
    }
}

/// Closed form of `run_impulse` from a fresh line: the impulse sits at
/// buffer slot zero while it is in flight, the cursors advance linearly, and
/// the last output is one exactly when the previous step index was `time`.
pub open spec fn impulse_state(len: int, time: int, n: int) -> DelayModel {
    DelayModel {
        buf: if 1 <= n <= len {
            Seq::new(len as nat, |i: int| 0i64).update(0, Q_ONE)
        } else {
            Seq::new(len as nat, |i: int| 0i64)
        },
        w: n % len,
        r: (read_cursor(time, len) + n) % len,
        last: if n == time + 1 {
            Q_ONE
        } else {
            0
        },
    }
}

/// `(a + 1) % m` commutes with an outer `% m` on `a`.
proof fn lemma_mod_succ(a: int, m: int)
    requires
        0 < m,
    ensures
        (a % m + 1) % m == (a + 1) % m,
{
    if m == 1 {
        lemma_mod_bound(a % m + 1, m);
        lemma_mod_bound(a + 1, m);
    } else {
        lemma_small_mod(1nat, m as nat);
        vstd::arithmetic::div_mod::lemma_add_mod_noop(a, 1, m);
    }
}

/// With 0 <= time < len, the read cursor of a fresh line is `0` when the
/// time is zero and `len - time` otherwise.
proof fn lemma_read_cursor_value(time: int, len: int)
    requires
        0 < len,
        0 <= time < len,
    ensures
        read_cursor(time, len) == if time == 0 { 0int } else { len - time },
{
    if time == 0 {
        lemma_small_mod(0nat, len as nat);
    } else {
        assert(-time == len * (-1) + (len - time));
        lemma_mod_multiples_vanish(-1, len - time, len);
        lemma_small_mod((len - time) as nat, len as nat);
    }
}

/// Induction step engine for the impulse response: after `n` impulse steps a
/// fresh line is exactly in its closed-form state.
proof fn lemma_impulse_state(len: int, time: int, n: nat)
    requires
        1 <= len,
        0 <= time < len,
    ensures
        run_impulse(DelayModel::fresh(len, time), n) == impulse_state(len, time, n as int),
    decreases n,
{
    let m0 = DelayModel::fresh(len, time);
    let r0 = read_cursor(time, len);
    lemma_read_cursor_value(time, len);
    if n == 0 {
        lemma_small_mod(0nat, len as nat);
        lemma_mod_bound(r0, len);
        lemma_small_mod(r0 as nat, len as nat);
        assert(impulse_state(len, time, 0).buf =~= m0.buf);
        assert(run_impulse(m0, 0) == impulse_state(len, time, 0));
    } else {
        let k = n as int - 1;
        lemma_impulse_state(len, time, (n - 1) as nat);
        let mk = impulse_state(len, time, k);
        let ms = mk.step(impulse(k));
        lemma_mod_bound(k, len);
        lemma_mod_bound(r0 + k, len);
        // write cursor and read cursor advance linearly
        lemma_mod_succ(k, len);
        lemma_mod_succ(r0 + k, len);
        assert(ms.w == (k + 1) % len);
        assert(ms.r == (r0 + k + 1) % len);
        // the written buffer matches the closed form
        lemma_impulse_buf(len, time, k);
        // the output of step k is the impulse delayed by `time`
        lemma_impulse_out(len, time, k);
        assert(ms == impulse_state(len, time, n as int));
    }
}

/// The buffer update of impulse step `k` turns the closed-form buffer of
/// step `k` into that of step `k + 1`.
proof fn lemma_impulse_buf(len: int, time: int, k: int)
    requires
        1 <= len,
        0 <= time < len,
        0 <= k,
    ensures
        impulse_state(len, time, k).buf.update(k % len, impulse(k)) == impulse_state(
            len,
            time,
            k + 1,
        ).buf,
{
    let zeros = Seq::new(len as nat, |i: int| 0i64);
    let hot = zeros.update(0, Q_ONE);
    let bk = impulse_state(len, time, k).buf;
    let bn = impulse_state(len, time, k + 1).buf;
    lemma_mod_bound(k, len);
    if k == 0 {
        lemma_small_mod(0nat, len as nat);
        assert(bk.update(0, Q_ONE) =~= hot);
    } else if k < len {
        // writes a zero at slot k != 0; the hot slot stays
        lemma_small_mod(k as nat, len as nat);
        assert(bk.update(k, 0i64) =~= bn);
    } else if k == len {
        // the write cursor is back at slot zero and overwrites the impulse
        assert(k == len * 1 + 0);
        lemma_mod_multiples_vanish(1, 0, len);
        lemma_small_mod(0nat, len as nat);
        assert(bk.update(0, 0i64) =~= bn);
    } else {
        // everything in the buffer is already zero
        assert(bk.update(k % len, 0i64) =~= bn);
    }
}

/// The output of impulse step `k` from the closed-form state of step `k` is
/// `Q_ONE` exactly when `k == time`.
proof fn lemma_impulse_out(len: int, time: int, k: int)
    requires
        1 <= len,
        0 <= time < len,
        0 <= k,
    ensures
        impulse_state(len, time, k).out(impulse(k)) == if k == time {
            Q_ONE
        } else {
            0i64
        },
{
    let mk = impulse_state(len, time, k);
    let r0 = read_cursor(time, len);
    lemma_read_cursor_value(time, len);
    lemma_mod_bound(k, len);
    lemma_mod_bound(r0 + k, len);
    if time == 0 {
        // cursors coincide: the output is the input itself
        assert(mk.r == mk.w);
        assert(mk.out(impulse(k)) == impulse(k));
    } else {
        // cursors never coincide: r0 is in (0, len)
        assert(r0 == len - time);
        if mk.r == mk.w {
            lemma_mod_equivalence(r0 + k, k, len);
            lemma_small_mod(r0 as nat, len as nat);
            assert((r0 + k - k) % len == r0 % len);
            assert(false);
        }
        // so the output is the buffer slot at the read cursor
        if 1 <= k <= len {
            // hot buffer: output is Q_ONE exactly when the read cursor is slot 0
            if (r0 + k) % len == 0 {
                // r0 + k is a positive multiple of len below 2*len, so k == time
                if r0 + k < len {
                    lemma_small_mod((r0 + k) as nat, len as nat);
                    assert(false);
                } else if r0 + k < 2 * len {
                    assert(r0 + k == len * 1 + (r0 + k - len));
                    lemma_mod_multiples_vanish(1, r0 + k - len, len);
                    lemma_small_mod((r0 + k - len) as nat, len as nat);
                    assert(r0 + k - len == 0);
                    assert(k == time);
                } else {
                    assert(r0 < len && k <= len);
                    assert(false);
                }
                assert(mk.buf[mk.r] == Q_ONE);
            } else {
                assert(mk.buf[mk.r] == 0i64);
                if k == time {
                    assert(r0 + k == len);
                    assert(r0 + k == len * 1 + 0);
                    lemma_mod_multiples_vanish(1, 0, len);
                    lemma_small_mod(0nat, len as nat);
                    assert(false);
                }
            }
        } else {
            // buffer all zero, and k is outside [1, len] so k != time
            assert(mk.buf[mk.r] == 0i64);
            assert(k != time);
        }
    }
}

/// Impulse response of the delay line: a fresh line of length `len` with
/// delay time `time` (`0 <= time < len`) fed a unit impulse emits exactly
/// `Q_ONE` at step `time` and silence at every other step, forever.
pub proof fn lemma_impulse_response(len: int, time: int, n: int)
    requires
        1 <= len,
        0 <= time < len,
        0 <= n,
    ensures
        run_impulse(DelayModel::fresh(len, time), (n + 1) as nat).last == if n == time {
            Q_ONE
        } else {
            0i64
        },
{
    lemma_impulse_state(len, time, (n + 1) as nat);
    lemma_impulse_state(len, time, n as nat);
    lemma_impulse_out(len, time, n);
    assert(run_impulse(DelayModel::fresh(len, time), (n + 1) as nat) == run_impulse(
        DelayModel::fresh(len, time),
        n as nat,
    ).step(impulse(n)));
}

} // verus!
