//! USB audio class device: the queue of audio buffers coming from the host
//! and the device volume.

use heapless::spsc::Queue;
use vstd::prelude::*;

verus! {

/// Number of audio buffers in the queue.
pub const NUM_BUFFERS: usize = 4;

/// Audio buffer size (stereo samples at 48 kHz, 10 ms): 960 samples.
pub const BUFFER_SIZE: usize = 48000 * 2 * 10 / 1000;

/// Audio buffer for USB transfer.
pub struct AudioBuffer {
    pub samples: [i16; BUFFER_SIZE],
    pub valid_samples: usize,
}

impl AudioBuffer {
    /// A silent buffer holding no valid samples.
    pub fn new() -> (b: Self)
        ensures
            b.valid_samples == 0,
            forall|i: int| 0 <= i < BUFFER_SIZE ==> b.samples[i] == 0,
    {
        AudioBuffer { samples: [0i16; BUFFER_SIZE], valid_samples: 0 }
    }
}

impl Default for AudioBuffer {
    fn default() -> (b: Self)
        ensures
            b.valid_samples == 0,
            forall|i: int| 0 <= i < BUFFER_SIZE ==> b.samples[i] == 0,
    {
        Self::new()
    }
}

/// `heapless::spsc::Queue`, the fixed-capacity queue that carries buffers from
/// the USB task; its contents are only known through [`queued_buffers`].
#[verifier::external_type_specification]
#[verifier::external_body]
#[verifier::reject_recursive_types(T)]
pub struct ExQueue<T, const N: usize>(Queue<T, N>);

/// The buffers waiting in a `heapless` queue, oldest (next to dequeue) first.
pub uninterp spec fn queued_buffers(q: Queue<AudioBuffer, NUM_BUFFERS>) -> Seq<AudioBuffer>;

/// Calls `heapless::spsc::Queue::dequeue`. Trusted claim: on a non-empty queue
/// it returns the oldest buffer and the queue afterwards holds the remaining
/// buffers in order; on an empty queue it returns `None` and the queue is
/// unchanged. It never panics (`no_unwind`).
#[verifier::external_body]
fn dequeue_buffer(queue: &mut Queue<AudioBuffer, NUM_BUFFERS>) -> (r: Option<AudioBuffer>)
    ensures
        queued_buffers(*old(queue)).len() == 0 ==> r is None && queued_buffers(*final(queue))
            == queued_buffers(*old(queue)),
        queued_buffers(*old(queue)).len() > 0 ==> r == Some(queued_buffers(*old(queue))[0])
            && queued_buffers(*final(queue)) == queued_buffers(*old(queue)).drop_first(),
    no_unwind
{
    queue.dequeue()
}

/// `sample * volume / 100`, the quotient rounded toward zero as integer
/// division does.
pub open spec fn scaled_sample(sample: int, volume: int) -> int {
    let p = sample * volume;
    if p >= 0 {
        p / 100
    } else {
        -((-p) / 100)
    }
}

/// USB audio class device.
pub struct UsbAudioDevice<'a> {
    queue: &'a mut Queue<AudioBuffer, NUM_BUFFERS>,
    volume: u8,
}

impl<'a> UsbAudioDevice<'a> {
    /// The volume in percent.
    pub closed spec fn spec_volume(&self) -> u8 {
        self.volume
    }

    /// The buffers waiting in the device's queue, oldest first.
    pub closed spec fn queued(&self) -> Seq<AudioBuffer> {
        queued_buffers(*self.queue)
    }

    /// The volume never exceeds 100 percent.
    #[verifier::type_invariant]
    spec fn wf(&self) -> bool {
        self.volume <= 100
    }

    /// A device reading from `queue`, at full volume.
    pub fn new(queue: &'a mut Queue<AudioBuffer, NUM_BUFFERS>) -> (d: Self)
        ensures
            d.spec_volume() == 100,
            d.queued() == queued_buffers(*old(queue)),
    {
        UsbAudioDevice { queue, volume: 100 }
    }

    /// The oldest buffer received from the host, if any.
    pub fn get_audio_buffer(&mut self) -> (r: Option<AudioBuffer>)
        ensures
            old(self).queued().len() == 0 ==> r is None && final(self).queued() == old(self).queued(),
            old(self).queued().len() > 0 ==> r == Some(old(self).queued()[0])
                && final(self).queued() == old(self).queued().drop_first(),
            final(self).spec_volume() == old(self).spec_volume(),
            final(self).spec_volume() <= 100,
    {
        proof {
            use_type_invariant(&*self);
        }
        dequeue_buffer(&mut *self.queue)
    }

    /// Brings the device up; this always succeeds and changes no state.
    pub fn init(&mut self) -> (r: Result<(), &'static str>)
        ensures
            r is Ok,
            final(self).spec_volume() == old(self).spec_volume(),
            final(self).spec_volume() <= 100,
            final(self).queued() == old(self).queued(),
    {
        proof {
            use_type_invariant(&*self);
        }
        Ok(())
    }

    /// Scales the valid samples of `buffer` by the volume in percent.
    pub fn apply_volume(&self, buffer: &mut AudioBuffer)
        requires
            old(buffer).valid_samples <= BUFFER_SIZE,
        ensures
            final(buffer).valid_samples == old(buffer).valid_samples,
            forall|i: int|
                0 <= i < old(buffer).valid_samples ==> final(buffer).samples[i] == scaled_sample(
                    old(buffer).samples[i] as int,
                    self.spec_volume() as int,
                ),
            forall|i: int|
                0 <= i < old(buffer).valid_samples ==> {
                    let p = old(buffer).samples[i] * self.spec_volume();
                    let r = #[trigger] final(buffer).samples[i] as int;
                    &&& p >= 0 ==> 0 <= p - 100 * r < 100
                    &&& p < 0 ==> -100 < p - 100 * r <= 0
                },
            forall|i: int|
                old(buffer).valid_samples <= i < BUFFER_SIZE ==> final(buffer).samples[i]
                    == old(buffer).samples[i],
    {
        proof {
            use_type_invariant(self);
        }
        let scale = self.volume as i32;
        let n = buffer.valid_samples;
        let mut i: usize = 0;
        while i < n
            invariant
                n == old(buffer).valid_samples,
                n <= BUFFER_SIZE,
                0 <= scale <= 100,
                scale == self.spec_volume(),
                i <= n,
                buffer.valid_samples == n,
                forall|j: int| 0 <= j < i ==> buffer.samples[j] == scaled_sample(old(buffer).samples[j] as int, scale as int),
                forall|j: int| i <= j < BUFFER_SIZE ==> buffer.samples[j] == old(buffer).samples[j],
            decreases n - i,
        {
            let s = buffer.samples[i] as i32;
            assert(-3276800 <= s * scale <= 3276700) by (nonlinear_arith)
                requires
                    -32768 <= s <= 32767,
                    0 <= scale <= 100,
            ;
            let p = s * scale;
            let q = p / 100;
            assert(q == scaled_sample(s as int, scale as int));
            proof {
                lemma_scaled_sample_divides(s as int, scale as int);
            }
            assert(-32768 <= q <= 32767) by (nonlinear_arith)
                requires
                    q == scaled_sample(s as int, scale as int),
                    -32768 <= s <= 32767,
                    0 <= scale <= 100,
                    p == s * scale,
            ;
            buffer.samples[i] = q as i16;
            i = i + 1;
        }
    }

    /// Sets the volume in percent, capped at 100.
    pub fn set_volume(&mut self, volume: u8)
        ensures
            final(self).spec_volume() <= 100,
            final(self).spec_volume() == if volume < 100 { volume } else { 100 },
            final(self).queued() == old(self).queued(),
    {
        self.volume = if volume < 100 { volume } else { 100 };
    }
}

/// Scaling is integer division of `sample * volume` by 100 rounded toward
/// zero: the result `r` satisfies `0 <= p - 100 * r < 100` for a non-negative
/// product `p` and `-100 < p - 100 * r <= 0` for a negative one, which fixes
/// `r` for every sample and volume.
pub proof fn lemma_scaled_sample_divides(sample: int, volume: int)
    ensures
        ({
            let p = sample * volume;
            let r = scaled_sample(sample, volume);
            &&& p >= 0 ==> 0 <= p - 100 * r < 100
            &&& p < 0 ==> -100 < p - 100 * r <= 0
        }),
{
    let p = sample * volume;
    if p >= 0 {
        vstd::arithmetic::div_mod::lemma_fundamental_div_mod(p, 100);
        vstd::arithmetic::div_mod::lemma_mod_bound(p, 100);
    } else {
        vstd::arithmetic::div_mod::lemma_fundamental_div_mod(-p, 100);
        vstd::arithmetic::div_mod::lemma_mod_bound(-p, 100);
    }
}

/// Scaling by a volume of at most 100 percent never makes a sample louder
/// nor flips its sign; full volume leaves it unchanged, zero volume silences
/// it, and a higher volume never gives a quieter sample.
pub proof fn lemma_volume_scaling(sample: int, volume: int, louder: int)
    requires
        0 <= volume <= louder <= 100,
    ensures
        sample >= 0 ==> 0 <= scaled_sample(sample, volume) <= sample,
        sample < 0 ==> sample <= scaled_sample(sample, volume) <= 0,
        scaled_sample(sample, 100) == sample,
        scaled_sample(sample, 0) == 0,
        sample >= 0 ==> scaled_sample(sample, volume) <= scaled_sample(sample, louder),
        sample < 0 ==> scaled_sample(sample, louder) <= scaled_sample(sample, volume),
{
    // m is the magnitude of the sample; scaling acts on it and keeps the sign.
    let m = if sample >= 0 { sample } else { -sample };
    assert(0 <= m * volume <= m * louder <= m * 100) by (nonlinear_arith)
        requires
            m >= 0,
            0 <= volume <= louder <= 100,
    ;
    assert(sample * volume == if sample >= 0 { m * volume } else { -(m * volume) }) by (nonlinear_arith)
        requires
            m == if sample >= 0 { sample } else { -sample },
    ;
    assert(sample * louder == if sample >= 0 { m * louder } else { -(m * louder) }) by (nonlinear_arith)
        requires
            m == if sample >= 0 { sample } else { -sample },
    ;
    assert(m * 100 == 100 * m) by (nonlinear_arith);
    vstd::arithmetic::div_mod::lemma_div_is_ordered(m * volume, m * louder, 100);
    vstd::arithmetic::div_mod::lemma_div_is_ordered(m * louder, m * 100, 100);
    vstd::arithmetic::div_mod::lemma_div_multiples_vanish(m, 100);
}

} // verus!
