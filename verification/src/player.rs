use vstd::prelude::*;

verus! {

/// Something that plays the audio a session streams.
///
/// The session hands each batch of decoded frames to the player, resets it at the
/// end of a track, and starts or stops it on request.
pub trait MusicPlayer: Sync + Send {
    /// Takes a batch of frames; returns how many of them it consumed.
    fn handle_music_delivery(&mut self, frames: &Vec<i32>) -> i32;

    /// Drops whatever is queued and starts afresh.
    fn reset(&mut self);

    /// Whether audio is playing.
    fn is_playing(&self) -> bool;

    /// Starts playback when `should_play` holds, stops it otherwise.
    fn play(&self, should_play: bool);
}

/// How many more buffers than it has finished playing a player keeps queued
/// before it turns a delivery away.
pub const MAX_PENDING_BUFFERS: i32 = 10;

/// Whether a player whose source has `queued` buffers queued, `processed` of them
/// already played, takes another batch of frames: it does while no more than
/// `MAX_PENDING_BUFFERS` buffers are still waiting to be played.
pub fn accepts_delivery(queued: i32, processed: i32) -> (accepted: bool)
    requires
        i32::MIN <= queued - processed <= i32::MAX,
    ensures
        accepted == (queued - processed <= MAX_PENDING_BUFFERS),
        accepted == (queued - processed <= 10),
{
    queued - processed <= MAX_PENDING_BUFFERS
}

/// What a player reports as consumed for a batch of `frame_count` frames that it
/// took: two for each frame, in the native integer type.
pub fn consumed_frames(frame_count: usize) -> (consumed: i32)
    requires
        frame_count * 2 <= usize::MAX,
    ensures
        consumed == (frame_count * 2) as i32,
{
    #[verifier::truncate]
    ((frame_count * 2) as i32)
}

/// The two 16-bit samples, left channel first, that make up the stereo frame
/// `frame` as the native library delivers it: the low half of the 32-bit value,
/// then the high half.
pub open spec fn frame_samples(frame: i32) -> (i16, i16) {
    (frame as i16, (frame >> 16) as i16)
}

/// A frame splits into its low 16 bits, then its high 16 bits, and the two
/// samples put back together give the frame.
pub proof fn frame_samples_split(frame: i32)
    ensures
        frame_samples(frame).0 == frame as i16,
        frame_samples(frame).1 == (frame >> 16) as i16,
        (frame_samples(frame).1 as i32) * 0x10000 + ((frame_samples(frame).0 as i32) as u16) as int
            == frame as int,
{
    assert((((frame >> 16) as i16) as i32) * 0x10000 + (((frame as i16) as i32) as u16) as int
        == frame as int) by (bit_vector);
}

/// The samples of a batch of stereo frames, in order.
pub fn stereo_samples(frames: &Vec<i32>) -> (samples: Vec<i16>)
    requires
        frames@.len() * 2 <= usize::MAX,
    ensures
        samples@.len() == frames@.len() * 2,
        forall|k: int|
            0 <= k < frames@.len() ==> samples@[2 * k] == frame_samples(#[trigger] frames@[k]).0
                && samples@[2 * k + 1] == frame_samples(frames@[k]).1,
        forall|k: int|
            0 <= k < frames@.len() ==> samples@[2 * k] == #[trigger] frames@[k] as i16
                && samples@[2 * k + 1] == (frames@[k] >> 16) as i16,
{
    let mut samples: Vec<i16> = Vec::with_capacity(frames.len() * 2);
    let mut i: usize = 0;
    while i < frames.len()
        invariant
            i <= frames@.len(),
            samples@.len() == 2 * i,
            forall|k: int|
                0 <= k < i ==> samples@[2 * k] == frame_samples(#[trigger] frames@[k]).0
                    && samples@[2 * k + 1] == frame_samples(frames@[k]).1,
        decreases frames@.len() - i,
    {
        let frame = frames[i];
        samples.push(#[verifier::truncate] (frame as i16));
        samples.push(#[verifier::truncate] ((frame >> 16) as i16));
        i = i + 1;
    }
    samples
}

/// What a player does with one batch of frames.
#[derive(Debug, Clone, Copy, PartialEq, Eq, Structural)]
pub enum DeliveryPlan {
    /// Too much is still waiting to be played: the batch is turned away.
    TurnAway,
    /// The batch is queued and playback is made sure of; `consumed` is reported back.
    Take { consumed: i32 },
}

/// The plan for a batch of `frame_count` frames handed to a player whose source has
/// `queued` buffers queued and `processed` of them played.
pub open spec fn delivery_plan_for(queued: i32, processed: i32, frame_count: usize) -> DeliveryPlan {
    if queued - processed <= MAX_PENDING_BUFFERS {
        DeliveryPlan::Take { consumed: (frame_count * 2) as i32 }
    } else {
        DeliveryPlan::TurnAway
    }
}

/// A batch is taken exactly while no more than ten of the queued buffers are
/// still unplayed (the played ones do not count), and a taken batch is reported
/// as two per frame.
pub proof fn delivery_takes_while_few_pending(queued: i32, processed: i32, frame_count: usize)
    ensures
        MAX_PENDING_BUFFERS == 10,
        (delivery_plan_for(queued, processed, frame_count) is Take) <==> queued - processed <= 10,
        delivery_plan_for(queued, processed, frame_count) matches DeliveryPlan::Take { consumed }
            ==> consumed == (frame_count * 2) as i32,
{
}

impl DeliveryPlan {
    /// Plans the handling of a batch of frames.
    pub fn new(queued: i32, processed: i32, frame_count: usize) -> (plan: DeliveryPlan)
        requires
            i32::MIN <= queued - processed <= i32::MAX,
            frame_count * 2 <= usize::MAX,
        ensures
            plan == delivery_plan_for(queued, processed, frame_count),
            (plan is Take) <==> queued - processed <= 10,
            (plan is TurnAway) <==> queued - processed > 10,
            plan matches DeliveryPlan::Take { consumed } ==> consumed == (frame_count * 2) as i32,
    {
        if accepts_delivery(queued, processed) {
            DeliveryPlan::Take { consumed: consumed_frames(frame_count) }
        } else {
            DeliveryPlan::TurnAway
        }
    }

    /// The number the player reports back to the native library: nothing for a
    /// batch it turned away, and what it consumed otherwise.
    pub fn reported(&self) -> (reported: i32)
        ensures
            reported == (match *self {
                DeliveryPlan::TurnAway => 0i32,
                DeliveryPlan::Take { consumed } => consumed,
            }),
    {
        match self {
            DeliveryPlan::TurnAway => 0,
            DeliveryPlan::Take { consumed } => *consumed,
        }
    }
}

} // verus!
