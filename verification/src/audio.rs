//! System audio: the format that is recorded, and the queue between the
//! capture thread and the encoder.

use vstd::prelude::*;

verus! {

pub const SAMPLE_RATE: u32 = 48_000;

pub const CHANNELS: u16 = 2;

pub const BITS_PER_SAMPLE: u16 = 16;

/// Bytes of one frame: a sample for each channel.
pub const BLOCK_ALIGN: u16 = 4;

/// Bytes of a second of sound.
pub const BYTES_PER_SECOND: u32 = 192_000;

/// Max queued packets. Without a bound, a recording of a static screen, during
/// which nobody takes packets out, would grow without limit.
pub const MAX_PACKETS: usize = 400;

/// Packets of sound that wait to be encoded.
pub struct AudioLoopback {
    pub packets: Vec<Vec<u8>>,
}

/// The sound of some packets, one after the other.
pub open spec fn sound(packets: Seq<Vec<u8>>) -> Seq<u8>
    decreases packets.len(),
{
    if packets.len() == 0 {
        Seq::empty()
    } else {
        sound(packets.drop_last()) + packets.last()@
    }
}

/// How many bytes a number of frames takes up.
pub fn packet_bytes(frames: u32) -> (n: u64)
    ensures
        n == frames * BLOCK_ALIGN,
{
    frames as u64 * 4
}

impl AudioLoopback {
    pub open spec fn wf(self) -> bool {
        self.packets@.len() <= MAX_PACKETS
    }

    pub fn start() -> (a: AudioLoopback)
        ensures
            a.wf(),
            a.packets@.len() == 0,
    {
        AudioLoopback { packets: Vec::new() }
    }

    /// Queues a packet; a full queue drops it. Returns whether it was queued.
    pub fn offer(&mut self, packet: Vec<u8>) -> (queued: bool)
        requires
            old(self).wf(),
        ensures
            final(self).wf(),
            queued == (old(self).packets@.len() < MAX_PACKETS),
            final(self).packets@ == (if queued {
                old(self).packets@.push(packet)
            } else {
                old(self).packets@
            }),
    {
        if self.packets.len() < MAX_PACKETS {
            self.packets.push(packet);
            true
        } else {
            false
        }
    }

    /// Takes everything that was queued so far.
    pub fn drain(&mut self) -> (pcm: Vec<u8>)
        ensures
            pcm@ == sound(old(self).packets@),
            final(self).packets@.len() == 0,
    {
        let mut rest: Vec<Vec<u8>> = Vec::new();
        std::mem::swap(&mut self.packets, &mut rest);
        let ghost all = rest@;
        let mut out: Vec<u8> = Vec::new();
        for p in it: rest
            invariant
                it.seq() == all,
                out@ == sound(all.take(it.index() as int)),
        {
            proof {
                let i = it.index() as int;
                assert(all.take(i + 1).drop_last() =~= all.take(i));
                assert(all.take(i + 1).last() == all[i]);
            }
            let mut p = p;
            out.append(&mut p);
        }
        assert(all.take(all.len() as int) =~= all);
        out
    }
}

/// What is left of the sound for the encoder: nothing while paused, so that
/// sound and picture stop together; silence of the same length while muted, so
/// that they stay together.
pub open spec fn fed(pcm: Seq<u8>, paused: bool, muted: bool) -> Option<Seq<u8>> {
    if pcm.len() == 0 || paused {
        None
    } else if muted {
        Some(Seq::new(pcm.len(), |i: int| 0u8))
    } else {
        Some(pcm)
    }
}

/// One round of the pump that feeds the encoder. `bytes` counts what was fed.
pub fn pump(pcm: Vec<u8>, paused: bool, muted: bool, bytes: &mut u64) -> (r: Option<Vec<u8>>)
    requires
        *old(bytes) + pcm@.len() <= u64::MAX,
    ensures
        match (fed(pcm@, paused, muted), r) {
            (Some(f), Some(v)) => v@ == f && *final(bytes) == *old(bytes) + pcm@.len(),
            (None, None) => *final(bytes) == *old(bytes),
            _ => false,
        },
{
    let n: usize = pcm.len();
    if n == 0 || paused {
        return None;
    }
    *bytes = *bytes + n as u64;
    if !muted {
        return Some(pcm);
    }
    let mut silence: Vec<u8> = Vec::new();
    for i in 0..n
        invariant
            silence@ == Seq::new(i as nat, |j: int| 0u8),
    {
        silence.push(0);
        assert(silence@ =~= Seq::new((i + 1) as nat, |j: int| 0u8));
    }
    Some(silence)
}

/// Muting changes nothing about how much sound is fed, and when.
pub proof fn law_muting_keeps_the_length(pcm: Seq<u8>, paused: bool)
    ensures
        fed(pcm, paused, true) is Some == fed(pcm, paused, false) is Some,
        fed(pcm, paused, true) matches Some(s) ==> s.len() == pcm.len() && forall|i: int|
            0 <= i < s.len() ==> s[i] == 0,
        fed(pcm, true, false) is None,
{
}

/// The sound of two runs of packets is the one's followed by the other's, and
/// that of one packet is its bytes: nothing is lost, added or put elsewhere.
pub proof fn law_sound_keeps_its_order(a: Seq<Vec<u8>>, b: Seq<Vec<u8>>, p: Vec<u8>)
    ensures
        sound(a + b) == sound(a) + sound(b),
        sound(seq![p]) == p@,
        sound(Seq::<Vec<u8>>::empty()) == Seq::<u8>::empty(),
    decreases b.len(),
{
    let one = seq![p];
    assert(one.drop_last() =~= Seq::<Vec<u8>>::empty());
    assert(sound(one.drop_last()) == Seq::<u8>::empty());
    assert(sound(one) =~= p@);
    if b.len() == 0 {
        assert(a + b =~= a);
        assert(sound(a) + sound(b) =~= sound(a));
    } else {
        law_sound_keeps_its_order(a, b.drop_last(), p);
        assert((a + b).drop_last() =~= a + b.drop_last());
        assert((a + b).last() == b.last());
        assert(sound(a + b) =~= sound(a) + sound(b));
    }
}

/// Sound that is neither paused nor muted is fed as it is; a paused recording is
/// fed nothing.
pub proof fn law_sound_is_fed_unchanged(pcm: Seq<u8>, muted: bool)
    ensures
        pcm.len() > 0 ==> fed(pcm, false, false) == Some(pcm),
        fed(pcm, true, muted) is None,
        pcm.len() > 0 ==> fed(pcm, false, true) is Some,
{
}

} // verus!
