use vstd::prelude::*;

verus! {

/// What an Ogg container says of a Vorbis stream.
#[derive(Clone, Copy, PartialEq, Eq, Structural, Debug)]
pub struct VorbisStream {
    pub channels: u8,
    pub sample_rate: u32,
    /// The number of samples, where the container's last page gave it.
    pub length_in_samples: Option<u64>,
}

/// One stream of an Ogg container, as a reader of its metadata classifies it.
#[derive(Clone, Copy, PartialEq, Eq, Structural, Debug)]
pub enum AudioFormat {
    Vorbis(VorbisStream),
    Opus,
    Theora,
    Speex,
    Skeleton,
    Unknown,
}

impl VorbisStream {
    /// The number of samples that a duration is computed from: 1 where the container gave
    /// none.
    pub open spec fn samples(self) -> u64 {
        match self.length_in_samples {
            Some(n) => n,
            None => 1,
        }
    }

    /// The number of samples that a duration is computed from.
    pub fn sample_count(&self) -> (n: u64)
        ensures
            n == self.samples(),
    {
        match self.length_in_samples {
            Some(n) => n,
            None => 1,
        }
    }
}

/// `i` is the place of the first Vorbis stream among the formats.
pub open spec fn first_vorbis_at(formats: Seq<AudioFormat>, i: int) -> bool {
    &&& 0 <= i < formats.len()
    &&& formats[i] is Vorbis
    &&& forall|j: int| 0 <= j < i ==> !(#[trigger] formats[j] is Vorbis)
}

/// The stream that a duration is taken from: the first Vorbis stream, or none where the
/// container holds no Vorbis stream.
pub open spec fn probed(formats: Seq<AudioFormat>) -> Option<VorbisStream> {
    if exists|i: int| first_vorbis_at(formats, i) {
        Some(formats[choose|i: int| first_vorbis_at(formats, i)]->Vorbis_0)
    } else {
        None
    }
}

/// Picks the stream that a duration is taken from.
pub fn first_vorbis(formats: &Vec<AudioFormat>) -> (r: Option<VorbisStream>)
    ensures
        r == probed(formats@),
{
    let mut i: usize = 0;
    while i < formats.len()
        invariant
            i <= formats.len(),
            forall|j: int| 0 <= j < i ==> !(#[trigger] formats[j] is Vorbis),
        decreases formats.len() - i,
    {
        if let AudioFormat::Vorbis(stream) = formats[i] {
            proof {
                assert(first_vorbis_at(formats@, i as int));
                let c = choose|c: int| first_vorbis_at(formats@, c);
                if c < i {
                    assert(!(formats[c] is Vorbis));
                }
                if i < c {
                    assert(!(formats[i as int] is Vorbis));
                }
            }
            return Some(stream);
        }
        i += 1;
    }
    proof {
        if exists|c: int| first_vorbis_at(formats@, c) {
            let c = choose|c: int| first_vorbis_at(formats@, c);
            assert(!(formats[c] is Vorbis));
        }
    }
    None
}

} // verus!
