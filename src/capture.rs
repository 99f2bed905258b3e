//! Audio capture data: the chunks handed from the hardware callback to the
//! recognition loop, and the input devices on offer. Opening the stream is
//! the caller's work; each hardware period is turned into a chunk here.

use vstd::prelude::*;
use crate::text::{chars_equal, chars_of};
use crate::vad::{chunk_level, level_of};

verus! {

/// Capacity of the queue between the hardware callback and the recognition
/// loop; when it is full the newest chunk is dropped.
pub const CHUNK_QUEUE_CAPACITY: usize = 100;

/// Samples per hardware period.
pub const BUFFER_SIZE: usize = 1024;

/// Mono capture.
pub const CHANNELS: u16 = 1;

/// One block of 16-bit mono samples with its offset from capture start.
#[derive(Debug, Clone)]
pub struct AudioChunk {
    pub samples: Vec<i16>,
    pub timestamp_ms: u64,
}

/// An audio input device.
#[derive(Debug, Clone)]
pub struct AudioDevice {
    pub name: String,
    pub is_default: bool,
}

/// Turns one hardware period into the chunk to queue and the level to
/// report (0..=100, as `level_of` states).
pub fn capture_period(data: &[i16], elapsed_ms: u64) -> (r: (AudioChunk, u8))
    ensures
        r.0.samples@ == data@,
        r.0.timestamp_ms == elapsed_ms,
        r.1 as int == level_of(data@),
{
    let level = chunk_level(data);
    let mut samples: Vec<i16> = Vec::new();
    let mut i: usize = 0;
    while i < data.len()
        invariant
            i <= data@.len(),
            samples@ == data@.subrange(0, i as int),
        decreases data@.len() - i,
    {
        samples.push(data[i]);
        i = i + 1;
        proof {
            assert(samples@ =~= data@.subrange(0, i as int));
        }
    }
    proof {
        assert(samples@ =~= data@);
    }
    (AudioChunk { samples, timestamp_ms: elapsed_ms }, level)
}

/// The devices for the names enumerated, in order, each marked default when
/// its name is the default device's name.
pub fn input_devices(names: &Vec<String>, default_name: &Option<String>) -> (r: Vec<AudioDevice>)
    ensures
        r@.len() == names@.len(),
        forall|i: int|
            0 <= i < names@.len() ==> (#[trigger] r@[i]).name@ == names@[i]@ && r@[i].is_default == (
            default_name matches Some(d) && d@ == names@[i]@),
{
    let dflt: Option<Vec<char>> = match default_name {
        Some(d) => Some(chars_of(d.as_str())),
        None => None,
    };
    let mut out: Vec<AudioDevice> = Vec::new();
    let mut i: usize = 0;
    while i < names.len()
        invariant
            i <= names@.len(),
            out@.len() == i,
            match default_name {
                Some(d) => dflt matches Some(v) && v@ == d@,
                None => dflt is None,
            },
            forall|k: int|
                0 <= k < i ==> (#[trigger] out@[k]).name@ == names@[k]@ && out@[k].is_default == (
                default_name matches Some(d) && d@ == names@[k]@),
        decreases names@.len() - i,
    {
        let name = names[i].clone();
        let is_default = match &dflt {
            Some(v) => chars_equal(v, &chars_of(name.as_str())),
            None => false,
        };
        out.push(AudioDevice { name, is_default });
        i = i + 1;
    }
    out
}

/// The position of the first device named `name`.
pub fn find_device(names: &Vec<String>, name: &str) -> (r: Option<usize>)
    ensures
        r matches Some(i) ==> i < names@.len() && names@[i as int]@ == name@ && forall|k: int|
            0 <= k < i ==> names@[k]@ != name@,
        r is None ==> forall|k: int| 0 <= k < names@.len() ==> names@[k]@ != name@,
{
    let wanted = chars_of(name);
    let mut i: usize = 0;
    while i < names.len()
        invariant
            i <= names@.len(),
            wanted@ == name@,
            forall|k: int| 0 <= k < i ==> names@[k]@ != name@,
        decreases names@.len() - i,
    {
        if chars_equal(&chars_of(names[i].as_str()), &wanted) {
            return Some(i);
        }
        i = i + 1;
    }
    None
}

} // verus!
