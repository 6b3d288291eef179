//! The sample rates voice activity detection accepts and the chunk size
//! it works on.
use crate::error::ProtoError;
use crate::text::{decimal, u64_to_decimal};
use vstd::prelude::*;

verus! {

/// Detection works on 8 kHz or 16 kHz audio.
pub open spec fn supported_rate(sample_rate: u32) -> bool {
    sample_rate == 8000 || sample_rate == 16000
}

/// Samples per detection chunk (32 ms): 256 at 8 kHz, 512 otherwise.
pub fn chunk_size(sample_rate: u32) -> (n: usize)
    ensures
        n == if sample_rate == 8000 {
            256usize
        } else {
            512usize
        },
{
    match sample_rate {
        8000 => 256,
        16000 => 512,
        _ => 512,
    }
}

/// Checks a detection sample rate and gives its chunk size; any rate but
/// 8000 and 16000 is a configuration error.
pub fn check_sample_rate(sample_rate: u32) -> (r: Result<usize, ProtoError>)
    ensures
        supported_rate(sample_rate) ==> r == Ok::<usize, ProtoError>(
            if sample_rate == 8000 {
                256usize
            } else {
                512usize
            },
        ),
        !supported_rate(sample_rate) ==> (r matches Err(ProtoError::ConfigError(m)) && m@
            == "Invalid sample rate: "@ + decimal(sample_rate as nat)
            + ". Must be 8000 or 16000"@),
{
    if sample_rate != 8000 && sample_rate != 16000 {
        let mut m = String::from_str("Invalid sample rate: ");
        let d = u64_to_decimal(sample_rate as u64);
        m.append(d.as_str());
        m.append(". Must be 8000 or 16000");
        return Err(ProtoError::ConfigError(m));
    }
    Ok(chunk_size(sample_rate))
}

} // verus!
