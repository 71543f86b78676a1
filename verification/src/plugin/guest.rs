//! Guest-side rules of the decoder ABI: what a plugin's decode result is
//! reported as, and how its serialized response is placed in the fixed
//! output buffer.
use vstd::prelude::*;

use super::manifest::GAME_PLUGIN_ABI_VERSION;
use super::runtime::{output_bounds_of, PluginDecodeOutput};

verus! {

/// Result of decoding one Host-owned input datagram.
#[derive(Debug, PartialEq)]
pub enum DecodeResult {
    /// Bytes belong to another plugin/protocol.
    Unrecognized,
    /// Bytes match this protocol but violate its contract.
    Invalid,
    /// Valid canonical updates and events.
    Recognized(PluginDecodeOutput),
}

/// Stateful decoder implemented by a game plugin.
pub trait GamePlugin {
    /// Inspects one datagram and emits bounded canonical telemetry.
    fn decode(&mut self, datagram: &[u8], received_at_us: u64) -> DecodeResult;
}

/// Fixed guest input capacity used by the exported ABI.
pub const INPUT_CAPACITY: usize = 65507;

/// Fixed guest output capacity used by the exported ABI.
pub const OUTPUT_CAPACITY: usize = 262144;

/// The ABI code reported without a response: zero for an unrecognized
/// datagram, -1 for an invalid one; a recognized datagram has a response.
pub fn result_code(result: &DecodeResult) -> (code: Option<i32>)
    ensures
        match result {
            DecodeResult::Unrecognized => code == Some(0i32),
            DecodeResult::Invalid => code == Some(-1i32),
            DecodeResult::Recognized(_) => code is None,
        },
{
    match result {
        DecodeResult::Unrecognized => Some(0),
        DecodeResult::Invalid => Some(-1),
        DecodeResult::Recognized(_) => None,
    }
}

/// Stamps the ABI version on a recognized response and checks its bounds;
/// a response out of bounds is reported as -2.
pub fn prepare_output(decoded: PluginDecodeOutput) -> (r: Result<PluginDecodeOutput, i32>)
    ensures
        match r {
            Ok(o) => o == (PluginDecodeOutput { schema_version: GAME_PLUGIN_ABI_VERSION, ..decoded })
                && output_bounds_of(o) is Ok,
            Err(code) => code == -2 && output_bounds_of(
                PluginDecodeOutput { schema_version: GAME_PLUGIN_ABI_VERSION, ..decoded },
            ) is Err,
        },
{
    let mut stamped = decoded;
    stamped.schema_version = GAME_PLUGIN_ABI_VERSION;
    match stamped.validate_bounds() {
        Ok(()) => Ok(stamped),
        Err(_) => Err(-2),
    }
}

/// Places a serialized response at the start of `output` and reports its
/// length: -3 when serializing failed, -4 when it does not fit.
pub fn frame_output(encoded: Option<&[u8]>, output: &mut [u8]) -> (code: i32)
    ensures
        final(output)@.len() == old(output)@.len(),
        match encoded {
            None => code == -3 && final(output)@ == old(output)@,
            Some(bytes) => if bytes@.len() > old(output)@.len() || bytes@.len() > i32::MAX {
                code == -4 && final(output)@ == old(output)@
            } else {
                &&& code == bytes@.len()
                &&& final(output)@.subrange(0, bytes@.len() as int) == bytes@
                &&& final(output)@.subrange(bytes@.len() as int, old(output)@.len() as int)
                    == old(output)@.subrange(bytes@.len() as int, old(output)@.len() as int)
            },
        },
{
    let bytes = match encoded {
        None => return -3,
        Some(bytes) => bytes,
    };
    let n = bytes.len();
    if n > output.len() || n > 2147483647 {
        return -4;
    }
    let ghost before = output@;
    let mut i: usize = 0;
    while i < n
        invariant
            n == bytes@.len(),
            n <= output@.len(),
            output@.len() == before.len(),
            i <= n,
            forall|j: int| 0 <= j < i ==> output@[j] == bytes@[j],
            forall|j: int| i <= j < before.len() ==> output@[j] == before[j],
        decreases n - i,
    {
        output[i] = bytes[i];
        i = i + 1;
    }
    proof {
        assert(output@.subrange(0, n as int) =~= bytes@);
        assert(output@.subrange(n as int, before.len() as int) =~= before.subrange(n as int, before.len() as int));
    }
    n as i32
}

} // verus!
