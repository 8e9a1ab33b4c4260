//! Names for the session engine, which takes them as C strings: bytes that
//! end at the first zero byte.

use vstd::prelude::*;
use vstd::string::StringSliceAdditionalSpecFns;

verus! {

/// A buffer that holds `text` as a C string: the bytes of `text`, a zero
/// byte behind them, and behind that what the buffer held before.
pub open spec fn nul_terminated(text: Seq<u8>, buffer: Seq<u8>) -> Seq<u8> {
    text + seq![0u8] + buffer.skip(text.len() as int + 1)
}

/// Writes `src` into `buffer` as a C string. The buffer must be longer than
/// the text, so that the terminator fits: a caller that cannot know this
/// tests it first, and has nothing to go on with where it fails.
pub fn create_null_terminated_string(src: &str, buffer: &mut [u8])
    requires
        old(buffer)@.len() > src.spec_bytes().len(),
    ensures
        final(buffer)@ == nul_terminated(src.spec_bytes(), old(buffer)@),
{
    let bytes = src.as_bytes();
    let len = bytes.len();
    let mut i: usize = 0;
    while i < len
        invariant
            i <= len,
            len == bytes@.len(),
            len < buffer@.len(),
            buffer@.len() == old(buffer)@.len(),
            forall|k: int| 0 <= k < i ==> buffer@[k] == bytes@[k],
            forall|k: int| i <= k < buffer@.len() ==> buffer@[k] == old(buffer)@[k],
        decreases len - i,
    {
        buffer[i] = bytes[i];
        i += 1;
    }
    buffer[len] = 0;
}

} // verus!
