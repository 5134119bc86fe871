//! The output sink's decision.
//!
//! A finished bitstream is returned to the caller either way; whether
//! the copy persisted to disk is first wrapped into a container is
//! decided here, by the destination path alone: a path whose UTF-8
//! bytes end in `.mp4` is muxed, any other path receives the raw
//! bitstream verbatim, and without a path nothing is persisted. The
//! writing itself — directories, files, the container writer — is the
//! host's; it must hand the muxer, or the file, exactly the returned
//! buffer.

use vstd::prelude::*;
use vstd::utf8::encode_utf8;

verus! {

/// How the host must dispose of the finished buffer at a path.
#[derive(Clone, Copy, PartialEq, Eq, Structural, Debug)]
pub enum OutputAction {
    /// Wrap the bitstream into a container at the declared geometry.
    MuxMp4,
    /// Write the bitstream verbatim: the file must be byte-identical
    /// to the returned buffer.
    WriteRaw,
}

/// Whether the encoded path ends in the four bytes `.mp4`
/// (46, 109, 112, 52) with a file-name byte before the dot: a path
/// whose final component is exactly `.mp4` is a dotfile without an
/// extension, so it takes the raw bitstream instead.
pub open spec fn spec_is_mp4(b: Seq<u8>) -> bool {
    &&& b.len() >= 5
    &&& b[b.len() - 5] != 47u8
    &&& b[b.len() - 4] == 46u8
    &&& b[b.len() - 3] == 109u8
    &&& b[b.len() - 2] == 112u8
    &&& b[b.len() - 1] == 52u8
}

/// Decides the disposition of the finished buffer for a destination
/// path: exactly the paths ending in `.mp4` are muxed.
pub fn output_action(path: &String) -> (r: OutputAction)
    ensures
        r is MuxMp4 <==> spec_is_mp4(encode_utf8(path@)),
        r is WriteRaw <==> !spec_is_mp4(encode_utf8(path@)),
{
    let b: &[u8] = path.as_str().as_bytes();
    let n: usize = b.len();
    if n >= 5 && b[n - 5] != 47 && b[n - 4] == 46 && b[n - 3] == 109 && b[n - 2] == 112
        && b[n - 1] == 52 {
        OutputAction::MuxMp4
    } else {
        OutputAction::WriteRaw
    }
}

} // verus!
