//! Editor-integration logic for an assembly language server.
//!
//! The crate resolves the path of the `asm-lsp` executable from a host-supplied
//! search result, assembles the launch command for the server, formats the
//! server's completion and symbol items into display labels with highlighting
//! categories, and extracts the comment block standing immediately above a
//! source line.

pub mod comments;
pub mod labels;
pub mod server;

use vstd::prelude::*;

verus! {

/// Appends all of `src` to `dst`.
pub fn append_bytes(dst: &mut Vec<u8>, src: &Vec<u8>)
    ensures
        final(dst)@ == old(dst)@ + src@,
{
    let mut i: usize = 0;
    while i < src.len()
        invariant
            i <= src.len(),
            dst@ == old(dst)@ + src@.take(i as int),
        decreases src.len() - i,
    {
        dst.push(src[i]);
        i = i + 1;
        proof {
            assert(old(dst)@ + src@.take(i as int) =~= (old(dst)@ + src@.take(i - 1)).push(
                src@[i - 1],
            ));
        }
    }
    proof {
        assert(src@.take(src@.len() as int) =~= src@);
    }
}

} // verus!
