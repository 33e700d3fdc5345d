//! Binary patching of file contents with bsdiff 4 patch programs.

use vstd::prelude::*;

verus! {

/// `std::io::Error`, carried opaquely out of the patcher.
#[verifier::external_type_specification]
#[verifier::external_body]
pub struct ExIoError(std::io::Error);

/// Number of bytes in a bsdiff 4 header.
pub const HEADER_LEN: usize = 32;

/// Little-endian value of a byte sequence.
pub open spec fn le_value(b: Seq<u8>) -> nat
    decreases b.len(),
{
    if b.len() == 0 {
        0
    } else {
        b[0] as nat + 256 * le_value(b.drop_first())
    }
}

/// `256` raised to `k`.
pub open spec fn pow256(k: nat) -> nat
    decreases k,
{
    if k == 0 {
        1
    } else {
        256 * pow256((k - 1) as nat)
    }
}

/// A sign-magnitude header field reinterpreted as an unsigned 64-bit size,
/// which is how the patcher reads the lengths of the header's sections.
pub open spec fn header_size(x: nat) -> nat {
    if x <= 0x8000_0000_0000_0000 {
        x
    } else {
        (0x1_0000_0000_0000_0000 - (x - 0x8000_0000_0000_0000)) as nat
    }
}

/// The size held by the 8-byte header field at `off`.
pub open spec fn header_field(p: Seq<u8>, off: int) -> nat {
    header_size(le_value(p.subrange(off, off + 8)))
}

/// The header's section lengths can be added up without leaving `u64`
/// (a patch shorter than a header is rejected before they are read).
pub open spec fn header_sizes_fit(p: Seq<u8>) -> bool {
    p.len() < 32 || 32 + header_field(p, 8) + header_field(p, 16) <= u64::MAX
}

/// What the bsdiff 4 patcher produces from `old` and `patch`: the new
/// contents, or nothing where the patch is malformed or does not fit `old`.
pub uninterp spec fn bspatch_output(old: Seq<u8>, patch: Seq<u8>) -> Option<Seq<u8>>;

/// The result of patching, where a header whose sizes overflow counts as
/// malformed.
pub open spec fn patched(old: Seq<u8>, patch: Seq<u8>) -> Option<Seq<u8>> {
    if header_sizes_fit(patch) {
        bspatch_output(old, patch)
    } else {
        None
    }
}

/// Relies on `qbsdiff::Bspatch::new` and `Bspatch::apply`: parsing the patch
/// and writing its output into a buffer is a function of the two byte
/// strings. `new` adds the header's section lengths in `u64`, so the header
/// must keep that sum in range.
#[verifier::external_body]
fn bspatch(old: &[u8], patch: &[u8]) -> (r: Result<Vec<u8>, std::io::Error>)
    requires
        header_sizes_fit(patch@),
    ensures
        match r {
            Ok(v) => bspatch_output(old@, patch@) == Some(v@),
            Err(_) => bspatch_output(old@, patch@) is None,
        },
{
    let mut out = Vec::new();
    qbsdiff::Bspatch::new(patch)?.apply(old, std::io::Cursor::new(&mut out))?;
    Ok(out)
}

proof fn lemma_le_value_bound(b: Seq<u8>)
    ensures
        le_value(b) < pow256(b.len()),
    decreases b.len(),
{
    if b.len() > 0 {
        lemma_le_value_bound(b.drop_first());
        let x = le_value(b.drop_first());
        let p = pow256(b.drop_first().len());
        assert(b[0] as nat + 256 * x < 256 * p) by (nonlinear_arith)
            requires
                x < p,
                b[0] < 256,
        ;
    }
}

/// Reads the little-endian 8-byte field of `p` at `off`.
fn read_le_u64(p: &Vec<u8>, off: usize) -> (r: u64)
    requires
        off <= 16,
        off + 8 <= p@.len(),
    ensures
        r as nat == le_value(p@.subrange(off as int, off + 8)),
{
    let mut x: u64 = 0;
    let mut i: usize = 8;
    proof {
        assert(p@.subrange(off + 8, off + 8) =~= Seq::<u8>::empty());
    }
    while i > 0
        invariant
            off <= 16,
            off + 8 <= p@.len(),
            i <= 8,
            x as nat == le_value(p@.subrange(off + i, off + 8)),
        decreases i,
    {
        let b = p[off + i - 1];
        proof {
            let s = p@.subrange(off + i - 1, off + 8);
            assert(s.drop_first() =~= p@.subrange(off + i, off + 8));
            lemma_le_value_bound(s);
            assert(s.len() <= 8);
            assert(pow256(s.len()) <= pow256(8)) by {
                reveal_with_fuel(pow256, 9);
            }
            assert(pow256(8) == 0x1_0000_0000_0000_0000) by {
                reveal_with_fuel(pow256, 9);
            }
        }
        x = b as u64 + 256 * x;
        i = i - 1;
    }
    x
}

/// The size a header field holds, as the patcher reads it.
fn field_size(x: u64) -> (r: u64)
    ensures
        r as nat == header_size(x as nat),
{
    if x <= 0x8000_0000_0000_0000 {
        x
    } else {
        (u64::MAX - (x - 0x8000_0000_0000_0000)) + 1
    }
}

/// Whether the header's section lengths can be added up without overflow.
pub fn sizes_fit(patch: &Vec<u8>) -> (r: bool)
    ensures
        r == header_sizes_fit(patch@),
{
    if patch.len() < HEADER_LEN {
        return true;
    }
    let c = field_size(read_le_u64(patch, 8));
    let d = field_size(read_le_u64(patch, 16));
    c <= u64::MAX - 32 && d <= u64::MAX - 32 - c
}

/// Why a patch could not be applied.
#[derive(Clone, Copy, Debug, PartialEq, Eq, Structural)]
pub enum PatchError {
    /// The patch is not a well-formed program, or does not fit the old bytes.
    CorruptPatch,
}

/// Applies the bsdiff 4 program `patch` to `old`. Fails exactly where the
/// patch is malformed or reads outside what it describes.
pub fn apply_patch(old: &Vec<u8>, patch: &Vec<u8>) -> (r: Result<Vec<u8>, PatchError>)
    ensures
        match r {
            Ok(v) => patched(old@, patch@) == Some(v@),
            Err(e) => patched(old@, patch@) is None && e == PatchError::CorruptPatch,
        },
{
    if !sizes_fit(patch) {
        return Err(PatchError::CorruptPatch);
    }
    match bspatch(old.as_slice(), patch.as_slice()) {
        Ok(v) => Ok(v),
        Err(_) => Err(PatchError::CorruptPatch),
    }
}

} // verus!
