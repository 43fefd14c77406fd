//! Pure bit-decoding of a raw permission mode into symbolic
//! read/write/execute triads for owner, group and other.

use vstd::prelude::*;
use vstd::string::StringExecFns;

verus! {

/// The three 3-bit permission fields of a filesystem entry, decoded
/// from the low nine bits of its raw mode.
pub struct FilePermissions {
    pub owner: u32,
    pub group: u32,
    pub other: u32,
}

/// The three characters that stand for a single 3-bit permission field:
/// `r` if bit 2 is set, `w` if bit 1 is set, `x` if bit 0 is set, and
/// `-` in place of each unset bit.
pub open spec fn sym_seq(bits: u32) -> Seq<char> {
    seq![
        if bits & 4 == 4 { 'r' } else { '-' },
        if bits & 2 == 2 { 'w' } else { '-' },
        if bits & 1 == 1 { 'x' } else { '-' },
    ]
}

impl FilePermissions {
    /// Every field is a 3-bit value.
    pub open spec fn wf(self) -> bool {
        self.owner < 8 && self.group < 8 && self.other < 8
    }

    /// Decodes a raw mode: bits 6-8 are the owner field, bits 3-5 the
    /// group field, bits 0-2 the other field; anything above bit 8 is
    /// discarded.
    pub fn from_permission_mode(mode: u32) -> (p: FilePermissions)
        ensures
            p.wf(),
            p.owner == (mode >> 6) & 7,
            p.group == (mode >> 3) & 7,
            p.other == mode & 7,
    {
        let permissions_u32 = mode & 511;
        let p = FilePermissions {
            owner: (permissions_u32 >> 6) & 7,
            group: (permissions_u32 >> 3) & 7,
            other: permissions_u32 & 7,
        };
        proof {
            assert(((mode & 511) >> 6) & 7 == (mode >> 6) & 7) by (bit_vector);
            assert(((mode & 511) >> 3) & 7 == (mode >> 3) & 7) by (bit_vector);
            assert((mode & 511) & 7 == mode & 7) by (bit_vector);
            assert((mode >> 6) & 7 < 8) by (bit_vector);
            assert((mode >> 3) & 7 < 8) by (bit_vector);
            assert(mode & 7 < 8) by (bit_vector);
        }
        p
    }

    /// Renders one 3-bit field as its three-character symbol; only the
    /// low three bits of the argument are read.
    pub fn to_symbol_single(permission_bits: u32) -> (r: String)
        ensures
            r@ == sym_seq(permission_bits),
    {
        let c0 = if permission_bits & 4 == 4 { "r" } else { "-" };
        let c1 = if permission_bits & 2 == 2 { "w" } else { "-" };
        let c2 = if permission_bits & 1 == 1 { "x" } else { "-" };
        let r = String::from_str(c0).concat(c1).concat(c2);
        proof {
            reveal_strlit("r");
            reveal_strlit("w");
            reveal_strlit("x");
            reveal_strlit("-");
            assert(r@ =~= sym_seq(permission_bits));
        }
        r
    }
}

/// Decoding partitions the low nine bits of the mode: shifting the
/// three decoded fields back into place reconstructs `mode & 511`
/// exactly.
pub proof fn lemma_mode_partition(mode: u32)
    ensures
        ((((mode >> 6) & 7) << 6) | (((mode >> 3) & 7) << 3)) | (mode & 7) == mode & 511,
{
    assert(((((mode >> 6) & 7) << 6) | (((mode >> 3) & 7) << 3)) | (mode & 7) == mode & 511)
        by (bit_vector);
}

/// The symbol of a 3-bit field determines the field: distinct values
/// in the range admitted by `FilePermissions::wf` render to distinct
/// symbol strings, so `sym_seq` is injective there (and it is total by
/// construction).
pub proof fn lemma_symbol_injective(a: u32, b: u32)
    requires
        a < 8,
        b < 8,
        sym_seq(a) == sym_seq(b),
    ensures
        a == b,
{
    assert(sym_seq(a)[0] == sym_seq(b)[0]);
    assert(sym_seq(a)[1] == sym_seq(b)[1]);
    assert(sym_seq(a)[2] == sym_seq(b)[2]);
    assert((a & 4 == 4) == (b & 4 == 4));
    assert((a & 2 == 2) == (b & 2 == 2));
    assert((a & 1 == 1) == (b & 1 == 1));
    assert(a < 8 && b < 8 && (a & 4 == 4) == (b & 4 == 4) && (a & 2 == 2) == (b & 2 == 2)
        && (a & 1 == 1) == (b & 1 == 1) ==> a == b) by (bit_vector);
}

} // verus!
