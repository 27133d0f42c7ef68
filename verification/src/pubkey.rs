use vstd::prelude::*;

verus! {

/// A 32-byte account address.
pub type Pubkey = [u8; 32];

/// The identity of this program: owner tag of every record it manages and
/// base of every address derivation it performs.
pub open spec fn spec_id() -> Seq<u8> {
    seq![
        0x8cu8, 0xff, 0xc2, 0x21, 0x92, 0x2d, 0x48, 0x74, 0x7a, 0x82, 0xe5, 0xc5, 0x08, 0x70,
        0x45, 0x90, 0xda, 0x82, 0x11, 0x57, 0x89, 0x65, 0x1f, 0x51, 0x63, 0x62, 0x3d, 0x54,
        0x72, 0x4d, 0x64, 0xd4,
    ]
}

pub fn program_id() -> (r: Pubkey)
    ensures
        r@ == spec_id(),
{
    let r: Pubkey = [
        0x8cu8, 0xff, 0xc2, 0x21, 0x92, 0x2d, 0x48, 0x74, 0x7a, 0x82, 0xe5, 0xc5, 0x08, 0x70,
        0x45, 0x90, 0xda, 0x82, 0x11, 0x57, 0x89, 0x65, 0x1f, 0x51, 0x63, 0x62, 0x3d, 0x54,
        0x72, 0x4d, 0x64, 0xd4,
    ];
    proof {
        assert(r@ =~= spec_id());
    }
    r
}

/// The identity of the host's system program, which owns all not-yet-allocated
/// accounts.
pub open spec fn spec_system_program_id() -> Seq<u8> {
    Seq::new(32, |i: int| 0u8)
}

pub fn system_program_id() -> (r: Pubkey)
    ensures
        r@ == spec_system_program_id(),
{
    let r: Pubkey = [0u8; 32];
    proof {
        assert(r@ =~= spec_system_program_id());
    }
    r
}

/// The identity of the external fungible-token ledger program.
pub open spec fn spec_token_program_id() -> Seq<u8> {
    seq![
        6u8, 221, 246, 225, 215, 101, 161, 147, 217, 203, 225, 70, 206, 235, 121, 172, 28, 180,
        133, 237, 95, 91, 55, 145, 58, 140, 245, 133, 126, 255, 0, 169,
    ]
}

pub fn token_program_id() -> (r: Pubkey)
    ensures
        r@ == spec_token_program_id(),
{
    let r: Pubkey = [
        6u8, 221, 246, 225, 215, 101, 161, 147, 217, 203, 225, 70, 206, 235, 121, 172, 28, 180,
        133, 237, 95, 91, 55, 145, 58, 140, 245, 133, 126, 255, 0, 169,
    ];
    proof {
        assert(r@ =~= spec_token_program_id());
    }
    r
}

/// The identity of the external associated-token-account program, base of the
/// derived-ATA rule.
pub open spec fn spec_ata_program_id() -> Seq<u8> {
    seq![
        140u8, 151, 37, 143, 78, 36, 137, 241, 187, 61, 16, 41, 20, 142, 13, 131, 11, 90, 19,
        153, 218, 255, 16, 132, 4, 142, 123, 216, 219, 233, 248, 89,
    ]
}

pub fn ata_program_id() -> (r: Pubkey)
    ensures
        r@ == spec_ata_program_id(),
{
    let r: Pubkey = [
        140u8, 151, 37, 143, 78, 36, 137, 241, 187, 61, 16, 41, 20, 142, 13, 131, 11, 90, 19,
        153, 218, 255, 16, 132, 4, 142, 123, 216, 219, 233, 248, 89,
    ];
    proof {
        assert(r@ =~= spec_ata_program_id());
    }
    r
}

/// Read a 32-byte address out of a byte buffer at the given offset.
pub fn read_key(data: &[u8], offset: usize) -> (r: Pubkey)
    requires
        offset + 32 <= data@.len(),
    ensures
        r@ == data@.subrange(offset as int, offset as int + 32),
{
    let n: usize = data.len();
    let mut r: Pubkey = [0u8; 32];
    let mut i: usize = 0;
    while i < 32
        invariant
            i <= 32,
            offset + 32 <= n,
            n == data@.len(),
            forall|j: int| 0 <= j < i ==> r@[j] == data@[offset + j],
        decreases 32 - i,
    {
        r[i] = data[offset + i];
        i = i + 1;
    }
    proof {
        assert(r@ =~= data@.subrange(offset as int, offset as int + 32));
    }
    r
}

/// Append a 32-byte address to a byte buffer being built up.
pub fn push_key(out: &mut Vec<u8>, key: &Pubkey)
    ensures
        final(out)@ == old(out)@ + key@,
{
    let mut i: usize = 0;
    while i < 32
        invariant
            i <= 32,
            out@ == old(out)@ + key@.subrange(0, i as int),
        decreases 32 - i,
    {
        out.push(key[i]);
        proof {
            assert(old(out)@ + key@.subrange(0, i + 1 as int) =~= (old(out)@ + key@.subrange(
                0,
                i as int,
            )).push(key@[i as int]));
        }
        i = i + 1;
    }
    proof {
        assert(key@.subrange(0, 32) =~= key@);
    }
}

/// Copy a 32-byte address into a fresh byte vector.
pub fn key_to_vec(key: &Pubkey) -> (r: Vec<u8>)
    ensures
        r@ == key@,
{
    let mut r: Vec<u8> = Vec::new();
    push_key(&mut r, key);
    proof {
        assert(Seq::<u8>::empty() + key@ =~= key@);
    }
    r
}

/// Byte-wise equality of two addresses.
pub fn pubkey_eq(a: &Pubkey, b: &Pubkey) -> (r: bool)
    ensures
        r == (a@ == b@),
{
    let mut i: usize = 0;
    while i < 32
        invariant
            i <= 32,
            forall|j: int| 0 <= j < i ==> a@[j] == b@[j],
        decreases 32 - i,
    {
        if a[i] != b[i] {
            return false;
        }
        i = i + 1;
    }
    proof {
        assert(a@ =~= b@);
    }
    true
}

} // verus!
