//! Account addresses as 32 plain bytes, and the well-known addresses the programs check.
use vstd::prelude::*;

verus! {

/// A 32-byte account address.
#[derive(Clone, Copy, Debug)]
pub struct Pubkey {
    pub bytes: [u8; 32],
}

impl View for Pubkey {
    type V = Seq<u8>;

    open spec fn view(&self) -> Seq<u8> {
        self.bytes@
    }
}

impl Pubkey {
    pub fn new_from_array(bytes: [u8; 32]) -> (r: Pubkey)
        ensures
            r.bytes == bytes,
    {
        Pubkey { bytes }
    }

    pub fn to_bytes(&self) -> (r: [u8; 32])
        ensures
            r == self.bytes,
    {
        self.bytes
    }

    /// Byte-wise equality of two addresses.
    pub fn same(&self, other: &Pubkey) -> (r: bool)
        ensures
            r == (self@ == other@),
    {
        let mut i: usize = 0;
        while i < 32
            invariant
                i <= 32,
                self@.len() == 32,
                other@.len() == 32,
                forall|j: int| 0 <= j < i ==> self@[j] == other@[j],
            decreases 32 - i,
        {
            if self.bytes[i] != other.bytes[i] {
                assert(self@[i as int] != other@[i as int]);
                return false;
            }
            i = i + 1;
        }
        assert(self@ =~= other@);
        true
    }

    /// The address as a byte vector (its borsh encoding).
    pub fn to_vec(&self) -> (r: Vec<u8>)
        ensures
            r@ == self@,
    {
        let mut v: Vec<u8> = Vec::new();
        let mut i: usize = 0;
        while i < 32
            invariant
                i <= 32,
                self@.len() == 32,
                v@ == self@.subrange(0, i as int),
            decreases 32 - i,
        {
            v.push(self.bytes[i]);
            i = i + 1;
            assert(v@ =~= self@.subrange(0, i as int));
        }
        assert(self@.subrange(0, 32) =~= self@);
        v
    }
}

/// The system program's address, `11111111111111111111111111111111`.
pub open spec fn system_program_key() -> Pubkey {
    Pubkey { bytes: [
            0, 0, 0, 0, 0, 0, 0, 0, 0, 0, 0, 0, 0, 0, 0, 0, 0, 0, 0, 0, 0, 0, 0, 0, 0, 0, 0, 0, 0, 0, 0, 0,
        ] }
}

/// The clock sysvar's address, `SysvarC1ock11111111111111111111111111111111`.
pub open spec fn clock_sysvar_key() -> Pubkey {
    Pubkey {
        bytes: [
            6, 167, 213, 23, 24, 199, 116, 201, 40, 86, 99, 152, 105, 29, 94, 182, 139, 94, 184,
            163, 155, 75, 109, 92, 115, 85, 91, 33, 0, 0, 0, 0,
        ],
    }
}

/// The instructions sysvar's address, `Sysvar1nstructions1111111111111111111111111`.
pub open spec fn instructions_sysvar_key() -> Pubkey {
    Pubkey {
        bytes: [
            6, 167, 213, 23, 24, 123, 209, 102, 53, 218, 212, 4, 85, 253, 194, 192, 193, 36, 198,
            143, 33, 86, 117, 165, 219, 186, 203, 95, 8, 0, 0, 0,
        ],
    }
}

/// The vault program's address, `6dVLkpmd5BvVQF7oXpipnQFtKwba2uQkMMwzHnaqf8Gr`.
pub open spec fn vault_program_key() -> Pubkey {
    Pubkey {
        bytes: [
            83, 163, 99, 122, 199, 240, 174, 136, 234, 110, 78, 59, 224, 157, 93, 103, 205, 150, 88,
            53, 227, 126, 244, 46, 100, 217, 151, 138, 221, 160, 84, 99,
        ],
    }
}

pub fn system_program_id() -> (r: Pubkey)
    ensures
        r == system_program_key(),
{
    Pubkey { bytes: [
            0, 0, 0, 0, 0, 0, 0, 0, 0, 0, 0, 0, 0, 0, 0, 0, 0, 0, 0, 0, 0, 0, 0, 0, 0, 0, 0, 0, 0, 0, 0, 0,
        ] }
}

pub fn clock_sysvar_id() -> (r: Pubkey)
    ensures
        r == clock_sysvar_key(),
{
    Pubkey {
        bytes: [
            6, 167, 213, 23, 24, 199, 116, 201, 40, 86, 99, 152, 105, 29, 94, 182, 139, 94, 184,
            163, 155, 75, 109, 92, 115, 85, 91, 33, 0, 0, 0, 0,
        ],
    }
}

pub fn instructions_sysvar_id() -> (r: Pubkey)
    ensures
        r == instructions_sysvar_key(),
{
    Pubkey {
        bytes: [
            6, 167, 213, 23, 24, 123, 209, 102, 53, 218, 212, 4, 85, 253, 194, 192, 193, 36, 198,
            143, 33, 86, 117, 165, 219, 186, 203, 95, 8, 0, 0, 0,
        ],
    }
}

} // verus!
