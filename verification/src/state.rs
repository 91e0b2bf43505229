use vstd::prelude::*;

use crate::errors::GatewayError;
use crate::ids::{copy_bytes, AccountId, ID_LEN};

verus! {

/// The packed size of a [`ProgramState`] record: the identity width plus
/// eight bytes of balance.
pub const STATE_LEN: usize = 40;

/// The little-endian bytes of a 64-bit balance.
pub open spec fn u64_le_bytes(v: u64) -> Seq<u8> {
    seq![
        (v & 0xff) as u8,
        ((v >> 8) & 0xff) as u8,
        ((v >> 16) & 0xff) as u8,
        ((v >> 24) & 0xff) as u8,
        ((v >> 32) & 0xff) as u8,
        ((v >> 40) & 0xff) as u8,
        ((v >> 48) & 0xff) as u8,
        ((v >> 56) & 0xff) as u8,
    ]
}

/// The 64-bit value read from eight little-endian bytes.
pub open spec fn u64_from_le(s: Seq<u8>) -> u64
    recommends
        s.len() == 8,
{
    (s[0] as u64) | ((s[1] as u64) << 8) | ((s[2] as u64) << 16) | ((s[3] as u64) << 24)
        | ((s[4] as u64) << 32) | ((s[5] as u64) << 40) | ((s[6] as u64) << 48)
        | ((s[7] as u64) << 56)
}

/// One byte of the little-endian encoding of `v`.
fn le_byte(v: u64, shift: u64) -> (r: u8)
    requires
        shift < 64,
    ensures
        r == ((v >> shift) & 0xff) as u8,
{
    proof {
        assert((v >> shift) & 0xff <= 0xff) by (bit_vector);
    }
    ((v >> shift) & 0xff) as u8
}

/// The privileged record a vault account persists: its owning authority and
/// its balance. It is packed into exactly [`STATE_LEN`] bytes and mutated
/// only through the validated instruction path.
#[derive(Debug)]
pub struct ProgramState {
    pub admin: AccountId,
    pub vault_amount: u64,
}

impl ProgramState {
    pub open spec fn wf(&self) -> bool {
        self.admin.wf()
    }

    /// The fixed packed layout: admin identity, then the balance in
    /// little-endian order.
    pub open spec fn spec_pack(&self) -> Seq<u8> {
        self.admin@ + u64_le_bytes(self.vault_amount)
    }

    /// Serializes the record into its fixed layout.
    pub fn pack(&self) -> (r: Vec<u8>)
        requires
            self.wf(),
        ensures
            r@ == self.spec_pack(),
            r@.len() == STATE_LEN,
    {
        let mut out = copy_bytes(self.admin.as_bytes());
        let v = self.vault_amount;
        out.push(le_byte(v, 0));
        out.push(le_byte(v, 8));
        out.push(le_byte(v, 16));
        out.push(le_byte(v, 24));
        out.push(le_byte(v, 32));
        out.push(le_byte(v, 40));
        out.push(le_byte(v, 48));
        out.push(le_byte(v, 56));
        proof {
            assert((v >> 0) & 0xff == v & 0xff) by (bit_vector);
            assert(out@ =~= self.spec_pack());
        }
        out
    }

    /// Deserializes a record, refusing any buffer whose length differs from
    /// the fixed layout size.
    pub fn unpack(input: &Vec<u8>) -> (r: Result<ProgramState, GatewayError>)
        ensures
            input@.len() != STATE_LEN ==> r == Err::<ProgramState, GatewayError>(
                GatewayError::InvalidLength,
            ),
            input@.len() == STATE_LEN ==> (r matches Ok(s) && s.wf() && s.admin@ == input@.subrange(
                0,
                ID_LEN as int,
            ) && s.vault_amount == u64_from_le(
                input@.subrange(ID_LEN as int, STATE_LEN as int),
            )),
    {
        if input.len() != STATE_LEN {
            return Err(GatewayError::InvalidLength);
        }
        let mut admin_bytes: Vec<u8> = Vec::new();
        for i in 0..ID_LEN
            invariant
                input@.len() == STATE_LEN,
                admin_bytes@ == input@.subrange(0, i as int),
        {
            admin_bytes.push(input[i]);
            proof {
                assert(admin_bytes@ =~= input@.subrange(0, i + 1));
            }
        }
        let admin = AccountId::from_bytes(admin_bytes).unwrap();
        let b0 = input[32] as u64;
        let b1 = input[33] as u64;
        let b2 = input[34] as u64;
        let b3 = input[35] as u64;
        let b4 = input[36] as u64;
        let b5 = input[37] as u64;
        let b6 = input[38] as u64;
        let b7 = input[39] as u64;
        let vault_amount: u64 = b0 | (b1 << 8) | (b2 << 16) | (b3 << 24) | (b4 << 32) | (b5 << 40)
            | (b6 << 48) | (b7 << 56);
        proof {
            let tail = input@.subrange(ID_LEN as int, STATE_LEN as int);
            assert(tail[0] == input@[32]);
            assert(tail[1] == input@[33]);
            assert(tail[2] == input@[34]);
            assert(tail[3] == input@[35]);
            assert(tail[4] == input@[36]);
            assert(tail[5] == input@[37]);
            assert(tail[6] == input@[38]);
            assert(tail[7] == input@[39]);
        }
        Ok(ProgramState { admin, vault_amount })
    }
}

/// Reading back the little-endian bytes of a value gives the value.
pub proof fn lemma_u64_le_round_trip(v: u64)
    ensures
        u64_from_le(u64_le_bytes(v)) == v,
{
    let s = u64_le_bytes(v);
    assert(s[0] == (v & 0xff) as u8);
    assert(s[1] == ((v >> 8) & 0xff) as u8);
    assert(s[2] == ((v >> 16) & 0xff) as u8);
    assert(s[3] == ((v >> 24) & 0xff) as u8);
    assert(s[4] == ((v >> 32) & 0xff) as u8);
    assert(s[5] == ((v >> 40) & 0xff) as u8);
    assert(s[6] == ((v >> 48) & 0xff) as u8);
    assert(s[7] == ((v >> 56) & 0xff) as u8);
    assert((((v & 0xff) as u8) as u64) | ((((v >> 8) & 0xff) as u8 as u64) << 8) | ((((v >> 16)
        & 0xff) as u8 as u64) << 16) | ((((v >> 24) & 0xff) as u8 as u64) << 24) | ((((v >> 32)
        & 0xff) as u8 as u64) << 32) | ((((v >> 40) & 0xff) as u8 as u64) << 40) | ((((v >> 48)
        & 0xff) as u8 as u64) << 48) | ((((v >> 56) & 0xff) as u8 as u64) << 56) == v)
        by (bit_vector);
}

/// Round-trip law: unpacking a packed record gives the record back, field
/// for field.
pub proof fn lemma_pack_unpack(s: ProgramState)
    requires
        s.wf(),
    ensures
        s.spec_pack().len() == STATE_LEN,
        s.spec_pack().subrange(0, ID_LEN as int) == s.admin@,
        u64_from_le(s.spec_pack().subrange(ID_LEN as int, STATE_LEN as int)) == s.vault_amount,
{
    let p = s.spec_pack();
    assert(p.subrange(0, ID_LEN as int) =~= s.admin@);
    assert(p.subrange(ID_LEN as int, STATE_LEN as int) =~= u64_le_bytes(s.vault_amount));
    lemma_u64_le_round_trip(s.vault_amount);
}

} // verus!
