use vstd::prelude::*;

use crate::pubkey::Pubkey;

verus! {

/// A move of lamports that an instruction asks the system program to make.
/// When `signer_seeds` is not empty, the program signs for `from` with the
/// seeds of that program-derived address.
pub struct Transfer {
    pub from: Pubkey,
    pub to: Pubkey,
    pub lamports: u64,
    pub signer_seeds: Vec<Vec<u8>>,
}

impl Transfer {
    /// The signer seeds as byte sequences.
    pub open spec fn seeds(&self) -> Seq<Seq<u8>> {
        self.signer_seeds@.map_values(|s: Vec<u8>| s@)
    }

    /// A transfer that the owner of `from` signs for itself.
    pub open spec fn is_plain(&self, from: Pubkey, to: Pubkey, lamports: u64) -> bool {
        &&& self.from == from
        &&& self.to == to
        &&& self.lamports == lamports
        &&& self.seeds() == Seq::<Seq<u8>>::empty()
    }

    /// A transfer that the program signs for with the seeds `prefix`, `key`, `[bump]`.
    pub open spec fn is_signed(
        &self,
        from: Pubkey,
        to: Pubkey,
        lamports: u64,
        prefix: Seq<u8>,
        key: Pubkey,
        bump: u8,
    ) -> bool {
        &&& self.from == from
        &&& self.to == to
        &&& self.lamports == lamports
        &&& self.seeds() == pda_seeds(prefix, key, bump)
    }

    pub fn plain(from: Pubkey, to: Pubkey, lamports: u64) -> (t: Transfer)
        ensures
            t.is_plain(from, to, lamports),
    {
        let t = Transfer { from, to, lamports, signer_seeds: Vec::new() };
        assert(t.seeds() =~= Seq::<Seq<u8>>::empty());
        t
    }

    pub fn signed(from: Pubkey, to: Pubkey, lamports: u64, prefix: Vec<u8>, key: &Pubkey, bump: u8) -> (t:
        Transfer)
        ensures
            t.is_signed(from, to, lamports, prefix@, *key, bump),
    {
        let mut seeds: Vec<Vec<u8>> = Vec::new();
        seeds.push(prefix);
        seeds.push(key.to_vec());
        let mut last: Vec<u8> = Vec::new();
        last.push(bump);
        seeds.push(last);
        let t = Transfer { from, to, lamports, signer_seeds: seeds };
        assert(t.seeds() =~= pda_seeds(prefix@, *key, bump));
        t
    }
}

/// The seeds of a program-derived address: a prefix, a key and the bump.
pub open spec fn pda_seeds(prefix: Seq<u8>, key: Pubkey, bump: u8) -> Seq<Seq<u8>> {
    seq![prefix, key@, seq![bump]]
}

/// The bytes of `b"vault"`, the prefix of a bet's vault address.
pub open spec fn vault_prefix() -> Seq<u8> {
    seq![118u8, 97u8, 117u8, 108u8, 116u8]
}

/// The bytes of `b"treasury"`, the prefix of the house treasury's address.
pub open spec fn treasury_prefix() -> Seq<u8> {
    seq![116u8, 114u8, 101u8, 97u8, 115u8, 117u8, 114u8, 121u8]
}

pub fn vault_prefix_bytes() -> (v: Vec<u8>)
    ensures
        v@ == vault_prefix(),
{
    let v: Vec<u8> = vec![118u8, 97u8, 117u8, 108u8, 116u8];
    assert(v@ =~= vault_prefix());
    v
}

pub fn treasury_prefix_bytes() -> (v: Vec<u8>)
    ensures
        v@ == treasury_prefix(),
{
    let v: Vec<u8> = vec![116u8, 114u8, 101u8, 97u8, 115u8, 117u8, 114u8, 121u8];
    assert(v@ =~= treasury_prefix());
    v
}

} // verus!
