use crate::derivation::spec_admin_seeds;
use crate::pubkey::Pubkey;
use vstd::prelude::*;

verus! {

/// Environment values the host reads once per invocation and hands in before
/// any handler runs: the minimum balances that make each allocation
/// rent-exempt, and the current time.
#[derive(Clone, Copy, Debug, PartialEq, Eq, Structural)]
pub struct HostEnv {
    pub admin_record_rent: u64,
    pub mint_rent: u64,
    pub rating_record_rent: u64,
    pub unix_timestamp: i64,
}

/// The mathematical view of an authority proof.
pub ghost struct AuthorityProofV {
    pub seeds: Seq<Seq<u8>>,
    pub bump: u8,
}

/// A capability reconstructed from derivation seeds: presenting the seed
/// slices together with the bump authorizes effects as the derived address,
/// in place of a private key. It is rebuilt from the seeds each time and
/// threaded explicitly into every effect that needs it, never stored.
#[derive(Clone, Debug, PartialEq, Eq)]
pub struct AuthorityProof {
    pub seeds: Vec<Vec<u8>>,
    pub bump: u8,
}

impl DeepView for AuthorityProof {
    type V = AuthorityProofV;

    open spec fn deep_view(&self) -> AuthorityProofV {
        AuthorityProofV { seeds: self.seeds.deep_view(), bump: self.bump }
    }
}

/// The authority proof of the admin record's derived address.
pub open spec fn spec_admin_proof(bump: u8) -> AuthorityProofV {
    AuthorityProofV { seeds: spec_admin_seeds(), bump }
}

/// The mathematical view of one effect.
pub ghost enum EffectV {
    CreateAccount {
        from: Seq<u8>,
        to: Seq<u8>,
        lamports: u64,
        space: u64,
        owner: Seq<u8>,
        authority: Option<AuthorityProofV>,
    },
    InitializeMint { mint: Seq<u8>, mint_authority: Seq<u8>, decimals: u8 },
    CreateAssociatedTokenAccount { funding: Seq<u8>, account: Seq<u8>, wallet: Seq<u8>, mint: Seq<u8> },
    MintTo {
        mint: Seq<u8>,
        account: Seq<u8>,
        mint_authority: Seq<u8>,
        amount: u64,
        authority: AuthorityProofV,
    },
    TransferChecked {
        from: Seq<u8>,
        mint: Seq<u8>,
        to: Seq<u8>,
        authority_account: Seq<u8>,
        amount: u64,
        decimals: u8,
        authority: AuthorityProofV,
    },
    WriteRecord { account: Seq<u8>, bytes: Seq<u8> },
    MoveLamports { from: Seq<u8>, to: Seq<u8>, amount: u64 },
    CloseAccount { account: Seq<u8> },
}

/// One mutation for the host to perform. A handler validates every
/// precondition first and only then emits its full effect list, in order, so
/// a failed invocation emits no effect at all.
#[derive(Clone, Debug, PartialEq, Eq)]
pub enum Effect {
    /// Allocate a zeroed account of the given size under the given owner,
    /// funding it with the given balance; signed with an authority proof when
    /// the new address is program-derived.
    CreateAccount {
        from: Pubkey,
        to: Pubkey,
        lamports: u64,
        space: u64,
        owner: Pubkey,
        authority: Option<AuthorityProof>,
    },
    /// Initialize a mint of the external token ledger.
    InitializeMint { mint: Pubkey, mint_authority: Pubkey, decimals: u8 },
    /// Create the associated token account of a wallet for a mint.
    CreateAssociatedTokenAccount { funding: Pubkey, account: Pubkey, wallet: Pubkey, mint: Pubkey },
    /// Mint tokens into an account, authorized as the mint authority.
    MintTo {
        mint: Pubkey,
        account: Pubkey,
        mint_authority: Pubkey,
        amount: u64,
        authority: AuthorityProof,
    },
    /// Move tokens between accounts of one mint, authorized as the source
    /// account's owner.
    TransferChecked {
        from: Pubkey,
        mint: Pubkey,
        to: Pubkey,
        authority_account: Pubkey,
        amount: u64,
        decimals: u8,
        authority: AuthorityProof,
    },
    /// Write an encoded record into an account's data.
    WriteRecord { account: Pubkey, bytes: Vec<u8> },
    /// Move native balance between two accounts.
    MoveLamports { from: Pubkey, to: Pubkey, amount: u64 },
    /// Mark an account closed and reclaimed.
    CloseAccount { account: Pubkey },
}

impl DeepView for Effect {
    type V = EffectV;

    open spec fn deep_view(&self) -> EffectV {
        match self {
            Effect::CreateAccount { from, to, lamports, space, owner, authority } => {
                EffectV::CreateAccount {
                    from: from@,
                    to: to@,
                    lamports: *lamports,
                    space: *space,
                    owner: owner@,
                    authority: authority.deep_view(),
                }
            },
            Effect::InitializeMint { mint, mint_authority, decimals } => {
                EffectV::InitializeMint {
                    mint: mint@,
                    mint_authority: mint_authority@,
                    decimals: *decimals,
                }
            },
            Effect::CreateAssociatedTokenAccount { funding, account, wallet, mint } => {
                EffectV::CreateAssociatedTokenAccount {
                    funding: funding@,
                    account: account@,
                    wallet: wallet@,
                    mint: mint@,
                }
            },
            Effect::MintTo { mint, account, mint_authority, amount, authority } => {
                EffectV::MintTo {
                    mint: mint@,
                    account: account@,
                    mint_authority: mint_authority@,
                    amount: *amount,
                    authority: authority.deep_view(),
                }
            },
            Effect::TransferChecked {
                from,
                mint,
                to,
                authority_account,
                amount,
                decimals,
                authority,
            } => {
                EffectV::TransferChecked {
                    from: from@,
                    mint: mint@,
                    to: to@,
                    authority_account: authority_account@,
                    amount: *amount,
                    decimals: *decimals,
                    authority: authority.deep_view(),
                }
            },
            Effect::WriteRecord { account, bytes } => {
                EffectV::WriteRecord { account: account@, bytes: bytes@ }
            },
            Effect::MoveLamports { from, to, amount } => {
                EffectV::MoveLamports { from: from@, to: to@, amount: *amount }
            },
            Effect::CloseAccount { account } => EffectV::CloseAccount { account: account@ },
        }
    }
}

} // verus!
