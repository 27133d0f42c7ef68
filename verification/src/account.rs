use crate::pubkey::Pubkey;
use vstd::prelude::*;

verus! {

/// The mathematical view of an account handle.
pub ghost struct AccountV {
    pub key: Seq<u8>,
    pub owner: Seq<u8>,
    pub lamports: u64,
    pub data: Seq<u8>,
    pub is_signer: bool,
}

/// A plain-value snapshot of one account handle as the host presents it: its
/// address, the owning program's tag, its native balance, its raw data, and
/// whether this address signed the transaction.
pub struct Account {
    pub key: Pubkey,
    pub owner: Pubkey,
    pub lamports: u64,
    pub data: Vec<u8>,
    pub is_signer: bool,
}

impl View for Account {
    type V = AccountV;

    open spec fn view(&self) -> AccountV {
        AccountV {
            key: self.key@,
            owner: self.owner@,
            lamports: self.lamports,
            data: self.data@,
            is_signer: self.is_signer,
        }
    }
}

impl DeepView for Account {
    type V = AccountV;

    open spec fn deep_view(&self) -> AccountV {
        self.view()
    }
}

impl Account {
    /// An identical copy of this account snapshot.
    pub fn dup(&self) -> (r: Account)
        ensures
            r@ == self@,
    {
        let n: usize = self.data.len();
        let mut data: Vec<u8> = Vec::new();
        let mut i: usize = 0;
        while i < n
            invariant
                i <= n,
                n == self.data@.len(),
                data@ == self.data@.subrange(0, i as int),
            decreases n - i,
        {
            data.push(self.data[i]);
            proof {
                assert(self.data@.subrange(0, i + 1 as int) =~= self.data@.subrange(
                    0,
                    i as int,
                ).push(self.data@[i as int]));
            }
            i = i + 1;
        }
        proof {
            assert(self.data@.subrange(0, n as int) =~= self.data@);
        }
        Account {
            key: self.key,
            owner: self.owner,
            lamports: self.lamports,
            data,
            is_signer: self.is_signer,
        }
    }

    /// Whether the account holds no data at all.
    pub fn data_is_empty(&self) -> (r: bool)
        ensures
            r == (self@.data.len() == 0),
    {
        self.data.len() == 0
    }

    /// The byte length of the account's data.
    pub fn data_len(&self) -> (r: usize)
        ensures
            r == self@.data.len(),
    {
        self.data.len()
    }
}

} // verus!
