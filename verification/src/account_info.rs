use vstd::prelude::*;

verus! {

/// A 256-bit unsigned word, stored as four 64-bit limbs, least significant
/// first. Slot keys, slot values, balances and code hashes are all words of
/// this type; the state machine only ever compares them for equality.
#[derive(Clone, Copy, PartialEq, Eq, Structural, Debug)]
pub struct U256 {
    pub limb0: u64,
    pub limb1: u64,
    pub limb2: u64,
    pub limb3: u64,
}

impl U256 {
    /// The numeric value represented by the four limbs.
    pub open spec fn spec_value(self) -> nat {
        self.limb0 as nat + self.limb1 as nat * 0x1_0000_0000_0000_0000
            + self.limb2 as nat * 0x1_0000_0000_0000_0000_0000_0000_0000_0000
            + self.limb3 as nat
                * 0x1_0000_0000_0000_0000_0000_0000_0000_0000_0000_0000_0000_0000
    }

    /// The word zero.
    pub open spec fn spec_zero() -> U256 {
        U256 { limb0: 0, limb1: 0, limb2: 0, limb3: 0 }
    }

    pub fn zero() -> (r: U256)
        ensures
            r == U256::spec_zero(),
    {
        U256 { limb0: 0, limb1: 0, limb2: 0, limb3: 0 }
    }

    pub fn from_u64(v: u64) -> (r: U256)
        ensures
            r == (U256 { limb0: v, limb1: 0, limb2: 0, limb3: 0 }),
            r.spec_value() == v,
    {
        U256 { limb0: v, limb1: 0, limb2: 0, limb3: 0 }
    }

    pub fn from_limbs(limb0: u64, limb1: u64, limb2: u64, limb3: u64) -> (r: U256)
        ensures
            r == (U256 { limb0, limb1, limb2, limb3 }),
    {
        U256 { limb0, limb1, limb2, limb3 }
    }
}

/// Balance, nonce, code hash and optional code of an account.
///
/// The code blob rides along with the record; the state machine never reads
/// it. Two records are considered the same account state when balance, nonce
/// and code hash agree (the hash determines code identity), which is what
/// [`info_eq`] states.
#[derive(Debug)]
pub struct AccountInfo {
    pub balance: U256,
    pub nonce: u64,
    pub code_hash: U256,
    pub code: Option<Vec<u8>>,
}

/// Mathematical image of an [`AccountInfo`]: the code blob becomes a sequence.
#[verifier::ext_equal]
pub ghost struct AccountInfoSnap {
    pub balance: U256,
    pub nonce: u64,
    pub code_hash: U256,
    pub code: Option<Seq<u8>>,
}

impl View for AccountInfo {
    type V = AccountInfoSnap;

    open spec fn view(&self) -> AccountInfoSnap {
        AccountInfoSnap {
            balance: self.balance,
            nonce: self.nonce,
            code_hash: self.code_hash,
            code: match self.code {
                Option::Some(c) => Option::Some(c@),
                Option::None => Option::None,
            },
        }
    }
}

/// Account-state equality: balance, nonce and code hash agree. The stored
/// code blob is not compared; the code hash stands for it.
pub open spec fn info_eq(a: AccountInfoSnap, b: AccountInfoSnap) -> bool {
    a.balance == b.balance && a.nonce == b.nonce && a.code_hash == b.code_hash
}

/// The empty account in the state-clear sense: zero balance, zero nonce, no
/// code. This is also what a missing transition info defaults to.
pub open spec fn empty_info() -> AccountInfoSnap {
    AccountInfoSnap {
        balance: U256::spec_zero(),
        nonce: 0,
        code_hash: U256::spec_zero(),
        code: Option::None,
    }
}

impl AccountInfo {
    pub fn new(balance: U256, nonce: u64, code_hash: U256, code: Option<Vec<u8>>) -> (r:
        AccountInfo)
        ensures
            r.balance == balance,
            r.nonce == nonce,
            r.code_hash == code_hash,
            r@ == (AccountInfoSnap {
                balance,
                nonce,
                code_hash,
                code: match code {
                    Option::Some(c) => Option::Some(c@),
                    Option::None => Option::None,
                },
            }),
    {
        AccountInfo { balance, nonce, code_hash, code }
    }

    /// The empty account record.
    pub fn empty() -> (r: AccountInfo)
        ensures
            r@ == empty_info(),
    {
        AccountInfo {
            balance: U256::zero(),
            nonce: 0,
            code_hash: U256::zero(),
            code: Option::None,
        }
    }

    /// Account-state equality test, matching [`info_eq`].
    pub fn same_info(&self, other: &AccountInfo) -> (r: bool)
        ensures
            r == info_eq(self@, other@),
    {
        self.balance == other.balance && self.nonce == other.nonce && self.code_hash
            == other.code_hash
    }

    /// Whether this record is the empty account state (code blob aside).
    pub fn is_empty_info(&self) -> (r: bool)
        ensures
            r == info_eq(self@, empty_info()),
    {
        let z = U256::zero();
        self.balance == z && self.nonce == 0 && self.code_hash == z
    }
}

impl Clone for AccountInfo {
    fn clone(&self) -> (r: Self)
        ensures
            r@ == self@,
    {
        let code: Option<Vec<u8>> = match &self.code {
            Option::Some(c) => Option::Some(clone_bytes(c)),
            Option::None => Option::None,
        };
        AccountInfo { balance: self.balance, nonce: self.nonce, code_hash: self.code_hash, code }
    }
}

/// Byte-for-byte copy of a code blob.
fn clone_bytes(v: &Vec<u8>) -> (r: Vec<u8>)
    ensures
        r@ == v@,
{
    let mut r: Vec<u8> = Vec::new();
    let mut i: usize = 0;
    while i < v.len()
        invariant
            i <= v.len(),
            r@ == v@.take(i as int),
        decreases v.len() - i,
    {
        r.push(v[i]);
        proof {
            assert(v@.take(i + 1) =~= v@.take(i as int).push(v@[i as int]));
        }
        i = i + 1;
    }
    proof {
        assert(v@.take(v@.len() as int) =~= v@);
    }
    r
}

} // verus!
