use vstd::prelude::*;

verus! {

/// A 20-byte account address.
#[derive(Clone, Copy, Debug, PartialEq, Eq)]
pub struct Address {
    pub bytes: [u8; 20],
}

/// An unsigned 256-bit amount, as two 128-bit halves.
#[derive(Clone, Copy, Debug, PartialEq, Eq, Structural)]
pub struct U256 {
    pub hi: u128,
    pub lo: u128,
}

pub open spec fn two_pow_128() -> int {
    u128::MAX as int + 1
}

impl U256 {
    pub open spec fn value(self) -> int {
        self.hi * two_pow_128() + self.lo
    }

    pub fn from_u128(v: u128) -> (r: U256)
        ensures
            r == (U256 { hi: 0, lo: v }),
            r.value() == v,
    {
        U256 { hi: 0, lo: v }
    }

    /// Whether `self` is strictly less than `other`.
    pub fn lt(&self, other: &U256) -> (r: bool)
        ensures
            r == (self.value() < other.value()),
    {
        proof {
            lemma_value_order(*self, *other);
        }
        self.hi < other.hi || (self.hi == other.hi && self.lo < other.lo)
    }
}

proof fn lemma_value_order(a: U256, b: U256)
    ensures
        (a.value() < b.value()) == (a.hi < b.hi || (a.hi == b.hi && a.lo < b.lo)),
{
    let p = two_pow_128();
    if a.hi < b.hi {
        assert(a.hi * p + p <= b.hi * p) by (nonlinear_arith)
            requires
                a.hi < b.hi,
                p > 0,
        ;
    } else if a.hi > b.hi {
        assert(b.hi * p + p <= a.hi * p) by (nonlinear_arith)
            requires
                b.hi < a.hi,
                p > 0,
        ;
    }
}

/// An account as the endpoint reports it.
#[derive(Clone, Copy, Debug, PartialEq, Eq)]
pub struct Account {
    pub address: Address,
    pub balance: U256,
}

/// Why a funded account could not be provisioned.
#[derive(Clone, Copy, Debug, PartialEq, Eq, Structural)]
pub enum ProvisionError {
    /// The endpoint knows no account to fund from.
    NoAccountsAvailable,
    /// The endpoint refused to import the new key.
    ImportFailed,
    /// The funding transfer was rejected.
    TransferFailed,
    /// The funding transfer was not confirmed within the poll window.
    TransferTimeout,
}

/// `i` holds the largest balance of `accounts`, and no earlier account holds
/// as much.
pub open spec fn is_root_index(accounts: Seq<Account>, i: int) -> bool {
    0 <= i < accounts.len() && (forall|j: int|
        0 <= j < accounts.len() ==> #[trigger] accounts[j].balance.value()
            <= accounts[i].balance.value()) && (forall|j: int|
        0 <= j < i ==> #[trigger] accounts[j].balance.value() < accounts[i].balance.value())
}

/// Picks the funding source: the account with the largest balance, the first
/// one where several share it.
pub fn discover_root(accounts: &Vec<Account>) -> (r: Result<Account, ProvisionError>)
    ensures
        accounts@.len() == 0 <==> r == Err::<Account, ProvisionError>(
            ProvisionError::NoAccountsAvailable,
        ),
        r is Ok ==> exists|i: int| is_root_index(accounts@, i) && r->Ok_0 == accounts@[i],
        r is Err ==> r == Err::<Account, ProvisionError>(ProvisionError::NoAccountsAvailable),
{
    if accounts.len() == 0 {
        return Err(ProvisionError::NoAccountsAvailable);
    }
    let mut best: usize = 0;
    let mut k: usize = 1;
    while k < accounts.len()
        invariant
            1 <= k <= accounts@.len(),
            best < k,
            forall|j: int|
                0 <= j < k ==> #[trigger] accounts@[j].balance.value()
                    <= accounts@[best as int].balance.value(),
            forall|j: int|
                0 <= j < best ==> #[trigger] accounts@[j].balance.value()
                    < accounts@[best as int].balance.value(),
        decreases accounts@.len() - k,
    {
        if accounts[best].balance.lt(&accounts[k].balance) {
            best = k;
        }
        k = k + 1;
    }
    assert(is_root_index(accounts@, best as int));
    Ok(accounts[best])
}

/// The amount sent from the root to each new account, in the smallest unit.
pub const FUNDING_AMOUNT: u128 = 100_000_000_000_000_000_000;

/// A plain value transfer. Its sender pays the fee on top of `value`.
#[derive(Clone, Copy, Debug, PartialEq, Eq)]
pub struct Transfer {
    pub from: Address,
    pub to: Address,
    pub value: U256,
}

pub open spec fn funding_of(root: Account, to: Address) -> Transfer {
    Transfer { from: root.address, to, value: U256 { hi: 0, lo: FUNDING_AMOUNT } }
}

/// The transfer that funds a new account from the root.
pub fn funding_transfer(root: &Account, new_account: &Address) -> (r: Transfer)
    ensures
        r == funding_of(*root, *new_account),
        r.from == root.address,
        r.to == *new_account,
        r.value.value() == FUNDING_AMOUNT,
{
    Transfer { from: root.address, to: *new_account, value: U256::from_u128(FUNDING_AMOUNT) }
}

/// The balance of the recipient of `t` after it is confirmed. The fee is paid
/// by the sender, so the recipient gains exactly the value.
pub open spec fn credited(before: int, t: Transfer) -> int {
    before + t.value.value()
}

/// Whether a provisioned account holds exactly the funding amount.
pub fn is_funded(balance: &U256) -> (r: bool)
    ensures
        r == (balance.value() == FUNDING_AMOUNT),
{
    let f = U256::from_u128(FUNDING_AMOUNT);
    proof {
        lemma_value_order(*balance, f);
        lemma_value_order(f, *balance);
    }
    !balance.lt(&f) && !f.lt(balance)
}

} // verus!
