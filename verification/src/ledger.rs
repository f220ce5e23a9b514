//! Model of the ledger-owned account state that the issuance pipelines drive.
//!
//! The ledger maps addresses to program-owned structures: a freshly allocated
//! account, a mint-state account, a holding account, or a metadata record.
//! Every mutation is one authorized request: it either applies exactly the
//! stated change or returns an error and leaves the ledger untouched. The
//! mint authority is an explicit two-state machine, `Active` or `Revoked`,
//! with the single legal transition `Active -> Revoked` and no way back.

use crate::addr::{dup_bytes, Address};
use crate::descriptor::MintDescriptor;
use vstd::pervasive::VecAdditionalExecFns;
use vstd::prelude::*;

verus! {

/// Why a ledger request or a pipeline run was refused.
#[derive(Clone, Copy, Debug, PartialEq, Eq, Structural)]
pub enum PipelineError {
    /// The derivation scheme found no address for the seed material.
    DerivationFailed,
    /// A caller-supplied address differs from the recomputed derivation.
    DerivationMismatch,
    /// The target address is already occupied: the descriptor was already minted.
    AllocationConflict,
    /// The target address holds no account at all.
    UnknownAccount,
    /// The target account is not in the state the request needs.
    UninitializedAccount,
    /// The target account already holds a structure.
    AlreadyInitialized,
    /// The holding account is bound to a different mint.
    MintMismatch,
    /// The request carries no signature for the required authority.
    AuthoritySignatureMissing,
    /// The signature does not belong to the mint's current authority.
    AuthoritySignatureInvalid,
    /// Issuing would overflow the supply or the balance counter.
    SupplyOverflow,
    /// The metadata registry declined the record.
    RegistryRejected,
    /// Revocation was attempted before the single unit was issued.
    SequencingViolation,
}

/// The right to mint further units: held by one identity, or gone for good.
pub enum MintAuthority {
    Active(Address),
    Revoked,
}

/// Spec-level image of `MintAuthority`.
pub enum MintAuthorityV {
    Active(Seq<u8>),
    Revoked,
}

impl View for MintAuthority {
    type V = MintAuthorityV;

    open spec fn view(&self) -> MintAuthorityV {
        match self {
            MintAuthority::Active(a) => MintAuthorityV::Active(a@),
            MintAuthority::Revoked => MintAuthorityV::Revoked,
        }
    }
}

/// Spec-level image of a mint-state account.
pub struct MintV {
    pub decimals: u8,
    pub authority: MintAuthorityV,
    pub supply: u64,
}

/// Spec-level image of a holding account.
pub struct HoldingV {
    pub owner: Seq<u8>,
    pub mint: Seq<u8>,
    pub balance: u64,
}

/// Spec-level image of a metadata record.
pub struct MetadataV {
    pub mint: Seq<u8>,
    pub name: Seq<u8>,
    pub symbol: Seq<u8>,
    pub uri: Seq<u8>,
    pub update_authority: Seq<u8>,
    pub is_mutable: bool,
    pub is_single_edition: bool,
}

/// One program-owned structure at a ledger address.
pub enum Account {
    /// Allocated but not yet initialized.
    Raw,
    /// A token type: its decimals, its current minting authority, and the
    /// total units issued so far.
    Mint { decimals: u8, authority: MintAuthority, supply: u64 },
    /// One identity's balance of one mint.
    Holding { owner: Address, mint: Address, balance: u64 },
    /// The descriptive record bound to a mint.
    Metadata {
        mint: Address,
        name: Vec<u8>,
        symbol: Vec<u8>,
        uri: Vec<u8>,
        update_authority: Address,
        is_mutable: bool,
        is_single_edition: bool,
    },
}

/// Spec-level image of an account.
pub enum AccountV {
    Raw,
    Mint(MintV),
    Holding(HoldingV),
    Metadata(MetadataV),
}

impl View for Account {
    type V = AccountV;

    open spec fn view(&self) -> AccountV {
        match self {
            Account::Raw => AccountV::Raw,
            Account::Mint { decimals, authority, supply } => AccountV::Mint(
                MintV { decimals: *decimals, authority: authority@, supply: *supply },
            ),
            Account::Holding { owner, mint, balance } => AccountV::Holding(
                HoldingV { owner: owner@, mint: mint@, balance: *balance },
            ),
            Account::Metadata {
                mint,
                name,
                symbol,
                uri,
                update_authority,
                is_mutable,
                is_single_edition,
            } => AccountV::Metadata(
                MetadataV {
                    mint: mint@,
                    name: name@,
                    symbol: symbol@,
                    uri: uri@,
                    update_authority: update_authority@,
                    is_mutable: *is_mutable,
                    is_single_edition: *is_single_edition,
                },
            ),
        }
    }
}

/// The first account recorded under `key`, scanning entries in order.
pub open spec fn find_account(s: Seq<(Seq<u8>, AccountV)>, key: Seq<u8>) -> Option<AccountV>
    decreases s.len(),
{
    if s.len() == 0 {
        None
    } else if s[0].0 == key {
        Some(s[0].1)
    } else {
        find_account(s.drop_first(), key)
    }
}

/// No two entries share an address.
pub open spec fn keys_unique(s: Seq<(Seq<u8>, AccountV)>) -> bool {
    forall|i: int, j: int| 0 <= i < j < s.len() ==> s[i].0 != s[j].0
}

/// An address is absent exactly when no entry carries it.
pub proof fn lemma_find_none_iff_no_key(s: Seq<(Seq<u8>, AccountV)>, key: Seq<u8>)
    ensures
        find_account(s, key) is None <==> (forall|i: int| 0 <= i < s.len() ==> s[i].0 != key),
    decreases s.len(),
{
    if s.len() > 0 {
        lemma_find_none_iff_no_key(s.drop_first(), key);
        assert(forall|i: int| 1 <= i < s.len() ==> s[i].0 == s.drop_first()[i - 1].0);
    }
}

/// The first matching entry decides the lookup.
pub proof fn lemma_find_first_match(s: Seq<(Seq<u8>, AccountV)>, key: Seq<u8>, i: int)
    requires
        0 <= i < s.len(),
        s[i].0 == key,
        forall|j: int| 0 <= j < i ==> s[j].0 != key,
    ensures
        find_account(s, key) == Some(s[i].1),
    decreases s.len(),
{
    if i > 0 {
        lemma_find_first_match(s.drop_first(), key, i - 1);
    }
}

/// Appending an entry changes only lookups of its address, and only when the
/// address was absent.
pub proof fn lemma_find_push(s: Seq<(Seq<u8>, AccountV)>, e: (Seq<u8>, AccountV), key: Seq<u8>)
    ensures
        find_account(s.push(e), key) == (if find_account(s, key) is Some {
            find_account(s, key)
        } else if e.0 == key {
            Some(e.1)
        } else {
            None
        }),
    decreases s.len(),
{
    if s.len() == 0 {
        assert(s.push(e).drop_first() =~= s);
    } else {
        lemma_find_push(s.drop_first(), e, key);
        assert(s.push(e).drop_first() =~= s.drop_first().push(e));
    }
}

/// Replacing the value of the first entry of an address changes only lookups
/// of that address.
pub proof fn lemma_find_update(
    s: Seq<(Seq<u8>, AccountV)>,
    i: int,
    v: AccountV,
    key: Seq<u8>,
)
    requires
        0 <= i < s.len(),
        forall|j: int| 0 <= j < i ==> s[j].0 != s[i].0,
    ensures
        key == s[i].0 ==> find_account(s.update(i, (s[i].0, v)), key) == Some(v),
        key != s[i].0 ==> find_account(s.update(i, (s[i].0, v)), key) == find_account(s, key),
    decreases s.len(),
{
    let s2 = s.update(i, (s[i].0, v));
    if i == 0 {
        assert(s2.drop_first() =~= s.drop_first());
    } else {
        lemma_find_update(s.drop_first(), i - 1, v, key);
        assert(s2.drop_first() =~= s.drop_first().update(i - 1, (s.drop_first()[i - 1].0, v)));
        assert(s2[0] == s[0]);
    }
}

/// The ledger: every allocated address and the structure it holds.
pub struct Ledger {
    pub entries: Vec<(Address, Account)>,
}

impl View for Ledger {
    type V = Seq<(Seq<u8>, AccountV)>;

    open spec fn view(&self) -> Seq<(Seq<u8>, AccountV)> {
        self.entries@.map_values(|e: (Address, Account)| (e.0@, e.1@))
    }
}

impl Ledger {
    /// Each address holds at most one account.
    pub open spec fn wf(self) -> bool {
        keys_unique(self@)
    }

    /// An empty ledger.
    pub fn new() -> (r: Ledger)
        ensures
            r@ =~= Seq::<(Seq<u8>, AccountV)>::empty(),
            r.wf(),
    {
        Ledger { entries: Vec::new() }
    }

    /// Index of the first entry for `addr`, if the address is occupied.
    fn find_index(&self, addr: &Address) -> (r: Option<usize>)
        ensures
            match r {
                Some(i) => {
                    &&& i < self@.len()
                    &&& self@[i as int].0 == addr@
                    &&& forall|j: int| 0 <= j < i ==> self@[j].0 != addr@
                    &&& find_account(self@, addr@) == Some(self@[i as int].1)
                },
                None => find_account(self@, addr@) is None,
            },
    {
        let n = self.entries.len();
        let mut i: usize = 0;
        while i < n
            invariant
                i <= n,
                n == self@.len(),
                forall|j: int| 0 <= j < i ==> self@[j].0 != addr@,
            decreases n - i,
        {
            if self.entries[i].0.matches(addr) {
                proof {
                    lemma_find_first_match(self@, addr@, i as int);
                }
                return Some(i);
            }
            i += 1;
        }
        proof {
            lemma_find_none_iff_no_key(self@, addr@);
        }
        None
    }

    /// Looks up the account at an address.
    pub fn get(&self, addr: &Address) -> (r: Option<&Account>)
        ensures
            match r {
                Some(a) => find_account(self@, addr@) == Some(a@),
                None => find_account(self@, addr@) is None,
            },
    {
        match self.find_index(addr) {
            Some(i) => Some(&self.entries[i].1),
            None => None,
        }
    }

    /// Allocates a fresh, uninitialized account at `addr`.
    ///
    /// An occupied address is refused: a replay of an already-minted
    /// descriptor surfaces here as `AllocationConflict`.
    pub fn allocate(&mut self, addr: &Address) -> (r: Result<(), PipelineError>)
        requires
            old(self).wf(),
        ensures
            final(self).wf(),
            r is Ok <==> find_account(old(self)@, addr@) is None,
            r is Ok ==> {
                &&& find_account(final(self)@, addr@) == Some(AccountV::Raw)
                &&& forall|k: Seq<u8>|
                    k != addr@ ==> #[trigger] find_account(final(self)@, k) == find_account(
                        old(self)@,
                        k,
                    )
            },
            (r matches Err(e) ==> {
                &&& final(self)@ == old(self)@
                &&& e == PipelineError::AllocationConflict
            }),
    {
        match self.find_index(addr) {
            Some(_) => Err(PipelineError::AllocationConflict),
            None => {
                proof {
                    lemma_find_none_iff_no_key(self@, addr@);
                }
                let ghost pre = self@;
                self.entries.push((addr.dup(), Account::Raw));
                proof {
                    assert(self@ =~= pre.push((addr@, AccountV::Raw)));
                    assert forall|k: Seq<u8>| k != addr@ implies #[trigger] find_account(
                        self@,
                        k,
                    ) == find_account(pre, k) by {
                        lemma_find_push(pre, (addr@, AccountV::Raw), k);
                    }
                    lemma_find_push(pre, (addr@, AccountV::Raw), addr@);
                }
                Ok(())
            },
        }
    }

    /// Replaces the account at the entry `i` found for `addr`.
    fn replace_at(&mut self, i: usize, addr: &Address, account: Account)
        requires
            old(self).wf(),
            i < old(self)@.len(),
            old(self)@[i as int].0 == addr@,
            forall|j: int| 0 <= j < i ==> old(self)@[j].0 != addr@,
        ensures
            final(self).wf(),
            find_account(final(self)@, addr@) == Some(account@),
            forall|k: Seq<u8>|
                k != addr@ ==> #[trigger] find_account(final(self)@, k) == find_account(
                    old(self)@,
                    k,
                ),
            final(self)@.len() == old(self)@.len(),
            final(self)@ == old(self)@.update(i as int, (addr@, account@)),
    {
        let ghost pre = self@;
        let ghost acctv = account@;
        self.entries.set(i, (addr.dup(), account));
        proof {
            assert(self@ =~= pre.update(i as int, (addr@, acctv)));
            lemma_find_update(pre, i as int, acctv, addr@);
            assert forall|k: Seq<u8>| k != addr@ implies #[trigger] find_account(self@, k)
                == find_account(pre, k) by {
                lemma_find_update(pre, i as int, acctv, k);
            }
        }
    }

    /// Turns a fresh account into a mint with the given decimals, zero supply,
    /// and the requester as its active authority.
    pub fn init_mint(&mut self, addr: &Address, decimals: u8, authority: &Address) -> (r: Result<
        (),
        PipelineError,
    >)
        requires
            old(self).wf(),
        ensures
            final(self).wf(),
            r is Ok <==> find_account(old(self)@, addr@) == Some(AccountV::Raw),
            r is Ok ==> {
                &&& find_account(final(self)@, addr@) == Some(
                    AccountV::Mint(
                        MintV {
                            decimals,
                            authority: MintAuthorityV::Active(authority@),
                            supply: 0,
                        },
                    ),
                )
                &&& forall|k: Seq<u8>|
                    k != addr@ ==> #[trigger] find_account(final(self)@, k) == find_account(
                        old(self)@,
                        k,
                    )
            },
            (r matches Err(e) ==> {
                &&& final(self)@ == old(self)@
                &&& Some(e) == init_mint_error(old(self)@, addr@)
            }),
    {
        match self.find_index(addr) {
            None => Err(PipelineError::UnknownAccount),
            Some(i) => match &self.entries[i].1 {
                Account::Raw => {
                    self.replace_at(
                        i,
                        addr,
                        Account::Mint {
                            decimals,
                            authority: MintAuthority::Active(authority.dup()),
                            supply: 0,
                        },
                    );
                    Ok(())
                },
                _ => Err(PipelineError::AlreadyInitialized),
            },
        }
    }

    /// Turns a fresh account into a holding account bound to `mint`, owned by
    /// `owner`, with zero balance.
    pub fn init_holding(&mut self, addr: &Address, mint: &Address, owner: &Address) -> (r: Result<
        (),
        PipelineError,
    >)
        requires
            old(self).wf(),
        ensures
            final(self).wf(),
            r is Ok <==> init_holding_error(old(self)@, addr@, mint@) is None,
            r is Ok ==> {
                &&& find_account(final(self)@, addr@) == Some(
                    AccountV::Holding(HoldingV { owner: owner@, mint: mint@, balance: 0 }),
                )
                &&& forall|k: Seq<u8>|
                    k != addr@ ==> #[trigger] find_account(final(self)@, k) == find_account(
                        old(self)@,
                        k,
                    )
            },
            (r matches Err(e) ==> {
                &&& final(self)@ == old(self)@
                &&& Some(e) == init_holding_error(old(self)@, addr@, mint@)
            }),
    {
        match self.find_index(mint) {
            None => Err(PipelineError::UnknownAccount),
            Some(mi) => match &self.entries[mi].1 {
                Account::Mint { .. } => match self.find_index(addr) {
                    None => Err(PipelineError::UnknownAccount),
                    Some(i) => match &self.entries[i].1 {
                        Account::Raw => {
                            self.replace_at(
                                i,
                                addr,
                                Account::Holding {
                                    owner: owner.dup(),
                                    mint: mint.dup(),
                                    balance: 0,
                                },
                            );
                            Ok(())
                        },
                        _ => Err(PipelineError::AlreadyInitialized),
                    },
                },
                _ => Err(PipelineError::UninitializedAccount),
            },
        }
    }

    /// Issues `amount` units of `mint` into `holding`, on the current
    /// authority's signature.
    ///
    /// Once the authority is revoked no signature is accepted, so no call can
    /// ever change the issued total of a revoked mint: that is stated here
    /// explicitly.
    pub fn issue(
        &mut self,
        mint: &Address,
        holding: &Address,
        signer: Option<&Address>,
        amount: u64,
    ) -> (r: Result<(), PipelineError>)
        requires
            old(self).wf(),
        ensures
            final(self).wf(),
            r is Ok <==> issue_error(old(self)@, mint@, holding@, opt_addr_view(signer), amount)
                is None,
            (r matches Err(e) ==> {
                &&& final(self)@ == old(self)@
                &&& Some(e) == issue_error(
                    old(self)@,
                    mint@,
                    holding@,
                    opt_addr_view(signer),
                    amount,
                )
            }),
            r is Ok ==> {
                &&& find_account(old(self)@, mint@) matches Some(AccountV::Mint(m))
                &&& find_account(old(self)@, holding@) matches Some(AccountV::Holding(h))
                &&& find_account(final(self)@, mint@) == Some(
                    AccountV::Mint(
                        MintV {
                            decimals: m.decimals,
                            authority: m.authority,
                            supply: (m.supply + amount) as u64,
                        },
                    ),
                )
                &&& find_account(final(self)@, holding@) == Some(
                    AccountV::Holding(
                        HoldingV {
                            owner: h.owner,
                            mint: h.mint,
                            balance: (h.balance + amount) as u64,
                        },
                    ),
                )
                &&& forall|k: Seq<u8>|
                    k != mint@ && k != holding@ ==> #[trigger] find_account(final(self)@, k)
                        == find_account(old(self)@, k)
            },
            (find_account(old(self)@, mint@) matches Some(AccountV::Mint(m)) && m.authority
                is Revoked) ==> (r is Err && final(self)@ == old(self)@),
    {
        let mi = match self.find_index(mint) {
            None => return Err(PipelineError::UnknownAccount),
            Some(i) => i,
        };
        let (decimals, supply, auth_matches) = match &self.entries[mi].1 {
            Account::Mint { decimals, authority, supply } => {
                let am = match (authority, &signer) {
                    (MintAuthority::Active(a), Some(s)) => a.matches(s),
                    _ => false,
                };
                (*decimals, *supply, am)
            },
            _ => return Err(PipelineError::UninitializedAccount),
        };
        let hi = match self.find_index(holding) {
            None => return Err(PipelineError::UnknownAccount),
            Some(i) => i,
        };
        let (balance, mint_matches) = match &self.entries[hi].1 {
            Account::Holding { mint: hm, balance, .. } => (*balance, hm.matches(mint)),
            _ => return Err(PipelineError::UninitializedAccount),
        };
        if !mint_matches {
            return Err(PipelineError::MintMismatch);
        }
        if signer.is_none() {
            return Err(PipelineError::AuthoritySignatureMissing);
        }
        if !auth_matches {
            return Err(PipelineError::AuthoritySignatureInvalid);
        }
        if amount > u64::MAX - supply || amount > u64::MAX - balance {
            return Err(PipelineError::SupplyOverflow);
        }
        let new_mint = match &self.entries[mi].1 {
            Account::Mint { authority, .. } => Account::Mint {
                decimals,
                authority: match authority {
                    MintAuthority::Active(a) => MintAuthority::Active(a.dup()),
                    MintAuthority::Revoked => MintAuthority::Revoked,
                },
                supply: supply + amount,
            },
            _ => return Err(PipelineError::UninitializedAccount),
        };
        let new_holding = match &self.entries[hi].1 {
            Account::Holding { owner, mint: hm, .. } => Account::Holding {
                owner: owner.dup(),
                mint: hm.dup(),
                balance: balance + amount,
            },
            _ => return Err(PipelineError::UninitializedAccount),
        };
        self.replace_at(mi, mint, new_mint);
        self.replace_at(hi, holding, new_holding);
        Ok(())
    }

    /// Revokes the mint's authority for good: `Active -> Revoked` is the only
    /// transition, and a revoked mint accepts no signature, so the request
    /// can never be undone.
    ///
    /// Revocation before the single unit has been issued would permanently
    /// prevent issuance, so a mint with zero supply is refused with
    /// `SequencingViolation`.
    pub fn revoke_authority(&mut self, mint: &Address, signer: Option<&Address>) -> (r: Result<
        (),
        PipelineError,
    >)
        requires
            old(self).wf(),
        ensures
            final(self).wf(),
            r is Ok <==> revoke_error(old(self)@, mint@, opt_addr_view(signer)) is None,
            (r matches Err(e) ==> {
                &&& final(self)@ == old(self)@
                &&& Some(e) == revoke_error(old(self)@, mint@, opt_addr_view(signer))
            }),
            r is Ok ==> {
                &&& find_account(old(self)@, mint@) matches Some(AccountV::Mint(m))
                &&& find_account(final(self)@, mint@) == Some(
                    AccountV::Mint(
                        MintV {
                            decimals: m.decimals,
                            authority: MintAuthorityV::Revoked,
                            supply: m.supply,
                        },
                    ),
                )
                &&& forall|k: Seq<u8>|
                    k != mint@ ==> #[trigger] find_account(final(self)@, k) == find_account(
                        old(self)@,
                        k,
                    )
            },
            (find_account(old(self)@, mint@) matches Some(AccountV::Mint(m)) && m.supply == 0)
                ==> r == Result::<(), PipelineError>::Err(PipelineError::SequencingViolation),
            (find_account(old(self)@, mint@) matches Some(AccountV::Mint(m)) && m.authority
                is Revoked) ==> (r is Err && final(self)@ == old(self)@),
    {
        let mi = match self.find_index(mint) {
            None => return Err(PipelineError::UnknownAccount),
            Some(i) => i,
        };
        let (decimals, supply, auth_matches) = match &self.entries[mi].1 {
            Account::Mint { decimals, authority, supply } => {
                let am = match (authority, &signer) {
                    (MintAuthority::Active(a), Some(s)) => a.matches(s),
                    _ => false,
                };
                (*decimals, *supply, am)
            },
            _ => return Err(PipelineError::UninitializedAccount),
        };
        if supply == 0 {
            return Err(PipelineError::SequencingViolation);
        }
        if signer.is_none() {
            return Err(PipelineError::AuthoritySignatureMissing);
        }
        if !auth_matches {
            return Err(PipelineError::AuthoritySignatureInvalid);
        }
        self.replace_at(
            mi,
            mint,
            Account::Mint { decimals, authority: MintAuthority::Revoked, supply },
        );
        Ok(())
    }

    /// Binds a descriptive record to `mint` at the caller-supplied metadata
    /// address. The registry declines when the mint is not an initialized
    /// mint or the metadata address already holds a record.
    pub fn attach_metadata(
        &mut self,
        metadata: &Address,
        mint: &Address,
        descriptor: &MintDescriptor,
        update_authority: &Address,
        is_mutable: bool,
        is_single_edition: bool,
    ) -> (r: Result<(), PipelineError>)
        requires
            old(self).wf(),
        ensures
            final(self).wf(),
            r is Ok <==> attach_error(old(self)@, metadata@, mint@) is None,
            (r matches Err(e) ==> {
                &&& final(self)@ == old(self)@
                &&& Some(e) == attach_error(old(self)@, metadata@, mint@)
            }),
            r is Ok ==> {
                &&& find_account(final(self)@, metadata@) == Some(
                    AccountV::Metadata(
                        MetadataV {
                            mint: mint@,
                            name: descriptor.name@,
                            symbol: descriptor.symbol@,
                            uri: descriptor.uri@,
                            update_authority: update_authority@,
                            is_mutable,
                            is_single_edition,
                        },
                    ),
                )
                &&& forall|k: Seq<u8>|
                    k != metadata@ ==> #[trigger] find_account(final(self)@, k) == find_account(
                        old(self)@,
                        k,
                    )
            },
    {
        let mi = match self.find_index(mint) {
            None => return Err(PipelineError::RegistryRejected),
            Some(i) => i,
        };
        match &self.entries[mi].1 {
            Account::Mint { .. } => {},
            _ => return Err(PipelineError::RegistryRejected),
        }
        match self.find_index(metadata) {
            Some(_) => return Err(PipelineError::RegistryRejected),
            None => {},
        }
        proof {
            lemma_find_none_iff_no_key(self@, metadata@);
        }
        let ghost pre = self@;
        let record = Account::Metadata {
            mint: mint.dup(),
            name: dup_bytes(&descriptor.name),
            symbol: dup_bytes(&descriptor.symbol),
            uri: dup_bytes(&descriptor.uri),
            update_authority: update_authority.dup(),
            is_mutable,
            is_single_edition,
        };
        let ghost recordv = record@;
        self.entries.push((metadata.dup(), record));
        proof {
            assert(self@ =~= pre.push((metadata@, recordv)));
            assert forall|k: Seq<u8>| k != metadata@ implies #[trigger] find_account(self@, k)
                == find_account(pre, k) by {
                lemma_find_push(pre, (metadata@, recordv), k);
            }
            lemma_find_push(pre, (metadata@, recordv), metadata@);
        }
        Ok(())
    }

    /// An independent copy of the whole ledger.
    pub fn dup(&self) -> (r: Ledger)
        ensures
            r@ == self@,
    {
        let mut entries: Vec<(Address, Account)> = Vec::new();
        let mut i: usize = 0;
        while i < self.entries.len()
            invariant
                i <= self.entries@.len(),
                entries@.len() == i,
                forall|j: int|
                    0 <= j < i ==> entries@[j].0@ == self.entries@[j].0@ && entries@[j].1@
                        == self.entries@[j].1@,
            decreases self.entries@.len() - i,
        {
            let e = &self.entries[i];
            entries.push((e.0.dup(), e.1.dup()));
            i += 1;
        }
        let r = Ledger { entries };
        proof {
            assert(r@ =~= self@);
        }
        r
    }
}

impl Account {
    /// An independent copy of the account.
    pub fn dup(&self) -> (r: Account)
        ensures
            r@ == self@,
    {
        match self {
            Account::Raw => Account::Raw,
            Account::Mint { decimals, authority, supply } => Account::Mint {
                decimals: *decimals,
                authority: match authority {
                    MintAuthority::Active(a) => MintAuthority::Active(a.dup()),
                    MintAuthority::Revoked => MintAuthority::Revoked,
                },
                supply: *supply,
            },
            Account::Holding { owner, mint, balance } => Account::Holding {
                owner: owner.dup(),
                mint: mint.dup(),
                balance: *balance,
            },
            Account::Metadata {
                mint,
                name,
                symbol,
                uri,
                update_authority,
                is_mutable,
                is_single_edition,
            } => Account::Metadata {
                mint: mint.dup(),
                name: dup_bytes(name),
                symbol: dup_bytes(symbol),
                uri: dup_bytes(uri),
                update_authority: update_authority.dup(),
                is_mutable: *is_mutable,
                is_single_edition: *is_single_edition,
            },
        }
    }
}

/// Spec-level image of an optional signer.
pub open spec fn opt_addr_view(o: Option<&Address>) -> Option<Seq<u8>> {
    match o {
        Some(a) => Some(a@),
        None => None,
    }
}

/// Why `issue` refuses, or `None` when it succeeds. Checks run in order:
/// the mint, the holding account, their binding, the signature, the
/// authority, and last the counters.
pub open spec fn issue_error(
    s: Seq<(Seq<u8>, AccountV)>,
    mint: Seq<u8>,
    holding: Seq<u8>,
    signer: Option<Seq<u8>>,
    amount: u64,
) -> Option<PipelineError> {
    match find_account(s, mint) {
        None => Some(PipelineError::UnknownAccount),
        Some(AccountV::Mint(m)) => match find_account(s, holding) {
            None => Some(PipelineError::UnknownAccount),
            Some(AccountV::Holding(h)) => if h.mint != mint {
                Some(PipelineError::MintMismatch)
            } else if signer is None {
                Some(PipelineError::AuthoritySignatureMissing)
            } else if m.authority != MintAuthorityV::Active(signer.unwrap()) {
                Some(PipelineError::AuthoritySignatureInvalid)
            } else if m.supply + amount > u64::MAX || h.balance + amount > u64::MAX {
                Some(PipelineError::SupplyOverflow)
            } else {
                None
            },
            Some(_) => Some(PipelineError::UninitializedAccount),
        },
        Some(_) => Some(PipelineError::UninitializedAccount),
    }
}

/// Why `revoke_authority` refuses, or `None` when it succeeds. A mint that
/// has issued nothing is refused before any signature is considered.
pub open spec fn revoke_error(
    s: Seq<(Seq<u8>, AccountV)>,
    mint: Seq<u8>,
    signer: Option<Seq<u8>>,
) -> Option<PipelineError> {
    match find_account(s, mint) {
        None => Some(PipelineError::UnknownAccount),
        Some(AccountV::Mint(m)) => if m.supply == 0 {
            Some(PipelineError::SequencingViolation)
        } else if signer is None {
            Some(PipelineError::AuthoritySignatureMissing)
        } else if m.authority != MintAuthorityV::Active(signer.unwrap()) {
            Some(PipelineError::AuthoritySignatureInvalid)
        } else {
            None
        },
        Some(_) => Some(PipelineError::UninitializedAccount),
    }
}

/// A revoked mint accepts no issuance request: whatever the signer and the
/// amount, `issue` refuses, so no call can ever change the issued total of a
/// revoked mint.
pub proof fn lemma_revoked_mint_refuses_issue(
    s: Seq<(Seq<u8>, AccountV)>,
    mint: Seq<u8>,
    holding: Seq<u8>,
    signer: Option<Seq<u8>>,
    amount: u64,
)
    requires
        find_account(s, mint) matches Some(AccountV::Mint(m)) && m.authority is Revoked,
    ensures
        issue_error(s, mint, holding, signer, amount) is Some,
{
}

/// A revoked mint accepts no revocation request either: the transition
/// `Active -> Revoked` can never be repeated or undone, whatever the signer.
pub proof fn lemma_revocation_is_permanent(
    s: Seq<(Seq<u8>, AccountV)>,
    mint: Seq<u8>,
    signer: Option<Seq<u8>>,
)
    requires
        find_account(s, mint) matches Some(AccountV::Mint(m)) && m.authority is Revoked,
    ensures
        revoke_error(s, mint, signer) is Some,
{
}

/// Revocation before the single unit has been issued is refused with
/// `SequencingViolation`, whatever the signer.
pub proof fn lemma_revoke_before_issue_refused(
    s: Seq<(Seq<u8>, AccountV)>,
    mint: Seq<u8>,
    signer: Option<Seq<u8>>,
)
    requires
        find_account(s, mint) matches Some(AccountV::Mint(m)) && m.supply == 0,
    ensures
        revoke_error(s, mint, signer) == Some(PipelineError::SequencingViolation),
{
}

/// Issuance against an allocated but uninitialized mint is refused with the
/// token-ledger's wrong-state error, whatever the signer and the amount.
pub proof fn lemma_issue_before_init_refused(
    s: Seq<(Seq<u8>, AccountV)>,
    mint: Seq<u8>,
    holding: Seq<u8>,
    signer: Option<Seq<u8>>,
    amount: u64,
)
    requires
        find_account(s, mint) == Some(AccountV::Raw),
    ensures
        issue_error(s, mint, holding, signer, amount) == Some(PipelineError::UninitializedAccount),
{
}

/// Why `attach_metadata` refuses, or `None` when it succeeds.
pub open spec fn attach_error(
    s: Seq<(Seq<u8>, AccountV)>,
    metadata: Seq<u8>,
    mint: Seq<u8>,
) -> Option<PipelineError> {
    match find_account(s, mint) {
        Some(AccountV::Mint(_)) => if find_account(s, metadata) is Some {
            Some(PipelineError::RegistryRejected)
        } else {
            None
        },
        _ => Some(PipelineError::RegistryRejected),
    }
}

/// Why `init_mint` refuses, or `None` when it succeeds.
pub open spec fn init_mint_error(s: Seq<(Seq<u8>, AccountV)>, addr: Seq<u8>) -> Option<
    PipelineError,
> {
    match find_account(s, addr) {
        None => Some(PipelineError::UnknownAccount),
        Some(AccountV::Raw) => None,
        Some(_) => Some(PipelineError::AlreadyInitialized),
    }
}

/// Why `init_holding` refuses, or `None` when it succeeds. The mint is
/// checked first: it must already be an initialized mint.
pub open spec fn init_holding_error(
    s: Seq<(Seq<u8>, AccountV)>,
    addr: Seq<u8>,
    mint: Seq<u8>,
) -> Option<PipelineError> {
    match find_account(s, mint) {
        None => Some(PipelineError::UnknownAccount),
        Some(AccountV::Mint(_)) => match find_account(s, addr) {
            None => Some(PipelineError::UnknownAccount),
            Some(AccountV::Raw) => None,
            Some(_) => Some(PipelineError::AlreadyInitialized),
        },
        Some(_) => Some(PipelineError::UninitializedAccount),
    }
}

} // verus!
