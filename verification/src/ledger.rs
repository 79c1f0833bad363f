//! A book of token balances held in memory, against which the transfers
//! that the operations ask for can be carried out: one at a time, or the
//! two of a swap together or not at all.

use vstd::prelude::*;
use crate::account::TokenAccount;
use crate::address::Address;
use crate::admin::{normal_withdrawal, premium_withdrawal};
use crate::error::SwapError;
use crate::reserve::{LoadedNormalMintReserve, LoadedPremiumMintReserve};
use crate::swap::{normal_for_premium, premium_for_normal};
use crate::transfer::{SwapTransfers, Transfer};

verus! {

/// Whether the book lets the transfer through: both accounts are in the
/// book, the one who vouches for the transfer may move tokens out of the
/// paying account, that account holds the amount, and the receiving
/// account has room for it.
pub open spec fn transfer_allowed(book: Map<Address, TokenAccount>, t: Transfer) -> bool {
    &&& book.contains_key(t.from)
    &&& book.contains_key(t.to)
    &&& book[t.from].owner == t.authority.spec_key()
    &&& book[t.from].amount >= t.amount
    &&& (t.from != t.to ==> book[t.to].amount + t.amount <= u64::MAX)
}

/// The account with `amount` base units taken out.
pub open spec fn debited(account: TokenAccount, amount: u64) -> TokenAccount {
    TokenAccount {
        key: account.key,
        owner: account.owner,
        amount: (account.amount - amount) as u64,
    }
}

/// The account with `amount` base units put in.
pub open spec fn credited(account: TokenAccount, amount: u64) -> TokenAccount {
    TokenAccount {
        key: account.key,
        owner: account.owner,
        amount: (account.amount + amount) as u64,
    }
}

/// The book once the transfer has been carried out. A transfer from an
/// account to itself leaves the book as it was.
pub open spec fn after_transfer(book: Map<Address, TokenAccount>, t: Transfer) -> Map<
    Address,
    TokenAccount,
> {
    if t.from == t.to {
        book
    } else {
        book.insert(t.from, debited(book[t.from], t.amount)).insert(
            t.to,
            credited(book[t.to], t.amount),
        )
    }
}

/// The book once both transfers of a swap have been carried out, the
/// caller's payment first; `None` where the book turns either of them down.
pub open spec fn after_swap(book: Map<Address, TokenAccount>, legs: SwapTransfers) -> Option<
    Map<Address, TokenAccount>,
> {
    if transfer_allowed(book, legs.inbound) && transfer_allowed(
        after_transfer(book, legs.inbound),
        legs.outbound,
    ) {
        Some(after_transfer(after_transfer(book, legs.inbound), legs.outbound))
    } else {
        None
    }
}

/// Whether no two accounts in the list share an address.
spec fn distinct_keys(s: Seq<TokenAccount>) -> bool {
    forall|i: int, j: int| 0 <= i < j < s.len() ==> s[i].key != s[j].key
}

/// Whether some account in the list lives at `k`.
spec fn listed(s: Seq<TokenAccount>, k: Address) -> bool {
    exists|i: int| 0 <= i < s.len() && s[i].key == k
}

/// The list read as a book: each address that occurs, with the account
/// that lives there.
spec fn book_of(s: Seq<TokenAccount>) -> Map<Address, TokenAccount> {
    Map::new(
        |k: Address| listed(s, k),
        |k: Address| s[choose|i: int| 0 <= i < s.len() && s[i].key == k],
    )
}

proof fn lemma_book_lookup(s: Seq<TokenAccount>, i: int)
    requires
        distinct_keys(s),
        0 <= i < s.len(),
    ensures
        book_of(s).contains_key(s[i].key),
        book_of(s)[s[i].key] == s[i],
{
    let k = s[i].key;
    assert(listed(s, k));
    let c = choose|c: int| 0 <= c < s.len() && s[c].key == k;
    assert(c == i) by {
        if c < i {
            assert(s[c].key != s[i].key);
        } else if i < c {
            assert(s[i].key != s[c].key);
        }
    }
}

proof fn lemma_book_update(s: Seq<TokenAccount>, i: int, a: TokenAccount)
    requires
        distinct_keys(s),
        0 <= i < s.len(),
        a.key == s[i].key,
    ensures
        distinct_keys(s.update(i, a)),
        book_of(s.update(i, a)) == book_of(s).insert(a.key, a),
{
    let u = s.update(i, a);
    assert(distinct_keys(u)) by {
        assert forall|x: int, y: int| 0 <= x < y < u.len() implies u[x].key != u[y].key by {
            assert(s[x].key != s[y].key);
        }
    }
    let left = book_of(u);
    let right = book_of(s).insert(a.key, a);
    assert forall|k: Address| left.contains_key(k) <==> right.contains_key(k) by {
        if listed(u, k) {
            let c = choose|c: int| 0 <= c < u.len() && u[c].key == k;
            assert(s[c].key == k);
            assert(listed(s, k));
        }
        if listed(s, k) {
            let c = choose|c: int| 0 <= c < s.len() && s[c].key == k;
            assert(u[c].key == k);
            assert(listed(u, k));
        }
        if k == a.key {
            assert(u[i].key == k);
            assert(listed(u, k));
        }
    }
    assert forall|k: Address| left.contains_key(k) implies left[k] == right[k] by {
        let c = choose|c: int| 0 <= c < u.len() && u[c].key == k;
        lemma_book_lookup(u, c);
        if c == i {
            assert(k == a.key);
        } else {
            assert(s[c].key == k);
            lemma_book_lookup(s, c);
            assert(k != a.key) by {
                if c < i {
                    assert(s[c].key != s[i].key);
                } else {
                    assert(s[i].key != s[c].key);
                }
            }
        }
    }
    assert(left =~= right);
}

proof fn lemma_book_push(s: Seq<TokenAccount>, a: TokenAccount)
    requires
        distinct_keys(s),
        !listed(s, a.key),
    ensures
        distinct_keys(s.push(a)),
        book_of(s.push(a)) == book_of(s).insert(a.key, a),
{
    let u = s.push(a);
    assert(distinct_keys(u)) by {
        assert forall|x: int, y: int| 0 <= x < y < u.len() implies u[x].key != u[y].key by {
            if y < s.len() {
                assert(s[x].key != s[y].key);
            } else {
                assert(s[x].key != a.key) by {
                    if s[x].key == a.key {
                        assert(listed(s, a.key));
                    }
                }
            }
        }
    }
    let left = book_of(u);
    let right = book_of(s).insert(a.key, a);
    assert forall|k: Address| left.contains_key(k) <==> right.contains_key(k) by {
        if listed(u, k) {
            let c = choose|c: int| 0 <= c < u.len() && u[c].key == k;
            if c < s.len() {
                assert(s[c].key == k);
                assert(listed(s, k));
            }
        }
        if listed(s, k) {
            let c = choose|c: int| 0 <= c < s.len() && s[c].key == k;
            assert(u[c].key == k);
            assert(listed(u, k));
        }
        if k == a.key {
            assert(u[s.len() as int].key == k);
            assert(listed(u, k));
        }
    }
    assert forall|k: Address| left.contains_key(k) implies left[k] == right[k] by {
        let c = choose|c: int| 0 <= c < u.len() && u[c].key == k;
        lemma_book_lookup(u, c);
        if c < s.len() {
            assert(s[c].key == k);
            assert(listed(s, k));
            lemma_book_lookup(s, c);
        }
    }
    assert(left =~= right);
}

/// A book of token accounts, at most one to an address.
pub struct Ledger {
    accounts: Vec<TokenAccount>,
}

impl View for Ledger {
    type V = Map<Address, TokenAccount>;

    closed spec fn view(&self) -> Map<Address, TokenAccount> {
        book_of(self.accounts@)
    }
}

impl Ledger {
    #[verifier::type_invariant]
    spec fn well_formed(self) -> bool {
        distinct_keys(self.accounts@)
    }

    /// Every account in the book is filed under its own address.
    pub proof fn lemma_filed_by_key(&self, k: Address)
        requires
            self@.contains_key(k),
        ensures
            self@[k].key == k,
    {
    }

    /// A book with no account in it.
    pub fn new() -> (ledger: Ledger)
        ensures
            ledger@ == Map::<Address, TokenAccount>::empty(),
    {
        let ledger = Ledger { accounts: Vec::new() };
        assert(ledger@ =~= Map::<Address, TokenAccount>::empty());
        ledger
    }

    /// Hands out the list, leaving the book empty until a list is put back.
    fn take_list(&mut self) -> (list: Vec<TokenAccount>)
        ensures
            list@ == old(self).accounts@,
            distinct_keys(list@),
            final(self).accounts@ == Seq::<TokenAccount>::empty(),
    {
        proof {
            use_type_invariant(&*self);
        }
        let mut list: Vec<TokenAccount> = Vec::new();
        std::mem::swap(&mut self.accounts, &mut list);
        list
    }

    /// Where in the list the account at `key` stands, if it is there.
    fn find(&self, key: Address) -> (at: Option<usize>)
        ensures
            match at {
                Some(i) => i < self.accounts@.len() && self.accounts@[i as int].key == key
                    && self@.contains_key(key) && self@[key] == self.accounts@[i as int],
                None => !self@.contains_key(key) && !listed(self.accounts@, key),
            },
    {
        proof {
            use_type_invariant(self);
        }
        let mut i: usize = 0;
        while i < self.accounts.len()
            invariant
                distinct_keys(self.accounts@),
                i <= self.accounts@.len(),
                forall|j: int| 0 <= j < i ==> self.accounts@[j].key != key,
            decreases self.accounts@.len() - i,
        {
            if self.accounts[i].key == key {
                proof {
                    lemma_book_lookup(self.accounts@, i as int);
                }
                return Some(i);
            }
            i += 1;
        }
        None
    }

    /// Enters a new account in the book. An address that is taken stays
    /// with the account that has it: the book is then left as it was and
    /// the answer is `false`.
    pub fn open_account(&mut self, account: TokenAccount) -> (opened: bool)
        ensures
            opened == !old(self)@.contains_key(account.key),
            opened ==> final(self)@ == old(self)@.insert(account.key, account),
            !opened ==> final(self)@ == old(self)@,
    {
        proof {
            use_type_invariant(&*self);
        }
        match self.find(account.key) {
            Some(_) => false,
            None => {
                let mut list = self.take_list();
                proof {
                    lemma_book_push(list@, account);
                }
                list.push(account);
                self.accounts = list;
                true
            },
        }
    }

    /// The account at `key`, if the book has one.
    pub fn account(&self, key: Address) -> (found: Option<TokenAccount>)
        ensures
            found == if self@.contains_key(key) {
                Some(self@[key])
            } else {
                None
            },
    {
        match self.find(key) {
            Some(i) => Some(self.accounts[i]),
            None => None,
        }
    }

    /// Carries out one transfer. Where the book turns it down, the book is
    /// left as it was.
    pub fn transfer(&mut self, t: &Transfer) -> (r: Result<(), SwapError>)
        ensures
            transfer_allowed(old(self)@, *t) ==> r is Ok && final(self)@ == after_transfer(
                old(self)@,
                *t,
            ),
            !transfer_allowed(old(self)@, *t) ==> r == Err::<(), SwapError>(
                SwapError::TransferFailure,
            ) && final(self)@ == old(self)@,
    {
        proof {
            use_type_invariant(&*self);
        }
        let from = match self.find(t.from) {
            Some(i) => i,
            None => {
                return Err(SwapError::TransferFailure);
            },
        };
        let to = match self.find(t.to) {
            Some(i) => i,
            None => {
                return Err(SwapError::TransferFailure);
            },
        };
        let payer = self.accounts[from];
        if payer.owner != t.authority.key() {
            return Err(SwapError::TransferFailure);
        }
        if payer.amount < t.amount {
            return Err(SwapError::TransferFailure);
        }
        if t.from == t.to {
            return Ok(());
        }
        let payee = self.accounts[to];
        if payee.amount > u64::MAX - t.amount {
            return Err(SwapError::TransferFailure);
        }
        let paid = TokenAccount {
            key: payer.key,
            owner: payer.owner,
            amount: payer.amount - t.amount,
        };
        let received = TokenAccount {
            key: payee.key,
            owner: payee.owner,
            amount: payee.amount + t.amount,
        };
        let mut list = self.take_list();
        proof {
            lemma_book_update(list@, from as int, paid);
            lemma_book_update(list@.update(from as int, paid), to as int, received);
        }
        list.set(from, paid);
        list.set(to, received);
        self.accounts = list;
        Ok(())
    }

    /// A copy of the list as it stands.
    fn snapshot(&self) -> (copy: Vec<TokenAccount>)
        ensures
            copy@ == self.accounts@,
    {
        let mut copy: Vec<TokenAccount> = Vec::new();
        let mut i: usize = 0;
        while i < self.accounts.len()
            invariant
                i <= self.accounts@.len(),
                copy@ == self.accounts@.take(i as int),
            decreases self.accounts@.len() - i,
        {
            copy.push(self.accounts[i]);
            assert(self.accounts@.take(i + 1) == self.accounts@.take(i as int).push(
                self.accounts@[i as int],
            ));
            i += 1;
        }
        assert(self.accounts@.take(i as int) == self.accounts@);
        copy
    }

    /// Carries out the two transfers of a swap as one: the caller's payment
    /// first, then the reserve's. Where the book turns either of them down,
    /// neither is kept and the book is left as it was.
    pub fn settle(&mut self, legs: &SwapTransfers) -> (r: Result<(), SwapError>)
        ensures
            match after_swap(old(self)@, *legs) {
                Some(book) => r is Ok && final(self)@ == book,
                None => r == Err::<(), SwapError>(SwapError::TransferFailure) && final(self)@
                    == old(self)@,
            },
    {
        proof {
            use_type_invariant(&*self);
        }
        let before = self.snapshot();
        match self.transfer(&legs.inbound) {
            Err(e) => {
                return Err(e);
            },
            Ok(()) => {},
        }
        match self.transfer(&legs.outbound) {
            Err(e) => {
                self.accounts = before;
                Err(e)
            },
            Ok(()) => Ok(()),
        }
    }
}

/// Whether a swap of `amount` between these four accounts can tell them
/// apart: the caller's source, the vault that receives, the vault that
/// pays and the caller's destination are four different accounts. A swap
/// of nothing moves nothing and needs no such care.
pub open spec fn accounts_apart(legs: SwapTransfers) -> bool {
    ||| legs.inbound.amount == 0 && legs.outbound.amount == 0
    ||| {
        &&& legs.inbound.from != legs.inbound.to
        &&& legs.inbound.from != legs.outbound.from
        &&& legs.inbound.from != legs.outbound.to
        &&& legs.inbound.to != legs.outbound.from
        &&& legs.inbound.to != legs.outbound.to
        &&& legs.outbound.from != legs.outbound.to
    }
}

/// A swap that the book carries out moves each leg's amount and nothing
/// else: the caller's source is down by what was paid in and the vault
/// that receives is up by it, the vault that pays is down by what was paid
/// out and the caller's destination is up by it. Every other account, and
/// who owns each account, stays as it was.
pub proof fn lemma_swap_moves_amount(book: Map<Address, TokenAccount>, legs: SwapTransfers)
    requires
        after_swap(book, legs) is Some,
        accounts_apart(legs),
    ensures
        ({
            let after = after_swap(book, legs)->0;
            &&& after.dom() == book.dom()
            &&& after[legs.inbound.from].amount == book[legs.inbound.from].amount
                - legs.inbound.amount
            &&& after[legs.inbound.to].amount == book[legs.inbound.to].amount
                + legs.inbound.amount
            &&& after[legs.outbound.from].amount == book[legs.outbound.from].amount
                - legs.outbound.amount
            &&& after[legs.outbound.to].amount == book[legs.outbound.to].amount
                + legs.outbound.amount
            &&& forall|k: Address|
                book.contains_key(k) && k != legs.inbound.from && k != legs.inbound.to && k
                    != legs.outbound.from && k != legs.outbound.to ==> #[trigger] after[k]
                    == book[k]
            &&& forall|k: Address|
                book.contains_key(k) ==> (#[trigger] after[k]).owner == book[k].owner
        }),
{
    let mid = after_transfer(book, legs.inbound);
    let after = after_transfer(mid, legs.outbound);
    assert(mid.dom() =~= book.dom());
    assert(after.dom() =~= book.dom());
}

/// A swap of premium tokens for normal tokens that goes through and is
/// carried out conserves the amount: the premium vault gains it and the
/// caller's source loses it, the normal vault loses it and the caller's
/// destination gains it.
pub proof fn lemma_premium_for_normal_conserves(
    book: Map<Address, TokenAccount>,
    source_authority: Address,
    premium: LoadedPremiumMintReserve,
    normal: LoadedNormalMintReserve,
    normal_token_account: TokenAccount,
    premium_account: TokenAccount,
    source: TokenAccount,
    destination: TokenAccount,
    now: i64,
    amount: u64,
)
    requires
        premium_for_normal(
            source_authority,
            premium,
            normal,
            normal_token_account,
            premium_account,
            source,
            destination,
            now,
            amount,
        ) is Ok,
        after_swap(
            book,
            premium_for_normal(
                source_authority,
                premium,
                normal,
                normal_token_account,
                premium_account,
                source,
                destination,
                now,
                amount,
            )->Ok_0,
        ) is Some,
        amount == 0 || {
            &&& source.key != premium_account.key
            &&& source.key != normal_token_account.key
            &&& source.key != destination.key
            &&& premium_account.key != normal_token_account.key
            &&& premium_account.key != destination.key
            &&& normal_token_account.key != destination.key
        },
    ensures
        ({
            let after = after_swap(
                book,
                premium_for_normal(
                    source_authority,
                    premium,
                    normal,
                    normal_token_account,
                    premium_account,
                    source,
                    destination,
                    now,
                    amount,
                )->Ok_0,
            )->0;
            &&& after[premium_account.key].amount == book[premium_account.key].amount + amount
            &&& after[source.key].amount == book[source.key].amount - amount
            &&& after[normal_token_account.key].amount == book[normal_token_account.key].amount
                - amount
            &&& after[destination.key].amount == book[destination.key].amount + amount
        }),
{
    let legs = premium_for_normal(
        source_authority,
        premium,
        normal,
        normal_token_account,
        premium_account,
        source,
        destination,
        now,
        amount,
    )->Ok_0;
    lemma_swap_moves_amount(book, legs);
}

/// A swap of normal tokens for premium tokens that goes through and is
/// carried out conserves the amount: the normal vault gains it and the
/// caller's source loses it, the premium vault loses it and the caller's
/// destination gains it.
pub proof fn lemma_normal_for_premium_conserves(
    book: Map<Address, TokenAccount>,
    source_authority: Address,
    premium: LoadedPremiumMintReserve,
    normal: LoadedNormalMintReserve,
    normal_token_account: TokenAccount,
    premium_account: TokenAccount,
    source: TokenAccount,
    destination: TokenAccount,
    now: i64,
    amount: u64,
)
    requires
        normal_for_premium(
            source_authority,
            premium,
            normal,
            normal_token_account,
            premium_account,
            source,
            destination,
            now,
            amount,
        ) is Ok,
        after_swap(
            book,
            normal_for_premium(
                source_authority,
                premium,
                normal,
                normal_token_account,
                premium_account,
                source,
                destination,
                now,
                amount,
            )->Ok_0,
        ) is Some,
        amount == 0 || {
            &&& source.key != premium_account.key
            &&& source.key != normal_token_account.key
            &&& source.key != destination.key
            &&& premium_account.key != normal_token_account.key
            &&& premium_account.key != destination.key
            &&& normal_token_account.key != destination.key
        },
    ensures
        ({
            let after = after_swap(
                book,
                normal_for_premium(
                    source_authority,
                    premium,
                    normal,
                    normal_token_account,
                    premium_account,
                    source,
                    destination,
                    now,
                    amount,
                )->Ok_0,
            )->0;
            &&& after[normal_token_account.key].amount == book[normal_token_account.key].amount
                + amount
            &&& after[source.key].amount == book[source.key].amount - amount
            &&& after[premium_account.key].amount == book[premium_account.key].amount - amount
            &&& after[destination.key].amount == book[destination.key].amount + amount
        }),
{
    let legs = normal_for_premium(
        source_authority,
        premium,
        normal,
        normal_token_account,
        premium_account,
        source,
        destination,
        now,
        amount,
    )->Ok_0;
    lemma_swap_moves_amount(book, legs);
}

/// The owner's withdrawal from the premium vault is carried out for any
/// amount the vault holds: where the reserve is custodian of the vault in
/// the book and the destination is in the book with room for the amount,
/// the book lets the transfer through and the vault is down by the amount.
pub proof fn lemma_premium_withdrawal_settles(
    book: Map<Address, TokenAccount>,
    authority: Address,
    premium: LoadedPremiumMintReserve,
    premium_account: TokenAccount,
    destination: TokenAccount,
    amount: u64,
)
    requires
        authority == premium.authority,
        premium_account.key == premium.premium_account,
        book.contains_key(premium_account.key),
        book[premium_account.key].owner == premium.key,
        amount <= book[premium_account.key].amount,
        book.contains_key(destination.key),
        destination.key != premium_account.key,
        book[destination.key].amount + amount <= u64::MAX,
    ensures
        premium_withdrawal(authority, premium, premium_account, destination, amount) is Ok,
        ({
            let t = premium_withdrawal(
                authority,
                premium,
                premium_account,
                destination,
                amount,
            )->Ok_0;
            &&& transfer_allowed(book, t)
            &&& after_transfer(book, t)[premium_account.key].amount
                == book[premium_account.key].amount - amount
            &&& after_transfer(book, t)[destination.key].amount == book[destination.key].amount
                + amount
        }),
{
}

/// The owner's withdrawal from a normal vault is carried out for any
/// amount the vault holds: where the normal reserve is custodian of the
/// vault in the book and the destination is in the book with room for the
/// amount, the book lets the transfer through and the vault is down by the
/// amount.
pub proof fn lemma_normal_withdrawal_settles(
    book: Map<Address, TokenAccount>,
    authority: Address,
    premium: LoadedPremiumMintReserve,
    normal: LoadedNormalMintReserve,
    normal_token_account: TokenAccount,
    destination: TokenAccount,
    amount: u64,
)
    requires
        authority == premium.authority,
        normal.premium_mint_reserve_acc == premium.key,
        normal_token_account.key == normal.normal_token_account,
        book.contains_key(normal_token_account.key),
        book[normal_token_account.key].owner == normal.key,
        amount <= book[normal_token_account.key].amount,
        book.contains_key(destination.key),
        destination.key != normal_token_account.key,
        book[destination.key].amount + amount <= u64::MAX,
    ensures
        normal_withdrawal(authority, premium, normal, normal_token_account, destination, amount)
            is Ok,
        ({
            let t = normal_withdrawal(
                authority,
                premium,
                normal,
                normal_token_account,
                destination,
                amount,
            )->Ok_0;
            &&& transfer_allowed(book, t)
            &&& after_transfer(book, t)[normal_token_account.key].amount
                == book[normal_token_account.key].amount - amount
            &&& after_transfer(book, t)[destination.key].amount == book[destination.key].amount
                + amount
        }),
{
}

} // verus!
