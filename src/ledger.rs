use vstd::prelude::*;

use crate::error::ContractError;

verus! {

/// The balance of one account.
pub struct Holding {
    pub account: String,
    pub amount: u128,
}

/// What `spender` may still move on behalf of `owner`.
pub struct Grant {
    pub owner: String,
    pub spender: String,
    pub amount: u128,
}

/// The balance of `id` in `s`; an account without an entry holds zero.
pub open spec fn balance_in(s: Seq<Holding>, id: Seq<char>) -> nat
    decreases s.len(),
{
    if s.len() == 0 {
        0
    } else if s.last().account@ == id {
        s.last().amount as nat
    } else {
        balance_in(s.drop_last(), id)
    }
}

/// The sum of all balances in `s`.
pub open spec fn sum_of(s: Seq<Holding>) -> nat
    decreases s.len(),
{
    if s.len() == 0 {
        0
    } else {
        sum_of(s.drop_last()) + s.last().amount as nat
    }
}

/// No account has two entries.
pub open spec fn distinct_holders(s: Seq<Holding>) -> bool {
    forall|i: int, j: int| 0 <= i < j < s.len() ==> s[i].account@ != s[j].account@
}

/// The allowance of `spender` over `owner`'s funds in `s`; absent means zero.
pub open spec fn allowance_in(s: Seq<Grant>, owner: Seq<char>, spender: Seq<char>) -> nat
    decreases s.len(),
{
    if s.len() == 0 {
        0
    } else if s.last().owner@ == owner && s.last().spender@ == spender {
        s.last().amount as nat
    } else {
        allowance_in(s.drop_last(), owner, spender)
    }
}

/// No (owner, spender) pair has two entries.
pub open spec fn distinct_grants(s: Seq<Grant>) -> bool {
    forall|i: int, j: int|
        0 <= i < j < s.len() ==> !(s[i].owner@ == s[j].owner@ && s[i].spender@ == s[j].spender@)
}

proof fn lemma_balance_at(s: Seq<Holding>, i: int)
    requires
        distinct_holders(s),
        0 <= i < s.len(),
    ensures
        balance_in(s, s[i].account@) == s[i].amount,
    decreases s.len(),
{
    if i < s.len() - 1 {
        assert(s[i].account@ != s[s.len() - 1].account@);
        lemma_balance_at(s.drop_last(), i);
    }
}

proof fn lemma_balance_absent(s: Seq<Holding>, id: Seq<char>)
    requires
        forall|i: int| 0 <= i < s.len() ==> s[i].account@ != id,
    ensures
        balance_in(s, id) == 0,
    decreases s.len(),
{
    if s.len() > 0 {
        lemma_balance_absent(s.drop_last(), id);
    }
}

proof fn lemma_balance_update(s: Seq<Holding>, i: int, h: Holding, x: Seq<char>)
    requires
        distinct_holders(s),
        0 <= i < s.len(),
        h.account@ == s[i].account@,
    ensures
        balance_in(s.update(i, h), x) == if x == h.account@ {
            h.amount as nat
        } else {
            balance_in(s, x)
        },
        sum_of(s.update(i, h)) == sum_of(s) - s[i].amount + h.amount,
    decreases s.len(),
{
    let u = s.update(i, h);
    if i == s.len() - 1 {
        assert(u.drop_last() =~= s.drop_last());
    } else {
        assert(u.drop_last() =~= s.drop_last().update(i, h));
        assert(s[i].account@ != s[s.len() - 1].account@);
        lemma_balance_update(s.drop_last(), i, h, x);
    }
}

proof fn lemma_balance_push(s: Seq<Holding>, h: Holding, x: Seq<char>)
    ensures
        balance_in(s.push(h), x) == if x == h.account@ {
            h.amount as nat
        } else {
            balance_in(s, x)
        },
        sum_of(s.push(h)) == sum_of(s) + h.amount,
{
    assert(s.push(h).drop_last() =~= s);
}

proof fn lemma_balance_le_sum(s: Seq<Holding>, x: Seq<char>)
    ensures
        balance_in(s, x) <= sum_of(s),
    decreases s.len(),
{
    if s.len() > 0 {
        lemma_balance_le_sum(s.drop_last(), x);
    }
}

proof fn lemma_two_balances_le_sum(s: Seq<Holding>, x: Seq<char>, y: Seq<char>)
    requires
        x != y,
    ensures
        balance_in(s, x) + balance_in(s, y) <= sum_of(s),
    decreases s.len(),
{
    if s.len() > 0 {
        lemma_balance_le_sum(s.drop_last(), x);
        lemma_balance_le_sum(s.drop_last(), y);
        lemma_two_balances_le_sum(s.drop_last(), x, y);
    }
}

proof fn lemma_allowance_at(s: Seq<Grant>, i: int)
    requires
        distinct_grants(s),
        0 <= i < s.len(),
    ensures
        allowance_in(s, s[i].owner@, s[i].spender@) == s[i].amount,
    decreases s.len(),
{
    if i < s.len() - 1 {
        lemma_allowance_at(s.drop_last(), i);
    }
}

proof fn lemma_allowance_absent(s: Seq<Grant>, o: Seq<char>, p: Seq<char>)
    requires
        forall|i: int| 0 <= i < s.len() ==> !(s[i].owner@ == o && s[i].spender@ == p),
    ensures
        allowance_in(s, o, p) == 0,
    decreases s.len(),
{
    if s.len() > 0 {
        lemma_allowance_absent(s.drop_last(), o, p);
    }
}

proof fn lemma_allowance_update(s: Seq<Grant>, i: int, g: Grant, o: Seq<char>, p: Seq<char>)
    requires
        distinct_grants(s),
        0 <= i < s.len(),
        g.owner@ == s[i].owner@,
        g.spender@ == s[i].spender@,
    ensures
        allowance_in(s.update(i, g), o, p) == if o == g.owner@ && p == g.spender@ {
            g.amount as nat
        } else {
            allowance_in(s, o, p)
        },
    decreases s.len(),
{
    let u = s.update(i, g);
    if i == s.len() - 1 {
        assert(u.drop_last() =~= s.drop_last());
    } else {
        assert(u.drop_last() =~= s.drop_last().update(i, g));
        lemma_allowance_update(s.drop_last(), i, g, o, p);
    }
}

proof fn lemma_allowance_push(s: Seq<Grant>, g: Grant, o: Seq<char>, p: Seq<char>)
    ensures
        allowance_in(s.push(g), o, p) == if o == g.owner@ && p == g.spender@ {
            g.amount as nat
        } else {
            allowance_in(s, o, p)
        },
{
    assert(s.push(g).drop_last() =~= s);
}


fn find_holding(v: &Vec<Holding>, id: &String) -> (r: Option<usize>)
    ensures
        r matches Some(i) ==> i < v@.len() && v@[i as int].account@ == id@,
        r is None ==> forall|i: int| 0 <= i < v@.len() ==> v@[i].account@ != id@,
{
    let mut i: usize = 0;
    while i < v.len()
        invariant
            i <= v@.len(),
            forall|j: int| 0 <= j < i ==> v@[j].account@ != id@,
        decreases v@.len() - i,
    {
        if v[i].account == *id {
            return Some(i);
        }
        i = i + 1;
    }
    None
}

fn find_grant(v: &Vec<Grant>, owner: &String, spender: &String) -> (r: Option<usize>)
    ensures
        r matches Some(i) ==> i < v@.len() && v@[i as int].owner@ == owner@ && v@[i as int].spender@
            == spender@,
        r is None ==> forall|i: int|
            0 <= i < v@.len() ==> !(v@[i].owner@ == owner@ && v@[i].spender@ == spender@),
{
    let mut i: usize = 0;
    while i < v.len()
        invariant
            i <= v@.len(),
            forall|j: int| 0 <= j < i ==> !(v@[j].owner@ == owner@ && v@[j].spender@ == spender@),
        decreases v@.len() - i,
    {
        if v[i].owner == *owner && v[i].spender == *spender {
            return Some(i);
        }
        i = i + 1;
    }
    None
}

/// Balances, allowances and the total supply of the token.
pub struct Ledger {
    pub holdings: Vec<Holding>,
    pub grants: Vec<Grant>,
    pub total_supply: u128,
}

impl Ledger {
    /// Each account and each (owner, spender) pair has at most one entry, and
    /// the total supply is the sum of all balances.
    pub open spec fn wf(&self) -> bool {
        &&& distinct_holders(self.holdings@)
        &&& distinct_grants(self.grants@)
        &&& self.total_supply == sum_of(self.holdings@)
    }

    pub open spec fn balance(&self, id: Seq<char>) -> nat {
        balance_in(self.holdings@, id)
    }

    pub open spec fn allowance(&self, owner: Seq<char>, spender: Seq<char>) -> nat {
        allowance_in(self.grants@, owner, spender)
    }

    pub open spec fn same_balances(&self, other: &Ledger) -> bool {
        &&& forall|x: Seq<char>| #[trigger] other.balance(x) == self.balance(x)
        &&& other.total_supply == self.total_supply
    }

    pub open spec fn same_allowances(&self, other: &Ledger) -> bool {
        forall|o: Seq<char>, p: Seq<char>| #[trigger] other.allowance(o, p) == self.allowance(o, p)
    }

    /// `new` is `self` with `amount` added to the balance of `id`.
    pub open spec fn credited(&self, new: &Ledger, id: Seq<char>, amount: int) -> bool {
        forall|x: Seq<char>| #[trigger]
            new.balance(x) == if x == id {
                self.balance(x) + amount
            } else {
                self.balance(x) as int
            }
    }

    /// `new` is `self` with `amount` moved from `from` to `to`.
    pub open spec fn moved(&self, new: &Ledger, from: Seq<char>, to: Seq<char>, amount: int) -> bool {
        forall|x: Seq<char>| #[trigger]
            new.balance(x) == if from == to {
                self.balance(x) as int
            } else if x == from {
                self.balance(x) - amount
            } else if x == to {
                self.balance(x) + amount
            } else {
                self.balance(x) as int
            }
    }

    /// What `mint` leaves behind: on success `recipient` and the total supply
    /// grow by `amount`; it fails exactly when the total supply would overflow.
    pub open spec fn mint_post(
        &self,
        new: &Ledger,
        recipient: Seq<char>,
        amount: u128,
        r: Result<(), ContractError>,
    ) -> bool {
        match r {
            Ok(()) => {
                &&& self.total_supply + amount <= u128::MAX
                &&& self.credited(new, recipient, amount as int)
                &&& new.total_supply == self.total_supply + amount
                &&& self.same_allowances(new)
            },
            Err(e) => {
                &&& self.total_supply + amount > u128::MAX
                &&& e == ContractError::Overflow
                &&& *new == *self
            },
        }
    }

    /// What `burn` leaves behind: on success `account` and the total supply
    /// shrink by `amount`; it fails exactly when the balance is too small.
    pub open spec fn burn_post(
        &self,
        new: &Ledger,
        account: Seq<char>,
        amount: u128,
        r: Result<(), ContractError>,
    ) -> bool {
        match r {
            Ok(()) => {
                &&& self.balance(account) >= amount
                &&& self.credited(new, account, -amount)
                &&& new.total_supply == self.total_supply - amount
                &&& self.same_allowances(new)
            },
            Err(e) => {
                &&& self.balance(account) < amount
                &&& e == ContractError::InsufficientFunds {
                    balance: self.balance(account) as u128,
                    required: amount,
                }
                &&& *new == *self
            },
        }
    }

    /// What `transfer` leaves behind: on success `amount` moved from `from`
    /// to `to`; it fails exactly when the balance of `from` is too small.
    pub open spec fn transfer_post(
        &self,
        new: &Ledger,
        from: Seq<char>,
        to: Seq<char>,
        amount: u128,
        r: Result<(), ContractError>,
    ) -> bool {
        match r {
            Ok(()) => {
                &&& self.balance(from) >= amount
                &&& self.moved(new, from, to, amount as int)
                &&& new.total_supply == self.total_supply
                &&& self.same_allowances(new)
            },
            Err(e) => {
                &&& self.balance(from) < amount
                &&& e == ContractError::InsufficientFunds {
                    balance: self.balance(from) as u128,
                    required: amount,
                }
                &&& *new == *self
            },
        }
    }

    /// What `approve` leaves behind: the one allowance set, nothing else moved.
    pub open spec fn approve_post(
        &self,
        new: &Ledger,
        owner: Seq<char>,
        spender: Seq<char>,
        amount: u128,
    ) -> bool {
        &&& self.granted(new, owner, spender, amount as nat)
        &&& self.same_balances(new)
    }

    /// What `transfer_from` leaves behind: on success the allowance shrinks by
    /// `amount` and `amount` moved from `owner` to `recipient`; on failure
    /// nothing changed.
    pub open spec fn transfer_from_post(
        &self,
        new: &Ledger,
        spender: Seq<char>,
        owner: Seq<char>,
        recipient: Seq<char>,
        amount: u128,
        r: Result<(), ContractError>,
    ) -> bool {
        match r {
            Ok(()) => {
                &&& self.transfer_from_error(spender, owner, amount) is None
                &&& self.moved(new, owner, recipient, amount as int)
                &&& new.total_supply == self.total_supply
                &&& self.granted(
                    new,
                    owner,
                    spender,
                    (self.allowance(owner, spender) - amount) as nat,
                )
            },
            Err(e) => {
                &&& self.transfer_from_error(spender, owner, amount) == Some(e)
                &&& *new == *self
            },
        }
    }

    /// A ledger with no balances, no allowances and no supply.
    pub fn new() -> (r: Ledger)
        ensures
            r.wf(),
            r.total_supply == 0,
            forall|x: Seq<char>| #[trigger] r.balance(x) == 0,
            forall|o: Seq<char>, p: Seq<char>| #[trigger] r.allowance(o, p) == 0,
    {
        Ledger { holdings: Vec::new(), grants: Vec::new(), total_supply: 0 }
    }

    /// The balance of `id`.
    pub fn balance_of(&self, id: &String) -> (r: u128)
        requires
            self.wf(),
        ensures
            r == self.balance(id@),
    {
        match find_holding(&self.holdings, id) {
            Some(i) => {
                proof {
                    lemma_balance_at(self.holdings@, i as int);
                }
                self.holdings[i].amount
            },
            None => {
                proof {
                    lemma_balance_absent(self.holdings@, id@);
                }
                0
            },
        }
    }

    /// What `spender` may still move on behalf of `owner`.
    pub fn allowance_of(&self, owner: &String, spender: &String) -> (r: u128)
        requires
            self.wf(),
        ensures
            r == self.allowance(owner@, spender@),
    {
        match find_grant(&self.grants, owner, spender) {
            Some(i) => {
                proof {
                    lemma_allowance_at(self.grants@, i as int);
                }
                self.grants[i].amount
            },
            None => {
                proof {
                    lemma_allowance_absent(self.grants@, owner@, spender@);
                }
                0
            },
        }
    }

    /// Sets the balance of `id` without touching the total supply.
    fn set_balance(&mut self, id: &String, amount: u128)
        requires
            distinct_holders(old(self).holdings@),
        ensures
            distinct_holders(final(self).holdings@),
            sum_of(final(self).holdings@) == sum_of(old(self).holdings@) - old(self).balance(id@)
                + amount,
            forall|x: Seq<char>| #[trigger]
                final(self).balance(x) == if x == id@ {
                    amount as nat
                } else {
                    old(self).balance(x)
                },
            final(self).grants == old(self).grants,
            final(self).total_supply == old(self).total_supply,
    {
        let h = Holding { account: id.clone(), amount };
        match find_holding(&self.holdings, id) {
            Some(i) => {
                proof {
                    lemma_balance_at(self.holdings@, i as int);
                    assert forall|x: Seq<char>| #[trigger]
                        balance_in(self.holdings@.update(i as int, h), x) == if x == id@ {
                            amount as nat
                        } else {
                            balance_in(self.holdings@, x)
                        } by {
                        lemma_balance_update(self.holdings@, i as int, h, x);
                    }
                    lemma_balance_update(self.holdings@, i as int, h, id@);
                }
                self.holdings.set(i, h);
            },
            None => {
                proof {
                    lemma_balance_absent(self.holdings@, id@);
                    assert forall|x: Seq<char>| #[trigger]
                        balance_in(self.holdings@.push(h), x) == if x == id@ {
                            amount as nat
                        } else {
                            balance_in(self.holdings@, x)
                        } by {
                        lemma_balance_push(self.holdings@, h, x);
                    }
                    lemma_balance_push(self.holdings@, h, id@);
                }
                self.holdings.push(h);
            },
        }
    }

    /// Sets what `spender` may move on behalf of `owner`.
    fn set_allowance(&mut self, owner: &String, spender: &String, amount: u128)
        requires
            distinct_grants(old(self).grants@),
        ensures
            distinct_grants(final(self).grants@),
            forall|o: Seq<char>, p: Seq<char>| #[trigger]
                final(self).allowance(o, p) == if o == owner@ && p == spender@ {
                    amount as nat
                } else {
                    old(self).allowance(o, p)
                },
            final(self).holdings == old(self).holdings,
            final(self).total_supply == old(self).total_supply,
    {
        let g = Grant { owner: owner.clone(), spender: spender.clone(), amount };
        match find_grant(&self.grants, owner, spender) {
            Some(i) => {
                proof {
                    assert forall|o: Seq<char>, p: Seq<char>| #[trigger]
                        allowance_in(self.grants@.update(i as int, g), o, p) == if o == owner@ && p
                            == spender@ {
                            amount as nat
                        } else {
                            allowance_in(self.grants@, o, p)
                        } by {
                        lemma_allowance_update(self.grants@, i as int, g, o, p);
                    }
                }
                self.grants.set(i, g);
            },
            None => {
                proof {
                    assert forall|o: Seq<char>, p: Seq<char>| #[trigger]
                        allowance_in(self.grants@.push(g), o, p) == if o == owner@ && p
                            == spender@ {
                            amount as nat
                        } else {
                            allowance_in(self.grants@, o, p)
                        } by {
                        lemma_allowance_push(self.grants@, g, o, p);
                    }
                }
                self.grants.push(g);
            },
        }
    }

    /// Adds `amount` to the balance of `recipient` and to the total supply.
    /// Fails with `Overflow` when the total supply would not fit.
    pub fn mint(&mut self, recipient: &String, amount: u128) -> (r: Result<(), ContractError>)
        requires
            old(self).wf(),
        ensures
            final(self).wf(),
            old(self).mint_post(final(self), recipient@, amount, r),
    {
        let total = match self.total_supply.checked_add(amount) {
            Some(t) => t,
            None => return Err(ContractError::Overflow),
        };
        let balance = self.balance_of(recipient);
        proof {
            lemma_balance_le_sum(self.holdings@, recipient@);
        }
        self.total_supply = total;
        self.set_balance(recipient, balance + amount);
        Ok(())
    }

    /// Removes `amount` from the balance of `account` and from the total
    /// supply. Fails with `InsufficientFunds` when the balance is smaller.
    pub fn burn(&mut self, account: &String, amount: u128) -> (r: Result<(), ContractError>)
        requires
            old(self).wf(),
        ensures
            final(self).wf(),
            old(self).burn_post(final(self), account@, amount, r),
    {
        let balance = self.balance_of(account);
        if balance < amount {
            return Err(ContractError::InsufficientFunds { balance, required: amount });
        }
        proof {
            lemma_balance_le_sum(self.holdings@, account@);
        }
        self.total_supply = self.total_supply - amount;
        self.set_balance(account, balance - amount);
        Ok(())
    }

    /// Moves `amount` from `from` to `to`. Fails with `InsufficientFunds`
    /// when the balance of `from` is smaller.
    pub fn transfer(&mut self, from: &String, to: &String, amount: u128) -> (r: Result<
        (),
        ContractError,
    >)
        requires
            old(self).wf(),
        ensures
            final(self).wf(),
            old(self).transfer_post(final(self), from@, to@, amount, r),
    {
        let from_balance = self.balance_of(from);
        if from_balance < amount {
            return Err(ContractError::InsufficientFunds { balance: from_balance, required: amount });
        }
        if *from == *to {
            return Ok(());
        }
        let to_balance = self.balance_of(to);
        proof {
            lemma_two_balances_le_sum(self.holdings@, from@, to@);
        }
        self.set_balance(from, from_balance - amount);
        self.set_balance(to, to_balance + amount);
        Ok(())
    }

    /// Sets what `spender` may move on behalf of `owner` to exactly `amount`,
    /// discarding what was granted before.
    pub fn approve(&mut self, owner: &String, spender: &String, amount: u128)
        requires
            old(self).wf(),
        ensures
            final(self).wf(),
            old(self).approve_post(final(self), owner@, spender@, amount),
    {
        self.set_allowance(owner, spender, amount);
    }

    /// `new` is `self` with the allowance of (`owner`, `spender`) set to
    /// `amount` and every other allowance kept.
    pub open spec fn granted(&self, new: &Ledger, owner: Seq<char>, spender: Seq<char>, amount: nat) -> bool {
        forall|o: Seq<char>, p: Seq<char>| #[trigger]
            new.allowance(o, p) == if o == owner && p == spender {
                amount
            } else {
                self.allowance(o, p)
            }
    }

    /// Why `transfer_from` refuses, if it does: the allowance is checked
    /// before the balance.
    pub open spec fn transfer_from_error(
        &self,
        spender: Seq<char>,
        owner: Seq<char>,
        amount: u128,
    ) -> Option<ContractError> {
        if self.allowance(owner, spender) < amount {
            Some(
                ContractError::InsufficientAllowance {
                    allowance: self.allowance(owner, spender) as u128,
                    required: amount,
                },
            )
        } else if self.balance(owner) < amount {
            Some(
                ContractError::InsufficientFunds {
                    balance: self.balance(owner) as u128,
                    required: amount,
                },
            )
        } else {
            None
        }
    }

    /// `spender` moves `amount` from `owner` to `recipient`, spending that
    /// much of its allowance over `owner`'s funds.
    pub fn transfer_from(
        &mut self,
        spender: &String,
        owner: &String,
        recipient: &String,
        amount: u128,
    ) -> (r: Result<(), ContractError>)
        requires
            old(self).wf(),
        ensures
            final(self).wf(),
            old(self).transfer_from_post(final(self), spender@, owner@, recipient@, amount, r),
    {
        let allowance = self.allowance_of(owner, spender);
        if allowance < amount {
            return Err(ContractError::InsufficientAllowance { allowance, required: amount });
        }
        let balance = self.balance_of(owner);
        if balance < amount {
            return Err(ContractError::InsufficientFunds { balance, required: amount });
        }
        self.set_allowance(owner, spender, allowance - amount);
        let ghost mid = *self;
        let r = self.transfer(owner, recipient, amount);
        assert(mid.same_allowances(self));
        r
    }
}

fn holders_distinct(v: &Vec<Holding>) -> (r: bool)
    ensures
        r == distinct_holders(v@),
{
    let mut j: usize = 0;
    while j < v.len()
        invariant
            j <= v@.len(),
            forall|a: int, b: int| 0 <= a < b < j ==> v@[a].account@ != v@[b].account@,
        decreases v@.len() - j,
    {
        let mut i: usize = 0;
        while i < j
            invariant
                i <= j < v@.len(),
                forall|a: int| 0 <= a < i ==> v@[a].account@ != v@[j as int].account@,
            decreases j - i,
        {
            if v[i].account == v[j].account {
                return false;
            }
            i = i + 1;
        }
        j = j + 1;
    }
    true
}

fn grants_distinct(v: &Vec<Grant>) -> (r: bool)
    ensures
        r == distinct_grants(v@),
{
    let mut j: usize = 0;
    while j < v.len()
        invariant
            j <= v@.len(),
            forall|a: int, b: int|
                0 <= a < b < j ==> !(v@[a].owner@ == v@[b].owner@ && v@[a].spender@
                    == v@[b].spender@),
        decreases v@.len() - j,
    {
        let mut i: usize = 0;
        while i < j
            invariant
                i <= j < v@.len(),
                forall|a: int|
                    0 <= a < i ==> !(v@[a].owner@ == v@[j as int].owner@ && v@[a].spender@
                        == v@[j as int].spender@),
            decreases j - i,
        {
            if v[i].owner == v[j].owner && v[i].spender == v[j].spender {
                return false;
            }
            i = i + 1;
        }
        j = j + 1;
    }
    true
}

/// The sum of the balances in `v`, or `None` when it does not fit.
fn checked_sum(v: &Vec<Holding>) -> (r: Option<u128>)
    ensures
        r matches Some(t) ==> t == sum_of(v@),
        r is None ==> sum_of(v@) > u128::MAX,
{
    let mut total: u128 = 0;
    let mut i: usize = 0;
    while i < v.len()
        invariant
            i <= v@.len(),
            total == sum_of(v@.take(i as int)),
        decreases v@.len() - i,
    {
        assert(v@.take(i + 1).drop_last() =~= v@.take(i as int));
        match total.checked_add(v[i].amount) {
            Some(t) => total = t,
            None => {
                proof {
                    lemma_sum_of_prefix(v@, i + 1);
                }
                return None;
            },
        }
        i = i + 1;
    }
    assert(v@.take(v@.len() as int) =~= v@);
    Some(total)
}

proof fn lemma_sum_of_prefix(s: Seq<Holding>, n: int)
    requires
        0 <= n <= s.len(),
    ensures
        sum_of(s.take(n)) <= sum_of(s),
    decreases s.len(),
{
    if n < s.len() {
        assert(s.drop_last().take(n) =~= s.take(n));
        lemma_sum_of_prefix(s.drop_last(), n);
    } else {
        assert(s.take(n) =~= s);
    }
}

impl Ledger {
    /// Whether the ledger is well formed; to check state that comes from
    /// elsewhere before operating on it.
    pub fn is_well_formed(&self) -> (r: bool)
        ensures
            r == self.wf(),
    {
        if !holders_distinct(&self.holdings) || !grants_distinct(&self.grants) {
            return false;
        }
        match checked_sum(&self.holdings) {
            Some(t) => t == self.total_supply,
            None => false,
        }
    }
}

/// The total supply is the sum of all balances, so no balance exceeds it.
pub proof fn lemma_supply_is_sum_of_balances(l: Ledger, x: Seq<char>)
    requires
        l.wf(),
    ensures
        l.total_supply == sum_of(l.holdings@),
        l.balance(x) <= l.total_supply,
{
    lemma_balance_le_sum(l.holdings@, x);
}

/// A transfer of zero always succeeds and changes nothing.
pub proof fn lemma_zero_transfer_changes_nothing(
    l: Ledger,
    new: Ledger,
    from: Seq<char>,
    to: Seq<char>,
    r: Result<(), ContractError>,
)
    requires
        l.transfer_post(&new, from, to, 0, r),
    ensures
        r is Ok,
        l.same_balances(&new),
        l.same_allowances(&new),
{
}

/// Approving twice keeps only the second amount: allowances are set, not added.
pub proof fn lemma_approve_overwrites(
    l0: Ledger,
    l1: Ledger,
    l2: Ledger,
    owner: Seq<char>,
    spender: Seq<char>,
    first: u128,
    second: u128,
)
    requires
        l0.approve_post(&l1, owner, spender, first),
        l1.approve_post(&l2, owner, spender, second),
    ensures
        l2.allowance(owner, spender) == second,
{
    assert(l2.allowance(owner, spender) == second);
}

/// Spending more than the allowance fails with `InsufficientAllowance` and
/// leaves the allowance as it was.
pub proof fn lemma_overdrawn_allowance_fails(
    l: Ledger,
    new: Ledger,
    spender: Seq<char>,
    owner: Seq<char>,
    recipient: Seq<char>,
    amount: u128,
    r: Result<(), ContractError>,
)
    requires
        l.transfer_from_post(&new, spender, owner, recipient, amount, r),
        l.allowance(owner, spender) < amount,
    ensures
        r == Err::<(), ContractError>(
            ContractError::InsufficientAllowance {
                allowance: l.allowance(owner, spender) as u128,
                required: amount,
            },
        ),
        new.allowance(owner, spender) == l.allowance(owner, spender),
{
}

} // verus!
