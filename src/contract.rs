use vstd::prelude::*;

use vstd::arithmetic::div_mod::lemma_fundamental_div_mod;

use crate::vesting::lemma_accrual_monotone;

use crate::error::ContractError;
use crate::ledger::Ledger;
use crate::vesting::AccrualTrack;

verus! {

/// One whole token in its smallest units.
pub const ETHER: u128 = 1_000_000_000_000_000_000;

/// Seconds in a day.
pub const DAY: u64 = 86400;

/// The token's name.
pub const NAME: &'static str = "3SHARE Token";

/// The token's ticker symbol.
pub const SYMBOL: &'static str = "3SHARES";

/// Decimal places of the token.
pub const DECIMALS: u8 = 18;

/// Minted once, by the admin, to the farming incentive fund.
pub const FARMING_POOL_REWARD_ALLOCATION: u128 = 60000 * ETHER;

/// Released over the vesting period to the community fund.
pub const COMMUNITY_FUND_POOL_ALLOCATION: u128 = 0;

/// Released over the vesting period to the dev fund.
pub const DEV_FUND_POOL_ALLOCATION: u128 = 5000 * ETHER;

/// Length of the vesting period in seconds.
pub const VESTING_DURATION: u64 = 356 * DAY;

/// What the creator of the token receives at creation.
pub const INITIAL_SUPPLY: u128 = ETHER;

/// Parameters of the token's creation.
pub struct InstantiateMsg {
    pub start_time: u64,
    pub dev_fund: String,
    pub community_fund: String,
}

/// A mutating call on the token.
pub enum ExecuteMsg {
    Approve { spender: String, amount: u128 },
    Transfer { recipient: String, amount: u128 },
    TransferFrom { owner: String, recipient: String, amount: u128 },
    Burn { amount: u128 },
    Mint { recipient: String, amount: u128 },
    SetTreasuryFund { community_fund: String },
    SetDevFund { dev_fund: String },
    ClaimRewards,
    DistributeReward { farming_incentive_fund: String },
    GovernanceRecoverUnsupported { token: String, amount: u128, to: String },
}

/// A read-only call on the token.
pub enum QueryMsg {
    Balance { address: String },
    Allowance { owner: String, spender: String },
    UnclaimedTreasuryFund,
    UnclaimedDevFund,
}

/// An instruction for the host: move `amount` of the foreign token `token`
/// held by this contract to `recipient`.
pub struct ForeignTransfer {
    pub token: String,
    pub recipient: String,
    pub amount: u128,
}

/// The whole state of the token.
pub struct Token {
    pub ledger: Ledger,
    pub start_time: u64,
    pub end_time: u64,
    pub community: AccrualTrack,
    pub dev: AccrualTrack,
    pub community_fund: String,
    pub dev_fund: String,
    pub reward_pool_distributed: bool,
}

/// The success or error of a call, with what it returned dropped.
pub open spec fn outcome<T>(r: Result<T, ContractError>) -> Result<(), ContractError> {
    match r {
        Ok(_) => Ok(()),
        Err(e) => Err(e),
    }
}

/// The per-second release of `allocation` over the vesting period.
pub open spec fn rate_of(allocation: u128) -> u128 {
    (allocation / (VESTING_DURATION as u128)) as u128
}

/// Creates the token: `creator` receives the initial supply, both tracks
/// start accruing at `msg.start_time` and end one vesting period later.
/// Fails with `Overflow` when that end does not fit in a timestamp.
pub fn instantiate(creator: &String, msg: InstantiateMsg) -> (r: Result<Token, ContractError>)
    ensures
        r is Ok <==> msg.start_time + VESTING_DURATION <= u64::MAX,
        r matches Ok(t) ==> {
            &&& t.wf()
            &&& t.ledger.total_supply == INITIAL_SUPPLY
            &&& forall|x: Seq<char>| #[trigger]
                t.ledger.balance(x) == if x == creator@ {
                    INITIAL_SUPPLY as nat
                } else {
                    0
                }
            &&& forall|o: Seq<char>, p: Seq<char>| #[trigger] t.ledger.allowance(o, p) == 0
            &&& t.start_time == msg.start_time
            &&& t.end_time == msg.start_time + VESTING_DURATION
            &&& t.community == (AccrualTrack {
                rate: rate_of(COMMUNITY_FUND_POOL_ALLOCATION),
                last_claimed: msg.start_time,
            })
            &&& t.dev == (AccrualTrack {
                rate: rate_of(DEV_FUND_POOL_ALLOCATION),
                last_claimed: msg.start_time,
            })
            &&& t.community_fund == msg.community_fund
            &&& t.dev_fund == msg.dev_fund
            &&& !t.reward_pool_distributed
        },
        r is Err ==> r == Err::<Token, ContractError>(ContractError::Overflow),
{
    let end_time = match msg.start_time.checked_add(VESTING_DURATION) {
        Some(t) => t,
        None => return Err(ContractError::Overflow),
    };
    let community_rate = COMMUNITY_FUND_POOL_ALLOCATION / (VESTING_DURATION as u128);
    let dev_rate = DEV_FUND_POOL_ALLOCATION / (VESTING_DURATION as u128);
    proof {
        lemma_fundamental_div_mod(DEV_FUND_POOL_ALLOCATION as int, VESTING_DURATION as int);
    }
    let mut ledger = Ledger::new();
    let minted = ledger.mint(creator, INITIAL_SUPPLY);
    assert(minted is Ok);
    Ok(
        Token {
            ledger,
            start_time: msg.start_time,
            end_time,
            community: AccrualTrack::new(community_rate, msg.start_time),
            dev: AccrualTrack::new(dev_rate, msg.start_time),
            community_fund: msg.community_fund,
            dev_fund: msg.dev_fund,
            reward_pool_distributed: false,
        },
    )
}

impl Token {
    pub open spec fn wf(&self) -> bool {
        &&& self.ledger.wf()
        &&& self.community.wf()
        &&& self.dev.wf()
    }

    /// Whether the state is well formed; to check state that comes from
    /// elsewhere before operating on it.
    pub fn is_well_formed(&self) -> (r: bool)
        ensures
            r == self.wf(),
    {
        self.ledger.is_well_formed() && self.community.rate <= u64::MAX as u128 && self.dev.rate
            <= u64::MAX as u128
    }

    /// The admin identity: whoever holds the dev-fund slot.
    pub open spec fn admin(&self) -> Seq<char> {
        self.dev_fund@
    }

    pub open spec fn unclaimed_treasury(&self, now: u64) -> nat {
        self.community.pending_at(self.end_time, now)
    }

    pub open spec fn unclaimed_dev(&self, now: u64) -> nat {
        self.dev.pending_at(self.end_time, now)
    }

    /// Everything but the ledger is as in `self`.
    pub open spec fn same_config(&self, new: &Token) -> bool {
        &&& new.start_time == self.start_time
        &&& new.end_time == self.end_time
        &&& new.community == self.community
        &&& new.dev == self.dev
        &&& new.community_fund == self.community_fund
        &&& new.dev_fund == self.dev_fund
        &&& new.reward_pool_distributed == self.reward_pool_distributed
    }

    /// What a change of the community fund leaves behind: only the admin may
    /// make it.
    pub open spec fn set_treasury_fund_post(
        &self,
        new: &Token,
        caller: Seq<char>,
        id: String,
        r: Result<(), ContractError>,
    ) -> bool {
        match r {
            Ok(()) => {
                &&& caller == self.admin()
                &&& *new == (Token { community_fund: id, ..*self })
            },
            Err(e) => {
                &&& caller != self.admin()
                &&& e == ContractError::NotOperator
                &&& *new == *self
            },
        }
    }

    /// What a change of the dev fund, and so of the admin, leaves behind:
    /// only the admin may make it.
    pub open spec fn set_dev_fund_post(
        &self,
        new: &Token,
        caller: Seq<char>,
        id: String,
        r: Result<(), ContractError>,
    ) -> bool {
        match r {
            Ok(()) => {
                &&& caller == self.admin()
                &&& *new == (Token { dev_fund: id, ..*self })
            },
            Err(e) => {
                &&& caller != self.admin()
                &&& e == ContractError::NotOperator
                &&& *new == *self
            },
        }
    }

    /// What a claim at `now` leaves behind: each track with something pending
    /// pays it to its beneficiary and is marked claimed at `now`.
    pub open spec fn claim_post(&self, new: &Token, now: u64, r: Result<(), ContractError>) -> bool {
        let cp = self.unclaimed_treasury(now);
        let dp = self.unclaimed_dev(now);
        match r {
            Ok(()) => {
                &&& self.ledger.total_supply + cp + dp <= u128::MAX
                &&& forall|x: Seq<char>| #[trigger]
                    new.ledger.balance(x) == self.ledger.balance(x) + (if x
                        == self.community_fund@ {
                        cp
                    } else {
                        0
                    }) + (if x == self.dev_fund@ {
                        dp
                    } else {
                        0
                    })
                &&& new.ledger.total_supply == self.ledger.total_supply + cp + dp
                &&& self.ledger.same_allowances(&new.ledger)
                &&& new.community.rate == self.community.rate
                &&& new.community.last_claimed == if cp > 0 {
                    now
                } else {
                    self.community.last_claimed
                }
                &&& new.dev.rate == self.dev.rate
                &&& new.dev.last_claimed == if dp > 0 {
                    now
                } else {
                    self.dev.last_claimed
                }
                &&& new.start_time == self.start_time
                &&& new.end_time == self.end_time
                &&& new.community_fund == self.community_fund
                &&& new.dev_fund == self.dev_fund
                &&& new.reward_pool_distributed == self.reward_pool_distributed
            },
            Err(e) => {
                &&& self.ledger.total_supply + cp + dp > u128::MAX
                &&& e == ContractError::Overflow
                &&& *new == *self
            },
        }
    }

    /// Why the incentive distribution is refused, if it is.
    pub open spec fn distribute_error(&self, caller: Seq<char>) -> Option<ContractError> {
        if caller != self.admin() {
            Some(ContractError::NotOperator)
        } else if self.reward_pool_distributed {
            Some(ContractError::DoubleDistribute)
        } else if self.ledger.total_supply + FARMING_POOL_REWARD_ALLOCATION > u128::MAX {
            Some(ContractError::Overflow)
        } else {
            None
        }
    }

    /// What the incentive distribution leaves behind: the guard is set and
    /// the farming allocation is minted to `recipient`.
    pub open spec fn distribute_post(
        &self,
        new: &Token,
        caller: Seq<char>,
        recipient: Seq<char>,
        r: Result<(), ContractError>,
    ) -> bool {
        match r {
            Ok(()) => {
                &&& self.distribute_error(caller) is None
                &&& new.reward_pool_distributed
                &&& self.ledger.credited(
                    &new.ledger,
                    recipient,
                    FARMING_POOL_REWARD_ALLOCATION as int,
                )
                &&& new.ledger.total_supply == self.ledger.total_supply
                    + FARMING_POOL_REWARD_ALLOCATION
                &&& self.ledger.same_allowances(&new.ledger)
                &&& new.start_time == self.start_time
                &&& new.end_time == self.end_time
                &&& new.community == self.community
                &&& new.dev == self.dev
                &&& new.community_fund == self.community_fund
                &&& new.dev_fund == self.dev_fund
            },
            Err(e) => {
                &&& self.distribute_error(caller) == Some(e)
                &&& *new == *self
            },
        }
    }

    /// The community fund's accrued and unclaimed reward at `now`.
    pub fn unclaimed_treasury_fund(&self, now: u64) -> (r: u128)
        requires
            self.wf(),
        ensures
            r == self.unclaimed_treasury(now),
    {
        self.community.pending(self.end_time, now)
    }

    /// The dev fund's accrued and unclaimed reward at `now`.
    pub fn unclaimed_dev_fund(&self, now: u64) -> (r: u128)
        requires
            self.wf(),
        ensures
            r == self.unclaimed_dev(now),
    {
        self.dev.pending(self.end_time, now)
    }

    fn is_admin(&self, caller: &String) -> (r: bool)
        ensures
            r == (caller@ == self.admin()),
    {
        *caller == self.dev_fund
    }

    /// Replaces the community fund; only the admin may.
    pub fn set_treasury_fund(&mut self, caller: &String, id: String) -> (r: Result<(), ContractError>)
        requires
            old(self).wf(),
        ensures
            final(self).wf(),
            old(self).set_treasury_fund_post(final(self), caller@, id, r),
    {
        if !self.is_admin(caller) {
            return Err(ContractError::NotOperator);
        }
        self.community_fund = id;
        Ok(())
    }

    /// Replaces the dev fund, which is also the admin identity; only the
    /// admin may.
    pub fn set_dev_fund(&mut self, caller: &String, id: String) -> (r: Result<(), ContractError>)
        requires
            old(self).wf(),
        ensures
            final(self).wf(),
            old(self).set_dev_fund_post(final(self), caller@, id, r),
    {
        if !self.is_admin(caller) {
            return Err(ContractError::NotOperator);
        }
        self.dev_fund = id;
        Ok(())
    }

    /// Pays both tracks what has accrued up to `now`. Anyone may call it: the
    /// payouts go to the two beneficiaries only.
    pub fn claim_rewards(&mut self, now: u64) -> (r: Result<(), ContractError>)
        requires
            old(self).wf(),
        ensures
            final(self).wf(),
            old(self).claim_post(final(self), now, r),
    {
        let community_pending = self.community.pending(self.end_time, now);
        let dev_pending = self.dev.pending(self.end_time, now);
        let room = match self.ledger.total_supply.checked_add(community_pending) {
            Some(t) => t,
            None => return Err(ContractError::Overflow),
        };
        if room.checked_add(dev_pending).is_none() {
            return Err(ContractError::Overflow);
        }
        let ghost start = *self;
        if community_pending > 0 {
            let minted = self.ledger.mint(&self.community_fund, community_pending);
            assert(minted is Ok);
            self.community.mark_claimed(now);
        }
        let ghost mid = *self;
        if dev_pending > 0 {
            let minted = self.ledger.mint(&self.dev_fund, dev_pending);
            assert(minted is Ok);
            self.dev.mark_claimed(now);
        }
        assert forall|x: Seq<char>| #[trigger]
            self.ledger.balance(x) == start.ledger.balance(x) + (if x == start.community_fund@ {
                community_pending as nat
            } else {
                0
            }) + (if x == start.dev_fund@ {
                dev_pending as nat
            } else {
                0
            }) by {
            assert(mid.ledger.balance(x) == start.ledger.balance(x) + (if x
                == start.community_fund@ {
                community_pending as nat
            } else {
                0
            }));
        }
        Ok(())
    }

    /// Mints the farming allocation to `recipient`, once in the token's
    /// lifetime and only on the admin's call.
    pub fn distribute_reward(&mut self, caller: &String, recipient: &String) -> (r: Result<
        (),
        ContractError,
    >)
        requires
            old(self).wf(),
        ensures
            final(self).wf(),
            old(self).distribute_post(final(self), caller@, recipient@, r),
    {
        if !self.is_admin(caller) {
            return Err(ContractError::NotOperator);
        }
        if self.reward_pool_distributed {
            return Err(ContractError::DoubleDistribute);
        }
        match self.ledger.mint(recipient, FARMING_POOL_REWARD_ALLOCATION) {
            Ok(()) => {
                self.reward_pool_distributed = true;
                Ok(())
            },
            Err(e) => Err(e),
        }
    }

    /// Decides that `amount` of the foreign token `token` goes to `to`. Like
    /// the rest of the token's open operations it asks nothing of the caller.
    pub fn governance_recover_unsupported(token: String, amount: u128, to: String) -> (r:
        ForeignTransfer)
        ensures
            r == (ForeignTransfer { token, recipient: to, amount }),
    {
        ForeignTransfer { token, recipient: to, amount }
    }

    /// What `execute` leaves behind for each kind of call.
    pub open spec fn execute_post(
        &self,
        new: &Token,
        sender: Seq<char>,
        now: u64,
        msg: ExecuteMsg,
        r: Result<Option<ForeignTransfer>, ContractError>,
    ) -> bool {
        let u = outcome(r);
        &&& match msg {
            ExecuteMsg::GovernanceRecoverUnsupported { token, amount, to } => r == Ok::<
                Option<ForeignTransfer>,
                ContractError,
            >(Some(ForeignTransfer { token, recipient: to, amount })) && *new == *self,
            _ => r is Err || r == Ok::<Option<ForeignTransfer>, ContractError>(None),
        }
        &&& match msg {
            ExecuteMsg::Approve { spender, amount } => {
                &&& u is Ok
                &&& self.ledger.approve_post(&new.ledger, sender, spender@, amount)
                &&& self.same_config(new)
            },
            ExecuteMsg::Transfer { recipient, amount } => {
                &&& self.ledger.transfer_post(&new.ledger, sender, recipient@, amount, u)
                &&& self.same_config(new)
            },
            ExecuteMsg::TransferFrom { owner, recipient, amount } => {
                &&& self.ledger.transfer_from_post(
                    &new.ledger,
                    sender,
                    owner@,
                    recipient@,
                    amount,
                    u,
                )
                &&& self.same_config(new)
            },
            ExecuteMsg::Burn { amount } => {
                &&& self.ledger.burn_post(&new.ledger, sender, amount, u)
                &&& self.same_config(new)
            },
            ExecuteMsg::Mint { recipient, amount } => {
                &&& self.ledger.mint_post(&new.ledger, recipient@, amount, u)
                &&& self.same_config(new)
            },
            ExecuteMsg::SetTreasuryFund { community_fund } => self.set_treasury_fund_post(
                new,
                sender,
                community_fund,
                u,
            ),
            ExecuteMsg::SetDevFund { dev_fund } => self.set_dev_fund_post(new, sender, dev_fund, u),
            ExecuteMsg::ClaimRewards => self.claim_post(new, now, u),
            ExecuteMsg::DistributeReward { farming_incentive_fund } => self.distribute_post(
                new,
                sender,
                farming_incentive_fund@,
                u,
            ),
            ExecuteMsg::GovernanceRecoverUnsupported { .. } => true,
        }
    }

    /// Carries out one mutating call made by `sender` at time `now`. Returns
    /// the foreign-asset transfer for the host to perform, if the call asks
    /// for one.
    pub fn execute(&mut self, sender: &String, now: u64, msg: ExecuteMsg) -> (r: Result<
        Option<ForeignTransfer>,
        ContractError,
    >)
        requires
            old(self).wf(),
        ensures
            final(self).wf(),
            old(self).execute_post(final(self), sender@, now, msg, r),
    {
        match msg {
            ExecuteMsg::Approve { spender, amount } => {
                self.ledger.approve(sender, &spender, amount);
                Ok(None)
            },
            ExecuteMsg::Transfer { recipient, amount } => {
                match self.ledger.transfer(sender, &recipient, amount) {
                    Ok(()) => Ok(None),
                    Err(e) => Err(e),
                }
            },
            ExecuteMsg::TransferFrom { owner, recipient, amount } => {
                match self.ledger.transfer_from(sender, &owner, &recipient, amount) {
                    Ok(()) => Ok(None),
                    Err(e) => Err(e),
                }
            },
            ExecuteMsg::Burn { amount } => {
                match self.ledger.burn(sender, amount) {
                    Ok(()) => Ok(None),
                    Err(e) => Err(e),
                }
            },
            ExecuteMsg::Mint { recipient, amount } => {
                match self.ledger.mint(&recipient, amount) {
                    Ok(()) => Ok(None),
                    Err(e) => Err(e),
                }
            },
            ExecuteMsg::SetTreasuryFund { community_fund } => {
                match self.set_treasury_fund(sender, community_fund) {
                    Ok(()) => Ok(None),
                    Err(e) => Err(e),
                }
            },
            ExecuteMsg::SetDevFund { dev_fund } => {
                match self.set_dev_fund(sender, dev_fund) {
                    Ok(()) => Ok(None),
                    Err(e) => Err(e),
                }
            },
            ExecuteMsg::ClaimRewards => {
                match self.claim_rewards(now) {
                    Ok(()) => Ok(None),
                    Err(e) => Err(e),
                }
            },
            ExecuteMsg::DistributeReward { farming_incentive_fund } => {
                match self.distribute_reward(sender, &farming_incentive_fund) {
                    Ok(()) => Ok(None),
                    Err(e) => Err(e),
                }
            },
            ExecuteMsg::GovernanceRecoverUnsupported { token, amount, to } => {
                Ok(Some(Token::governance_recover_unsupported(token, amount, to)))
            },
        }
    }

    /// What a read-only call answers at time `now`.
    pub open spec fn query_answer(&self, now: u64, msg: QueryMsg) -> nat {
        match msg {
            QueryMsg::Balance { address } => self.ledger.balance(address@),
            QueryMsg::Allowance { owner, spender } => self.ledger.allowance(owner@, spender@),
            QueryMsg::UnclaimedTreasuryFund => self.unclaimed_treasury(now),
            QueryMsg::UnclaimedDevFund => self.unclaimed_dev(now),
        }
    }

    /// Answers one read-only call at time `now`.
    pub fn query(&self, now: u64, msg: QueryMsg) -> (r: u128)
        requires
            self.wf(),
        ensures
            r == self.query_answer(now, msg),
    {
        match msg {
            QueryMsg::Balance { address } => self.ledger.balance_of(&address),
            QueryMsg::Allowance { owner, spender } => self.ledger.allowance_of(&owner, &spender),
            QueryMsg::UnclaimedTreasuryFund => self.unclaimed_treasury_fund(now),
            QueryMsg::UnclaimedDevFund => self.unclaimed_dev_fund(now),
        }
    }
}

/// The dev fund's unclaimed reward never shrinks as time passes up to the
/// end of the vesting period, and stays fixed after it.
pub proof fn lemma_unclaimed_dev_fund_monotone(t: Token, t1: u64, t2: u64)
    requires
        t1 <= t2,
    ensures
        t2 <= t.end_time ==> t.unclaimed_dev(t1) <= t.unclaimed_dev(t2),
        t.end_time <= t1 ==> t.unclaimed_dev(t1) == t.unclaimed_dev(t2),
{
    lemma_accrual_monotone(t.dev, t.end_time, t1, t2);
}

/// A second claim at the same instant as the first mints nothing, and
/// succeeds whenever the first did.
pub proof fn lemma_second_claim_mints_nothing(
    t0: Token,
    t1: Token,
    t2: Token,
    now: u64,
    r1: Result<(), ContractError>,
    r2: Result<(), ContractError>,
)
    requires
        t0.claim_post(&t1, now, r1),
        t1.claim_post(&t2, now, r2),
    ensures
        t1.ledger.same_balances(&t2.ledger),
        r1 is Ok ==> r2 is Ok,
{
    if r1 is Ok {
        assert(t1.unclaimed_treasury(now) == 0);
        assert(t1.unclaimed_dev(now) == 0);
    }
}

/// The incentive distribution succeeds at most once: after a success every
/// further call fails, with `DoubleDistribute` when the admin makes it, and
/// mints nothing.
pub proof fn lemma_distribute_once(
    t0: Token,
    t1: Token,
    t2: Token,
    caller: Seq<char>,
    recipient: Seq<char>,
    caller2: Seq<char>,
    recipient2: Seq<char>,
    r2: Result<(), ContractError>,
)
    requires
        t0.distribute_post(&t1, caller, recipient, Ok(())),
        t1.distribute_post(&t2, caller2, recipient2, r2),
    ensures
        r2 is Err,
        t2 == t1,
        caller2 == t1.admin() ==> r2 == Err::<(), ContractError>(ContractError::DoubleDistribute),
{
}

} // verus!
