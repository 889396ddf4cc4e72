//! The presale engine: a ledger of projects, each selling a freshly issued
//! token on the bonding curve within a window of the logical clock.
use vstd::prelude::*;

use crate::pricing::{presale_cost, presale_cost_fits, presale_price};
use crate::token_factory::TokenFactory;
use crate::token_lock::{TimeLockDetails, TokenLock};
use crate::types::{AccountId, Balance, CallContext, Error, Timestamp, TokenTransfer};

verus! {

/// One presale campaign.
pub struct Project {
    /// The token on sale.
    pub token: AccountId,
    /// How many units can be sold at most.
    pub total_presale_token_amount: Balance,
    /// How many units were sold so far.
    pub presaled_amount: Balance,
    /// The funds the creator hopes to raise.
    pub intended_raise_amount: Balance,
    /// The funds raised so far.
    pub raised_amount: Balance,
    /// The first instant of the window.
    pub start_time: Timestamp,
    /// The first instant after the window.
    pub end_time: Timestamp,
    pub creator: AccountId,
    /// One entry per purchase, in order, repeats included.
    pub contributors: Vec<AccountId>,
    pub is_finished: bool,
    pub is_successful: bool,
}

impl Project {
    /// No more was sold than the allocation.
    pub open spec fn wf(&self) -> bool {
        self.presaled_amount <= self.total_presale_token_amount
    }
}

/// Why a purchase of `buy` units from `p` is refused, if it is; `None` when
/// it goes through. The checks come in this order.
pub open spec fn join_error(p: Project, ctx: CallContext, buy: Balance) -> Option<Error> {
    if p.is_finished {
        Some(Error::AlreadyFinished)
    } else if ctx.now < p.start_time {
        Some(Error::NotStarted)
    } else if ctx.now >= p.end_time {
        Some(Error::Ended)
    } else if !presale_cost_fits(p.presaled_amount as int, buy as int) {
        Some(Error::Overflow)
    } else if ctx.transferred_value <= presale_cost(p.presaled_amount as int, buy as int) {
        Some(Error::InsufficientPayment)
    } else if p.presaled_amount + buy >= p.total_presale_token_amount {
        Some(Error::InsufficientAmount)
    } else if p.raised_amount + presale_cost(p.presaled_amount as int, buy as int) > u128::MAX {
        Some(Error::Overflow)
    } else {
        None
    }
}

/// `q` is `p` after `caller` bought `buy` units for `cost`.
pub open spec fn joined(p: Project, q: Project, caller: AccountId, buy: int, cost: int) -> bool {
    &&& q.presaled_amount == p.presaled_amount + buy
    &&& q.raised_amount == p.raised_amount + cost
    &&& q.contributors@ == p.contributors@.push(caller)
    &&& q.token == p.token
    &&& q.total_presale_token_amount == p.total_presale_token_amount
    &&& q.intended_raise_amount == p.intended_raise_amount
    &&& q.start_time == p.start_time
    &&& q.end_time == p.end_time
    &&& q.creator == p.creator
    &&& q.is_finished == p.is_finished
    &&& q.is_successful == p.is_successful
}

/// `q` is `p` once finished: successful when a third of the intended raise
/// (rounded down) was raised.
pub open spec fn finished(p: Project, q: Project) -> bool {
    &&& q.is_finished
    &&& q.is_successful == (p.raised_amount >= p.intended_raise_amount / 3)
    &&& q.presaled_amount == p.presaled_amount
    &&& q.raised_amount == p.raised_amount
    &&& q.contributors@ == p.contributors@
    &&& q.token == p.token
    &&& q.total_presale_token_amount == p.total_presale_token_amount
    &&& q.intended_raise_amount == p.intended_raise_amount
    &&& q.start_time == p.start_time
    &&& q.end_time == p.end_time
    &&& q.creator == p.creator
}

/// Why `create_presale` is refused, if it is, given the id counter and the
/// issuer's fee. The checks come in this order.
pub open spec fn create_error(
    last_project_id: u32,
    fee: Balance,
    ctx: CallContext,
    max_supply: Balance,
    lock_amount: Balance,
    start_time: Timestamp,
    end_time: Timestamp,
) -> Option<Error> {
    if last_project_id == u32::MAX {
        Some(Error::Overflow)
    } else if lock_amount > max_supply {
        Some(Error::LockExceedsSupply)
    } else if start_time >= end_time {
        Some(Error::InvalidWindow)
    } else if ctx.transferred_value < fee {
        Some(Error::FeeTooLow)
    } else {
        None
    }
}

/// The id that follows `last_project_id`; `Overflow` rather than wrapping
/// past the largest id.
pub fn next_project_id(last_project_id: u32) -> (r: Result<u32, Error>)
    ensures
        last_project_id < u32::MAX ==> r == Ok::<u32, Error>((last_project_id + 1) as u32),
        last_project_id == u32::MAX ==> r == Err::<u32, Error>(Error::Overflow),
{
    match last_project_id.checked_add(1) {
        Some(id) => Ok(id),
        None => Err(Error::Overflow),
    }
}

/// What a successful `create_presale` hands back.
#[derive(Clone, Copy, Debug, PartialEq, Eq, Structural)]
pub struct PresaleCreated {
    pub project_id: u32,
    /// The token issued for the project.
    pub token: AccountId,
    /// The transfer that moves the locked amount into escrow.
    pub lock_transfer: TokenTransfer,
}

/// The engine: projects with ids `1..=last_project_id`, held in order.
pub struct PolkadotPresaleContract {
    account: AccountId,
    projects: Vec<Project>,
    last_project_id: u32,
}

impl PolkadotPresaleContract {
    /// Ids are dense from one, and every project keeps its sales within its
    /// allocation.
    pub closed spec fn wf(&self) -> bool {
        &&& self.projects@.len() == self.last_project_id as int
        &&& forall|i: int| 0 <= i < self.projects@.len() ==> (#[trigger] self.projects@[i]).wf()
    }

    /// The account of the engine, as the issuer and the escrow see it.
    pub closed spec fn account_spec(&self) -> AccountId {
        self.account
    }

    /// The id of the last project created, zero before the first.
    pub closed spec fn last_project_id_spec(&self) -> u32 {
        self.last_project_id
    }

    /// The project with id `id`, if any.
    pub closed spec fn project_of(&self, id: u32) -> Option<Project> {
        if 1 <= id <= self.projects@.len() {
            Some(self.projects@[id - 1])
        } else {
            None
        }
    }

    /// An engine with no projects, at the given account.
    pub fn new(account: AccountId) -> (r: PolkadotPresaleContract)
        ensures
            r.wf(),
            r.account_spec() == account,
            r.last_project_id_spec() == 0,
            forall|id: u32| r.project_of(id).is_none(),
    {
        PolkadotPresaleContract { account, projects: Vec::new(), last_project_id: 0 }
    }

    /// The id of the last project created, zero before the first.
    pub fn last_project_id(&self) -> (r: u32)
        ensures
            r == self.last_project_id_spec(),
    {
        self.last_project_id
    }

    /// The project with id `project_id`, if any.
    pub fn get_project(&self, project_id: u32) -> (r: Option<&Project>)
        ensures
            r.is_some() == self.project_of(project_id).is_some(),
            r.is_some() ==> *r.unwrap() == self.project_of(project_id).unwrap(),
    {
        if project_id >= 1 && (project_id as usize) <= self.projects.len() {
            Some(&self.projects[(project_id - 1) as usize])
        } else {
            None
        }
    }

    /// The cost of buying `buy_token_amount` once `presaled_amount` are sold:
    /// `(2 * presaled_amount + buy_token_amount) * buy_token_amount / 2`,
    /// zero when nothing is bought, and `Overflow` when the product does not
    /// fit in a `u128`.
    pub fn calculate_price(&self, presaled_amount: Balance, buy_token_amount: Balance) -> (r:
        Result<Balance, Error>)
        ensures
            buy_token_amount == 0 ==> r == Ok::<Balance, Error>(0),
            presale_cost_fits(presaled_amount as int, buy_token_amount as int) ==> r == Ok::<
                Balance,
                Error,
            >(presale_cost(presaled_amount as int, buy_token_amount as int) as Balance),
            !presale_cost_fits(presaled_amount as int, buy_token_amount as int) ==> r == Err::<
                Balance,
                Error,
            >(Error::Overflow),
    {
        presale_price(presaled_amount, buy_token_amount)
    }
    /// Creates a project: issues its token through `token_factory` with the
    /// fee attached to the call, locks `lock_amount` of it in `token_lock`
    /// for the caller for `lock_duration`, and records a project that sells
    /// the rest of `max_supply` between `start_time` and `end_time`. The
    /// project gets the next id. A refused call changes neither the engine,
    /// the issuer nor the escrow.
    #[allow(clippy::too_many_arguments)]
    pub fn create_presale(
        &mut self,
        ctx: &CallContext,
        token_factory: &mut TokenFactory,
        token_lock: &mut TokenLock,
        max_supply: Balance,
        name: String,
        symbol: String,
        decimals: u8,
        logo_uri: String,
        lock_amount: Balance,
        lock_duration: Timestamp,
        intended_raise_amount: Balance,
        start_time: Timestamp,
        end_time: Timestamp,
    ) -> (r: Result<PresaleCreated, Error>)
        requires
            old(self).wf(),
            old(token_lock).wf(),
        ensures
            final(self).wf(),
            final(token_lock).wf(),
            final(self).account_spec() == old(self).account_spec(),
            create_error(
                old(self).last_project_id_spec(),
                old(token_factory).fee_spec(),
                *ctx,
                max_supply,
                lock_amount,
                start_time,
                end_time,
            ) matches Some(e) ==> {
                &&& r == Err::<PresaleCreated, Error>(e)
                &&& *final(self) == *old(self)
                &&& *final(token_factory) == *old(token_factory)
                &&& *final(token_lock) == *old(token_lock)
            },
            create_error(
                old(self).last_project_id_spec(),
                old(token_factory).fee_spec(),
                *ctx,
                max_supply,
                lock_amount,
                start_time,
                end_time,
            ) is None ==> {
                let id = (old(self).last_project_id_spec() + 1) as u32;
                let token = r->Ok_0.token;
                let p = final(self).project_of(id).unwrap();
                &&& r is Ok
                &&& r->Ok_0.project_id == id
                &&& final(self).last_project_id_spec() == id
                &&& old(self).project_of(id).is_none()
                &&& final(self).project_of(id).is_some()
                &&& forall|other: u32|
                    other != id ==> final(self).project_of(other) == old(self).project_of(other)
                &&& p.token == token
                &&& p.total_presale_token_amount == max_supply - lock_amount
                &&& p.presaled_amount == 0
                &&& p.intended_raise_amount == intended_raise_amount
                &&& p.raised_amount == 0
                &&& p.start_time == start_time
                &&& p.end_time == end_time
                &&& p.creator == ctx.caller
                &&& p.contributors@.len() == 0
                &&& !p.is_finished
                &&& !p.is_successful
                &&& !old(token_factory).has_token(token)
                &&& final(token_factory).has_token(token)
                &&& final(token_factory).tokens().len() == old(token_factory).tokens().len() + 1
                &&& final(token_factory).tokens().last().owner == old(self).account_spec()
                &&& final(token_factory).tokens().last().initial_supply == max_supply
                &&& final(token_lock).lock_of(token) == Some(
                    TimeLockDetails {
                        token_address: token,
                        token_owner: ctx.caller,
                        locked_amount: lock_amount,
                        start_time: ctx.now,
                        duration_time: lock_duration,
                    },
                )
                &&& forall|t: AccountId|
                    t != token ==> final(token_lock).lock_of(t) == old(token_lock).lock_of(t)
                &&& r->Ok_0.lock_transfer == (TokenTransfer {
                    token,
                    from: old(self).account_spec(),
                    to: old(token_lock).account_spec(),
                    amount: lock_amount,
                })
            },
    {
        let project_id = match next_project_id(self.last_project_id) {
            Ok(id) => id,
            Err(e) => return Err(e),
        };
        let total_presale_token_amount = match max_supply.checked_sub(lock_amount) {
            Some(rest) => rest,
            None => return Err(Error::LockExceedsSupply),
        };
        if start_time >= end_time {
            return Err(Error::InvalidWindow);
        }
        let inner = CallContext {
            caller: self.account,
            now: ctx.now,
            transferred_value: ctx.transferred_value,
        };
        let token = match token_factory.create_token(
            &inner,
            max_supply,
            name,
            symbol,
            decimals,
            logo_uri,
        ) {
            Ok(token) => token,
            Err(e) => return Err(e),
        };
        let lock_ctx = CallContext { caller: self.account, now: ctx.now, transferred_value: 0 };
        let lock_transfer = token_lock.create_lock(
            &lock_ctx,
            token,
            ctx.caller,
            lock_amount,
            lock_duration,
        );
        let project = Project {
            token,
            total_presale_token_amount,
            presaled_amount: 0,
            intended_raise_amount,
            raised_amount: 0,
            start_time,
            end_time,
            creator: ctx.caller,
            contributors: Vec::new(),
            is_finished: false,
            is_successful: false,
        };
        self.projects.push(project);
        self.last_project_id = project_id;
        Ok(PresaleCreated { project_id, token, lock_transfer })
    }
    /// Buys `buy_token_amount` units of project `project_id` for the caller
    /// and returns their cost. The window must be open (`start_time <= now <
    /// end_time`), the attached value must exceed the cost, and the sold
    /// amount must stay strictly below the allocation; `join_error` gives the
    /// refusal otherwise. A refused call changes nothing.
    pub fn join_project_presale(
        &mut self,
        ctx: &CallContext,
        project_id: u32,
        buy_token_amount: Balance,
    ) -> (r: Result<Balance, Error>)
        requires
            old(self).wf(),
        ensures
            final(self).wf(),
            final(self).account_spec() == old(self).account_spec(),
            final(self).last_project_id_spec() == old(self).last_project_id_spec(),
            old(self).project_of(project_id).is_none() ==> r == Err::<Balance, Error>(
                Error::ProjectNotFound,
            ),
            old(self).project_of(project_id) matches Some(p) ==> match join_error(
                p,
                *ctx,
                buy_token_amount,
            ) {
                Some(e) => r == Err::<Balance, Error>(e),
                None => {
                    let cost = presale_cost(p.presaled_amount as int, buy_token_amount as int);
                    &&& r == Ok::<Balance, Error>(cost as Balance)
                    &&& joined(
                        p,
                        final(self).project_of(project_id).unwrap(),
                        ctx.caller,
                        buy_token_amount as int,
                        cost,
                    )
                },
            },
            r.is_err() ==> *final(self) == *old(self),
            forall|other: u32|
                other != project_id ==> final(self).project_of(other) == old(self).project_of(
                    other,
                ),
            final(self).project_of(project_id).is_some() == old(self).project_of(
                project_id,
            ).is_some(),
    {
        if project_id == 0 || project_id as usize > self.projects.len() {
            return Err(Error::ProjectNotFound);
        }
        let i = (project_id - 1) as usize;
        let project = &self.projects[i];
        if project.is_finished {
            return Err(Error::AlreadyFinished);
        }
        if ctx.now < project.start_time {
            return Err(Error::NotStarted);
        }
        if ctx.now >= project.end_time {
            return Err(Error::Ended);
        }
        let cost = match presale_price(project.presaled_amount, buy_token_amount) {
            Ok(cost) => cost,
            Err(e) => return Err(e),
        };
        if ctx.transferred_value <= cost {
            return Err(Error::InsufficientPayment);
        }
        let presaled_amount = match project.presaled_amount.checked_add(buy_token_amount) {
            Some(sum) => sum,
            None => return Err(Error::InsufficientAmount),
        };
        if presaled_amount >= project.total_presale_token_amount {
            return Err(Error::InsufficientAmount);
        }
        let raised_amount = match project.raised_amount.checked_add(cost) {
            Some(sum) => sum,
            None => return Err(Error::Overflow),
        };
        let ghost before = self.projects@;
        self.projects[i].presaled_amount = presaled_amount;
        self.projects[i].raised_amount = raised_amount;
        self.projects[i].contributors.push(ctx.caller);
        proof {
            assert forall|k: int| 0 <= k < self.projects@.len() implies (
            #[trigger] self.projects@[k]).wf() by {
                if k != i {
                    assert(self.projects@[k] == before[k]);
                }
            }
        }
        Ok(cost)
    }

    /// Finishes project `project_id` once its window has closed (`now >=
    /// end_time`): it is then successful when at least a third of the
    /// intended raise, rounded down, was raised. Returns whether it was.
    /// Fails with `ProjectNotFound`, `AlreadyFinished`, or `NotEnded` while
    /// the window is open; a refused call changes nothing.
    pub fn finish_presale(&mut self, ctx: &CallContext, project_id: u32) -> (r: Result<
        bool,
        Error,
    >)
        requires
            old(self).wf(),
        ensures
            final(self).wf(),
            final(self).account_spec() == old(self).account_spec(),
            final(self).last_project_id_spec() == old(self).last_project_id_spec(),
            old(self).project_of(project_id).is_none() ==> r == Err::<bool, Error>(
                Error::ProjectNotFound,
            ),
            old(self).project_of(project_id) matches Some(p) ==> {
                &&& p.is_finished ==> r == Err::<bool, Error>(Error::AlreadyFinished)
                &&& !p.is_finished && ctx.now < p.end_time ==> r == Err::<bool, Error>(
                    Error::NotEnded,
                )
                &&& !p.is_finished && ctx.now >= p.end_time ==> {
                    &&& r == Ok::<bool, Error>(p.raised_amount >= p.intended_raise_amount / 3)
                    &&& finished(p, final(self).project_of(project_id).unwrap())
                }
            },
            r.is_err() ==> *final(self) == *old(self),
            forall|other: u32|
                other != project_id ==> final(self).project_of(other) == old(self).project_of(
                    other,
                ),
            final(self).project_of(project_id).is_some() == old(self).project_of(
                project_id,
            ).is_some(),
    {
        if project_id == 0 || project_id as usize > self.projects.len() {
            return Err(Error::ProjectNotFound);
        }
        let i = (project_id - 1) as usize;
        let project = &self.projects[i];
        if project.is_finished {
            return Err(Error::AlreadyFinished);
        }
        if ctx.now < project.end_time {
            return Err(Error::NotEnded);
        }
        let successful = project.raised_amount >= project.intended_raise_amount / 3;
        let ghost before = self.projects@;
        self.projects[i].is_finished = true;
        self.projects[i].is_successful = successful;
        proof {
            assert forall|k: int| 0 <= k < self.projects@.len() implies (
            #[trigger] self.projects@[k]).wf() by {
                if k != i {
                    assert(self.projects@[k] == before[k]);
                }
            }
        }
        Ok(successful)
    }
}

} // verus!
