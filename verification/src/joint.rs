//! The joint-account extension: a shared value-tracking sub-ledger between
//! the estate owner and an automated trading agent, with a profit
//! high-water mark and a delayed emergency withdrawal for the human side.
use vstd::prelude::*;

use crate::account::AccountId;
use crate::claim::{proportional_amount, proportional_share};
use crate::errors::EstateError;
use crate::estate::Estate;
use crate::MAX_TIMESTAMP;

verus! {

/// Bound on the agent's profit share: the human keeps at least half.
pub const MAX_PROFIT_SHARE: u8 = 50;

/// Smallest emergency-withdrawal delay, in hours.
pub const MIN_EMERGENCY_DELAY: u32 = 24;

/// Largest emergency-withdrawal delay, in hours.
pub const MAX_EMERGENCY_DELAY: u32 = 168;

/// The trading mandate the human gives the agent. The library only stores
/// it; the agent interprets it off-ledger.
#[derive(Clone, Copy, Debug, PartialEq, Eq, Structural)]
pub enum TradingStrategy {
    Conservative,
    Balanced,
    Aggressive,
}

/// The summary of a joint account that its estate carries, enough for the
/// estate's readers to find the account and know the split.
#[derive(Clone, Copy, Debug)]
pub struct JointAccountConfig {
    pub joint_account_id: AccountId,
    pub ai_agent: AccountId,
    pub human_share: u8,
    pub strategy: TradingStrategy,
}

/// The sub-ledger itself: contributions of both holders, the current value
/// as last reported by the agent, the profit high-water mark, and the state
/// of a pending emergency withdrawal.
#[derive(Clone, Debug)]
pub struct JointAccount {
    pub estate: AccountId,
    pub human_owner: AccountId,
    pub ai_owner: AccountId,
    pub human_contribution: u64,
    pub ai_contribution: u64,
    pub total_value: u64,
    pub profit: i64,
    pub high_water_mark: u64,
    pub human_share: u8,
    pub ai_share: u8,
    pub strategy: TradingStrategy,
    pub stop_loss: Option<u8>,
    pub emergency_delay_hours: u32,
    pub emergency_withdrawal_initiated: bool,
    pub emergency_withdrawal_time: i64,
    pub last_update_time: i64,
    pub is_active: bool,
    pub created_at: i64,
}

impl JointAccount {
    /// What every operation preserves: the split covers the whole profit,
    /// the human keeps at least half, the delay is in bounds, and the two
    /// contributions never overflow their sum.
    pub open spec fn wf(self) -> bool {
        &&& MAX_PROFIT_SHARE <= self.human_share <= 100
        &&& self.ai_share == 100 - self.human_share
        &&& MIN_EMERGENCY_DELAY <= self.emergency_delay_hours <= MAX_EMERGENCY_DELAY
        &&& self.human_contribution + self.ai_contribution <= u64::MAX
    }
}

/// Whether attaching a joint account may go through: the estate is mutable
/// by its owner and has none yet, the human keeps 50 to 100 percent of
/// profits, and the emergency delay is between one and seven days.
pub open spec fn create_joint_account_ok(
    e: Estate,
    caller: AccountId,
    human_share: u8,
    emergency_delay_hours: u32,
) -> bool {
    &&& !e.is_locked
    &&& !e.is_claimable
    &&& caller == e.owner
    &&& !e.has_joint_account
    &&& MAX_PROFIT_SHARE <= human_share <= 100
    &&& MIN_EMERGENCY_DELAY <= emergency_delay_hours <= MAX_EMERGENCY_DELAY
}

/// The refusal a failing attachment reports.
pub open spec fn create_joint_account_err(
    e: Estate,
    caller: AccountId,
    human_share: u8,
    emergency_delay_hours: u32,
) -> EstateError {
    if e.is_locked {
        EstateError::EstateLocked
    } else if e.is_claimable {
        EstateError::EstateClaimable
    } else if caller != e.owner {
        EstateError::UnauthorizedAccess
    } else if e.has_joint_account {
        EstateError::JointAccountAlreadyExists
    } else if !(MAX_PROFIT_SHARE <= human_share && human_share <= 100) {
        EstateError::InvalidProfitShare
    } else {
        EstateError::InvalidEmergencyDelay
    }
}

/// The owner attaches a joint account to the estate: an empty sub-ledger
/// shared with the agent, with the agreed profit split and emergency
/// delay, noted on the estate itself through its config summary.
pub fn create_joint_account(
    estate: &mut Estate,
    caller: AccountId,
    joint_account_id: AccountId,
    ai_agent: AccountId,
    human_share: u8,
    strategy: TradingStrategy,
    stop_loss: Option<u8>,
    emergency_delay_hours: u32,
    now: i64,
) -> (r: Result<JointAccount, EstateError>)
    requires
        old(estate).wf(),
        0 <= now <= MAX_TIMESTAMP,
    ensures
        final(estate).wf(),
        r is Ok <==> create_joint_account_ok(*old(estate), caller, human_share, emergency_delay_hours),
        r matches Ok(joint) ==> {
            &&& joint.wf()
            &&& joint.estate == old(estate).estate_id
            &&& joint.human_owner == old(estate).owner
            &&& joint.ai_owner == ai_agent
            &&& joint.human_contribution == 0
            &&& joint.ai_contribution == 0
            &&& joint.total_value == 0
            &&& joint.profit == 0
            &&& joint.high_water_mark == 0
            &&& joint.human_share == human_share
            &&& joint.ai_share == 100 - human_share
            &&& joint.strategy == strategy
            &&& joint.stop_loss == stop_loss
            &&& joint.emergency_delay_hours == emergency_delay_hours
            &&& !joint.emergency_withdrawal_initiated
            &&& joint.emergency_withdrawal_time == 0
            &&& joint.last_update_time == now
            &&& joint.is_active
            &&& joint.created_at == now
            &&& final(estate).has_joint_account
            &&& final(estate).joint_account_config matches Some(config) && config
                == (JointAccountConfig { joint_account_id, ai_agent, human_share, strategy })
            &&& *final(estate) == (Estate {
                has_joint_account: true,
                joint_account_config: final(estate).joint_account_config,
                ..*old(estate)
            })
        },
        !create_joint_account_ok(*old(estate), caller, human_share, emergency_delay_hours)
            ==> r == Err::<JointAccount, EstateError>(
                create_joint_account_err(*old(estate), caller, human_share, emergency_delay_hours),
            ) && *final(estate) == *old(estate),
{
    if estate.is_locked {
        return Err(EstateError::EstateLocked);
    }
    if estate.is_claimable {
        return Err(EstateError::EstateClaimable);
    }
    if caller != estate.owner {
        return Err(EstateError::UnauthorizedAccess);
    }
    if estate.has_joint_account {
        return Err(EstateError::JointAccountAlreadyExists);
    }
    if !(human_share >= MAX_PROFIT_SHARE && human_share <= 100) {
        return Err(EstateError::InvalidProfitShare);
    }
    if !(emergency_delay_hours >= MIN_EMERGENCY_DELAY && emergency_delay_hours
        <= MAX_EMERGENCY_DELAY) {
        return Err(EstateError::InvalidEmergencyDelay);
    }
    let joint = JointAccount {
        estate: estate.estate_id,
        human_owner: estate.owner,
        ai_owner: ai_agent,
        human_contribution: 0,
        ai_contribution: 0,
        total_value: 0,
        profit: 0,
        high_water_mark: 0,
        human_share,
        ai_share: 100 - human_share,
        strategy,
        stop_loss,
        emergency_delay_hours,
        emergency_withdrawal_initiated: false,
        emergency_withdrawal_time: 0,
        last_update_time: now,
        is_active: true,
        created_at: now,
    };
    estate.has_joint_account = true;
    estate.joint_account_config = Some(
        JointAccountConfig { joint_account_id, ai_agent, human_share, strategy },
    );
    Ok(joint)
}

/// Whether a deposit may go through: the account is active, its estate is
/// neither frozen nor claimable, and the depositor is one of the two
/// holders.
pub open spec fn contribute_ok(j: JointAccount, e: Estate, contributor: AccountId) -> bool {
    &&& j.is_active
    &&& !e.is_locked
    &&& !e.is_claimable
    &&& (contributor == j.human_owner || contributor == j.ai_owner)
}

/// The refusal a failing deposit reports.
pub open spec fn contribute_err(j: JointAccount, e: Estate, contributor: AccountId) -> EstateError {
    if !j.is_active {
        EstateError::JointAccountInactive
    } else if e.is_locked {
        EstateError::EstateLocked
    } else if e.is_claimable {
        EstateError::EstateClaimable
    } else {
        EstateError::UnauthorizedContributor
    }
}

/// The sub-ledger after a deposit: the depositor's side and the total both
/// grow by the amount — an owner who is also the agent counts as the human
/// side — and the update time moves to `now`.
pub open spec fn contribute_post(
    j: JointAccount,
    contributor: AccountId,
    amount: u64,
    now: i64,
) -> JointAccount {
    if contributor == j.human_owner {
        JointAccount {
            human_contribution: (j.human_contribution + amount) as u64,
            total_value: (j.total_value + amount) as u64,
            last_update_time: now,
            ..j
        }
    } else {
        JointAccount {
            ai_contribution: (j.ai_contribution + amount) as u64,
            total_value: (j.total_value + amount) as u64,
            last_update_time: now,
            ..j
        }
    }
}

/// One holder deposits into the joint account. The host moves the tokens
/// into the account's vault in the same atomic step; here the depositor's
/// contribution and the total value grow by the amount, and the deposit
/// counts as owner activity on the estate, restarting its inactivity
/// clock.
pub fn contribute_to_joint_account(
    joint: &mut JointAccount,
    estate: &mut Estate,
    contributor: AccountId,
    amount: u64,
    now: i64,
) -> (r: Result<(), EstateError>)
    requires
        old(joint).wf(),
        old(estate).wf(),
        old(joint).estate == old(estate).estate_id,
        0 <= now <= MAX_TIMESTAMP,
        old(joint).human_contribution + old(joint).ai_contribution + amount <= u64::MAX,
        old(joint).total_value + amount <= u64::MAX,
    ensures
        final(joint).wf(),
        final(estate).wf(),
        r is Ok <==> contribute_ok(*old(joint), *old(estate), contributor),
        contribute_ok(*old(joint), *old(estate), contributor) ==> {
            &&& *final(joint) == contribute_post(*old(joint), contributor, amount, now)
            &&& *final(estate) == (Estate {
                last_active: now,
                is_claimable: false,
                ..*old(estate)
            })
        },
        !contribute_ok(*old(joint), *old(estate), contributor)
            ==> r == Err::<(), EstateError>(contribute_err(*old(joint), *old(estate), contributor))
                && *final(joint) == *old(joint) && *final(estate) == *old(estate),
{
    if !joint.is_active {
        return Err(EstateError::JointAccountInactive);
    }
    if estate.is_locked {
        return Err(EstateError::EstateLocked);
    }
    if estate.is_claimable {
        return Err(EstateError::EstateClaimable);
    }
    let is_human = contributor == joint.human_owner;
    let is_ai = contributor == joint.ai_owner;
    if !(is_human || is_ai) {
        return Err(EstateError::UnauthorizedContributor);
    }
    if is_human {
        joint.human_contribution = joint.human_contribution + amount;
    } else {
        joint.ai_contribution = joint.ai_contribution + amount;
    }
    joint.total_value = joint.total_value + amount;
    joint.last_update_time = now;
    estate.check_in(now);
    Ok(())
}

/// Whether the agent's value report may go through: the caller is the
/// agent and the account is active.
pub open spec fn update_value_ok(j: JointAccount, caller: AccountId) -> bool {
    &&& caller == j.ai_owner
    &&& j.is_active
}

/// The refusal a failing value report reports.
pub open spec fn update_value_err(j: JointAccount, caller: AccountId) -> EstateError {
    if caller != j.ai_owner {
        EstateError::UnauthorizedAccess
    } else {
        EstateError::JointAccountInactive
    }
}

/// The agent reports the account's current value: the profit becomes the
/// signed difference between the reported value and the summed
/// contributions, and the high-water mark rises to the reported value if
/// it was exceeded.
pub fn update_joint_account_value(
    joint: &mut JointAccount,
    caller: AccountId,
    new_total_value: u64,
    now: i64,
) -> (r: Result<(), EstateError>)
    requires
        old(joint).wf(),
        0 <= now <= MAX_TIMESTAMP,
        new_total_value - (old(joint).human_contribution + old(joint).ai_contribution)
            <= i64::MAX,
        old(joint).human_contribution + old(joint).ai_contribution - new_total_value
            <= i64::MAX,
    ensures
        final(joint).wf(),
        r is Ok <==> update_value_ok(*old(joint), caller),
        update_value_ok(*old(joint), caller) ==> {
            &&& final(joint).profit == new_total_value - (old(joint).human_contribution + old(
                joint,
            ).ai_contribution)
            &&& *final(joint) == (JointAccount {
                total_value: new_total_value,
                profit: final(joint).profit,
                high_water_mark: if new_total_value > old(joint).high_water_mark {
                    new_total_value
                } else {
                    old(joint).high_water_mark
                },
                last_update_time: now,
                ..*old(joint)
            })
        },
        !update_value_ok(*old(joint), caller)
            ==> r == Err::<(), EstateError>(update_value_err(*old(joint), caller))
                && *final(joint) == *old(joint),
{
    if caller != joint.ai_owner {
        return Err(EstateError::UnauthorizedAccess);
    }
    if !joint.is_active {
        return Err(EstateError::JointAccountInactive);
    }
    let total_contributions = joint.human_contribution + joint.ai_contribution;
    if new_total_value > total_contributions {
        joint.profit = (new_total_value - total_contributions) as i64;
    } else {
        joint.profit = -((total_contributions - new_total_value) as i64);
    }
    joint.total_value = new_total_value;
    if new_total_value > joint.high_water_mark {
        joint.high_water_mark = new_total_value;
    }
    joint.last_update_time = now;
    Ok(())
}

/// Whether a profit distribution may go through: the account is active,
/// in profit, and its value stands above the high-water mark.
pub open spec fn distribute_ok(j: JointAccount) -> bool {
    &&& j.is_active
    &&& j.profit > 0
    &&& j.total_value > j.high_water_mark
}

/// The refusal a failing distribution reports.
pub open spec fn distribute_err(j: JointAccount) -> EstateError {
    if !j.is_active {
        EstateError::JointAccountInactive
    } else {
        EstateError::NoProfitsToDistribute
    }
}

/// Pays out the value above the high-water mark, split by the agreed
/// shares: the human side gets `floor(gain * human_share / 100)`, the
/// agent the rest. The host transfers both amounts from the vault in the
/// same atomic step; the mark rises to the old value and the tracked value
/// falls back to the old mark.
pub fn distribute_joint_account_profits(joint: &mut JointAccount, now: i64) -> (r: Result<
    (u64, u64),
    EstateError,
>)
    requires
        old(joint).wf(),
        0 <= now <= MAX_TIMESTAMP,
    ensures
        final(joint).wf(),
        r is Ok <==> distribute_ok(*old(joint)),
        r matches Ok(amounts) ==> {
            &&& amounts.0 == proportional_share(
                old(joint).total_value - old(joint).high_water_mark,
                old(joint).human_share,
            )
            &&& amounts.1 == old(joint).total_value - old(joint).high_water_mark - amounts.0
            &&& *final(joint) == (JointAccount {
                high_water_mark: old(joint).total_value,
                total_value: old(joint).high_water_mark,
                last_update_time: now,
                ..*old(joint)
            })
        },
        !distribute_ok(*old(joint))
            ==> r == Err::<(u64, u64), EstateError>(distribute_err(*old(joint)))
                && *final(joint) == *old(joint),
{
    if !joint.is_active {
        return Err(EstateError::JointAccountInactive);
    }
    if !(joint.profit > 0) {
        return Err(EstateError::NoProfitsToDistribute);
    }
    let distributable_profit: u64 = if joint.total_value > joint.high_water_mark {
        joint.total_value - joint.high_water_mark
    } else {
        0
    };
    if !(distributable_profit > 0) {
        return Err(EstateError::NoProfitsToDistribute);
    }
    let human_profit_share = proportional_amount(distributable_profit, joint.human_share);
    let ai_profit_share = distributable_profit - human_profit_share;
    joint.high_water_mark = joint.total_value;
    joint.total_value = joint.total_value - distributable_profit;
    joint.last_update_time = now;
    Ok((human_profit_share, ai_profit_share))
}

/// Whether opening an emergency withdrawal may go through: the caller is
/// the human holder, the account is active and none is pending yet.
pub open spec fn initiate_emergency_ok(j: JointAccount, caller: AccountId) -> bool {
    &&& caller == j.human_owner
    &&& j.is_active
    &&& !j.emergency_withdrawal_initiated
}

/// The refusal a failing opening reports.
pub open spec fn initiate_emergency_err(j: JointAccount, caller: AccountId) -> EstateError {
    if caller != j.human_owner {
        EstateError::UnauthorizedAccess
    } else if !j.is_active {
        EstateError::JointAccountInactive
    } else {
        EstateError::EmergencyWithdrawalAlreadyInitiated
    }
}

/// The human holder opens an emergency withdrawal: it may execute once the
/// account's configured delay, counted from `now`, has passed.
pub fn initiate_emergency_withdrawal(joint: &mut JointAccount, caller: AccountId, now: i64) -> (r:
    Result<(), EstateError>)
    requires
        old(joint).wf(),
        0 <= now <= MAX_TIMESTAMP,
    ensures
        final(joint).wf(),
        r is Ok <==> initiate_emergency_ok(*old(joint), caller),
        initiate_emergency_ok(*old(joint), caller)
            ==> *final(joint) == (JointAccount {
                emergency_withdrawal_initiated: true,
                emergency_withdrawal_time: (now + old(joint).emergency_delay_hours * 3600) as i64,
                ..*old(joint)
            }),
        !initiate_emergency_ok(*old(joint), caller)
            ==> r == Err::<(), EstateError>(initiate_emergency_err(*old(joint), caller))
                && *final(joint) == *old(joint),
{
    if caller != joint.human_owner {
        return Err(EstateError::UnauthorizedAccess);
    }
    if !joint.is_active {
        return Err(EstateError::JointAccountInactive);
    }
    if joint.emergency_withdrawal_initiated {
        return Err(EstateError::EmergencyWithdrawalAlreadyInitiated);
    }
    joint.emergency_withdrawal_initiated = true;
    joint.emergency_withdrawal_time = now + (joint.emergency_delay_hours as i64) * 3600;
    Ok(())
}

/// Whether a pending emergency withdrawal may run: the caller is the human
/// holder, one is pending, and its delay has expired.
pub open spec fn execute_emergency_ok(j: JointAccount, caller: AccountId, now: i64) -> bool {
    &&& caller == j.human_owner
    &&& j.emergency_withdrawal_initiated
    &&& now >= j.emergency_withdrawal_time
}

/// The refusal a failing run reports.
pub open spec fn execute_emergency_err(j: JointAccount, caller: AccountId, now: i64) -> EstateError {
    if caller != j.human_owner {
        EstateError::UnauthorizedAccess
    } else if !j.emergency_withdrawal_initiated {
        EstateError::EmergencyWithdrawalNotInitiated
    } else {
        EstateError::EmergencyWithdrawalNotReady
    }
}

/// The human holder's share of the account's value, in proportion to the
/// two contributions: `floor(human * value / (human + agent))`, and zero
/// while nothing was contributed.
pub open spec fn emergency_withdrawal_amount(j: JointAccount) -> int {
    if j.human_contribution + j.ai_contribution > 0 {
        j.human_contribution * j.total_value / (j.human_contribution + j.ai_contribution)
    } else {
        0
    }
}

/// Computes `floor(part * value / whole)` with a wide intermediate.
fn proportional_of_value(part: u64, value: u64, whole: u64) -> (r: u64)
    requires
        part <= whole,
        whole > 0,
    ensures
        r == (part as int) * (value as int) / (whole as int),
        r <= value,
{
    proof {
        assert(0 <= (part as int) * (value as int) && (part as int) * (value as int) <= (
        u64::MAX as int) * (u64::MAX as int) && (part as int) * (value as int) / (whole as int)
            <= value as int) by (nonlinear_arith)
            requires
                0 <= part as int <= whole as int,
                0 < whole as int,
                0 <= value as int <= u64::MAX as int,
                part as int <= u64::MAX as int,
        ;
    }
    let wide: u128 = (part as u128) * (value as u128) / (whole as u128);
    wide as u64
}

/// Runs a pending emergency withdrawal once its delay has expired: the
/// human holder takes their contribution-proportional share of the value,
/// which the host transfers from the vault in the same atomic step, and
/// the account deactivates and detaches from its estate.
pub fn execute_emergency_withdrawal(
    joint: &mut JointAccount,
    estate: &mut Estate,
    caller: AccountId,
    now: i64,
) -> (r: Result<u64, EstateError>)
    requires
        old(joint).wf(),
        old(estate).wf(),
        old(joint).estate == old(estate).estate_id,
    ensures
        final(joint).wf(),
        final(estate).wf(),
        r is Ok <==> execute_emergency_ok(*old(joint), caller, now),
        r matches Ok(amount) ==> {
            &&& amount == emergency_withdrawal_amount(*old(joint))
            &&& *final(joint) == (JointAccount {
                is_active: false,
                total_value: 0,
                ..*old(joint)
            })
            &&& *final(estate) == (Estate {
                has_joint_account: false,
                joint_account_config: None,
                ..*old(estate)
            })
        },
        !execute_emergency_ok(*old(joint), caller, now)
            ==> r == Err::<u64, EstateError>(execute_emergency_err(*old(joint), caller, now))
                && *final(joint) == *old(joint) && *final(estate) == *old(estate),
{
    if caller != joint.human_owner {
        return Err(EstateError::UnauthorizedAccess);
    }
    if !joint.emergency_withdrawal_initiated {
        return Err(EstateError::EmergencyWithdrawalNotInitiated);
    }
    if now < joint.emergency_withdrawal_time {
        return Err(EstateError::EmergencyWithdrawalNotReady);
    }
    let total_contributions = joint.human_contribution + joint.ai_contribution;
    let human_proportion: u64 = if total_contributions > 0 {
        proportional_of_value(joint.human_contribution, joint.total_value, total_contributions)
    } else {
        0
    };
    joint.is_active = false;
    joint.total_value = 0;
    estate.has_joint_account = false;
    estate.joint_account_config = None;
    Ok(human_proportion)
}

} // verus!
