use vstd::prelude::*;

use crate::errors::ContractError;

verus! {

/// The pool configuration: the bounds of the distribution multiplier, its
/// current value, and the initial and remaining pool balances.
#[derive(Clone, Copy, Debug, PartialEq, Eq, Structural)]
pub struct Config {
    pub coefficient_up: u128,
    pub coefficient_down: u128,
    pub coefficient: u128,
    pub initial_balance: u128,
    pub current_balance: u128,
}

impl Config {
    /// The invariant a configuration is set up with: the pool never holds
    /// more than it started with.
    pub open spec fn well_formed(self) -> bool {
        self.current_balance <= self.initial_balance
    }
}

/// The multiplier the depletion formula assigns: the lower bound plus the
/// spread scaled by the ratio of the initial to the current balance, under
/// truncating integer division.
pub open spec fn coefficient_formula(c: Config) -> int {
    c.coefficient_up + (c.coefficient_down - c.coefficient_up) * c.initial_balance
        / (c.current_balance as int)
}

/// True when the update goes through: the pool still holds something, the
/// spread and the formula stay within machine bounds, and the claimed
/// amount does not exceed what is left.
pub open spec fn update_allowed(c: Config, amount: u128) -> bool {
    &&& c.current_balance > 0
    &&& c.coefficient_up <= c.coefficient_down
    &&& (c.coefficient_down - c.coefficient_up) * c.initial_balance <= u128::MAX
    &&& coefficient_formula(c) <= u128::MAX
    &&& amount <= c.current_balance
}

/// The configuration after a successful claim of `amount`: the multiplier
/// is recomputed and the claimed amount leaves the pool; the bounds and the
/// initial balance stay as they were.
pub open spec fn updated_config(c: Config, amount: u128) -> Config {
    Config {
        coefficient: coefficient_formula(c) as u128,
        current_balance: (c.current_balance - amount) as u128,
        ..c
    }
}

/// Recomputes the distribution multiplier after a claim of `amount` and
/// takes the amount out of the pool. Fails with an arithmetic error, and
/// leaves the configuration untouched, whenever the pool is empty (the
/// formula would divide by zero), the spread or the formula overflows, or
/// the amount exceeds the remaining balance.
pub fn update_coefficient(amount: u128, config: &mut Config) -> (r: Result<(), ContractError>)
    ensures
        r is Ok <==> update_allowed(*old(config), amount),
        r is Ok ==> *final(config) == updated_config(*old(config), amount),
        r is Err ==> *final(config) == *old(config) && r matches Err(
            ContractError::ArithmeticError,
        ),
{
    if config.current_balance == 0 {
        return Err(ContractError::ArithmeticError);
    }
    let diff = match config.coefficient_down.checked_sub(config.coefficient_up) {
        Some(d) => d,
        None => {
            return Err(ContractError::ArithmeticError);
        },
    };
    let prod = match diff.checked_mul(config.initial_balance) {
        Some(p) => p,
        None => {
            return Err(ContractError::ArithmeticError);
        },
    };
    let quot = prod / config.current_balance;
    let new_coefficient = match config.coefficient_up.checked_add(quot) {
        Some(v) => v,
        None => {
            return Err(ContractError::ArithmeticError);
        },
    };
    let new_balance = match config.current_balance.checked_sub(amount) {
        Some(v) => v,
        None => {
            return Err(ContractError::ArithmeticError);
        },
    };
    config.coefficient = new_coefficient;
    config.current_balance = new_balance;
    Ok(())
}

/// A claim never grows the pool: a successful update keeps the
/// configuration well formed.
pub proof fn lemma_update_keeps_well_formed(c: Config, amount: u128)
    requires
        c.well_formed(),
        update_allowed(c, amount),
    ensures
        updated_config(c, amount).well_formed(),
{
}

} // verus!
