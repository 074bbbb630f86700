use vstd::prelude::*;

use crate::error::ContractError;
use crate::geometry::Coordinates;

verus! {

/// An amount of one denomination.
#[derive(Clone, Debug, PartialEq, Eq)]
pub struct Coin {
    pub denom: String,
    pub amount: u128,
}

#[derive(Clone, Debug, PartialEq, Eq)]
pub struct Config {
    /// If true, anyone can mint; if false, only the contract owner.
    pub public_minting_enabled: bool,
    /// The largest coordinate value on any axis; the smallest is its negation.
    pub max_coordinate_value: i64,
    /// The maximum number of tokens.
    pub token_supply: u64,
    /// The maximum number of tokens one wallet can hold.
    pub wallet_limit: u32,
    /// The price of a mint (not charged to the contract owner).
    pub mint_fee: Coin,
    /// Time to start a move; a move takes
    /// `base_move_nanos + move_nanos_per_step * distance`.
    pub base_move_nanos: u64,
    /// Travel time per unit step along one axis.
    pub move_nanos_per_step: u64,
    /// Fee to start a move; a move costs
    /// `base_move_fee.amount + move_fee_per_step * distance`.
    pub base_move_fee: Coin,
    /// Fee per unit step, in the denomination of `base_move_fee`.
    pub move_fee_per_step: u128,
}

impl Config {
    /// The per-axis range accepted by `check_bounds`.
    pub open spec fn spec_in_bounds(self, c: Coordinates) -> bool {
        let max = self.max_coordinate_value as int;
        -max <= c.x <= max && -max <= c.y <= max && -max <= c.z <= max
    }

    /// The fee amount for a move over `distance` steps.
    pub open spec fn spec_fee_for(self, distance: int) -> int {
        self.base_move_fee.amount + self.move_fee_per_step * distance
    }

    /// The duration in nanoseconds of a move over `distance` steps.
    pub open spec fn spec_nanos_for(self, distance: int) -> int {
        self.base_move_nanos + self.move_nanos_per_step * distance
    }

    /// Whether a move from `start` to `end` has a distance, fee and duration
    /// that fit their integer types.
    pub open spec fn spec_move_fits(self, start: Coordinates, end: Coordinates) -> bool {
        &&& start.spec_distance(end) <= u16::MAX
        &&& self.spec_fee_for(start.spec_distance(end)) <= u128::MAX
        &&& self.spec_nanos_for(start.spec_distance(end)) <= u64::MAX
    }

    pub fn get_move_fee(&self, start: Coordinates, end: Coordinates) -> (r: Coin)
        requires
            start.spec_distance(end) <= u16::MAX,
            self.spec_fee_for(start.spec_distance(end)) <= u128::MAX,
        ensures
            r.amount == self.spec_fee_for(start.spec_distance(end)),
            r.denom == self.base_move_fee.denom,
    {
        let distance = start.distance(end) as u128;
        proof {
            assert(self.move_fee_per_step * distance <= u128::MAX) by (nonlinear_arith)
                requires
                    self.base_move_fee.amount + self.move_fee_per_step * distance <= u128::MAX,
                    self.base_move_fee.amount >= 0,
            ;
        }
        let amount = self.base_move_fee.amount + self.move_fee_per_step * distance;
        Coin { denom: self.base_move_fee.denom.clone(), amount }
    }

    pub fn get_move_nanos(&self, start: Coordinates, end: Coordinates) -> (r: u64)
        requires
            start.spec_distance(end) <= u16::MAX,
            self.spec_nanos_for(start.spec_distance(end)) <= u64::MAX,
        ensures
            r == self.spec_nanos_for(start.spec_distance(end)),
    {
        let distance = start.distance(end) as u64;
        proof {
            assert(self.move_nanos_per_step * distance <= u64::MAX) by (nonlinear_arith)
                requires
                    self.base_move_nanos + self.move_nanos_per_step * distance <= u64::MAX,
                    self.base_move_nanos >= 0,
            ;
        }
        self.base_move_nanos + self.move_nanos_per_step * distance
    }

    /// Whether a move from `start` to `end` fits, decided without overflow.
    pub fn move_fits(&self, start: Coordinates, end: Coordinates) -> (r: bool)
        ensures
            r == self.spec_move_fits(start, end),
    {
        let d = checked_distance(start, end);
        match d {
            None => false,
            Some(d) => {
                let d = d as u128;
                let fee = match self.move_fee_per_step.checked_mul(d) {
                    Some(p) => self.base_move_fee.amount.checked_add(p),
                    None => None,
                };
                let nanos = match (self.move_nanos_per_step as u128).checked_mul(d) {
                    Some(p) => (self.base_move_nanos as u128).checked_add(p),
                    None => None,
                };
                proof {
                    assert(self.move_fee_per_step * d >= 0) by (nonlinear_arith)
                        requires d >= 0;
                    assert(self.move_nanos_per_step * d >= 0) by (nonlinear_arith)
                        requires d >= 0;
                }
                match (fee, nanos) {
                    (Some(_), Some(n)) => n <= u64::MAX as u128,
                    _ => false,
                }
            },
        }
    }

    /// Accepts exactly the coordinates whose every axis lies in
    /// `[-max_coordinate_value, max_coordinate_value]`.
    pub fn check_bounds(&self, coords: Coordinates) -> (r: Result<(), ContractError>)
        ensures
            r == (if self.spec_in_bounds(coords) {
                Ok(())
            } else {
                Err(ContractError::OutOfBounds { max_coordinate_value: self.max_coordinate_value })
            }),
    {
        let max = self.max_coordinate_value as i128;
        let min = -max;
        let xs = coords.x as i128;
        let ys = coords.y as i128;
        let zs = coords.z as i128;
        if xs < min || xs > max || ys < min || ys > max || zs < min || zs > max {
            return Err(ContractError::OutOfBounds { max_coordinate_value: self.max_coordinate_value });
        }
        Ok(())
    }
}

/// The distance from `start` to `end` if it fits in a `u16`.
pub fn checked_distance(start: Coordinates, end: Coordinates) -> (r: Option<u16>)
    ensures
        r == (if start.spec_distance(end) <= u16::MAX {
            Some(start.spec_distance(end) as u16)
        } else {
            None
        }),
{
    let dx = (start.x as i128 - end.x as i128);
    let dy = (start.y as i128 - end.y as i128);
    let dz = (start.z as i128 - end.z as i128);
    let ax = if dx < 0 { -dx } else { dx };
    let ay = if dy < 0 { -dy } else { dy };
    let az = if dz < 0 { -dz } else { dz };
    let total = ax + ay + az;
    if total <= u16::MAX as i128 {
        Some(total as u16)
    } else {
        None
    }
}

/// A longer move never costs less, nor takes less time, than a shorter one
/// under the same configuration.
pub proof fn lemma_move_cost_monotonic(
    config: Config,
    a: Coordinates,
    b: Coordinates,
    c: Coordinates,
    d: Coordinates,
)
    requires
        a.spec_distance(b) <= c.spec_distance(d),
    ensures
        config.spec_fee_for(a.spec_distance(b)) <= config.spec_fee_for(c.spec_distance(d)),
        config.spec_nanos_for(a.spec_distance(b)) <= config.spec_nanos_for(c.spec_distance(d)),
{
    let s = a.spec_distance(b);
    let t = c.spec_distance(d);
    let f = config.move_fee_per_step as int;
    let n = config.move_nanos_per_step as int;
    assert(f * s <= f * t) by (nonlinear_arith)
        requires f >= 0, s <= t;
    assert(n * s <= n * t) by (nonlinear_arith)
        requires n >= 0, s <= t;
}

} // verus!
