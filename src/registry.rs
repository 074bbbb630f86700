use vstd::prelude::*;

use crate::config::{Coin, Config};
use crate::error::ContractError;
use crate::geometry::Coordinates;

verus! {

/// The spatial data attached to a token.
#[derive(Clone, Copy, Debug, PartialEq, Eq, Structural)]
pub struct XyzExtension {
    /// Where the token is, or is travelling to.
    pub coordinates: Coordinates,
    /// Where the last move started; `None` for a token that never moved.
    pub prev_coordinates: Option<Coordinates>,
    /// The time in nanoseconds at which the last move completes (the mint
    /// time for a token that never moved).
    pub arrival: u64,
}

impl XyzExtension {
    /// Whether the token's last move has completed at time `now`.
    pub fn has_arrived(&self, now: u64) -> (r: bool)
        ensures
            r == (now >= self.arrival),
    {
        now >= self.arrival
    }
}

/// The fee and duration of a prospective move.
#[derive(Clone, Debug, PartialEq, Eq)]
pub struct MoveParamsResponse {
    pub fee: Coin,
    pub duration_nanos: u64,
}

/// What a payment of `paid` against `fee` gives: the refund of the excess,
/// or why it is refused.
pub open spec fn spec_payment(fee: Coin, paid: Coin) -> Result<u128, ContractError> {
    if paid.denom@ != fee.denom@ {
        Err(ContractError::WrongDenomination)
    } else if paid.amount < fee.amount {
        Err(ContractError::InsufficientPayment { required: fee.amount, paid: paid.amount })
    } else {
        Ok((paid.amount - fee.amount) as u128)
    }
}

/// Checks a payment against a fee; on success returns the excess to refund.
pub fn check_payment(fee: &Coin, paid: &Coin) -> (r: Result<u128, ContractError>)
    ensures
        r == spec_payment(*fee, *paid),
{
    if paid.denom != fee.denom {
        Err(ContractError::WrongDenomination)
    } else if paid.amount < fee.amount {
        Err(ContractError::InsufficientPayment { required: fee.amount, paid: paid.amount })
    } else {
        Ok(paid.amount - fee.amount)
    }
}

/// The tokens on the grid, each known by its index, with at most one token
/// at any position.
pub struct Registry {
    pub tokens: Vec<XyzExtension>,
}

impl Registry {
    /// No two tokens share a position.
    pub open spec fn wf(self) -> bool {
        forall|i: int, j: int|
            0 <= i < self.tokens@.len() && 0 <= j < self.tokens@.len() && i != j
                ==> self.tokens@[i].coordinates != self.tokens@[j].coordinates
    }

    /// Whether a token other than `except` stands at `c`.
    pub open spec fn spec_occupied_by_other(self, c: Coordinates, except: int) -> bool {
        exists|j: int|
            0 <= j < self.tokens@.len() && j != except && self.tokens@[j].coordinates == c
    }

    /// Whether any token stands at `c`.
    pub open spec fn spec_occupied(self, c: Coordinates) -> bool {
        self.spec_occupied_by_other(c, -1)
    }

    /// Why a mint at `c` is refused, if it is.
    pub open spec fn spec_mint_error(
        self,
        config: Config,
        privileged: bool,
        paid: Coin,
        c: Coordinates,
    ) -> Option<ContractError> {
        if !config.public_minting_enabled && !privileged {
            Some(ContractError::Unauthorized)
        } else if !config.spec_in_bounds(c) {
            Some(ContractError::OutOfBounds { max_coordinate_value: config.max_coordinate_value })
        } else if self.spec_occupied(c) {
            Some(ContractError::PositionOccupied)
        } else if !privileged && spec_payment(config.mint_fee, paid).is_err() {
            Some(spec_payment(config.mint_fee, paid)->Err_0)
        } else {
            None
        }
    }

    /// The refund of a successful mint: the contract owner pays nothing.
    pub open spec fn spec_mint_refund(config: Config, privileged: bool, paid: Coin) -> u128 {
        if privileged {
            paid.amount
        } else {
            spec_payment(config.mint_fee, paid)->Ok_0
        }
    }

    /// Why moving token `token` to `c` at time `now` is refused, if it is.
    pub open spec fn spec_move_error(
        self,
        config: Config,
        token: int,
        authorized: bool,
        c: Coordinates,
        paid: Coin,
        now: u64,
    ) -> Option<ContractError> {
        if !(0 <= token < self.tokens@.len()) {
            Some(ContractError::NotFound)
        } else if !authorized {
            Some(ContractError::Unauthorized)
        } else if !config.spec_in_bounds(c) {
            Some(ContractError::OutOfBounds { max_coordinate_value: config.max_coordinate_value })
        } else if self.spec_occupied_by_other(c, token) {
            Some(ContractError::PositionOccupied)
        } else if !config.spec_move_fits(self.tokens@[token].coordinates, c) || now
            + config.spec_nanos_for(self.tokens@[token].coordinates.spec_distance(c))
            > u64::MAX {
            Some(ContractError::Overflow)
        } else if spec_payment(self.spec_move_fee(config, token, c), paid).is_err() {
            Some(spec_payment(self.spec_move_fee(config, token, c), paid)->Err_0)
        } else {
            None
        }
    }

    /// The fee for moving token `token` to `c`.
    pub open spec fn spec_move_fee(self, config: Config, token: int, c: Coordinates) -> Coin {
        Coin {
            denom: config.base_move_fee.denom,
            amount: config.spec_fee_for(self.tokens@[token].coordinates.spec_distance(c)) as u128,
        }
    }

    /// The state of token `token` after a move to `c` committed at `now`.
    pub open spec fn spec_moved(self, config: Config, token: int, c: Coordinates, now: u64) -> XyzExtension {
        let start = self.tokens@[token].coordinates;
        XyzExtension {
            coordinates: c,
            prev_coordinates: Some(start),
            arrival: (now + config.spec_nanos_for(start.spec_distance(c))) as u64,
        }
    }

    pub fn new() -> (r: Registry)
        ensures
            r.wf(),
            r.tokens@.len() == 0,
    {
        Registry { tokens: Vec::new() }
    }

    /// The token at `c`, if any.
    pub fn token_at(&self, c: Coordinates) -> (r: Option<usize>)
        ensures
            match r {
                Some(i) => i < self.tokens@.len() && self.tokens@[i as int].coordinates == c,
                None => !self.spec_occupied(c),
            },
    {
        let mut i: usize = 0;
        while i < self.tokens.len()
            invariant
                i <= self.tokens@.len(),
                forall|j: int| 0 <= j < i ==> self.tokens@[j].coordinates != c,
            decreases self.tokens@.len() - i,
        {
            if self.tokens[i].coordinates == c {
                return Some(i);
            }
            i += 1;
        }
        None
    }

    fn occupied_by_other(&self, c: Coordinates, except: usize) -> (r: bool)
        ensures
            r == self.spec_occupied_by_other(c, except as int),
    {
        let mut i: usize = 0;
        while i < self.tokens.len()
            invariant
                i <= self.tokens@.len(),
                forall|j: int| 0 <= j < i && j != except ==> self.tokens@[j].coordinates != c,
            decreases self.tokens@.len() - i,
        {
            if i != except && self.tokens[i].coordinates == c {
                return true;
            }
            i += 1;
        }
        false
    }

    /// Mints a token at `c` at time `now`, for a caller that is the contract
    /// owner when `privileged`, paying `paid`. Returns the new token's index
    /// and the excess payment to refund.
    pub fn mint(
        &mut self,
        config: &Config,
        privileged: bool,
        paid: &Coin,
        c: Coordinates,
        now: u64,
    ) -> (r: Result<(usize, u128), ContractError>)
        requires
            old(self).wf(),
            old(self).tokens@.len() < usize::MAX,
        ensures
            final(self).wf(),
            match r {
                Ok((id, refund)) => {
                    &&& old(self).spec_mint_error(*config, privileged, *paid, c).is_none()
                    &&& id == old(self).tokens@.len()
                    &&& final(self).tokens@ == old(self).tokens@.push(
                        XyzExtension { coordinates: c, prev_coordinates: None, arrival: now },
                    )
                    &&& refund == Registry::spec_mint_refund(*config, privileged, *paid)
                },
                Err(e) => {
                    &&& old(self).spec_mint_error(*config, privileged, *paid, c) == Some(e)
                    &&& final(self).tokens@ == old(self).tokens@
                },
            },
            (config.public_minting_enabled || privileged) && config.spec_in_bounds(c)
                && old(self).spec_occupied(c) ==> r == Err::<(usize, u128), ContractError>(
                ContractError::PositionOccupied,
            ) && final(self).tokens@ == old(self).tokens@,
    {
        if !config.public_minting_enabled && !privileged {
            return Err(ContractError::Unauthorized);
        }
        match config.check_bounds(c) {
            Err(e) => return Err(e),
            Ok(()) => {},
        }
        if self.token_at(c).is_some() {
            return Err(ContractError::PositionOccupied);
        }
        let refund = if privileged {
            paid.amount
        } else {
            match check_payment(&config.mint_fee, paid) {
                Err(e) => return Err(e),
                Ok(refund) => refund,
            }
        };
        let id = self.tokens.len();
        self.tokens.push(XyzExtension { coordinates: c, prev_coordinates: None, arrival: now });
        Ok((id, refund))
    }

    /// The fee and duration of moving token `token` to `c`.
    pub fn move_params(&self, config: &Config, token: usize, c: Coordinates) -> (r: Result<
        MoveParamsResponse,
        ContractError,
    >)
        ensures
            match r {
                Ok(p) => {
                    &&& token < self.tokens@.len()
                    &&& config.spec_move_fits(self.tokens@[token as int].coordinates, c)
                    &&& p.fee == self.spec_move_fee(*config, token as int, c)
                    &&& p.duration_nanos == config.spec_nanos_for(
                        self.tokens@[token as int].coordinates.spec_distance(c),
                    )
                },
                Err(e) => if token < self.tokens@.len() {
                    &&& !config.spec_move_fits(self.tokens@[token as int].coordinates, c)
                    &&& e == ContractError::Overflow
                } else {
                    e == ContractError::NotFound
                },
            },
    {
        if token >= self.tokens.len() {
            return Err(ContractError::NotFound);
        }
        let start = self.tokens[token].coordinates;
        if !config.move_fits(start, c) {
            return Err(ContractError::Overflow);
        }
        let fee = config.get_move_fee(start, c);
        let duration_nanos = config.get_move_nanos(start, c);
        Ok(MoveParamsResponse { fee, duration_nanos })
    }

    /// Moves token `token` to `c` at time `now`, for a caller that the
    /// ownership registry found `authorized` over it, paying `paid`. Returns
    /// the excess payment to refund.
    pub fn move_token(
        &mut self,
        config: &Config,
        token: usize,
        authorized: bool,
        c: Coordinates,
        paid: &Coin,
        now: u64,
    ) -> (r: Result<u128, ContractError>)
        requires
            old(self).wf(),
        ensures
            final(self).wf(),
            match r {
                Ok(refund) => {
                    &&& old(self).spec_move_error(*config, token as int, authorized, c, *paid, now).is_none()
                    &&& final(self).tokens@ == old(self).tokens@.update(
                        token as int,
                        old(self).spec_moved(*config, token as int, c, now),
                    )
                    &&& refund == spec_payment(old(self).spec_move_fee(*config, token as int, c), *paid)->Ok_0
                },
                Err(e) => {
                    &&& old(self).spec_move_error(*config, token as int, authorized, c, *paid, now) == Some(e)
                    &&& final(self).tokens@ == old(self).tokens@
                },
            },
            token < old(self).tokens@.len() && authorized && !config.spec_in_bounds(c) ==> r
                == Err::<u128, ContractError>(
                ContractError::OutOfBounds { max_coordinate_value: config.max_coordinate_value },
            ) && final(self).tokens@ == old(self).tokens@,
    {
        if token >= self.tokens.len() {
            return Err(ContractError::NotFound);
        }
        if !authorized {
            return Err(ContractError::Unauthorized);
        }
        match config.check_bounds(c) {
            Err(e) => return Err(e),
            Ok(()) => {},
        }
        if self.occupied_by_other(c, token) {
            return Err(ContractError::PositionOccupied);
        }
        let start = self.tokens[token].coordinates;
        if !config.move_fits(start, c) {
            return Err(ContractError::Overflow);
        }
        let nanos = config.get_move_nanos(start, c);
        if nanos > u64::MAX - now {
            return Err(ContractError::Overflow);
        }
        let fee = config.get_move_fee(start, c);
        let refund = match check_payment(&fee, paid) {
            Err(e) => return Err(e),
            Ok(refund) => refund,
        };
        let moved = XyzExtension { coordinates: c, prev_coordinates: Some(start), arrival: now + nanos };
        self.tokens.set(token, moved);
        proof {
            assert forall|i: int, j: int|
                0 <= i < self.tokens@.len() && 0 <= j < self.tokens@.len() && i != j
                    implies self.tokens@[i].coordinates != self.tokens@[j].coordinates by {
                if i != token && j != token {
                    assert(old(self).tokens@[i].coordinates != old(self).tokens@[j].coordinates);
                } else if i == token {
                    assert(!(j != token && old(self).tokens@[j].coordinates == c));
                } else {
                    assert(!(i != token && old(self).tokens@[i].coordinates == c));
                }
            }
        }
        Ok(refund)
    }
}

} // verus!
