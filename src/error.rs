use vstd::prelude::*;

verus! {

/// Why a command was refused. A refused command changes nothing.
#[derive(Clone, Debug, PartialEq, Eq)]
pub enum ContractError {
    /// A coordinate lies outside `[-max_coordinate_value, max_coordinate_value]`.
    OutOfBounds { max_coordinate_value: i64 },
    /// Another token already stands at the destination.
    PositionOccupied,
    /// The caller may not mint, or may not move this token.
    Unauthorized,
    /// The payment is below the fee.
    InsufficientPayment { required: u128, paid: u128 },
    /// The payment is not in the fee's denomination.
    WrongDenomination,
    /// No token has this identifier.
    NotFound,
    /// The move's distance, fee or arrival time does not fit its integer type.
    Overflow,
}

} // verus!
