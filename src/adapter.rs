use vstd::prelude::*;

use crate::config::{Coin, Config};
use crate::geometry::Coordinates;

verus! {

/// When an approval lapses.
#[derive(Clone, Copy, Debug, PartialEq, Eq, Structural)]
pub enum Expiration {
    AtHeight(u64),
    /// A time in nanoseconds.
    AtTime(u64),
    Never,
}

pub struct InstantiateMsg {
    pub captcha_public_key: String,
    pub config: Config,
}

/// A replacement configuration applied during a version upgrade.
pub struct MigrateMsg {
    pub config: Config,
}

/// The commands of the ownership registry that are forwarded to it unchanged.
#[derive(Clone, Debug, PartialEq, Eq)]
pub enum BaseExecuteMsg {
    TransferNft { recipient: String, token_id: String },
    SendNft { contract: String, token_id: String, msg: Vec<u8> },
    Approve { spender: String, token_id: String, expires: Option<Expiration> },
    Revoke { spender: String, token_id: String },
    ApproveAll { operator: String, expires: Option<Expiration> },
    RevokeAll { operator: String },
}

/// Every command: the spatial ones, handled here, and the forwarded ones.
#[derive(Clone, Debug, PartialEq, Eq)]
pub enum ExecuteMsg {
    /// Mint a token at the given coordinates, with the captcha verifier's signature.
    Mint { coordinates: Coordinates, captcha_signature: String },
    /// Move an existing token to the given coordinates.
    Move { token_id: String, coordinates: Coordinates },
    /// Replace the configuration.
    UpdateConfig { config: Config },
    /// Replace the captcha verification key.
    UpdateCaptchaPublicKey { public_key: String },
    /// Withdraw from the contract's balance to the owner.
    Withdraw { amount: Vec<Coin> },
    TransferNft { recipient: String, token_id: String },
    SendNft { contract: String, token_id: String, msg: Vec<u8> },
    Approve { spender: String, token_id: String, expires: Option<Expiration> },
    Revoke { spender: String, token_id: String },
    ApproveAll { operator: String, expires: Option<Expiration> },
    RevokeAll { operator: String },
}

impl ExecuteMsg {
    /// The forwarded command that `self` is, field for field; `None` for the
    /// spatial and administrative commands.
    pub open spec fn spec_to_base(self) -> Option<BaseExecuteMsg> {
        match self {
            ExecuteMsg::TransferNft { recipient, token_id } => Some(
                BaseExecuteMsg::TransferNft { recipient, token_id },
            ),
            ExecuteMsg::SendNft { contract, token_id, msg } => Some(
                BaseExecuteMsg::SendNft { contract, token_id, msg },
            ),
            ExecuteMsg::Approve { spender, token_id, expires } => Some(
                BaseExecuteMsg::Approve { spender, token_id, expires },
            ),
            ExecuteMsg::Revoke { spender, token_id } => Some(
                BaseExecuteMsg::Revoke { spender, token_id },
            ),
            ExecuteMsg::ApproveAll { operator, expires } => Some(
                BaseExecuteMsg::ApproveAll { operator, expires },
            ),
            ExecuteMsg::RevokeAll { operator } => Some(BaseExecuteMsg::RevokeAll { operator }),
            _ => None,
        }
    }

    /// The command that carries the forwarded command `b`.
    pub open spec fn spec_from_base(b: BaseExecuteMsg) -> ExecuteMsg {
        match b {
            BaseExecuteMsg::TransferNft { recipient, token_id } => ExecuteMsg::TransferNft {
                recipient,
                token_id,
            },
            BaseExecuteMsg::SendNft { contract, token_id, msg } => ExecuteMsg::SendNft {
                contract,
                token_id,
                msg,
            },
            BaseExecuteMsg::Approve { spender, token_id, expires } => ExecuteMsg::Approve {
                spender,
                token_id,
                expires,
            },
            BaseExecuteMsg::Revoke { spender, token_id } => ExecuteMsg::Revoke {
                spender,
                token_id,
            },
            BaseExecuteMsg::ApproveAll { operator, expires } => ExecuteMsg::ApproveAll {
                operator,
                expires,
            },
            BaseExecuteMsg::RevokeAll { operator } => ExecuteMsg::RevokeAll { operator },
        }
    }

    /// Splits off the command to forward to the ownership registry.
    pub fn to_base(self) -> (r: Option<BaseExecuteMsg>)
        ensures
            r == self.spec_to_base(),
    {
        match self {
            ExecuteMsg::TransferNft { recipient, token_id } => Some(
                BaseExecuteMsg::TransferNft { recipient, token_id },
            ),
            ExecuteMsg::SendNft { contract, token_id, msg } => Some(
                BaseExecuteMsg::SendNft { contract, token_id, msg },
            ),
            ExecuteMsg::Approve { spender, token_id, expires } => Some(
                BaseExecuteMsg::Approve { spender, token_id, expires },
            ),
            ExecuteMsg::Revoke { spender, token_id } => Some(
                BaseExecuteMsg::Revoke { spender, token_id },
            ),
            ExecuteMsg::ApproveAll { operator, expires } => Some(
                BaseExecuteMsg::ApproveAll { operator, expires },
            ),
            ExecuteMsg::RevokeAll { operator } => Some(BaseExecuteMsg::RevokeAll { operator }),
            _ => None,
        }
    }

    /// Wraps a forwarded command.
    pub fn from_base(b: BaseExecuteMsg) -> (r: ExecuteMsg)
        ensures
            r == ExecuteMsg::spec_from_base(b),
    {
        match b {
            BaseExecuteMsg::TransferNft { recipient, token_id } => ExecuteMsg::TransferNft {
                recipient,
                token_id,
            },
            BaseExecuteMsg::SendNft { contract, token_id, msg } => ExecuteMsg::SendNft {
                contract,
                token_id,
                msg,
            },
            BaseExecuteMsg::Approve { spender, token_id, expires } => ExecuteMsg::Approve {
                spender,
                token_id,
                expires,
            },
            BaseExecuteMsg::Revoke { spender, token_id } => ExecuteMsg::Revoke {
                spender,
                token_id,
            },
            BaseExecuteMsg::ApproveAll { operator, expires } => ExecuteMsg::ApproveAll {
                operator,
                expires,
            },
            BaseExecuteMsg::RevokeAll { operator } => ExecuteMsg::RevokeAll { operator },
        }
    }
}

/// Forwarding a base command through the extended vocabulary hands the
/// ownership registry exactly that command, and every forwarded command is
/// carried back unchanged: the mapping is total and lossless.
pub proof fn lemma_execute_round_trip(b: BaseExecuteMsg, m: ExecuteMsg)
    ensures
        ExecuteMsg::spec_from_base(b).spec_to_base() == Some(b),
        m.spec_to_base() == Some(b) ==> ExecuteMsg::spec_from_base(b) == m,
{
}

/// The queries of the ownership registry that are forwarded to it.
#[derive(Clone, Debug, PartialEq, Eq)]
pub enum BaseQueryMsg {
    OwnerOf { token_id: String, include_expired: Option<bool> },
    ApprovedForAll { owner: String, include_expired: Option<bool>, start_after: Option<String>, limit: Option<u32> },
    NumTokens {},
    ContractInfo {},
    NftInfo { token_id: String },
    AllNftInfo { token_id: String, include_expired: Option<bool> },
    Tokens { owner: String, start_after: Option<String>, limit: Option<u32> },
    AllTokens { start_after: Option<String>, limit: Option<u32> },
}

/// Every query: the spatial ones, answered here, and the forwarded ones.
#[derive(Clone, Debug, PartialEq, Eq)]
pub enum QueryMsg {
    /// The current configuration.
    Config {},
    /// The current captcha verification key.
    CaptchaPublicKey {},
    /// The tokens of `owner`, with their spatial data.
    XyzTokens { owner: String, start_after: Option<String>, limit: Option<u32> },
    /// All tokens, with their spatial data.
    AllXyzTokens { start_after: Option<String>, limit: Option<u32> },
    /// One token, with its spatial data.
    XyzNftInfo { token_id: String },
    /// The token at the given coordinates, if any.
    XyzNftInfoByCoords { coordinates: Coordinates },
    /// How many tokens `owner` holds.
    NumTokensForOwner { owner: String },
    /// The fee and duration of moving a token to the given coordinates.
    MoveParams { token_id: String, coordinates: Coordinates },
    OwnerOf { token_id: String, include_expired: Option<bool> },
    ApprovedForAll { owner: String, include_expired: Option<bool>, start_after: Option<String>, limit: Option<u32> },
    NumTokens {},
    ContractInfo {},
    NftInfo { token_id: String },
    AllNftInfo { token_id: String, include_expired: Option<bool> },
    Tokens { owner: String, start_after: Option<String>, limit: Option<u32> },
    AllTokens { start_after: Option<String>, limit: Option<u32> },
}

impl QueryMsg {
    /// The registry query that answers `self`, field for field; `None` for the
    /// queries answered here.
    pub open spec fn spec_to_base(self) -> Option<BaseQueryMsg> {
        match self {
            QueryMsg::XyzTokens { owner, start_after, limit } => Some(BaseQueryMsg::Tokens { owner, start_after, limit }),
            QueryMsg::AllXyzTokens { start_after, limit } => Some(BaseQueryMsg::AllTokens { start_after, limit }),
            QueryMsg::XyzNftInfo { token_id } => Some(BaseQueryMsg::NftInfo { token_id }),
            QueryMsg::OwnerOf { token_id, include_expired } => Some(BaseQueryMsg::OwnerOf { token_id, include_expired }),
            QueryMsg::ApprovedForAll { owner, include_expired, start_after, limit } => Some(BaseQueryMsg::ApprovedForAll { owner, include_expired, start_after, limit }),
            QueryMsg::NumTokens {} => Some(BaseQueryMsg::NumTokens {}),
            QueryMsg::ContractInfo {} => Some(BaseQueryMsg::ContractInfo {}),
            QueryMsg::NftInfo { token_id } => Some(BaseQueryMsg::NftInfo { token_id }),
            QueryMsg::AllNftInfo { token_id, include_expired } => Some(BaseQueryMsg::AllNftInfo { token_id, include_expired }),
            QueryMsg::Tokens { owner, start_after, limit } => Some(BaseQueryMsg::Tokens { owner, start_after, limit }),
            QueryMsg::AllTokens { start_after, limit } => Some(BaseQueryMsg::AllTokens { start_after, limit }),
            _ => None,
        }
    }

    /// The query that carries the registry query `b`.
    pub open spec fn spec_from_base(b: BaseQueryMsg) -> QueryMsg {
        match b {
            BaseQueryMsg::OwnerOf { token_id, include_expired } => QueryMsg::OwnerOf { token_id, include_expired },
            BaseQueryMsg::ApprovedForAll { owner, include_expired, start_after, limit } => QueryMsg::ApprovedForAll { owner, include_expired, start_after, limit },
            BaseQueryMsg::NumTokens {} => QueryMsg::NumTokens {},
            BaseQueryMsg::ContractInfo {} => QueryMsg::ContractInfo {},
            BaseQueryMsg::NftInfo { token_id } => QueryMsg::NftInfo { token_id },
            BaseQueryMsg::AllNftInfo { token_id, include_expired } => QueryMsg::AllNftInfo { token_id, include_expired },
            BaseQueryMsg::Tokens { owner, start_after, limit } => QueryMsg::Tokens { owner, start_after, limit },
            BaseQueryMsg::AllTokens { start_after, limit } => QueryMsg::AllTokens { start_after, limit },
        }
    }

    /// Splits off the query to forward to the ownership registry.
    pub fn to_base(self) -> (r: Option<BaseQueryMsg>)
        ensures
            r == self.spec_to_base(),
    {
        match self {
            QueryMsg::XyzTokens { owner, start_after, limit } => Some(BaseQueryMsg::Tokens { owner, start_after, limit }),
            QueryMsg::AllXyzTokens { start_after, limit } => Some(BaseQueryMsg::AllTokens { start_after, limit }),
            QueryMsg::XyzNftInfo { token_id } => Some(BaseQueryMsg::NftInfo { token_id }),
            QueryMsg::OwnerOf { token_id, include_expired } => Some(BaseQueryMsg::OwnerOf { token_id, include_expired }),
            QueryMsg::ApprovedForAll { owner, include_expired, start_after, limit } => Some(BaseQueryMsg::ApprovedForAll { owner, include_expired, start_after, limit }),
            QueryMsg::NumTokens {} => Some(BaseQueryMsg::NumTokens {}),
            QueryMsg::ContractInfo {} => Some(BaseQueryMsg::ContractInfo {}),
            QueryMsg::NftInfo { token_id } => Some(BaseQueryMsg::NftInfo { token_id }),
            QueryMsg::AllNftInfo { token_id, include_expired } => Some(BaseQueryMsg::AllNftInfo { token_id, include_expired }),
            QueryMsg::Tokens { owner, start_after, limit } => Some(BaseQueryMsg::Tokens { owner, start_after, limit }),
            QueryMsg::AllTokens { start_after, limit } => Some(BaseQueryMsg::AllTokens { start_after, limit }),
            _ => None,
        }
    }

    /// Wraps a registry query.
    pub fn from_base(b: BaseQueryMsg) -> (r: QueryMsg)
        ensures
            r == QueryMsg::spec_from_base(b),
    {
        match b {
            BaseQueryMsg::OwnerOf { token_id, include_expired } => QueryMsg::OwnerOf { token_id, include_expired },
            BaseQueryMsg::ApprovedForAll { owner, include_expired, start_after, limit } => QueryMsg::ApprovedForAll { owner, include_expired, start_after, limit },
            BaseQueryMsg::NumTokens {} => QueryMsg::NumTokens {},
            BaseQueryMsg::ContractInfo {} => QueryMsg::ContractInfo {},
            BaseQueryMsg::NftInfo { token_id } => QueryMsg::NftInfo { token_id },
            BaseQueryMsg::AllNftInfo { token_id, include_expired } => QueryMsg::AllNftInfo { token_id, include_expired },
            BaseQueryMsg::Tokens { owner, start_after, limit } => QueryMsg::Tokens { owner, start_after, limit },
            BaseQueryMsg::AllTokens { start_after, limit } => QueryMsg::AllTokens { start_after, limit },
        }
    }
}

/// Forwarding a registry query through the extended vocabulary hands the
/// registry exactly that query, field for field.
pub proof fn lemma_query_round_trip(b: BaseQueryMsg)
    ensures
        QueryMsg::spec_from_base(b).spec_to_base() == Some(b),
{
}

} // verus!
