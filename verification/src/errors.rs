//! Error types of the contracts and of the SDK.
use vstd::prelude::*;

verus! {

/// Contract-level failure of the attestation contracts.
///
/// Each variant has a stable numeric code, returned by [`SASError::code`].
#[derive(Clone, Copy, Debug, PartialEq, Eq, Structural)]
pub enum SASError {
    /// A contract's `init` was called on an already-initialized instance.
    AlreadyInitialized,
    /// The schema string is empty, too long or not well formed.
    InvalidSchema,
    SchemaAlreadyExists,
    SchemaNotFound,
    AttestationNotFound,
    AlreadyRevoked,
    NotRevocable,
    AlreadyExpired,
    /// The required party has not authorized the invocation.
    Unauthorized,
    InvalidSignature,
    DelegationReplay,
    InvalidTTL,
    InvalidRecipient,
    /// A fee/value amount was negative.
    InvalidValue,
    /// The configured dependency does not implement the required interface.
    IncompatibleDependency,
    /// The requested attestation batch exceeds the protocol limit.
    BatchTooLarge,
    /// A key is already registered for the attester.
    AttesterKeyAlreadyRegistered,
    /// No key is on file for the attester.
    AttesterKeyNotFound,
    /// The registered key for this attester has already been revoked.
    AttesterKeyRevoked,
}

/// The numeric code that identifies an error on chain.
pub open spec fn sas_error_code(e: SASError) -> u32 {
    match e {
        SASError::AlreadyInitialized => 1,
        SASError::InvalidSchema => 101,
        SASError::SchemaAlreadyExists => 102,
        SASError::SchemaNotFound => 103,
        SASError::AttestationNotFound => 201,
        SASError::AlreadyRevoked => 202,
        SASError::NotRevocable => 203,
        SASError::AlreadyExpired => 204,
        SASError::Unauthorized => 301,
        SASError::InvalidSignature => 302,
        SASError::DelegationReplay => 303,
        SASError::InvalidTTL => 401,
        SASError::InvalidRecipient => 402,
        SASError::InvalidValue => 403,
        SASError::IncompatibleDependency => 404,
        SASError::BatchTooLarge => 405,
        SASError::AttesterKeyAlreadyRegistered => 406,
        SASError::AttesterKeyNotFound => 407,
        SASError::AttesterKeyRevoked => 408,
    }
}

impl SASError {
    /// The numeric code that identifies this error on chain.
    pub fn code(&self) -> (res: u32)
        ensures
            res == sas_error_code(*self),
    {
        match self {
            SASError::AlreadyInitialized => 1,
            SASError::InvalidSchema => 101,
            SASError::SchemaAlreadyExists => 102,
            SASError::SchemaNotFound => 103,
            SASError::AttestationNotFound => 201,
            SASError::AlreadyRevoked => 202,
            SASError::NotRevocable => 203,
            SASError::AlreadyExpired => 204,
            SASError::Unauthorized => 301,
            SASError::InvalidSignature => 302,
            SASError::DelegationReplay => 303,
            SASError::InvalidTTL => 401,
            SASError::InvalidRecipient => 402,
            SASError::InvalidValue => 403,
            SASError::IncompatibleDependency => 404,
            SASError::BatchTooLarge => 405,
            SASError::AttesterKeyAlreadyRegistered => 406,
            SASError::AttesterKeyNotFound => 407,
            SASError::AttesterKeyRevoked => 408,
        }
    }
}

/// Failure of an SDK operation.
#[derive(Debug)]
pub enum SdkError {
    /// The contract failed with the given error code.
    ContractError(u32),
    /// The RPC node answered with an error, or its answer could not be used.
    RpcError(String),
    /// The request never produced a usable HTTP answer.
    TransportError(String),
    /// A returned XDR value could not be decoded or is not supported.
    DecodingError(String),
}

/// The model of an `SdkError`, with messages as characters.
pub enum SdkErrorView {
    ContractError(u32),
    RpcError(Seq<char>),
    TransportError(Seq<char>),
    DecodingError(Seq<char>),
}

impl View for SdkError {
    type V = SdkErrorView;

    open spec fn view(&self) -> SdkErrorView {
        match self {
            SdkError::ContractError(c) => SdkErrorView::ContractError(*c),
            SdkError::RpcError(m) => SdkErrorView::RpcError(m@),
            SdkError::TransportError(m) => SdkErrorView::TransportError(m@),
            SdkError::DecodingError(m) => SdkErrorView::DecodingError(m@),
        }
    }
}

} // verus!
