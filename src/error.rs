use vstd::prelude::*;

verus! {

/// Failures while loading or validating configuration.
#[derive(Debug, Clone, PartialEq, Eq)]
pub enum ConfigError {
    ReadFile,
    Parse { reason: String },
    Validation { field: String },
}

/// Failures while talking to an exchange.
#[derive(Debug, Clone, PartialEq, Eq)]
pub enum ExchangeError {
    Connection { exchange: String },
    Request { exchange: String },
    ResponseParse { exchange: String },
    RateLimit { exchange: String },
}

/// Failures of the persistent store.
#[derive(Debug, Clone, Copy, PartialEq, Eq, Structural)]
pub enum StorageError {
    Migration,
    Insert,
    Query,
}

/// Failures of an indicator computation or construction.
#[derive(Debug, Clone, PartialEq, Eq)]
pub enum IndicatorError {
    InsufficientData { required: usize, available: usize },
    InvalidParameter { name: String },
}

/// Top-level failure categories of the application.
#[derive(Debug, Clone, Copy, PartialEq, Eq, Structural)]
pub enum AppError {
    Config,
    Storage,
    Exchange,
    Runtime,
}

/// `e` rejects a parameter with the message `msg`.
pub open spec fn is_invalid_parameter(e: IndicatorError, msg: Seq<char>) -> bool {
    e matches IndicatorError::InvalidParameter { name } && name@ == msg
}

/// `e` is a validation failure whose field description is `field`.
pub open spec fn is_validation(e: ConfigError, field: Seq<char>) -> bool {
    e matches ConfigError::Validation { field: f } && f@ == field
}

} // verus!
