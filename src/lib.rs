//! Validated configuration for checkpoint storage: a path tracker for
//! diagnostics, an accumulator of field errors, the two syntaxes of a
//! checkpoint-storage configuration, the validator's settings and the
//! selection of signers for a multisig aggregation.
pub mod path;
pub mod error;
pub mod str_or_int;
pub mod storage;
pub mod settings;
pub mod multisig;
