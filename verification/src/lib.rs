//! A custodial-identity wallet scheme: an account component that binds one
//! external identity (a numeric user handle) to spending and ownership rights
//! over a native-asset balance, and a factory component that provisions one
//! account instance per identity key and keeps the identity-to-instance
//! registry free of duplicates.
//!
//! The ledger that hosts these components (persistent key-value storage,
//! atomic call execution, the native-asset transfer primitive, call-time
//! authentication) is out of scope and modeled explicitly: storage lives in
//! the component values themselves, and the native-asset ledger is the
//! [`token::TokenLedger`] model passed by reference into transfers.

pub mod account;
pub mod factory;
pub mod ids;
pub mod token;

pub use account::{DataKey, Error, SignatureVerification, TelegramSmartAccount};
pub use factory::{FactoryContract, FactoryError};
pub use ids::{Address, IdentityKey, IDENTITY_KEY_LEN};
pub use token::{TokenError, TokenLedger};
