//! Concurrency and resilience layer shared by text-translation backends.
//!
//! The verified core is made of small state machines: admission control with a
//! sliding requests-per-minute window, round-robin credential selection, a cached
//! short-lived token, and a retry policy with exponential backoff. Each takes the
//! current time and the outcome of outside work as plain values, so the async
//! runtime that drives it only performs the actions they decide.

pub mod options;
pub mod text;
pub mod error;
pub mod retry;
pub mod governor;
pub mod pool;
pub mod token;
pub mod openai;
pub mod microsoft;

pub use error::TranslationError;
pub use governor::{Admission, RateGovernor};
pub use microsoft::{MicrosoftConfig, MicrosoftConfigBuilder, MicrosoftTranslator, TranslationResult};
pub use openai::{OpenAIConfig, OpenAIConfigBuilder, OpenAITranslator};
pub use options::TranslateOptions;
pub use pool::CredentialPool;
pub use retry::{RetryExecutor, RetryOutcome};
pub use token::{AuthReply, AuthStep, TokenCache};
