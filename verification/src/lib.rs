//! PropChain contract logic: a time-to-live cache, a commit-reveal
//! randomness round, the third-party service integration registry and the
//! proxy stub, each as a verified state machine over plain values.

pub mod primitives;
pub mod account_map;
pub mod cache;
pub mod crypto;
pub mod randomness;
pub mod third_party;
pub mod proxy;
