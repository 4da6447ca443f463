//! Orchestrates interactions between PropChain contracts and external
//! services: KYC/AML providers, fiat payment gateways and off-chain
//! monitoring and alerting systems.

pub mod types;
pub mod events;
pub mod model;
pub mod integration;
pub mod laws;
