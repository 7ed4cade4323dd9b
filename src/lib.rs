use vstd::prelude::*;

pub mod contracts;
pub mod endpoints;
pub mod events;
pub mod expiration;
pub mod fetcher;
pub mod laws;
pub mod resolver;
pub mod scheduler;

pub use contracts::{ContractABI, ContractABIFunction, ContractABIParameter, ContractPackage};

verus! {

/// Where queries and subscriptions are sent.
#[derive(Clone, Debug)]
pub struct QueriesConfig {
    pub queries_server: String,
    pub subscriptions_server: String,
}

/// Where messages are sent.
#[derive(Clone, Debug)]
pub struct RequestsConfig {
    pub requests_server: String,
}

/// The node servers the client talks to.
#[derive(Clone, Debug)]
pub struct NodeClientConfig {
    pub queries_config: QueriesConfig,
    pub requests_config: RequestsConfig,
}

/// Errors of the client.
#[derive(Clone, Debug)]
pub enum SdkError {
    /// An argument could not be used; the text says why.
    InvalidArg { message: String },
}

/// The client's settings: the node servers once initialised.
pub struct Sdk {
    pub config: Option<NodeClientConfig>,
}

impl Sdk {
    /// A client that is not initialised yet.
    pub fn new() -> (r: Sdk)
        ensures
            r.config.is_none(),
    {
        Sdk { config: None }
    }
}

/// Saves the servers' addresses in the client.
pub fn init(sdk: &mut Sdk, config: NodeClientConfig) -> (r: Result<(), SdkError>)
    ensures
        r.is_ok(),
        final(sdk).config == Some(config),
{
    sdk.config = Some(config);
    Ok(())
}

/// Forgets the servers' addresses; to be called when the client is done.
pub fn uninit(sdk: &mut Sdk)
    ensures
        final(sdk).config.is_none(),
{
    sdk.config = None;
}

} // verus!
