//! The client's configuration: which Checkout.com environment it talks to.

use vstd::prelude::*;

use crate::apis::flows::Flows;

verus! {

/// The Checkout.com environment that requests are sent to.
#[derive(Debug, Clone, Copy, PartialEq, Eq, Structural)]
pub enum Environment {
    /// The test environment, which moves no money.
    Sandbox,
    /// The live environment.
    Production,
}

impl Environment {
    /// The base address of the API in this environment.
    pub open spec fn spec_api_url(self) -> Seq<char> {
        match self {
            Environment::Sandbox => "https://api.sandbox.checkout.com"@,
            Environment::Production => "https://api.checkout.com"@,
        }
    }

    /// Returns the base address of the API in this environment.
    pub fn api_url(&self) -> (url: &'static str)
        ensures
            url@ == self.spec_api_url(),
    {
        match self {
            Environment::Sandbox => "https://api.sandbox.checkout.com",
            Environment::Production => "https://api.checkout.com",
        }
    }
}

/// A client of the API, configured for one environment.
#[derive(Debug, Clone)]
pub struct Client {
    pub environment: Environment,
}

impl Client {
    /// Creates a client for the given environment.
    pub fn new(environment: Environment) -> (client: Self)
        ensures
            client.environment == environment,
    {
        Client { environment }
    }

    /// Access the Flows API.
    pub fn flows(&self) -> (flows: Flows<'_>)
        ensures
            flows.client() == self,
    {
        Flows::new(self)
    }
}

} // verus!
