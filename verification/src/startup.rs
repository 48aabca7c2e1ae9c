//! What is fixed when the service starts.

use vstd::prelude::*;

verus! {

/// The address under which the service is reached from outside.
pub struct ApplicationBaseUrl(pub String);

/// A service that is bound to a port.
pub struct Application {
    port: u16,
}

impl Application {
    /// The service bound to `port`.
    pub fn new(port: u16) -> (r: Application)
        ensures
            r.port_spec() == port,
    {
        Application { port }
    }

    /// The port that the service is bound to.
    pub closed spec fn port_spec(&self) -> u16 {
        self.port
    }

    /// The port that the service is bound to.
    pub fn port(&self) -> (r: u16)
        ensures
            r == self.port_spec(),
    {
        self.port
    }
}

} // verus!
