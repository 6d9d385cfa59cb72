use vstd::prelude::*;

verus! {

/// Where the service listens: an address to bind and a port.
#[derive(Clone, Debug)]
pub struct Server {
    pub bind: String,
    pub port: u16,
}

impl Server {
    pub fn new(bind: String, port: u16) -> (r: Self)
        ensures
            r.bind == bind,
            r.port == port,
    {
        Server { bind, port }
    }
}

}
