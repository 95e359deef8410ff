//! A server that will expose a bridge device to remote clients. The remote
//! transport is not wired up yet; the surface is here so that clients can be
//! built against it.

use vstd::prelude::*;

verus! {

pub struct Server {
    pub device: String,
    pub port: u32,
}

impl Server {
    pub fn new(device: String, port: u32) -> (r: Result<Server, String>)
        ensures
            r matches Ok(s) && s.device@ == device@ && s.port == port,
    {
        Ok(Server { device, port })
    }

    pub fn start(&self) -> (r: Result<(), String>)
        ensures
            r is Ok,
    {
        Ok(())
    }

    pub fn transfer(&self) -> (r: Result<(), String>)
        ensures
            r is Ok,
    {
        Ok(())
    }
}

} // verus!
