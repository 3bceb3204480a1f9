//! Endpoint and credential records, loaded once and never changed afterwards.

use vstd::prelude::*;

verus! {

/// One candidate network address of a trading server.
#[derive(Debug, Clone)]
pub struct Address {
    pub host: String,
    pub port: i16,
}

/// A named trading endpoint.
#[derive(Debug, Clone)]
pub struct Server {
    /// Numeric identifier of the brokerage.
    pub qsid: i32,
    /// Candidate addresses, in order of preference.
    pub address: Vec<Address>,
    /// Protocol version string the native library announces at logon.
    pub version: String,
    /// Local port on which the HTTP surface listens.
    pub trader_server_port: u16,
}

/// Login credentials of one trading account.
#[derive(Debug, Clone)]
pub struct Account {
    pub name: String,
    pub yyb_id: String,
    pub account: String,
    pub password: String,
    pub comm_password: String,
}

impl Server {
    /// The address a logon uses: the first of the list, if there is one.
    pub fn login_address(&self) -> (chosen: Option<&Address>)
        ensures
            self.address@.len() == 0 ==> chosen is None,
            self.address@.len() > 0 ==> chosen == Some(&self.address@[0]),
    {
        if self.address.len() > 0 {
            Some(&self.address[0])
        } else {
            None
        }
    }
}

} // verus!
