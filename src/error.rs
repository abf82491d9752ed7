use vstd::prelude::*;

verus! {

/// Why a connection could not be had.
#[derive(Debug)]
pub enum ConnectError {
    Resolver(String),
    NoRecords,
    Timeout,
    Disconnected,
    Unresolved,
    Io(String),
}

/// Why an exchange or an upgrade failed on an established connection.
#[derive(Debug)]
pub enum ExchangeError {
    Io(String),
    Response(String),
    Timeout,
    TunnelNotSupported,
}

/// The error a request attempt ends with: it never connected, or it
/// connected and the exchange then failed.
#[derive(Debug)]
pub enum SendRequestError {
    Connect(ConnectError),
    Send(ExchangeError),
}

} // verus!
