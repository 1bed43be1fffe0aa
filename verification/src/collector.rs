//! The collector's side: where it asks for samples and what it was asked
//! to do.
//!
//! The collector polls a device over HTTP and logs rows; the polling, the
//! clock and the file are plumbing outside this crate.  What is exact here
//! is the endpoint: the URL a fetcher asks, built from the device address.

use vstd::prelude::*;
use vstd::string::StringExecFns;

verus! {

/// What the collector was asked to do: the device address to poll, where
/// to write, and whether to echo each row.
pub struct Cli {
    /// Address of the device, as `host` or `host:port`.
    pub addr: String,
    /// Output file or directory; a fresh name is derived when absent.
    pub out: Option<String>,
    /// Echo each row as it is written.
    pub verbose: bool,
}

/// Asks a device for acceleration samples, always at the same endpoint.
pub struct AccelFetcher {
    url: String,
}

impl AccelFetcher {
    /// The URL the fetcher asks.
    pub closed spec fn spec_url(self) -> Seq<char> {
        self.url@
    }

    /// Points the fetcher at the device `addr`: the endpoint is the
    /// device's acceleration resource over plain HTTP.
    pub fn new(addr: &str) -> (r: AccelFetcher)
        ensures
            r.spec_url() == "http://"@ + addr@ + "/accel"@,
    {
        let mut url = "http://".to_owned();
        url.append(addr);
        url.append("/accel");
        AccelFetcher { url }
    }

    /// The URL the fetcher asks.
    pub fn url(&self) -> (r: &str)
        ensures
            r@ == self.spec_url(),
    {
        self.url.as_str()
    }
}

} // verus!
