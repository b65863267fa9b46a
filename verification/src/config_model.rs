//! The service's settings.

use vstd::prelude::*;

verus! {

/// Everything the service is configured with.
#[derive(Debug, Clone)]
pub struct DotEnvyConfig {
    pub server: Server,
    pub database: Database,
}

/// The port to listen on, the largest request body in mebibytes, and the
/// time in seconds after which a request is given up.
#[derive(Debug, Clone)]
pub struct Server {
    pub port: u16,
    pub body_limit: u64,
    pub timeout: u64,
}

/// Where the database is.
#[derive(Debug, Clone)]
pub struct Database {
    pub url: String,
}

/// The secrets that sign the tokens of adventurers.
#[derive(Debug, Clone)]
pub struct AdventurerSecret {
    pub secret: String,
    pub refresh_secret: String,
}

/// The secrets that sign the tokens of guild commanders.
#[derive(Debug, Clone)]
pub struct GuildCommanderSecret {
    pub secret: String,
    pub refresh_secret: String,
}

/// The bytes in a mebibyte.
pub const BYTES_PER_MEBIBYTE: u64 = 1048576;

impl Server {
    /// The largest request body in bytes, where that number fits the machine.
    pub fn body_limit_bytes(&self) -> (bytes: Option<usize>)
        ensures
            match bytes {
                Some(n) => n == self.body_limit * BYTES_PER_MEBIBYTE,
                None => self.body_limit * BYTES_PER_MEBIBYTE > usize::MAX,
            },
    {
        if self.body_limit > usize::MAX as u64 / BYTES_PER_MEBIBYTE {
            assert(self.body_limit * BYTES_PER_MEBIBYTE > usize::MAX) by (nonlinear_arith)
                requires
                    self.body_limit > (usize::MAX as u64) / BYTES_PER_MEBIBYTE,
                    BYTES_PER_MEBIBYTE == 1048576,
            ;
            return None;
        }
        assert(self.body_limit * BYTES_PER_MEBIBYTE <= usize::MAX) by (nonlinear_arith)
            requires
                self.body_limit <= (usize::MAX as u64) / BYTES_PER_MEBIBYTE,
                BYTES_PER_MEBIBYTE == 1048576,
        ;
        Some((self.body_limit * BYTES_PER_MEBIBYTE) as usize)
    }
}

} // verus!
