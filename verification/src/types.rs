//! Configuration fragments read from the environment.

use vstd::prelude::*;

verus! {

/// Where the channel's key pair is stored.
#[derive(Debug)]
pub struct EnvConfig {
    pub private_key_path: String,
    pub public_key_path: String,
}

/// What a channel JWT is made for: the key id and the channel.
#[derive(Debug)]
pub struct CreateJWTConfig {
    pub kid: String,
    pub channel_id: String,
}

} // verus!
