//! Compact tokens in the JSON Web Token style: building them, verifying them against a key's
//! algorithm and a policy, and inspecting their header before verification.

use vstd::prelude::*;

pub mod claims;
pub mod codec;
pub mod error;
pub mod header;
pub mod token;
