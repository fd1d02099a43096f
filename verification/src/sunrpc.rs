//! Sun RPC.
pub mod xprtrdma;
