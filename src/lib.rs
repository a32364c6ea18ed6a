// Cross-chain bridge ledger and hashed time-locked swaps for a Soroban host.
pub mod bridge;
pub mod byte_map;
pub mod bytes;
pub mod codec;
pub mod encoding;
pub mod host;
pub mod signature;
pub mod swap;
