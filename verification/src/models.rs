//! Plain data shared by the merger and its callers.

pub mod binary;
