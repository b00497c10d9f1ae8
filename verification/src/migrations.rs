pub mod migrate;
pub mod v0_to_v2;
pub mod v1_to_v2;
