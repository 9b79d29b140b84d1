//! The instructions of the program, one module each.

pub mod burn_asset;
pub mod create_asset;
pub mod create_collection;
pub mod freeze_asset;
pub mod initialize;
pub mod transfer_asset;

pub use burn_asset::BurnAsset;
pub use create_asset::CreateAsset;
pub use create_collection::CreateCollection;
pub use freeze_asset::FreezeAsset;
pub use initialize::Initialize;
pub use transfer_asset::TransferAsset;
