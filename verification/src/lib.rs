//! Extension marketplace client logic for SideX: request construction,
//! metadata caching, version resolution, download retries and the
//! install decision that follows package validation.

pub mod text;
pub mod metadata;
pub mod cache;
pub mod marketplace;
pub mod download;
pub mod installer;

pub use cache::MetadataCache;
pub use download::{DownloadAction, DownloadError, DownloadEvent, DownloadRetry};
pub use installer::{install_from_vsix, VsixValidation};
pub use marketplace::{
    metadata_cache_key, plan_install, ApiRequest, InstallError, InstallPlan, MarketplaceClient,
};
pub use metadata::{Dependency, ExtensionMetadata, ExtensionVersion};
