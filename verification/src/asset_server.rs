//! The asset server: stable path identifiers, strong and weak handles, the
//! reference-count channel, and the per-type lifecycle queues through which
//! unused assets are reclaimed.

pub mod asset_lifecycle;
pub mod asset_path;
pub mod asset_ref_counter;
pub mod asset_server;
pub mod assets;
pub mod conservation;
pub mod debug_loader;
pub mod error;
pub mod handle;
pub mod loader;
pub mod transport;

pub use asset_lifecycle::AssetLifecycle;
pub use asset_lifecycle::AssetLifecycleEvent;
pub use asset_path::AssetPath;
pub use asset_path::AssetPathId;
pub use asset_ref_counter::AssetRefCounter;
pub use asset_ref_counter::RefChange;
pub use asset_ref_counter::RefChangeChannel;
pub use asset_server::AssetServer;
pub use assets::Assets;
pub use error::AssetError;
pub use handle::Handle;
pub use handle::HandleId;
pub use handle::HandleType;
pub use handle::HandleUntyped;
pub use loader::Asset;
pub use loader::AssetLoader;
pub use loader::AssetTypeId;
