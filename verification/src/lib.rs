//! Packages a directory of static site assets either into the running program
//! itself or behind a live filesystem view, assigns deterministic content
//! fingerprints for cache validation, dispatches requests between rendered
//! pages and statically served files, and exports a site to plain files.

pub mod export;
pub mod fingerprint;
pub mod include_dir;
pub mod route;
pub mod serve;
pub mod strutil;

pub use export::export_file_name;
pub use export::export_file_name_of;
pub use export::export_paths;
pub use export::export_route;
pub use export::ExportEntry;
pub use fingerprint::fingerprint_of;
pub use fingerprint::hash;
pub use include_dir::File;
pub use include_dir::FsDirectory;
pub use include_dir::IncludeDir;
pub use include_dir::IncludedDirectory;
pub use include_dir::IncludedFile;
pub use route::asset_path;
pub use route::client_paths;
pub use route::path_components;
pub use route::ClientPaths;
pub use route::Route;
pub use route::RouteInitializer;
pub use serve::asset_response;
pub use serve::content_type;
pub use serve::serve_asset;
pub use serve::AssetResponse;
pub use serve::Method;
