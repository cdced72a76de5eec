//! The handlers that come with the library.

pub mod mount_handler;
pub mod router;
pub mod single_file_handler;
pub mod static_file_handler;

pub use self::mount_handler::MountHandler;
pub use self::router::Router;
pub use self::single_file_handler::SingleFileHandler;
pub use self::static_file_handler::StaticFileHandler;
