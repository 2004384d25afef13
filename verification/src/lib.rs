//! Verified core of a desktop wallpaper setter: where a downloaded image is
//! kept, in which order the download touches disk and network, and how the
//! outcome of a desktop command is read.
//!
//! This crate touches neither disk nor network, and runs no command. A
//! caller carries out the actions that the crate asks for and reports back
//! what happened.

pub mod command;
pub mod directory;
pub mod error;
pub mod fetch;
pub mod image_url;
pub mod laws;
pub mod location;
pub mod text;

pub use command::{get_stdout, run, Execution};
pub use directory::{create_dir, PathKind};
pub use error::{Error, UrlDefect};
pub use fetch::{download_image, Action, Download, Reply};
pub use image_url::ImageUrl;
pub use location::Platform;
