//! The logic of a desktop start page for websites: reading the bookmarks out
//! of a browser's exported bookmark file, finding a page's title and icon,
//! naming stored icons by their content, and the small rules around the
//! synchronization server, the HTTP client and the main window.
//!
//! Nothing here touches the disk, the network or the window system. Calls
//! into `scraper`, `url`, `sha2` and `hex` are made through small functions
//! whose contracts are taken on trust; everything else is proved.

pub mod digest;
pub mod dom;
pub mod init;
pub mod invokes;
pub mod modules;
pub mod text;
pub mod types;
pub mod utils;
pub mod web;
