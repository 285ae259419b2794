pub mod session;
pub mod sync;

use vstd::prelude::*;

verus! {

/// The directory under the user's home that holds everything of this program.
pub const HOME_VUST_DIR: &'static str = ".vust";

/// The application's directory under it.
pub const APP_CONFIG_DIR: &'static str = "vust-desk";

/// The configuration file in the application's directory.
pub const APP_CONFIG_FILE: &'static str = "config.json";

/// The directory of the database files in the application's directory.
pub const APP_DATA_DIR: &'static str = "data";

} // verus!
