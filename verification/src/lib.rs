//! Per-test scratch directories: the naming rule and the lifecycle protocol.
//!
//! Every test of a suite is handed an empty directory of its own below one
//! root that is reset once per process. This crate holds the decisions of that
//! protocol; the filesystem work is done by whoever drives it.

pub mod basedir;
pub mod disk;
pub mod lifecycle;
pub mod name;
pub mod paths;
pub mod protocol;
pub mod testdir;
pub mod text;
pub mod wrapper;

pub use self::basedir::get_base_test_dir;
pub use self::testdir::{get_test_dir, get_test_dir_name, try_get_test_dir};
