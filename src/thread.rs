pub use crate::task::spawn_local;
