pub mod helper;

pub use crate::controller::utils::helper::get_credentials;
