pub mod convert;
pub mod listing;
pub mod present;
pub mod reconcile;
pub mod session;
