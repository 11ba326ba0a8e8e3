//! Request and response shapes of the user-facing routes.

pub mod basket;
pub mod home;
