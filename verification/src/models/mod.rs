//! The data that the service stores and answers with.
pub mod onboarding;
pub mod sensor_data;
pub mod sleep;
pub mod user;
