pub mod announcement;
pub mod request;
pub mod device_status;
pub mod session;
pub mod livestream;
pub mod device;
pub mod auth;
pub mod floor;
pub mod building;
pub mod queue;
