pub mod confirm_subscription;
pub mod subscription;
