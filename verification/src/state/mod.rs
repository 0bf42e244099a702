pub mod platform;
pub mod subscription_plan;
pub mod user_subscription;
