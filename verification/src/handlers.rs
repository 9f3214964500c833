pub mod add_user;
pub mod logs_service_side;
pub mod logs_user_side;
pub mod user;
