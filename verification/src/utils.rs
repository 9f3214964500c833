pub mod check_auth_token;
pub mod clock;
pub mod get_token_data;
pub mod has_permission;
pub mod hash_password;
pub mod logs_service_side;
