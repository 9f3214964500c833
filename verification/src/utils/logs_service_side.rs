pub mod check_service_token;
pub mod get_service_token_data;
