pub mod regenerate_service_token;
