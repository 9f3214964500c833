pub mod add_user;
pub mod delete_service;
pub mod edit_type;
pub mod get_users;
