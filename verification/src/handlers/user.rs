pub mod admin;
pub mod change_password;
pub mod login;
pub mod set_user_permissions;
