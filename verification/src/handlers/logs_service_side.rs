pub mod add_message;
