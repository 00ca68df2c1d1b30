pub mod db_models;
pub mod messages;
pub mod new_user;
