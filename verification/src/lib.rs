pub mod api_error;
pub mod api_response;
pub mod auth;
pub mod auth_middleware;
pub mod auth_service;
pub mod auth_repo_errors;
pub mod cache_errors;
pub mod config;
pub mod jwt;
pub mod login_response;
pub mod login_user;
pub mod logout;
pub mod refresh_token;
pub mod register_user;
pub mod schemas;
pub mod security;
pub mod status;
pub mod session_cache;
pub mod system;
pub mod text;
pub mod token;
pub mod token_uuid;
pub mod user;
pub mod user_email;
pub mod user_password;
pub mod user_store;
