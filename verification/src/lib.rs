//! Contact-message submission: origin policy, bot-check interpretation,
//! message validation, record layout and response composition.
pub mod app_state;
pub mod config;
pub mod contact_commands;
pub mod contact_message_repository;
pub mod contact_message_service;
pub mod cors;
pub mod entity;
pub mod enums;
pub mod exceptions;
pub mod health_check;
pub mod http;
pub mod json;
pub mod repository;
pub mod request_validation_service;
pub mod requests;
pub mod responses;
pub mod text;
