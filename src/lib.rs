//! A webhook receiver for a chat bot: request authentication, command
//! classification, fenced code block extraction, execution dispatch and
//! output validation.

pub mod commands;
pub mod discord;
pub mod dispatch;
pub mod extract;
pub mod gateway;
pub mod json;
pub mod response;
mod text;
pub mod validator;
