//! Domain logic of the lightr server: validated e-mail addresses,
//! password policy and hashing, users and the HTTP answers to
//! refused sign-ups.

pub mod domain;
pub mod handlers;
pub mod http;
pub mod text;
pub mod time;
