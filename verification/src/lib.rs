//! A social blogging platform's data layer: users, follow relationships,
//! articles with tags, and comments, together with the response shapes the
//! HTTP layer serialises. Every table operation is specified against a
//! mathematical model of the store and verified.

pub mod article;
pub mod comment;
pub mod db;
pub mod error;
pub mod response;
pub mod text;
pub mod timestamp;
pub mod user;
