//! A small knowledge base of topics, subtopics and Markdown content.

pub mod config;
pub mod handlers;
pub mod listing;
pub mod markdown;
pub mod models;
pub mod order;
pub mod response;
pub mod schema;
pub mod store;
pub mod submission;
pub mod views;
