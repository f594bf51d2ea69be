//! Verified core of a real-time chat server: configuration defaults,
//! domain models, the service layer's decision rules, cursor pagination,
//! GraphQL error mapping and an in-memory chat room state.

pub mod config;
pub mod text;
pub mod ids;
pub mod domain;
pub mod service_errors;
pub mod api_errors;
pub mod api_types;
pub mod api_resolvers;
pub mod pagination;
pub mod records;
pub mod service_rules;
pub mod idempotency;
pub mod cache_plan;
pub mod seeding;
pub mod chat_models;
pub mod chat_state;
pub mod clock;
pub mod chat_resolvers;
