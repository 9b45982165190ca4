//! Verified core logic of the Olympus marketplace service: request
//! validation, role-based access control, money arithmetic, and the decision
//! procedures of the HTTP handlers (checkout, cart, payments, webhooks and
//! authentication), written as functions from plain values to plain values.
pub mod status;
pub mod text;
pub mod money;
pub mod auth_validation;
pub mod auth;
pub mod rbac;
pub mod checkout;
pub mod orders;
pub mod cart;
pub mod payments;
pub mod payment_api;
pub mod auth_api;
pub mod products;
pub mod admin;
pub mod audit;
pub mod health;
pub mod seller_analytics;
pub mod seller_dashboard;
pub mod seller_orders;
pub mod config;
pub mod db;
pub mod ai_api;
pub mod ai_client;
pub mod security;
