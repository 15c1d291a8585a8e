//! Notification management: the notification entity and its lifecycle, the
//! storage interface the service consumes, and the service that orchestrates
//! both. Every function here is verified against the contract written on it.

pub mod configuration;
pub mod entity;
pub mod error;
pub mod identifier;
pub mod laws;
pub mod notification;
pub mod repository;
pub mod rest;
pub mod service;
pub mod time;
