//! Durable control plane for worker-executed migration tasks.
pub mod agenda;
pub mod artifact;
pub mod assembly;
pub mod attempts;
pub mod bootstrap;
pub mod candidate_config;
pub mod candidate_record;
pub mod command;
pub mod contexts;
pub mod control;
pub mod controller;
pub mod digest;
pub mod episodes;
pub mod events;
pub mod headers;
pub mod identity;
pub mod identity_admin;
pub mod interaction;
pub mod json;
pub mod jsonl;
pub mod migrations;
pub mod ordered;
pub mod paths;
pub mod proto;
pub mod provider;
pub mod redaction;
pub mod reducer;
pub mod rendering;
pub mod repository;
pub mod runtime;
pub mod sanitizer;
pub mod server_config;
pub mod status;
pub mod storage;
pub mod text;
pub mod tools;
pub mod transport;
pub mod vault;
pub mod wire;
