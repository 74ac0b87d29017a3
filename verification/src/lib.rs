//! The decision logic of a trading engine.

pub mod api;
pub mod api_types;
pub mod asset_processor;
pub mod channel_utils;
pub mod clock;
pub mod command_channel;
pub mod config;
pub mod config_watcher;
pub mod crash_detector;
pub mod engine;
pub mod engine_laws;
pub mod execution_manager;
pub mod feature_engine;
pub mod features;
pub mod heartbeat;
pub mod idempotency;
pub mod idempotency_laws;
pub mod indicators;
pub mod journal;
pub mod kill_switch;
pub mod large_pages;
pub mod metrics;
pub mod order_lifecycle;
pub mod order_state_machine;
pub mod order_tracker;
pub mod portfolio;
pub mod prometheus;
pub mod quantity;
pub mod rate_limiter;
pub mod recovery;
pub mod sorting;
pub mod status_text;
pub mod str_map;
pub mod symbol_registry;
pub mod system_state;
pub mod telemetry;
pub mod text;
pub mod threading;
pub mod tick_reactor;
pub mod validator;
