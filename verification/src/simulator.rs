//! A simulated DALI bus: timing, control gear, bus and scheduler.
pub mod gear;
pub mod gear_check;
pub mod scheduler;
pub mod timing;
pub mod sim_bus;
pub mod sender;
pub mod gear_config;
