//! Verified core of the trance idle-screensaver daemon and its command-line client.

pub mod text;
pub mod idle_decision;
pub mod monitor;
pub mod inhibit;
pub mod saver;
pub mod scale;
pub mod config;
pub mod commands;
pub mod status;
pub mod idle_logic;
pub mod topology;
pub mod layout;
pub mod auth;
pub mod clock;
pub mod logind;
pub mod doctor;
pub mod self_update;
pub mod cli_config;
pub mod cli;
pub mod interactive;
pub mod update_report;
pub mod paths;
pub mod startup;
pub mod bug_report;
pub mod service;
pub mod daemon_args;
pub mod failsafe;
pub mod idle_loop;
pub mod persistence;
pub mod runner_protocol;
