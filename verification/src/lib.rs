//! Core of a terminal-activity simulator: a toolkit of randomized content
//! generators, a cancellable output engine modelled as scripted stages, a
//! shared run state carrying the exit signal, and the module contract that
//! every simulated program implements.

pub mod composer;
pub mod docker_image_rm;
pub mod engine;
pub mod generators;
pub mod i18n;
pub mod module;
pub mod state;
