//! Verified core of a small file-sharing server: accounts with permissions,
//! password-protected and expiring uploads, chunked uploads, sign-in cookies and
//! bearer tokens. Everything that touches the network, the database or the disk
//! lives in the application crate; this library decides what those effects are.

pub mod text;
pub mod status;
pub mod permissions;
pub mod models;
pub mod password;
pub mod basic_auth;
pub mod ids;
pub mod clock;
pub mod auth;
pub mod token;
pub mod config;
pub mod paths;
pub mod forms;
pub mod upload;
pub mod db;
pub mod download;
pub mod api;
pub mod accounts;
pub mod schedule;
pub mod views;
pub mod pages;
