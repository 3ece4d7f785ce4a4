//! Verified core of the press content server: roles and access guards,
//! session claims, password records and login decisions, request paths,
//! replies and the file-tree listing.

pub mod role;
pub mod claims;
pub mod jwt;
pub mod guard;
pub mod password;
pub mod config;
pub mod database;
pub mod reply;
pub mod login;
pub mod paths;
pub mod tree;
