//! Package registry logic for Move packages: text and URL rules, package
//! publication and download bookkeeping, collaborator management, search
//! parameters and the GitHub crawler's decisions.

pub mod text;
pub mod repo;
pub mod naming;
pub mod github;
pub mod crawler;
pub mod publish;
pub mod backfill;
pub mod downloads;
pub mod upload;
pub mod collaborators;
pub mod ownership;
pub mod invitation;
pub mod removal;
pub mod package_settings;
pub mod listing;
pub mod badge;
pub mod tokens;
pub mod pages;
pub mod emails;
