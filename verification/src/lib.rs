//! Règles métier de Lebontroc, la plateforme de troc entre particuliers.

pub mod texte;
pub mod admin;
pub mod auth;
pub mod catalog;
pub mod trade;
pub mod payment;
pub mod shipping;
pub mod review;
pub mod health;
pub mod notification;
pub mod dispute;
pub mod moderation;
pub mod erreurs;
pub mod dto;
pub mod echanges;
pub mod litiges;
pub mod vitrine;
pub mod maintenance;
pub mod messagerie;
pub mod vue_troc;
pub mod evaluations;
pub mod administration;
pub mod jetons;
pub mod session;
pub mod double_auth;
pub mod jointures;
pub mod annonces;
pub mod parcours_troc;
pub mod debit;
pub mod configuration;
pub mod categories;
pub mod secrets;
