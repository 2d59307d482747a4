//! Verified request logic of the Roya back office: what its web and JSON routes
//! decide, build and refuse, apart from the network and the database.

pub mod access;
pub mod accounts;
pub mod actors;
pub mod amount;
pub mod answer;
pub mod currency;
pub mod customers;
pub mod date;
pub mod documents;
pub mod drawer;
pub mod error;
pub mod html;
pub mod identity;
pub mod inventory;
pub mod localization;
pub mod movements;
pub mod payments;
pub mod permission;
pub mod prices;
pub mod product_detail;
pub mod product_filter;
pub mod product_forms;
pub mod receipts;
pub mod records;
pub mod refusal;
pub mod start;
pub mod text;
pub mod views;
