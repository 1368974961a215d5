//! Extraction and reconciliation of mass-layoff notice records.
//!
//! The library turns two loosely structured sources into one unified
//! collection of typed records: a markup listing page (the current week's
//! notices) and a year-to-date spreadsheet.  Markup documents and workbooks
//! are modelled as plain-value trees and tables owned by this crate; the
//! surrounding binary converts whatever parsing library it uses into these
//! models and performs all network and file-system work.
pub mod dates;
pub mod error;
pub mod markup;
pub mod navigator;
pub mod notice;
pub mod paragraph;
pub mod numfmt;
pub mod scraper;
pub mod spreadsheet;
pub mod staging;
pub mod textutil;
