//! Extraction of structured daily construction reports from spreadsheet
//! grids, together with the small session and upload decisions around it.
//!
//! A workbook is modelled as a sequence of sheets, each a name and a grid of
//! cell texts. The extractor projects every non-empty sheet onto one
//! `DailyReport`; all of it is verified against the spec functions of
//! `grid`, `scan`, `records` and `report`, and `laws` proves the properties
//! that hold of every workbook.

pub mod text;
pub mod grid;
pub mod scan;
pub mod records;
pub mod report;
pub mod laws;
pub mod auth;
pub mod project;
pub mod upload;
