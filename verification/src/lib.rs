//! Inventory of network-attached cloud resources, rendered as a spreadsheet
//! workbook.
//!
//! The core of the crate is the command-outcome classifier in [`outcome`]:
//! it interprets the exit status and diagnostic text of an external
//! cloud-inventory CLI and distinguishes an empty result from a disabled
//! API, a permission problem, or an unexpected failure.  The sheet builders
//! in [`sheet`] turn the typed records of [`records`] into tabular sheets
//! of a workbook, one sheet per resource kind.

pub mod outcome;
pub mod records;
pub mod sheet;
pub mod text;
pub mod workbook;
