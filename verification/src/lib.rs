//! A narrow, panic-free facade for building spreadsheet documents.
//!
//! The document itself is kept by the `rust_xlsxwriter` engine. This crate
//! owns one engine document per [`Workbook`], hands out stable worksheet
//! handles, checks calendar fields before they reach a cell, and folds the
//! engine's open-ended errors into a small closed set.

pub mod calendar;
pub mod engine;
pub mod error;
pub mod laws;
pub mod model;
pub mod workbook;

pub use calendar::{ExcelDate, ExcelDateTime};
pub use error::{EngineFault, ErrorView, XlsxWriterError};
pub use model::{CellValue, SheetView};
pub use workbook::Workbook;
