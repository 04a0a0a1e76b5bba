//! Conversion of decoded dBase table records into CSV text.
//!
//! The library holds the table's values as plain data, renders each field
//! value as one text cell, projects every record onto the column list taken
//! from the first record, and encodes the resulting rows as CSV bytes.

pub mod dates;
pub mod value;
pub mod record;
pub mod table;
pub mod paths;
