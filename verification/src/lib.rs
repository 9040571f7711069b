//! Scraper core for a public clinic-scheduling site: classifies scraped
//! name/date strings, extracts clinic records from parsed pages, drives
//! pagination with waiting-room detection, and formats the report.

pub mod driver;
pub mod page;
pub mod record;
pub mod report;
pub mod text;
