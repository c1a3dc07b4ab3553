//! Handler logic, one module per resource.
pub mod admin;
pub mod case_response;
pub mod attorney;
pub mod config;
pub mod criminal_case;
pub mod deadline;
pub mod docket;
pub mod docs;
pub mod features;
pub mod federal_forms;
pub mod filing;
pub mod health;
pub mod judge;
pub mod opinion;
pub mod order;
pub mod pdf;
pub mod pdf_batch;
pub mod pdf_hexagonal;
pub mod pdf_simple;
pub mod pdf_working;
pub mod rules;
pub mod url_district;
