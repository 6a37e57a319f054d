//! Core of a terminal invoice manager: the screen/workflow state machines,
//! the wizard field editors, the calendar-date editor, fixed-point money
//! arithmetic, and the transactional cascading-delete protocol over the
//! billing hierarchy (profiles, clients, projects, invoices, line items).
//!
//! Terminal rendering, the SQL backend and mail transport live outside the
//! verified core and talk to it through plain values.

pub mod client_wizard;
pub mod clients;
pub mod clock;
pub mod config;
pub mod date;
pub mod email_wizard;
pub mod input;
pub mod invoice_gen;
pub mod invoice_wizard;
pub mod invoices;
pub mod models;
pub mod money;
pub mod profile_wizard;
pub mod profiles;
pub mod project_wizard;
pub mod projects;
pub mod selection;
pub mod session;
pub mod store;
pub mod text;
