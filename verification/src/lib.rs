//! Verified core rules of the Pratibha institute ERP back end: text
//! normalisation, notification messages, payload validation, paging and
//! query building, and the stock, library and fee bookkeeping decisions.

pub mod text;
pub mod jwt;
pub mod sms;
pub mod whatsapp;
pub mod errors;
pub mod dates;
pub mod paging;
pub mod query;
pub mod sql_text;
pub mod filters;
pub mod finance_queries;
pub mod hostel;
pub mod transport;
pub mod inventory;
pub mod library;
pub mod ids;
pub mod fees;
pub mod todos;
pub mod password;
pub mod books;
pub mod members;
