//! Workers that run operations against the table.

pub mod db;
