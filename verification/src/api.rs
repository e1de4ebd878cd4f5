//! One module per REST resource.  Every endpoint follows the same
//! pattern: an immutable struct of fields, a builder that validates the
//! required ones, and an `Endpoint` impl that renders the path template
//! and collects the query parameters.

pub mod amendments;
pub mod bill_titles;
pub mod bound_congressional_record;
pub mod committee_code_communications;
pub mod committee_code_nominations;
pub mod committee_communication;
pub mod committee_print_text;
pub mod communication_number;
pub mod daily_congressional_record;
pub mod hearing;
pub mod house_requirement;
pub mod law_congress;
pub mod law_number;
pub mod member;
pub mod nomination_actions;
pub mod nomination_committees;
pub mod requirement_number;
pub mod specific_congress;
pub mod sponsored_legislation;
pub mod summaries;
pub mod summaries_bill_type;
pub mod treaty_actions;
pub mod treaty_number_actions;
pub mod treaty_suffix;
