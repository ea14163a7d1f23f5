pub mod affiliation;
