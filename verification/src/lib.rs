//! Core logic of a four-way intersection traffic simulation: vehicle motion,
//! traffic-light assignment, and spawn admission control.
pub mod roads;
pub mod sim;
pub mod vehicles;
