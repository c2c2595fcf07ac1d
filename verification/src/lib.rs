//! Personal-finance domain library: money arithmetic, entities, the
//! decisions of the services, and the computations of the web layer.
pub mod texto;
pub mod dinero;
pub mod domain;
pub mod tiempo;
pub mod application;
pub mod presentation;
pub mod shared;
pub mod infrastructure;
