pub mod correlate;
pub mod flow;
pub mod initiate;
pub mod model;
pub mod provider;
pub mod store;
