//! A single logistic neuron trained online on iris measurements: the
//! verified data handling around it (class selection, stratified sampling,
//! feature projection, loss history and the training cursor).
pub mod dataset;
pub mod features;
pub mod history;
pub mod iris;
pub mod state;
