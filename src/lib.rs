//! Configuration model, document rendering and launch decisions for a
//! disposable Windows Sandbox session.

pub mod feature;
pub mod markup;
pub mod sandbox;
