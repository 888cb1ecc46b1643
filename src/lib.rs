//! Reverse index of the scripted method calls that scene and prefab assets make.
//!
//! The library holds the verified core: the document model, the search for
//! persistent call records, the reference index, the startup gate, the
//! classification of directory entries, and the log level filter.
pub mod model;
pub mod node;
pub mod extract;
pub mod index;
pub mod preprocess;
pub mod walk;
pub mod status;
pub mod api;
pub mod logger;
pub mod laws;
