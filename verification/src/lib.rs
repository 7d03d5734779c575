//! An in-memory store of RDF-style triples with namespace-qualified term
//! resolution, pattern-based retrieval, and derived typed views (constructs,
//! entanglements, characters, and a node/edge projection for visualization).
//!
//! Data flows one direction: parsed triples are bulk-loaded into the
//! [`store::TripleStore`], read-only pattern scans select triples, and the
//! view builders on [`views::SemanticProcessor`] compose scans into
//! domain-shaped results.

pub mod laws;
pub mod namespace;
pub mod store;
pub mod term;
pub mod text;
pub mod turtle;
pub mod views;

pub use term::Term;
pub use term::TermV;
pub use term::Triple;
pub use term::TripleV;
pub use views::Character;
pub use views::Construct;
pub use views::Entanglement;
pub use views::Gloss;
pub use views::GraphEdge;
pub use views::GraphNode;
pub use views::NetworkGraph;
pub use views::SemanticProcessor;
