//! Word counting for Markdown documents.
//!
//! The counter walks the structural event stream of a document and decides,
//! event by event, whether the text it carries joins the total. Eight
//! independent toggles ([`Options`]) choose which regions count: inline code,
//! block code, tables, footnotes, block HTML, blockquotes, metadata
//! front-matter and headings. Word boundaries follow Unicode segmentation
//! rules.

pub mod engine;
pub mod events;
pub mod html;
pub mod laws;
pub mod markdown;
pub mod options;
pub mod segment;
pub mod state;

pub use engine::count;
pub use engine::count_with_options;
pub use events::MdEvent;
pub use events::TagKind;
pub use options::Options;
pub use options::Toggle;
pub use state::State;
