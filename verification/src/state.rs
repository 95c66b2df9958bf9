use vstd::prelude::*;

use crate::events::TagKind;
use crate::options::Options;

verus! {

/// The mathematical image of the context state: which structural regions are
/// open at a point of the event stream. Blockquotes nest, so their depth is a
/// number; the other regions do not nest with themselves, so a boolean each.
pub struct StateModel {
    pub in_code_block: bool,
    pub blockquote_depth: nat,
    pub in_metadata_block: bool,
    pub in_footnote: bool,
    pub in_table: bool,
    pub in_heading: bool,
}

impl StateModel {
    /// The state at the start of a pass: nothing is open.
    pub open spec fn init() -> StateModel {
        StateModel {
            in_code_block: false,
            blockquote_depth: 0,
            in_metadata_block: false,
            in_footnote: false,
            in_table: false,
            in_heading: false,
        }
    }

    /// Text read in this state counts iff, for every currently open region,
    /// the corresponding toggle is enabled. With nothing open, everything
    /// counts.
    pub open spec fn allowed(self, options: Options) -> bool {
        &&& (!self.in_code_block || options.block_code)
        &&& (self.blockquote_depth == 0 || options.blockquotes)
        &&& (!self.in_metadata_block || options.metadata)
        &&& (!self.in_footnote || options.footnotes)
        &&& (!self.in_table || options.tables)
        &&& (!self.in_heading || options.headings)
    }

    /// The transition a start event makes: open the region of the given kind.
    pub open spec fn step_start(self, kind: TagKind) -> StateModel {
        match kind {
            TagKind::CodeBlock => StateModel { in_code_block: true, ..self },
            TagKind::BlockQuote => StateModel { blockquote_depth: self.blockquote_depth + 1, ..self },
            TagKind::MetadataBlock => StateModel { in_metadata_block: true, ..self },
            TagKind::FootnoteDefinition => StateModel { in_footnote: true, ..self },
            TagKind::Table => StateModel { in_table: true, ..self },
            TagKind::Heading => StateModel { in_heading: true, ..self },
            TagKind::Other => self,
        }
    }

    /// The transition an end event makes: close the region of the given kind.
    /// A well-formed stream pairs every close with an earlier open; an
    /// unmatched blockquote close, which such a stream never yields, leaves
    /// the depth at zero.
    pub open spec fn step_end(self, kind: TagKind) -> StateModel {
        match kind {
            TagKind::CodeBlock => StateModel { in_code_block: false, ..self },
            TagKind::BlockQuote => StateModel {
                blockquote_depth: if self.blockquote_depth > 0 {
                    (self.blockquote_depth - 1) as nat
                } else {
                    0
                },
                ..self
            },
            TagKind::MetadataBlock => StateModel { in_metadata_block: false, ..self },
            TagKind::FootnoteDefinition => StateModel { in_footnote: false, ..self },
            TagKind::Table => StateModel { in_table: false, ..self },
            TagKind::Heading => StateModel { in_heading: false, ..self },
            TagKind::Other => self,
        }
    }
}

/// The context state of one counting pass, mutated only by the engine as it
/// walks the event stream in order.
pub struct State {
    in_code_block: bool,
    blockquote_level: usize,
    in_metadata_block: bool,
    in_footnote: bool,
    in_table: bool,
    in_heading: bool,
}

impl View for State {
    type V = StateModel;

    closed spec fn view(&self) -> StateModel {
        StateModel {
            in_code_block: self.in_code_block,
            blockquote_depth: self.blockquote_level as nat,
            in_metadata_block: self.in_metadata_block,
            in_footnote: self.in_footnote,
            in_table: self.in_table,
            in_heading: self.in_heading,
        }
    }
}

impl State {
    /// A fresh state with nothing open.
    pub fn new() -> (r: State)
        ensures
            r@ == StateModel::init(),
    {
        State {
            in_code_block: false,
            blockquote_level: 0,
            in_metadata_block: false,
            in_footnote: false,
            in_table: false,
            in_heading: false,
        }
    }

    /// Whether text read in the current state counts under `options`.
    pub fn allowed_for(&self, options: &Options) -> (r: bool)
        ensures
            r == self@.allowed(*options),
    {
        (!self.in_code_block || options.block_code)
            && (!self.in_blockquote() || options.blockquotes)
            && (!self.in_metadata_block || options.metadata)
            && (!self.in_footnote || options.footnotes)
            && (!self.in_table || options.tables)
            && (!self.in_heading || options.headings)
    }

    /// Whether at least one blockquote is open.
    pub fn in_blockquote(&self) -> (r: bool)
        ensures
            r == (self@.blockquote_depth > 0),
    {
        self.blockquote_level > 0
    }

    /// Apply a start event of the given kind.
    pub fn start_tag(&mut self, kind: TagKind)
        requires
            kind == TagKind::BlockQuote ==> old(self)@.blockquote_depth < usize::MAX,
        ensures
            final(self)@ == old(self)@.step_start(kind),
    {
        match kind {
            TagKind::CodeBlock => self.in_code_block = true,
            TagKind::BlockQuote => self.blockquote_level = self.blockquote_level + 1,
            TagKind::MetadataBlock => self.in_metadata_block = true,
            TagKind::FootnoteDefinition => self.in_footnote = true,
            TagKind::Table => self.in_table = true,
            TagKind::Heading => self.in_heading = true,
            TagKind::Other => {}
        }
    }

    /// Apply an end event of the given kind.
    pub fn end_tag(&mut self, kind: TagKind)
        ensures
            final(self)@ == old(self)@.step_end(kind),
    {
        match kind {
            TagKind::CodeBlock => self.in_code_block = false,
            TagKind::BlockQuote => {
                if self.blockquote_level > 0 {
                    self.blockquote_level = self.blockquote_level - 1;
                }
            }
            TagKind::MetadataBlock => self.in_metadata_block = false,
            TagKind::FootnoteDefinition => self.in_footnote = false,
            TagKind::Table => self.in_table = false,
            TagKind::Heading => self.in_heading = false,
            TagKind::Other => {}
        }
    }
}

} // verus!
