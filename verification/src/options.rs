use vstd::prelude::*;

verus! {

/// One independent inclusion switch. Each toggle names a region of a Markdown
/// document (or an inline construct) whose words are counted only while the
/// toggle is enabled.
#[derive(Clone, Copy, Debug, PartialEq, Eq, Structural)]
pub enum Toggle {
    InlineCode,
    BlockCode,
    Tables,
    Footnotes,
    BlockHtml,
    Blockquotes,
    Metadata,
    Headings,
}

/// An immutable configuration of the eight toggles.
///
/// The toggles are mutually independent: any combination is valid, and there
/// is no ordering among them. A value is built once, read by a counting pass,
/// and never mutated by it.
#[derive(Clone, Copy, Debug, PartialEq, Eq, Structural)]
pub struct Options {
    pub inline_code: bool,
    pub block_code: bool,
    pub tables: bool,
    pub footnotes: bool,
    pub block_html: bool,
    pub blockquotes: bool,
    pub metadata: bool,
    pub headings: bool,
}

impl Options {
    /// Whether the given toggle is enabled in this configuration.
    pub open spec fn has(self, t: Toggle) -> bool {
        match t {
            Toggle::InlineCode => self.inline_code,
            Toggle::BlockCode => self.block_code,
            Toggle::Tables => self.tables,
            Toggle::Footnotes => self.footnotes,
            Toggle::BlockHtml => self.block_html,
            Toggle::Blockquotes => self.blockquotes,
            Toggle::Metadata => self.metadata,
            Toggle::Headings => self.headings,
        }
    }

    /// The configuration with every toggle disabled.
    pub open spec fn spec_empty() -> Options {
        Options {
            inline_code: false,
            block_code: false,
            tables: false,
            footnotes: false,
            block_html: false,
            blockquotes: false,
            metadata: false,
            headings: false,
        }
    }

    /// The configuration with every toggle enabled.
    pub open spec fn spec_all() -> Options {
        Options {
            inline_code: true,
            block_code: true,
            tables: true,
            footnotes: true,
            block_html: true,
            blockquotes: true,
            metadata: true,
            headings: true,
        }
    }

    /// The default preset: inline code, tables, footnotes, block HTML and
    /// headings count; block code, blockquotes and metadata do not.
    pub open spec fn spec_default() -> Options {
        Options {
            inline_code: true,
            block_code: false,
            tables: true,
            footnotes: true,
            block_html: true,
            blockquotes: false,
            metadata: false,
            headings: true,
        }
    }

    /// `other` enables every toggle that `self` enables, and possibly more.
    pub open spec fn le(self, other: Options) -> bool {
        &&& (self.inline_code ==> other.inline_code)
        &&& (self.block_code ==> other.block_code)
        &&& (self.tables ==> other.tables)
        &&& (self.footnotes ==> other.footnotes)
        &&& (self.block_html ==> other.block_html)
        &&& (self.blockquotes ==> other.blockquotes)
        &&& (self.metadata ==> other.metadata)
        &&& (self.headings ==> other.headings)
    }

    /// The configuration with every toggle disabled.
    pub fn empty() -> (r: Options)
        ensures
            r == Options::spec_empty(),
    {
        Options {
            inline_code: false,
            block_code: false,
            tables: false,
            footnotes: false,
            block_html: false,
            blockquotes: false,
            metadata: false,
            headings: false,
        }
    }

    /// The configuration with every toggle enabled.
    pub fn all() -> (r: Options)
        ensures
            r == Options::spec_all(),
    {
        Options {
            inline_code: true,
            block_code: true,
            tables: true,
            footnotes: true,
            block_html: true,
            blockquotes: true,
            metadata: true,
            headings: true,
        }
    }

    /// Whether the given toggle is enabled.
    pub fn contains(&self, t: Toggle) -> (r: bool)
        ensures
            r == self.has(t),
    {
        match t {
            Toggle::InlineCode => self.inline_code,
            Toggle::BlockCode => self.block_code,
            Toggle::Tables => self.tables,
            Toggle::Footnotes => self.footnotes,
            Toggle::BlockHtml => self.block_html,
            Toggle::Blockquotes => self.blockquotes,
            Toggle::Metadata => self.metadata,
            Toggle::Headings => self.headings,
        }
    }

    /// This configuration with one more toggle enabled.
    pub fn enable(self, t: Toggle) -> (r: Options)
        ensures
            r.has(t),
            forall|u: Toggle| u != t ==> r.has(u) == self.has(u),
            self.le(r),
    {
        let mut r = self;
        match t {
            Toggle::InlineCode => r.inline_code = true,
            Toggle::BlockCode => r.block_code = true,
            Toggle::Tables => r.tables = true,
            Toggle::Footnotes => r.footnotes = true,
            Toggle::BlockHtml => r.block_html = true,
            Toggle::Blockquotes => r.blockquotes = true,
            Toggle::Metadata => r.metadata = true,
            Toggle::Headings => r.headings = true,
        }
        r
    }

    /// Build a configuration from one flag per toggle; `all` overrides the
    /// rest and enables everything.
    pub fn from_flags(
        all: bool,
        metadata: bool,
        blockquotes: bool,
        headings: bool,
        footnotes: bool,
        tables: bool,
        inline_code: bool,
        block_code: bool,
        block_html: bool,
    ) -> (r: Options)
        ensures
            all ==> r == Options::spec_all(),
            !all ==> r == (Options {
                inline_code,
                block_code,
                tables,
                footnotes,
                block_html,
                blockquotes,
                metadata,
                headings,
            }),
    {
        if all {
            Options::all()
        } else {
            Options {
                inline_code,
                block_code,
                tables,
                footnotes,
                block_html,
                blockquotes,
                metadata,
                headings,
            }
        }
    }
}

impl Default for Options {
    /// The default preset.
    fn default() -> (r: Options)
        ensures
            r == Options::spec_default(),
    {
        Options {
            inline_code: true,
            block_code: false,
            tables: true,
            footnotes: true,
            block_html: true,
            blockquotes: false,
            metadata: false,
            headings: true,
        }
    }
}

} // verus!
