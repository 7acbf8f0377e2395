//! The decision content of plain-text-to-rich-document conversion: which
//! node the document wraps the text in, per style.  Assembling the JSON
//! envelope around that node is the caller's job.

use vstd::prelude::*;
use vstd::string::StringExecFns;

verus! {

/// Text styles a plain-text snippet can be rendered in.
#[derive(Clone, Copy, Debug, PartialEq, Eq, Structural)]
pub enum AdfStyle {
    Paragraph,
    Heading1,
    Heading2,
    Heading3,
    Codeblock,
}

/// Arguments for converting plain text into a rich-text document.
#[derive(Debug)]
pub struct TextToAdfParams {
    /// Plain text to convert.
    pub text: String,
    /// Text style.
    pub style: AdfStyle,
}

/// The node type a style maps onto.
pub open spec fn spec_adf_node_type(style: AdfStyle) -> Seq<char> {
    match style {
        AdfStyle::Paragraph => "paragraph"@,
        AdfStyle::Heading1 => "heading"@,
        AdfStyle::Heading2 => "heading"@,
        AdfStyle::Heading3 => "heading"@,
        AdfStyle::Codeblock => "codeBlock"@,
    }
}

/// The heading level a style carries, if any.
pub open spec fn spec_adf_heading_level(style: AdfStyle) -> Option<u8> {
    match style {
        AdfStyle::Paragraph => None,
        AdfStyle::Heading1 => Some(1u8),
        AdfStyle::Heading2 => Some(2u8),
        AdfStyle::Heading3 => Some(3u8),
        AdfStyle::Codeblock => None,
    }
}

/// The wrapping node of a rich-text document: its type and, for headings,
/// the level attribute.
pub struct AdfNodeShape {
    pub node_type: String,
    pub heading_level: Option<u8>,
}

/// Decides which node a style wraps its text in.
pub fn adf_node_shape(style: AdfStyle) -> (r: AdfNodeShape)
    ensures
        r.node_type@ == spec_adf_node_type(style),
        r.heading_level == spec_adf_heading_level(style),
{
    match style {
        AdfStyle::Paragraph => AdfNodeShape {
            node_type: String::from_str("paragraph"),
            heading_level: None,
        },
        AdfStyle::Heading1 => AdfNodeShape {
            node_type: String::from_str("heading"),
            heading_level: Some(1u8),
        },
        AdfStyle::Heading2 => AdfNodeShape {
            node_type: String::from_str("heading"),
            heading_level: Some(2u8),
        },
        AdfStyle::Heading3 => AdfNodeShape {
            node_type: String::from_str("heading"),
            heading_level: Some(3u8),
        },
        AdfStyle::Codeblock => AdfNodeShape {
            node_type: String::from_str("codeBlock"),
            heading_level: None,
        },
    }
}

} // verus!
