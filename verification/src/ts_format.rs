//! The formatting emitter: it contributes nothing per entity; at finalize
//! time the caller hands it the concatenated output text and it reformats it
//! to a canonical style through an outside formatter.

use vstd::prelude::*;

use dprint_plugin_typescript::configuration::{
    ConfigurationBuilder, NextControlFlowPosition, QuoteStyle,
};
use dprint_plugin_typescript::{format_text, FormatTextOptions};

use crate::schema::{Enum, Struct};

verus! {

#[verifier::external_type_specification]
#[verifier::external_body]
pub struct ExAnyhowError(anyhow::Error);

/// The formatted text the formatter produces for the given source and
/// options: a pure function of them. `Ok(None)` means the text was already
/// canonical; the error case is a source text it cannot parse.
pub uninterp spec fn dprint_formatted(text: Seq<char>, indent: int, width: int) -> Result<
    Option<Seq<char>>,
    (),
>;

/// A formatting failure, carrying the formatter's own error.
#[derive(Debug)]
pub struct FormatError {
    pub inner: anyhow::Error,
}

/// Relies on `dprint_plugin_typescript::format_text`: formatting is a pure
/// function of the source text and the configuration — built here from the
/// given indent and line width, with hanging layout, multi-line layout kept,
/// single quotes and same-line control flow. `Ok(None)` means the input was
/// already formatted; `Err` a source text that does not parse.
#[verifier::external_body]
pub(crate) fn dprint_format(text: String, tab_size: u8, line_width: u32) -> (r: Result<
    Option<String>,
    anyhow::Error,
>)
    ensures
        (r is Ok) <==> (dprint_formatted(text@, tab_size as int, line_width as int) is Ok),
        r matches Ok(fo) ==> ((fo is Some <==> dprint_formatted(
            text@,
            tab_size as int,
            line_width as int,
        )->Ok_0 is Some) && (fo matches Some(f) ==> dprint_formatted(
            text@,
            tab_size as int,
            line_width as int,
        )->Ok_0 == Some(f@))),
{
    let config = ConfigurationBuilder::new()
        .indent_width(tab_size)
        .line_width(line_width)
        .prefer_hanging(true)
        .prefer_single_line(false)
        .quote_style(QuoteStyle::PreferSingle)
        .next_control_flow_position(NextControlFlowPosition::SameLine)
        .build();
    format_text(FormatTextOptions {
        path: std::path::Path::new("file.ts"),
        extension: Some("ts"),
        text,
        config: &config,
        external_formatter: None,
    })
}

/// The formatting options of one destination: indent width and maximum line
/// width.
pub struct TSFormat {
    pub tab_size: u8,
    pub line_width: u32,
}

impl Default for TSFormat {
    /// The documented defaults: indent width 2, line width 80.
    fn default() -> (r: Self)
        ensures
            r.tab_size == 2,
            r.line_width == 80,
    {
        TSFormat { tab_size: 2, line_width: 80 }
    }
}

impl TSFormat {
    /// This emitter contributes no prefix.
    pub fn prefix(&mut self) -> (r: String)
        ensures
            r@ == Seq::<char>::empty(),
    {
        String::new()
    }

    /// This emitter contributes nothing per struct.
    pub fn emit_struct(&mut self, s: &Struct) -> (r: String)
        ensures
            r@ == Seq::<char>::empty(),
    {
        String::new()
    }

    /// This emitter contributes nothing per enum.
    pub fn emit_enum(&mut self, e: &Enum) -> (r: String)
        ensures
            r@ == Seq::<char>::empty(),
    {
        String::new()
    }

    /// This emitter contributes nothing per alias.
    pub fn emit_alias(&mut self) -> (r: String)
        ensures
            r@ == Seq::<char>::empty(),
    {
        String::new()
    }

    /// Reformats the finalized output text with these options; `None` when
    /// the text was already canonical. Reading the text from its destination
    /// and writing the result back is the caller's business.
    pub fn format(&self, text: String) -> (r: Result<Option<String>, FormatError>)
        ensures
            ({
                let o = dprint_formatted(text@, self.tab_size as int, self.line_width as int);
                &&& (r is Ok <==> o is Ok)
                &&& (r matches Ok(fo) ==> ((fo is Some <==> o->Ok_0 is Some) && (fo matches Some(
                    f,
                ) ==> o->Ok_0 == Some(f@))))
            }),
    {
        match dprint_format(text, self.tab_size, self.line_width) {
            Ok(fo) => Ok(fo),
            Err(e) => Err(FormatError { inner: e }),
        }
    }
}

} // verus!
