//! Parsing and reformatting of TypeScript source text through an outside
//! parser: a convenience layer over the generated output, with the option
//! defaulting and byte-order-mark handling done here in verified code and
//! everything else delegated.

use vstd::prelude::*;
use vstd::string::StrSliceExecFns;
use vstd::string::StringExecFns;

use crate::ts_format::{dprint_format, dprint_formatted, FormatError, TSFormat};

pub use deno_ast::ParsedSource as TS;

verus! {

#[verifier::external_type_specification]
#[verifier::external_body]
pub struct ExParsedSource(deno_ast::ParsedSource);

#[verifier::external_type_specification]
#[verifier::external_body]
pub struct ExParseDiagnostic(deno_ast::ParseDiagnostic);

/// Whether the module parser accepts the source text; every other parse
/// parameter is fixed by this module. Recoverable syntax errors are stored
/// as diagnostics on an accepted module, so rejection means a fatal parse
/// failure, not every invalid source.
pub uninterp spec fn ts_parse_ok(source: Seq<char>) -> bool;

/// The source text a parsed module holds.
pub uninterp spec fn parsed_text(ts: deno_ast::ParsedSource) -> Seq<char>;

/// The text with its leading byte-order marks removed; text that does not
/// start with one is unchanged.
pub open spec fn spec_strip_bom(s: Seq<char>) -> Seq<char>
    decreases s.len(),
{
    if s.len() > 0 && s[0] == '\u{feff}' {
        spec_strip_bom(s.subrange(1, s.len() as int))
    } else {
        s
    }
}

proof fn lemma_strip_bom_prefix(s: Seq<char>, k: int)
    requires
        0 <= k <= s.len(),
        forall|j: int| 0 <= j < k ==> s[j] == '\u{feff}',
        k == s.len() || s[k] != '\u{feff}',
    ensures
        spec_strip_bom(s) == s.subrange(k, s.len() as int),
    decreases k,
{
    if k == 0 {
        assert(s =~= s.subrange(0, s.len() as int));
    } else {
        let t = s.subrange(1, s.len() as int);
        lemma_strip_bom_prefix(t, k - 1);
        assert(t.subrange(k - 1, t.len() as int) =~= s.subrange(k, s.len() as int));
    }
}

/// A parse failure, carrying the parser's own diagnostic.
#[derive(Debug)]
pub struct ParseError {
    pub inner: deno_ast::ParseDiagnostic,
}

/// Relies on `deno_ast::parse_module`: whether it accepts the text depends
/// on the text alone (the specifier, media type and options are fixed
/// constants here), and the parsed module keeps the source text it was
/// given. A source with a leading byte-order mark is excluded: on such
/// input the parser strips the mark (and asserts against it in debug
/// builds), so the caller strips it first.
#[verifier::external_body]
fn parse_ts_module(source: String) -> (r: Result<deno_ast::ParsedSource, deno_ast::ParseDiagnostic>)
    requires
        source@.len() == 0 || source@[0] != '\u{feff}',
    ensures
        (r is Ok <==> ts_parse_ok(source@)),
        r matches Ok(ts) ==> parsed_text(ts) == source@,
{
    deno_ast::parse_module(deno_ast::ParseParams {
        specifier: deno_ast::ModuleSpecifier::parse("file:///dummy.ts").unwrap(),
        text: source.into(),
        media_type: deno_ast::MediaType::TypeScript,
        capture_tokens: true,
        scope_analysis: false,
        maybe_syntax: None,
    })
}

/// Relies on `deno_ast::ParsedSource::text`: the module's own source text.
#[verifier::external_body]
fn ts_text(ts: &deno_ast::ParsedSource) -> (r: String)
    ensures
        r@ == parsed_text(*ts),
{
    ts.text().to_string()
}

/// Parses a TypeScript source string into a module, or the parser's
/// diagnostic on a fatal parse failure. A leading byte-order mark is
/// removed before parsing; the parsed module holds the remaining text.
pub fn from_source(source: String) -> (r: Result<deno_ast::ParsedSource, ParseError>)
    ensures
        (r is Ok <==> ts_parse_ok(spec_strip_bom(source@))),
        r matches Ok(ts) ==> parsed_text(ts) == spec_strip_bom(source@),
{
    let n = source.as_str().unicode_len();
    let mut i: usize = 0;
    while i < n && source.as_str().get_char(i) == '\u{feff}'
        invariant
            0 <= i <= n,
            n == source@.len(),
            forall|j: int| 0 <= j < i ==> source@[j] == '\u{feff}',
        decreases n - i,
    {
        i += 1;
    }
    let stripped: String = source.as_str().substring_char(i, n).to_string();
    proof {
        lemma_strip_bom_prefix(source@, i as int);
        assert(stripped@ =~= spec_strip_bom(source@));
    }
    match parse_ts_module(stripped) {
        Ok(ts) => Ok(ts),
        Err(e) => Err(ParseError { inner: e }),
    }
}

/// Reformats a parsed module's text. Absent options fall back to the
/// documented defaults (indent width 2, line width 80); text the formatter
/// finds already canonical comes back unchanged.
pub fn formatted(ts: &deno_ast::ParsedSource, config: Option<&TSFormat>) -> (r: Result<
    String,
    FormatError,
>)
    ensures
        ({
            let tab = match config {
                Some(c) => c.tab_size as int,
                None => 2,
            };
            let width = match config {
                Some(c) => c.line_width as int,
                None => 80,
            };
            let o = dprint_formatted(parsed_text(*ts), tab, width);
            &&& (r is Ok <==> o is Ok)
            &&& (r matches Ok(s) ==> ((o->Ok_0 matches Some(f) ==> s@ == f) && (o->Ok_0 is None
                ==> s@ == parsed_text(*ts))))
        }),
{
    let text = ts_text(ts);
    let tab: u8 = match config {
        Some(c) => c.tab_size,
        None => 2,
    };
    let width: u32 = match config {
        Some(c) => c.line_width,
        None => 80,
    };
    match dprint_format(text.clone(), tab, width) {
        Ok(Some(s)) => Ok(s),
        Ok(None) => Ok(text),
        Err(e) => Err(FormatError { inner: e }),
    }
}

} // verus!
