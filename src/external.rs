//! Declarations of the markdown renderer's types and the calls into it.
use vstd::prelude::*;

verus! {

/// The renderer's line ending choice; its three variants are visible to proofs.
#[verifier::external_type_specification]
pub struct ExLineEnding(markdown::LineEnding);

/// The renderer's compile options. Every field is public and of a type Verus
/// knows, so the declaration exposes the real fields rather than hiding them.
#[verifier::external_type_specification]
pub struct ExCompileOptions(markdown::CompileOptions);

/// The compile options of the renderer's GFM preset: the crate's defaults
/// (`false`, line feed, no footnote strings) with only `gfm_tagfilter` on.
pub open spec fn gfm_compile_defaults() -> markdown::CompileOptions {
    markdown::CompileOptions {
        allow_any_img_src: false,
        allow_dangerous_html: false,
        allow_dangerous_protocol: false,
        default_line_ending: markdown::LineEnding::LineFeed,
        gfm_footnote_back_label: None,
        gfm_footnote_clobber_prefix: None,
        gfm_footnote_label_attributes: None,
        gfm_footnote_label_tag_name: None,
        gfm_footnote_label: None,
        gfm_task_list_item_checkable: false,
        gfm_tagfilter: true,
    }
}

/// Relies on `markdown::CompileOptions::gfm`, which is the derived `Default`
/// with `gfm_tagfilter` set.
pub assume_specification[ markdown::CompileOptions::gfm ]() -> (r: markdown::CompileOptions)
    ensures
        r == gfm_compile_defaults(),
;

/// What the renderer makes of a text under GFM parsing and the given compile
/// options: the HTML, or the reason it rejected the text.
pub uninterp spec fn gfm_html_outcome(text: Seq<char>, options: markdown::CompileOptions) -> Result<Seq<char>, Seq<char>>;

/// A rendering outcome with its strings seen as character sequences.
pub open spec fn outcome_view(r: Result<String, String>) -> Result<Seq<char>, Seq<char>> {
    match r {
        Ok(html) => Ok(html@),
        Err(reason) => Err(reason@),
    }
}

/// Relies on `markdown::to_html_with_options` with `markdown::ParseOptions::gfm()`
/// as parse options: its outcome depends on the text and the compile options
/// alone. A rejection is handed back as the message's `reason`.
#[verifier::external_body]
pub(crate) fn render_gfm(text: &str, compile: markdown::CompileOptions) -> (r: Result<String, String>)
    ensures
        outcome_view(r) == gfm_html_outcome(text@, compile),
{
    let options = markdown::Options { parse: markdown::ParseOptions::gfm(), compile };
    markdown::to_html_with_options(text, &options).map_err(|message| message.reason)
}

} // verus!
