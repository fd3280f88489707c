//! The operations offered to host scripts.
use vstd::prelude::*;
use vstd::string::StringExecFns;
use crate::external::{gfm_compile_defaults, gfm_html_outcome, outcome_view, render_gfm};
use crate::options::LuaCompileOptions;

verus! {

/// The renderer's HTML, or its rejection reason in place of the HTML.
pub open spec fn text_of_outcome(outcome: Result<Seq<char>, Seq<char>>) -> Seq<char> {
    match outcome {
        Ok(html) => html,
        Err(reason) => reason,
    }
}

/// The compile options used for a call: the record's own when one is given,
/// the renderer's GFM preset otherwise.
pub open spec fn compile_options_for(opts: Option<LuaCompileOptions>) -> markdown::CompileOptions {
    match opts {
        Some(o) => o.resolved(),
        None => gfm_compile_defaults(),
    }
}

/// The Markdown extension offered to a host: `to_html` and `gfm_options`.
pub struct MarkdownExtension;

impl MarkdownExtension {
    /// Hands back the HTML of a successful rendering, or the rejection reason
    /// as a plain string.
    pub fn html_or_reason(outcome: Result<String, String>) -> (r: String)
        ensures
            r@ == text_of_outcome(outcome_view(outcome)),
    {
        match outcome {
            Ok(html) => html,
            Err(reason) => reason,
        }
    }

    /// Renders `markdown` to HTML with GFM parsing; never fails: a rejection
    /// comes back as its reason.
    pub fn to_html(markdown: &str, opts: Option<LuaCompileOptions>) -> (r: String)
        ensures
            r@ == text_of_outcome(gfm_html_outcome(markdown@, compile_options_for(opts))),
    {
        let compile = match &opts {
            Some(o) => o.to_compile_options(),
            None => markdown::CompileOptions::gfm(),
        };
        Self::html_or_reason(render_gfm(markdown, compile))
    }

    /// The recommended GFM record offered to host scripts.
    pub fn gfm_options() -> (r: LuaCompileOptions)
        ensures
            r.is_gfm_options(),
    {
        LuaCompileOptions {
            allow_any_img_src: Some(false),
            allow_dangerous_html: Some(false),
            allow_dangerous_protocol: Some(false),
            default_line_ending: Some(String::from_str("crlf")),
            gfm_footnote_back_label: None,
            gfm_footnote_clobber_prefix: None,
            gfm_footnote_label_attributes: None,
            gfm_footnote_label_tag_name: None,
            gfm_footnote_label: None,
            gfm_task_list_item_checkable: Some(true),
            gfm_tagfilter: Some(true),
        }
    }
}

} // verus!
