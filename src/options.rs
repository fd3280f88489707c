//! The options record a host script hands over, and how it resolves to the
//! renderer's compile options.
use vstd::prelude::*;
use vstd::string::StringExecFns;

verus! {

/// A value found under a key of the host's options table.
#[derive(Debug, Clone)]
pub enum OptionValue {
    Boolean(bool),
    Text(String),
    /// Any other host value (a number, a table, a function, ...).
    Other,
}

/// One key of the host's options table with its value.
#[derive(Debug, Clone)]
pub struct OptionEntry {
    pub key: String,
    pub value: OptionValue,
}

/// What the host passed where an options record is expected.
#[derive(Debug, Clone)]
pub enum OptionsArgument {
    /// A mapping, given as its string-keyed entries.
    Table(Vec<OptionEntry>),
    /// Any other value, by the name of its host type.
    Other(String),
}

/// The options argument was present but not a mapping.
#[derive(Debug, Clone)]
pub enum OptionsError {
    NotATable { from: String },
}

/// The record of compile options a host may set; `None` means unset.
#[derive(Debug, Clone)]
pub struct LuaCompileOptions {
    pub allow_any_img_src: Option<bool>,
    pub allow_dangerous_html: Option<bool>,
    pub allow_dangerous_protocol: Option<bool>,
    pub default_line_ending: Option<String>,
    pub gfm_footnote_back_label: Option<String>,
    pub gfm_footnote_clobber_prefix: Option<String>,
    pub gfm_footnote_label_attributes: Option<String>,
    pub gfm_footnote_label_tag_name: Option<String>,
    pub gfm_footnote_label: Option<String>,
    pub gfm_task_list_item_checkable: Option<bool>,
    pub gfm_tagfilter: Option<bool>,
}

pub open spec fn flag_or(o: Option<bool>, default: bool) -> bool {
    match o {
        Some(b) => b,
        None => default,
    }
}

pub open spec fn text_view(o: Option<String>) -> Option<Seq<char>> {
    match o {
        Some(s) => Some(s@),
        None => None,
    }
}

/// `"lf"` selects a line feed; anything else, or nothing, a carriage return
/// and line feed.
pub open spec fn line_ending_for(o: Option<String>) -> markdown::LineEnding {
    match o {
        Some(s) => if s@ == "lf"@ {
            markdown::LineEnding::LineFeed
        } else {
            markdown::LineEnding::CarriageReturnLineFeed
        },
        None => markdown::LineEnding::CarriageReturnLineFeed,
    }
}

/// The value under `key`: the first entry that carries it.
pub open spec fn entry_for(entries: Seq<OptionEntry>, key: Seq<char>) -> Option<OptionValue>
    decreases entries.len(),
{
    if entries.len() == 0 {
        None
    } else if entries[0].key@ == key {
        Some(entries[0].value)
    } else {
        entry_for(entries.drop_first(), key)
    }
}

/// The boolean under `key`; a value of another type counts as unset.
pub open spec fn flag_entry(entries: Seq<OptionEntry>, key: Seq<char>) -> Option<bool> {
    match entry_for(entries, key) {
        Some(OptionValue::Boolean(b)) => Some(b),
        _ => None,
    }
}

/// The string under `key`; a value of another type counts as unset.
pub open spec fn text_entry(entries: Seq<OptionEntry>, key: Seq<char>) -> Option<Seq<char>> {
    match entry_for(entries, key) {
        Some(OptionValue::Text(s)) => Some(s@),
        _ => None,
    }
}

impl LuaCompileOptions {
    /// The record with every field unset.
    pub open spec fn unset() -> LuaCompileOptions {
        LuaCompileOptions {
            allow_any_img_src: None,
            allow_dangerous_html: None,
            allow_dangerous_protocol: None,
            default_line_ending: None,
            gfm_footnote_back_label: None,
            gfm_footnote_clobber_prefix: None,
            gfm_footnote_label_attributes: None,
            gfm_footnote_label_tag_name: None,
            gfm_footnote_label: None,
            gfm_task_list_item_checkable: None,
            gfm_tagfilter: None,
        }
    }

    /// The compile options this record stands for: unset flags are `false`
    /// but for the two GFM flags, which are `true`; strings pass through.
    pub open spec fn resolved(self) -> markdown::CompileOptions {
        markdown::CompileOptions {
            allow_any_img_src: flag_or(self.allow_any_img_src, false),
            allow_dangerous_html: flag_or(self.allow_dangerous_html, false),
            allow_dangerous_protocol: flag_or(self.allow_dangerous_protocol, false),
            default_line_ending: line_ending_for(self.default_line_ending),
            gfm_footnote_back_label: self.gfm_footnote_back_label,
            gfm_footnote_clobber_prefix: self.gfm_footnote_clobber_prefix,
            gfm_footnote_label_attributes: self.gfm_footnote_label_attributes,
            gfm_footnote_label_tag_name: self.gfm_footnote_label_tag_name,
            gfm_footnote_label: self.gfm_footnote_label,
            gfm_task_list_item_checkable: flag_or(self.gfm_task_list_item_checkable, true),
            gfm_tagfilter: flag_or(self.gfm_tagfilter, true),
        }
    }

    /// The record that `entries` set: each field from the entry under its own
    /// name, unset where there is none or where its value has the wrong type.
    pub open spec fn reads_entries(entries: Seq<OptionEntry>, r: LuaCompileOptions) -> bool {
        &&& r.allow_any_img_src == flag_entry(entries, "allow_any_img_src"@)
        &&& r.allow_dangerous_html == flag_entry(entries, "allow_dangerous_html"@)
        &&& r.allow_dangerous_protocol == flag_entry(entries, "allow_dangerous_protocol"@)
        &&& text_view(r.default_line_ending) == text_entry(entries, "default_line_ending"@)
        &&& text_view(r.gfm_footnote_back_label) == text_entry(entries, "gfm_footnote_back_label"@)
        &&& text_view(r.gfm_footnote_clobber_prefix) == text_entry(
            entries,
            "gfm_footnote_clobber_prefix"@,
        )
        &&& text_view(r.gfm_footnote_label_attributes) == text_entry(
            entries,
            "gfm_footnote_label_attributes"@,
        )
        &&& text_view(r.gfm_footnote_label_tag_name) == text_entry(
            entries,
            "gfm_footnote_label_tag_name"@,
        )
        &&& text_view(r.gfm_footnote_label) == text_entry(entries, "gfm_footnote_label"@)
        &&& r.gfm_task_list_item_checkable == flag_entry(entries, "gfm_task_list_item_checkable"@)
        &&& r.gfm_tagfilter == flag_entry(entries, "gfm_tagfilter"@)
    }

    /// The recommended GFM record: the three safety flags off, CRLF line
    /// endings, both GFM flags on, and no footnote strings.
    pub open spec fn is_gfm_options(self) -> bool {
        &&& self.allow_any_img_src == Some(false)
        &&& self.allow_dangerous_html == Some(false)
        &&& self.allow_dangerous_protocol == Some(false)
        &&& text_view(self.default_line_ending) == Some("crlf"@)
        &&& self.gfm_footnote_back_label.is_none()
        &&& self.gfm_footnote_clobber_prefix.is_none()
        &&& self.gfm_footnote_label_attributes.is_none()
        &&& self.gfm_footnote_label_tag_name.is_none()
        &&& self.gfm_footnote_label.is_none()
        &&& self.gfm_task_list_item_checkable == Some(true)
        &&& self.gfm_tagfilter == Some(true)
    }

    /// Reads the record out of a host table's entries. Unknown keys are
    /// ignored; a value of the wrong type leaves its field unset.
    pub fn from_entries(entries: &Vec<OptionEntry>) -> (r: LuaCompileOptions)
        ensures
            Self::reads_entries(entries@, r),
    {
        LuaCompileOptions {
            allow_any_img_src: flag_from(entries, "allow_any_img_src"),
            allow_dangerous_html: flag_from(entries, "allow_dangerous_html"),
            allow_dangerous_protocol: flag_from(entries, "allow_dangerous_protocol"),
            default_line_ending: text_from(entries, "default_line_ending"),
            gfm_footnote_back_label: text_from(entries, "gfm_footnote_back_label"),
            gfm_footnote_clobber_prefix: text_from(entries, "gfm_footnote_clobber_prefix"),
            gfm_footnote_label_attributes: text_from(entries, "gfm_footnote_label_attributes"),
            gfm_footnote_label_tag_name: text_from(entries, "gfm_footnote_label_tag_name"),
            gfm_footnote_label: text_from(entries, "gfm_footnote_label"),
            gfm_task_list_item_checkable: flag_from(entries, "gfm_task_list_item_checkable"),
            gfm_tagfilter: flag_from(entries, "gfm_tagfilter"),
        }
    }

    /// Reads the record out of the host's options argument, which must be a
    /// table; any other value is refused with the name of its type.
    pub fn from_argument(arg: &OptionsArgument) -> (r: Result<LuaCompileOptions, OptionsError>)
        ensures
            match arg {
                OptionsArgument::Table(entries) => r is Ok && Self::reads_entries(
                    entries@,
                    r->Ok_0,
                ),
                OptionsArgument::Other(name) => r is Err && (match r->Err_0 {
                    OptionsError::NotATable { from } => from@ == name@,
                }),
            },
    {
        match arg {
            OptionsArgument::Table(entries) => Ok(Self::from_entries(entries)),
            OptionsArgument::Other(name) => Err(OptionsError::NotATable { from: name.clone() }),
        }
    }

    /// Resolves the record into the renderer's compile options.
    pub fn to_compile_options(&self) -> (r: markdown::CompileOptions)
        ensures
            r == self.resolved(),
    {
        markdown::CompileOptions {
            allow_any_img_src: flag_or_default(self.allow_any_img_src, false),
            allow_dangerous_html: flag_or_default(self.allow_dangerous_html, false),
            allow_dangerous_protocol: flag_or_default(self.allow_dangerous_protocol, false),
            default_line_ending: line_ending_of(&self.default_line_ending),
            gfm_footnote_back_label: copy_text(&self.gfm_footnote_back_label),
            gfm_footnote_clobber_prefix: copy_text(&self.gfm_footnote_clobber_prefix),
            gfm_footnote_label_attributes: copy_text(&self.gfm_footnote_label_attributes),
            gfm_footnote_label_tag_name: copy_text(&self.gfm_footnote_label_tag_name),
            gfm_footnote_label: copy_text(&self.gfm_footnote_label),
            gfm_task_list_item_checkable: flag_or_default(self.gfm_task_list_item_checkable, true),
            gfm_tagfilter: flag_or_default(self.gfm_tagfilter, true),
        }
    }
}

/// Every boolean field left unset resolves to its default: `false`, but
/// `true` for the two GFM flags.
pub proof fn lemma_unset_flags_take_defaults(o: LuaCompileOptions)
    ensures
        o.allow_any_img_src is None ==> !o.resolved().allow_any_img_src,
        o.allow_dangerous_html is None ==> !o.resolved().allow_dangerous_html,
        o.allow_dangerous_protocol is None ==> !o.resolved().allow_dangerous_protocol,
        o.gfm_task_list_item_checkable is None ==> o.resolved().gfm_task_list_item_checkable,
        o.gfm_tagfilter is None ==> o.resolved().gfm_tagfilter,
{
}

/// `"lf"` resolves to a line feed; any other string, or none, to a carriage
/// return and line feed.
pub proof fn lemma_line_ending_resolution(o: LuaCompileOptions)
    ensures
        text_view(o.default_line_ending) == Some("lf"@) ==> o.resolved().default_line_ending
            == markdown::LineEnding::LineFeed,
        text_view(o.default_line_ending) != Some("lf"@) ==> o.resolved().default_line_ending
            == markdown::LineEnding::CarriageReturnLineFeed,
{
}

/// Resolving the recommended GFM record gives the same compile options as
/// resolving a record with nothing set.
pub proof fn lemma_gfm_options_resolve_as_unset(o: LuaCompileOptions)
    requires
        o.is_gfm_options(),
    ensures
        o.resolved() == LuaCompileOptions::unset().resolved(),
{
    reveal_strlit("crlf");
    reveal_strlit("lf");
    assert("crlf"@ != "lf"@) by {
        assert("crlf"@.len() != "lf"@.len());
    }
    let s = o.default_line_ending->Some_0;
    assert(s@ != "lf"@);
}

fn flag_or_default(o: Option<bool>, default: bool) -> (r: bool)
    ensures
        r == flag_or(o, default),
{
    match o {
        Some(b) => b,
        None => default,
    }
}

fn copy_text(o: &Option<String>) -> (r: Option<String>)
    ensures
        r == *o,
{
    match o {
        Some(s) => Some(s.clone()),
        None => None,
    }
}

/// The value under `key` in `entries`: the first entry that carries it.
pub fn find_entry<'a>(entries: &'a Vec<OptionEntry>, key: &str) -> (r: Option<&'a OptionValue>)
    ensures
        match r {
            Some(v) => entry_for(entries@, key@) == Some(*v),
            None => entry_for(entries@, key@).is_none(),
        },
{
    let wanted = String::from_str(key);
    let mut i: usize = 0;
    assert(entries@.subrange(0, entries@.len() as int) =~= entries@);
    while i < entries.len()
        invariant
            i <= entries@.len(),
            wanted@ == key@,
            entry_for(entries@, key@) == entry_for(entries@.subrange(i as int, entries@.len() as int), key@),
        decreases entries.len() - i,
    {
        proof {
            let rest = entries@.subrange(i as int, entries@.len() as int);
            assert(rest.drop_first() =~= entries@.subrange(i + 1, entries@.len() as int));
        }
        if entries[i].key == wanted {
            return Some(&entries[i].value);
        }
        i = i + 1;
    }
    None
}

/// The boolean under `key`; a value of another type counts as unset.
fn flag_from(entries: &Vec<OptionEntry>, key: &str) -> (r: Option<bool>)
    ensures
        r == flag_entry(entries@, key@),
{
    match find_entry(entries, key) {
        Some(OptionValue::Boolean(b)) => Some(*b),
        _ => None,
    }
}

/// The string under `key`; a value of another type counts as unset.
fn text_from(entries: &Vec<OptionEntry>, key: &str) -> (r: Option<String>)
    ensures
        text_view(r) == text_entry(entries@, key@),
{
    match find_entry(entries, key) {
        Some(OptionValue::Text(s)) => Some(s.clone()),
        _ => None,
    }
}

/// Maps the host's line ending name onto the renderer's line ending.
pub fn line_ending_of(o: &Option<String>) -> (r: markdown::LineEnding)
    ensures
        r == line_ending_for(*o),
{
    match o {
        Some(s) => {
            if *s == String::from_str("lf") {
                markdown::LineEnding::LineFeed
            } else {
                markdown::LineEnding::CarriageReturnLineFeed
            }
        },
        None => markdown::LineEnding::CarriageReturnLineFeed,
    }
}

} // verus!
