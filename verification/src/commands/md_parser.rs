//! Markdown to safe markup.

use vstd::prelude::*;

verus! {

/// The delimiter of the front matter that is left out of the markup.
pub const FRONT_MATTER_DELIMITER: &'static str = "---";

/// The tag that keeps one attribute more than the sanitizer allows by default.
pub const HIGHLIGHTED_TAG: &'static str = "code";

/// The attribute that `code` keeps: code highlighting goes by it.
pub const HIGHLIGHTED_ATTRIBUTE: &'static str = "class";

/// The markup of a markdown text.
#[derive(Debug, Clone, PartialEq, Eq)]
pub struct MdResponse {
    pub markup: String,
}

/// How markdown is rendered.
#[derive(Debug, Clone, PartialEq, Eq)]
pub struct MarkdownOptions {
    /// Detect links in plain text.
    pub autolink: bool,
    /// Detect tables.
    pub table: bool,
    /// Detect task lists.
    pub tasklist: bool,
    /// Leave out front matter that this delimiter encloses.
    pub front_matter_delimiter: Option<String>,
    /// Let raw HTML through.
    pub unsafe_: bool,
    /// Render soft line breaks as hard ones.
    pub hardbreaks: bool,
}

impl MarkdownOptions {
    /// The options that the application renders with: links, tables and task
    /// lists are detected, front matter between `---` is left out, raw HTML
    /// is let through to the sanitizer, and line breaks are hard.
    pub fn application() -> (options: MarkdownOptions)
        ensures
            options.autolink,
            options.table,
            options.tasklist,
            options.front_matter_delimiter.deep_view() == Some(FRONT_MATTER_DELIMITER@),
            options.unsafe_,
            options.hardbreaks,
    {
        MarkdownOptions {
            autolink: true,
            table: true,
            tasklist: true,
            front_matter_delimiter: Some(FRONT_MATTER_DELIMITER.to_string()),
            unsafe_: true,
            hardbreaks: true,
        }
    }
}

/// The HTML that comrak renders for the markdown `md`, with the given
/// extensions and render options set and every other option at its default.
pub uninterp spec fn comrak_html(
    md: Seq<char>,
    autolink: bool,
    table: bool,
    tasklist: bool,
    front_matter_delimiter: Option<Seq<char>>,
    unsafe_: bool,
    hardbreaks: bool,
) -> Seq<char>;

/// The HTML that ammonia leaves of `html` when it cleans with its default
/// settings and, in addition, lets `attribute` stand on `tag`.
pub uninterp spec fn ammonia_clean(html: Seq<char>, tag: Seq<char>, attribute: Seq<char>) -> Seq<
    char,
>;

/// Calls `comrak::markdown_to_html` with default options in which the six
/// fields of `options` are set. The contract only names what comes back:
/// comrak renders the same text the same way every time. That it returns for
/// every markdown text, without a panic, is taken from comrak: its
/// documentation names no input that it refuses, and nothing here proves it.
#[verifier::external_body]
fn markdown_to_html(md: &str, options: &MarkdownOptions) -> (html: String)
    ensures
        html@ == comrak_html(
            md@,
            options.autolink,
            options.table,
            options.tasklist,
            options.front_matter_delimiter.deep_view(),
            options.unsafe_,
            options.hardbreaks,
        ),
{
    let mut comrak_options = comrak::ComrakOptions::default();
    comrak_options.extension.autolink = options.autolink;
    comrak_options.extension.table = options.table;
    comrak_options.extension.tasklist = options.tasklist;
    comrak_options.extension.front_matter_delimiter = options.front_matter_delimiter.clone();
    comrak_options.render.unsafe_ = options.unsafe_;
    comrak_options.render.hardbreaks = options.hardbreaks;
    comrak::markdown_to_html(md, &comrak_options)
}

/// Calls `clean` on an `ammonia::Builder` with default settings to which
/// `attribute` was added for `tag` by `add_tag_attributes`, and takes the
/// document as text. The contract only names what comes back. Ammonia
/// refuses, by a panic, a `rel` of its own on `a` and any attribute on the
/// tags whose content it drops, `script` and `style`: these are left out.
#[verifier::external_body]
fn clean_html(html: &str, tag: &str, attribute: &str) -> (clean: String)
    requires
        !(tag@ == "a"@ && attribute@ == "rel"@),
        tag@ != "script"@,
        tag@ != "style"@,
    ensures
        clean@ == ammonia_clean(html@, tag@, attribute@),
{
    ammonia::Builder::new().add_tag_attributes(tag, &[attribute]).clean(html).to_string()
}

/// The markup that is safe to show for the markdown `md`: rendered with the
/// application's options, then cleaned, with `class` let stand on `code`.
pub open spec fn safe_markup(md: Seq<char>) -> Seq<char> {
    ammonia_clean(
        comrak_html(md, true, true, true, Some(FRONT_MATTER_DELIMITER@), true, true),
        HIGHLIGHTED_TAG@,
        HIGHLIGHTED_ATTRIBUTE@,
    )
}

/// Parse/convert a markdown string into an HTML markup string that is safe
/// to show.
pub fn parse_md_to_mu(md_string: String) -> (response: MdResponse)
    ensures
        response.markup@ == safe_markup(md_string@),
{
    let options = MarkdownOptions::application();
    let unsafe_mu_string = markdown_to_html(md_string.as_str(), &options);
    proof {
        reveal_strlit("code");
        reveal_strlit("a");
        reveal_strlit("script");
        reveal_strlit("style");
        assert("code"@.len() == 4);
        assert("a"@.len() == 1);
        assert("script"@.len() == 6);
        assert("style"@.len() == 5);
    }
    let safe_mu_string = clean_html(
        unsafe_mu_string.as_str(),
        HIGHLIGHTED_TAG,
        HIGHLIGHTED_ATTRIBUTE,
    );
    MdResponse { markup: safe_mu_string }
}

} // verus!
