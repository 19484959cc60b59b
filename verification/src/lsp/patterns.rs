//! The patterns that documentation comments are searched for, and the calls
//! into the `regex` crate that search.
use vstd::prelude::*;
use crate::lsp::docs::link_markdown;
use crate::lsp::docs::make_link;
use crate::lsp::docs::trimmed_start;
use crate::text::opt_text;
use crate::text::texts;

verus! {

/// A caption in front of an example, and the example.
pub const CAPTION_PATTERN: &'static str = "<caption>(.*?)</caption>\\s*\\r?\\n((?:\\s|\\S)*)";

/// A name and an e-mail address in angle brackets.
pub const EMAIL_PATTERN: &'static str = "(.+)\\s<([-.\\w]+@[-.\\w]+)>";

/// The name of a parameter in front of its description.
pub const PART_PATTERN: &'static str = "^(\\S+)\\s*-?\\s*";

/// The opening fence of a code block.
pub const CODEBLOCK_PATTERN: &'static str = "^\\s*[~`]{3}";

/// A link in the form that JSDoc has for it.
pub const LINK_PATTERN: &'static str =
    "(?i)\\{@(link|linkplain|linkcode) (https?://[^ |}]+?)(?:[| ]([^{}\\n]+?))?\\}";

/// The first match of a pattern in a text: what stands in front of it, what its
/// groups hold (the first of them the whole match), and what stands behind it.
pub struct Match {
    pub before: String,
    pub groups: Vec<Option<String>>,
    pub after: String,
}

/// What a match says.
#[verifier::ext_equal]
pub struct MatchView {
    pub before: Seq<char>,
    pub groups: Seq<Option<Seq<char>>>,
    pub after: Seq<char>,
}

impl View for Match {
    type V = MatchView;

    open spec fn view(&self) -> MatchView {
        MatchView {
            before: self.before@,
            groups: Seq::new(self.groups@.len(), |i: int| opt_text(self.groups@[i])),
            after: self.after@,
        }
    }
}

/// The first match that `Regex::captures` finds of a pattern in a text.
pub uninterp spec fn regex_captures(pattern: Seq<char>, text: Seq<char>) -> Option<MatchView>;

/// A text opens with the fence of a code block: three tildes or backticks, behind
/// white space or nothing.
pub open spec fn is_fenced(text: Seq<char>) -> bool {
    let rest = trimmed_start(text);
    rest.len() >= 3 && forall|i: int| 0 <= i < 3 ==> #[trigger] rest[i] == '~' || rest[i] == '`'
}

/// What a match of the link pattern is replaced with.
pub open spec fn link_of_match(m: MatchView) -> Seq<char> {
    link_markdown(m.groups[1]->0, m.groups[2]->0, m.groups[3])
}

/// A text with every link replaced by a link in Markdown.
pub open spec fn links_replaced(text: Seq<char>) -> Seq<char>
    decreases text.len(),
{
    match regex_captures(LINK_PATTERN@, text) {
        None => text,
        Some(m) => if m.after.len() < text.len() {
            m.before + link_of_match(m) + links_replaced(m.after)
        } else {
            text
        },
    }
}

/// The parts of a text that `Regex::split` leaves between the matches of a
/// pattern.
pub uninterp spec fn regex_split(pattern: Seq<char>, text: Seq<char>) -> Seq<Seq<char>>;

/// Calls `Regex::captures`. The text is what stands in front of the match, the
/// match and what stands behind it; no match of these patterns is empty, and
/// their first two groups take part in every match.
#[verifier::external_body]
pub(crate) fn first_match(pattern: &'static str, text: &str) -> (r: Option<Match>)
    requires
        pattern@ == CAPTION_PATTERN@ || pattern@ == EMAIL_PATTERN@,
    ensures
        match r {
            Some(m) => regex_captures(pattern@, text@) == Some(m@),
            None => regex_captures(pattern@, text@) is None,
        },
        r matches Some(m) ==> {
            &&& m@.groups.len() == 3
            &&& m@.groups[0] is Some && m@.groups[1] is Some && m@.groups[2] is Some
            &&& m@.groups[0]->0.len() > 0
            &&& text@ == m@.before + m@.groups[0]->0 + m@.after
        },
{
    let captures = regex::Regex::new(pattern).unwrap().captures(text)?;
    let whole = captures.get(0)?;
    Some(
        Match {
            before: text[..whole.start()].to_string(),
            groups: captures.iter().map(|group| group.map(|m| m.as_str().to_string())).collect(),
            after: text[whole.end()..].to_string(),
        },
    )
}

/// Calls `Regex::is_match` with the pattern of an opening fence.
#[verifier::external_body]
pub(crate) fn opens_with_fence(text: &str) -> (r: bool)
    ensures
        r == is_fenced(text@),
{
    regex::Regex::new(CODEBLOCK_PATTERN).unwrap().is_match(text)
}

/// Calls `Regex::replace_all` with the pattern of a link and `make_link`. It goes
/// from match to match: each is the first in what the ones before left over, since
/// no match is empty and the pattern does not ask what stands around it.
#[verifier::external_body]
pub(crate) fn replace_all_links(text: &str) -> (r: String)
    ensures
        r@ == links_replaced(text@),
{
    let pattern = regex::Regex::new(LINK_PATTERN).unwrap();
    pattern.replace_all(
        text,
        |c: &regex::Captures| make_link(&c[1], &c[2], c.get(3).map(|m| m.as_str())),
    ).to_string()
}

/// Calls `Regex::split`.
#[verifier::external_body]
pub(crate) fn split(pattern: &'static str, text: &str) -> (r: Vec<String>)
    requires
        pattern@ == PART_PATTERN@,
    ensures
        texts(r@) == regex_split(pattern@, text@),
{
    regex::Regex::new(pattern).unwrap().split(text).map(|part| part.to_string()).collect()
}

} // verus!
