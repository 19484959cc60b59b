//! Documentation comments as Markdown.
use vstd::pervasive::unreached;
use vstd::prelude::*;
use crate::lsp::patterns::first_match;
use crate::lsp::patterns::is_fenced;
use crate::lsp::patterns::links_replaced;
use crate::lsp::patterns::opens_with_fence;
use crate::lsp::patterns::regex_captures;
use crate::lsp::patterns::regex_split;
use crate::lsp::patterns::replace_all_links;
use crate::lsp::patterns::split;
use crate::lsp::patterns::MatchView;
use crate::lsp::patterns::CAPTION_PATTERN;
use crate::lsp::patterns::EMAIL_PATTERN;
use crate::lsp::patterns::PART_PATTERN;
use crate::text::chars_of;
use crate::text::concat2;
use crate::text::concat3;
use crate::text::concat4;
use crate::text::contains_text;
use crate::text::join;
use crate::text::joined;
use crate::text::opt_text;
use crate::text::str_contains;
use crate::text::str_eq;
use crate::text::texts;

verus! {

/// A piece of the display of a symbol.
#[derive(Debug)]
pub struct SymbolDisplayPart {
    pub text: String,
    pub kind: String,
}

/// A tag of a documentation comment.
#[derive(Debug)]
pub struct JSDocTagInfo {
    pub name: String,
    pub text: Option<String>,
}

/// The texts of display parts, one after the other.
pub open spec fn display_text(parts: Seq<SymbolDisplayPart>) -> Seq<char> {
    joined(Seq::new(parts.len(), |i: int| parts[i].text@), Seq::empty())
}

/// The texts of display parts, one after the other.
pub fn display_parts_to_string(parts: &Vec<SymbolDisplayPart>) -> (r: String)
    ensures
        r@ == display_text(parts@),
{
    let mut pieces: Vec<String> = Vec::new();
    let mut i: usize = 0;
    while i < parts.len()
        invariant
            i <= parts.len(),
            pieces@.len() == i,
            forall|j: int| 0 <= j < i ==> pieces@[j]@ == parts@[j].text@,
        decreases parts.len() - i,
    {
        pieces.push(parts[i].text.clone());
        i = i + 1;
    }
    assert(texts(pieces@) =~= Seq::new(parts@.len(), |i: int| parts@[i].text@));
    proof {
        reveal_strlit("");
        assert(""@ =~= Seq::empty());
    }
    join(&pieces, "")
}

/// A character that Unicode counts as white space.
pub open spec fn is_white_space(c: char) -> bool {
    let u = c as u32;
    ||| 0x9 <= u <= 0xd
    ||| u == 0x20
    ||| u == 0x85
    ||| u == 0xa0
    ||| u == 0x1680
    ||| 0x2000 <= u <= 0x200a
    ||| u == 0x2028
    ||| u == 0x2029
    ||| u == 0x202f
    ||| u == 0x205f
    ||| u == 0x3000
}

/// A text without the white space that it starts with.
pub open spec fn trimmed_start(text: Seq<char>) -> Seq<char>
    decreases text.len(),
{
    if text.len() > 0 && is_white_space(text[0]) {
        trimmed_start(text.skip(1))
    } else {
        text
    }
}

/// A text without the white space that it ends with.
pub open spec fn trimmed_end(text: Seq<char>) -> Seq<char>
    decreases text.len(),
{
    if text.len() > 0 && is_white_space(text.last()) {
        trimmed_end(text.drop_last())
    } else {
        text
    }
}

/// A text without the white space around it.
pub open spec fn trimmed(text: Seq<char>) -> Seq<char> {
    trimmed_end(trimmed_start(text))
}

/// Whether Unicode counts a character as white space.
fn is_space(c: char) -> (r: bool)
    ensures
        r == is_white_space(c),
{
    let u: u32 = c as u32;
    (0x9 <= u && u <= 0xd) || u == 0x20 || u == 0x85 || u == 0xa0 || u == 0x1680 || (0x2000 <= u
        && u <= 0x200a) || u == 0x2028 || u == 0x2029 || u == 0x202f || u == 0x205f || u == 0x3000
}

/// A text without the white space around it.
pub fn trim(text: &str) -> (r: &str)
    ensures
        r@ == trimmed(text@),
{
    let chars: Vec<char> = chars_of(text);
    let mut start: usize = 0;
    assert(text@.skip(0) =~= text@);
    while start < chars.len() && is_space(chars[start])
        invariant
            start <= chars.len(),
            chars@ == text@,
            trimmed_start(text@) == trimmed_start(text@.skip(start as int)),
        ensures
            start <= chars.len(),
            trimmed_start(text@) == text@.skip(start as int),
        decreases chars.len() - start,
    {
        assert(text@.skip(start as int).skip(1) =~= text@.skip(start + 1));
        start = start + 1;
    }
    let mut end: usize = chars.len();
    assert(text@.subrange(start as int, end as int) =~= text@.skip(start as int));
    while start < end && is_space(chars[end - 1])
        invariant
            start <= end <= chars.len(),
            chars@ == text@,
            trimmed(text@) == trimmed_end(text@.subrange(start as int, end as int)),
        ensures
            start <= end <= chars.len(),
            trimmed(text@) == text@.subrange(start as int, end as int),
        decreases end,
    {
        assert(text@.subrange(start as int, end as int).drop_last() =~= text@.subrange(
            start as int,
            end - 1,
        ));
        end = end - 1;
    }
    text.substring_char(start, end)
}

/// A text as a code block, unless it already opens with the fence of one.
pub open spec fn codeblock(text: Seq<char>) -> Seq<char> {
    if is_fenced(text) {
        text
    } else {
        "```\n"@ + text + "\n```"@
    }
}

/// Makes a code block of a text, unless it already is one.
pub fn make_codeblock(text: &str) -> (r: String)
    ensures
        r@ == codeblock(text@),
{
    if opens_with_fence(text) {
        text.to_owned()
    } else {
        concat3("```\n", text, "\n```")
    }
}

/// A code block stays as it is: to make one of a text twice is to make it once.
pub proof fn law_codeblock_once(text: Seq<char>)
    ensures
        is_fenced(codeblock(text)),
        codeblock(codeblock(text)) == codeblock(text),
{
    reveal_strlit("```\n");
    reveal_strlit("\n```");
    if !is_fenced(text) {
        let block = codeblock(text);
        assert(block[0] == '`' && block[1] == '`' && block[2] == '`');
        assert(trimmed_start(block) == block);
    }
}

/// A link in Markdown: the target, under its label or under itself, and in code
/// type for the tag `linkcode`.
pub open spec fn link_markdown(
    tag: Seq<char>,
    target: Seq<char>,
    label: Option<Seq<char>>,
) -> Seq<char> {
    let shown = match label {
        Some(label) => trimmed(label),
        None => target,
    };
    if tag == "linkcode"@ {
        "[`"@ + shown + "`]("@ + target + ")"@
    } else {
        "["@ + shown + "]("@ + target + ")"@
    }
}

/// A link in Markdown.
pub fn make_link(tag: &str, target: &str, label: Option<&str>) -> (r: String)
    ensures
        r@ == link_markdown(
            tag@,
            target@,
            match label {
                Some(label) => Some(label@),
                None => None,
            },
        ),
{
    let shown: &str = match label {
        Some(label) => trim(label),
        None => target,
    };
    if str_eq(tag, "linkcode") {
        let start: String = concat4("[`", shown, "`](", target);
        concat2(start.as_str(), ")")
    } else {
        let start: String = concat4("[", shown, "](", target);
        concat2(start.as_str(), ")")
    }
}

/// The text of an optional group, or nothing.
fn group_text(group: &Option<String>) -> (r: Option<&str>)
    ensures
        match r {
            Some(t) => opt_text(*group) == Some(t@),
            None => group is None,
        },
{
    match group {
        Some(text) => Some(text.as_str()),
        None => None,
    }
}

/// Replace JSDoc like links (`{@link http://example.com}`) with markdown links
pub fn replace_links(text: &str) -> (r: String)
    ensures
        r@ == links_replaced(text@),
{
    replace_all_links(text)
}

/// The text of an example: its caption, where the pattern found one, and the
/// example as a code block.
pub open spec fn example_text(text: Seq<char>, m: Option<MatchView>) -> Seq<char> {
    match m {
        Some(m) => m.before + (m.groups[1]->0 + "\n\n"@ + codeblock(m.groups[2]->0)) + m.after,
        None => codeblock(text),
    }
}

/// The text of an author: the e-mail address, where the pattern found one,
/// without its brackets.
pub open spec fn author_text(text: Seq<char>, m: Option<MatchView>) -> Seq<char> {
    match m {
        Some(m) => m.before + (m.groups[1]->0 + " "@ + m.groups[2]->0) + m.after,
        None => text,
    }
}

/// The text of a tag as Markdown, by the name of the tag.
pub open spec fn tag_body(name: Seq<char>, text: Seq<char>) -> Seq<char> {
    if name == "example"@ {
        example_text(text, regex_captures(CAPTION_PATTERN@, text))
    } else if name == "author"@ {
        author_text(text, regex_captures(EMAIL_PATTERN@, text))
    } else if name == "default"@ {
        codeblock(text)
    } else {
        links_replaced(text)
    }
}

/// The text of an example as Markdown.
fn example_body(text: &str) -> (r: String)
    ensures
        r@ == example_text(text@, regex_captures(CAPTION_PATTERN@, text@)),
{
    match first_match(CAPTION_PATTERN, text) {
        None => make_codeblock(text),
        Some(m) => {
            assert(m@.groups[1] == opt_text(m.groups@[1]));
            assert(m@.groups[2] == opt_text(m.groups@[2]));
            let caption: &str = match group_text(&m.groups[1]) {
                Some(caption) => caption,
                None => unreached(),
            };
            let example: &str = match group_text(&m.groups[2]) {
                Some(example) => example,
                None => unreached(),
            };
            let block: String = make_codeblock(example);
            let replacement: String = concat3(caption, "\n\n", block.as_str());
            concat3(m.before.as_str(), replacement.as_str(), m.after.as_str())
        },
    }
}

/// The text of an author as Markdown.
fn author_body(text: &str) -> (r: String)
    ensures
        r@ == author_text(text@, regex_captures(EMAIL_PATTERN@, text@)),
{
    match first_match(EMAIL_PATTERN, text) {
        None => text.to_owned(),
        Some(m) => {
            assert(m@.groups[1] == opt_text(m.groups@[1]));
            assert(m@.groups[2] == opt_text(m.groups@[2]));
            let name: &str = match group_text(&m.groups[1]) {
                Some(name) => name,
                None => unreached(),
            };
            let email: &str = match group_text(&m.groups[2]) {
                Some(email) => email,
                None => unreached(),
            };
            let replacement: String = concat3(name, " ", email);
            concat3(m.before.as_str(), replacement.as_str(), m.after.as_str())
        },
    }
}

/// The text of a tag as Markdown.
pub fn get_tag_body_text(tag: &JSDocTagInfo) -> (r: Option<String>)
    ensures
        opt_text(r) == match tag.text {
            Some(text) => Some(tag_body(tag.name@, text@)),
            None => None,
        },
{
    match &tag.text {
        None => None,
        Some(text) => {
            let name: &str = tag.name.as_str();
            let body: String = if str_eq(name, "example") {
                example_body(text.as_str())
            } else if str_eq(name, "author") {
                author_body(text.as_str())
            } else if str_eq(name, "default") {
                make_codeblock(text.as_str())
            } else {
                replace_links(text.as_str())
            };
            Some(body)
        },
    }
}

/// A text behind its label: on a line of its own where it has several lines,
/// else behind a dash.
pub open spec fn labelled(label: Seq<char>, text: Seq<char>, several_lines: bool) -> Seq<char> {
    if several_lines {
        label + "  \n"@ + text
    } else {
        label + " - "@ + text
    }
}

/// The label of a tag.
pub open spec fn tag_label(name: Seq<char>) -> Seq<char> {
    "*@"@ + name + "*"@
}

/// The documentation of a tag that names something: the name in code type, and
/// what is said of it.
pub open spec fn named_tag(name: Seq<char>, param: Seq<char>, doc: Seq<char>) -> Seq<char> {
    let label = "*@"@ + name + "* `"@ + param + "`"@;
    if doc.len() == 0 {
        label
    } else {
        labelled(label, links_replaced(doc), contains_text(doc, "\n"@))
    }
}

/// The documentation of any other tag.
pub open spec fn plain_tag(name: Seq<char>, body: Option<Seq<char>>) -> Seq<char> {
    match body {
        Some(text) => labelled(tag_label(name), text, contains_text(text, "\n"@)),
        None => tag_label(name),
    }
}

/// The tags whose text starts with a name.
pub open spec fn names_something(name: Seq<char>) -> bool {
    name == "augments"@ || name == "extends"@ || name == "param"@ || name == "template"@
}

/// The documentation of a tag as Markdown.
pub open spec fn tag_documentation(name: Seq<char>, text: Option<Seq<char>>) -> Seq<char> {
    let plain = plain_tag(
        name,
        match text {
            Some(text) => Some(tag_body(name, text)),
            None => None,
        },
    );
    match text {
        Some(text) => {
            let body = regex_split(PART_PATTERN@, text);
            if names_something(name) && body.len() == 3 {
                named_tag(name, body[1], body[2])
            } else {
                plain
            }
        },
        None => plain,
    }
}

/// A text behind its label.
fn put_label(label: &str, text: &str, several_lines: bool) -> (r: String)
    ensures
        r@ == labelled(label@, text@, several_lines),
{
    if several_lines {
        concat3(label, "  \n", text)
    } else {
        concat3(label, " - ", text)
    }
}

/// The documentation of a tag that names something.
pub fn document_named_tag(name: &str, param: &str, doc: &str) -> (r: String)
    ensures
        r@ == named_tag(name@, param@, doc@),
{
    let start: String = concat4("*@", name, "* `", param);
    let label: String = concat2(start.as_str(), "`");
    if doc.unicode_len() == 0 {
        return label;
    }
    let text: String = replace_links(doc);
    put_label(label.as_str(), text.as_str(), str_contains(doc, "\n"))
}

/// The documentation of a tag that names nothing, from the text of the tag as
/// Markdown.
pub fn document_plain_tag(name: &str, body: &Option<String>) -> (r: String)
    ensures
        r@ == plain_tag(name@, opt_text(*body)),
{
    let label: String = concat3("*@", name, "*");
    match body {
        Some(text) => put_label(label.as_str(), text.as_str(), str_contains(text.as_str(), "\n")),
        None => label,
    }
}

/// The documentation of a tag as Markdown.
pub fn get_tag_documentation(tag: &JSDocTagInfo) -> (r: String)
    ensures
        r@ == tag_documentation(tag.name@, opt_text(tag.text)),
{
    let name: &str = tag.name.as_str();
    if str_eq(name, "augments") || str_eq(name, "extends") || str_eq(name, "param") || str_eq(
        name,
        "template",
    ) {
        if let Some(text) = &tag.text {
            let body: Vec<String> = split(PART_PATTERN, text.as_str());
            assert(texts(body@).len() == body@.len());
            if body.len() == 3 {
                assert(texts(body@)[1] == body@[1]@ && texts(body@)[2] == body@[2]@);
                return document_named_tag(name, body[1].as_str(), body[2].as_str());
            }
        }
    }
    document_plain_tag(name, &get_tag_body_text(tag))
}

} // verus!
