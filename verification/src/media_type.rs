//! What is in a file, by its name.
use deno_ast::MediaType as AstMediaType;
use vstd::prelude::*;
use crate::specifier::parsed_url;
use crate::text::starts_with;

verus! {

/// What is in a file.
#[derive(Clone, Copy, PartialEq, Eq, Structural, Debug)]
pub enum MediaType {
    JavaScript,
    Jsx,
    Mjs,
    Cjs,
    TypeScript,
    Mts,
    Cts,
    Dts,
    Dmts,
    Dcts,
    Tsx,
    Json,
    Wasm,
    TsBuildInfo,
    SourceMap,
    Unknown,
}

impl MediaType {
    /// The name of the type.
    pub open spec fn name(self) -> Seq<char> {
        match self {
            MediaType::JavaScript => "JavaScript"@,
            MediaType::Jsx => "Jsx"@,
            MediaType::Mjs => "Mjs"@,
            MediaType::Cjs => "Cjs"@,
            MediaType::TypeScript => "TypeScript"@,
            MediaType::Mts => "Mts"@,
            MediaType::Cts => "Cts"@,
            MediaType::Dts => "Dts"@,
            MediaType::Dmts => "Dmts"@,
            MediaType::Dcts => "Dcts"@,
            MediaType::Tsx => "Tsx"@,
            MediaType::Json => "Json"@,
            MediaType::Wasm => "Wasm"@,
            MediaType::TsBuildInfo => "TsBuildInfo"@,
            MediaType::SourceMap => "SourceMap"@,
            MediaType::Unknown => "Unknown"@,
        }
    }

    /// The name of the type.
    pub fn to_name(self) -> (r: &'static str)
        ensures
            r@ == self.name(),
    {
        match self {
            MediaType::JavaScript => "JavaScript",
            MediaType::Jsx => "Jsx",
            MediaType::Mjs => "Mjs",
            MediaType::Cjs => "Cjs",
            MediaType::TypeScript => "TypeScript",
            MediaType::Mts => "Mts",
            MediaType::Cts => "Cts",
            MediaType::Dts => "Dts",
            MediaType::Dmts => "Dmts",
            MediaType::Dcts => "Dcts",
            MediaType::Tsx => "Tsx",
            MediaType::Json => "Json",
            MediaType::Wasm => "Wasm",
            MediaType::TsBuildInfo => "TsBuildInfo",
            MediaType::SourceMap => "SourceMap",
            MediaType::Unknown => "Unknown",
        }
    }

    /// The extension under which the compiler knows a module of this type. What
    /// it does not know passes for JavaScript.
    pub open spec fn ts_extension(self) -> Seq<char> {
        match self {
            MediaType::JavaScript => ".js"@,
            MediaType::Jsx => ".jsx"@,
            MediaType::Mjs => ".mjs"@,
            MediaType::Cjs => ".cjs"@,
            MediaType::TypeScript => ".ts"@,
            MediaType::Mts => ".mts"@,
            MediaType::Cts => ".cts"@,
            MediaType::Dts => ".d.ts"@,
            MediaType::Dmts => ".d.mts"@,
            MediaType::Dcts => ".d.cts"@,
            MediaType::Tsx => ".tsx"@,
            MediaType::Json => ".json"@,
            MediaType::Wasm => ".js"@,
            MediaType::TsBuildInfo => ".tsbuildinfo"@,
            MediaType::SourceMap => ".js"@,
            MediaType::Unknown => ".js"@,
        }
    }

    /// The extension under which the compiler knows a module of this type.
    pub fn as_ts_extension(self) -> (r: &'static str)
        ensures
            r@ == self.ts_extension(),
    {
        match self {
            MediaType::JavaScript => ".js",
            MediaType::Jsx => ".jsx",
            MediaType::Mjs => ".mjs",
            MediaType::Cjs => ".cjs",
            MediaType::TypeScript => ".ts",
            MediaType::Mts => ".mts",
            MediaType::Cts => ".cts",
            MediaType::Dts => ".d.ts",
            MediaType::Dmts => ".d.mts",
            MediaType::Dcts => ".d.cts",
            MediaType::Tsx => ".tsx",
            MediaType::Json => ".json",
            MediaType::Wasm => ".js",
            MediaType::TsBuildInfo => ".tsbuildinfo",
            MediaType::SourceMap => ".js",
            MediaType::Unknown => ".js",
        }
    }
}

/// What stands behind the last `mark` of a text; the whole text where there is
/// none.
pub open spec fn after_last(text: Seq<char>, mark: char) -> Seq<char>
    decreases text.len(),
{
    if text.len() == 0 || text.last() == mark {
        Seq::empty()
    } else {
        after_last(text.drop_last(), mark).push(text.last())
    }
}

/// What stands before the last `mark` of a text, if there is one.
pub open spec fn before_last(text: Seq<char>, mark: char) -> Option<Seq<char>>
    decreases text.len(),
{
    if text.len() == 0 {
        None
    } else if text.last() == mark {
        Some(text.drop_last())
    } else {
        before_last(text.drop_last(), mark)
    }
}

/// The name of a file has ".d" before its extension.
pub open spec fn ends_as_declaration(stem: Seq<char>) -> bool {
    stem.len() >= 2 && stem.subrange(stem.len() - 2, stem.len() as int) == ".d"@
}

/// The name of a file has a part "d" before its extension.
pub open spec fn holds_declaration(stem: Seq<char>) -> bool {
    exists|i: int|
        0 <= i && i + 3 <= stem.len() && #[trigger] stem.subrange(i, i + 3) == ".d."@
}

/// A character in lower case, where it is an ASCII letter.
pub open spec fn lower(c: char) -> char {
    if 'A' <= c <= 'Z' {
        ((c as u32 + 32) as u32) as char
    } else {
        c
    }
}

/// A text with its ASCII letters in lower case.
pub open spec fn lowered(text: Seq<char>) -> Seq<char> {
    Seq::new(text.len(), |i: int| lower(text[i]))
}

/// The type of a file with this name before its extension and this extension. The
/// case of the extension does not matter, but for one thing: a part "d" that is
/// not the last one of the name counts only where the extension is in lower case.
pub open spec fn type_of_extension(stem: Seq<char>, given: Seq<char>) -> MediaType {
    let extension = lowered(given);
    if extension == "ts"@ {
        if ends_as_declaration(stem) || (given == "ts"@ && holds_declaration(stem)) {
            MediaType::Dts
        } else {
            MediaType::TypeScript
        }
    } else if extension == "mts"@ {
        if ends_as_declaration(stem) {
            MediaType::Dmts
        } else {
            MediaType::Mts
        }
    } else if extension == "cts"@ {
        if ends_as_declaration(stem) {
            MediaType::Dcts
        } else {
            MediaType::Cts
        }
    } else if extension == "tsx"@ {
        MediaType::Tsx
    } else if extension == "js"@ {
        MediaType::JavaScript
    } else if extension == "jsx"@ {
        MediaType::Jsx
    } else if extension == "mjs"@ {
        MediaType::Mjs
    } else if extension == "cjs"@ {
        MediaType::Cjs
    } else if extension == "json"@ {
        MediaType::Json
    } else if extension == "wasm"@ {
        MediaType::Wasm
    } else if extension == "tsbuildinfo"@ {
        MediaType::TsBuildInfo
    } else if extension == "map"@ {
        MediaType::SourceMap
    } else {
        MediaType::Unknown
    }
}

/// No part of a path can be taken for a drive or a share, and only slashes part
/// it.
pub open spec fn is_portable(path: Seq<char>) -> bool {
    &&& !path.contains('\\')
    &&& !starts_with(path, "//"@)
    &&& path.len() >= 2 ==> path[1] != ':'
}

/// A path that every machine reads alike: it is portable, its last part is the
/// name of a file, and the extension of that is ASCII.
pub open spec fn is_plain_path(path: Seq<char>) -> bool {
    let file = after_last(path, '/');
    let extension = after_last(file, '.');
    &&& is_portable(path)
    &&& file.len() > 0
    &&& before_last(file, '.') matches Some(stem) ==> {
        &&& stem.len() > 0
        &&& stem != seq!['.']
        &&& forall|i: int| 0 <= i < extension.len() ==> #[trigger] is_ascii(extension[i])
    }
}

/// An ASCII character.
pub open spec fn is_ascii(c: char) -> bool {
    (c as u32) < 128
}

/// A small ASCII letter.
pub open spec fn is_small(c: char) -> bool {
    'a' <= c <= 'z'
}

/// The type of the file at a plain path.
pub open spec fn type_of_path(path: Seq<char>) -> MediaType {
    let file = after_last(path, '/');
    match before_last(file, '.') {
        None => MediaType::Unknown,
        Some(stem) => type_of_extension(stem, after_last(file, '.')),
    }
}

/// Calls `deno_ast::MediaType::from_path`, which goes by the extension of the
/// last part of the path. Machines differ in what they take for the last part of
/// some paths, so nothing is said of a path that is not plain.
#[verifier::external_body]
pub(crate) fn media_type_of_path(name: &str) -> (r: MediaType)
    ensures
        is_plain_path(name@) ==> r == type_of_path(name@),
{
    match AstMediaType::from_path(std::path::Path::new(name)) {
        AstMediaType::JavaScript => MediaType::JavaScript, AstMediaType::Jsx => MediaType::Jsx,
        AstMediaType::Mjs => MediaType::Mjs, AstMediaType::Cjs => MediaType::Cjs,
        AstMediaType::TypeScript => MediaType::TypeScript, AstMediaType::Mts => MediaType::Mts,
        AstMediaType::Cts => MediaType::Cts, AstMediaType::Dts => MediaType::Dts,
        AstMediaType::Dmts => MediaType::Dmts, AstMediaType::Dcts => MediaType::Dcts,
        AstMediaType::Tsx => MediaType::Tsx, AstMediaType::Json => MediaType::Json,
        AstMediaType::Wasm => MediaType::Wasm, AstMediaType::TsBuildInfo => MediaType::TsBuildInfo,
        AstMediaType::SourceMap => MediaType::SourceMap, AstMediaType::Unknown => MediaType::Unknown,
    }
}

/// The type that `deno_ast::MediaType::from_specifier` gives to a URL.
pub uninterp spec fn type_of_url(url: Seq<char>) -> MediaType;

/// Calls `deno_ast::MediaType::from_specifier`.
#[verifier::external_body]
pub(crate) fn media_type_of_url(url: &str) -> (r: MediaType)
    requires
        parsed_url(url@) is Ok,
    ensures
        r == type_of_url(url@),
{
    match AstMediaType::from_specifier(&url::Url::parse(url).expect("a URL")) {
        AstMediaType::JavaScript => MediaType::JavaScript, AstMediaType::Jsx => MediaType::Jsx,
        AstMediaType::Mjs => MediaType::Mjs, AstMediaType::Cjs => MediaType::Cjs,
        AstMediaType::TypeScript => MediaType::TypeScript, AstMediaType::Mts => MediaType::Mts,
        AstMediaType::Cts => MediaType::Cts, AstMediaType::Dts => MediaType::Dts,
        AstMediaType::Dmts => MediaType::Dmts, AstMediaType::Dcts => MediaType::Dcts,
        AstMediaType::Tsx => MediaType::Tsx, AstMediaType::Json => MediaType::Json,
        AstMediaType::Wasm => MediaType::Wasm, AstMediaType::TsBuildInfo => MediaType::TsBuildInfo,
        AstMediaType::SourceMap => MediaType::SourceMap, AstMediaType::Unknown => MediaType::Unknown,
    }
}

/// What stands behind the last mark does not change where what stands in front of
/// a text without the mark is longer.
proof fn lemma_after_last(front: Seq<char>, end: Seq<char>, mark: char)
    requires
        !end.contains(mark),
    ensures
        after_last(front + end, mark) == after_last(front, mark) + end,
        before_last(front + end, mark) == before_last(front, mark),
    decreases end.len(),
{
    let text = front + end;
    if end.len() == 0 {
        assert(text =~= front);
        assert(after_last(front, mark) + end =~= after_last(front, mark));
    } else {
        let shorter = end.drop_last();
        assert(text.drop_last() =~= front + shorter);
        assert(end.contains(end.last()));
        assert forall|c: char| shorter.contains(c) implies end.contains(c) by {
            let i = choose|i: int| 0 <= i < shorter.len() && shorter[i] == c;
            assert(end[i] == c);
        }
        lemma_after_last(front, shorter, mark);
        assert((after_last(front, mark) + shorter).push(end.last()) =~= after_last(front, mark)
            + end);
    }
}

/// A file is named by something that ends in `last`, a dot and an extension.
pub open spec fn is_file_with(path: Seq<char>, last: char, extension: Seq<char>) -> bool {
    &&& ('a' <= last <= 'z' || 'A' <= last <= 'Z' || '0' <= last <= '9')
    &&& path.len() >= extension.len() + 2
    &&& path.subrange(path.len() - extension.len() - 2, path.len() as int) == seq![last, '.']
        + extension
}

/// The type of a file goes by what its path ends in.
proof fn lemma_type_of_file(path: Seq<char>, last: char, extension: Seq<char>)
    requires
        is_portable(path),
        is_file_with(path, last, extension),
        forall|i: int| 0 <= i < extension.len() ==> #[trigger] is_small(extension[i]),
    ensures
        is_plain_path(path),
        before_last(after_last(path, '/'), '.') matches Some(stem) && type_of_path(path)
            == type_of_extension(stem, extension) && stem == after_last(
            path.subrange(0, path.len() - extension.len() - 1),
            '/',
        ),
        lowered(extension) == extension,
{
    let end = seq![last, '.'] + extension;
    let front = path.subrange(0, path.len() - extension.len() - 2);
    assert(path =~= front + end);
    assert forall|i: int| 0 <= i < end.len() implies end[i] != '/' by {
        if i >= 2 {
            assert(end[i] == extension[i - 2]);
            assert(is_small(extension[i - 2]));
        }
    }
    lemma_after_last(front, end, '/');
    assert(path.subrange(0, path.len() - extension.len() - 1) =~= front + seq![last]);
    lemma_after_last(front, seq![last], '/');
    let file = after_last(path, '/');
    let stem = after_last(front, '/').push(last);
    assert(stem =~= after_last(front, '/') + seq![last]);
    let dotted = stem.push('.');
    assert(file =~= dotted + extension);
    assert forall|i: int| 0 <= i < extension.len() implies extension[i] != '.' by {
        assert(is_small(extension[i]));
    }
    lemma_after_last(dotted, extension, '.');
    assert(dotted.drop_last() =~= stem);
    assert(after_last(dotted, '.') + extension =~= extension);
    assert(stem.last() == last && seq!['.'].last() == '.');
    assert forall|i: int| 0 <= i < extension.len() implies is_ascii(#[trigger] extension[i])
        && lower(extension[i]) == extension[i] by {
        assert(is_small(extension[i]));
    }
    assert(lowered(extension) =~= extension);
}

/// A script: a letter or a digit and ".js" or ".mjs" end the path.
pub open spec fn is_script_path(path: Seq<char>) -> bool {
    &&& is_portable(path)
    &&& exists|last: char|
        #![trigger is_file_with(path, last, "js"@)]
        #![trigger is_file_with(path, last, "mjs"@)]
        is_file_with(path, last, "js"@) || is_file_with(path, last, "mjs"@)
}

/// The last part of a path begins at an index, and has no dot but the one in front
/// of its last two characters.
pub open spec fn is_undotted_from(path: Seq<char>, start: int) -> bool {
    &&& 0 <= start <= path.len() - 3
    &&& start == 0 || path[start - 1] == '/'
    &&& forall|i: int| start <= i < path.len() - 3 ==> #[trigger] path[i] != '.' && path[i] != '/'
}

/// A module: a letter or a digit and ".ts" end the path, and its last part has no
/// other dot.
pub open spec fn is_module_path(path: Seq<char>) -> bool {
    &&& is_portable(path)
    &&& exists|last: char| #[trigger] is_file_with(path, last, "ts"@)
    &&& exists|start: int| #[trigger] is_undotted_from(path, start)
}

/// What stands behind the last mark, where it is known where that is.
proof fn lemma_after_last_from(text: Seq<char>, mark: char, start: int)
    requires
        0 <= start <= text.len(),
        start == 0 || text[start - 1] == mark,
        forall|i: int| start <= i < text.len() ==> text[i] != mark,
    ensures
        after_last(text, mark) == text.subrange(start, text.len() as int),
{
    let front = text.subrange(0, start);
    let end = text.subrange(start, text.len() as int);
    assert(text =~= front + end);
    lemma_after_last(front, end, mark);
    assert(after_last(front, mark) =~= Seq::empty());
    assert(Seq::<char>::empty() + end =~= end);
}

/// The type of a script.
pub proof fn lemma_script_path(path: Seq<char>)
    requires
        is_script_path(path),
    ensures
        is_plain_path(path),
        type_of_path(path) == MediaType::JavaScript || type_of_path(path) == MediaType::Mjs,
{
    reveal_strlit("js");
    reveal_strlit("mjs");
    reveal_strlit("ts");
    reveal_strlit("mts");
    reveal_strlit("cts");
    reveal_strlit("tsx");
    reveal_strlit("jsx");
    let last = choose|last: char|
        #![trigger is_file_with(path, last, "js"@)]
        #![trigger is_file_with(path, last, "mjs"@)]
        is_file_with(path, last, "js"@) || is_file_with(path, last, "mjs"@);
    if is_file_with(path, last, "js"@) {
        lemma_type_of_file(path, last, "js"@);
        assert("js"@[0] != "ts"@[0]);
    } else {
        lemma_type_of_file(path, last, "mjs"@);
        assert("mjs"@[1] != "mts"@[1]);
        assert("mjs"@[0] != "cts"@[0]);
        assert("mjs"@[0] != "tsx"@[0]);
        assert("mjs"@[0] != "jsx"@[0]);
    }
}

/// The type of a module.
pub proof fn lemma_module_path(path: Seq<char>)
    requires
        is_module_path(path),
    ensures
        is_plain_path(path),
        type_of_path(path) == MediaType::TypeScript,
{
    reveal_strlit("ts");
    reveal_strlit(".d");
    reveal_strlit(".d.");
    let last = choose|last: char| #[trigger] is_file_with(path, last, "ts"@);
    let start = choose|start: int| #[trigger] is_undotted_from(path, start);
    lemma_type_of_file(path, last, "ts"@);
    let front = path.subrange(0, path.len() - 3);
    lemma_after_last_from(front, '/', start);
    let stem = after_last(front, '/');
    assert forall|i: int| 0 <= i < stem.len() implies stem[i] != '.' by {
        assert(stem[i] == path[start + i]);
    }
    if ends_as_declaration(stem) {
        assert(stem.subrange(stem.len() - 2, stem.len() as int)[0] == stem[stem.len() - 2]);
    }
    if holds_declaration(stem) {
        let i = choose|i: int|
            0 <= i && i + 3 <= stem.len() && #[trigger] stem.subrange(i, i + 3) == ".d."@;
        assert(stem.subrange(i, i + 3)[0] == stem[i]);
    }
}

/// What each type is called, and under which extension the compiler knows it.
pub proof fn law_names_and_extensions(t: MediaType)
    ensures
        t == MediaType::JavaScript ==> t.name() == "JavaScript"@ && t.ts_extension() == ".js"@,
        t == MediaType::Jsx ==> t.name() == "Jsx"@ && t.ts_extension() == ".jsx"@,
        t == MediaType::Mjs ==> t.name() == "Mjs"@ && t.ts_extension() == ".mjs"@,
        t == MediaType::Cjs ==> t.name() == "Cjs"@ && t.ts_extension() == ".cjs"@,
        t == MediaType::TypeScript ==> t.name() == "TypeScript"@ && t.ts_extension() == ".ts"@,
        t == MediaType::Mts ==> t.name() == "Mts"@ && t.ts_extension() == ".mts"@,
        t == MediaType::Cts ==> t.name() == "Cts"@ && t.ts_extension() == ".cts"@,
        t == MediaType::Dts ==> t.name() == "Dts"@ && t.ts_extension() == ".d.ts"@,
        t == MediaType::Dmts ==> t.name() == "Dmts"@ && t.ts_extension() == ".d.mts"@,
        t == MediaType::Dcts ==> t.name() == "Dcts"@ && t.ts_extension() == ".d.cts"@,
        t == MediaType::Tsx ==> t.name() == "Tsx"@ && t.ts_extension() == ".tsx"@,
        t == MediaType::Json ==> t.name() == "Json"@ && t.ts_extension() == ".json"@,
        t == MediaType::Wasm ==> t.name() == "Wasm"@ && t.ts_extension() == ".js"@,
        t == MediaType::TsBuildInfo ==> t.name() == "TsBuildInfo"@ && t.ts_extension() == ".tsbuildinfo"@,
        t == MediaType::SourceMap ==> t.name() == "SourceMap"@ && t.ts_extension() == ".js"@,
        t == MediaType::Unknown ==> t.name() == "Unknown"@ && t.ts_extension() == ".js"@,
{
}

/// The last part of a text that is parted by a mark, and what stands before it.
pub proof fn law_last_part(front: Seq<char>, mark: char, end: Seq<char>)
    requires
        !end.contains(mark),
    ensures
        after_last(front.push(mark) + end, mark) == end,
        before_last(front.push(mark) + end, mark) == Some(front),
        after_last(end, mark) == end,
        before_last(end, mark) is None,
{
    let marked = front.push(mark);
    lemma_after_last(marked, end, mark);
    assert(marked.drop_last() =~= front);
    assert(after_last(marked, mark) + end =~= end);
    lemma_after_last(Seq::empty(), end, mark);
    assert(Seq::<char>::empty() + end =~= end);
}

/// A text in lower case has the small letter for each capital one of ASCII, and every
/// other character as it is.
pub proof fn law_lower_case(text: Seq<char>, i: int)
    requires
        0 <= i < text.len(),
    ensures
        lowered(text).len() == text.len(),
        'A' <= text[i] <= 'Z' ==> 'a' <= lowered(text)[i] <= 'z' && lowered(text)[i] as u32
            == text[i] as u32 + 32,
        !('A' <= text[i] <= 'Z') ==> lowered(text)[i] == text[i],
{
}

/// Which extensions make a file what, whatever their case. A declaration has ".d"
/// before the extension, and with a small "ts" also anywhere before that, as a part
/// of its own.
pub proof fn law_types_of_extensions(stem: Seq<char>, extension: Seq<char>)
    ensures
        ({
            let t = type_of_extension(stem, extension);
            let low = lowered(extension);
            let declares = stem.len() >= 2 && stem[stem.len() - 2] == '.' && stem.last() == 'd';
            &&& t == MediaType::JavaScript <==> low == "js"@
            &&& t == MediaType::Jsx <==> low == "jsx"@
            &&& t == MediaType::Mjs <==> low == "mjs"@
            &&& t == MediaType::Cjs <==> low == "cjs"@
            &&& t == MediaType::Tsx <==> low == "tsx"@
            &&& t == MediaType::Json <==> low == "json"@
            &&& t == MediaType::Wasm <==> low == "wasm"@
            &&& t == MediaType::TsBuildInfo <==> low == "tsbuildinfo"@
            &&& t == MediaType::SourceMap <==> low == "map"@
            &&& t == MediaType::TypeScript || t == MediaType::Dts <==> low == "ts"@
            &&& t == MediaType::Mts || t == MediaType::Dmts <==> low == "mts"@
            &&& t == MediaType::Cts || t == MediaType::Dcts <==> low == "cts"@
            &&& declares ==> t != MediaType::TypeScript && t != MediaType::Mts && t
                != MediaType::Cts
            &&& !declares ==> t != MediaType::Dmts && t != MediaType::Dcts
            &&& t == MediaType::Dts && !declares <==> low == "ts"@ && extension == "ts"@
                && !declares && holds_declaration(stem)
        }),
{
    reveal_strlit("js");
    reveal_strlit("jsx");
    reveal_strlit("mjs");
    reveal_strlit("cjs");
    reveal_strlit("tsx");
    reveal_strlit("json");
    reveal_strlit("wasm");
    reveal_strlit("tsbuildinfo");
    reveal_strlit("map");
    reveal_strlit("ts");
    reveal_strlit("mts");
    reveal_strlit("cts");
    reveal_strlit(".d");
    assert("js"@.len() == 2 && "ts"@.len() == 2 && "js"@[0] != "ts"@[0]);
    assert("jsx"@.len() == 3 && "mjs"@.len() == 3 && "cjs"@.len() == 3 && "tsx"@.len() == 3
        && "map"@.len() == 3 && "mts"@.len() == 3 && "cts"@.len() == 3);
    assert("json"@.len() == 4 && "wasm"@.len() == 4 && "json"@[0] != "wasm"@[0]);
    assert("tsbuildinfo"@.len() == 11);
    assert("jsx"@[0] == 'j' && "tsx"@[0] == 't');
    assert("mjs"@[0] == 'm' && "mjs"@[1] == 'j' && "mts"@[0] == 'm' && "mts"@[1] == 't'
        && "map"@[0] == 'm' && "map"@[1] == 'a');
    assert("cjs"@[0] == 'c' && "cjs"@[1] == 'j' && "cts"@[0] == 'c' && "cts"@[1] == 't');
    if stem.len() >= 2 {
        let end = stem.subrange(stem.len() - 2, stem.len() as int);
        assert(end[0] == stem[stem.len() - 2] && end[1] == stem.last());
        if end[0] == '.' && end[1] == 'd' {
            assert(end =~= ".d"@);
        }
    }
}

/// The path of a file in a directory, without backslashes and with nothing that could
/// be a drive or a share before it, is plain, and its type goes by the name and the
/// extension of the file.
pub proof fn law_path_of_a_file(directory: Seq<char>, stem: Seq<char>, extension: Seq<char>)
    requires
        directory.len() > 1,
        directory[1] != ':' && directory[1] != '/',
        stem.len() > 0,
        stem != seq!['.'],
        forall|i: int| 0 <= i < directory.len() ==> #[trigger] directory[i] != '\\',
        forall|i: int| 0 <= i < stem.len() ==> #[trigger] stem[i] != '\\' && stem[i] != '/',
        forall|i: int|
            0 <= i < extension.len() ==> (#[trigger] extension[i] as u32) < 128 && extension[i]
                != '\\' && extension[i] != '/' && extension[i] != '.',
    ensures
        ({
            let path = directory + seq!['/'] + stem + seq!['.'] + extension;
            &&& is_plain_path(path)
            &&& type_of_path(path) == type_of_extension(stem, extension)
        }),
{
    reveal_strlit("//");
    let path = directory + seq!['/'] + stem + seq!['.'] + extension;
    let file = stem + seq!['.'] + extension;
    assert(path =~= directory.push('/') + file);
    assert forall|i: int| 0 <= i < file.len() implies file[i] != '/' by {
        if i < stem.len() {
            assert(file[i] == stem[i]);
        } else if i > stem.len() {
            assert(file[i] == extension[i - stem.len() - 1]);
        }
    }
    law_last_part(directory, '/', file);
    assert(file =~= stem.push('.') + extension);
    law_last_part(stem, '.', extension);
    assert forall|i: int| 0 <= i < path.len() implies path[i] != '\\' by {
        let n = directory.len() as int;
        if i < n {
            assert(path[i] == directory[i]);
        } else if n < i < n + 1 + stem.len() {
            assert(path[i] == stem[i - n - 1]);
        } else if i > n + 1 + stem.len() {
            assert(path[i] == extension[i - n - 2 - stem.len()]);
        }
    }
    assert(!starts_with(path, "//"@)) by {
        if starts_with(path, "//"@) {
            assert(path.subrange(0, 2)[1] == path[1]);
        }
    }
    assert forall|i: int| 0 <= i < extension.len() implies is_ascii(#[trigger] extension[i]) by {}
}

/// A portable path that ends in a letter or a digit and ".js" or ".mjs" is that of a
/// script, and one that ends in ".ts", without another dot in its last part, that of a
/// module.
pub proof fn law_scripts_and_modules(front: Seq<char>, last: char)
    requires
        'a' <= last <= 'z' || 'A' <= last <= 'Z' || '0' <= last <= '9',
        front.len() > 2,
        front[1] != ':' && front[1] != '/',
        forall|i: int| 0 <= i < front.len() ==> #[trigger] front[i] != '\\',
    ensures
        is_script_path(front + seq![last, '.', 'j', 's']),
        is_script_path(front + seq![last, '.', 'm', 'j', 's']),
        front.last() == '/' ==> is_module_path(front + seq![last, '.', 't', 's']),
{
    reveal_strlit("//");
    reveal_strlit("js");
    reveal_strlit("mjs");
    reveal_strlit("ts");
    let js = front + seq![last, '.', 'j', 's'];
    let mjs = front + seq![last, '.', 'm', 'j', 's'];
    let ts = front + seq![last, '.', 't', 's'];
    assert(js.subrange(js.len() - 4, js.len() as int) =~= seq![last, '.'] + "js"@);
    assert(mjs.subrange(mjs.len() - 5, mjs.len() as int) =~= seq![last, '.'] + "mjs"@);
    assert(ts.subrange(ts.len() - 4, ts.len() as int) =~= seq![last, '.'] + "ts"@);
    assert(is_file_with(js, last, "js"@));
    assert(is_file_with(mjs, last, "mjs"@));
    assert(is_file_with(ts, last, "ts"@));
    lemma_portable(front, seq![last, '.', 'j', 's']);
    lemma_portable(front, seq![last, '.', 'm', 'j', 's']);
    lemma_portable(front, seq![last, '.', 't', 's']);
    if front.last() == '/' {
        assert(is_undotted_from(ts, front.len() as int));
    }
}

/// What is put behind a portable start without a backslash is portable.
proof fn lemma_portable(front: Seq<char>, end: Seq<char>)
    requires
        front.len() > 2,
        front[1] != ':' && front[1] != '/',
        forall|i: int| 0 <= i < front.len() ==> #[trigger] front[i] != '\\',
        forall|i: int| 0 <= i < end.len() ==> #[trigger] end[i] != '\\',
    ensures
        is_portable(front + end),
{
    reveal_strlit("//");
    let path = front + end;
    assert forall|i: int| 0 <= i < path.len() implies path[i] != '\\' by {
        if i < front.len() {
            assert(path[i] == front[i]);
        } else {
            assert(path[i] == end[i - front.len()]);
        }
    }
    if starts_with(path, "//"@) {
        assert(path.subrange(0, 2)[1] == path[1]);
    }
}

} // verus!
