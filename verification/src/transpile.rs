//! Modules that are compiled to JavaScript when a snapshot is made, and the
//! cache of what they were compiled to.
use std::hash::Hash;
use std::hash::Hasher;
use deno_ast::parse_module;
use deno_ast::EmitOptions;
use deno_ast::ImportsNotUsedAsValues;
use deno_ast::MediaType as AstMediaType;
use deno_ast::ParseParams;
use deno_ast::SourceMapOption;
use deno_ast::TranspileOptions;
use vstd::prelude::*;
use vstd::utf8::decode_utf8;
use vstd::utf8::encode_utf8;
use vstd::utf8::encode_utf8_decode_utf8;
use vstd::utf8::encode_utf8_valid_utf8;
use vstd::utf8::valid_utf8;
use crate::error::generic_error;
use crate::error::generic_error_view;
use crate::error::result_view;
use crate::error::AnyError;
use crate::error::ErrorView;
use crate::keys::types::opt_bytes;
use crate::media_type::is_module_path;
use crate::media_type::is_plain_path;
use crate::media_type::is_script_path;
use crate::media_type::lemma_module_path;
use crate::media_type::lemma_script_path;
use crate::media_type::media_type_of_path;
use crate::media_type::type_of_path;
use crate::media_type::MediaType;
use crate::specifier::parsed_url;
use crate::specifier::resolve_url;
use crate::specifier::specifier_of;
use crate::text::bytes_clone;
use crate::text::concat2;
use crate::text::concat4;
use crate::text::decimal;
use crate::text::decimal_string;
use crate::text::digits;
use crate::text::hexadecimal;
use crate::text::hexadecimal_string;
use crate::text::law_digits_stand_for_number;
use crate::text::number_of;
use crate::text::opt_text;
use crate::text::starts_with;
use crate::text::str_starts_with;

verus! {

/// What is done with the source of a module.
#[derive(Debug)]
pub enum SourceKind {
    /// It is TypeScript, and is compiled.
    TypeScript,
    /// It is JavaScript, and stays as it is.
    JavaScript,
    /// It is neither, which is a mistake; the message says so.
    Unsupported(String),
}

/// What is done with the source of a module, by its name and the type that its
/// path has. Built-in modules are always compiled, since they might be
/// TypeScript.
pub open spec fn is_kind(kind: SourceKind, name: Seq<char>, by_path: MediaType) -> bool {
    if starts_with(name, "node:"@) || by_path == MediaType::TypeScript {
        kind is TypeScript
    } else if by_path == MediaType::JavaScript || by_path == MediaType::Mjs {
        kind is JavaScript
    } else {
        &&& kind matches SourceKind::Unsupported(message)
        &&& message@ == "Unsupported media type for snapshotting "@ + by_path.name()
            + " for file "@ + name
    }
}

/// What is done with the source of a module, given the type that its path has.
pub fn source_kind(name: &str, by_path: MediaType) -> (r: SourceKind)
    ensures
        is_kind(r, name@, by_path),
{
    if str_starts_with(name, "node:") {
        return SourceKind::TypeScript;
    }
    match by_path {
        MediaType::TypeScript => SourceKind::TypeScript,
        MediaType::JavaScript | MediaType::Mjs => SourceKind::JavaScript,
        _ => SourceKind::Unsupported(
            concat4(
                "Unsupported media type for snapshotting ",
                by_path.to_name(),
                " for file ",
                name,
            ),
        ),
    }
}

/// Modules and scripts have plain paths, by which they are told apart.
proof fn lemma_path_kinds(name: Seq<char>)
    ensures
        is_module_path(name) ==> is_plain_path(name) && type_of_path(name) == MediaType::TypeScript,
        is_script_path(name) ==> is_plain_path(name) && (type_of_path(name)
            == MediaType::JavaScript || type_of_path(name) == MediaType::Mjs),
{
    if is_module_path(name) {
        lemma_module_path(name);
    }
    if is_script_path(name) {
        lemma_script_path(name);
    }
}

/// What is done with the source of a module. Of a path that is not plain it is
/// only known that its type decides.
pub fn classify(name: &str) -> (r: SourceKind)
    ensures
        exists|by_path: MediaType| #[trigger] is_kind(r, name@, by_path),
        is_plain_path(name@) ==> is_kind(r, name@, type_of_path(name@)),
        starts_with(name@, "node:"@) ==> r is TypeScript,
        is_module_path(name@) ==> r is TypeScript,
        is_script_path(name@) && !starts_with(name@, "node:"@) ==> r is JavaScript,
{
    let by_path: MediaType = media_type_of_path(name);
    let kind: SourceKind = source_kind(name, by_path);
    assert(is_kind(kind, name@, by_path));
    proof {
        lemma_path_kinds(name@);
    }
    kind
}

/// The source of a module, and the source map back to what it was compiled from.
#[derive(Debug)]
pub struct ModuleSource {
    pub text: String,
    pub source_map: Option<Vec<u8>>,
}

/// What the source of a module says.
#[verifier::ext_equal]
pub struct SourceView {
    pub text: Seq<char>,
    pub source_map: Option<Seq<u8>>,
}

impl View for ModuleSource {
    type V = SourceView;

    open spec fn view(&self) -> SourceView {
        SourceView { text: self.text@, source_map: opt_bytes(self.source_map) }
    }
}

/// The bytes and the source map that `deno_ast` compiles the text of a TypeScript
/// module to, or the message of its error.
pub uninterp spec fn transpiled(
    specifier: Seq<char>,
    text: Seq<char>,
    separate_map: bool,
) -> Result<(Seq<u8>, Option<Seq<u8>>), Seq<char>>;

/// The message of the error with which `String::from_utf8` refuses bytes.
pub uninterp spec fn utf8_error(bytes: Seq<u8>) -> Seq<char>;

/// Calls `deno_ast::parse_module` on TypeScript, then `transpile`, which drops
/// imports that are not used as values, with a source map of its own or with
/// none. A text that begins with a byte order mark is left out, since the parser
/// asserts that there is none.
#[verifier::external_body]
fn transpile(specifier: &str, text: &str, separate_map: bool) -> (r: Result<
    (Vec<u8>, Option<Vec<u8>>),
    String,
>)
    requires
        parsed_url(specifier@) is Ok,
        !starts_with(text@, BYTE_ORDER_MARK@),
    ensures
        match r {
            Ok((bytes, map)) => transpiled(specifier@, text@, separate_map) == Ok::<_, Seq<char>>(
                (bytes@, opt_bytes(map)),
            ),
            Err(message) => transpiled(specifier@, text@, separate_map) == Err::<
                (Seq<u8>, Option<Seq<u8>>),
                _,
            >(message@),
        },
{
    let specifier = url::Url::parse(specifier).map_err(|e| e.to_string())?;
    let (media_type, text, maybe_syntax) = (AstMediaType::TypeScript, text.into(), None);
    let (capture_tokens, scope_analysis) = (false, false);
    let parsed = parse_module(ParseParams {
        specifier, text, media_type, capture_tokens, scope_analysis, maybe_syntax,
    }).map_err(|e| e.to_string())?;
    let imports_not_used_as_values = ImportsNotUsedAsValues::Remove;
    let options = TranspileOptions { imports_not_used_as_values, ..Default::default() };
    let source_map = if separate_map { SourceMapOption::Separate } else { SourceMapOption::None };
    let emit = EmitOptions { source_map, ..Default::default() };
    let result = parsed.transpile(&options, &emit).map_err(|e| e.to_string())?.into_source();
    Ok((result.source, result.source_map))
}

/// Calls `String::from_utf8`.
#[verifier::external_body]
fn string_from_utf8(bytes: Vec<u8>) -> (r: Result<String, String>)
    ensures
        match r {
            Ok(text) => valid_utf8(bytes@) && text@ == decode_utf8(bytes@),
            Err(message) => !valid_utf8(bytes@) && message@ == utf8_error(bytes@),
        },
{
    String::from_utf8(bytes).map_err(|error| error.to_string())
}

/// The source of a module that was compiled to these bytes.
pub open spec fn source_of(bytes: Seq<u8>, source_map: Option<Seq<u8>>) -> Result<
    SourceView,
    ErrorView,
> {
    if valid_utf8(bytes) {
        Ok(SourceView { text: decode_utf8(bytes), source_map })
    } else {
        Err(generic_error_view(utf8_error(bytes)))
    }
}

/// The source of a module that was compiled to these bytes.
pub fn finish_transpile(bytes: Vec<u8>, source_map: Option<Vec<u8>>) -> (r: Result<
    ModuleSource,
    AnyError,
>)
    ensures
        result_view(r) == source_of(bytes@, opt_bytes(source_map)),
{
    match string_from_utf8(bytes) {
        Ok(text) => Ok(ModuleSource { text, source_map }),
        Err(message) => Err(generic_error(message.as_str())),
    }
}

/// The character that may stand before a text to say how it is encoded.
pub const BYTE_ORDER_MARK: &'static str = "\u{feff}";

/// A text without the byte order mark that stands before it, if one does.
pub open spec fn without_mark(text: Seq<char>) -> Seq<char> {
    if starts_with(text, BYTE_ORDER_MARK@) {
        text.skip(1)
    } else {
        text
    }
}

/// A text without the byte order mark that stands before it, if one does.
pub fn strip_mark(text: &str) -> (r: &str)
    ensures
        r@ == without_mark(text@),
{
    if str_starts_with(text, BYTE_ORDER_MARK) {
        proof {
            reveal_strlit("\u{feff}");
        }
        let len: usize = text.unicode_len();
        assert(text@.subrange(1, len as int) =~= text@.skip(1));
        text.substring_char(1, len)
    } else {
        text
    }
}

/// What a TypeScript module is compiled to. A byte order mark before its text is
/// no part of it.
pub open spec fn compiled(name: Seq<char>, source: Seq<char>, separate_map: bool) -> Result<
    SourceView,
    ErrorView,
> {
    match transpiled(name, without_mark(source), separate_map) {
        Err(message) => Err(generic_error_view(message)),
        Ok((bytes, source_map)) => source_of(bytes, source_map),
    }
}

/// A module can be compiled: its name is a URL and no second byte order mark
/// stands before its text.
pub open spec fn can_compile(name: Seq<char>, source: Seq<char>) -> bool {
    specifier_of(name) is Ok && !starts_with(without_mark(source), BYTE_ORDER_MARK@)
}

/// Compiles a TypeScript module. There is no result where it cannot be compiled.
pub fn transpile_source(name: &str, source: &str, separate_map: bool) -> (r: Option<
    Result<ModuleSource, AnyError>,
>)
    ensures
        r is Some <==> can_compile(name@, source@),
        r matches Some(result) ==> result_view(result) == compiled(name@, source@, separate_map),
{
    let text: &str = strip_mark(source);
    if str_starts_with(text, BYTE_ORDER_MARK) {
        return None;
    }
    match resolve_url(name) {
        Err(_) => None,
        Ok(_) => match transpile(name, text, separate_map) {
            Err(message) => Some(Err(generic_error(message.as_str()))),
            Ok((bytes, source_map)) => Some(finish_transpile(bytes, source_map)),
        },
    }
}

/// The name of the directory of the cache.
pub const CACHE_DIRECTORY: &'static str = "deno_rt_ext_transpile_cache";

/// The name of the cached JavaScript for a source with a hash.
pub open spec fn js_name(hash: nat) -> Seq<char> {
    hexadecimal(hash) + ".js"@
}

/// The name of the cached source map for a source with a hash.
pub open spec fn map_name(hash: nat) -> Seq<char> {
    hexadecimal(hash) + ".js.map"@
}

/// The name under which the JavaScript is first written.
pub open spec fn js_tmp_name(hash: nat, suffix: nat) -> Seq<char> {
    hexadecimal(hash) + "-"@ + decimal(suffix) + ".js"@
}

/// The name under which the source map is first written.
pub open spec fn map_tmp_name(hash: nat, suffix: nat) -> Seq<char> {
    hexadecimal(hash) + "-"@ + decimal(suffix) + ".js.map"@
}

/// The name of the cached JavaScript.
pub fn js_file(hash: u64) -> (r: String)
    ensures
        r@ == js_name(hash as nat),
{
    concat2(hexadecimal_string(hash).as_str(), ".js")
}

/// The name of the cached source map.
pub fn map_file(hash: u64) -> (r: String)
    ensures
        r@ == map_name(hash as nat),
{
    concat2(hexadecimal_string(hash).as_str(), ".js.map")
}

/// Hashes a source together with the options of `deno_ast`, through the impls of
/// `Hash` that they have, with the default hasher of std. The hash depends on the
/// machine and on the versions of both, so nothing is said of it.
#[verifier::external_body]
fn hash_of(source: &str, separate_map: bool) -> (r: u64) {
    let imports_not_used_as_values = ImportsNotUsedAsValues::Remove;
    let options = TranspileOptions { imports_not_used_as_values, ..Default::default() };
    let source_map = if separate_map { SourceMapOption::Separate } else { SourceMapOption::None };
    let emit = EmitOptions { source_map, ..Default::default() };
    let mut hasher = std::hash::DefaultHasher::new();
    (source, options, emit).hash(&mut hasher);
    hasher.finish()
}

/// Where a compiled module is in the cache: under names that are made of a hash,
/// with a source map of its own or without.
#[derive(Debug)]
pub struct CacheFiles {
    pub hash: u64,
    pub js: String,
    pub map: Option<String>,
}

impl CacheFiles {
    /// The names are those of the hash.
    pub open spec fn wf(self, separate_map: bool) -> bool {
        &&& self.js@ == js_name(self.hash as nat)
        &&& opt_text(self.map) == if separate_map {
            Some(map_name(self.hash as nat))
        } else {
            None
        }
    }
}

/// Where a module with a hash is in the cache, given the type that its path has:
/// only what is compiled is kept there.
pub fn files_of_kind(name: &str, by_path: MediaType, hash: u64, separate_map: bool) -> (r: Option<
    CacheFiles,
>)
    ensures
        r is Some <==> starts_with(name@, "node:"@) || by_path == MediaType::TypeScript,
        r matches Some(files) ==> files.hash == hash && files.wf(separate_map),
{
    match source_kind(name, by_path) {
        SourceKind::TypeScript => {
            let map: Option<String> = if separate_map {
                Some(map_file(hash))
            } else {
                None
            };
            Some(CacheFiles { hash, js: js_file(hash), map })
        },
        _ => None,
    }
}

/// Where a module is looked for in the cache. Of a path that is not plain it is
/// only known that its type decides whether it is.
pub fn cache_files(name: &str, source: &str, separate_map: bool) -> (r: Option<CacheFiles>)
    ensures
        r matches Some(files) ==> files.wf(separate_map),
        starts_with(name@, "node:"@) ==> r is Some,
        is_plain_path(name@) ==> (r is Some <==> starts_with(name@, "node:"@) || type_of_path(name@)
            == MediaType::TypeScript),
        is_module_path(name@) ==> r is Some,
        is_script_path(name@) && !starts_with(name@, "node:"@) ==> r is None,
{
    let by_path: MediaType = media_type_of_path(name);
    proof {
        lemma_path_kinds(name@);
    }
    files_of_kind(name, by_path, hash_of(source, separate_map), separate_map)
}

/// What is found in the cache: the JavaScript, and the source map where one is
/// wanted. Where either is missing nothing is found.
pub open spec fn cached_source(
    js: Option<Seq<char>>,
    separate_map: bool,
    map: Option<Seq<u8>>,
) -> Option<SourceView> {
    match js {
        None => None,
        Some(text) => if !separate_map {
            Some(SourceView { text, source_map: None })
        } else {
            match map {
                Some(map) => Some(SourceView { text, source_map: Some(map) }),
                None => None,
            }
        },
    }
}

/// What is found in the cache.
pub fn from_cache(js: Option<String>, separate_map: bool, map: Option<Vec<u8>>) -> (r: Option<
    ModuleSource,
>)
    ensures
        match r {
            Some(source) => cached_source(
                opt_text(js),
                separate_map,
                opt_bytes(map),
            ) == Some(source@),
            None => cached_source(
                opt_text(js),
                separate_map,
                opt_bytes(map),
            ) is None,
        },
{
    match js {
        None => None,
        Some(text) => if !separate_map {
            Some(ModuleSource { text, source_map: None })
        } else {
            match map {
                Some(map) => Some(ModuleSource { text, source_map: Some(map) }),
                None => None,
            }
        },
    }
}

/// What is done with a file of the cache.
#[derive(Debug)]
pub enum FileStep {
    Write { name: String, bytes: Vec<u8> },
    Rename { from: String, to: String },
}

/// What is done with a file of the cache.
#[verifier::ext_equal]
pub enum StepView {
    Write { name: Seq<char>, bytes: Seq<u8> },
    Rename { from: Seq<char>, to: Seq<char> },
}

impl View for FileStep {
    type V = StepView;

    open spec fn view(&self) -> StepView {
        match self {
            FileStep::Write { name, bytes } => StepView::Write { name: name@, bytes: bytes@ },
            FileStep::Rename { from, to } => StepView::Rename { from: from@, to: to@ },
        }
    }
}

/// What the steps say.
pub open spec fn steps_view(steps: Seq<FileStep>) -> Seq<StepView> {
    Seq::new(steps.len(), |i: int| steps[i]@)
}

/// How a source is stored: it is written under other names first, so that
/// whoever looks meanwhile finds nothing half written.
pub open spec fn store_plan(hash: nat, suffix: nat, source: SourceView) -> Seq<StepView> {
    let js = StepView::Write { name: js_tmp_name(hash, suffix), bytes: encode_utf8(source.text) };
    let rename_js = StepView::Rename { from: js_tmp_name(hash, suffix), to: js_name(hash) };
    match source.source_map {
        Some(map) => seq![
            js,
            StepView::Write { name: map_tmp_name(hash, suffix), bytes: map },
            rename_js,
            StepView::Rename { from: map_tmp_name(hash, suffix), to: map_name(hash) },
        ],
        None => seq![js, rename_js],
    }
}

/// How a source is stored.
pub fn store_steps(hash: u64, suffix: u32, source: &ModuleSource) -> (r: Vec<FileStep>)
    ensures
        steps_view(r@) == store_plan(hash as nat, suffix as nat, source@),
{
    let hex: String = hexadecimal_string(hash);
    let number: String = decimal_string(suffix as u64);
    let js_tmp: String = concat4(hex.as_str(), "-", number.as_str(), ".js");
    let map_tmp: String = concat4(hex.as_str(), "-", number.as_str(), ".js.map");
    let mut steps: Vec<FileStep> = Vec::new();
    let bytes: Vec<u8> = vstd::slice::slice_to_vec(source.text.as_str().as_bytes());
    steps.push(FileStep::Write { name: js_tmp.clone(), bytes });
    if let Some(map) = &source.source_map {
        steps.push(FileStep::Write { name: map_tmp.clone(), bytes: bytes_clone(map) });
    }
    steps.push(FileStep::Rename { from: js_tmp, to: js_file(hash) });
    if source.source_map.is_some() {
        steps.push(FileStep::Rename { from: map_tmp, to: map_file(hash) });
    }
    assert(steps_view(steps@) =~= store_plan(hash as nat, suffix as nat, source@));
    steps
}

/// What is found in the cache for a source, by the hash of the source, and the
/// number by which the names of files that are written now differ from others'.
#[derive(Debug)]
pub struct CacheLookup {
    pub hash: u64,
    pub suffix: u32,
    pub js: Option<String>,
    pub map: Option<Vec<u8>>,
}

impl CacheLookup {
    /// What is found.
    pub open spec fn found(self, separate_map: bool) -> Option<SourceView> {
        cached_source(opt_text(self.js), separate_map, opt_bytes(self.map))
    }
}

/// The source that a module has in the end, and the steps by which it is stored.
#[derive(Debug)]
pub struct TranspiledSource {
    pub source: ModuleSource,
    pub store: Vec<FileStep>,
}

/// What becomes of the source of a module.
#[derive(Debug)]
pub enum SourceOutcome {
    /// This is its JavaScript.
    Ready(TranspiledSource),
    /// It could not be compiled.
    Failed(AnyError),
    /// It is neither TypeScript nor JavaScript, which is a mistake; the message
    /// says so.
    Unsupported(String),
    /// It would have to be compiled, and its name is no URL or two byte order
    /// marks stand before its text, which is a mistake.
    NotCompilable,
}

/// What becomes of the source of a module whose path has this type. JavaScript
/// stays as it is, and nothing is stored. TypeScript that is in the cache is
/// taken from there, and nothing is stored; else it is compiled and stored.
pub open spec fn is_outcome(
    outcome: SourceOutcome,
    name: Seq<char>,
    source: Seq<char>,
    by_path: MediaType,
    separate_map: bool,
    cache: CacheLookup,
) -> bool {
    if starts_with(name, "node:"@) || by_path == MediaType::TypeScript {
        match (cache.found(separate_map), outcome) {
            (Some(found), SourceOutcome::Ready(t)) => t.source@ == found && t.store@.len() == 0,
            (Some(_), _) => false,
            (None, SourceOutcome::Ready(t)) => {
                &&& can_compile(name, source)
                &&& compiled(name, source, separate_map) == Ok::<_, ErrorView>(t.source@)
                &&& steps_view(t.store@) == store_plan(
                    cache.hash as nat,
                    cache.suffix as nat,
                    t.source@,
                )
            },
            (None, SourceOutcome::Failed(e)) => {
                &&& can_compile(name, source)
                &&& compiled(name, source, separate_map) == Err::<SourceView, _>(e@)
            },
            (None, SourceOutcome::NotCompilable) => !can_compile(name, source),
            (None, SourceOutcome::Unsupported(_)) => false,
        }
    } else if by_path == MediaType::JavaScript || by_path == MediaType::Mjs {
        &&& outcome matches SourceOutcome::Ready(t)
        &&& t.source@ == (SourceView { text: source, source_map: None })
        &&& t.store@.len() == 0
    } else {
        &&& outcome matches SourceOutcome::Unsupported(message)
        &&& is_kind(SourceKind::Unsupported(message), name, by_path)
    }
}

/// What becomes of the source of a module, given the type that its path has.
pub fn outcome_of_kind(
    name: &str,
    source: String,
    by_path: MediaType,
    separate_map: bool,
    cache: CacheLookup,
) -> (r: SourceOutcome)
    ensures
        is_outcome(r, name@, source@, by_path, separate_map, cache),
{
    match source_kind(name, by_path) {
        SourceKind::Unsupported(message) => return SourceOutcome::Unsupported(message),
        SourceKind::JavaScript => {
            let source: ModuleSource = ModuleSource { text: source, source_map: None };
            return SourceOutcome::Ready(TranspiledSource { source, store: Vec::new() });
        },
        SourceKind::TypeScript => {},
    }
    let (hash, suffix): (u64, u32) = (cache.hash, cache.suffix);
    match from_cache(cache.js, separate_map, cache.map) {
        Some(source) => SourceOutcome::Ready(TranspiledSource { source, store: Vec::new() }),
        None => match transpile_source(name, source.as_str(), separate_map) {
            None => SourceOutcome::NotCompilable,
            Some(Err(e)) => SourceOutcome::Failed(e),
            Some(Ok(source)) => {
                let store: Vec<FileStep> = store_steps(hash, suffix, &source);
                SourceOutcome::Ready(TranspiledSource { source, store })
            },
        },
    }
}

/// What becomes of the source of a module. Of a path that is not plain it is only
/// known that its type decides.
pub fn maybe_transpile_source(
    name: &str,
    source: String,
    separate_map: bool,
    cache: CacheLookup,
) -> (r: SourceOutcome)
    ensures
        exists|by_path: MediaType| #[trigger]
            is_outcome(r, name@, source@, by_path, separate_map, cache),
        is_plain_path(name@) ==> is_outcome(
            r,
            name@,
            source@,
            type_of_path(name@),
            separate_map,
            cache,
        ),
        starts_with(name@, "node:"@) ==> is_outcome(
            r,
            name@,
            source@,
            MediaType::TypeScript,
            separate_map,
            cache,
        ),
        is_module_path(name@) ==> is_outcome(
            r,
            name@,
            source@,
            MediaType::TypeScript,
            separate_map,
            cache,
        ),
        is_script_path(name@) && !starts_with(name@, "node:"@) ==> is_outcome(
            r,
            name@,
            source@,
            MediaType::JavaScript,
            separate_map,
            cache,
        ),
{
    let by_path: MediaType = media_type_of_path(name);
    proof {
        lemma_path_kinds(name@);
    }
    outcome_of_kind(name, source, by_path, separate_map, cache)
}

/// The files of a directory after the first `n` steps.
pub open spec fn files_after(
    files: Map<Seq<char>, Seq<u8>>,
    steps: Seq<StepView>,
    n: nat,
) -> Map<Seq<char>, Seq<u8>>
    decreases n,
{
    if n == 0 {
        files
    } else {
        let before = files_after(files, steps, (n - 1) as nat);
        match steps[n - 1] {
            StepView::Write { name, bytes } => before.insert(name, bytes),
            StepView::Rename { from, to } => if before.contains_key(from) {
                before.insert(to, before[from]).remove(from)
            } else {
                before
            },
        }
    }
}

/// The names of the files of a source are all different.
proof fn lemma_names_differ(hash: nat, suffix: nat)
    ensures
        js_name(hash) != map_name(hash),
        js_name(hash) != js_tmp_name(hash, suffix),
        js_name(hash) != map_tmp_name(hash, suffix),
        map_name(hash) != js_tmp_name(hash, suffix),
        map_name(hash) != map_tmp_name(hash, suffix),
        js_tmp_name(hash, suffix) != map_tmp_name(hash, suffix),
{
    reveal_strlit(".js");
    reveal_strlit(".js.map");
    reveal_strlit("-");
    let n = hexadecimal(hash).len() as int;
    assert(js_name(hash)[n] == '.');
    assert(map_name(hash)[n] == '.');
    assert(js_tmp_name(hash, suffix)[n] == '-');
    assert(map_tmp_name(hash, suffix)[n] == '-');
    assert(js_name(hash).len() == n + 3);
    assert(map_name(hash).len() == n + 7);
    assert(js_tmp_name(hash, suffix).len() == n + 1 + decimal(suffix).len() + 3);
    assert(map_tmp_name(hash, suffix).len() == n + 1 + decimal(suffix).len() + 7);
}

/// A source that was stored is found again, with its source map where it has
/// one, and nothing is left under the names under which it was first written.
pub proof fn law_stored_source_is_found(
    files: Map<Seq<char>, Seq<u8>>,
    hash: nat,
    suffix: nat,
    source: SourceView,
)
    ensures
        ({
            let plan = store_plan(hash, suffix, source);
            let after = files_after(files, plan, plan.len());
            &&& after.contains_key(js_name(hash))
            &&& valid_utf8(after[js_name(hash)])
            &&& source.source_map is Some ==> after.contains_key(map_name(hash))
            &&& cached_source(
                Some(decode_utf8(after[js_name(hash)])),
                source.source_map is Some,
                Some(after[map_name(hash)]),
            ) == Some(source)
            &&& !after.contains_key(js_tmp_name(hash, suffix))
            &&& source.source_map is Some ==> !after.contains_key(map_tmp_name(hash, suffix))
        }),
{
    lemma_names_differ(hash, suffix);
    encode_utf8_decode_utf8(source.text);
    encode_utf8_valid_utf8(source.text);
    reveal_with_fuel(files_after, 5);
}

/// What is done with a module: it is compiled exactly where it is built in or its
/// path has the type of TypeScript; it stays as it is exactly where it is not built
/// in and its path has that of a script; and any other is refused with a message that
/// names the type and the file.
pub proof fn law_kinds_of_modules(kind: SourceKind, name: Seq<char>, by_path: MediaType)
    requires
        is_kind(kind, name, by_path),
    ensures
        ({
            let built_in = name.len() >= 5 && name.subrange(0, 5) == "node:"@;
            &&& kind is TypeScript <==> built_in || by_path == MediaType::TypeScript
            &&& kind is JavaScript <==> !built_in && (by_path == MediaType::JavaScript || by_path
                == MediaType::Mjs)
            &&& kind matches SourceKind::Unsupported(message) ==> message@
                == "Unsupported media type for snapshotting "@ + by_path.name() + " for file "@
                + name
        }),
{
    reveal_strlit("node:");
}

/// JavaScript that is not built in comes back as it is, without a map, and nothing is
/// stored, whatever is in the cache.
pub proof fn law_scripts_come_back(
    outcome: SourceOutcome,
    name: Seq<char>,
    source: Seq<char>,
    by_path: MediaType,
    separate_map: bool,
    cache: CacheLookup,
)
    requires
        is_outcome(outcome, name, source, by_path, separate_map, cache),
        !starts_with(name, "node:"@),
        by_path == MediaType::JavaScript || by_path == MediaType::Mjs,
    ensures
        outcome matches SourceOutcome::Ready(t) && t.source.text@ == source
            && t.source.source_map is None && t.store@.len() == 0,
{
}

/// A module that is neither TypeScript nor JavaScript is refused, and no other is.
pub proof fn law_others_are_refused(
    outcome: SourceOutcome,
    name: Seq<char>,
    source: Seq<char>,
    by_path: MediaType,
    separate_map: bool,
    cache: CacheLookup,
)
    requires
        is_outcome(outcome, name, source, by_path, separate_map, cache),
    ensures
        outcome is Unsupported <==> !starts_with(name, "node:"@) && by_path
            != MediaType::TypeScript && by_path != MediaType::JavaScript && by_path
            != MediaType::Mjs,
{
}

/// A module that is compiled is taken from the cache where its JavaScript is there,
/// with its map where one is wanted, and nothing is stored. Else what the compiler
/// makes of the text, without a byte order mark, is what it has, and that is stored;
/// the compiler's error is passed on.
pub proof fn law_compiled_modules(
    outcome: SourceOutcome,
    name: Seq<char>,
    source: Seq<char>,
    by_path: MediaType,
    separate_map: bool,
    cache: CacheLookup,
)
    requires
        is_outcome(outcome, name, source, by_path, separate_map, cache),
        starts_with(name, "node:"@) || by_path == MediaType::TypeScript,
    ensures
        ({
            let cached = cache.js is Some && (separate_map ==> cache.map is Some);
            let text = if source.len() > 0 && source[0] == '\u{feff}' {
                source.skip(1)
            } else {
                source
            };
            &&& cached ==> {
                &&& outcome matches SourceOutcome::Ready(t)
                &&& t.source.text@ == cache.js->0@
                &&& separate_map ==> opt_bytes(t.source.source_map) == Some(cache.map->0@)
                &&& !separate_map ==> t.source.source_map is None
                &&& t.store@.len() == 0
            }
            &&& !cached ==> match outcome {
                SourceOutcome::Ready(t) => {
                    &&& transpiled(name, text, separate_map) matches Ok((bytes, map))
                    &&& valid_utf8(bytes)
                    &&& t.source.text@ == decode_utf8(bytes)
                    &&& opt_bytes(t.source.source_map) == map
                    &&& steps_view(t.store@) == store_plan(
                        cache.hash as nat,
                        cache.suffix as nat,
                        t.source@,
                    )
                },
                SourceOutcome::Failed(e) => match transpiled(name, text, separate_map) {
                    Err(message) => e@.message == message,
                    Ok((bytes, _)) => !valid_utf8(bytes),
                },
                SourceOutcome::NotCompilable => specifier_of(name) is Err || (text.len() > 0
                    && text[0] == '\u{feff}'),
                SourceOutcome::Unsupported(_) => false,
            }
        }),
{
    reveal_strlit("\u{feff}");
    assert forall|t: Seq<char>| #[trigger]
        starts_with(t, BYTE_ORDER_MARK@) == (t.len() > 0 && t[0] == '\u{feff}') by {
        if t.len() > 0 {
            assert(t.subrange(0, 1)[0] == t[0]);
            if t[0] == '\u{feff}' {
                assert(t.subrange(0, 1) =~= BYTE_ORDER_MARK@);
            }
        }
    }
}

/// The names of cached files: the hash in hexadecimal and an extension, with the
/// number behind a dash where the file is first written.
pub proof fn law_names_of_cached_files(hash: nat, suffix: nat)
    ensures
        ({
            let hex = digits(hash, 16);
            &&& number_of(hex, 16) == hash
            &&& js_name(hash) == hex + seq!['.', 'j', 's']
            &&& map_name(hash) == hex + seq!['.', 'j', 's', '.', 'm', 'a', 'p']
            &&& js_tmp_name(hash, suffix) == hex + seq!['-'] + digits(suffix, 10) + seq![
                '.',
                'j',
                's',
            ]
            &&& map_tmp_name(hash, suffix) == hex + seq!['-'] + digits(suffix, 10) + seq![
                '.',
                'j',
                's',
                '.',
                'm',
                'a',
                'p',
            ]
            &&& number_of(digits(suffix, 10), 10) == suffix
        }),
{
    reveal_strlit(".js");
    reveal_strlit(".js.map");
    reveal_strlit("-");
    law_digits_stand_for_number(hash, 16);
    law_digits_stand_for_number(suffix, 10);
    assert(".js"@ =~= seq!['.', 'j', 's']);
    assert(".js.map"@ =~= seq!['.', 'j', 's', '.', 'm', 'a', 'p']);
    assert("-"@ =~= seq!['-']);
}

/// A source and the steps by which it is stored say all that they hold.
pub proof fn law_sources_say_what_they_hold(
    source: ModuleSource,
    step: FileStep,
    steps: Vec<FileStep>,
)
    ensures
        source@.text == source.text@ && source@.source_map == opt_bytes(source.source_map),
        match (step, step@) {
            (FileStep::Write { name: a, bytes: b }, StepView::Write { name: x, bytes: y }) => a@
                == x && b@ == y,
            (FileStep::Rename { from: a, to: b }, StepView::Rename { from: x, to: y }) => a@ == x
                && b@ == y,
            _ => false,
        },
        steps_view(steps@).len() == steps@.len(),
        forall|i: int| 0 <= i < steps@.len() ==> #[trigger] steps_view(steps@)[i] == steps@[i]@,
{
}

/// What is stored is written under names of its own first and then renamed, the
/// JavaScript and, where there is one, the map: as many steps for each.
pub proof fn law_stored_in_two_steps(hash: nat, suffix: nat, source: SourceView)
    ensures
        ({
            let plan = store_plan(hash, suffix, source);
            &&& plan.len() == if source.source_map is Some {
                4int
            } else {
                2
            }
            &&& plan[0] == (StepView::Write {
                name: js_tmp_name(hash, suffix),
                bytes: encode_utf8(source.text),
            })
            &&& plan.contains(
                StepView::Rename { from: js_tmp_name(hash, suffix), to: js_name(hash) },
            )
            &&& source.source_map matches Some(map) ==> plan[1] == (StepView::Write {
                name: map_tmp_name(hash, suffix),
                bytes: map,
            }) && plan[3] == (StepView::Rename {
                from: map_tmp_name(hash, suffix),
                to: map_name(hash),
            })
        }),
{
    let plan = store_plan(hash, suffix, source);
    if source.source_map is Some {
        assert(plan[2] == (StepView::Rename { from: js_tmp_name(hash, suffix), to: js_name(hash) }));
    } else {
        assert(plan[1] == (StepView::Rename { from: js_tmp_name(hash, suffix), to: js_name(hash) }));
    }
}

/// A module can be compiled where its name is a URL, unless two byte order marks stand
/// before its text; the first mark is no part of what is compiled.
pub proof fn law_what_can_be_compiled(name: Seq<char>, source: Seq<char>)
    ensures
        can_compile(name, source) <==> specifier_of(name) is Ok && !(source.len() >= 2 && source[0]
            == '\u{feff}' && source[1] == '\u{feff}'),
        source.len() > 0 && source[0] == '\u{feff}' ==> without_mark(source) == source.skip(1),
        source.len() == 0 || source[0] != '\u{feff}' ==> without_mark(source) == source,
{
    reveal_strlit("\u{feff}");
    assert forall|t: Seq<char>| #[trigger]
        starts_with(t, BYTE_ORDER_MARK@) == (t.len() > 0 && t[0] == '\u{feff}') by {
        if t.len() > 0 {
            assert(t.subrange(0, 1)[0] == t[0]);
            if t[0] == '\u{feff}' {
                assert(t.subrange(0, 1) =~= BYTE_ORDER_MARK@);
            }
        }
    }
}

/// What a module was compiled to is the text that the bytes encode, with its map; bytes
/// that are no text are an error.
pub proof fn law_source_of_compiled_bytes(bytes: Seq<u8>, map: Option<Seq<u8>>)
    ensures
        match source_of(bytes, map) {
            Ok(source) => valid_utf8(bytes) && source.text == decode_utf8(bytes)
                && source.source_map == map,
            Err(e) => !valid_utf8(bytes) && e.message == utf8_error(bytes),
        },
{
}

/// What is in the cache is found where the JavaScript is there and the map too, if one
/// is wanted.
pub proof fn law_what_is_found_in_the_cache(
    js: Option<Seq<char>>,
    separate_map: bool,
    map: Option<Seq<u8>>,
)
    ensures
        match cached_source(js, separate_map, map) {
            Some(source) => js == Some(source.text) && source.source_map == (if separate_map {
                map
            } else {
                None
            }) && (separate_map ==> map is Some),
            None => js is None || (separate_map && map is None),
        },
{
}

} // verus!
