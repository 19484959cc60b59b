//! Assets: files that the compiler or the program carries with it.
use vstd::hash_map::StringHashMap;
use vstd::prelude::*;
use crate::error::AnyError;
use crate::error::ErrorView;
use crate::lsp::lines::lemma_utf16_len_of_parts;
use crate::lsp::lines::starts_of;
use crate::lsp::lines::utf16_len;
use crate::lsp::lines::utf16_length;
use crate::lsp::lines::LineIndex;
use crate::specifier::resolve_url;
use crate::specifier::specifier_of;
use crate::text::concat2;
use crate::text::opt_str;
use crate::text::str_without;
use crate::text::without;

verus! {

/// An lsp representation of an asset in memory, that has either been retrieved
/// from static assets built into Rust, or static assets built into tsc.
#[derive(Debug)]
pub struct AssetDocument {
    pub text: String,
    pub length: usize,
    pub line_index: LineIndex,
}

/// What an asset says.
#[verifier::ext_equal]
pub struct AssetView {
    pub text: Seq<char>,
    pub length: nat,
    pub starts: Seq<u32>,
}

impl View for AssetDocument {
    type V = AssetView;

    open spec fn view(&self) -> AssetView {
        AssetView { text: self.text@, length: self.length as nat, starts: self.line_index@ }
    }
}

/// The asset of a text: with its length in UTF-16 code units and the starts of
/// its lines.
pub open spec fn asset_of(text: Seq<char>) -> AssetView {
    AssetView { text, length: utf16_len(text), starts: starts_of(text) }
}

impl AssetDocument {
    /// The asset of a text.
    pub fn new(text: &str) -> (r: AssetDocument)
        requires
            utf16_len(text@) <= u32::MAX,
        ensures
            r@ == asset_of(text@),
    {
        AssetDocument {
            text: text.to_owned(),
            length: utf16_length(text),
            line_index: LineIndex::new(text),
        }
    }
}

impl Clone for AssetDocument {
    fn clone(&self) -> (r: Self)
        ensures
            r@ == self@,
    {
        AssetDocument {
            text: self.text.clone(),
            length: self.length,
            line_index: self.line_index.clone(),
        }
    }
}

/// What an optional asset says.
pub open spec fn opt_asset(asset: Option<AssetDocument>) -> Option<AssetView> {
    match asset {
        Some(asset) => Some(asset@),
        None => None,
    }
}

/// The assets that are known, by specifier, and those that are known not to be
/// there.
pub struct Assets {
    assets: StringHashMap<Option<AssetDocument>>,
}

impl View for Assets {
    type V = Map<Seq<char>, Option<AssetView>>;

    closed spec fn view(&self) -> Map<Seq<char>, Option<AssetView>> {
        self.assets@.map_values(|asset: Option<AssetDocument>| opt_asset(asset))
    }
}

/// The assets of the first `n` of a list of names and texts, each under its name
/// behind the scheme `asset`.
pub open spec fn static_assets(list: Seq<(String, String)>, n: nat) -> Map<
    Seq<char>,
    Option<AssetView>,
>
    decreases n,
{
    if n == 0 {
        Map::empty()
    } else {
        static_assets(list, (n - 1) as nat).insert(
            specifier_of("asset:///"@ + list[n - 1].0@)->Ok_0,
            Some(asset_of(list[n - 1].1@)),
        )
    }
}

impl Assets {
    /// No assets yet.
    pub fn new() -> (r: Assets)
        ensures
            r@ == Map::<Seq<char>, Option<AssetView>>::empty(),
    {
        let r: Assets = Assets { assets: StringHashMap::new() };
        assert(r@ =~= Map::empty());
        r
    }

    /// The assets of a list of names and texts, or the error for the first name
    /// that cannot be in a specifier.
    pub fn from_static(list: &Vec<(String, String)>) -> (r: Result<Assets, AnyError>)
        requires
            forall|i: int| 0 <= i < list@.len() ==> utf16_len((#[trigger] list@[i]).1@) <= u32::MAX,
        ensures
            match r {
                Ok(assets) => {
                    &&& assets@ == static_assets(list@, list@.len())
                    &&& forall|j: int|
                        0 <= j < list@.len() ==> #[trigger] specifier_of(
                            "asset:///"@ + list@[j].0@,
                        ) is Ok
                },
                Err(e) => exists|i: int|
                    {
                        &&& 0 <= i < list@.len()
                        &&& #[trigger] specifier_of("asset:///"@ + list@[i].0@) == Err::<
                            Seq<char>,
                            ErrorView,
                        >(e@)
                        &&& forall|j: int|
                            0 <= j < i ==> #[trigger] specifier_of(
                                "asset:///"@ + list@[j].0@,
                            ) is Ok
                    },
            },
    {
        let mut assets: Assets = Assets::new();
        let mut i: usize = 0;
        while i < list.len()
            invariant
                i <= list@.len(),
                forall|i: int|
                    0 <= i < list@.len() ==> utf16_len((#[trigger] list@[i]).1@) <= u32::MAX,
                assets@ == static_assets(list@, i as nat),
                forall|j: int|
                    0 <= j < i ==> #[trigger] specifier_of("asset:///"@ + list@[j].0@) is Ok,
            decreases list.len() - i,
        {
            let (name, text) = &list[i];
            let url: String = concat2("asset:///", name.as_str());
            match resolve_url(url.as_str()) {
                Err(e) => {
                    assert(specifier_of("asset:///"@ + list@[i as int].0@) == Err::<
                        Seq<char>,
                        ErrorView,
                    >(e@));
                    return Err(e);
                },
                Ok(specifier) => {
                    assert(utf16_len(list@[i as int].1@) <= u32::MAX);
                    let asset: AssetDocument = AssetDocument::new(text.as_str());
                    let _ = assets.insert(specifier, Some(asset));
                    i = i + 1;
                },
            }
        }
        Ok(assets)
    }

    /// Whether anything is known of an asset.
    pub fn contains_key(&self, k: &str) -> (r: bool)
        ensures
            r == self@.contains_key(k@),
    {
        self.assets.contains_key(k)
    }

    /// What is known of an asset.
    pub fn get(&self, k: &str) -> (r: Option<&Option<AssetDocument>>)
        ensures
            match r {
                Some(asset) => self@.contains_key(k@) && self@[k@] == opt_asset(*asset),
                None => !self@.contains_key(k@),
            },
    {
        self.assets.get(k)
    }

    /// Keeps what is known of an asset, and gives back what was known before.
    pub fn insert(&mut self, k: String, v: Option<AssetDocument>) -> (r: Option<
        Option<AssetDocument>,
    >)
        ensures
            final(self)@ == old(self)@.insert(k@, opt_asset(v)),
            match r {
                Some(before) => old(self)@.contains_key(k@) && old(self)@[k@] == opt_asset(before),
                None => !old(self)@.contains_key(k@),
            },
    {
        let before: Option<Option<AssetDocument>> = match self.assets.get(k.as_str()) {
            None => None,
            Some(None) => Some(None),
            Some(Some(asset)) => Some(Some(asset.clone())),
        };
        let ghost start = self@;
        self.assets.insert(k, v);
        assert(self@ =~= start.insert(k@, opt_asset(v)));
        before
    }
}

/// The name under which a static asset is looked up.
pub fn static_asset_name(specifier: &str) -> (r: String)
    ensures
        r@ == without(specifier@, "asset:///"@),
{
    str_without(specifier, "asset:///")
}

/// The asset that is known without asking the isolate: the text that is built
/// in, or, where there is none, what was retrieved before.
pub open spec fn known_asset(
    specifier: Seq<char>,
    static_text: Option<Seq<char>>,
    retrieved: Map<Seq<char>, Option<AssetView>>,
) -> Option<AssetView> {
    match static_text {
        Some(text) => Some(asset_of(text)),
        None => if retrieved.contains_key(specifier) {
            retrieved[specifier]
        } else {
            None
        },
    }
}

/// What is done to get an asset.
#[derive(Debug)]
pub enum AssetStep {
    /// This is the asset.
    Found(AssetDocument),
    /// The isolate is asked for the asset with this specifier.
    AskIsolate(String),
}

/// What is done to get an asset: the isolate is asked only where the asset is
/// neither built in nor was retrieved before.
pub fn next_asset_step(specifier: &str, static_text: Option<&str>, retrieved: &Assets) -> (r:
    AssetStep)
    requires
        static_text matches Some(text) ==> utf16_len(text@) <= u32::MAX,
    ensures
        match (known_asset(specifier@, opt_str(static_text), retrieved@), r) {
            (Some(asset), AssetStep::Found(found)) => found@ == asset,
            (None, AssetStep::AskIsolate(asked)) => asked@ == specifier@,
            _ => false,
        },
{
    if let Some(text) = static_text {
        return AssetStep::Found(AssetDocument::new(text));
    }
    match retrieved.get(specifier) {
        Some(Some(asset)) => AssetStep::Found(asset.clone()),
        _ => AssetStep::AskIsolate(specifier.to_owned()),
    }
}

/// The asset that the isolate answers with.
pub fn asset_from_isolate(text: Option<&str>) -> (r: Option<AssetDocument>)
    requires
        text matches Some(text) ==> utf16_len(text@) <= u32::MAX,
    ensures
        match text {
            Some(text) => r matches Some(asset) && asset@ == asset_of(text@),
            None => r is None,
        },
{
    match text {
        Some(text) => Some(AssetDocument::new(text)),
        None => None,
    }
}

/// The length of an asset whose text is made of two parts is the sum of their
/// lengths.
pub proof fn law_lengths_add_up(a: Seq<char>, b: Seq<char>)
    ensures
        asset_of(a + b).length == asset_of(a).length + asset_of(b).length,
{
    lemma_utf16_len_of_parts(a, b);
}

/// What an asset says is what it holds, and one that is not there says nothing.
pub proof fn law_assets_say_what_they_hold(asset: AssetDocument)
    ensures
        asset@.text == asset.text@ && asset@.length == asset.length && asset@.starts
            == asset.line_index@,
        opt_asset(Some(asset)) == Some(asset@),
        opt_asset(None) is None,
{
}

} // verus!
