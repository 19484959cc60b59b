//! What the compiler is answered, said of the documents, assets and kept texts
//! that there are.
use vstd::prelude::*;
use crate::error::ErrorView;
use crate::lsp::assets::asset_of;
use crate::lsp::assets::known_asset;
use crate::lsp::assets::static_assets;
use crate::lsp::assets::AssetView;
use crate::lsp::lines::law_place_counts_line_feeds;
use crate::lsp::lines::line_feeds;
use crate::lsp::lines::position;
use crate::lsp::lines::utf16_len;
use crate::lsp::service::asked;
use crate::lsp::service::change_range;
use crate::lsp::service::dependency_at;
use crate::lsp::service::document_at;
use crate::lsp::service::document_step;
use crate::lsp::service::document_steps;
use crate::lsp::service::length_answer;
use crate::lsp::service::open_specifiers;
use crate::lsp::service::resolve_plan;
use crate::lsp::service::step_module;
use crate::lsp::service::text_source;
use crate::lsp::service::version_answer;
use crate::lsp::service::ChangeView;
use crate::lsp::service::Dependency;
use crate::lsp::service::Document;
use crate::lsp::service::GetChangeRangeArgs;
use crate::lsp::service::PlanView;
use crate::lsp::service::ResolveArgs;
use crate::lsp::service::ResolvedDependency;
use crate::lsp::service::State;
use crate::lsp::service::StateSnapshot;
use crate::lsp::service::StepView;
use crate::lsp::service::TextSourceView;
use crate::lsp::service::VersionView;
use crate::media_type::type_of_url;
use crate::specifier::specifier_of;
use crate::text::law_signed_number;
use crate::text::number_of;

verus! {

/// The document with a specifier is the one before which none has it.
pub proof fn law_document_with_specifier(documents: Seq<Document>, specifier: Seq<char>, i: int)
    requires
        0 <= i <= documents.len(),
        forall|j: int| 0 <= j < i ==> (#[trigger] documents[j]).specifier@ != specifier,
    ensures
        i == documents.len() ==> document_at(documents, specifier) is None,
        i < documents.len() && documents[i].specifier@ == specifier ==> document_at(
            documents,
            specifier,
        ) == Some(documents[i]),
    decreases documents.len(),
{
    if i > 0 {
        let rest = documents.skip(1);
        assert(documents[0].specifier@ != specifier);
        assert forall|j: int| 0 <= j < i - 1 implies (#[trigger] rest[j]).specifier@
            != specifier by {
            assert(rest[j] == documents[j + 1]);
        }
        law_document_with_specifier(rest, specifier, i - 1);
    }
}

/// The dependency under a name is the one before which none has it.
pub proof fn law_dependency_with_name(
    dependencies: Seq<(String, Dependency)>,
    name: Seq<char>,
    i: int,
)
    requires
        0 <= i <= dependencies.len(),
        forall|j: int| 0 <= j < i ==> (#[trigger] dependencies[j]).0@ != name,
    ensures
        i == dependencies.len() ==> dependency_at(dependencies, name) is None,
        i < dependencies.len() && dependencies[i].0@ == name ==> dependency_at(dependencies, name)
            == Some(dependencies[i].1),
    decreases dependencies.len(),
{
    if i > 0 {
        let rest = dependencies.skip(1);
        assert(dependencies[0].0@ != name);
        assert forall|j: int| 0 <= j < i - 1 implies (#[trigger] rest[j]).0@ != name by {
            assert(rest[j] == dependencies[j + 1]);
        }
        law_dependency_with_name(rest, name, i - 1);
    }
}

/// An import leads where its types resolved to, and only one without types where
/// its code did. What could not be resolved leads nowhere, also where the code
/// could be.
pub proof fn law_types_come_before_code(dependency: Dependency)
    ensures
        match dependency.maybe_type {
            Some(ResolvedDependency::Resolved(specifier)) => dependency.resolved() == Some(
                specifier@,
            ),
            Some(ResolvedDependency::Unresolved) => dependency.resolved() is None,
            None => match dependency.maybe_code {
                Some(ResolvedDependency::Resolved(specifier)) => dependency.resolved() == Some(
                    specifier@,
                ),
                _ => dependency.resolved() is None,
            },
        },
{
}

/// The text of a module: that of an asset with its specifier, whatever documents
/// there are; else the text that is kept for the document at that version, or that
/// of the document itself, where it is open; else the source cache is asked, under
/// the specifier. What is no specifier is an error.
pub proof fn law_text_of_a_module(
    state: State,
    name: Seq<char>,
    version: Seq<char>,
    specifier: Seq<char>,
    i: int,
)
    requires
        specifier_of(name) == Ok::<_, ErrorView>(specifier),
        0 <= i <= state.state_snapshot.documents@.len(),
        forall|j: int|
            0 <= j < i ==> (#[trigger] state.state_snapshot.documents@[j]).specifier@ != specifier,
        i < state.state_snapshot.documents@.len()
            ==> state.state_snapshot.documents@[i].specifier@ == specifier,
    ensures
        ({
            let assets = state.state_snapshot.assets@;
            let documents = state.state_snapshot.documents@;
            let kept = state.snapshots@;
            let known = assets.contains_key(specifier) && assets[specifier] is Some;
            &&& known ==> text_source(state, name, version) == Ok::<_, ErrorView>(
                TextSourceView::Found(assets[specifier]->0.text),
            )
            &&& !known && i < documents.len() && kept.contains_key((name, version)) ==> text_source(
                state,
                name,
                version,
            ) == Ok::<_, ErrorView>(TextSourceView::Found(kept[(name, version)]))
            &&& !known && i < documents.len() && !kept.contains_key((name, version))
                ==> text_source(state, name, version) == Ok::<_, ErrorView>(
                TextSourceView::Found(documents[i].content@),
            )
            &&& !known && i == documents.len() ==> text_source(state, name, version) == Ok::<
                _,
                ErrorView,
            >(TextSourceView::Sources(specifier))
        }),
{
    law_document_with_specifier(state.state_snapshot.documents@, specifier, i);
}

/// A name that is no specifier has no text, no length and no version, and nothing is
/// kept for it.
pub proof fn law_no_text_without_specifier(state: State, name: Seq<char>, version: Seq<char>)
    requires
        specifier_of(name) is Err,
    ensures
        text_source(state, name, version) is Err,
        length_answer(state, name, version) is Err,
        version_answer(state.state_snapshot, name) is Err,
        asked(state, name, version) == state.snapshots@,
{
}

/// The text of an open document is kept once it was asked for, under its name and
/// version, and no other text changes.
pub proof fn law_asked_text_is_kept(state: State, name: Seq<char>, version: Seq<char>)
    ensures
        ({
            let after = asked(state, name, version);
            &&& forall|key: (Seq<char>, Seq<char>)| #[trigger]
                after.contains_key(key) ==> key == (name, version)
                    || state.snapshots@.contains_key(key)
            &&& forall|key: (Seq<char>, Seq<char>)| #[trigger]
                state.snapshots@.contains_key(key) ==> after.contains_key(key) && after[key]
                    == state.snapshots@[key]
            &&& after.contains_key((name, version)) && !state.snapshots@.contains_key(
                (name, version),
            ) ==> text_source(state, name, version) == Ok::<_, ErrorView>(
                TextSourceView::Found(after[(name, version)]),
            )
            &&& (text_source(state, name, version) matches Ok(TextSourceView::Found(text))) && !(
            specifier_of(name) matches Ok(s) && state.state_snapshot.assets@.contains_key(s)
                && state.state_snapshot.assets@[s] is Some) ==> after.contains_key((name, version))
        }),
{
}

/// The length of a module is that of its text, but for an asset, whose length is the
/// one that was counted when it was read.
pub proof fn law_length_is_that_of_the_text(state: State, name: Seq<char>, version: Seq<char>)
    ensures
        match specifier_of(name) {
            Ok(s) => {
                let assets = state.state_snapshot.assets@;
                if assets.contains_key(s) && assets[s] is Some {
                    length_answer(state, name, version) == Ok::<_, ErrorView>(
                        Ok::<nat, Seq<char>>(assets[s]->0.length),
                    )
                } else {
                    match text_source(state, name, version) {
                        Ok(TextSourceView::Found(text)) => length_answer(state, name, version)
                            == Ok::<_, ErrorView>(Ok::<nat, Seq<char>>(utf16_len(text))),
                        Ok(TextSourceView::Sources(s)) => length_answer(state, name, version)
                            == Ok::<_, ErrorView>(Err::<nat, Seq<char>>(s)),
                        Err(_) => length_answer(state, name, version) is Err,
                    }
                }
            },
            Err(_) => length_answer(state, name, version) is Err,
        },
{
}

/// What changed between two versions is found by comparing their texts, the old one
/// first, where the old one is kept; else the whole old text gave way to the whole
/// new one.
pub proof fn law_change_between_versions(
    kept: Map<(Seq<char>, Seq<char>), Seq<char>>,
    args: GetChangeRangeArgs,
)
    ensures
        ({
            let (old_key, new_key) = (
                (args.specifier@, args.old_version@),
                (args.specifier@, args.version@),
            );
            match change_range(kept, args) {
                ChangeView::Compare { prev, current } => kept.contains_key(old_key) && prev
                    == kept[old_key] && current == kept[new_key],
                ChangeView::Whole { start, length, new_length } => !kept.contains_key(old_key)
                    && start == 0 && length == args.old_length && new_length == utf16_len(
                    kept[new_key],
                ),
            }
        }),
{
}

/// Where an import of a document leads: an asset to itself; what the document has
/// not, nowhere that is known; what could not be resolved, to nothing; and anything
/// else to what it resolved to, which is known where it is open, and else may be in
/// the source cache.
pub proof fn law_where_an_import_leads(
    documents: Seq<Document>,
    dependencies: Seq<(String, Dependency)>,
    name: Seq<char>,
    i: int,
)
    requires
        0 <= i <= dependencies.len(),
        forall|j: int| 0 <= j < i ==> (#[trigger] dependencies[j]).0@ != name,
        i < dependencies.len() ==> dependencies[i].0@ == name,
    ensures
        ({
            let step = document_step(documents, dependencies, name);
            let is_asset = name.len() >= 9 && name.subrange(0, 9) == "asset:///"@;
            &&& is_asset ==> step == Some(StepView::Known(name))
            &&& !is_asset && i == dependencies.len() ==> step is None
            &&& !is_asset && i < dependencies.len() ==> match dependencies[i].1.resolved() {
                None => step == Some(StepView::Nothing),
                Some(s) => if exists|d: int|
                    0 <= d < documents.len() && (#[trigger] documents[d]).specifier@ == s {
                    step == Some(StepView::Known(s))
                } else {
                    step == Some(StepView::Source(s))
                },
            }
        }),
{
    reveal_strlit("asset:///");
    law_dependency_with_name(dependencies, name, i);
    if i < dependencies.len() {
        if let Some(s) = dependencies[i].1.resolved() {
            lemma_document_exists(documents, s);
        }
    }
}

/// A document is found exactly where there is one.
proof fn lemma_document_exists(documents: Seq<Document>, specifier: Seq<char>)
    ensures
        document_at(documents, specifier) is Some <==> exists|d: int|
            0 <= d < documents.len() && (#[trigger] documents[d]).specifier@ == specifier,
    decreases documents.len(),
{
    if documents.len() > 0 {
        let rest = documents.skip(1);
        lemma_document_exists(rest, specifier);
        if exists|d: int|
            0 <= d < documents.len() && (#[trigger] documents[d]).specifier@ == specifier {
            let d = choose|d: int|
                0 <= d < documents.len() && (#[trigger] documents[d]).specifier@ == specifier;
            if d > 0 {
                assert(rest[d - 1].specifier@ == specifier);
            }
        }
        if document_at(rest, specifier) is Some {
            let d = choose|d: int|
                0 <= d < rest.len() && (#[trigger] rest[d]).specifier@ == specifier;
            assert(documents[d + 1].specifier@ == specifier);
        }
    }
}

/// How many of the first `n` imports lead anywhere that is said.
pub open spec fn answered(
    documents: Seq<Document>,
    dependencies: Seq<(String, Dependency)>,
    specifiers: Seq<String>,
    n: nat,
) -> nat
    decreases n,
{
    if n == 0 {
        0
    } else {
        answered(documents, dependencies, specifiers, (n - 1) as nat) + if document_step(
            documents,
            dependencies,
            specifiers[n - 1]@,
        ) is Some {
            1nat
        } else {
            0
        }
    }
}

/// Every import that leads anywhere has its step, behind those of the imports
/// before it, and there are no other steps.
pub proof fn law_imports_keep_their_order(
    documents: Seq<Document>,
    dependencies: Seq<(String, Dependency)>,
    specifiers: Seq<String>,
    n: nat,
    k: int,
)
    requires
        0 <= k < n <= specifiers.len(),
    ensures
        ({
            let steps = document_steps(documents, dependencies, specifiers, n);
            let at = answered(documents, dependencies, specifiers, k as nat);
            &&& steps.len() == answered(documents, dependencies, specifiers, n)
            &&& document_step(documents, dependencies, specifiers[k]@) matches Some(step) ==> at
                < steps.len() && steps[at as int] == step
        }),
    decreases n,
{
    lemma_answered(documents, dependencies, specifiers, n);
    lemma_answered(documents, dependencies, specifiers, (n - 1) as nat);
    if k < n - 1 {
        law_imports_keep_their_order(documents, dependencies, specifiers, (n - 1) as nat, k);
    }
}

/// There are as many steps as imports that lead anywhere.
proof fn lemma_answered(
    documents: Seq<Document>,
    dependencies: Seq<(String, Dependency)>,
    specifiers: Seq<String>,
    n: nat,
)
    ensures
        document_steps(documents, dependencies, specifiers, n).len() == answered(
            documents,
            dependencies,
            specifiers,
            n,
        ),
    decreases n,
{
    if n > 0 {
        lemma_answered(documents, dependencies, specifiers, (n - 1) as nat);
    }
}

/// The imports of an open document are resolved by what it says of all of them, and
/// those of any other module by the source cache, under its specifier.
pub proof fn law_how_imports_are_resolved(
    documents: Seq<Document>,
    args: ResolveArgs,
    referrer: Seq<char>,
    i: int,
)
    requires
        specifier_of(args.base@) == Ok::<_, ErrorView>(referrer),
        0 <= i <= documents.len(),
        forall|j: int| 0 <= j < i ==> (#[trigger] documents[j]).specifier@ != referrer,
        i < documents.len() ==> documents[i].specifier@ == referrer,
    ensures
        i == documents.len() ==> resolve_plan(documents, args) == Ok::<_, ErrorView>(
            PlanView::Sources { referrer },
        ),
        i < documents.len() ==> match documents[i].dependencies {
            None => resolve_plan(documents, args) == Ok::<_, ErrorView>(
                PlanView::Steps(Seq::empty()),
            ),
            Some(dependencies) => resolve_plan(documents, args) == Ok::<_, ErrorView>(
                PlanView::Steps(
                    document_steps(
                        documents,
                        dependencies@,
                        args.specifiers@,
                        args.specifiers@.len(),
                    ),
                ),
            ),
        },
{
    law_document_with_specifier(documents, referrer, i);
}

/// A module that is not in the source cache is not found, and one that is leads to
/// itself, under the extension that the cache gives, or else the one of its type.
pub proof fn law_module_of_a_step(specifier: Seq<char>, in_sources: bool, given: Option<Seq<char>>)
    ensures
        step_module(StepView::Nothing, in_sources, given) == Ok::<
            Option<(Seq<char>, Seq<char>)>,
            ErrorView,
        >(None),
        !in_sources ==> step_module(StepView::Source(specifier), in_sources, given) == Ok::<
            Option<(Seq<char>, Seq<char>)>,
            ErrorView,
        >(None),
        in_sources && given is Some ==> step_module(StepView::Source(specifier), true, given)
            == Ok::<_, ErrorView>(Some((specifier, given->0))),
        specifier_of(specifier) is Ok ==> {
            let by_type = Ok::<_, ErrorView>(
                Some((specifier, type_of_url(specifier).ts_extension())),
            );
            &&& step_module(StepView::Known(specifier), in_sources, given) == by_type
            &&& in_sources && given is None ==> step_module(
                StepView::Source(specifier),
                true,
                given,
            ) == by_type
        },
{
}

/// How many of the first `n` documents are open.
pub open spec fn open_before(documents: Seq<Document>, n: nat) -> nat
    decreases n,
{
    if n == 0 {
        0
    } else {
        open_before(documents, (n - 1) as nat) + if documents[n - 1].version is Some {
            1nat
        } else {
            0
        }
    }
}

/// The scripts are the documents with a version, all of them, in their order.
pub proof fn law_scripts_are_the_open_documents(documents: Seq<Document>, n: nat, k: int)
    requires
        0 <= k < n <= documents.len(),
    ensures
        ({
            let names = open_specifiers(documents, n);
            let at = open_before(documents, k as nat);
            &&& names.len() == open_before(documents, n)
            &&& documents[k].version is Some ==> at < names.len() && names[at as int]
                == documents[k].specifier@
        }),
    decreases n,
{
    lemma_open(documents, n);
    lemma_open(documents, (n - 1) as nat);
    if k < n - 1 {
        law_scripts_are_the_open_documents(documents, (n - 1) as nat, k);
    }
}

/// There are as many scripts as open documents.
proof fn lemma_open(documents: Seq<Document>, n: nat)
    ensures
        open_specifiers(documents, n).len() == open_before(documents, n),
    decreases n,
{
    if n > 0 {
        lemma_open(documents, (n - 1) as nat);
    }
}

/// The version of a module: "1" for an asset that is known of and none for one that
/// is not; for an open document the number of its version; for anything else the
/// source cache is asked.
pub proof fn law_version_of_a_module(
    snapshot: StateSnapshot,
    name: Seq<char>,
    specifier: Seq<char>,
    i: int,
)
    requires
        specifier_of(name) == Ok::<_, ErrorView>(specifier),
        0 <= i <= snapshot.documents@.len(),
        forall|j: int|
            0 <= j < i ==> (#[trigger] snapshot.documents@[j]).specifier@ != specifier,
        i < snapshot.documents@.len() ==> snapshot.documents@[i].specifier@ == specifier,
    ensures
        ({
            let answer = version_answer(snapshot, name);
            let is_asset = specifier.len() >= 6 && specifier.subrange(0, 6) == "asset:"@;
            &&& is_asset && snapshot.assets@.contains_key(specifier) ==> answer == Ok::<
                _,
                ErrorView,
            >(VersionView::Version(seq!['1']))
            &&& is_asset && !snapshot.assets@.contains_key(specifier) ==> answer == Ok::<
                _,
                ErrorView,
            >(VersionView::NoVersion)
            &&& !is_asset && (i == snapshot.documents@.len()
                || snapshot.documents@[i].version is None) ==> answer == Ok::<_, ErrorView>(
                VersionView::Sources(specifier),
            )
            &&& !is_asset && i < snapshot.documents@.len() ==> (snapshot.documents@[i].version
                matches Some(version) ==> (answer matches Ok(VersionView::Version(shown)) && if version
                < 0 {
                shown[0] == '-' && number_of(shown.skip(1), 10) == -version
            } else {
                number_of(shown, 10) == version
            }))
        }),
{
    reveal_strlit("asset:");
    reveal_strlit("1");
    assert("1"@ =~= seq!['1']);
    law_document_with_specifier(snapshot.documents@, specifier, i);
    if i < snapshot.documents@.len() {
        if let Some(version) = snapshot.documents@[i].version {
            law_signed_number(version as int);
        }
    }
}

/// An asset has the text it was made of, the length of that in UTF-16 code units and
/// the starts of its lines.
pub proof fn law_asset_of_a_text(text: Seq<char>, i: int)
    requires
        0 <= i <= text.len(),
        utf16_len(text) <= u32::MAX,
    ensures
        asset_of(text).text == text,
        asset_of(text).length == utf16_len(text),
        position(asset_of(text).starts, utf16_len(text.take(i)) as u32).line == line_feeds(
            text.take(i),
        ),
{
    law_place_counts_line_feeds(text, i);
}

/// An asset that is built in is the asset of its text; one that is not is what was
/// retrieved before, if anything was.
pub proof fn law_known_assets(
    specifier: Seq<char>,
    text: Option<Seq<char>>,
    retrieved: Map<Seq<char>, Option<AssetView>>,
)
    ensures
        match text {
            Some(text) => known_asset(specifier, Some(text), retrieved) matches Some(asset)
                && asset.text == text && asset.length == utf16_len(text),
            None => {
                &&& !retrieved.contains_key(specifier) ==> known_asset(
                    specifier,
                    None,
                    retrieved,
                ) is None
                &&& retrieved.contains_key(specifier) ==> known_asset(specifier, None, retrieved)
                    == retrieved[specifier]
            },
        },
{
}

/// The assets of a list have one under the specifier of each name, which is that of
/// the last text with the specifier, and no others.
pub proof fn law_static_assets(list: Seq<(String, String)>, n: nat, k: int)
    requires
        0 <= k < n <= list.len(),
        forall|j: int|
            k < j < n ==> specifier_of("asset:///"@ + (#[trigger] list[j]).0@) != specifier_of(
                "asset:///"@ + list[k].0@,
            ),
        forall|j: int|
            0 <= j < n ==> specifier_of("asset:///"@ + (#[trigger] list[j]).0@) is Ok,
    ensures
        ({
            let assets = static_assets(list, n);
            let specifier = specifier_of("asset:///"@ + list[k].0@)->Ok_0;
            &&& assets.contains_key(specifier)
            &&& assets[specifier] matches Some(asset)
            &&& asset.text == list[k].1@
            &&& asset.length == utf16_len(list[k].1@)
        }),
    decreases n,
{
    if k < n - 1 {
        assert(specifier_of("asset:///"@ + list[n - 1].0@) != specifier_of(
            "asset:///"@ + list[k].0@,
        ));
        law_static_assets(list, (n - 1) as nat, k);
    }
}

} // verus!
