//! The metadata enricher: fills in the storage location of each item's
//! publisher from the answers of a bulk directory lookup, and drops the items
//! whose publisher has none, be it that the directory has no record of the
//! publisher or that the publisher is no identity at all.
//!
//! The lookup itself is made by the caller, between [`plan_lookup`] and
//! [`fill_canister_ids`].

use crate::dedup::{
    first_by_key, keys_of, lemma_first_by_key_distinct, lemma_first_by_key_keys,
    lemma_first_by_key_push, lemma_key_present,
};
use crate::post::{PostItemV2, PostV2};
use crate::principal::{principal_from_text, principal_of_text, same_bytes};
use crate::seqs::{filter_map, lemma_filter_map_holds, lemma_filter_map_push};
use vstd::prelude::*;

verus! {

/// Ghost mirror of [`DirectoryEntry`].
pub struct EntryView {
    pub principal: Seq<u8>,
    pub canister_id: Option<Seq<char>>,
}

/// One answer of the directory: the storage location of an identity, or that
/// the directory has no record of it.
#[derive(Debug, PartialEq, Eq)]
pub struct DirectoryEntry {
    pub principal: Vec<u8>,
    pub canister_id: Option<String>,
}

impl View for DirectoryEntry {
    type V = EntryView;

    open spec fn view(&self) -> EntryView {
        EntryView {
            principal: self.principal.deep_view(),
            canister_id: match self.canister_id {
                Some(text) => Some(text@),
                None => None,
            },
        }
    }
}

impl DeepView for DirectoryEntry {
    type V = EntryView;

    open spec fn deep_view(&self) -> EntryView {
        self@
    }
}

/// What the enricher asks of its caller before it can fill anything in.
#[derive(Debug, PartialEq, Eq)]
pub enum LookupPlan {
    /// No item has a publisher that could be looked up: nothing is to be
    /// looked up, and no item will stay.
    Skip,
    /// Look these identities up, in one call.
    Ask(Vec<Vec<u8>>),
}

/// The storage location that the directory gives for `principal`: that of the
/// first answer about it, `None` where no answer is about it or the answer
/// holds no record.
pub open spec fn resolve(directory: Seq<EntryView>, principal: Seq<u8>) -> Option<Seq<char>>
    decreases directory.len(),
{
    if directory.len() == 0 {
        None
    } else if directory[0].principal == principal {
        directory[0].canister_id
    } else {
        resolve(directory.drop_first(), principal)
    }
}

/// `post` with its storage location set.
pub open spec fn with_location(post: PostV2, canister_id: Seq<char>) -> PostV2 {
    PostV2 {
        publisher_user_id: post.publisher_user_id,
        canister_id,
        post_id: post.post_id,
        video_id: post.video_id,
        is_nsfw: post.is_nsfw,
    }
}

/// The storage location that the directory gives for the publisher of an
/// item: none for a publisher that is no identity.
pub open spec fn located(directory: Seq<EntryView>, principal: Option<Seq<u8>>) -> Option<
    Seq<char>,
> {
    match principal {
        Some(identity) => resolve(directory, identity),
        None => None,
    }
}

/// The enriched feed: each item of `posts` whose publisher, given at the same
/// position of `principals`, is an identity with a storage location in
/// `directory`, with that location filled in; the others are left out. Lists
/// of different lengths give the empty feed.
pub open spec fn enriched(
    posts: Seq<PostV2>,
    principals: Seq<Option<Seq<u8>>>,
    directory: Seq<EntryView>,
) -> Seq<PostV2>
    decreases posts.len(),
{
    if posts.len() == 0 || principals.len() != posts.len() {
        Seq::empty()
    } else {
        let rest = enriched(posts.drop_last(), principals.drop_last(), directory);
        match located(directory, principals.last()) {
            Some(canister_id) => rest.push(with_location(posts.last(), canister_id)),
            None => rest,
        }
    }
}

/// The publishers of the items that stay in the enriched feed.
pub open spec fn kept_principals(
    posts: Seq<PostV2>,
    principals: Seq<Option<Seq<u8>>>,
    directory: Seq<EntryView>,
) -> Seq<Option<Seq<u8>>>
    decreases posts.len(),
{
    if posts.len() == 0 || principals.len() != posts.len() {
        Seq::empty()
    } else {
        let rest = kept_principals(posts.drop_last(), principals.drop_last(), directory);
        match located(directory, principals.last()) {
            Some(_) => rest.push(principals.last()),
            None => rest,
        }
    }
}

/// The publishers of `posts`, item by item: the identity that the publisher's
/// text denotes, `None` where it denotes none.
pub open spec fn publishers(posts: Seq<PostV2>) -> Seq<Option<Seq<u8>>> {
    posts.map_values(|p: PostV2| principal_of_text(p.publisher_user_id))
}

/// The key of an identity: itself.
pub open spec fn itself() -> spec_fn(Seq<u8>) -> Seq<u8> {
    |p: Seq<u8>| p
}

/// What is kept of a publisher: the identity, if it is one.
pub open spec fn known() -> spec_fn(Option<Seq<u8>>) -> Option<Seq<u8>> {
    |p: Option<Seq<u8>>| p
}

/// The identities that are looked up for `posts`: those of the publishers
/// that are identities, each once, in the order of their first occurrence.
pub open spec fn asked_principals(posts: Seq<PostV2>) -> Seq<Seq<u8>> {
    first_by_key(filter_map(publishers(posts), known()), itself())
}

/// Enriching an enriched feed again, against the same directory, changes
/// nothing: no item is dropped and every storage location stays as it is.
pub proof fn lemma_enrich_idempotent(
    posts: Seq<PostV2>,
    principals: Seq<Option<Seq<u8>>>,
    directory: Seq<EntryView>,
)
    ensures
        kept_principals(posts, principals, directory).len() == enriched(
            posts,
            principals,
            directory,
        ).len(),
        enriched(
            enriched(posts, principals, directory),
            kept_principals(posts, principals, directory),
            directory,
        ) == enriched(posts, principals, directory),
    decreases posts.len(),
{
    if posts.len() > 0 && principals.len() == posts.len() {
        lemma_enrich_idempotent(posts.drop_last(), principals.drop_last(), directory);
        let rest = enriched(posts.drop_last(), principals.drop_last(), directory);
        let rest_principals = kept_principals(posts.drop_last(), principals.drop_last(), directory);
        match located(directory, principals.last()) {
            Some(canister_id) => {
                let post = with_location(posts.last(), canister_id);
                assert(rest.push(post).drop_last() =~= rest);
                assert(rest_principals.push(principals.last()).drop_last() =~= rest_principals);
                assert(with_location(post, canister_id) == post);
            },
            None => {},
        }
    }
}

/// The items that stay in the enriched feed keep their publishers.
pub proof fn lemma_kept_are_publishers(posts: Seq<PostV2>, directory: Seq<EntryView>)
    ensures
        publishers(enriched(posts, publishers(posts), directory)) == kept_principals(
            posts,
            publishers(posts),
            directory,
        ),
    decreases posts.len(),
{
    let out = enriched(posts, publishers(posts), directory);
    if posts.len() > 0 {
        let shorter = posts.drop_last();
        assert(publishers(posts).drop_last() =~= publishers(shorter));
        lemma_kept_are_publishers(shorter, directory);
        let rest = enriched(shorter, publishers(shorter), directory);
        match located(directory, publishers(posts).last()) {
            Some(canister_id) => {
                let post = with_location(posts.last(), canister_id);
                assert(out == rest.push(post));
                assert(publishers(out) =~= publishers(rest).push(publishers(posts).last()));
            },
            None => {},
        }
    } else {
        assert(publishers(out) =~= kept_principals(posts, publishers(posts), directory));
    }
}

/// Running the enricher on what it returned, against the same directory,
/// returns the same again: no item is dropped and no storage location
/// changes.
pub proof fn lemma_fill_canister_ids_idempotent(posts: Seq<PostV2>, directory: Seq<EntryView>)
    ensures
        enriched(
            enriched(posts, publishers(posts), directory),
            publishers(enriched(posts, publishers(posts), directory)),
            directory,
        ) == enriched(posts, publishers(posts), directory),
{
    lemma_kept_are_publishers(posts, directory);
    lemma_enrich_idempotent(posts, publishers(posts), directory);
}

/// `served` is `post` enriched: the publisher of `post` is an identity, and
/// `served` is `post` with the storage location that the directory gives for
/// that identity.
pub open spec fn is_enriched_from(
    served: PostV2,
    post: PostV2,
    principal: Option<Seq<u8>>,
    directory: Seq<EntryView>,
) -> bool {
    &&& principal is Some
    &&& located(directory, principal) == Some(served.canister_id)
    &&& served == with_location(post, served.canister_id)
}

/// `served` is one of `posts`, enriched.
pub open spec fn is_enriched_item(
    served: PostV2,
    posts: Seq<PostV2>,
    principals: Seq<Option<Seq<u8>>>,
    directory: Seq<EntryView>,
) -> bool {
    exists|i: int|
        0 <= i < posts.len() && #[trigger] is_enriched_from(
            served,
            posts[i],
            principals[i],
            directory,
        )
}

/// The enriched feed is no longer than the feed, and every item of it is an
/// item of the feed whose publisher is an identity, with the storage location
/// that the directory gives for that identity.
pub proof fn lemma_enriched_facts(
    posts: Seq<PostV2>,
    principals: Seq<Option<Seq<u8>>>,
    directory: Seq<EntryView>,
)
    requires
        principals.len() == posts.len(),
    ensures
        enriched(posts, principals, directory).len() <= posts.len(),
        forall|k: int|
            0 <= k < enriched(posts, principals, directory).len() ==> is_enriched_item(
                #[trigger] enriched(posts, principals, directory)[k],
                posts,
                principals,
                directory,
            ),
    decreases posts.len(),
{
    if posts.len() > 0 {
        let out = enriched(posts, principals, directory);
        let shorter = posts.drop_last();
        let fewer = principals.drop_last();
        let rest = enriched(shorter, fewer, directory);
        lemma_enriched_facts(shorter, fewer, directory);
        assert forall|k: int| 0 <= k < out.len() implies is_enriched_item(
            #[trigger] out[k],
            posts,
            principals,
            directory,
        ) by {
            if k < rest.len() {
                assert(out[k] == rest[k]);
                assert(is_enriched_item(rest[k], shorter, fewer, directory));
                let i = choose|i: int|
                    0 <= i < shorter.len() && #[trigger] is_enriched_from(
                        rest[k],
                        shorter[i],
                        fewer[i],
                        directory,
                    );
                assert(posts[i] == shorter[i]);
                assert(principals[i] == fewer[i]);
                assert(is_enriched_from(out[k], posts[i], principals[i], directory));
            } else {
                let i = posts.len() - 1;
                assert(is_enriched_from(out[k], posts[i], principals[i], directory));
            }
        }
    }
}

/// Where no publisher is an identity, no item stays, whatever the directory
/// holds.
proof fn lemma_unknown_publishers_drop_all(
    posts: Seq<PostV2>,
    principals: Seq<Option<Seq<u8>>>,
    directory: Seq<EntryView>,
)
    requires
        forall|i: int| 0 <= i < principals.len() ==> (#[trigger] principals[i]) is None,
    ensures
        enriched(posts, principals, directory).len() == 0,
    decreases posts.len(),
{
    if posts.len() > 0 && principals.len() == posts.len() {
        assert forall|i: int| 0 <= i < principals.drop_last().len() implies (
        #[trigger] principals.drop_last()[i]) is None by {
            assert(principals[i] is None);
        }
        lemma_unknown_publishers_drop_all(posts.drop_last(), principals.drop_last(), directory);
        assert(principals[principals.len() - 1] is None);
    }
}

/// Where there is no identity to look up, no item stays in the enriched feed,
/// whatever the directory holds.
pub proof fn lemma_nothing_asked_nothing_kept(posts: Seq<PostV2>, directory: Seq<EntryView>)
    requires
        asked_principals(posts).len() == 0,
    ensures
        enriched(posts, publishers(posts), directory).len() == 0,
{
    let all = publishers(posts);
    let some = filter_map(all, known());
    lemma_first_by_key_keys(some, itself());
    assert forall|i: int| 0 <= i < all.len() implies (#[trigger] all[i]) is None by {
        if all[i] is Some {
            lemma_filter_map_holds(all, known(), i);
            let identity = all[i]->0;
            assert(some.contains(identity));
            let j = choose|j: int| 0 <= j < some.len() && some[j] == identity;
            lemma_key_present(some, itself(), j);
            assert(keys_of(asked_principals(posts), itself()).contains(identity));
            assert(keys_of(asked_principals(posts), itself()).len() == 0);
        }
    }
    lemma_unknown_publishers_drop_all(posts, all, directory);
}

/// Looks `principal` up in the answers of the directory.
fn lookup<'a>(directory: &'a Vec<DirectoryEntry>, principal: &Vec<u8>) -> (res: Option<&'a String>)
    ensures
        res.deep_view() == resolve(directory.deep_view(), principal.deep_view()),
{
    let ghost all = directory.deep_view();
    let ghost wanted = principal.deep_view();
    let mut i: usize = 0;
    assert(all.skip(0) =~= all);
    while i < directory.len()
        invariant
            i <= directory.len(),
            all == directory.deep_view(),
            wanted == principal.deep_view(),
            resolve(all, wanted) == resolve(all.skip(i as int), wanted),
        decreases directory.len() - i,
    {
        proof {
            assert(all.skip(i as int)[0] == all[i as int]);
            assert(all.skip(i as int).drop_first() =~= all.skip(i + 1));
        }
        if same_bytes(&directory[i].principal, principal) {
            return match &directory[i].canister_id {
                Some(canister_id) => Some(canister_id),
                None => None,
            };
        }
        i = i + 1;
    }
    None
}

/// The publisher of every item, item by item: its identity, or `None` where
/// the publisher's text denotes none.
pub fn parse_publishers(posts: &Vec<PostItemV2>) -> (res: Vec<Option<Vec<u8>>>)
    ensures
        res.deep_view() == publishers(posts.deep_view()),
        res.len() == posts.len(),
{
    let mut principals: Vec<Option<Vec<u8>>> = Vec::new();
    let mut i: usize = 0;
    while i < posts.len()
        invariant
            i <= posts.len(),
            principals.len() == i,
            forall|j: int|
                0 <= j < i ==> principal_of_text(
                    (#[trigger] posts.deep_view()[j]).publisher_user_id,
                ) == principals.deep_view()[j],
        decreases posts.len() - i,
    {
        let ghost before = principals.deep_view();
        let principal = principal_from_text(posts[i].publisher_user_id.as_str());
        principals.push(principal);
        assert(principals.deep_view() =~= before.push(principal.deep_view()));
        i = i + 1;
    }
    assert(principals.deep_view() =~= publishers(posts.deep_view()));
    principals
}

/// The publishers that are identities, in order.
pub fn known_principals(principals: Vec<Option<Vec<u8>>>) -> (res: Vec<Vec<u8>>)
    ensures
        res.deep_view() == filter_map(principals.deep_view(), known()),
{
    let ghost source = principals.deep_view();
    let mut identities: Vec<Vec<u8>> = Vec::new();
    for principal in it: principals
        invariant
            it.seq() == principals@,
            source == principals.deep_view(),
            identities.deep_view() == filter_map(source.take(it.index() as int), known()),
    {
        proof {
            lemma_filter_map_push(source.take(it.index() as int), known(), principal.deep_view());
            assert(source.take(it.index() + 1) =~= source.take(it.index() as int).push(
                principal.deep_view(),
            ));
        }
        let ghost before = identities.deep_view();
        match principal {
            Some(identity) => {
                identities.push(identity);
                assert(identities.deep_view() =~= before.push(identity.deep_view()));
            },
            None => {},
        }
    }
    assert(source.take(principals@.len() as int) =~= source);
    identities
}

/// Whether `principal` is among `principals`.
fn has_principal(principals: &Vec<Vec<u8>>, principal: &Vec<u8>) -> (found: bool)
    ensures
        found == principals.deep_view().contains(principal.deep_view()),
{
    let mut i: usize = 0;
    while i < principals.len()
        invariant
            i <= principals.len(),
            forall|j: int| 0 <= j < i ==> principals.deep_view()[j] != principal.deep_view(),
        decreases principals.len() - i,
    {
        if same_bytes(&principals[i], principal) {
            assert(principals.deep_view()[i as int] == principal.deep_view());
            return true;
        }
        i = i + 1;
    }
    false
}

/// The identities of `principals`, each once, in the order of their first
/// occurrence.
pub fn unique_principals(principals: Vec<Vec<u8>>) -> (res: Vec<Vec<u8>>)
    ensures
        res.deep_view() == first_by_key(principals.deep_view(), itself()),
        res.deep_view().no_duplicates(),
{
    let ghost source = principals.deep_view();
    let mut unique: Vec<Vec<u8>> = Vec::new();
    for principal in it: principals
        invariant
            it.seq() == principals@,
            source == principals.deep_view(),
            unique.deep_view() == first_by_key(source.take(it.index() as int), itself()),
    {
        proof {
            let seen = source.take(it.index() as int);
            lemma_first_by_key_push(seen, itself(), principal.deep_view());
            lemma_first_by_key_keys(seen, itself());
            assert(source.take(it.index() + 1) =~= seen.push(principal.deep_view()));
            assert(keys_of(unique.deep_view(), itself()) =~= unique.deep_view());
        }
        let ghost before = unique.deep_view();
        if !has_principal(&unique, &principal) {
            unique.push(principal);
            assert(unique.deep_view() =~= before.push(principal.deep_view()));
        }
    }
    proof {
        assert(source.take(principals@.len() as int) =~= source);
        crate::dedup::lemma_first_by_key_distinct(source, itself());
        assert(keys_of(unique.deep_view(), itself()) =~= unique.deep_view());
    }
    unique
}

/// Says what is to be looked up for `posts`: the identities of their
/// publishers, each once, in the order of their first occurrence. A publisher
/// that is no identity is passed over. Where that leaves nothing to look up,
/// as for an empty list, no lookup is to be made.
pub fn plan_lookup(posts: &Vec<PostItemV2>) -> (res: LookupPlan)
    ensures
        res is Skip <==> asked_principals(posts.deep_view()).len() == 0,
        res matches LookupPlan::Ask(principals) ==> principals.deep_view() == asked_principals(
            posts.deep_view(),
        ),
        posts.len() == 0 ==> res is Skip,
{
    let asked = unique_principals(known_principals(parse_publishers(posts)));
    assert(asked.deep_view().len() == asked.len());
    if asked.len() == 0 {
        LookupPlan::Skip
    } else {
        LookupPlan::Ask(asked)
    }
}

/// Fills in the storage location of each item whose publisher, given at the
/// same position of `principals`, is an identity with a storage location in
/// `directory`, and drops the other items. What stays keeps its order. Lists
/// of different lengths give the empty feed.
pub fn fill_from_directory(
    posts: Vec<PostItemV2>,
    principals: &Vec<Option<Vec<u8>>>,
    directory: &Vec<DirectoryEntry>,
) -> (res: Vec<PostItemV2>)
    ensures
        res.deep_view() == enriched(
            posts.deep_view(),
            principals.deep_view(),
            directory.deep_view(),
        ),
        res.len() <= posts.len(),
{
    let ghost source = posts.deep_view();
    let ghost ids = principals.deep_view();
    let ghost dir = directory.deep_view();
    let mut filtered_posts: Vec<PostItemV2> = Vec::new();
    if principals.len() != posts.len() {
        assert(filtered_posts.deep_view() =~= enriched(source, ids, dir));
        return filtered_posts;
    }
    let mut i: usize = 0;
    for post in it: posts
        invariant
            it.seq() == posts@,
            source == posts.deep_view(),
            ids == principals.deep_view(),
            dir == directory.deep_view(),
            principals.len() == posts.len(),
            i == it.index(),
            filtered_posts.len() <= i,
            filtered_posts.deep_view() == enriched(source.take(i as int), ids.take(i as int), dir),
    {
        proof {
            assert(source.take(i + 1).drop_last() =~= source.take(i as int));
            assert(ids.take(i + 1).drop_last() =~= ids.take(i as int));
            assert(source.take(i + 1).last() == post.deep_view());
            assert(ids.take(i + 1).last() == ids[i as int]);
        }
        let ghost before = filtered_posts.deep_view();
        let location = match &principals[i] {
            Some(identity) => lookup(directory, identity),
            None => None,
        };
        assert(location.deep_view() == located(dir, ids[i as int]));
        match location {
            Some(canister_id) => {
                let mut post = post;
                post.canister_id = canister_id.clone();
                filtered_posts.push(post);
                assert(filtered_posts.deep_view() =~= before.push(post.deep_view()));
            },
            None => {},
        }
        i = i + 1;
    }
    proof {
        assert(source.take(posts@.len() as int) =~= source);
        assert(ids.take(posts@.len() as int) =~= ids);
    }
    filtered_posts
}

/// Enriches `posts` from the answers of the directory: an item whose publisher
/// is an identity with a storage location there gets it filled in; every other
/// item is dropped. What stays keeps its order and its other fields.
pub fn fill_canister_ids(posts: Vec<PostItemV2>, directory: &Vec<DirectoryEntry>) -> (res: Vec<
    PostItemV2,
>)
    ensures
        res.deep_view() == enriched(
            posts.deep_view(),
            publishers(posts.deep_view()),
            directory.deep_view(),
        ),
        res.len() <= posts.len(),
{
    let principals = parse_publishers(&posts);
    fill_from_directory(posts, &principals, directory)
}

} // verus!
