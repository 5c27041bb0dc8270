//! The exclusion set of a request: the media identifiers that must not be
//! served, gathered from the caller's explicit exclusions and from history.

use crate::history::{
    HistoryV1, HistoryV2, HistoryV3, MLFeedCacheHistoryItem, MLFeedCacheHistoryItemV2,
    MLFeedCacheHistoryItemV3,
};
use crate::post::{PostItem, PostItemV2, PostV1, PostV2};
use crate::seqs::{lemma_retain_push, retain};
use vstd::prelude::*;

verus! {

/// The set of the identifiers in a list.
pub open spec fn id_set(ids: Seq<Seq<char>>) -> Set<Seq<char>> {
    Set::new(|id: Seq<char>| ids.contains(id))
}

/// The media identifiers of canonical items.
pub open spec fn video_ids(posts: Seq<PostV2>) -> Set<Seq<char>> {
    id_set(posts.map_values(|p: PostV2| p.video_id))
}

/// The media identifiers of items of the oldest schema.
pub open spec fn video_ids_v1(posts: Seq<PostV1>) -> Set<Seq<char>> {
    id_set(posts.map_values(|p: PostV1| p.video_id))
}

/// The media identifiers of history records of the oldest schema.
pub open spec fn history_video_ids_v1(records: Seq<HistoryV1>) -> Set<Seq<char>> {
    id_set(records.map_values(|r: HistoryV1| r.video_id))
}

/// The media identifiers of history records with a numeric content identifier.
pub open spec fn history_video_ids_v2(records: Seq<HistoryV2>) -> Set<Seq<char>> {
    id_set(records.map_values(|r: HistoryV2| r.video_id))
}

/// The media identifiers of history records of the newer schema.
pub open spec fn history_video_ids_v3(records: Seq<HistoryV3>) -> Set<Seq<char>> {
    id_set(records.map_values(|r: HistoryV3| r.video_id))
}

/// The test that an item passes when its media identifier is not in
/// `excluded`.
pub open spec fn unexcluded(excluded: Set<Seq<char>>) -> spec_fn(PostV2) -> bool {
    |p: PostV2| !excluded.contains(p.video_id)
}

/// The identifiers of two lists, one after the other, are those of either.
pub proof fn lemma_id_set_concat(a: Seq<Seq<char>>, b: Seq<Seq<char>>)
    ensures
        id_set(a + b) == id_set(a).union(id_set(b)),
{
    assert forall|id: Seq<char>| (a + b).contains(id) <==> a.contains(id) || b.contains(id) by {
        if (a + b).contains(id) {
            let i = choose|i: int| 0 <= i < (a + b).len() && (a + b)[i] == id;
            if i < a.len() {
                assert(a[i] == id);
            } else {
                assert(b[i - a.len()] == id);
            }
        }
        if a.contains(id) {
            let i = choose|i: int| 0 <= i < a.len() && a[i] == id;
            assert((a + b)[i] == id);
        }
        if b.contains(id) {
            let i = choose|i: int| 0 <= i < b.len() && b[i] == id;
            assert((a + b)[a.len() + i] == id);
        }
    }
    assert(id_set(a + b) =~= id_set(a).union(id_set(b)));
}

/// A set of media identifiers, used once per request.
#[derive(Debug)]
pub struct ExclusionSet {
    ids: Vec<String>,
}

impl View for ExclusionSet {
    type V = Set<Seq<char>>;

    closed spec fn view(&self) -> Set<Seq<char>> {
        id_set(self.ids.deep_view())
    }
}

impl ExclusionSet {
    /// The empty set.
    pub fn new() -> (res: Self)
        ensures
            res@ == Set::<Seq<char>>::empty(),
    {
        let res = ExclusionSet { ids: Vec::new() };
        assert(res@ =~= Set::<Seq<char>>::empty());
        res
    }

    /// Whether `video_id` is in the set.
    pub fn contains(&self, video_id: &String) -> (found: bool)
        ensures
            found == self@.contains(video_id@),
    {
        let mut i: usize = 0;
        while i < self.ids.len()
            invariant
                i <= self.ids.len(),
                forall|j: int| 0 <= j < i ==> self.ids.deep_view()[j] != video_id@,
            decreases self.ids.len() - i,
        {
            if self.ids[i] == *video_id {
                assert(self.ids.deep_view()[i as int] == video_id@);
                return true;
            }
            i = i + 1;
        }
        false
    }

    /// Adds `video_id` to the set.
    pub fn insert(&mut self, video_id: String)
        ensures
            final(self)@ == old(self)@.insert(video_id@),
    {
        let mut one: Vec<String> = Vec::new();
        one.push(video_id);
        proof {
            assert(one.deep_view() =~= seq![video_id@]);
            assert forall|id: Seq<char>| seq![video_id@].contains(id) <==> id == video_id@ by {
                if id == video_id@ {
                    assert(seq![video_id@][0] == id);
                }
            }
            assert(id_set(one.deep_view()) =~= Set::<Seq<char>>::empty().insert(video_id@));
        }
        self.extend(one);
        assert(self@ =~= old(self)@.insert(video_id@));
    }

    /// Adds every identifier of `ids` to the set.
    pub fn extend(&mut self, ids: Vec<String>)
        ensures
            final(self)@ == old(self)@.union(id_set(ids.deep_view())),
    {
        let ghost before = self.ids.deep_view();
        let ghost added = ids.deep_view();
        let mut ids = ids;
        self.ids.append(&mut ids);
        proof {
            assert(self.ids.deep_view() =~= before + added);
            lemma_id_set_concat(before, added);
        }
    }

    /// Adds the media identifiers of canonical items.
    pub fn add_posts(&mut self, posts: &Vec<PostItemV2>)
        ensures
            final(self)@ == old(self)@.union(video_ids(posts.deep_view())),
    {
        let mut ids: Vec<String> = Vec::new();
        let mut i: usize = 0;
        while i < posts.len()
            invariant
                i <= posts.len(),
                ids.deep_view() == posts.deep_view().take(i as int).map_values(
                    |p: PostV2| p.video_id,
                ),
            decreases posts.len() - i,
        {
            let ghost before = ids.deep_view();
            let id = posts[i].video_id.clone();
            ids.push(id);
            proof {
                let prefix = posts.deep_view().take(i as int);
                let wider = posts.deep_view().take(i + 1);
                assert(ids.deep_view() =~= before.push(id@));
                assert(wider =~= prefix.push(posts.deep_view()[i as int]));
                assert(wider.map_values(|p: PostV2| p.video_id) =~= prefix.map_values(
                    |p: PostV2| p.video_id,
                ).push(id@));
            }
            i = i + 1;
        }
        assert(posts.deep_view().take(posts.len() as int) =~= posts.deep_view());
        self.extend(ids);
    }

    /// Adds the media identifiers of items of the oldest schema.
    pub fn add_posts_v1(&mut self, posts: &Vec<PostItem>)
        ensures
            final(self)@ == old(self)@.union(video_ids_v1(posts.deep_view())),
    {
        let mut ids: Vec<String> = Vec::new();
        let mut i: usize = 0;
        while i < posts.len()
            invariant
                i <= posts.len(),
                ids.deep_view() == posts.deep_view().take(i as int).map_values(
                    |p: PostV1| p.video_id,
                ),
            decreases posts.len() - i,
        {
            let ghost before = ids.deep_view();
            let id = posts[i].video_id.clone();
            ids.push(id);
            proof {
                let prefix = posts.deep_view().take(i as int);
                let wider = posts.deep_view().take(i + 1);
                assert(ids.deep_view() =~= before.push(id@));
                assert(wider =~= prefix.push(posts.deep_view()[i as int]));
                assert(wider.map_values(|p: PostV1| p.video_id) =~= prefix.map_values(
                    |p: PostV1| p.video_id,
                ).push(id@));
            }
            i = i + 1;
        }
        assert(posts.deep_view().take(posts.len() as int) =~= posts.deep_view());
        self.extend(ids);
    }

    /// Adds the media identifiers of history records of the oldest schema.
    pub fn add_history_v1(&mut self, records: &Vec<MLFeedCacheHistoryItem>)
        ensures
            final(self)@ == old(self)@.union(history_video_ids_v1(records.deep_view())),
    {
        let mut ids: Vec<String> = Vec::new();
        let mut i: usize = 0;
        while i < records.len()
            invariant
                i <= records.len(),
                ids.deep_view() == records.deep_view().take(i as int).map_values(
                    |r: HistoryV1| r.video_id,
                ),
            decreases records.len() - i,
        {
            let ghost before = ids.deep_view();
            let id = records[i].video_id.clone();
            ids.push(id);
            proof {
                let prefix = records.deep_view().take(i as int);
                let wider = records.deep_view().take(i + 1);
                assert(ids.deep_view() =~= before.push(id@));
                assert(wider =~= prefix.push(records.deep_view()[i as int]));
                assert(wider.map_values(|r: HistoryV1| r.video_id) =~= prefix.map_values(
                    |r: HistoryV1| r.video_id,
                ).push(id@));
            }
            i = i + 1;
        }
        assert(records.deep_view().take(records.len() as int) =~= records.deep_view());
        self.extend(ids);
    }

    /// Adds the media identifiers of history records with a numeric content
    /// identifier.
    pub fn add_history_v2(&mut self, records: &Vec<MLFeedCacheHistoryItemV2>)
        ensures
            final(self)@ == old(self)@.union(history_video_ids_v2(records.deep_view())),
    {
        let mut ids: Vec<String> = Vec::new();
        let mut i: usize = 0;
        while i < records.len()
            invariant
                i <= records.len(),
                ids.deep_view() == records.deep_view().take(i as int).map_values(
                    |r: HistoryV2| r.video_id,
                ),
            decreases records.len() - i,
        {
            let ghost before = ids.deep_view();
            let id = records[i].video_id.clone();
            ids.push(id);
            proof {
                let prefix = records.deep_view().take(i as int);
                let wider = records.deep_view().take(i + 1);
                assert(ids.deep_view() =~= before.push(id@));
                assert(wider =~= prefix.push(records.deep_view()[i as int]));
                assert(wider.map_values(|r: HistoryV2| r.video_id) =~= prefix.map_values(
                    |r: HistoryV2| r.video_id,
                ).push(id@));
            }
            i = i + 1;
        }
        assert(records.deep_view().take(records.len() as int) =~= records.deep_view());
        self.extend(ids);
    }

    /// Adds the media identifiers of history records of the newer schema.
    pub fn add_history_v3(&mut self, records: &Vec<MLFeedCacheHistoryItemV3>)
        ensures
            final(self)@ == old(self)@.union(history_video_ids_v3(records.deep_view())),
    {
        let mut ids: Vec<String> = Vec::new();
        let mut i: usize = 0;
        while i < records.len()
            invariant
                i <= records.len(),
                ids.deep_view() == records.deep_view().take(i as int).map_values(
                    |r: HistoryV3| r.video_id,
                ),
            decreases records.len() - i,
        {
            let ghost before = ids.deep_view();
            let id = records[i].video_id.clone();
            ids.push(id);
            proof {
                let prefix = records.deep_view().take(i as int);
                let wider = records.deep_view().take(i + 1);
                assert(ids.deep_view() =~= before.push(id@));
                assert(wider =~= prefix.push(records.deep_view()[i as int]));
                assert(wider.map_values(|r: HistoryV3| r.video_id) =~= prefix.map_values(
                    |r: HistoryV3| r.video_id,
                ).push(id@));
            }
            i = i + 1;
        }
        assert(records.deep_view().take(records.len() as int) =~= records.deep_view());
        self.extend(ids);
    }

    /// The items of `posts` whose media identifier is not in the set, in
    /// order.
    pub fn retain_unexcluded(&self, posts: Vec<PostItemV2>) -> (res: Vec<PostItemV2>)
        ensures
            res.deep_view() == retain(posts.deep_view(), unexcluded(self@)),
            res.len() <= posts.len(),
    {
        let ghost source = posts.deep_view();
        let mut kept: Vec<PostItemV2> = Vec::new();
        for post in it: posts
            invariant
                it.seq() == posts@,
                source == posts.deep_view(),
                kept.deep_view() == retain(source.take(it.index() as int), unexcluded(self@)),
                kept.len() <= it.index(),
        {
            proof {
                lemma_retain_push(
                    source.take(it.index() as int),
                    unexcluded(self@),
                    post.deep_view(),
                );
                assert(source.take(it.index() + 1) =~= source.take(it.index() as int).push(
                    post.deep_view(),
                ));
            }
            let ghost before = kept.deep_view();
            if !self.contains(&post.video_id) {
                kept.push(post);
                assert(kept.deep_view() =~= before.push(post.deep_view()));
            }
        }
        assert(source.take(posts@.len() as int) =~= source);
        kept
    }
}

} // verus!
