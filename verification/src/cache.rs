//! The cache tier as this library sees it: which lists there are, how they are
//! named, and how the reads that the caller is to perform are described.

use vstd::prelude::*;
use vstd::string::StringExecFns;

verus! {

/// The content-safety partition that a request is served from.
#[derive(Clone, Copy, Debug, PartialEq, Eq, Structural)]
pub enum Safety {
    Clean,
    Nsfw,
}

/// The lists of the cache that a request reads, each within the request's
/// safety partition.
#[derive(Clone, Copy, Debug, PartialEq, Eq, Structural)]
pub enum CacheList {
    /// The global list.
    Global,
    /// The caller's personal list of recommendations.
    UserCache,
    /// The caller's watch history.
    WatchHistory,
    /// The caller's success history.
    SuccessHistory,
}

/// The schema in which the items or records of a list are read.
#[derive(Clone, Copy, Debug, PartialEq, Eq, Structural)]
pub enum Schema {
    /// Content identifiers are numbers.
    V2,
    /// Content identifiers are free text.
    V3,
}

/// One list of the cache: which kind of list, in which safety partition.
#[derive(Clone, Copy, Debug, PartialEq, Eq, Structural)]
pub struct ListId {
    pub list: CacheList,
    pub safety: Safety,
}

/// A read of the cache that the caller is to perform.
#[derive(Clone, Copy, Debug, PartialEq, Eq, Structural)]
pub enum CacheRead {
    /// The number of items in a list.
    Len { list: ListId },
    /// The items of a list from position `start` up to, not including, `end`.
    Items { list: ListId, schema: Schema, start: u64, end: u64 },
    /// The records of a history from position `start` up to, not including,
    /// `end`.
    History { list: ListId, schema: Schema, start: u64, end: u64 },
}

/// How far the caller may read into the lists of the cache.
#[derive(Clone, Copy, Debug, PartialEq, Eq, Structural)]
pub struct CacheLimits {
    pub max_global_cache_len: u64,
    pub max_watch_history_cache_len: u64,
}

/// How the lists of the cache are named: the global lists by a name of
/// their own, a subject's lists by the subject followed by a suffix.
#[derive(Debug, PartialEq, Eq)]
pub struct KeyScheme {
    pub global_clean: String,
    pub global_nsfw: String,
    pub user_cache_clean: String,
    pub user_cache_nsfw: String,
    pub watch_history_clean: String,
    pub watch_history_nsfw: String,
    pub success_history_clean: String,
    pub success_history_nsfw: String,
}

/// Whether `tail` is what `text` ends with.
pub open spec fn ends_with(text: Seq<char>, tail: Seq<char>) -> bool {
    tail.len() <= text.len() && text.subrange(text.len() - tail.len(), text.len() as int) == tail
}

impl KeyScheme {
    /// The name of a global list, the suffix of a subject's list.
    pub open spec fn suffix(self, list: ListId) -> Seq<char> {
        match (list.list, list.safety) {
            (CacheList::Global, Safety::Clean) => self.global_clean@,
            (CacheList::Global, Safety::Nsfw) => self.global_nsfw@,
            (CacheList::UserCache, Safety::Clean) => self.user_cache_clean@,
            (CacheList::UserCache, Safety::Nsfw) => self.user_cache_nsfw@,
            (CacheList::WatchHistory, Safety::Clean) => self.watch_history_clean@,
            (CacheList::WatchHistory, Safety::Nsfw) => self.watch_history_nsfw@,
            (CacheList::SuccessHistory, Safety::Clean) => self.success_history_clean@,
            (CacheList::SuccessHistory, Safety::Nsfw) => self.success_history_nsfw@,
        }
    }

    /// The name of `list` for `subject`. A global list has one name for all
    /// subjects.
    pub open spec fn key(self, list: ListId, subject: Seq<char>) -> Seq<char> {
        if list.list == CacheList::Global {
            self.suffix(list)
        } else {
            subject + self.suffix(list)
        }
    }

    /// No suffix of a subject's list is what the suffix of another ends with,
    /// and the two global lists have different names.
    pub open spec fn wf(self) -> bool {
        &&& self.global_clean@ != self.global_nsfw@
        &&& forall|a: ListId, b: ListId|
            a != b && a.list != CacheList::Global && b.list != CacheList::Global ==> !ends_with(
                #[trigger] self.suffix(a),
                #[trigger] self.suffix(b),
            )
    }

    /// The name of `list` for `subject`.
    pub fn list_key(&self, list: ListId, subject: &str) -> (key: String)
        ensures
            key@ == self.key(list, subject@),
    {
        match list.list {
            CacheList::Global => match list.safety {
                Safety::Clean => self.global_clean.clone(),
                Safety::Nsfw => self.global_nsfw.clone(),
            },
            CacheList::UserCache => match list.safety {
                Safety::Clean => cache_key(subject, self.user_cache_clean.as_str()),
                Safety::Nsfw => cache_key(subject, self.user_cache_nsfw.as_str()),
            },
            CacheList::WatchHistory => match list.safety {
                Safety::Clean => cache_key(subject, self.watch_history_clean.as_str()),
                Safety::Nsfw => cache_key(subject, self.watch_history_nsfw.as_str()),
            },
            CacheList::SuccessHistory => match list.safety {
                Safety::Clean => cache_key(subject, self.success_history_clean.as_str()),
                Safety::Nsfw => cache_key(subject, self.success_history_nsfw.as_str()),
            },
        }
    }
}

/// The name of a subject's list in the cache: the subject, followed by the
/// suffix of the list.
pub fn cache_key(subject: &str, suffix: &str) -> (key: String)
    ensures
        key@ == subject@ + suffix@,
{
    let mut key = subject.to_owned();
    key.append(suffix);
    key
}

/// In a well-formed scheme no two lists share a name: two lists of subjects
/// with one name are the same list of the same subject, and the two global
/// lists have different names.
pub proof fn lemma_keys_do_not_collide(
    scheme: KeyScheme,
    list_a: ListId,
    subject_a: Seq<char>,
    list_b: ListId,
    subject_b: Seq<char>,
)
    requires
        scheme.wf(),
        (list_a.list == CacheList::Global) == (list_b.list == CacheList::Global),
        scheme.key(list_a, subject_a) == scheme.key(list_b, subject_b),
    ensures
        list_a == list_b,
        list_a.list != CacheList::Global ==> subject_a == subject_b,
{
    if list_a.list != CacheList::Global {
        if list_a != list_b {
            assert(!ends_with(scheme.suffix(list_a), scheme.suffix(list_b)));
            assert(!ends_with(scheme.suffix(list_b), scheme.suffix(list_a)));
            lemma_lists_do_not_collide(
                subject_a,
                scheme.suffix(list_a),
                subject_b,
                scheme.suffix(list_b),
            );
        }
        lemma_subjects_do_not_collide(subject_a, subject_b, scheme.suffix(list_a));
    }
}

/// Lists with different suffixes, of which neither ends with the other, never
/// share a name, whoever their subjects are.
pub proof fn lemma_lists_do_not_collide(
    subject_a: Seq<char>,
    suffix_a: Seq<char>,
    subject_b: Seq<char>,
    suffix_b: Seq<char>,
)
    requires
        !ends_with(suffix_a, suffix_b),
        !ends_with(suffix_b, suffix_a),
    ensures
        subject_a + suffix_a != subject_b + suffix_b,
{
    let key_a = subject_a + suffix_a;
    let key_b = subject_b + suffix_b;
    if key_a == key_b {
        let n = key_a.len() as int;
        if suffix_a.len() <= suffix_b.len() {
            assert(suffix_b.subrange(suffix_b.len() - suffix_a.len(), suffix_b.len() as int)
                =~= suffix_a) by {
                assert forall|i: int| 0 <= i < suffix_a.len() implies suffix_b[suffix_b.len()
                    - suffix_a.len() + i] == suffix_a[i] by {
                    assert(key_a[n - suffix_a.len() + i] == suffix_a[i]);
                    assert(key_b[n - suffix_a.len() + i] == suffix_b[suffix_b.len()
                        - suffix_a.len() + i]);
                }
            }
        } else {
            assert(suffix_a.subrange(suffix_a.len() - suffix_b.len(), suffix_a.len() as int)
                =~= suffix_b) by {
                assert forall|i: int| 0 <= i < suffix_b.len() implies suffix_a[suffix_a.len()
                    - suffix_b.len() + i] == suffix_b[i] by {
                    assert(key_b[n - suffix_b.len() + i] == suffix_b[i]);
                    assert(key_a[n - suffix_b.len() + i] == suffix_a[suffix_a.len()
                        - suffix_b.len() + i]);
                }
            }
        }
    }
}

/// Within one list, different subjects have different names.
pub proof fn lemma_subjects_do_not_collide(
    subject_a: Seq<char>,
    subject_b: Seq<char>,
    suffix: Seq<char>,
)
    requires
        subject_a + suffix == subject_b + suffix,
    ensures
        subject_a == subject_b,
{
    let key_a = subject_a + suffix;
    let key_b = subject_b + suffix;
    assert(subject_a.len() == subject_b.len()) by {
        assert(key_a.len() == subject_a.len() + suffix.len());
        assert(key_b.len() == subject_b.len() + suffix.len());
    }
    assert forall|i: int| 0 <= i < subject_a.len() implies subject_a[i] == subject_b[i] by {
        assert(key_a[i] == subject_a[i]);
        assert(key_b[i] == subject_b[i]);
    }
    assert(subject_a =~= subject_b);
}

} // verus!
