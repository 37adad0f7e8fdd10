//! The tag model and the default-tag resolver.
//!
//! A tag names one versioned API surface. The resolver picks exactly one tag
//! of a non-empty set as the default: an explicit request wins when it names
//! an existing tag, otherwise the first non-preview tag, otherwise the first
//! tag of the set.

use vstd::prelude::*;
use vstd::string::*;
use crate::text::{contains_seq, str_contains, str_equal};

verus! {

/// One versioned grouping of API operations.
#[derive(Debug)]
pub struct Tag {
    pub name: String,
}

/// A tag is a preview tag when its name contains the preview marker.
pub open spec fn spec_is_preview(name: Seq<char>) -> bool {
    contains_seq(name, "preview"@)
}

/// A character that may stand in a manifest feature name unchanged:
/// ASCII letters and digits, `-` and `_`.
pub open spec fn is_feature_char(c: char) -> bool {
    ('a' as u32 <= c as u32 && c as u32 <= 'z' as u32) || ('A' as u32 <= c as u32 && c as u32
        <= 'Z' as u32) || ('0' as u32 <= c as u32 && c as u32 <= '9' as u32) || c == '-' || c
        == '_'
}

/// The manifest-safe feature identifier derived from a tag name: every
/// character outside the feature alphabet is replaced by `-`.
pub open spec fn spec_feature_name(name: Seq<char>) -> Seq<char> {
    Seq::new(name.len(), |i: int| if is_feature_char(name[i]) {
        name[i]
    } else {
        '-'
    })
}

impl Tag {
    /// Wraps a tag name.
    pub fn new(name: String) -> (t: Tag)
        ensures
            t.name@ == name@,
    {
        Tag { name }
    }

    /// The tag's unique name.
    pub fn name(&self) -> (r: &str)
        ensures
            r@ == self.name@,
    {
        self.name.as_str()
    }

    /// The name the tag's view exposes.
    pub open spec fn spec_name(&self) -> Seq<char> {
        self.name@
    }

    /// Whether the tag is a preview tag: a substring test against the
    /// literal preview marker.
    pub fn is_preview(&self) -> (r: bool)
        ensures
            r == spec_is_preview(self.name@),
    {
        str_contains(self.name.as_str(), "preview")
    }

    /// The manifest-safe feature identifier derived from the name.
    pub fn feature_name(&self) -> (r: String)
        ensures
            r@ == spec_feature_name(self.name@),
    {
        feature_name_of(self.name.as_str())
    }
}

/// Tests whether one character may stand in a feature name unchanged.
fn feature_char(c: char) -> (r: bool)
    ensures
        r == is_feature_char(c),
{
    let n = c as u32;
    ('a' as u32 <= n && n <= 'z' as u32) || ('A' as u32 <= n && n <= 'Z' as u32) || ('0' as u32
        <= n && n <= '9' as u32) || c == '-' || c == '_'
}

/// Normalizes a tag name to its feature identifier.
pub fn feature_name_of(name: &str) -> (r: String)
    ensures
        r@ == spec_feature_name(name@),
{
    let n = name.unicode_len();
    let mut out = String::new();
    let mut i: usize = 0;
    while i < n
        invariant
            0 <= i <= n,
            n == name@.len(),
            out@ =~= spec_feature_name(name@).subrange(0, i as int),
        decreases n - i,
    {
        let c = name.get_char(i);
        if feature_char(c) {
            let piece = name.substring_char(i, i + 1);
            out.append(piece);
        } else {
            proof {
                reveal_strlit("-");
            }
            out.append("-");
        }
        proof {
            assert(out@ =~= spec_feature_name(name@).subrange(0, i + 1));
        }
        i = i + 1;
    }
    proof {
        assert(out@ =~= spec_feature_name(name@));
    }
    out
}

/// The feature identifier is a function of the tag name alone: equal names
/// give identical identifiers, across calls and across runs.
pub proof fn lemma_feature_name_deterministic(a: Seq<char>, b: Seq<char>)
    requires
        a == b,
    ensures
        spec_feature_name(a) == spec_feature_name(b),
{
}

/// The index of the first tag with the given name, if any.
pub open spec fn find_by_name(tags: Seq<Tag>, name: Seq<char>) -> Option<int>
    decreases tags.len(),
{
    if tags.len() == 0 {
        None
    } else if tags[0].spec_name() == name {
        Some(0)
    } else {
        match find_by_name(tags.drop_first(), name) {
            Some(i) => Some(i + 1),
            None => None,
        }
    }
}

/// The index of the first non-preview tag, if any.
pub open spec fn find_non_preview(tags: Seq<Tag>) -> Option<int>
    decreases tags.len(),
{
    if tags.len() == 0 {
        None
    } else if !spec_is_preview(tags[0].spec_name()) {
        Some(0)
    } else {
        match find_non_preview(tags.drop_first()) {
            Some(i) => Some(i + 1),
            None => None,
        }
    }
}

/// The index the resolver picks: the first tag named by the request when
/// that name exists, otherwise the first non-preview tag, otherwise the
/// first tag.
pub open spec fn default_tag_index(tags: Seq<Tag>, requested: Option<Seq<char>>) -> int {
    let fallback = match find_non_preview(tags) {
        Some(i) => i,
        None => 0,
    };
    match requested {
        Some(name) => match find_by_name(tags, name) {
            Some(i) => i,
            None => fallback,
        },
        None => fallback,
    }
}

/// The view of the optional explicit request.
pub open spec fn requested_view(requested: Option<&str>) -> Option<Seq<char>> {
    match requested {
        Some(s) => Some(s@),
        None => None,
    }
}

proof fn lemma_find_by_name_props(tags: Seq<Tag>, name: Seq<char>)
    ensures
        match find_by_name(tags, name) {
            Some(i) => 0 <= i < tags.len() && tags[i].spec_name() == name && (forall|j: int|
                0 <= j < i ==> tags[j].spec_name() != name),
            None => forall|j: int| 0 <= j < tags.len() ==> tags[j].spec_name() != name,
        },
    decreases tags.len(),
{
    if tags.len() > 0 && tags[0].spec_name() != name {
        lemma_find_by_name_props(tags.drop_first(), name);
        assert(forall|j: int|
            1 <= j < tags.len() ==> tags[j] == tags.drop_first()[j - 1]);
    }
}

proof fn lemma_find_non_preview_props(tags: Seq<Tag>)
    ensures
        match find_non_preview(tags) {
            Some(i) => 0 <= i < tags.len() && !spec_is_preview(tags[i].spec_name()) && (forall|
                j: int,
            | 0 <= j < i ==> spec_is_preview(tags[j].spec_name())),
            None => forall|j: int| 0 <= j < tags.len() ==> spec_is_preview(tags[j].spec_name()),
        },
    decreases tags.len(),
{
    if tags.len() > 0 && spec_is_preview(tags[0].spec_name()) {
        lemma_find_non_preview_props(tags.drop_first());
        assert(forall|j: int|
            1 <= j < tags.len() ==> tags[j] == tags.drop_first()[j - 1]);
    }
}

proof fn lemma_find_by_name_of_first(tags: Seq<Tag>, name: Seq<char>, i: int)
    requires
        0 <= i < tags.len(),
        tags[i].spec_name() == name,
        forall|j: int| 0 <= j < i ==> tags[j].spec_name() != name,
    ensures
        find_by_name(tags, name) == Some(i),
    decreases tags.len(),
{
    if i > 0 {
        assert(forall|j: int|
            0 <= j < i - 1 ==> tags.drop_first()[j] == tags[j + 1]);
        lemma_find_by_name_of_first(tags.drop_first(), name, i - 1);
    }
}

proof fn lemma_find_non_preview_of_first(tags: Seq<Tag>, i: int)
    requires
        0 <= i < tags.len(),
        !spec_is_preview(tags[i].spec_name()),
        forall|j: int| 0 <= j < i ==> spec_is_preview(tags[j].spec_name()),
    ensures
        find_non_preview(tags) == Some(i),
    decreases tags.len(),
{
    if i > 0 {
        assert(forall|j: int|
            0 <= j < i - 1 ==> tags.drop_first()[j] == tags[j + 1]);
        lemma_find_non_preview_of_first(tags.drop_first(), i - 1);
    }
}

/// Resolves the default tag of a non-empty tag set. An explicit request
/// that names an existing tag wins; a request that names no tag is ignored
/// and resolution falls through to the first non-preview tag, or, when
/// every tag is a preview tag, to the first tag of the set.
#[verifier::loop_isolation(false)]
pub fn get_default_tag<'a>(tags: &'a Vec<Tag>, default_tag: Option<&str>) -> (r: &'a Tag)
    requires
        tags@.len() > 0,
    ensures
        *r == tags@[default_tag_index(tags@, requested_view(default_tag))],
{
    if let Some(name) = default_tag {
        let n = tags.len();
        let mut i: usize = 0;
        while i < n
            invariant
                0 <= i <= n,
                n == tags@.len(),
                forall|j: int| 0 <= j < i ==> tags@[j].spec_name() != name@,
            decreases n - i,
        {
            if str_equal(tags[i].name.as_str(), name) {
                proof {
                    lemma_find_by_name_of_first(tags@, name@, i as int);
                }
                return &tags[i];
            }
            i = i + 1;
        }
        proof {
            lemma_find_by_name_props(tags@, name@);
        }
    }
    let n = tags.len();
    let mut i: usize = 0;
    while i < n
        invariant
            0 <= i <= n,
            n == tags@.len(),
            forall|j: int| 0 <= j < i ==> spec_is_preview(tags@[j].spec_name()),
        decreases n - i,
    {
        if !tags[i].is_preview() {
            proof {
                lemma_find_non_preview_of_first(tags@, i as int);
            }
            return &tags[i];
        }
        i = i + 1;
    }
    proof {
        lemma_find_non_preview_props(tags@);
    }
    &tags[0]
}

/// The resolver always returns a tag of the set: the resolved index lies
/// within the bounds of any non-empty tag set.
pub proof fn lemma_default_tag_in_set(tags: Seq<Tag>, requested: Option<Seq<char>>)
    requires
        tags.len() > 0,
    ensures
        0 <= default_tag_index(tags, requested) < tags.len(),
{
    lemma_find_non_preview_props(tags);
    if let Some(name) = requested {
        lemma_find_by_name_props(tags, name);
    }
}

/// An explicit request that names an existing tag wins: the resolver
/// returns the first tag bearing exactly that name, whatever its preview
/// status or position.
pub proof fn lemma_requested_tag_wins(tags: Seq<Tag>, name: Seq<char>)
    requires
        exists|i: int| 0 <= i < tags.len() && tags[i].spec_name() == name,
    ensures
        ({
            let k = default_tag_index(tags, Some(name));
            &&& 0 <= k < tags.len()
            &&& tags[k].spec_name() == name
            &&& forall|j: int| 0 <= j < k ==> tags[j].spec_name() != name
        }),
{
    lemma_find_by_name_props(tags, name);
}

/// Without a matching request, the resolver picks the first non-preview
/// tag in insertion order when one exists.
pub proof fn lemma_first_stable_tag(tags: Seq<Tag>)
    requires
        exists|i: int| 0 <= i < tags.len() && !spec_is_preview(tags[i].spec_name()),
    ensures
        ({
            let k = default_tag_index(tags, None);
            &&& 0 <= k < tags.len()
            &&& !spec_is_preview(tags[k].spec_name())
            &&& forall|j: int| 0 <= j < k ==> spec_is_preview(tags[j].spec_name())
        }),
{
    lemma_find_non_preview_props(tags);
}

/// When every tag is a preview tag and no request matches, the resolver
/// falls back to the first tag in insertion order.
pub proof fn lemma_all_preview_falls_back_to_first(tags: Seq<Tag>)
    requires
        tags.len() > 0,
        forall|i: int| 0 <= i < tags.len() ==> spec_is_preview(tags[i].spec_name()),
    ensures
        default_tag_index(tags, None) == 0,
{
    lemma_find_non_preview_props(tags);
}

} // verus!
