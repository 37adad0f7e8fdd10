//! The feature-manifest emitter.
//!
//! Given the tag set and the resolved default tag it produces the manifest
//! text: a package header followed by one feature section holding a
//! `default` line that selects the default tag's feature together with the
//! always-on transport feature, a sentinel line that lets a caller disable
//! default-tag selection, and one zero-dependency feature line per tag.

use vstd::prelude::*;
use vstd::string::*;
use crate::tags::{spec_feature_name, Tag};
use crate::text::str_equal;

verus! {

/// Why manifest generation can refuse a tag set.
#[derive(Debug, Clone, Copy, PartialEq, Eq)]
pub enum ManifestError {
    /// Generation needs at least one tag.
    EmptyTagSet,
    /// Two tags collapsed to the same feature identifier, which would alias
    /// two mutually exclusive feature flags.
    DuplicateFeatureName,
}

/// A string wrapped in double quotes.
pub open spec fn quoted(s: Seq<char>) -> Seq<char> {
    "\""@ + s + "\""@
}

/// The zero-dependency feature line of one tag.
pub open spec fn spec_tag_line(feat: Seq<char>) -> Seq<char> {
    quoted(feat) + " = []\n"@
}

/// The `default` feature line: the default tag's feature plus the always-on
/// transport feature.
pub open spec fn spec_default_line(feat: Seq<char>) -> Seq<char> {
    "default = ["@ + quoted(feat) + ", \"enable_reqwest\"]\n"@
}

/// The sentinel feature line that selects no tag at all.
pub open spec fn spec_sentinel_line() -> Seq<char> {
    "no-default-tag = []\n"@
}

/// The feature lines of the manifest, in order: the default line, the
/// sentinel line, then one line per tag in insertion order. A tag set of
/// size N yields exactly N + 2 feature lines.
pub open spec fn spec_feature_lines(tags: Seq<Tag>, default_tag: Tag) -> Seq<Seq<char>> {
    seq![
        spec_default_line(spec_feature_name(default_tag.name@)),
        spec_sentinel_line(),
    ] + Seq::new(tags.len(), |i: int| spec_tag_line(spec_feature_name(tags[i].name@)))
}

/// The manifest holds exactly one feature line per tag, plus the default
/// line, plus the sentinel line: a tag set of size N yields N + 2 feature
/// lines.
pub proof fn lemma_feature_line_count(tags: Seq<Tag>, default_tag: Tag)
    ensures
        spec_feature_lines(tags, default_tag).len() == tags.len() + 2,
{
}

/// The concatenation of a sequence of lines.
pub open spec fn concat_lines(lines: Seq<Seq<char>>) -> Seq<char>
    decreases lines.len(),
{
    if lines.len() == 0 {
        Seq::empty()
    } else {
        lines[0] + concat_lines(lines.drop_first())
    }
}

/// The manifest header naming the generated package.
pub open spec fn spec_header(crate_name: Seq<char>) -> Seq<char> {
    "[package]\nname = \""@ + crate_name
        + "\"\nversion = \"0.3.0\"\nedition = \"2021\"\n\n[features]\n"@
}

/// The whole manifest text: the header followed by every feature line.
pub open spec fn spec_manifest_text(crate_name: Seq<char>, tags: Seq<Tag>, default_tag: Tag) -> Seq<
    char,
> {
    spec_header(crate_name) + concat_lines(spec_feature_lines(tags, default_tag))
}

/// No two tags of the set may collapse to the same feature identifier.
pub open spec fn features_unique(tags: Seq<Tag>) -> bool {
    forall|i: int, j: int|
        0 <= i < j < tags.len() ==> spec_feature_name(tags[i].name@) != spec_feature_name(
            tags[j].name@,
        )
}

/// Concatenation distributes over appending line sequences.
proof fn lemma_concat_lines_app(a: Seq<Seq<char>>, b: Seq<Seq<char>>)
    ensures
        concat_lines(a + b) == concat_lines(a) + concat_lines(b),
    decreases a.len(),
{
    if a.len() == 0 {
        assert(a + b =~= b);
        assert(Seq::<char>::empty() + concat_lines(b) =~= concat_lines(b));
    } else {
        assert((a + b).drop_first() =~= a.drop_first() + b);
        lemma_concat_lines_app(a.drop_first(), b);
        assert((a[0] + concat_lines(a.drop_first())) + concat_lines(b) =~= a[0] + (concat_lines(
            a.drop_first(),
        ) + concat_lines(b)));
        assert(a + b =~= seq![a[0]] + (a.drop_first() + b));
        assert(concat_lines(a + b) == (a + b)[0] + concat_lines((a + b).drop_first()));
    }
}

/// Manifest emission is deterministic: equal crate names, tag names and
/// default tags yield byte-identical text, so regeneration from an
/// unchanged input perturbs nothing.
pub proof fn lemma_manifest_deterministic(
    crate_name_a: Seq<char>,
    crate_name_b: Seq<char>,
    tags_a: Seq<Tag>,
    tags_b: Seq<Tag>,
    default_a: Tag,
    default_b: Tag,
)
    requires
        crate_name_a == crate_name_b,
        tags_a.len() == tags_b.len(),
        forall|i: int| 0 <= i < tags_a.len() ==> tags_a[i].name@ == tags_b[i].name@,
        default_a.name@ == default_b.name@,
    ensures
        spec_manifest_text(crate_name_a, tags_a, default_a) == spec_manifest_text(
            crate_name_b,
            tags_b,
            default_b,
        ),
{
    assert(spec_feature_lines(tags_a, default_a) =~= spec_feature_lines(tags_b, default_b));
}

/// The concatenation of one line is that line.
proof fn lemma_concat_single(x: Seq<char>)
    ensures
        concat_lines(seq![x]) == x,
{
    let s = seq![x];
    assert(s.drop_first() =~= Seq::<Seq<char>>::empty());
    assert(concat_lines(s.drop_first()) == Seq::<char>::empty());
    assert(concat_lines(s) == x + Seq::<char>::empty());
    assert(x + Seq::<char>::empty() =~= x);
}

/// Appending one more line to a concatenated prefix.
proof fn lemma_concat_lines_snoc(lines: Seq<Seq<char>>, k: int)
    requires
        0 <= k < lines.len(),
    ensures
        concat_lines(lines.subrange(0, k + 1)) == concat_lines(lines.subrange(0, k)) + lines[k],
{
    assert(lines.subrange(0, k + 1) =~= lines.subrange(0, k) + seq![lines[k]]);
    lemma_concat_lines_app(lines.subrange(0, k), seq![lines[k]]);
    lemma_concat_single(lines[k]);
}

/// Builds the `default` feature line for the resolved default tag.
fn default_feature_line(tag: &Tag) -> (r: String)
    ensures
        r@ == spec_default_line(spec_feature_name(tag.name@)),
{
    let feat = tag.feature_name();
    let mut out = String::from_str("default = [");
    out.append("\"");
    out.append(feat.as_str());
    out.append("\"");
    out.append(", \"enable_reqwest\"]\n");
    proof {
        assert(out@ =~= spec_default_line(spec_feature_name(tag.name@)));
    }
    out
}

/// Builds the feature line of one tag.
fn tag_feature_line(tag: &Tag) -> (r: String)
    ensures
        r@ == spec_tag_line(spec_feature_name(tag.name@)),
{
    let feat = tag.feature_name();
    let mut out = String::from_str("\"");
    out.append(feat.as_str());
    out.append("\"");
    out.append(" = []\n");
    proof {
        assert(out@ =~= spec_tag_line(spec_feature_name(tag.name@)));
    }
    out
}

/// Emits the manifest text for a tag set and its resolved default tag.
///
/// Generation fails fast on an empty tag set, and fails when two tags
/// collapse to the same feature identifier; otherwise the returned text is
/// exactly the header followed by the N + 2 feature lines.
#[verifier::loop_isolation(false)]
pub fn manifest_text(crate_name: &str, tags: &Vec<Tag>, default_tag: &Tag) -> (r: Result<
    String,
    ManifestError,
>)
    ensures
        tags@.len() == 0 ==> r == Err::<String, ManifestError>(ManifestError::EmptyTagSet),
        tags@.len() > 0 && !features_unique(tags@) ==> r == Err::<String, ManifestError>(
            ManifestError::DuplicateFeatureName,
        ),
        tags@.len() > 0 && features_unique(tags@) ==> (r matches Ok(text) && text@
            == spec_manifest_text(crate_name@, tags@, *default_tag)),
{
    let n = tags.len();
    if n == 0 {
        return Err(ManifestError::EmptyTagSet);
    }
    let mut feats: Vec<String> = Vec::new();
    let mut i: usize = 0;
    while i < n
        invariant
            0 <= i <= n,
            feats@.len() == i,
            forall|k: int| 0 <= k < i ==> feats@[k]@ == spec_feature_name(tags@[k].name@),
        decreases n - i,
    {
        feats.push(tags[i].feature_name());
        i = i + 1;
    }
    let mut a: usize = 0;
    while a < n
        invariant
            0 <= a <= n,
            forall|i0: int, j0: int|
                0 <= i0 < a && i0 < j0 < n ==> spec_feature_name(tags@[i0].name@)
                    != spec_feature_name(tags@[j0].name@),
        decreases n - a,
    {
        let mut b: usize = a + 1;
        while b < n
            invariant
                a < b <= n,
                forall|j0: int|
                    a < j0 < b ==> spec_feature_name(tags@[a as int].name@) != spec_feature_name(
                        tags@[j0].name@,
                    ),
            decreases n - b,
        {
            if str_equal(feats[a].as_str(), feats[b].as_str()) {
                return Err(ManifestError::DuplicateFeatureName);
            }
            b = b + 1;
        }
        a = a + 1;
    }
    assert(features_unique(tags@));
    let ghost lines = spec_feature_lines(tags@, *default_tag);
    let mut out = String::from_str("[package]\nname = \"");
    out.append(crate_name);
    out.append("\"\nversion = \"0.3.0\"\nedition = \"2021\"\n\n[features]\n");
    proof {
        assert(out@ =~= spec_header(crate_name@));
    }
    let default_line = default_feature_line(default_tag);
    out.append(default_line.as_str());
    out.append("no-default-tag = []\n");
    proof {
        lemma_concat_lines_snoc(lines, 0);
        lemma_concat_lines_snoc(lines, 1);
        assert(lines.subrange(0, 0) =~= Seq::<Seq<char>>::empty());
        assert(concat_lines(lines.subrange(0, 0)) == Seq::<char>::empty());
        assert(lines[0] == spec_default_line(spec_feature_name(default_tag.name@)));
        assert(lines[1] == spec_sentinel_line());
        assert(out@ =~= spec_header(crate_name@) + concat_lines(lines.subrange(0, 2)));
    }
    let mut i: usize = 0;
    while i < n
        invariant
            0 <= i <= n,
            out@ == spec_header(crate_name@) + concat_lines(lines.subrange(0, 2 + i)),
        decreases n - i,
    {
        let line = tag_feature_line(&tags[i]);
        out.append(line.as_str());
        proof {
            lemma_concat_lines_snoc(lines, 2 + i);
            assert(lines[2 + i] == spec_tag_line(spec_feature_name(tags@[i as int].name@)));
            assert(out@ =~= spec_header(crate_name@) + concat_lines(
                lines.subrange(0, 2 + i + 1),
            ));
        }
        i = i + 1;
    }
    proof {
        assert(lines.subrange(0, 2 + n) =~= lines);
    }
    Ok(out)
}

} // verus!
