//! Image references: a repository, then a colon and a version tag.

use crate::text::join;
use vstd::prelude::*;

verus! {

/// Repository of the managed image.
pub const ILLA_BUILDER_IMAGE: &'static str = "illasoft/illa-builder";

/// Version tag used when none is given.
pub const ILLA_BUILDER_VERSION: &'static str = "latest";

/// Whether the version tag of `reference` begins right after offset `i`: a
/// colon stands there, and neither a colon nor a slash follows it.
pub open spec fn is_tag_separator(reference: Seq<char>, i: int) -> bool {
    &&& 0 <= i < reference.len()
    &&& reference[i] == ':'
    &&& forall|j: int| i < j < reference.len() ==> reference[j] != ':' && reference[j] != '/'
}

/// Whether `reference` names a version tag.
pub open spec fn has_tag(reference: Seq<char>) -> bool {
    exists|i: int| is_tag_separator(reference, i)
}

/// The repository that `reference` names: what stands before the tag, or all
/// of it where it names no tag.
pub open spec fn repository_of(reference: Seq<char>) -> Seq<char> {
    if has_tag(reference) {
        reference.subrange(0, choose|i: int| is_tag_separator(reference, i))
    } else {
        reference
    }
}

/// The version tag that `reference` names, or the default one where it names
/// none.
pub open spec fn tag_of(reference: Seq<char>) -> Seq<char> {
    if has_tag(reference) {
        reference.subrange(
            (choose|i: int| is_tag_separator(reference, i)) + 1,
            reference.len() as int,
        )
    } else {
        ILLA_BUILDER_VERSION@
    }
}

/// The reference to `repository` at version `tag`.
pub open spec fn image_reference(repository: Seq<char>, tag: Seq<char>) -> Seq<char> {
    repository + seq![':'] + tag
}

/// `reference` with its version tag replaced by `tag`.
pub open spec fn retagged(reference: Seq<char>, tag: Seq<char>) -> Seq<char> {
    image_reference(repository_of(reference), tag)
}

/// A reference has at most one place where its tag begins.
pub proof fn lemma_tag_separator_unique(reference: Seq<char>, i: int, j: int)
    requires
        is_tag_separator(reference, i),
        is_tag_separator(reference, j),
    ensures
        i == j,
{
}

/// A tag is plain when it holds neither a colon nor a slash.
pub open spec fn is_plain_tag(tag: Seq<char>) -> bool {
    forall|j: int| 0 <= j < tag.len() ==> tag[j] != ':' && tag[j] != '/'
}

/// A reference put together from a repository and a plain tag names exactly
/// that repository and that tag.
pub proof fn lemma_reference_round_trip(repository: Seq<char>, tag: Seq<char>)
    requires
        is_plain_tag(tag),
    ensures
        has_tag(image_reference(repository, tag)),
        repository_of(image_reference(repository, tag)) == repository,
        tag_of(image_reference(repository, tag)) == tag,
{
    let reference = image_reference(repository, tag);
    let at = repository.len() as int;
    assert(reference[at] == ':');
    assert forall|j: int| at < j < reference.len() implies reference[j] != ':' && reference[j]
        != '/' by {
        assert(reference[j] == tag[j - at - 1]);
    }
    assert(is_tag_separator(reference, at));
    let chosen = choose|i: int| is_tag_separator(reference, i);
    lemma_tag_separator_unique(reference, chosen, at);
    assert(reference.subrange(0, at) =~= repository);
    assert(reference.subrange(at + 1, reference.len() as int) =~= tag);
}

/// Replacing the tag of a reference by a plain one changes the tag and
/// nothing else: the repository is the one that the reference named.
pub proof fn lemma_retagged_keeps_repository(reference: Seq<char>, tag: Seq<char>)
    requires
        is_plain_tag(tag),
    ensures
        repository_of(retagged(reference, tag)) == repository_of(reference),
        tag_of(retagged(reference, tag)) == tag,
{
    lemma_reference_round_trip(repository_of(reference), tag);
}

/// The default version is a plain tag.
pub proof fn lemma_default_version_is_plain()
    ensures
        is_plain_tag(ILLA_BUILDER_VERSION@),
{
    reveal_strlit("latest");
}

/// Finds where the version tag of `reference` begins.
fn find_tag_separator(reference: &str) -> (found: Option<usize>)
    ensures
        match found {
            Some(i) => is_tag_separator(reference@, i as int),
            None => !has_tag(reference@),
        },
{
    let n = reference.unicode_len();
    let mut i: usize = n;
    while i > 0
        invariant
            i <= n,
            n == reference@.len(),
            forall|j: int| i <= j < n ==> reference@[j] != ':' && reference@[j] != '/',
        decreases i,
    {
        let c = reference.get_char(i - 1);
        if c == ':' {
            return Some(i - 1);
        }
        if c == '/' {
            assert forall|k: int| !is_tag_separator(reference@, k) by {
                if is_tag_separator(reference@, k) {
                    assert(k < i - 1);
                    assert(reference@[i - 1] == '/');
                }
            }
            return None;
        }
        i -= 1;
    }
    assert forall|k: int| !is_tag_separator(reference@, k) by {}
    None
}

/// The repository that an image reference names.
pub fn repository(reference: &str) -> (name: String)
    ensures
        name@ == repository_of(reference@),
{
    match find_tag_separator(reference) {
        Some(i) => {
            proof {
                let chosen = choose|k: int| is_tag_separator(reference@, k);
                lemma_tag_separator_unique(reference@, chosen, i as int);
            }
            String::from_str(reference.substring_char(0, i))
        },
        None => String::from_str(reference),
    }
}

/// The version tag that an image reference names, `latest` where it names
/// none.
pub fn tag(reference: &str) -> (name: String)
    ensures
        name@ == tag_of(reference@),
{
    match find_tag_separator(reference) {
        Some(i) => {
            proof {
                let chosen = choose|k: int| is_tag_separator(reference@, k);
                lemma_tag_separator_unique(reference@, chosen, i as int);
            }
            let n = reference.unicode_len();
            String::from_str(reference.substring_char(i + 1, n))
        },
        None => String::from_str(ILLA_BUILDER_VERSION),
    }
}

/// Puts a reference together from a repository and a version tag.
pub fn reference_to(repository: &str, tag: &str) -> (reference: String)
    ensures
        reference@ == image_reference(repository@, tag@),
{
    proof {
        reveal_strlit(":");
    }
    let reference = join(repository, ":").concat(tag);
    assert(reference@ =~= image_reference(repository@, tag@));
    reference
}

} // verus!
