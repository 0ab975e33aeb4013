use vstd::prelude::*;
use crate::text::{chars_of, contains, contains_chars, occurs_at};

verus! {

/// What `str::to_lowercase` makes of a text.
pub uninterp spec fn lower_of(s: Seq<char>) -> Seq<char>;

/// The last component of a path as `std::path::Path::file_name` gives it, read
/// as text; empty where the path has none.
pub uninterp spec fn file_name_of(path: Seq<char>) -> Seq<char>;

/// Relies on `str::to_lowercase`: the result depends on the text alone.
#[verifier::external_body]
fn lowercase(s: &str) -> (r: String)
    ensures
        r@ == lower_of(s@),
{
    s.to_lowercase()
}

/// Relies on `std::path::Path::file_name`, read lossily as text: the result
/// depends on the path alone.
#[verifier::external_body]
fn path_file_name(path: &str) -> (r: String)
    ensures
        r@ == file_name_of(path@),
{
    std::path::Path::new(path).file_name().unwrap_or_default().to_string_lossy().into_owned()
}

/// The texts held by a sequence of strings.
pub open spec fn texts(v: Seq<String>) -> Seq<Seq<char>> {
    v.map_values(|s: String| s@)
}

/// The lower-cased forms of a sequence of texts.
pub open spec fn lowered(v: Seq<Seq<char>>) -> Seq<Seq<char>> {
    v.map_values(|s: Seq<char>| lower_of(s))
}

/// A name is hidden when it starts with a dot.
pub open spec fn is_hidden(name: Seq<char>) -> bool {
    name.len() > 0 && name[0] == '.'
}

/// Some fragment occurs in the path.
pub open spec fn matches_any(path: Seq<char>, fragments: Seq<Seq<char>>) -> bool {
    exists|k: int| 0 <= k < fragments.len() && contains(path, #[trigger] fragments[k])
}

/// The pruning rule on an entry's name and its lower-cased path, against
/// lower-cased fragments.
pub open spec fn skip_rule(name: Seq<char>, lower_path: Seq<char>, lower_fragments: Seq<Seq<char>>) -> bool {
    is_hidden(name) || matches_any(lower_path, lower_fragments)
}

/// Whether the entry at `path` is pruned, given the excluded fragments as the
/// caller wrote them.
pub open spec fn skips_dir(path: Seq<char>, exclude: Seq<Seq<char>>) -> bool {
    skip_rule(file_name_of(path), lower_of(path), lowered(exclude))
}

/// Whether the walk keeps the entry at `path`; the root is always kept.
pub open spec fn keeps_entry(is_root: bool, path: Seq<char>, exclude: Seq<Seq<char>>) -> bool {
    is_root || !skips_dir(path, exclude)
}

/// Whether an entry name is hidden (starts with a dot).
pub fn is_hidden_entry(name: &str) -> (r: bool)
    ensures
        r == is_hidden(name@),
{
    name.unicode_len() > 0 && name.get_char(0) == '.'
}

/// Whether some fragment occurs in the path.
pub fn matches_any_fragment(path: &str, fragments: &[String]) -> (r: bool)
    ensures
        r == matches_any(path@, texts(fragments@)),
{
    let hay = chars_of(path);
    let mut k: usize = 0;
    while k < fragments.len()
        invariant
            0 <= k <= fragments@.len(),
            hay@ == path@,
            forall|j: int| 0 <= j < k ==> !contains(path@, #[trigger] fragments@[j]@),
        decreases fragments@.len() - k,
    {
        let needle = chars_of(fragments[k].as_str());
        if contains_chars(&hay, &needle) {
            assert(contains(path@, texts(fragments@)[k as int]));
            return true;
        }
        k = k + 1;
    }
    assert forall|j: int| 0 <= j < texts(fragments@).len() implies !contains(
        path@,
        #[trigger] texts(fragments@)[j],
    ) by {
        assert(!contains(path@, fragments@[j]@));
    }
    false
}

/// The pruning rule, given the entry's name, its lower-cased path and the
/// lower-cased fragments: a hidden name, or a fragment that occurs in the path.
pub fn skip_by_rules(name: &str, lower_path: &str, lower_fragments: &[String]) -> (r: bool)
    ensures
        r == skip_rule(name@, lower_path@, texts(lower_fragments@)),
{
    is_hidden_entry(name) || matches_any_fragment(lower_path, lower_fragments)
}

/// The fragments, each lower-cased.
pub fn lower_all(fragments: &[String]) -> (r: Vec<String>)
    ensures
        texts(r@) == lowered(texts(fragments@)),
{
    let mut out: Vec<String> = Vec::new();
    let mut k: usize = 0;
    while k < fragments.len()
        invariant
            0 <= k <= fragments@.len(),
            out@.len() == k,
            forall|j: int| 0 <= j < k ==> #[trigger] out@[j]@ == lower_of(fragments@[j]@),
        decreases fragments@.len() - k,
    {
        out.push(lowercase(fragments[k].as_str()));
        k = k + 1;
    }
    assert(texts(out@) =~= lowered(texts(fragments@)));
    out
}

/// Whether the subtree at `path` is pruned: its name is hidden, or its
/// lower-cased path holds one of the lower-cased excluded fragments.
pub fn should_skip_dir(path: &str, exclude_dirs: &[String]) -> (r: bool)
    ensures
        r == skips_dir(path@, texts(exclude_dirs@)),
{
    let name = path_file_name(path);
    let lower_path = lowercase(path);
    let lower_fragments = lower_all(exclude_dirs);
    skip_by_rules(name.as_str(), lower_path.as_str(), lower_fragments.as_slice())
}

/// Whether the walk keeps the entry at `path` (a directory to descend into, or
/// a file to look at): the root is always kept, any other entry unless
/// `should_skip_dir` prunes it.
pub fn keep_entry(is_root: bool, path: &str, exclude_dirs: &[String]) -> (r: bool)
    ensures
        r == keeps_entry(is_root, path@, texts(exclude_dirs@)),
{
    is_root || !should_skip_dir(path, exclude_dirs)
}

/// An entry whose name is hidden is pruned, unless it is the root of the walk,
/// which is always kept.
pub proof fn lemma_hidden_pruned_below_root(path: Seq<char>, exclude: Seq<Seq<char>>)
    requires
        is_hidden(file_name_of(path)),
    ensures
        !keeps_entry(false, path, exclude),
        keeps_entry(true, path, exclude),
{
}

/// A fragment found in a path is found in every path that extends it.
pub proof fn lemma_contains_extends(dir: Seq<char>, path: Seq<char>, fragment: Seq<char>)
    requires
        contains(dir, fragment),
        dir.is_prefix_of(path),
    ensures
        contains(path, fragment),
{
    let i = choose|i: int| occurs_at(dir, fragment, i);
    assert(path.subrange(i, i + fragment.len()) =~= dir.subrange(i, i + fragment.len()));
    assert(occurs_at(path, fragment, i));
}

/// Nothing below an excluded directory is kept: where a directory's lower-cased
/// path holds an excluded fragment, every entry whose lower-cased path extends
/// it is pruned as well, whatever its name.
pub proof fn lemma_excluded_subtree_pruned(
    name: Seq<char>,
    lower_dir: Seq<char>,
    lower_path: Seq<char>,
    lower_fragments: Seq<Seq<char>>,
)
    requires
        matches_any(lower_dir, lower_fragments),
        lower_dir.is_prefix_of(lower_path),
    ensures
        skip_rule(name, lower_path, lower_fragments),
{
    let k = choose|k: int| 0 <= k < lower_fragments.len() && contains(lower_dir, #[trigger] lower_fragments[k]);
    lemma_contains_extends(lower_dir, lower_path, lower_fragments[k]);
}

} // verus!
