//! Deciding which paths are cleanup candidates, by recursive glob patterns.
use vstd::prelude::*;

verus! {

/// Whether globset parses the pattern and builds it into a matcher.
pub uninterp spec fn glob_valid(pattern: Seq<char>) -> bool;

/// What a matcher built from `pattern` answers for `path`.
pub uninterp spec fn glob_matches(pattern: Seq<char>, path: Seq<char>) -> bool;

#[verifier::external_type_specification]
#[verifier::external_body]
pub struct ExGlobError(globset::Error);

/// Relies on `globset::Glob::new` and `GlobSetBuilder::build`, which parse the
/// pattern and compile it, returning an error where either step fails, and on
/// `GlobSet::is_match`, which tests the path, read as text, against it.
#[verifier::external_body]
fn glob_match(pattern: &str, path: &str) -> (r: Result<bool, globset::Error>)
    ensures
        r is Ok <==> glob_valid(pattern@),
        r is Ok ==> r->Ok_0 == glob_matches(pattern@, path@),
{
    let set = globset::GlobSetBuilder::new().add(globset::Glob::new(pattern)?).build()?;
    Ok(set.is_match(path))
}

/// A pattern of the fixed sets that the glob engine refused.
pub enum PatternError {
    Invalid { pattern: String },
}

/// Directories that are cleanup targets wherever they stand.
pub open spec fn include_patterns() -> Seq<Seq<char>> {
    seq!["**/node_modules"@, "**/dist"@]
}

/// Direct children of a target: they are removed with it, never listed apart.
pub open spec fn exclude_patterns() -> Seq<Seq<char>> {
    seq!["**/node_modules/*"@, "**/dist/*"@]
}

pub open spec fn views(patterns: Seq<&str>) -> Seq<Seq<char>> {
    patterns.map_values(|p: &str| p@)
}

pub open spec fn all_valid(patterns: Seq<Seq<char>>) -> bool {
    forall|i: int| 0 <= i < patterns.len() ==> glob_valid(#[trigger] patterns[i])
}

pub open spec fn matches_any(patterns: Seq<Seq<char>>, path: Seq<char>) -> bool {
    exists|i: int| 0 <= i < patterns.len() && glob_matches(#[trigger] patterns[i], path)
}

/// Both pattern sets are well-formed globs.
pub open spec fn patterns_valid() -> bool {
    all_valid(include_patterns()) && all_valid(exclude_patterns())
}

/// A path is a candidate when some inclusion pattern matches it and no
/// exclusion pattern does.
pub open spec fn is_candidate(path: Seq<char>) -> bool {
    matches_any(include_patterns(), path) && !matches_any(exclude_patterns(), path)
}

fn include_list() -> (r: Vec<&'static str>)
    ensures
        views(r@) == include_patterns(),
{
    let r = vec!["**/node_modules", "**/dist"];
    assert(views(r@) =~= include_patterns());
    r
}

fn exclude_list() -> (r: Vec<&'static str>)
    ensures
        views(r@) == exclude_patterns(),
{
    let r = vec!["**/node_modules/*", "**/dist/*"];
    assert(views(r@) =~= exclude_patterns());
    r
}

/// Tests `path` against every pattern of the list; fails on the first pattern
/// that is not a well-formed glob.
pub fn any_match(patterns: &Vec<&str>, path: &str) -> (r: Result<bool, PatternError>)
    ensures
        r is Ok <==> all_valid(views(patterns@)),
        r is Ok ==> r->Ok_0 == matches_any(views(patterns@), path@),
{
    let ghost pv = views(patterns@);
    let mut found = false;
    let mut i: usize = 0;
    while i < patterns.len()
        invariant
            0 <= i <= patterns.len(),
            pv == views(patterns@),
            forall|j: int| 0 <= j < i ==> glob_valid(#[trigger] pv[j]),
            found == exists|j: int| 0 <= j < i && glob_matches(#[trigger] pv[j], path@),
        decreases patterns.len() - i,
    {
        let pattern: &str = patterns[i];
        assert(pv[i as int] == pattern@);
        match glob_match(pattern, path) {
            Ok(m) => {
                if m {
                    assert(glob_matches(pv[i as int], path@));
                }
                found = found || m;
            },
            Err(_) => {
                assert(!glob_valid(pv[i as int]));
                return Err(PatternError::Invalid { pattern: String::from_str(pattern) });
            },
        }
        i += 1;
    }
    Ok(found)
}

/// The decision once the pattern sets have answered: a candidate is matched by
/// an inclusion pattern and by no exclusion pattern.
pub fn verdict(included: bool, excluded: bool) -> (r: bool)
    ensures
        r == (included && !excluded),
{
    included && !excluded
}

/// Decides whether `path` is a cleanup candidate. The answer depends on the
/// path's text alone.
pub fn classify(path: &str) -> (r: Result<bool, PatternError>)
    ensures
        r is Ok <==> patterns_valid(),
        r is Ok ==> r->Ok_0 == is_candidate(path@),
{
    let targets = include_list();
    let children = exclude_list();
    let included = any_match(&targets, path);
    let excluded = any_match(&children, path);
    match (included, excluded) {
        (Ok(a), Ok(b)) => Ok(verdict(a, b)),
        (Err(e), _) => Err(e),
        (_, Err(e)) => Err(e),
    }
}

pub open spec fn candidates_of(entries: Seq<String>) -> Seq<String> {
    entries.filter(|e: String| is_candidate(e@))
}

/// The entries whose verdict is `true`, in their order.
pub open spec fn marked(entries: Seq<String>, verdicts: Seq<bool>) -> Seq<String>
    decreases entries.len(),
{
    if entries.len() == 0 || verdicts.len() == 0 {
        Seq::empty()
    } else {
        let rest = marked(entries.drop_last(), verdicts.drop_last());
        if verdicts.last() {
            rest.push(entries.last())
        } else {
            rest
        }
    }
}

proof fn lemma_marked_candidates(entries: Seq<String>, verdicts: Seq<bool>)
    requires
        verdicts.len() == entries.len(),
        forall|i: int| 0 <= i < entries.len() ==> verdicts[i] == is_candidate(#[trigger] entries[i]@),
    ensures
        marked(entries, verdicts) == candidates_of(entries),
    decreases entries.len(),
{
    reveal(Seq::filter);
    if entries.len() > 0 {
        let (e, v) = (entries.drop_last(), verdicts.drop_last());
        assert forall|i: int| 0 <= i < e.len() implies v[i] == is_candidate(#[trigger] e[i]@) by {
            assert(e[i] == entries[i]);
        }
        lemma_marked_candidates(e, v);
        assert(verdicts.last() == is_candidate(entries.last()@));
    }
}

/// Keeps the entries whose verdict is `true`, in their order.
pub fn keep_marked(entries: &Vec<String>, verdicts: &Vec<bool>) -> (r: Vec<String>)
    requires
        entries@.len() == verdicts@.len(),
    ensures
        r@ == marked(entries@, verdicts@),
{
    let mut out: Vec<String> = Vec::new();
    let mut i: usize = 0;
    while i < entries.len()
        invariant
            0 <= i <= entries.len(),
            entries@.len() == verdicts@.len(),
            out@ == marked(entries@.take(i as int), verdicts@.take(i as int)),
        decreases entries.len() - i,
    {
        proof {
            let (e, v) = (entries@.take(i + 1), verdicts@.take(i + 1));
            assert(e.drop_last() =~= entries@.take(i as int));
            assert(v.drop_last() =~= verdicts@.take(i as int));
            assert(e.last() == entries@[i as int]);
            assert(v.last() == verdicts@[i as int]);
        }
        if verdicts[i] {
            out.push(entries[i].clone());
        }
        i += 1;
    }
    assert(entries@.take(i as int) =~= entries@);
    assert(verdicts@.take(i as int) =~= verdicts@);
    out
}

/// Keeps, in their order, the walked entries that are candidates.
pub fn select_candidates(entries: &Vec<String>) -> (r: Result<Vec<String>, PatternError>)
    ensures
        r is Ok <==> (patterns_valid() || entries@.len() == 0),
        r is Ok ==> r->Ok_0@ == candidates_of(entries@),
{
    let mut verdicts: Vec<bool> = Vec::new();
    let mut i: usize = 0;
    while i < entries.len()
        invariant
            0 <= i <= entries.len(),
            i > 0 ==> patterns_valid(),
            verdicts@.len() == i,
            forall|j: int| 0 <= j < i ==> verdicts@[j] == is_candidate(#[trigger] entries@[j]@),
        decreases entries.len() - i,
    {
        let keep = classify(entries[i].as_str())?;
        verdicts.push(keep);
        i += 1;
    }
    proof {
        lemma_marked_candidates(entries@, verdicts@);
    }
    Ok(keep_marked(entries, &verdicts))
}

} // verus!
