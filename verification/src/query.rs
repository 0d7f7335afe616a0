//! Rules of the query cache: the state a query reports, and which cached
//! keys an invalidation pattern reaches.

use vstd::prelude::*;
use vstd::string::*;

use crate::text::{starts_with, str_eq};

verus! {

/// The state of an observed query.
#[derive(Debug, Clone, PartialEq, Eq)]
pub enum QueryState<T> {
    /// No data yet; the fetch is under way.
    Loading,
    /// The latest data.
    Data(T),
    /// The fetch failed with this message.
    Error(String),
}

/// Whether an invalidation `pattern` reaches the cache `key`. A pattern
/// ending in `/*` reaches every key that starts with what precedes the
/// `/*`; any other pattern reaches only the key equal to it.
pub open spec fn pattern_matches(pattern: Seq<char>, key: Seq<char>) -> bool {
    let n = pattern.len();
    if n >= 2 && pattern[n - 2] == '/' && pattern[n - 1] == '*' {
        let prefix = pattern.subrange(0, n - 2);
        prefix.len() <= key.len() && key.subrange(0, prefix.len() as int) == prefix
    } else {
        pattern == key
    }
}

/// Whether the invalidation `pattern` reaches the cache `key`.
pub fn match_pattern(pattern: &str, key: &str) -> (r: bool)
    ensures
        r == pattern_matches(pattern@, key@),
{
    let n = pattern.unicode_len();
    if n >= 2 && pattern.get_char(n - 2) == '/' && pattern.get_char(n - 1) == '*' {
        let prefix = pattern.substring_char(0, n - 2);
        starts_with(key, prefix)
    } else {
        str_eq(pattern, key)
    }
}

/// The keys among `keys` that `pattern` reaches, in the same order.
pub fn keys_to_invalidate(pattern: &str, keys: &Vec<String>) -> (r: Vec<String>)
    ensures
        r@.map_values(|k: String| k@) == keys@.map_values(|k: String| k@).filter(
            |k: Seq<char>| pattern_matches(pattern@, k),
        ),
{
    let ghost views = keys@.map_values(|k: String| k@);
    let ghost pred = |k: Seq<char>| pattern_matches(pattern@, k);
    let mut r: Vec<String> = Vec::new();
    let mut i: usize = 0;
    while i < keys.len()
        invariant
            i <= keys.len(),
            views == keys@.map_values(|k: String| k@),
            pred == (|k: Seq<char>| pattern_matches(pattern@, k)),
            r@.map_values(|k: String| k@) == views.take(i as int).filter(pred),
        decreases keys.len() - i,
    {
        let ghost before = r@;
        proof {
            reveal(Seq::filter);
            assert(views.take(i as int + 1).drop_last() =~= views.take(i as int));
            assert(views.take(i as int + 1).last() == keys@[i as int]@);
        }
        if match_pattern(pattern, keys[i].as_str()) {
            r.push(keys[i].clone());
            proof {
                assert(r@.map_values(|k: String| k@) =~= before.map_values(|k: String| k@).push(
                    keys@[i as int]@,
                ));
            }
        }
        i = i + 1;
    }
    proof {
        assert(views.take(keys.len() as int) =~= views);
    }
    r
}

/// Whether a fetch is tried again after its `failures`-th failure in a row
/// (1 for the first), with `retries` retries allowed: only a transient
/// failure is, and at most `retries` times.
pub open spec fn retry_granted(failures: nat, retries: nat, transient: bool) -> bool {
    transient && failures <= retries
}

/// Whether a fetch is tried again after its `failures`-th failure in a row.
pub fn should_retry(failures: u32, retries: u32, transient: bool) -> (r: bool)
    ensures
        r == retry_granted(failures as nat, retries as nat, transient),
{
    transient && failures <= retries
}

/// How a call of a fetch ended.
pub enum FetchOutcome {
    Success,
    TransientFailure,
    FatalFailure,
}

/// The number of calls made, from call `i` on (`i` calls already failed
/// transiently), when call `k` ends as `outcomes[k]`: calls stop at a
/// success, at a failure that is not retried, or when the outcomes run out.
pub open spec fn calls_from(outcomes: Seq<FetchOutcome>, retries: nat, i: nat) -> nat
    decreases outcomes.len() - i,
{
    if i >= outcomes.len() {
        0
    } else {
        match outcomes[i as int] {
            FetchOutcome::Success => 1,
            FetchOutcome::FatalFailure => 1,
            FetchOutcome::TransientFailure => if retry_granted(i + 1, retries, true) {
                1 + calls_from(outcomes, retries, i + 1)
            } else {
                1
            },
        }
    }
}

/// With `retries` retries allowed, a fetch is called at most `retries + 1`
/// times; once when its first call fails for good; and exactly
/// `retries + 1` times when every call fails transiently.
pub proof fn law_retries_bound_calls(outcomes: Seq<FetchOutcome>, retries: nat)
    ensures
        calls_from(outcomes, retries, 0) <= retries + 1,
        outcomes.len() > 0 && outcomes[0] is FatalFailure ==> calls_from(outcomes, retries, 0) == 1,
        outcomes.len() > retries && (forall|k: int| 0 <= k < outcomes.len() ==> #[trigger] outcomes[k] is TransientFailure)
            ==> calls_from(outcomes, retries, 0) == retries + 1,
{
    lemma_calls_from(outcomes, retries, 0);
}

proof fn lemma_calls_from(outcomes: Seq<FetchOutcome>, retries: nat, i: nat)
    requires
        i <= retries,
    ensures
        calls_from(outcomes, retries, i) + i <= retries + 1,
        outcomes.len() > retries && (forall|k: int| 0 <= k < outcomes.len() ==> #[trigger] outcomes[k] is TransientFailure)
            ==> calls_from(outcomes, retries, i) + i == retries + 1,
    decreases outcomes.len() - i,
{
    if i < outcomes.len() {
        if i + 1 <= retries {
            lemma_calls_from(outcomes, retries, i + 1);
        }
    }
}

} // verus!
