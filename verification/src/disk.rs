//! Disk import decisions: repair aggressiveness and the import secret.
//!
//! The appliance's data volume is identified by a persisted string token.  A
//! trailing `_UNENC` marker on the token is the sole source of truth for
//! whether the volume carries no encryption secret; any other token imports
//! with a fixed default secret.  A repair-request marker file escalates the
//! filesystem-repair aggressiveness for exactly one import attempt.

use vstd::prelude::*;
use vstd::string::StrSliceExecFns;

verus! {

/// How aggressively the filesystem of the data volume is repaired during
/// import.
#[derive(Clone, Copy, Debug, PartialEq, Eq, Structural)]
pub enum RepairStrategy {
    /// Full, potentially destructive repair: chosen only when the operator
    /// left a repair-request marker.
    Aggressive,
    /// Light, passive check: the everyday choice.
    Preen,
}

/// What a completed volume import reports back: whether the machine must
/// reboot before the imported volume can be used.  Produced by the disk
/// subsystem, consumed immediately, never persisted.
#[derive(Clone, Copy, Debug, PartialEq, Eq, Structural)]
pub struct ImportOutcome {
    pub requires_reboot: bool,
}

/// The repair strategy selected for this boot: aggressive exactly when the
/// repair-request marker file is present.
pub open spec fn spec_strategy(repair_marker_present: bool) -> RepairStrategy {
    if repair_marker_present {
        RepairStrategy::Aggressive
    } else {
        RepairStrategy::Preen
    }
}

/// Selects the repair strategy from the repair-request marker's presence.
pub fn resolve_repair_strategy(repair_marker_present: bool) -> (r: RepairStrategy)
    ensures
        r == spec_strategy(repair_marker_present),
{
    if repair_marker_present {
        RepairStrategy::Aggressive
    } else {
        RepairStrategy::Preen
    }
}

/// The marker suffix that tags a volume identifier as unencrypted.
pub open spec fn unenc_suffix() -> Seq<char> {
    seq!['_', 'U', 'N', 'E', 'N', 'C']
}

/// Whether an identifier carries the trailing unencrypted-volume marker.
pub open spec fn ends_with_unenc(s: Seq<char>) -> bool {
    s.len() >= 6 && s.subrange(s.len() - 6, s.len() as int) == unenc_suffix()
}

/// The fixed default secret supplied when importing an encrypted volume.
pub open spec fn default_secret() -> Seq<char> {
    "password"@
}

/// Decides whether `identifier` names an unencrypted volume, i.e. ends in
/// the `_UNENC` marker.
pub fn identifier_is_unencrypted(identifier: &str) -> (b: bool)
    ensures
        b == ends_with_unenc(identifier@),
{
    let n = identifier.unicode_len();
    if n < 6 {
        return false;
    }
    let c0 = identifier.get_char(n - 6);
    let c1 = identifier.get_char(n - 5);
    let c2 = identifier.get_char(n - 4);
    let c3 = identifier.get_char(n - 3);
    let c4 = identifier.get_char(n - 2);
    let c5 = identifier.get_char(n - 1);
    let b = c0 == '_' && c1 == 'U' && c2 == 'N' && c3 == 'E' && c4 == 'N' && c5 == 'C';
    proof {
        let s = identifier@;
        let t = s.subrange(s.len() - 6, s.len() as int);
        assert(t[0] == c0 && t[1] == c1 && t[2] == c2 && t[3] == c3 && t[4] == c4 && t[5] == c5);
        if b {
            assert(t =~= unenc_suffix());
        } else {
            assert(t != unenc_suffix());
        }
    }
    b
}

/// The whitespace characters stripped from around a persisted token.
pub open spec fn is_space_char(c: char) -> bool {
    c == ' ' || c == '\t' || c == '\n' || c == '\r'
}

/// `s` with leading whitespace removed.
pub open spec fn trim_front(s: Seq<char>) -> Seq<char>
    decreases s.len(),
{
    if s.len() > 0 && is_space_char(s[0]) {
        trim_front(s.drop_first())
    } else {
        s
    }
}

/// `s` with trailing whitespace removed.
pub open spec fn trim_back(s: Seq<char>) -> Seq<char>
    decreases s.len(),
{
    if s.len() > 0 && is_space_char(s.last()) {
        trim_back(s.drop_last())
    } else {
        s
    }
}

/// `s` with whitespace removed from both ends: what a token read from a
/// file (typically carrying a trailing newline) is reduced to.
pub open spec fn spec_trim(s: Seq<char>) -> Seq<char> {
    trim_back(trim_front(s))
}

proof fn lemma_trim_front_at(s: Seq<char>, k: int)
    requires
        0 <= k <= s.len(),
        forall|i: int| 0 <= i < k ==> is_space_char(s[i]),
        k < s.len() ==> !is_space_char(s[k]),
    ensures
        trim_front(s) =~= s.subrange(k, s.len() as int),
    decreases k,
{
    if k == 0 {
        assert(trim_front(s) =~= s.subrange(0, s.len() as int));
    } else {
        let t = s.drop_first();
        assert(forall|i: int| 0 <= i < k - 1 ==> is_space_char(#[trigger] t[i])) by {
            assert(forall|i: int| 0 <= i < k - 1 ==> #[trigger] t[i] == s[i + 1]);
        }
        assert(k - 1 < t.len() ==> !is_space_char(t[k - 1]));
        lemma_trim_front_at(t, k - 1);
        assert(t.subrange(k - 1, t.len() as int) =~= s.subrange(k, s.len() as int));
    }
}

proof fn lemma_trim_back_at(s: Seq<char>, k: int)
    requires
        0 <= k <= s.len(),
        forall|i: int| k <= i < s.len() ==> is_space_char(s[i]),
        k > 0 ==> !is_space_char(s[k - 1]),
    ensures
        trim_back(s) =~= s.subrange(0, k),
    decreases s.len() - k,
{
    if k == s.len() {
        assert(trim_back(s) =~= s.subrange(0, k));
    } else {
        assert(is_space_char(s.last()));
        let t = s.drop_last();
        assert(forall|i: int| k <= i < t.len() ==> is_space_char(#[trigger] t[i])) by {
            assert(forall|i: int| 0 <= i < t.len() ==> #[trigger] t[i] == s[i]);
        }
        assert(k > 0 ==> !is_space_char(t[k - 1]));
        lemma_trim_back_at(t, k);
        assert(t.subrange(0, k) =~= s.subrange(0, k));
    }
}

fn is_space(c: char) -> (b: bool)
    ensures
        b == is_space_char(c),
{
    c == ' ' || c == '\t' || c == '\n' || c == '\r'
}

/// Strips whitespace from both ends of a token, as read from its file.
pub fn trim_token(s: &str) -> (r: String)
    ensures
        r@ == spec_trim(s@),
{
    let n = s.unicode_len();
    let mut start: usize = 0;
    while start < n && is_space(s.get_char(start))
        invariant
            start <= n,
            n == s@.len(),
            forall|i: int| 0 <= i < start ==> is_space_char(s@[i]),
        decreases n - start,
    {
        start = start + 1;
    }
    let mut end: usize = n;
    while end > start && is_space(s.get_char(end - 1))
        invariant
            start <= end <= n,
            n == s@.len(),
            start == n || !is_space_char(s@[start as int]),
            forall|i: int| 0 <= i < start ==> is_space_char(s@[i]),
            forall|i: int| end <= i < n ==> is_space_char(s@[i]),
        decreases end,
    {
        end = end - 1;
    }
    let mid = s.substring_char(start, end);
    let r = mid.to_owned();
    proof {
        lemma_trim_front_at(s@, start as int);
        let u = s@.subrange(start as int, s@.len() as int);
        assert(forall|i: int| end - start <= i < u.len() ==> is_space_char(#[trigger] u[i])) by {
            assert(forall|i: int| 0 <= i < u.len() ==> #[trigger] u[i] == s@[start + i]);
        }
        assert(end - start > 0 ==> !is_space_char(u[end - start - 1]));
        lemma_trim_back_at(u, end - start);
        assert(u.subrange(0, end - start) =~= s@.subrange(start as int, end as int));
    }
    r
}

/// Resolves the secret handed to the volume import: none exactly when the
/// identifier carries the unencrypted-volume marker, the fixed default
/// secret in every other case.
pub fn resolve_secret(identifier: &str) -> (s: Option<String>)
    ensures
        s is Some <==> !ends_with_unenc(identifier@),
        s matches Some(p) ==> p@ == default_secret(),
{
    if identifier_is_unencrypted(identifier) {
        None
    } else {
        Some("password".to_owned())
    }
}

} // verus!
