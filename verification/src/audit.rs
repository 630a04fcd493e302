use vstd::prelude::*;

verus! {

/// Static-analysis tallies of one audit run.
#[derive(Debug, Clone, Copy, PartialEq, Eq, Structural, Default)]
pub struct StaticAnalysisResults {
    pub clippy_warnings: u64,
    pub clippy_errors: u64,
    pub complexity_warnings: u64,
    pub unsafe_blocks: u64,
    pub todos_found: u64,
}

/// Dependency-scan tallies of one audit run.
#[derive(Debug, Clone, Copy, PartialEq, Eq, Structural, Default)]
pub struct DependencyScanResults {
    pub vulnerabilities: u64,
    pub warnings: u64,
}

/// Code-quality tallies of one audit run.
#[derive(Debug, Clone, Copy, PartialEq, Eq, Structural, Default)]
pub struct CodeQualityResults {
    pub complexity_score: u32,
    pub files_scanned: u64,
}

/// Resource-usage heuristics of one audit run.
#[derive(Debug, Clone, Copy, PartialEq, Eq, Structural, Default)]
pub struct GasOptimizationResults {
    pub inefficient_loops: u64,
    pub storage_access_violations: u64,
    pub large_allocations: u64,
}

/// The audit score: one hundred, less ten per error, two per warning, five
/// per complexity warning, five per unsafe block, twenty per vulnerability
/// and one per inefficient loop, floored at zero.
pub open spec fn spec_audit_score(
    clippy_errors: u64,
    clippy_warnings: u64,
    complexity_warnings: u64,
    unsafe_blocks: u64,
    vulnerabilities: u64,
    inefficient_loops: u64,
) -> int {
    let total = clippy_errors * 10 + clippy_warnings * 2 + complexity_warnings * 5 + unsafe_blocks
        * 5 + vulnerabilities * 20 + inefficient_loops;
    if total >= 100 {
        0
    } else {
        100 - total
    }
}

/// A weighted count, saturating at the largest representable value.
fn cap_mul(count: u64, weight: u64) -> (r: u64)
    ensures
        r == if count * weight > u64::MAX {
            u64::MAX as int
        } else {
            count * weight
        },
{
    match count.checked_mul(weight) {
        Some(p) => p,
        None => u64::MAX,
    }
}

/// Computes the audit score from the tallies.
pub fn audit_score(static_analysis: &StaticAnalysisResults, dependency_scan: &DependencyScanResults,
    gas_analysis: &GasOptimizationResults) -> (r: u32)
    ensures
        r == spec_audit_score(
            static_analysis.clippy_errors,
            static_analysis.clippy_warnings,
            static_analysis.complexity_warnings,
            static_analysis.unsafe_blocks,
            dependency_scan.vulnerabilities,
            gas_analysis.inefficient_loops,
        ),
{
    let mut score: u64 = 100;
    score = score.saturating_sub(cap_mul(static_analysis.clippy_errors, 10));
    score = score.saturating_sub(cap_mul(static_analysis.clippy_warnings, 2));
    score = score.saturating_sub(cap_mul(static_analysis.complexity_warnings, 5));
    score = score.saturating_sub(cap_mul(static_analysis.unsafe_blocks, 5));
    score = score.saturating_sub(cap_mul(dependency_scan.vulnerabilities, 20));
    score = score.saturating_sub(gas_analysis.inefficient_loops);
    score as u32
}

/// How often the pattern occurs in the text, counting non-overlapping
/// occurrences from the left, as string matching does.
pub open spec fn spec_count_occurrences(hay: Seq<u8>, needle: Seq<u8>) -> int
    recommends
        needle.len() > 0,
    decreases hay.len(),
{
    if needle.len() == 0 || hay.len() < needle.len() {
        0
    } else if hay.subrange(0, needle.len() as int) == needle {
        1 + spec_count_occurrences(hay.skip(needle.len() as int), needle)
    } else {
        spec_count_occurrences(hay.skip(1), needle)
    }
}

/// Whether the pattern sits at the given position of the text.
fn match_at(hay: &Vec<u8>, i: usize, needle: &Vec<u8>) -> (r: bool)
    requires
        i + needle@.len() <= hay@.len(),
    ensures
        r == (hay@.subrange(i as int, i as int + needle@.len()) == needle@),
{
    let hn = hay.len();
    let mut k: usize = 0;
    while k < needle.len()
        invariant
            i + needle@.len() <= hay@.len(),
            hay@.len() == hn,
            0 <= k <= needle@.len(),
            forall|j: int| 0 <= j < k ==> hay@[i + j] == needle@[j],
        decreases needle@.len() - k,
    {
        if hay[i + k] != needle[k] {
            proof {
                assert(hay@.subrange(i as int, i as int + needle@.len())[k as int] != needle@[
                k as int]);
            }
            return false;
        }
        k = k + 1;
    }
    proof {
        assert(hay@.subrange(i as int, i as int + needle@.len()) =~= needle@);
    }
    true
}

/// Counts the non-overlapping occurrences of a pattern in a text, scanning
/// from the left.
pub fn count_occurrences(hay: &Vec<u8>, needle: &Vec<u8>) -> (r: u64)
    requires
        needle@.len() > 0,
        hay@.len() < u64::MAX,
    ensures
        r == spec_count_occurrences(hay@, needle@),
{
    let mut count: u64 = 0;
    let mut i: usize = 0;
    proof {
        assert(hay@.skip(0) =~= hay@);
    }
    while needle.len() <= hay.len() && i <= hay.len() - needle.len()
        invariant
            needle@.len() > 0,
            hay@.len() < u64::MAX,
            0 <= i <= hay@.len(),
            count <= i,
            spec_count_occurrences(hay@, needle@) == count + spec_count_occurrences(
                hay@.skip(i as int),
                needle@,
            ),
        decreases hay@.len() - i,
    {
        if match_at(hay, i, needle) {
            proof {
                lemma_count_step(hay@, needle@, i as int, true);
            }
            count = count + 1;
            i = i + needle.len();
        } else {
            proof {
                lemma_count_step(hay@, needle@, i as int, false);
            }
            i = i + 1;
        }
    }
    proof {
        assert(spec_count_occurrences(hay@.skip(i as int), needle@) == 0);
    }
    count
}

/// One scan step: matching at the front consumes the pattern's length and
/// counts one; not matching consumes one byte.
proof fn lemma_count_step(hay: Seq<u8>, needle: Seq<u8>, i: int, matched: bool)
    requires
        needle.len() > 0,
        0 <= i,
        i + needle.len() <= hay.len(),
        matched == (hay.subrange(i, i + needle.len()) == needle),
    ensures
        matched ==> spec_count_occurrences(hay.skip(i), needle) == 1 + spec_count_occurrences(
            hay.skip(i + needle.len()),
            needle,
        ),
        !matched ==> spec_count_occurrences(hay.skip(i), needle) == spec_count_occurrences(
            hay.skip(i + 1),
            needle,
        ),
{
    let s = hay.skip(i);
    assert(s.subrange(0, needle.len() as int) =~= hay.subrange(i, i + needle.len()));
    if matched {
        assert(s.skip(needle.len() as int) =~= hay.skip(i + needle.len()));
    } else {
        assert(s.skip(1) =~= hay.skip(i + 1));
    }
}

} // verus!
