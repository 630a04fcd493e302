use propchain::DependencyScanResults;
use propchain::GasOptimizationResults;
use propchain::StaticAnalysisResults;
use propchain::audit_score;
use propchain::count_occurrences;

#[test]
fn test_audit_score_clean_run() {
    let score = audit_score(
        &StaticAnalysisResults::default(),
        &DependencyScanResults::default(),
        &GasOptimizationResults::default(),
    );
    assert_eq!(score, 100);
}

#[test]
fn test_audit_score_weighted_deductions() {
    let sa = StaticAnalysisResults {
        clippy_warnings: 3,
        clippy_errors: 2,
        complexity_warnings: 1,
        unsafe_blocks: 1,
        todos_found: 9,
    };
    let ds = DependencyScanResults { vulnerabilities: 0, warnings: 5 };
    let gas = GasOptimizationResults {
        inefficient_loops: 4,
        storage_access_violations: 2,
        large_allocations: 1,
    };
    // 100 - (2*10 + 3*2 + 1*5 + 1*5 + 0*20 + 4) = 60; open to-do markers and
    // dependency warnings do not weigh on the score.
    assert_eq!(audit_score(&sa, &ds, &gas), 60);
}

#[test]
fn test_audit_score_floors_at_zero() {
    let sa = StaticAnalysisResults {
        clippy_warnings: 0,
        clippy_errors: 100,
        complexity_warnings: 0,
        unsafe_blocks: 0,
        todos_found: 0,
    };
    let score = audit_score(
        &sa,
        &DependencyScanResults::default(),
        &GasOptimizationResults::default(),
    );
    assert_eq!(score, 0);
}

#[test]
fn test_count_occurrences_basic() {
    let hay: Vec<u8> = b"fn main() { unsafe { x } unsafe { y } }".to_vec();
    let needle: Vec<u8> = b"unsafe {".to_vec();
    assert_eq!(count_occurrences(&hay, &needle), 2);
}

#[test]
fn test_count_occurrences_non_overlapping() {
    let hay: Vec<u8> = b"aaaa".to_vec();
    let needle: Vec<u8> = b"aa".to_vec();
    // Matching consumes the pattern, as string matching does.
    assert_eq!(count_occurrences(&hay, &needle), 2);
    let hay: Vec<u8> = b"aaa".to_vec();
    assert_eq!(count_occurrences(&hay, &needle), 1);
}

#[test]
fn test_count_occurrences_absent_or_short() {
    let hay: Vec<u8> = b"hello".to_vec();
    assert_eq!(count_occurrences(&hay, &b"world".to_vec()), 0);
    assert_eq!(count_occurrences(&hay, &b"hello world".to_vec()), 0);
    let empty: Vec<u8> = Vec::new();
    assert_eq!(count_occurrences(&empty, &b"x".to_vec()), 0);
}
