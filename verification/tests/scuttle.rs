use dead_reckoning::config::ScuttleConfig;
use dead_reckoning::scuttle::{chunk_sizes, PathOutcome, Scuttle, ScuttleReport, WipeMethod, WipePass};

#[test]
fn methods_by_name() {
    assert_eq!(Scuttle::parse_method("ZERO"), WipeMethod::Zero);
    assert_eq!(Scuttle::parse_method("random"), WipeMethod::Random);
    assert_eq!(Scuttle::parse_method("dod3"), WipeMethod::Dod3Pass);
    assert_eq!(Scuttle::parse_method("Gutmann"), WipeMethod::Gutmann);
    assert_eq!(Scuttle::parse_method("shred"), WipeMethod::Dod3Pass);
}

#[test]
fn passes() {
    assert_eq!(Scuttle::passes_for(WipeMethod::Zero), vec![WipePass::Zero]);
    assert_eq!(Scuttle::passes_for(WipeMethod::Random), vec![WipePass::Random]);
    assert_eq!(
        Scuttle::passes_for(WipeMethod::Dod3Pass),
        vec![WipePass::Pattern(0x00), WipePass::Pattern(0xFF), WipePass::Random]
    );
    let g = Scuttle::gutmann_passes();
    assert_eq!(g.len(), 35);
    assert!(g[..4].iter().all(|p| *p == WipePass::Random));
    assert!(g[31..].iter().all(|p| *p == WipePass::Random));
    assert_eq!(g[4], WipePass::Pattern(0x55));
    assert_eq!(g[30], WipePass::Pattern(0xDB));
}

#[test]
fn chunks() {
    assert_eq!(chunk_sizes(0), Vec::<usize>::new());
    assert_eq!(chunk_sizes(10), vec![10]);
    assert_eq!(chunk_sizes(65536), vec![65536]);
    assert_eq!(chunk_sizes(65537), vec![65536, 1]);
    assert_eq!(chunk_sizes(200000), vec![65536, 65536, 65536, 3392]);
}

#[test]
fn fills() {
    assert_eq!(WipePass::Zero.fill(3), vec![0, 0, 0]);
    assert_eq!(WipePass::Pattern(0xAA).fill(2), vec![0xAA, 0xAA]);
    assert_eq!(WipePass::Random.fill(5).len(), 5);
}

#[test]
fn report_accounts_for_every_path() {
    let config = ScuttleConfig {
        paths: vec!["/a".to_string(), "/b".to_string(), "/c".to_string(), "/d".to_string()],
        method: "gutmann".to_string(),
    };
    let s = Scuttle::new(config);
    assert_eq!(s.method(), WipeMethod::Gutmann);
    assert_eq!(s.paths().len(), 4);
    let outcomes = vec![
        PathOutcome::Deleted,
        PathOutcome::Missing,
        PathOutcome::Failed("permission denied".to_string()),
        PathOutcome::Deleted,
    ];
    let report = s.scuttle_all(&outcomes).unwrap();
    assert_eq!(report.method, "gutmann");
    assert_eq!(report.deleted, vec!["/a".to_string(), "/d".to_string()]);
    assert_eq!(report.skipped, vec!["/b".to_string()]);
    assert_eq!(report.failed, vec![("/c".to_string(), "permission denied".to_string())]);
    assert_eq!(
        report.render(),
        "Scuttle Report (method: gutmann)\n=================================\n\nDeleted (2):\n  [GONE] /a\n  [GONE] /d\n\nSkipped (1):\n  [MISSING] /b (wasn't there anyway)\n\nFailed (1):\n  [OOPS] /c: permission denied\n"
    );
}

#[test]
fn empty_report() {
    let r = ScuttleReport::default();
    assert_eq!(r.render(), "Scuttle Report (method: )\n=================================\n");
}
