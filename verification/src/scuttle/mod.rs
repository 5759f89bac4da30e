//! Scuttle: securely wiping and deleting the configured paths. The library decides the wipe
//! passes, the chunks each pass is written in and their bytes, and assembles the report;
//! touching the file system happens outside it.

use vstd::prelude::*;
use crate::cargo::random_bytes;
use crate::config::ScuttleConfig;
use crate::error::Error;
use crate::text::{decimal, decimal_u64, lowered, str_eq, to_lowercase};

verus! {

/// Bytes written per chunk of a pass.
pub const CHUNK_SIZE: usize = 65536;

/// How thoroughly to destroy the data.
#[derive(Debug, Clone, Copy, PartialEq, Eq, Structural)]
pub enum WipeMethod {
    /// One pass of zeros.
    Zero,
    /// One pass of random data.
    Random,
    /// DoD 5220.22-M: zeros, ones, random.
    Dod3Pass,
    /// Gutmann: 35 passes.
    Gutmann,
}

/// One pass over a file.
#[derive(Debug, Clone, Copy, PartialEq, Eq, Structural)]
pub enum WipePass {
    /// All 0x00.
    Zero,
    /// One byte repeated.
    Pattern(u8),
    /// Random bytes.
    Random,
}

/// What happened to one configured path.
#[derive(Debug, Clone)]
pub enum PathOutcome {
    /// It did not exist.
    Missing,
    /// It was wiped and deleted.
    Deleted,
    /// Wiping or deleting failed, with this message.
    Failed(String),
}

/// What a scuttle did, path by path.
#[derive(Debug)]
pub struct ScuttleReport {
    /// The configured wipe method, as written.
    pub method: String,
    /// Paths wiped and deleted.
    pub deleted: Vec<String>,
    /// Paths that did not exist.
    pub skipped: Vec<String>,
    /// Paths that failed, with the error's text.
    pub failed: Vec<(String, String)>,
}

impl Default for ScuttleReport {
    /// An empty report.
    fn default() -> (r: ScuttleReport)
        ensures
            r.method@ == Seq::<char>::empty(),
            r.deleted@.len() == 0,
            r.skipped@.len() == 0,
            r.failed@.len() == 0,
    {
        ScuttleReport { method: String::new(), deleted: Vec::new(), skipped: Vec::new(), failed: Vec::new() }
    }
}

/// The wipe method a configured name stands for (compared lowercased); DoD for any other.
pub open spec fn method_named(name: Seq<char>) -> WipeMethod {
    let n = lowered(name);
    if n == "zero"@ {
        WipeMethod::Zero
    } else if n == "random"@ {
        WipeMethod::Random
    } else if n == "dod"@ || n == "dod3"@ {
        WipeMethod::Dod3Pass
    } else if n == "gutmann"@ {
        WipeMethod::Gutmann
    } else {
        WipeMethod::Dod3Pass
    }
}

/// The 27 fixed patterns of Gutmann's passes 5 to 31.
pub open spec fn gutmann_patterns() -> Seq<u8> {
    seq![
        0x55u8, 0xAA, 0x92, 0x49, 0x24, 0x00, 0x11, 0x22,
        0x33, 0x44, 0x55, 0x66, 0x77, 0x88, 0x99, 0xAA,
        0xBB, 0xCC, 0xDD, 0xEE, 0xFF, 0x92, 0x49, 0x24,
        0x6D, 0xB6, 0xDB,
    ]
}

/// Gutmann's 35 passes: 4 random, the 27 patterns, 4 random.
pub open spec fn gutmann_spec() -> Seq<WipePass> {
    Seq::new(
        35,
        |i: int|
            if i < 4 || i >= 31 {
                WipePass::Random
            } else {
                WipePass::Pattern(gutmann_patterns()[i - 4])
            },
    )
}

/// The passes of each method.
pub open spec fn passes_spec(m: WipeMethod) -> Seq<WipePass> {
    match m {
        WipeMethod::Zero => seq![WipePass::Zero],
        WipeMethod::Random => seq![WipePass::Random],
        WipeMethod::Dod3Pass => seq![WipePass::Pattern(0x00), WipePass::Pattern(0xFF), WipePass::Random],
        WipeMethod::Gutmann => gutmann_spec(),
    }
}

/// The chunks a pass over `size` bytes is written in: as many full buffers as fit (a buffer
/// being 64 KiB, or the whole file when smaller), then the rest.
pub open spec fn chunks_spec(size: nat) -> Seq<nat> {
    if size == 0 {
        Seq::empty()
    } else {
        let c = if size < CHUNK_SIZE { size } else { CHUNK_SIZE as nat };
        let full = Seq::new(size / c, |i: int| c);
        if size % c > 0 {
            full.push(size % c)
        } else {
            full
        }
    }
}

/// The paths with a given kind of outcome, in configured order.
pub open spec fn paths_with(paths: Seq<String>, outcomes: Seq<PathOutcome>, kind: int) -> Seq<Seq<char>>
    decreases paths.len(),
{
    if paths.len() == 0 || outcomes.len() == 0 {
        Seq::empty()
    } else {
        let rest = paths_with(paths.drop_last(), outcomes.drop_last(), kind);
        let hit = match outcomes.last() {
            PathOutcome::Missing => kind == 0,
            PathOutcome::Deleted => kind == 1,
            PathOutcome::Failed(_) => kind == 2,
        };
        if hit {
            rest.push(paths.last()@)
        } else {
            rest
        }
    }
}

/// The failed paths with their messages, in configured order.
pub open spec fn failures(paths: Seq<String>, outcomes: Seq<PathOutcome>) -> Seq<(Seq<char>, Seq<char>)>
    decreases paths.len(),
{
    if paths.len() == 0 || outcomes.len() == 0 {
        Seq::empty()
    } else {
        let rest = failures(paths.drop_last(), outcomes.drop_last());
        match outcomes.last() {
            PathOutcome::Failed(m) => rest.push((paths.last()@, m@)),
            _ => rest,
        }
    }
}

/// The texts of a run of strings.
pub open spec fn texts(v: Seq<String>) -> Seq<Seq<char>> {
    v.map_values(|s: String| s@)
}

/// The texts of a run of string pairs.
pub open spec fn pair_texts(v: Seq<(String, String)>) -> Seq<(Seq<char>, Seq<char>)> {
    v.map_values(|p: (String, String)| (p.0@, p.1@))
}

/// The scuttle system over its configuration.
pub struct Scuttle {
    config: ScuttleConfig,
}

impl Scuttle {
    /// The configuration.
    pub closed spec fn spec_config(&self) -> ScuttleConfig {
        self.config
    }

    /// A scuttle system for the given configuration. Nothing is deleted yet.
    pub fn new(config: ScuttleConfig) -> (s: Scuttle)
        ensures
            s.spec_config() == config,
    {
        Scuttle { config }
    }

    /// The paths to destroy, in configured order.
    pub fn paths(&self) -> (r: &[String])
        ensures
            r@ == self.spec_config().paths@,
    {
        self.config.paths.as_slice()
    }

    /// The wipe method the configuration names.
    pub fn method(&self) -> (r: WipeMethod)
        ensures
            r == method_named(self.spec_config().method@),
    {
        Self::parse_method(self.config.method.as_str())
    }

    /// The report of a scuttle, from what happened to each configured path (in order):
    /// missing paths are skipped, the others deleted or failed with their message.
    pub fn scuttle_all(&self, outcomes: &[PathOutcome]) -> (r: Result<ScuttleReport, Error>)
        requires
            outcomes@.len() == self.spec_config().paths@.len(),
        ensures
            match r {
                Ok(report) => {
                    &&& report.method@ == self.spec_config().method@
                    &&& texts(report.skipped@) == paths_with(self.spec_config().paths@, outcomes@, 0)
                    &&& texts(report.deleted@) == paths_with(self.spec_config().paths@, outcomes@, 1)
                    &&& pair_texts(report.failed@) == failures(self.spec_config().paths@, outcomes@)
                },
                Err(_) => false,
            },
    {
        let mut deleted: Vec<String> = Vec::new();
        let mut skipped: Vec<String> = Vec::new();
        let mut failed: Vec<(String, String)> = Vec::new();
        let paths = &self.config.paths;
        let n = paths.len();
        let mut i: usize = 0;
        while i < n
            invariant
                n == paths@.len(),
                n == outcomes@.len(),
                paths@ == self.spec_config().paths@,
                i <= n,
                texts(skipped@) == paths_with(paths@.subrange(0, i as int), outcomes@.subrange(0, i as int), 0),
                texts(deleted@) == paths_with(paths@.subrange(0, i as int), outcomes@.subrange(0, i as int), 1),
                pair_texts(failed@) == failures(paths@.subrange(0, i as int), outcomes@.subrange(0, i as int)),
            decreases n - i,
        {
            proof {
                let ps = paths@.subrange(0, i + 1);
                let os = outcomes@.subrange(0, i + 1);
                assert(ps.drop_last() =~= paths@.subrange(0, i as int));
                assert(os.drop_last() =~= outcomes@.subrange(0, i as int));
            }
            let path = paths[i].clone();
            match &outcomes[i] {
                PathOutcome::Missing => {
                    skipped.push(path);
                },
                PathOutcome::Deleted => {
                    deleted.push(path);
                },
                PathOutcome::Failed(m) => {
                    failed.push((path, m.clone()));
                },
            }
            i = i + 1;
        }
        assert(paths@.subrange(0, n as int) =~= paths@);
        assert(outcomes@.subrange(0, n as int) =~= outcomes@);
        Ok(ScuttleReport { method: self.config.method.clone(), deleted, skipped, failed })
    }

    /// The wipe method a name stands for, compared lowercased: "zero", "random", "dod" or
    /// "dod3", "gutmann"; DoD for anything else.
    pub fn parse_method(s: &str) -> (r: WipeMethod)
        ensures
            r == method_named(s@),
    {
        let lower_text = to_lowercase(s);
        let n = lower_text.as_str();
        if str_eq(n, "zero") {
            WipeMethod::Zero
        } else if str_eq(n, "random") {
            WipeMethod::Random
        } else if str_eq(n, "dod") || str_eq(n, "dod3") {
            WipeMethod::Dod3Pass
        } else if str_eq(n, "gutmann") {
            WipeMethod::Gutmann
        } else {
            WipeMethod::Dod3Pass
        }
    }

    /// Gutmann's 35 passes: 4 random, 27 fixed patterns, 4 random.
    pub fn gutmann_passes() -> (r: Vec<WipePass>)
        ensures
            r@ == gutmann_spec(),
    {
        let mut passes: Vec<WipePass> = Vec::new();
        let mut i: usize = 0;
        while i < 4
            invariant
                i <= 4,
                passes@ == gutmann_spec().subrange(0, i as int),
            decreases 4 - i,
        {
            passes.push(WipePass::Random);
            i = i + 1;
            assert(passes@ =~= gutmann_spec().subrange(0, i as int));
        }
        let patterns: [u8; 27] = [
            0x55, 0xAA, 0x92, 0x49, 0x24, 0x00, 0x11, 0x22,
            0x33, 0x44, 0x55, 0x66, 0x77, 0x88, 0x99, 0xAA,
            0xBB, 0xCC, 0xDD, 0xEE, 0xFF, 0x92, 0x49, 0x24,
            0x6D, 0xB6, 0xDB,
        ];
        assert(patterns@ =~= gutmann_patterns());
        let mut k: usize = 0;
        while k < 27
            invariant
                k <= 27,
                patterns@ == gutmann_patterns(),
                passes@ == gutmann_spec().subrange(0, 4 + k),
            decreases 27 - k,
        {
            passes.push(WipePass::Pattern(patterns[k]));
            k = k + 1;
            assert(passes@ =~= gutmann_spec().subrange(0, 4 + k));
        }
        let mut j: usize = 0;
        while j < 4
            invariant
                j <= 4,
                passes@ == gutmann_spec().subrange(0, 31 + j),
            decreases 4 - j,
        {
            passes.push(WipePass::Random);
            j = j + 1;
            assert(passes@ =~= gutmann_spec().subrange(0, 31 + j));
        }
        assert(passes@ =~= gutmann_spec());
        passes
    }

    /// The passes of a wipe method.
    pub fn passes_for(method: WipeMethod) -> (r: Vec<WipePass>)
        ensures
            r@ == passes_spec(method),
    {
        match method {
            WipeMethod::Zero => {
                let v = vec![WipePass::Zero];
                assert(v@ =~= passes_spec(method));
                v
            },
            WipeMethod::Random => {
                let v = vec![WipePass::Random];
                assert(v@ =~= passes_spec(method));
                v
            },
            WipeMethod::Dod3Pass => {
                let v = vec![WipePass::Pattern(0x00), WipePass::Pattern(0xFF), WipePass::Random];
                assert(v@ =~= passes_spec(method));
                v
            },
            WipeMethod::Gutmann => Self::gutmann_passes(),
        }
    }
}

/// The lengths of the chunks a pass over `size` bytes is written in.
pub fn chunk_sizes(size: usize) -> (r: Vec<usize>)
    ensures
        r@.map_values(|c: usize| c as nat) == chunks_spec(size as nat),
{
    let mut r: Vec<usize> = Vec::new();
    if size == 0 {
        assert(r@.map_values(|c: usize| c as nat) =~= chunks_spec(size as nat));
        return r;
    }
    let buffer = if size < CHUNK_SIZE { size } else { CHUNK_SIZE };
    let full = size / buffer;
    let rest = size % buffer;
    let ghost c = buffer as nat;
    let mut k: usize = 0;
    while k < full
        invariant
            k <= full,
            r@.len() == k,
            forall|i: int| 0 <= i < k ==> r@[i] == buffer,
        decreases full - k,
    {
        r.push(buffer);
        k = k + 1;
    }
    if rest > 0 {
        r.push(rest);
    }
    let ghost spec_chunks = chunks_spec(size as nat);
    assert(c == buffer as nat);
    assert(spec_chunks.len() == r@.len());
    assert forall|i: int| 0 <= i < r@.len() implies r@.map_values(|x: usize| x as nat)[i] == spec_chunks[i] by {
        if i < full {
            assert(r@[i] == buffer);
        }
    }
    assert(r@.map_values(|x: usize| x as nat) =~= chunks_spec(size as nat));
    r
}

impl WipePass {
    /// The bytes of one chunk of this pass: zeros, the pattern byte, or random bytes.
    pub fn fill(&self, len: usize) -> (r: Vec<u8>)
        ensures
            r@.len() == len,
            *self == WipePass::Zero ==> forall|i: int| 0 <= i < len ==> r@[i] == 0,
            forall|b: u8| *self == WipePass::Pattern(b) ==> forall|i: int| 0 <= i < len ==> r@[i] == b,
    {
        match self {
            WipePass::Zero => vec![0u8; len],
            WipePass::Pattern(b) => vec![*b; len],
            WipePass::Random => random_bytes(len),
        }
    }
}

/// Every configured path lands in exactly one list of the report.
pub proof fn lemma_report_accounts_for_every_path(paths: Seq<String>, outcomes: Seq<PathOutcome>)
    requires
        paths.len() == outcomes.len(),
    ensures
        paths_with(paths, outcomes, 0).len() + paths_with(paths, outcomes, 1).len() + failures(paths, outcomes).len()
            == paths.len(),
    decreases paths.len(),
{
    if paths.len() > 0 {
        lemma_report_accounts_for_every_path(paths.drop_last(), outcomes.drop_last());
    }
}

/// Lines of a listing: each item between a prefix and a suffix, one per line.
pub open spec fn listing(prefix: Seq<char>, items: Seq<Seq<char>>, suffix: Seq<char>) -> Seq<char>
    decreases items.len(),
{
    if items.len() == 0 {
        Seq::empty()
    } else {
        listing(prefix, items.drop_last(), suffix) + prefix + items.last() + suffix + "\n"@
    }
}

/// Lines of the failures: `  [OOPS] path: error`, one per line.
pub open spec fn failure_listing(items: Seq<(Seq<char>, Seq<char>)>) -> Seq<char>
    decreases items.len(),
{
    if items.len() == 0 {
        Seq::empty()
    } else {
        failure_listing(items.drop_last()) + "  [OOPS] "@ + items.last().0 + ": "@ + items.last().1 + "\n"@
    }
}

/// A section of the report: nothing when empty, else a blank line, the heading with the
/// count, and the lines.
pub open spec fn report_section(heading: Seq<char>, count: nat, lines: Seq<char>) -> Seq<char> {
    if count == 0 {
        Seq::empty()
    } else {
        "\n"@ + heading + " ("@ + decimal(count as int) + "):\n"@ + lines
    }
}

/// The text of a scuttle report: the method, then the deleted, skipped and failed paths.
pub open spec fn scuttle_report_text(
    method: Seq<char>,
    deleted: Seq<Seq<char>>,
    skipped: Seq<Seq<char>>,
    failed: Seq<(Seq<char>, Seq<char>)>,
) -> Seq<char> {
    "Scuttle Report (method: "@ + method + ")\n=================================\n"@
        + report_section("Deleted"@, deleted.len(), listing("  [GONE] "@, deleted, ""@))
        + report_section("Skipped"@, skipped.len(), listing("  [MISSING] "@, skipped, " (wasn't there anyway)"@))
        + report_section("Failed"@, failed.len(), failure_listing(failed))
}

/// Appends the listing of `items` to `out`.
fn append_listing(out: &mut String, prefix: &str, items: &[String], suffix: &str)
    ensures
        final(out)@ == old(out)@ + listing(prefix@, texts(items@), suffix@),
{
    let ghost start = out@;
    let n = items.len();
    let mut i: usize = 0;
    while i < n
        invariant
            n == items@.len(),
            i <= n,
            out@ == start + listing(prefix@, texts(items@.subrange(0, i as int)), suffix@),
        decreases n - i,
    {
        proof {
            let s = texts(items@.subrange(0, i + 1));
            assert(s.drop_last() =~= texts(items@.subrange(0, i as int)));
            assert(s.last() == items@[i as int]@);
        }
        out.append(prefix);
        out.append(items[i].as_str());
        out.append(suffix);
        out.append("\n");
        i = i + 1;
    }
    assert(items@.subrange(0, n as int) =~= items@);
}

/// Appends the failure lines of `items` to `out`.
fn append_failures(out: &mut String, items: &[(String, String)])
    ensures
        final(out)@ == old(out)@ + failure_listing(pair_texts(items@)),
{
    let ghost start = out@;
    let n = items.len();
    let mut i: usize = 0;
    while i < n
        invariant
            n == items@.len(),
            i <= n,
            out@ == start + failure_listing(pair_texts(items@.subrange(0, i as int))),
        decreases n - i,
    {
        proof {
            let s = pair_texts(items@.subrange(0, i + 1));
            assert(s.drop_last() =~= pair_texts(items@.subrange(0, i as int)));
            assert(s.last() == (items@[i as int].0@, items@[i as int].1@));
        }
        out.append("  [OOPS] ");
        out.append(items[i].0.as_str());
        out.append(": ");
        out.append(items[i].1.as_str());
        out.append("\n");
        i = i + 1;
    }
    assert(items@.subrange(0, n as int) =~= items@);
}

/// The section of a listing: empty when there are no items.
fn listing_section(heading: &str, prefix: &str, items: &[String], suffix: &str) -> (r: String)
    ensures
        r@ == report_section(heading@, items@.len(), listing(prefix@, texts(items@), suffix@)),
{
    let mut out = String::new();
    if items.len() > 0 {
        heading_line(&mut out, heading, items.len());
        append_listing(&mut out, prefix, items, suffix);
    }
    out
}

/// The section of the failures: empty when there are none.
fn failure_section(items: &[(String, String)]) -> (r: String)
    ensures
        r@ == report_section("Failed"@, items@.len(), failure_listing(pair_texts(items@))),
{
    let mut out = String::new();
    if items.len() > 0 {
        heading_line(&mut out, "Failed", items.len());
        append_failures(&mut out, items);
    }
    out
}

/// Appends a section heading with its count: a blank line, then `heading (count):`.
fn heading_line(out: &mut String, heading: &str, count: usize)
    ensures
        final(out)@ == old(out)@ + ("\n"@ + heading@ + " ("@ + decimal(count as int) + "):\n"@),
{
    let ghost start = out@;
    out.append("\n");
    out.append(heading);
    out.append(" (");
    let number = decimal_u64(count as u64);
    out.append(number.as_str());
    out.append("):\n");
    assert(out@ =~= start + ("\n"@ + heading@ + " ("@ + decimal(count as int) + "):\n"@));
}

impl ScuttleReport {
    /// The report as text: the method, then the deleted, skipped and failed paths, each
    /// section only when it has entries.
    pub fn render(&self) -> (r: String)
        ensures
            r@ == scuttle_report_text(self.method@, texts(self.deleted@), texts(self.skipped@), pair_texts(self.failed@)),
    {
        let deleted = listing_section("Deleted", "  [GONE] ", self.deleted.as_slice(), "");
        let skipped = listing_section("Skipped", "  [MISSING] ", self.skipped.as_slice(), " (wasn't there anyway)");
        let failed = failure_section(self.failed.as_slice());
        let mut out = String::from_str("Scuttle Report (method: ");
        out.append(self.method.as_str());
        out.append(")\n=================================\n");
        out.append(deleted.as_str());
        out.append(skipped.as_str());
        out.append(failed.as_str());
        out
    }
}

/// Each documented method name, in any case, gives that method's passes: "zero" one pass
/// of zeros, "random" one random pass, "dod" and "dod3" the three DoD passes (zeros, ones,
/// random), "gutmann" thirty-five passes; any other name falls back to the three DoD passes.
pub proof fn lemma_method_names_give_their_passes(name: Seq<char>)
    ensures
        lowered(name) == "zero"@ ==> passes_spec(method_named(name)) == seq![WipePass::Zero],
        lowered(name) == "random"@ ==> passes_spec(method_named(name)) == seq![WipePass::Random],
        lowered(name) == "dod"@ || lowered(name) == "dod3"@ ==> passes_spec(method_named(name)) == seq![
            WipePass::Pattern(0x00),
            WipePass::Pattern(0xFF),
            WipePass::Random,
        ],
        lowered(name) == "gutmann"@ ==> passes_spec(method_named(name)).len() == 35,
        !(lowered(name) == "zero"@ || lowered(name) == "random"@ || lowered(name) == "dod"@ || lowered(name) == "dod3"@
            || lowered(name) == "gutmann"@) ==> passes_spec(method_named(name)).len() == 3,
{
    reveal_strlit("zero");
    reveal_strlit("random");
    reveal_strlit("dod");
    reveal_strlit("dod3");
    reveal_strlit("gutmann");
    assert("random"@ != "zero"@) by {
        assert("random"@.len() != "zero"@.len());
    }
    assert("dod"@ != "zero"@) by {
        assert("dod"@.len() != "zero"@.len());
    }
    assert("dod"@ != "random"@) by {
        assert("dod"@.len() != "random"@.len());
    }
    assert("dod3"@ != "zero"@) by {
        assert("dod3"@[0] != "zero"@[0]);
    }
    assert("dod3"@ != "random"@) by {
        assert("dod3"@.len() != "random"@.len());
    }
    assert("gutmann"@ != "zero"@ && "gutmann"@ != "random"@ && "gutmann"@ != "dod"@ && "gutmann"@ != "dod3"@) by {
        assert("gutmann"@.len() == 7);
    }
    assert(gutmann_spec().len() == 35);
}

} // verus!
