//! Which report to print, and the one-line report.
use vstd::prelude::*;
use crate::ecosystems::PackageMetadata;
use crate::json::texts;
use crate::scoring::{CategoryScore, HealthScore, Verdict, verdict_of};
use crate::text::{decimal, decimal_string, joined, owned, same_text};

verus! {

/// The forms a report can take.
#[derive(PartialEq, Eq, Structural, Clone, Copy, Debug)]
pub enum OutputMode {
    /// One line: name, version, score and verdict.
    Quiet,
    Json,
    Markdown,
    /// Coloured text for a terminal.
    Terminal,
}

/// The report form for a `--format` value and a `--quiet` flag: quiet wins;
/// "json" and "markdown" name their forms, and anything else is the terminal.
pub open spec fn output_mode_of(format: Seq<char>, quiet: bool) -> OutputMode {
    if quiet {
        OutputMode::Quiet
    } else if format == "json"@ {
        OutputMode::Json
    } else if format == "markdown"@ {
        OutputMode::Markdown
    } else {
        OutputMode::Terminal
    }
}

/// The word of a verdict.
pub open spec fn verdict_word(v: Verdict) -> Seq<char> {
    match v {
        Verdict::Healthy => "Healthy"@,
        Verdict::Caution => "Caution"@,
        Verdict::Risky => "Risky"@,
    }
}

/// The one-line report: "NAME VERSION - TOTAL/100 (VERDICT)".
pub open spec fn quiet_line_of(name: Seq<char>, version: Seq<char>, total: u8) -> Seq<char> {
    name + " "@ + version + " - "@ + decimal(total as nat) + "/100 ("@ + verdict_word(
        verdict_of(total as int),
    ) + ")"@
}

/// The report form for a `--format` value and a `--quiet` flag.
pub fn output_mode(format: &str, quiet: bool) -> (r: OutputMode)
    ensures
        r == output_mode_of(format@, quiet),
{
    if quiet {
        OutputMode::Quiet
    } else if same_text(format, "json") {
        OutputMode::Json
    } else if same_text(format, "markdown") {
        OutputMode::Markdown
    } else {
        OutputMode::Terminal
    }
}

/// The one-line report of a package's health.
pub fn quiet_line(metadata: &PackageMetadata, score: &HealthScore) -> (r: String)
    ensures
        r@ == quiet_line_of(metadata.name@, metadata.version@, score.total),
{
    let verdict = Verdict::from_total(score.total);
    let mut r = joined(metadata.name.as_str(), " ");
    r.append(metadata.version.as_str());
    r.append(" - ");
    let total = decimal_string(score.total as u64);
    r.append(total.as_str());
    r.append("/100 (");
    r.append(verdict.label());
    r.append(")");
    r
}

/// One row of the markdown table: "| LABEL | SCORE | DETAILS |".
pub open spec fn markdown_row(label: Seq<char>, c: CategoryScore) -> Seq<char> {
    "| "@ + label + " | "@ + decimal(c.score as nat) + " | "@ + c.details@ + " |"@
}

/// The lines of the markdown report: a heading "## NAME@VERSION", the
/// health score, an empty line, and a table with one row per category.
pub open spec fn markdown_lines_of(metadata: PackageMetadata, score: HealthScore) -> Seq<
    Seq<char>,
> {
    seq![
        "## "@ + metadata.name@ + "@"@ + metadata.version@,
        "**Health Score:** "@ + decimal(score.total as nat) + "/100"@,
        ""@,
        "| Category | Score | Details |"@,
        "|---|---|---|"@,
        markdown_row("Maintenance"@, score.maintenance),
        markdown_row("Bus Factor"@, score.bus_factor),
        markdown_row("Community"@, score.community),
        markdown_row("Adoption"@, score.adoption),
        markdown_row("License"@, score.license),
        markdown_row("Dependencies"@, score.dependencies),
    ]
}

fn markdown_row_text(label: &str, c: &CategoryScore) -> (r: String)
    ensures
        r@ == markdown_row(label@, *c),
{
    let mut r = joined("| ", label);
    r.append(" | ");
    let n = decimal_string(c.score as u64);
    r.append(n.as_str());
    r.append(" | ");
    r.append(c.details.as_str());
    r.append(" |");
    r
}

/// The markdown report, line by line.
pub fn markdown_report(metadata: &PackageMetadata, score: &HealthScore) -> (r: Vec<String>)
    ensures
        texts(r@) == markdown_lines_of(*metadata, *score),
{
    let mut heading = joined("## ", metadata.name.as_str());
    heading.append("@");
    heading.append(metadata.version.as_str());
    let mut total = owned("**Health Score:** ");
    let t = decimal_string(score.total as u64);
    total.append(t.as_str());
    total.append("/100");
    let r = vec![
        heading,
        total,
        owned(""),
        owned("| Category | Score | Details |"),
        owned("|---|---|---|"),
        markdown_row_text("Maintenance", &score.maintenance),
        markdown_row_text("Bus Factor", &score.bus_factor),
        markdown_row_text("Community", &score.community),
        markdown_row_text("Adoption", &score.adoption),
        markdown_row_text("License", &score.license),
        markdown_row_text("Dependencies", &score.dependencies),
    ];
    assert(texts(r@) =~= markdown_lines_of(*metadata, *score));
    r
}

} // verus!
