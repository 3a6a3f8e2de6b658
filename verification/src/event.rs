//! The build events that cargo prints, one JSON object on each line.

use crate::text::{str_eq, views};
use cargo_metadata::Message;
use vstd::prelude::*;

verus! {

/// An artifact that the compiler produced.
#[derive(Debug)]
pub struct Artifact {
    /// The name of the target that was built.
    pub name: String,
    /// The path of the executable, where the artifact is one.
    pub executable: Option<String>,
    /// The kinds of the target, such as "bin", "lib", "bench" or "example".
    pub kind: Vec<String>,
}

/// An `Artifact` as plain values.
pub struct ArtifactModel {
    pub name: Seq<char>,
    pub executable: Option<Seq<char>>,
    pub kind: Seq<Seq<char>>,
}

impl View for Artifact {
    type V = ArtifactModel;

    open spec fn view(&self) -> ArtifactModel {
        ArtifactModel {
            name: self.name@,
            executable: match self.executable {
                Some(path) => Some(path@),
                None => None,
            },
            kind: views(self.kind@),
        }
    }
}

/// A message that the compiler wants shown.
#[derive(Debug)]
pub struct Diagnostic {
    /// The message in plain words.
    pub message: String,
    /// The message as the compiler would print it, where cargo rendered it.
    pub rendered: Option<String>,
}

/// A `Diagnostic` as plain values.
pub struct DiagnosticModel {
    pub message: Seq<char>,
    pub rendered: Option<Seq<char>>,
}

impl View for Diagnostic {
    type V = DiagnosticModel;

    open spec fn view(&self) -> DiagnosticModel {
        DiagnosticModel {
            message: self.message@,
            rendered: match self.rendered {
                Some(text) => Some(text@),
                None => None,
            },
        }
    }
}

/// What a line of cargo's output was read as. Only the first two variants
/// mean something to this tool; the others are passed on as they came.
#[derive(Debug)]
pub enum BuildEvent {
    /// The compiler produced an artifact.
    CompilerArtifact(Artifact),
    /// The build is over; the flag says whether it succeeded.
    BuildFinished(bool),
    /// The compiler wants a message shown.
    CompilerMessage(Diagnostic),
    /// Any other message of cargo.
    Other,
    /// A line that is no message of cargo, with its text.
    TextLine(String),
}

/// A `BuildEvent` as plain values.
pub enum EventModel {
    CompilerArtifact(ArtifactModel),
    BuildFinished(bool),
    CompilerMessage(DiagnosticModel),
    Other,
    TextLine(Seq<char>),
}

impl View for BuildEvent {
    type V = EventModel;

    open spec fn view(&self) -> EventModel {
        match self {
            BuildEvent::CompilerArtifact(artifact) => EventModel::CompilerArtifact(artifact@),
            BuildEvent::BuildFinished(success) => EventModel::BuildFinished(*success),
            BuildEvent::CompilerMessage(diagnostic) => EventModel::CompilerMessage(diagnostic@),
            BuildEvent::Other => EventModel::Other,
            BuildEvent::TextLine(text) => EventModel::TextLine(text@),
        }
    }
}

/// The model of an event that may be absent.
pub open spec fn event_model(event: Option<BuildEvent>) -> Option<EventModel> {
    match event {
        Some(e) => Some(e@),
        None => None,
    }
}

/// How far a scan of a line has come: whether it stands inside a JSON string,
/// whether the character before was a backslash inside one, how many arrays
/// and objects are open, and the most that were open at once.
pub struct Scan {
    pub in_string: bool,
    pub escaped: bool,
    pub depth: nat,
    pub deepest: nat,
}

/// The scan after one more character. Inside a string only an unescaped quote
/// ends it; outside, a quote starts one, an opening bracket or brace goes one
/// level down and a closing one comes back up.
pub open spec fn scan_step(scan: Scan, c: char) -> Scan {
    if scan.in_string {
        if scan.escaped {
            Scan { escaped: false, ..scan }
        } else if c == '\\' {
            Scan { escaped: true, ..scan }
        } else if c == '"' {
            Scan { in_string: false, ..scan }
        } else {
            scan
        }
    } else if c == '"' {
        Scan { in_string: true, ..scan }
    } else if c == '[' || c == '{' {
        Scan {
            depth: scan.depth + 1,
            deepest: if scan.depth + 1 > scan.deepest {
                scan.depth + 1
            } else {
                scan.deepest
            },
            ..scan
        }
    } else if c == ']' || c == '}' {
        Scan {
            depth: if scan.depth > 0 {
                (scan.depth - 1) as nat
            } else {
                0
            },
            ..scan
        }
    } else {
        scan
    }
}

/// The scan of the first `n` characters of a line.
pub open spec fn scan_prefix(line: Seq<char>, n: int) -> Scan
    decreases n,
{
    if n <= 0 {
        Scan { in_string: false, escaped: false, depth: 0, deepest: 0 }
    } else {
        scan_step(scan_prefix(line, n - 1), line[n - 1])
    }
}

/// The deepest nesting of arrays and objects that a line reaches, brackets
/// inside strings not counted.
pub open spec fn nesting_depth(line: Seq<char>) -> nat {
    scan_prefix(line, line.len() as int).deepest
}

/// The deepest nesting that is decoded. It is the depth up to which the JSON
/// reader works within its own limit on recursion.
pub const MAX_NESTING: usize = 127;

/// The deepest level of a scan never falls as the scan goes on.
pub proof fn lemma_deepest_grows(line: Seq<char>, n: int, m: int)
    requires
        0 <= n <= m,
    ensures
        scan_prefix(line, n).deepest <= scan_prefix(line, m).deepest,
        scan_prefix(line, m).depth <= scan_prefix(line, m).deepest,
    decreases m,
{
    if m > 0 {
        lemma_deepest_grows(line, 0, m - 1);
        if n < m {
            lemma_deepest_grows(line, n, m - 1);
        }
    }
}

/// Whether a line nests its arrays and objects no deeper than `MAX_NESTING`.
pub fn within_nesting_limit(line: &str) -> (within: bool)
    ensures
        within == (nesting_depth(line@) <= MAX_NESTING),
{
    let mut in_string = false;
    let mut escaped = false;
    let mut depth: usize = 0;
    let mut deepest: usize = 0;
    for c in it: line.chars()
        invariant
            it.seq() == line@,
            deepest <= MAX_NESTING,
            scan_prefix(line@, it.index() as int) == (Scan {
                in_string,
                escaped,
                depth: depth as nat,
                deepest: deepest as nat,
            }),
    {
        proof {
            lemma_deepest_grows(line@, it.index() as int, it.index() as int);
            lemma_deepest_grows(line@, it.index() + 1, line@.len() as int);
        }
        if in_string {
            if escaped {
                escaped = false;
            } else if c == '\\' {
                escaped = true;
            } else if c == '"' {
                in_string = false;
            }
        } else if c == '"' {
            in_string = true;
        } else if c == '[' || c == '{' {
            depth += 1;
            if depth > deepest {
                if depth > MAX_NESTING {
                    return false;
                }
                deepest = depth;
            }
        } else if c == ']' || c == '}' {
            if depth > 0 {
                depth -= 1;
            }
        }
    }
    true
}

/// What `cargo_metadata` reads from a line, absent where it reads nothing.
pub uninterp spec fn decoded_message(line: Seq<char>) -> Option<EventModel>;

/// Hands a line to `Message::parse_stream` of `cargo_metadata` and takes the
/// first message that comes out, if any. The contract gives that message a
/// name and says no more of it: it depends on the line alone. Of an artifact
/// the name and the kinds of its target and the path of its executable are
/// kept; of a compiler message its two texts; a line of plain text keeps its
/// text. The reader recurses without a limit of its own, so the line's
/// nesting is bounded here.
#[verifier::external_body]
fn decode_message(line: &str) -> (event: Option<BuildEvent>)
    requires
        nesting_depth(line@) <= MAX_NESTING,
    ensures
        event_model(event) == decoded_message(line@),
{
    let message = Message::parse_stream(line.as_bytes()).next()?.ok()?;
    Some(match message {
        Message::CompilerArtifact(artifact) => BuildEvent::CompilerArtifact(Artifact {
            name: artifact.target.name,
            executable: artifact.executable.map(|path| path.into_string()),
            kind: artifact.target.kind,
        }),
        Message::BuildFinished(finished) => BuildEvent::BuildFinished(finished.success),
        Message::CompilerMessage(shown) => BuildEvent::CompilerMessage(Diagnostic {
            message: shown.message.message,
            rendered: shown.message.rendered,
        }),
        Message::TextLine(text) => BuildEvent::TextLine(text),
        _ => BuildEvent::Other,
    })
}

/// What a line of cargo's output is read as. A text that holds a line feed is
/// not one line, and a line that nests deeper than `MAX_NESTING` is too deep:
/// neither is read at all.
pub open spec fn line_event(line: Seq<char>) -> Option<EventModel> {
    if !line.contains('\n') && nesting_depth(line) <= MAX_NESTING {
        decoded_message(line)
    } else {
        None
    }
}

/// Whether a text holds a line feed.
pub fn holds_line_feed(text: &str) -> (found: bool)
    ensures
        found == text@.contains('\n'),
{
    for c in it: text.chars()
        invariant
            it.seq() == text@,
            forall|k: int| 0 <= k < it.index() ==> text@[k] != '\n',
    {
        if c == '\n' {
            assert(text@[it.index() as int] == '\n');
            return true;
        }
    }
    false
}

/// Whether what a line was read as is a build event: something was read, and
/// it is not plain text.
pub open spec fn is_build_event(decoded: Option<EventModel>) -> bool {
    match decoded {
        None => false,
        Some(EventModel::TextLine(_)) => false,
        Some(_) => true,
    }
}

/// Reads one line of cargo's output, given without its line feed.
pub fn decode_line(line: &str) -> (event: Option<BuildEvent>)
    ensures
        event_model(event) == line_event(line@),
{
    if !holds_line_feed(line) && within_nesting_limit(line) {
        decode_message(line)
    } else {
        None
    }
}

/// The kind of target that marks an executable program.
pub open spec fn bin_kind() -> Seq<char> {
    "bin"@
}

/// The kind of target that marks a benchmark.
pub open spec fn bench_kind() -> Seq<char> {
    "bench"@
}

/// The kind of target that marks an example.
pub open spec fn example_kind() -> Seq<char> {
    "example"@
}

/// The label under which an artifact is reported. Of the kinds that a target
/// carries, "bin" counts before "bench" and "bench" before "example"; a target
/// with none of the three is a plain artifact.
pub open spec fn artifact_label(kind: Seq<Seq<char>>) -> Seq<char> {
    if kind.contains(bin_kind()) {
        "binary"@
    } else if kind.contains(bench_kind()) {
        "benchmark"@
    } else if kind.contains(example_kind()) {
        "example"@
    } else {
        "artifact"@
    }
}

/// The label under which an artifact is reported.
pub fn get_artifact_kind(artifact: &Artifact) -> (label: &'static str)
    ensures
        label@ == artifact_label(artifact@.kind),
{
    let mut has_bin = false;
    let mut has_bench = false;
    let mut has_example = false;
    let ghost kinds = views(artifact.kind@);
    let mut i: usize = 0;
    while i < artifact.kind.len()
        invariant
            i <= artifact.kind.len(),
            kinds == views(artifact.kind@),
            has_bin == kinds.take(i as int).contains(bin_kind()),
            has_bench == kinds.take(i as int).contains(bench_kind()),
            has_example == kinds.take(i as int).contains(example_kind()),
        decreases artifact.kind.len() - i,
    {
        let kind = artifact.kind[i].as_str();
        proof {
            lemma_take_contains(kinds, i as int, bin_kind());
            lemma_take_contains(kinds, i as int, bench_kind());
            lemma_take_contains(kinds, i as int, example_kind());
        }
        if str_eq(kind, "bin") {
            has_bin = true;
        }
        if str_eq(kind, "bench") {
            has_bench = true;
        }
        if str_eq(kind, "example") {
            has_example = true;
        }
        i += 1;
    }
    assert(kinds.take(kinds.len() as int) =~= kinds);
    if has_bin {
        "binary"
    } else if has_bench {
        "benchmark"
    } else if has_example {
        "example"
    } else {
        "artifact"
    }
}

/// One more element is among the first `n + 1` where it is among the first `n`
/// or is the element at `n`.
proof fn lemma_take_contains(s: Seq<Seq<char>>, n: int, x: Seq<char>)
    requires
        0 <= n < s.len(),
    ensures
        s.take(n + 1).contains(x) == (s.take(n).contains(x) || s[n] == x),
{
    let shorter = s.take(n);
    let longer = s.take(n + 1);
    if shorter.contains(x) {
        let k = choose|k: int| 0 <= k < shorter.len() && shorter[k] == x;
        assert(longer[k] == x);
    }
    if s[n] == x {
        assert(longer[n] == x);
    }
    if longer.contains(x) {
        let k = choose|k: int| 0 <= k < longer.len() && longer[k] == x;
        if k < n {
            assert(shorter[k] == x);
        }
    }
}

} // verus!
