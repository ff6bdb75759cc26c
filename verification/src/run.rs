//! The decisions of a run: which output file belongs to a source file, what
//! is written and what is removed in a pass over the source root, and what
//! follows from an event while the source root is watched.
//!
//! Reading, describing, writing and removing are the caller's part.

use vstd::prelude::*;
use crate::text::{chars_of, texts};
use crate::config::{ResolvedTarget, RuntimeConfig, Target};
use crate::opt::Command;
use crate::ts::{module_text, ts_calls_to_string, ConfigError, TSCall};

verus! {

/// A path with each separator replaced by an underscore.
pub open spec fn flattened(relative: Seq<char>, separator: char) -> Seq<char> {
    relative.map_values(
        |c: char|
            if c == separator {
                '_'
            } else {
                c
            },
    )
}

/// The name of the output file of the source file at `relative` below the
/// source root.
pub open spec fn output_name(relative: Seq<char>, separator: char) -> Seq<char> {
    flattened(relative, separator) + ".d.ts"@
}

/// The name of the output file of a source file: its path below the source
/// root with each separator replaced by an underscore, and `.d.ts` behind.
pub fn output_file_name(relative: &str, separator: char) -> (filename: String)
    ensures
        filename@ == output_name(relative@, separator),
{
    let chars = chars_of(relative);
    let mut filename = String::new();
    let mut i: usize = 0;
    while i < chars.len()
        invariant
            i <= chars.len(),
            chars@ == relative@,
            filename@ == flattened(relative@.take(i as int), separator),
        decreases chars.len() - i,
    {
        let c = chars[i];
        if c == separator {
            filename.push('_');
        } else {
            filename.push(c);
        }
        assert(filename@ =~= flattened(relative@.take(i + 1), separator));
        i += 1;
    }
    assert(relative@.take(i as int) =~= relative@);
    filename.append(".d.ts");
    filename
}

/// Two source files have the same output file exactly where their paths
/// are the same once each separator is an underscore.
pub proof fn lemma_output_names_follow_paths(first: Seq<char>, second: Seq<char>, separator: char)
    ensures
        output_name(first, separator) == output_name(second, separator) <==> flattened(
            first,
            separator,
        ) == flattened(second, separator),
{
    let suffix = ".d.ts"@;
    let a = flattened(first, separator);
    let b = flattened(second, separator);
    if a + suffix == b + suffix {
        assert((a + suffix).len() == (b + suffix).len());
        assert forall|i: int| 0 <= i < a.len() implies a[i] == b[i] by {
            assert((a + suffix)[i] == a[i]);
            assert((b + suffix)[i] == b[i]);
        }
        assert(a =~= b);
    }
}

/// Two source files whose paths hold no underscore have different output
/// files.
pub proof fn lemma_output_names_differ(first: Seq<char>, second: Seq<char>, separator: char)
    requires
        !first.contains('_'),
        !second.contains('_'),
        output_name(first, separator) == output_name(second, separator),
    ensures
        first == second,
{
    let suffix = ".d.ts"@;
    let a = flattened(first, separator);
    let b = flattened(second, separator);
    assert((a + suffix).len() == (b + suffix).len());
    assert(a.len() == first.len());
    assert(b.len() == second.len());
    assert forall|i: int| 0 <= i < first.len() implies first[i] == second[i] by {
        assert((a + suffix)[i] == a[i]);
        assert((b + suffix)[i] == b[i]);
        assert(first.contains(first[i]));
        assert(second.contains(second[i]));
    }
    assert(first =~= second);
}

/// Whether `name` ends in `suffix`.
pub open spec fn ends_with(name: Seq<char>, suffix: Seq<char>) -> bool {
    name.len() >= suffix.len() && name.subrange(name.len() - suffix.len(), name.len() as int)
        == suffix
}

/// The output files among the first `n` entries of the output root: the
/// names that end in `.d.ts`, each once, in the order of the entries.
pub open spec fn outputs_among(entries: Seq<Seq<char>>, n: nat) -> Seq<Seq<char>>
    decreases n,
{
    if n == 0 || n > entries.len() {
        Seq::empty()
    } else {
        let before = outputs_among(entries, (n - 1) as nat);
        let name = entries[n - 1];
        if ends_with(name, ".d.ts"@) && !before.contains(name) {
            before.push(name)
        } else {
            before
        }
    }
}

/// The first `n` names of `names` without `name`, in order.
pub open spec fn without(names: Seq<Seq<char>>, n: nat, name: Seq<char>) -> Seq<Seq<char>>
    decreases n,
{
    if n == 0 || n > names.len() {
        Seq::empty()
    } else {
        let before = without(names, (n - 1) as nat, name);
        if names[n - 1] == name {
            before
        } else {
            before.push(names[n - 1])
        }
    }
}

/// The output files among the entries are the entries that end in `.d.ts`.
pub proof fn lemma_outputs_among(entries: Seq<Seq<char>>, n: nat, name: Seq<char>)
    requires
        n <= entries.len(),
    ensures
        outputs_among(entries, n).contains(name) <==> ends_with(name, ".d.ts"@)
            && entries.take(n as int).contains(name),
    decreases n,
{
    if n > 0 {
        let before = outputs_among(entries, (n - 1) as nat);
        lemma_outputs_among(entries, (n - 1) as nat, name);
        let last = entries[n - 1];
        let front = entries.take(n - 1);
        let whole = entries.take(n as int);
        assert(whole =~= front.push(last));
        if ends_with(last, ".d.ts"@) && !before.contains(last) {
            assert(before.push(last)[before.len() as int] == last);
            if before.push(last).contains(name) && name != last {
                let grown = before.push(last);
                let i = choose|i: int| 0 <= i < grown.len() && grown[i] == name;
                assert(before[i] == name);
            }
            if before.contains(name) {
                let i = choose|i: int| 0 <= i < before.len() && before[i] == name;
                assert(before.push(last)[i] == name);
            }
        }
        if whole.contains(name) && name != last {
            let i = choose|i: int| 0 <= i < whole.len() && whole[i] == name;
            assert(front[i] == name);
        }
        if front.contains(name) {
            let i = choose|i: int| 0 <= i < front.len() && front[i] == name;
            assert(whole[i] == name);
        }
        assert(whole[n - 1] == last);
    } else {
        assert(entries.take(0) =~= Seq::<Seq<char>>::empty());
    }
}

/// What is left of the names without `name` is every other name.
pub proof fn lemma_without(names: Seq<Seq<char>>, n: nat, name: Seq<char>, other: Seq<char>)
    requires
        n <= names.len(),
    ensures
        without(names, n, name).contains(other) <==> other != name && names.take(n as int).contains(
            other,
        ),
    decreases n,
{
    if n > 0 {
        let before = without(names, (n - 1) as nat, name);
        lemma_without(names, (n - 1) as nat, name, other);
        let last = names[n - 1];
        let front = names.take(n - 1);
        let whole = names.take(n as int);
        assert(whole =~= front.push(last));
        if last != name {
            assert(before.push(last)[before.len() as int] == last);
            if before.push(last).contains(other) && other != last {
                let grown = before.push(last);
                let i = choose|i: int| 0 <= i < grown.len() && grown[i] == other;
                assert(before[i] == other);
            }
            if before.contains(other) {
                let i = choose|i: int| 0 <= i < before.len() && before[i] == other;
                assert(before.push(last)[i] == other);
            }
        }
        if whole.contains(other) && other != last {
            let i = choose|i: int| 0 <= i < whole.len() && whole[i] == other;
            assert(front[i] == other);
        }
        if front.contains(other) {
            let i = choose|i: int| 0 <= i < front.len() && front[i] == other;
            assert(whole[i] == other);
        }
        assert(whole[n - 1] == last);
    } else {
        assert(names.take(0) =~= Seq::<Seq<char>>::empty());
    }
}

/// After one source file has claimed its output file, the unclaimed output
/// files are the entries of the output root that end in `.d.ts`, but for the
/// claimed one.
pub proof fn lemma_unclaimed_outputs(entries: Seq<Seq<char>>, claimed: Seq<char>, name: Seq<char>)
    ensures
        ({
            let before = outputs_among(entries, entries.len());
            without(before, before.len(), claimed).contains(name) <==> name != claimed && ends_with(
                name,
                ".d.ts"@,
            ) && entries.contains(name)
        }),
{
    let before = outputs_among(entries, entries.len());
    lemma_outputs_among(entries, entries.len(), name);
    lemma_without(before, before.len(), claimed, name);
    assert(entries.take(entries.len() as int) =~= entries);
    assert(before.take(before.len() as int) =~= before);
}

/// No output file is among the output files of the output root twice.
pub proof fn lemma_outputs_are_distinct(entries: Seq<Seq<char>>, n: nat, i: int, j: int)
    requires
        n <= entries.len(),
        0 <= i < j < outputs_among(entries, n).len(),
    ensures
        outputs_among(entries, n)[i] != outputs_among(entries, n)[j],
    decreases n,
{
    if n > 0 {
        let before = outputs_among(entries, (n - 1) as nat);
        if j < before.len() {
            lemma_outputs_are_distinct(entries, (n - 1) as nat, i, j);
        } else {
            assert(before.contains(before[i]));
        }
    }
}

/// The output files of the output root hold no name twice.
pub proof fn lemma_outputs_have_no_duplicates(entries: Seq<Seq<char>>, n: nat)
    requires
        n <= entries.len(),
    ensures
        outputs_among(entries, n).no_duplicates(),
{
    let outputs = outputs_among(entries, n);
    assert forall|i: int, j: int|
        0 <= i < outputs.len() && 0 <= j < outputs.len() && i != j implies outputs[i]
        != outputs[j] by {
        if i < j {
            lemma_outputs_are_distinct(entries, n, i, j);
        } else {
            lemma_outputs_are_distinct(entries, n, j, i);
        }
    }
}

/// Names that hold no name twice still hold none twice without `name`.
pub proof fn lemma_without_keeps_distinct(names: Seq<Seq<char>>, n: nat, name: Seq<char>)
    requires
        names.no_duplicates(),
        n <= names.len(),
    ensures
        without(names, n, name).no_duplicates(),
    decreases n,
{
    if n > 0 {
        let before = without(names, (n - 1) as nat, name);
        lemma_without_keeps_distinct(names, (n - 1) as nat, name);
        let last = names[n - 1];
        if last != name {
            let grown = before.push(last);
            assert forall|i: int, j: int|
                0 <= i < grown.len() && 0 <= j < grown.len() && i != j implies grown[i]
                != grown[j] by {
                if i < before.len() && j < before.len() {
                } else {
                    let inner = if i < before.len() {
                        i
                    } else {
                        j
                    };
                    lemma_without(names, (n - 1) as nat, name, before[inner]);
                    assert(before.contains(before[inner]));
                    let front = names.take(n - 1);
                    let k = choose|k: int| 0 <= k < front.len() && front[k] == before[inner];
                    assert(names[k] == before[inner]);
                }
            }
        }
    }
}

/// What one file asks of the output root.
#[derive(Debug, Clone, PartialEq, Eq)]
pub enum FileAction {
    /// Nothing is written or removed.
    Skip,
    /// The output file is written anew, in full.
    Write { filename: String, text: String },
    /// The output file is removed if it is there.
    Delete { filename: String },
}

/// A pass over the source root: the output files that were there when it
/// began and that no source file has claimed yet, each once.
pub struct Pass {
    current_files: Vec<String>,
}

impl Pass {
    #[verifier::type_invariant]
    spec fn holds_no_name_twice(self) -> bool {
        texts(self.current_files@).no_duplicates()
    }
}

impl View for Pass {
    type V = Seq<Seq<char>>;

    closed spec fn view(&self) -> Seq<Seq<char>> {
        texts(self.current_files@)
    }
}

fn has_suffix(name: &Vec<char>, suffix: &Vec<char>) -> (found: bool)
    ensures
        found == ends_with(name@, suffix@),
{
    if name.len() < suffix.len() {
        return false;
    }
    let start = name.len() - suffix.len();
    let mut k: usize = 0;
    while k < suffix.len()
        invariant
            k <= suffix.len(),
            start + suffix.len() == name.len(),
            forall|j: int| 0 <= j < k ==> name@[start + j] == suffix@[j],
        decreases suffix.len() - k,
    {
        if name[start + k] != suffix[k] {
            assert(name@.subrange(start as int, name@.len() as int)[k as int] != suffix@[k as int]);
            return false;
        }
        k += 1;
    }
    assert(name@.subrange(start as int, name@.len() as int) =~= suffix@);
    true
}

fn holds(names: &Vec<String>, name: &String) -> (found: bool)
    ensures
        found == texts(names@).contains(name@),
{
    let mut i: usize = 0;
    while i < names.len()
        invariant
            i <= names.len(),
            forall|k: int| 0 <= k < i ==> texts(names@)[k] != name@,
        decreases names.len() - i,
    {
        if names[i] == *name {
            assert(texts(names@)[i as int] == name@);
            return true;
        }
        i += 1;
    }
    false
}

/// Begins a pass over the source root.
///
/// `targets` are the databases that the queries of all files of the pass
/// ask for, in order, and `existing` the names of the entries of the output
/// root. The pass begins only where every target resolves: else the call
/// gives the error of the first target that does not, and since a file can
/// claim and write its output only in a pass, nothing is written or
/// removed. The pass begins with the output files among `existing`, each
/// once, also where no file is searched; with it comes what each target
/// resolved to.
pub fn run_command(config: &RuntimeConfig, targets: &[Target], existing: &[String]) -> (begun:
    Result<(Pass, Vec<ResolvedTarget>), ConfigError>)
    ensures
        begun is Ok <==> config.all_resolvable(targets@),
        match begun {
            Ok((pass, resolved)) => {
                &&& pass@ == outputs_among(texts(existing@), existing@.len())
                &&& pass@.no_duplicates()
                &&& config.are_resolutions(resolved@, targets@)
            },
            Err(error) => config.is_first_failure(error, targets@),
        },
{
    let resolved = match config.resolve_targets(targets) {
        Ok(resolved) => resolved,
        Err(error) => {
            return Err(error);
        },
    };
    let suffix = chars_of(".d.ts");
    let mut current_files: Vec<String> = Vec::new();
    let mut i: usize = 0;
    while i < existing.len()
        invariant
            i <= existing.len(),
            suffix@ == ".d.ts"@,
            texts(current_files@) == outputs_among(texts(existing@), i as nat),
        decreases existing.len() - i,
    {
        let name = chars_of(existing[i].as_str());
        assert(texts(existing@)[i as int] == existing@[i as int]@);
        if has_suffix(&name, &suffix) && !holds(&current_files, &existing[i]) {
            let ghost before = current_files@;
            current_files.push(existing[i].clone());
            assert(texts(current_files@) =~= texts(before).push(existing@[i as int]@));
        }
        i += 1;
    }
    proof {
        lemma_outputs_have_no_duplicates(texts(existing@), existing@.len());
    }
    Ok((Pass { current_files }, resolved))
}

/// Takes in the queries of one source file during a pass.
///
/// A file without queries is passed over: its output file, if it has one,
/// stays unclaimed. A file with queries claims its output file, which is
/// written anew with one declaration for each query, in order. The
/// unclaimed output files hold no name twice, before and after.
pub fn run_for_folder(pass: &mut Pass, filename: &str, ts_calls: &[TSCall]) -> (action: FileAction)
    ensures
        ts_calls@.len() == 0 ==> action is Skip && final(pass)@ == old(pass)@,
        ts_calls@.len() > 0 ==> final(pass)@ == without(old(pass)@, old(pass)@.len(), filename@),
        ts_calls@.len() > 0 ==> (action matches FileAction::Write { filename: written, text }
            && written@ == filename@ && text@ == module_text(ts_calls@)),
        old(pass)@.no_duplicates(),
        final(pass)@.no_duplicates(),
{
    proof {
        use_type_invariant(&*pass);
    }
    if ts_calls.len() == 0 {
        return FileAction::Skip;
    }
    let claimed = filename.to_owned();
    let mut kept: Vec<String> = Vec::new();
    let mut i: usize = 0;
    while i < pass.current_files.len()
        invariant
            i <= pass.current_files.len(),
            pass.current_files == old(pass).current_files,
            claimed@ == filename@,
            texts(kept@) == without(texts(pass.current_files@), i as nat, filename@),
        decreases pass.current_files.len() - i,
    {
        assert(texts(pass.current_files@)[i as int] == pass.current_files@[i as int]@);
        if pass.current_files[i] != claimed {
            let ghost before = kept@;
            kept.push(pass.current_files[i].clone());
            assert(texts(kept@) =~= texts(before).push(pass.current_files@[i as int]@));
        }
        i += 1;
    }
    proof {
        lemma_without_keeps_distinct(
            texts(pass.current_files@),
            pass.current_files@.len(),
            filename@,
        );
    }
    pass.current_files = kept;
    FileAction::Write { filename: claimed, text: ts_calls_to_string(ts_calls) }
}

impl Pass {
    /// Ends the pass: the output files that no source file has claimed,
    /// each once, which are removed.
    pub fn finish(self) -> (orphans: Vec<String>)
        ensures
            texts(orphans@) == self@,
            texts(orphans@).no_duplicates(),
    {
        proof {
            use_type_invariant(&self);
        }
        self.current_files
    }
}

/// Takes in the queries of one source file that changed while the source
/// root is watched.
///
/// `valid` says whether the file is one that a pass would search. A file
/// that is not is passed over. A file without queries has its output file
/// removed; a file with queries has it written anew.
pub fn run_for_file(valid: bool, filename: &str, ts_calls: &[TSCall]) -> (action: FileAction)
    ensures
        !valid ==> action is Skip,
        valid && ts_calls@.len() == 0 ==> (action matches FileAction::Delete { filename: removed }
            && removed@ == filename@),
        valid && ts_calls@.len() > 0 ==> (action matches FileAction::Write {
            filename: written,
            text,
        } && written@ == filename@ && text@ == module_text(ts_calls@)),
{
    if !valid {
        return FileAction::Skip;
    }
    if ts_calls.len() == 0 {
        return FileAction::Delete { filename: filename.to_owned() };
    }
    FileAction::Write { filename: filename.to_owned(), text: ts_calls_to_string(ts_calls) }
}

/// How a file was touched, as the watcher tells it.
#[derive(Debug, Clone, Copy, PartialEq, Eq)]
pub enum AccessMode {
    Any,
    Execute,
    Read,
    Write,
    Other,
}

/// What kind of access the watcher saw.
#[derive(Debug, Clone, Copy, PartialEq, Eq)]
pub enum AccessKind {
    Any,
    Read,
    Open(AccessMode),
    Close(AccessMode),
    Other,
}

/// What kind of event the watcher saw.
#[derive(Debug, Clone, Copy, PartialEq, Eq)]
pub enum EventKind {
    Any,
    Access(AccessKind),
    Create,
    Modify,
    Remove,
    Other,
}

/// What the watcher hands over: an event with the paths it is about, or an
/// error of its own.
#[derive(Debug, Clone, PartialEq, Eq)]
pub enum Notice {
    Event { kind: EventKind, paths: Vec<String> },
    Error { message: String },
}

/// What follows from a notice of the watcher.
#[derive(Debug, Clone, PartialEq, Eq)]
pub enum WatchAction {
    /// Each of the files is run anew, in order.
    Process { paths: Vec<String> },
    /// The message is shown to the operator.
    Report { message: String },
    /// Nothing follows.
    Ignore,
}

/// Whether an event says that a file was closed after it was written.
pub open spec fn is_close_after_write(kind: EventKind) -> bool {
    kind == EventKind::Access(AccessKind::Close(AccessMode::Write))
}

/// Decides what follows from a notice of the watcher: the files of an event
/// that says they were closed after writing are run anew, an error of the
/// watcher is reported, and any other event is passed over.
pub fn watch_command(notice: Notice) -> (action: WatchAction)
    ensures
        match notice {
            Notice::Event { kind, paths } => if is_close_after_write(kind) {
                action == (WatchAction::Process { paths })
            } else {
                action == WatchAction::Ignore
            },
            Notice::Error { message } => action == (WatchAction::Report { message }),
        },
{
    match notice {
        Notice::Event { kind, paths } => match kind {
            EventKind::Access(access) => match access {
                AccessKind::Close(AccessMode::Write) => WatchAction::Process { paths },
                _ => WatchAction::Ignore,
            },
            EventKind::Any => WatchAction::Ignore,
            EventKind::Create => WatchAction::Ignore,
            EventKind::Modify => WatchAction::Ignore,
            EventKind::Remove => WatchAction::Ignore,
            EventKind::Other => WatchAction::Ignore,
        },
        Notice::Error { message } => WatchAction::Report { message },
    }
}

/// One part of what a command asks for.
#[derive(Debug, Clone, Copy, PartialEq, Eq)]
pub enum Step {
    /// One pass over the source root; a failure ends the program.
    FullPass,
    /// Runs for the files that change, until the program is interrupted; a
    /// failure of one file is reported and the watch goes on.
    Watch,
}

/// What a failure while working on one file leads to.
#[derive(Debug, Clone, Copy, PartialEq, Eq)]
pub enum Propagation {
    /// The rest of the pass is given up and the failure is handed on.
    Abort,
    /// The failure is reported, with the file it belongs to, and the next
    /// file is taken up.
    ReportAndContinue,
}

impl Step {
    /// What a failure while working on one file leads to in this step.
    pub fn on_failure(&self) -> (propagation: Propagation)
        ensures
            propagation == match *self {
                Step::FullPass => Propagation::Abort,
                Step::Watch => Propagation::ReportAndContinue,
            },
    {
        match self {
            Step::FullPass => Propagation::Abort,
            Step::Watch => Propagation::ReportAndContinue,
        }
    }
}

/// The steps of a command, in order: `run` asks for one pass, `watch` for
/// one pass and then the watch.
pub fn run(command: &Command) -> (steps: Vec<Step>)
    ensures
        steps@ == match *command {
            Command::Run { .. } => seq![Step::FullPass],
            Command::Watch { .. } => seq![Step::FullPass, Step::Watch],
        },
{
    let mut steps: Vec<Step> = Vec::new();
    steps.push(Step::FullPass);
    match command {
        Command::Run { .. } => {},
        Command::Watch { .. } => {
            steps.push(Step::Watch);
        },
    }
    steps
}

} // verus!
