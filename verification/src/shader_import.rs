//! Dependency-aware shader import resolver: a directive line of the form
//! `// @import "<relative-path>"` is replaced by the resolved content of
//! the referenced file. A per-resolution chain catches cycles, a depth
//! counter bounds the recursion, and a file already resolved in the same
//! pass is skipped silently on later references, so a diamond-shaped
//! graph splices each shared file exactly once, at its first reference.
//!
//! The resolver works over an in-memory file set of canonicalized paths
//! and their contents; the caller reads files from disk and canonicalizes
//! paths, and retries after adding the file a `FileNotFound` error names.

use vstd::prelude::*;
use crate::text::{
    chars_vec, clone_strings, contains_string, decimal_chars, find_sub, match_at, occurs_at,
    push_all, spec_decimal, spec_find, string_from_chars, sub_chars,
};

verus! {

/// The deepest allowed chain of nested imports.
pub const MAX_IMPORT_DEPTH: usize = 32;

/// Why a resolution attempt failed. All four are terminal for the
/// attempt; the previously resolved program keeps running.
#[derive(Debug)]
pub enum ImportError {
    FileNotFound { path: String, import_location: String },
    IoError { path: String, message: String },
    RecursionLimit { depth: usize },
    CircularDependency { chain: Vec<String> },
}

/// Mathematical image of a resolution failure.
pub enum ImportErrorView {
    FileNotFound { path: Seq<char>, import_location: Seq<char> },
    IoError { path: Seq<char>, message: Seq<char> },
    RecursionLimit { depth: nat },
    CircularDependency { chain: Seq<Seq<char>> },
}

impl View for ImportError {
    type V = ImportErrorView;

    open spec fn view(&self) -> ImportErrorView {
        match self {
            ImportError::FileNotFound { path, import_location } => ImportErrorView::FileNotFound {
                path: path@,
                import_location: import_location@,
            },
            ImportError::IoError { path, message } => ImportErrorView::IoError {
                path: path@,
                message: message@,
            },
            ImportError::RecursionLimit { depth } => ImportErrorView::RecursionLimit {
                depth: *depth as nat,
            },
            ImportError::CircularDependency { chain } => ImportErrorView::CircularDependency {
                chain: chain.deep_view(),
            },
        }
    }
}

/// The files one resolved file directly imports, in reference order.
#[derive(Debug, Clone)]
pub struct DepEntry {
    pub from: String,
    pub imports: Vec<String>,
}

/// Mathematical image of one dependency entry.
pub struct DepEntryView {
    pub from: Seq<char>,
    pub imports: Seq<Seq<char>>,
}

impl View for DepEntry {
    type V = DepEntryView;

    open spec fn view(&self) -> DepEntryView {
        DepEntryView { from: self.from@, imports: self.imports.deep_view() }
    }
}

impl DeepView for DepEntry {
    type V = DepEntryView;

    open spec fn deep_view(&self) -> DepEntryView {
        self.view()
    }
}

/// What one resolution pass learned: each file's direct imports, and
/// every file visited, in completion order.
#[derive(Debug, Clone)]
pub struct DependencyInfo {
    pub dependencies: Vec<DepEntry>,
    pub all_files: Vec<String>,
}

/// Mathematical image of a dependency summary.
pub struct DependencyInfoView {
    pub dependencies: Seq<DepEntryView>,
    pub all_files: Seq<Seq<char>>,
}

impl View for DependencyInfo {
    type V = DependencyInfoView;

    open spec fn view(&self) -> DependencyInfoView {
        DependencyInfoView {
            dependencies: self.dependencies.deep_view(),
            all_files: self.all_files.deep_view(),
        }
    }
}

/// One file the resolver may read: the path imports refer to it by, its
/// canonical form (the identity used for cycle and diamond detection),
/// and its content.
#[derive(Debug, Clone)]
pub struct FileRecord {
    pub path: String,
    pub canon: String,
    pub content: String,
}

/// Mathematical image of one file record.
pub struct FileRecordView {
    pub path: Seq<char>,
    pub canon: Seq<char>,
    pub content: Seq<char>,
}

impl View for FileRecord {
    type V = FileRecordView;

    open spec fn view(&self) -> FileRecordView {
        FileRecordView { path: self.path@, canon: self.canon@, content: self.content@ }
    }
}

impl DeepView for FileRecord {
    type V = FileRecordView;

    open spec fn deep_view(&self) -> FileRecordView {
        self.view()
    }
}

/// The in-memory snapshot of every file a resolution pass may read.
pub struct FileSet {
    pub files: Vec<FileRecord>,
}

impl View for FileSet {
    type V = Seq<FileRecordView>;

    open spec fn view(&self) -> Seq<FileRecordView> {
        self.files.deep_view()
    }
}

/// State carried through one resolution pass: the active import chain,
/// the files already fully resolved, and the dependency edges seen.
pub struct DependencyTracker {
    pub import_chain: Vec<String>,
    pub processed_files: Vec<String>,
    pub dependencies: Vec<DepEntry>,
}

/// Mathematical image of the tracker state.
pub struct TrackerView {
    pub chain: Seq<Seq<char>>,
    pub processed: Seq<Seq<char>>,
    pub deps: Seq<DepEntryView>,
}

impl View for DependencyTracker {
    type V = TrackerView;

    open spec fn view(&self) -> TrackerView {
        TrackerView {
            chain: self.import_chain.deep_view(),
            processed: self.processed_files.deep_view(),
            deps: self.dependencies.deep_view(),
        }
    }
}

/// The empty tracker a pass starts from.
pub open spec fn spec_tracker_empty() -> TrackerView {
    TrackerView { chain: Seq::empty(), processed: Seq::empty(), deps: Seq::empty() }
}

/// Entering a file: a file already on the active chain is a cycle,
/// reported with the whole offending chain; otherwise the chain grows.
pub open spec fn spec_enter(t: TrackerView, p: Seq<char>) -> Result<TrackerView, ImportErrorView> {
    if t.chain.contains(p) {
        Err(ImportErrorView::CircularDependency { chain: t.chain.push(p) })
    } else {
        Ok(TrackerView { chain: t.chain.push(p), ..t })
    }
}

/// Leaving a file: the chain shrinks and the file joins the processed
/// set, once.
pub open spec fn spec_exit(t: TrackerView) -> TrackerView {
    if t.chain.len() == 0 {
        t
    } else {
        let p = t.chain.last();
        TrackerView {
            chain: t.chain.drop_last(),
            processed: if t.processed.contains(p) {
                t.processed
            } else {
                t.processed.push(p)
            },
            ..t
        }
    }
}

/// The first dependency entry for `from` at or after index `i`.
pub open spec fn spec_find_dep(deps: Seq<DepEntryView>, from: Seq<char>, i: int) -> Option<int>
    decreases deps.len() - i,
{
    if i < 0 || i >= deps.len() {
        None
    } else if deps[i].from == from {
        Some(i)
    } else {
        spec_find_dep(deps, from, i + 1)
    }
}

/// Recording one dependency edge: appended to the importer's entry, or
/// opening a new entry at the end.
pub open spec fn spec_add_dep(t: TrackerView, from: Seq<char>, to: Seq<char>) -> TrackerView {
    match spec_find_dep(t.deps, from, 0) {
        Some(i) => TrackerView {
            deps: t.deps.update(
                i,
                DepEntryView { from: t.deps[i].from, imports: t.deps[i].imports.push(to) },
            ),
            ..t
        },
        None => TrackerView {
            deps: t.deps.push(DepEntryView { from, imports: seq![to] }),
            ..t
        },
    }
}

/// The first record whose reference path is `path`, at or after `i`.
pub open spec fn spec_lookup(files: Seq<FileRecordView>, path: Seq<char>, i: int) -> Option<
    FileRecordView,
>
    decreases files.len() - i,
{
    if i < 0 || i >= files.len() {
        None
    } else if files[i].path == path {
        Some(files[i])
    } else {
        spec_lookup(files, path, i + 1)
    }
}

/// A line with one trailing carriage return removed.
pub open spec fn spec_strip_cr(line: Seq<char>) -> Seq<char> {
    if line.len() > 0 && line.last() == '\r' {
        line.drop_last()
    } else {
        line
    }
}

/// The lines of `s` from position `i` on, with `cur` the partial line
/// already read: split at every newline, a carriage return before a
/// newline dropped, and no empty line after a final newline.
pub open spec fn spec_lines_from(s: Seq<char>, i: int, cur: Seq<char>) -> Seq<Seq<char>>
    decreases s.len() - i,
{
    if i < 0 || i >= s.len() {
        if cur.len() == 0 {
            Seq::empty()
        } else {
            seq![cur]
        }
    } else if s[i] == '\n' {
        seq![spec_strip_cr(cur)] + spec_lines_from(s, i + 1, Seq::empty())
    } else {
        spec_lines_from(s, i + 1, cur.push(s[i]))
    }
}

/// The lines of a source text.
pub open spec fn spec_lines(s: Seq<char>) -> Seq<Seq<char>> {
    spec_lines_from(s, 0, Seq::empty())
}

/// The text that opens an import directive, quote included.
pub open spec fn spec_import_prefix() -> Seq<char> {
    seq!['/', '/', ' ', '@', 'i', 'm', 'p', 'o', 'r', 't', ' ', '"']
}

/// Whether a directive stands at position `i`: the opening text, then at
/// least one character before the next double quote.
pub open spec fn spec_directive_at(line: Seq<char>, i: int) -> bool {
    &&& occurs_at(line, spec_import_prefix(), i)
    &&& match spec_find(line, seq!['"'], i + spec_import_prefix().len()) {
        Some(j) => j > i + spec_import_prefix().len(),
        None => false,
    }
}

/// The leftmost position at or after `from` where a directive stands.
pub open spec fn spec_find_directive(line: Seq<char>, from: int) -> Option<int>
    decreases line.len() - from,
{
    if from < 0 || from >= line.len() {
        None
    } else if spec_directive_at(line, from) {
        Some(from)
    } else {
        spec_find_directive(line, from + 1)
    }
}

/// The relative path a directive line references: the characters between
/// the opening text and the next double quote, at the leftmost stand of
/// a whole directive. `None` for a line holding no directive.
pub open spec fn spec_parse_import(line: Seq<char>) -> Option<Seq<char>> {
    match spec_find_directive(line, 0) {
        None => None,
        Some(i) => {
            let start = i + spec_import_prefix().len();
            match spec_find(line, seq!['"'], start) {
                Some(j) => Some(line.subrange(start, j)),
                None => None,
            }
        },
    }
}

/// The directory part of a path: everything before the last slash.
pub open spec fn spec_dir_of(path: Seq<char>) -> Seq<char>
    decreases path.len(),
{
    if path.len() == 0 {
        Seq::empty()
    } else if path.last() == '/' {
        path.drop_last()
    } else {
        spec_dir_of(path.drop_last())
    }
}

/// A referenced path resolved against the importing file's directory: an
/// absolute reference stands alone, any other is joined with a slash.
pub open spec fn spec_join(dir: Seq<char>, rel: Seq<char>) -> Seq<char> {
    if rel.len() > 0 && rel[0] == '/' {
        rel
    } else if dir.len() == 0 {
        rel
    } else {
        dir + seq!['/'] + rel
    }
}

/// A spliced text with one trailing newline removed.
pub open spec fn spec_strip_nl(text: Seq<char>) -> Seq<char> {
    if text.len() > 0 && text.last() == '\n' {
        text.drop_last()
    } else {
        text
    }
}

/// Resolving one file at the given depth: too deep fails, a file already
/// on the chain fails as a cycle; otherwise its lines are resolved and
/// the file moves to the processed set, its splice losing one trailing
/// newline.
pub open spec fn spec_resolve_file(
    files: Seq<FileRecordView>,
    name: Seq<char>,
    content: Seq<char>,
    t: TrackerView,
    depth: nat,
) -> (Result<Seq<char>, ImportErrorView>, TrackerView)
    decreases MAX_IMPORT_DEPTH + 2 - depth, 1nat, 0nat,
{
    if depth > MAX_IMPORT_DEPTH {
        (Err(ImportErrorView::RecursionLimit { depth }), t)
    } else {
        match spec_enter(t, name) {
            Err(e) => (Err(e), t),
            Ok(t1) => {
                let (res, t2) = spec_resolve_lines(
                    files,
                    name,
                    spec_dir_of(name),
                    spec_lines(content),
                    t1,
                    depth,
                );
                match res {
                    Err(e) => (Err(e), t2),
                    Ok(text) => (Ok(spec_strip_nl(text)), spec_exit(t2)),
                }
            },
        }
    }
}

/// Resolving a list of lines: a plain line passes through with a
/// newline; a directive line is replaced by the referenced file's
/// resolved content, or by nothing when that file was already resolved
/// in this pass; a reference to a file outside the set fails, naming the
/// importer.
pub open spec fn spec_resolve_lines(
    files: Seq<FileRecordView>,
    name: Seq<char>,
    dir: Seq<char>,
    lines: Seq<Seq<char>>,
    t: TrackerView,
    depth: nat,
) -> (Result<Seq<char>, ImportErrorView>, TrackerView)
    decreases MAX_IMPORT_DEPTH + 2 - depth, 0nat, lines.len(),
{
    if lines.len() == 0 || depth > MAX_IMPORT_DEPTH {
        (Ok(Seq::empty()), t)
    } else {
        let line = lines.first();
        match spec_parse_import(line) {
            None => {
                let (res, t2) = spec_resolve_lines(files, name, dir, lines.drop_first(), t, depth);
                match res {
                    Ok(rest) => (Ok(line + seq!['\n'] + rest), t2),
                    Err(e) => (Err(e), t2),
                }
            },
            Some(rel) => {
                let joined = spec_join(dir, rel);
                match spec_lookup(files, joined, 0) {
                    None => (
                        Err(
                            ImportErrorView::FileNotFound {
                                path: joined,
                                import_location: name,
                            },
                        ),
                        t,
                    ),
                    Some(rec) => {
                        let t1 = spec_add_dep(t, name, rec.canon);
                        if t1.processed.contains(rec.canon) {
                            spec_resolve_lines(files, name, dir, lines.drop_first(), t1, depth)
                        } else {
                            let (res, t2) = spec_resolve_file(
                                files,
                                rec.canon,
                                rec.content,
                                t1,
                                depth + 1,
                            );
                            match res {
                                Err(e) => (Err(e), t2),
                                Ok(inner) => {
                                    let (res2, t3) = spec_resolve_lines(
                                        files,
                                        name,
                                        dir,
                                        lines.drop_first(),
                                        t2,
                                        depth,
                                    );
                                    match res2 {
                                        Ok(rest) => (Ok(inner + seq!['\n'] + rest), t3),
                                        Err(e) => (Err(e), t3),
                                    }
                                },
                            }
                        }
                    },
                }
            },
        }
    }
}

/// What a whole resolution pass yields: the flattened source and the
/// dependency summary, from an empty tracker at depth zero.
pub open spec fn spec_process_imports(
    files: Seq<FileRecordView>,
    shader_path: Seq<char>,
    shader_source: Seq<char>,
) -> Result<(Seq<char>, DependencyInfoView), ImportErrorView> {
    let (res, t) = spec_resolve_file(files, shader_path, shader_source, spec_tracker_empty(), 0);
    match res {
        Ok(text) => Ok(
            (text, DependencyInfoView { dependencies: t.deps, all_files: t.processed }),
        ),
        Err(e) => Err(e),
    }
}

/// The import-directive opening text as characters.
fn import_prefix_chars() -> (r: Vec<char>)
    ensures
        r@ == spec_import_prefix(),
{
    let mut r: Vec<char> = Vec::new();
    r.push('/');
    r.push('/');
    r.push(' ');
    r.push('@');
    r.push('i');
    r.push('m');
    r.push('p');
    r.push('o');
    r.push('r');
    r.push('t');
    r.push(' ');
    r.push('"');
    assert(r@ =~= spec_import_prefix());
    r
}

/// A double quote as a one-character needle.
fn quote_chars() -> (r: Vec<char>)
    ensures
        r@ == seq!['"'],
{
    let mut r: Vec<char> = Vec::new();
    r.push('"');
    assert(r@ =~= seq!['"']);
    r
}

/// The relative path referenced by the line's leftmost whole directive,
/// if the line holds one.
fn parse_import_line(line: &Vec<char>) -> (r: Option<Vec<char>>)
    ensures
        (match r {
            Some(v) => Some(v@),
            None => None,
        }) == spec_parse_import(line@),
{
    let prefix = import_prefix_chars();
    let quote = quote_chars();
    let n = line.len();
    let mut from: usize = 0;
    while from < n
        invariant
            n == line@.len(),
            prefix@ == spec_import_prefix(),
            quote@ == seq!['"'],
            from <= n,
            spec_find_directive(line@, 0) == spec_find_directive(line@, from as int),
        decreases n - from,
    {
        if prefix.len() <= n - from && match_at(line, &prefix, from) {
            let start = from + prefix.len();
            match find_sub(line, &quote, start) {
                Some(j) => {
                    proof {
                        crate::text::lemma_find_occurs(line@, quote@, start as int);
                    }
                    if j > start {
                        assert(spec_directive_at(line@, from as int));
                        assert(spec_find_directive(line@, 0) == Some(from as int));
                        let rel = sub_chars(line, start, j);
                        return Some(rel);
                    }
                    assert(!spec_directive_at(line@, from as int));
                },
                None => {
                    assert(!spec_directive_at(line@, from as int));
                },
            }
        } else {
            proof {
                if from + prefix@.len() > n {
                    assert(!occurs_at(line@, spec_import_prefix(), from as int));
                }
                assert(!spec_directive_at(line@, from as int));
            }
        }
        from = from + 1;
    }
    assert(spec_find_directive(line@, from as int) is None);
    None
}

/// The lines of a source text, split at newlines.
fn split_lines(content: &Vec<char>) -> (r: Vec<Vec<char>>)
    ensures
        r.deep_view() == spec_lines(content@),
{
    let mut lines: Vec<Vec<char>> = Vec::new();
    let mut cur: Vec<char> = Vec::new();
    let mut i: usize = 0;
    while i < content.len()
        invariant
            i <= content@.len(),
            lines.deep_view() + spec_lines_from(content@, i as int, cur@) =~= spec_lines(
                content@,
            ),
        decreases content.len() - i,
    {
        let c = content[i];
        if c == '\n' {
            let mut finished = cur;
            cur = Vec::new();
            let ghost pre_strip = finished@;
            if finished.len() > 0 && finished[finished.len() - 1] == '\r' {
                finished.pop();
            }
            assert(finished@ == spec_strip_cr(pre_strip));
            let ghost pre = lines.deep_view();
            lines.push(finished);
            proof {
                assert(lines.deep_view() =~~= pre.push(spec_strip_cr(pre_strip)));
                assert(lines.deep_view() + spec_lines_from(content@, i + 1, Seq::empty())
                    =~~= spec_lines(content@));
            }
        } else {
            cur.push(c);
        }
        i = i + 1;
    }
    if cur.len() > 0 {
        let ghost pre = lines.deep_view();
        let ghost cv = cur@;
        lines.push(cur);
        proof {
            assert(lines.deep_view() =~~= pre.push(cv));
            assert(lines.deep_view() =~~= spec_lines(content@));
        }
    } else {
        assert(lines.deep_view() =~~= spec_lines(content@));
    }
    lines
}

/// The directory part of a path, as characters.
fn dir_of_chars(path: &Vec<char>) -> (r: Vec<char>)
    ensures
        r@ == spec_dir_of(path@),
{
    let mut k = path.len();
    proof {
        assert(path@.subrange(0, path@.len() as int) =~= path@);
    }
    while k > 0 && path[k - 1] != '/'
        invariant
            k <= path@.len(),
            spec_dir_of(path@) == spec_dir_of(path@.subrange(0, k as int)),
        decreases k,
    {
        proof {
            assert(path@.subrange(0, k as int).drop_last() =~= path@.subrange(0, k as int - 1));
        }
        k = k - 1;
    }
    if k == 0 {
        proof {
            assert(path@.subrange(0, 0) =~= Seq::<char>::empty());
        }
        Vec::new()
    } else {
        proof {
            assert(path@.subrange(0, k as int).drop_last() =~= path@.subrange(0, k as int - 1));
        }
        sub_chars(path, 0, k - 1)
    }
}

/// A referenced path joined onto the importing file's directory.
fn join_path(dir: &Vec<char>, rel: &Vec<char>) -> (r: Vec<char>)
    ensures
        r@ == spec_join(dir@, rel@),
{
    if rel.len() > 0 && rel[0] == '/' {
        let r = sub_chars(rel, 0, rel.len());
        assert(r@ =~= rel@);
        r
    } else if dir.len() == 0 {
        let r = sub_chars(rel, 0, rel.len());
        assert(r@ =~= rel@);
        r
    } else {
        let mut r = sub_chars(dir, 0, dir.len());
        assert(r@ =~= dir@);
        r.push('/');
        push_all(&mut r, rel);
        assert(r@ =~= dir@ + seq!['/'] + rel@);
        r
    }
}

/// The first record of the set whose reference path is the given one.
fn lookup_file<'a>(files: &'a FileSet, path: &String) -> (r: Option<&'a FileRecord>)
    ensures
        (match r {
            Some(rec) => Some(rec@),
            None => None,
        }) == spec_lookup(files@, path@, 0),
{
    let mut i: usize = 0;
    while i < files.files.len()
        invariant
            i <= files.files@.len(),
            spec_lookup(files@, path@, 0) == spec_lookup(files@, path@, i as int),
        decreases files.files.len() - i,
    {
        proof {
            assert(files@[i as int] == files.files@[i as int]@);
        }
        if files.files[i].path.eq(path) {
            return Some(&files.files[i]);
        }
        i = i + 1;
    }
    None
}

impl DependencyTracker {
    /// A fresh tracker: empty chain, nothing processed, no edges.
    pub fn new() -> (r: Self)
        ensures
            r@ == spec_tracker_empty(),
    {
        let r = DependencyTracker {
            import_chain: Vec::new(),
            processed_files: Vec::new(),
            dependencies: Vec::new(),
        };
        proof {
            assert(r@.chain =~= spec_tracker_empty().chain);
            assert(r@.processed =~= spec_tracker_empty().processed);
            assert(r@.deps =~= spec_tracker_empty().deps);
        }
        r
    }

    /// Push a file onto the active chain; a file already on it is a
    /// cycle, reported with the whole offending chain.
    pub fn enter_file(&mut self, file_path: String) -> (r: Result<(), ImportError>)
        ensures
            (match (r, spec_enter(old(self)@, file_path@)) {
                (Ok(()), Ok(t)) => final(self)@ == t,
                (Err(e), Err(ev)) => e@ == ev && final(self)@ == old(self)@,
                _ => false,
            }),
    {
        if contains_string(&self.import_chain, &file_path) {
            let mut cycle_chain = clone_strings(&self.import_chain);
            let ghost pre = cycle_chain.deep_view();
            cycle_chain.push(file_path);
            proof {
                assert(cycle_chain.deep_view() =~= pre.push(file_path@));
            }
            Err(ImportError::CircularDependency { chain: cycle_chain })
        } else {
            let ghost pre = self.import_chain.deep_view();
            self.import_chain.push(file_path);
            proof {
                assert(self.import_chain.deep_view() =~= pre.push(file_path@));
            }
            Ok(())
        }
    }

    /// Pop the chain; the popped file joins the processed set, once.
    pub fn exit_file(&mut self)
        ensures
            final(self)@ == spec_exit(old(self)@),
    {
        let ghost pre_chain = self.import_chain.deep_view();
        match self.import_chain.pop() {
            Some(file_path) => {
                proof {
                    assert(self.import_chain.deep_view() =~= pre_chain.drop_last());
                    assert(file_path@ == pre_chain.last());
                }
                if !contains_string(&self.processed_files, &file_path) {
                    let ghost pre = self.processed_files.deep_view();
                    self.processed_files.push(file_path);
                    proof {
                        assert(self.processed_files.deep_view() =~= pre.push(pre_chain.last()));
                    }
                }
            },
            None => {},
        }
    }

    /// Record one dependency edge from importer to imported file.
    pub fn add_dependency(&mut self, from: &String, to: &String)
        ensures
            final(self)@ == spec_add_dep(old(self)@, from@, to@),
    {
        let mut i: usize = 0;
        while i < self.dependencies.len()
            invariant
                i <= self.dependencies@.len(),
                *self == *old(self),
                spec_find_dep(self@.deps, from@, 0) == spec_find_dep(self@.deps, from@, i as int),
            decreases self.dependencies.len() - i,
        {
            proof {
                assert(self@.deps[i as int] == self.dependencies@[i as int]@);
            }
            if self.dependencies[i].from.eq(from) {
                let ghost pre = self.dependencies.deep_view();
                let mut entry = DepEntry { from: String::new(), imports: Vec::new() };
                core::mem::swap(&mut entry, &mut self.dependencies[i]);
                let ghost pre_imports = entry.imports.deep_view();
                let to_clone = to.clone();
                entry.imports.push(to_clone);
                proof {
                    assert(entry.imports.deep_view() =~= pre_imports.push(to@));
                }
                core::mem::swap(&mut entry, &mut self.dependencies[i]);
                proof {
                    assert(self.dependencies.deep_view() =~= pre.update(
                        i as int,
                        DepEntryView { from: pre[i as int].from, imports: pre[i as int].imports.push(to@) },
                    ));
                }
                return ;
            }
            i = i + 1;
        }
        let ghost pre = self.dependencies.deep_view();
        let from_clone = from.clone();
        let to_clone = to.clone();
        let mut imports: Vec<String> = Vec::new();
        imports.push(to_clone);
        proof {
            assert(imports.deep_view() =~= seq![to@]);
        }
        self.dependencies.push(DepEntry { from: from_clone, imports });
        proof {
            assert(self.dependencies.deep_view() =~= pre.push(
                DepEntryView { from: from@, imports: seq![to@] },
            ));
        }
    }

    /// A copy of everything the pass has learned so far.
    pub fn get_dependency_info(&self) -> (r: DependencyInfo)
        ensures
            r@ == (DependencyInfoView { dependencies: self@.deps, all_files: self@.processed }),
    {
        let mut deps: Vec<DepEntry> = Vec::new();
        let mut i: usize = 0;
        while i < self.dependencies.len()
            invariant
                i <= self.dependencies@.len(),
                deps@.len() == i,
                forall|j: int| 0 <= j < i ==> #[trigger] deps@[j]@ == self.dependencies@[j]@,
            decreases self.dependencies.len() - i,
        {
            let from = self.dependencies[i].from.clone();
            let imports = clone_strings(&self.dependencies[i].imports);
            deps.push(DepEntry { from, imports });
            i = i + 1;
        }
        let all_files = clone_strings(&self.processed_files);
        let r = DependencyInfo { dependencies: deps, all_files };
        proof {
            assert(r@.dependencies =~= self@.deps);
            assert(r@.all_files =~= self@.processed);
        }
        r
    }
}

/// Resolve one file at the given depth: its lines are spliced, with the
/// trailing newline removed, and the file joins the processed set.
fn resolve_file(
    files: &FileSet,
    name: &String,
    content: &String,
    tracker: &mut DependencyTracker,
    depth: usize,
) -> (r: Result<Vec<char>, ImportError>)
    requires
        depth <= MAX_IMPORT_DEPTH + 1,
    ensures
        ({
            let (res, t) = spec_resolve_file(files@, name@, content@, old(tracker)@, depth as nat);
            &&& final(tracker)@ == t
            &&& match (r, res) {
                (Ok(v), Ok(s)) => v@ == s,
                (Err(e), Err(ev)) => e@ == ev,
                _ => false,
            }
        }),
    decreases MAX_IMPORT_DEPTH + 2 - depth, 1int, 0int,
{
    if depth > MAX_IMPORT_DEPTH {
        return Err(ImportError::RecursionLimit { depth });
    }
    let name_for_chain = name.clone();
    match tracker.enter_file(name_for_chain) {
        Err(e) => {
            return Err(e);
        },
        Ok(()) => {},
    }
    let content_chars = chars_vec(content.as_str());
    let lines = split_lines(&content_chars);
    let name_chars = chars_vec(name.as_str());
    let dir = dir_of_chars(&name_chars);
    proof {
        assert(lines.deep_view().subrange(0, lines.deep_view().len() as int) =~= lines.deep_view());
    }
    match resolve_lines(files, name, &dir, &lines, 0, tracker, depth) {
        Err(e) => Err(e),
        Ok(mut text) => {
            let ghost pre = text@;
            if text.len() > 0 && text[text.len() - 1] == '\n' {
                text.pop();
            }
            assert(text@ == spec_strip_nl(pre));
            tracker.exit_file();
            Ok(text)
        },
    }
}

/// Resolve the lines of one file from index `idx` on.
fn resolve_lines(
    files: &FileSet,
    name: &String,
    dir: &Vec<char>,
    lines: &Vec<Vec<char>>,
    idx: usize,
    tracker: &mut DependencyTracker,
    depth: usize,
) -> (r: Result<Vec<char>, ImportError>)
    requires
        depth <= MAX_IMPORT_DEPTH,
        idx <= lines@.len(),
    ensures
        ({
            let (res, t) = spec_resolve_lines(
                files@,
                name@,
                dir@,
                lines.deep_view().subrange(idx as int, lines.deep_view().len() as int),
                old(tracker)@,
                depth as nat,
            );
            &&& final(tracker)@ == t
            &&& match (r, res) {
                (Ok(v), Ok(s)) => v@ == s,
                (Err(e), Err(ev)) => e@ == ev,
                _ => false,
            }
        }),
    decreases MAX_IMPORT_DEPTH + 2 - depth, 0int, lines@.len() - idx,
{
    let ghost all = lines.deep_view();
    let ghost rem = all.subrange(idx as int, all.len() as int);
    if idx == lines.len() {
        assert(rem.len() == 0);
        return Ok(Vec::new());
    }
    proof {
        assert(rem.first() == all[idx as int]);
        assert(all[idx as int] == lines@[idx as int]@);
        assert(rem.drop_first() =~= all.subrange(idx as int + 1, all.len() as int));
    }
    let line = &lines[idx];
    match parse_import_line(line) {
        None => {
            match resolve_lines(files, name, dir, lines, idx + 1, tracker, depth) {
                Err(e) => Err(e),
                Ok(rest) => {
                    let mut out = sub_chars(line, 0, line.len());
                    assert(out@ =~= rem.first());
                    out.push('\n');
                    push_all(&mut out, &rest);
                    assert(out@ =~= rem.first() + seq!['\n'] + rest@);
                    Ok(out)
                },
            }
        },
        Some(rel) => {
            let joined_chars = join_path(dir, &rel);
            let joined = string_from_chars(&joined_chars);
            match lookup_file(files, &joined) {
                None => {
                    let location = name.clone();
                    Err(ImportError::FileNotFound { path: joined, import_location: location })
                },
                Some(rec) => {
                    let canon = rec.canon.clone();
                    let rec_content = rec.content.clone();
                    tracker.add_dependency(name, &canon);
                    if contains_string(&tracker.processed_files, &canon) {
                        resolve_lines(files, name, dir, lines, idx + 1, tracker, depth)
                    } else {
                        match resolve_file(files, &canon, &rec_content, tracker, depth + 1) {
                            Err(e) => Err(e),
                            Ok(inner) => {
                                match resolve_lines(files, name, dir, lines, idx + 1, tracker, depth) {
                                    Err(e) => Err(e),
                                    Ok(rest) => {
                                        let mut out = inner;
                                        out.push('\n');
                                        push_all(&mut out, &rest);
                                        Ok(out)
                                    },
                                }
                            },
                        }
                    }
                },
            }
        },
    }
}

/// Expand every import directive of the entry shader into a single
/// flattened source, and report the dependency graph of the pass. The
/// entry path and every record of the file set are expected already
/// canonicalized by the caller; a referenced file missing from the set
/// fails with `FileNotFound`, naming the importer, and `IoError` is
/// never produced here.
pub fn process_imports(shader_path: &str, shader_source: &str, files: &FileSet) -> (r: Result<
    (String, DependencyInfo),
    ImportError,
>)
    ensures
        (match (r, spec_process_imports(files@, shader_path@, shader_source@)) {
            (Ok((text, deps)), Ok(sr)) => text@ == sr.0 && deps@ == sr.1,
            (Err(e), Err(ev)) => e@ == ev,
            _ => false,
        }),
{
    let mut tracker = DependencyTracker::new();
    let name = shader_path.to_owned();
    let content = shader_source.to_owned();
    match resolve_file(files, &name, &content, &mut tracker, 0) {
        Err(e) => Err(e),
        Ok(text) => {
            let flat = string_from_chars(&text);
            let deps = tracker.get_dependency_info();
            Ok((flat, deps))
        },
    }
}


/// The chain of a cycle report, joined with arrows.
pub open spec fn spec_chain_text(chain: Seq<Seq<char>>) -> Seq<char>
    decreases chain.len(),
{
    if chain.len() == 0 {
        Seq::empty()
    } else if chain.len() == 1 {
        chain.first()
    } else {
        chain.first() + " -> "@ + spec_chain_text(chain.drop_first())
    }
}

/// The human-readable account of a resolution failure.
pub open spec fn spec_import_error_message(e: ImportErrorView) -> Seq<char> {
    match e {
        ImportErrorView::FileNotFound { path, import_location } => "Import file not found: '"@
            + path + "' (imported from "@ + import_location + ")"@,
        ImportErrorView::IoError { path, message } => "Error reading import file '"@ + path
            + "': "@ + message,
        ImportErrorView::RecursionLimit { depth } => "Import recursion limit exceeded (depth: "@
            + spec_decimal(depth) + "). Check for circular dependencies."@,
        ImportErrorView::CircularDependency { chain } => "Circular dependency detected: "@
            + spec_chain_text(chain),
    }
}

impl ImportError {
    /// A human-readable account of the failure.
    pub fn message(&self) -> (r: String)
        ensures
            r@ == spec_import_error_message(self@),
    {
        match self {
            ImportError::FileNotFound { path, import_location } => {
                let mut out = chars_vec("Import file not found: '");
                let p = chars_vec(path.as_str());
                push_all(&mut out, &p);
                let mid = chars_vec("' (imported from ");
                push_all(&mut out, &mid);
                let l = chars_vec(import_location.as_str());
                push_all(&mut out, &l);
                let tail = chars_vec(")");
                push_all(&mut out, &tail);
                string_from_chars(&out)
            },
            ImportError::IoError { path, message } => {
                let mut out = chars_vec("Error reading import file '");
                let p = chars_vec(path.as_str());
                push_all(&mut out, &p);
                let mid = chars_vec("': ");
                push_all(&mut out, &mid);
                let m = chars_vec(message.as_str());
                push_all(&mut out, &m);
                string_from_chars(&out)
            },
            ImportError::RecursionLimit { depth } => {
                let mut out = chars_vec("Import recursion limit exceeded (depth: ");
                let d = decimal_chars(*depth as u64);
                push_all(&mut out, &d);
                let tail = chars_vec("). Check for circular dependencies.");
                push_all(&mut out, &tail);
                string_from_chars(&out)
            },
            ImportError::CircularDependency { chain } => {
                let mut out = chars_vec("Circular dependency detected: ");
                let ghost cv = chain.deep_view();
                let ghost head = out@;
                let mut i: usize = 0;
                while i < chain.len()
                    invariant
                        cv == chain.deep_view(),
                        i <= cv.len(),
                        i == 0 ==> out@ == head,
                        0 < i < cv.len() ==> head + spec_chain_text(cv) == out@ + " -> "@
                            + spec_chain_text(cv.subrange(i as int, cv.len() as int)),
                        i == cv.len() && cv.len() > 0 ==> out@ == head + spec_chain_text(cv),
                    decreases chain.len() - i,
                {
                    let ghost pre = out@;
                    if i > 0 {
                        let sep = chars_vec(" -> ");
                        push_all(&mut out, &sep);
                    }
                    let e = chars_vec(chain[i].as_str());
                    push_all(&mut out, &e);
                    proof {
                        let suffix = cv.subrange(i as int, cv.len() as int);
                        assert(suffix.first() == cv[i as int]);
                        assert(cv[i as int] == chain@[i as int]@);
                        if i + 1 < cv.len() {
                            assert(suffix.drop_first() =~= cv.subrange(
                                i as int + 1,
                                cv.len() as int,
                            ));
                        }
                        if i == 0 {
                            assert(cv.subrange(0, cv.len() as int) =~= cv);
                            if cv.len() == 1 {
                                assert(out@ =~= head + spec_chain_text(cv));
                            } else {
                                assert(head + spec_chain_text(cv) =~= out@ + " -> "@
                                    + spec_chain_text(cv.subrange(1, cv.len() as int)));
                            }
                        } else {
                            if i + 1 == cv.len() {
                                assert(spec_chain_text(suffix) == suffix.first());
                                assert(out@ =~= head + spec_chain_text(cv));
                            } else {
                                assert(spec_chain_text(suffix) =~= suffix.first() + " -> "@
                                    + spec_chain_text(cv.subrange(i as int + 1, cv.len() as int)));
                                assert(head + spec_chain_text(cv) =~= out@ + " -> "@
                                    + spec_chain_text(cv.subrange(i as int + 1, cv.len() as int)));
                            }
                        }
                    }
                    i = i + 1;
                }
                string_from_chars(&out)
            },
        }
    }
}


/// Cycle-detection law: from a fresh pass, entering `a`, then `b`, then
/// `a` again fails with a cycle error whose reported chain is exactly
/// `[a, b, a]`, for any two distinct file names.
pub proof fn lemma_cycle_reports_full_chain(a: Seq<char>, b: Seq<char>)
    requires
        a != b,
    ensures
        ({
            let t1 = spec_enter(spec_tracker_empty(), a);
            let t2 = spec_enter(t1->Ok_0, b);
            t1 is Ok && t2 is Ok && spec_enter(t2->Ok_0, a) == Err::<
                TrackerView,
                ImportErrorView,
            >(ImportErrorView::CircularDependency { chain: seq![a, b, a] })
        }),
{
    let t0 = spec_tracker_empty();
    assert(!t0.chain.contains(a)) by {
        if t0.chain.contains(a) {
            let i = choose|i: int| 0 <= i < t0.chain.len() && t0.chain[i] == a;
        }
    }
    let t1 = spec_enter(t0, a)->Ok_0;
    assert(t1.chain =~= seq![a]);
    assert(!t1.chain.contains(b)) by {
        if t1.chain.contains(b) {
            let i = choose|i: int| 0 <= i < t1.chain.len() && t1.chain[i] == b;
        }
    }
    let t2 = spec_enter(t1, b)->Ok_0;
    assert(t2.chain =~= seq![a, b]);
    assert(t2.chain.contains(a)) by {
        assert(t2.chain[0] == a);
    }
    assert(t2.chain.push(a) =~= seq![a, b, a]);
}

/// Depth-limit law: a file reached through more than the configured
/// number of nested imports fails with a recursion-limit error naming
/// that depth, whatever the file, its content, or the tracker state.
pub proof fn lemma_depth_limit_refuses(
    files: Seq<FileRecordView>,
    name: Seq<char>,
    content: Seq<char>,
    t: TrackerView,
    depth: nat,
)
    requires
        depth > MAX_IMPORT_DEPTH,
    ensures
        spec_resolve_file(files, name, content, t, depth) == (
            Err::<Seq<char>, ImportErrorView>(ImportErrorView::RecursionLimit { depth }),
            t,
        ),
{
}

/// De-duplication law, the half that holds line by line: a directive
/// that references a file already in the processed set records the
/// dependency edge but splices no text, so only a file's first
/// reference contributes its content.
pub proof fn lemma_processed_reference_adds_no_text(
    files: Seq<FileRecordView>,
    name: Seq<char>,
    dir: Seq<char>,
    lines: Seq<Seq<char>>,
    t: TrackerView,
    depth: nat,
)
    requires
        lines.len() > 0,
        depth <= MAX_IMPORT_DEPTH,
        spec_parse_import(lines.first()) is Some,
        spec_lookup(files, spec_join(dir, spec_parse_import(lines.first())->0), 0) is Some,
        ({
            let rec = spec_lookup(
                files,
                spec_join(dir, spec_parse_import(lines.first())->0),
                0,
            )->0;
            spec_add_dep(t, name, rec.canon).processed.contains(rec.canon)
        }),
    ensures
        ({
            let rec = spec_lookup(
                files,
                spec_join(dir, spec_parse_import(lines.first())->0),
                0,
            )->0;
            spec_resolve_lines(files, name, dir, lines, t, depth) == spec_resolve_lines(
                files,
                name,
                dir,
                lines.drop_first(),
                spec_add_dep(t, name, rec.canon),
                depth,
            )
        }),
{
}

} // verus!
