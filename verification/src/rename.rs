//! Applying a name: where the file goes, under which name it lands when the
//! name is taken, and how it is moved.
//!
//! The file system is the caller's. The functions here say which path to ask
//! about or to act on next, and take the answer: each step of a rename is a
//! value that the caller turns into the next one. Nothing here blocks, and
//! nothing here can leave a step out.

use vstd::prelude::*;
use crate::document::{lower_extension, lower_extension_of, name_of};
use crate::naming::{dotted_extension, dotted_extension_of};
use crate::paths::{
    file_name, file_name_of, file_stem, file_stem_of, joined, lemma_stem_and_extension, parent,
    parent_of,
};
use crate::text::{
    chars_of, decimal, is_str, opt_text, owned, push_decimal, push_str, same_str, string_of,
    strings,
};

verus! {

/// The highest number that is tried as a suffix.
pub const MAX_SUFFIX: u32 = 999;

/// The folder, under the destination, for files with the lower-case
/// extension `ext`; empty for files that stay in the destination itself.
pub open spec fn category_of(ext: Seq<char>) -> Seq<char> {
    if ext == "jpg"@ || ext == "jpeg"@ || ext == "png"@ || ext == "heic"@ || ext == "webp"@ || ext
        == "tiff"@ || ext == "gif"@ || ext == "bmp"@ || ext == "svg"@ {
        "Images"@
    } else if ext == "md"@ || ext == "txt"@ || ext == "docx"@ || ext == "doc"@ || ext == "rtf"@
        || ext == "pptx"@ || ext == "xlsx"@ || ext == "xls"@ {
        "Documents"@
    } else if ext == "pdf"@ {
        "PDFs"@
    } else if ext == "zip"@ || ext == "rar"@ || ext == "7z"@ || ext == "tar"@ || ext == "gz"@
        || ext == "bz2"@ || ext == "xz"@ {
        "Archives"@
    } else {
        ""@
    }
}

/// The folder for the file `filename`, by its extension.
pub fn category_subfolder(filename: &str) -> (r: &'static str)
    ensures
        r@ == category_of(lower_extension_of(filename@)),
{
    let ext = lower_extension(filename);
    if is_str(&ext, "jpg") || is_str(&ext, "jpeg") || is_str(&ext, "png") || is_str(&ext, "heic")
        || is_str(&ext, "webp") || is_str(&ext, "tiff") || is_str(&ext, "gif") || is_str(
        &ext,
        "bmp",
    ) || is_str(&ext, "svg") {
        "Images"
    } else if is_str(&ext, "md") || is_str(&ext, "txt") || is_str(&ext, "docx") || is_str(
        &ext,
        "doc",
    ) || is_str(&ext, "rtf") || is_str(&ext, "pptx") || is_str(&ext, "xlsx") || is_str(
        &ext,
        "xls",
    ) {
        "Documents"
    } else if is_str(&ext, "pdf") {
        "PDFs"
    } else if is_str(&ext, "zip") || is_str(&ext, "rar") || is_str(&ext, "7z") || is_str(
        &ext,
        "tar",
    ) || is_str(&ext, "gz") || is_str(&ext, "bz2") || is_str(&ext, "xz") {
        "Archives"
    } else {
        ""
    }
}

/// The directory that a moved file lands in: the destination, or, where
/// files are sorted and the new name has a category, the category's folder
/// under it.
pub open spec fn destination_of(dest_folder: Seq<char>, new_name: Seq<char>, sorted: bool) -> Seq<
    char,
> {
    if sorted && category_of(lower_extension_of(new_name)).len() > 0 {
        joined(dest_folder, category_of(lower_extension_of(new_name)))
    } else {
        dest_folder
    }
}

/// The directory that a moved file lands in. The caller creates it, if it
/// is not there, before the name is resolved.
pub fn move_destination(dest_folder: &str, new_name: &str, auto_categorize: bool) -> (r: String)
    ensures
        r@ == destination_of(dest_folder@, new_name@, auto_categorize),
{
    if auto_categorize {
        let sub = category_subfolder(new_name);
        if sub.unicode_len() > 0 {
            return crate::paths::join(dest_folder, sub);
        }
    }
    owned(dest_folder)
}

/// The move of a file into a folder under a new name, as planned: the file,
/// the directory that it lands in, and the name that it is to bear there.
#[derive(Debug, PartialEq, Eq)]
pub struct MovePlan {
    pub source: String,
    pub directory: String,
    pub name: String,
}

/// Plans the move of the file at `src_path` into `dest_folder` under the
/// name `new_name`. The caller creates the plan's directory where it is not
/// there; only then does it search for a free name, with `search`, and move
/// the file to the path found, with `transfer`.
pub fn move_and_rename(src_path: &str, dest_folder: &str, new_name: &str, auto_categorize: bool) -> (plan:
    MovePlan)
    ensures
        plan.source@ == src_path@,
        plan.directory@ == destination_of(dest_folder@, new_name@, auto_categorize),
        plan.name@ == new_name@,
{
    MovePlan {
        source: owned(src_path),
        directory: move_destination(dest_folder, new_name, auto_categorize),
        name: owned(new_name),
    }
}

impl MovePlan {
    /// The search for a free name in the plan's directory.
    pub fn search(&self) -> (s: ConflictSearch)
        ensures
            s.dir@ == self.directory@,
            s.name@ == self.name@,
            s.index == 0,
    {
        ConflictSearch::new(self.directory.as_str(), self.name.as_str())
    }

    /// The move of the plan's file to `target`, the path that the search
    /// found.
    pub fn transfer(&self, target: &str) -> (m: Move)
        ensures
            m.from@ == self.source@,
            m.to@ == target@,
            m.stage == MoveStage::Renaming,
    {
        Move::new(self.source.as_str(), target)
    }
}

/// The stem of a file name; empty where it has none.
pub open spec fn stem_of(name: Seq<char>) -> Seq<char> {
    match file_stem_of(name) {
        Some(s) => s,
        None => Seq::empty(),
    }
}

/// The extension of a file name with its dot; empty where it has none.
pub open spec fn suffix_of(name: Seq<char>) -> Seq<char> {
    match dotted_extension_of(name) {
        Some(e) => e,
        None => Seq::empty(),
    }
}

/// The name made of `stem`, the mark of the `k`-th try and `suffix`: the
/// mark is a hyphen and the number `k` up to `MAX_SUFFIX`, and `-dup` past
/// that.
pub open spec fn marked(stem: Seq<char>, suffix: Seq<char>, k: nat) -> Seq<char> {
    if k <= MAX_SUFFIX {
        stem + "-"@ + decimal(k) + suffix
    } else {
        stem + "-dup"@ + suffix
    }
}

/// The name made of `stem`, the mark of the `k`-th try and `suffix`.
pub fn marked_name(stem: &str, suffix: &str, k: u32) -> (r: String)
    ensures
        r@ == marked(stem@, suffix@, k as nat),
{
    let mut out = chars_of(stem);
    if k <= MAX_SUFFIX {
        push_str(&mut out, "-");
        push_decimal(&mut out, k as u64);
    } else {
        push_str(&mut out, "-dup");
    }
    push_str(&mut out, suffix);
    string_of(&out)
}

/// The `k`-th name that is tried for `name`: the name itself; then the stem,
/// a hyphen, the number `k` and the extension, up to `MAX_SUFFIX`; and past
/// that the stem, `-dup` and the extension.
pub open spec fn candidate_name(name: Seq<char>, k: nat) -> Seq<char> {
    if k == 0 {
        name
    } else {
        marked(stem_of(name), suffix_of(name), k)
    }
}

/// A numbered name is the file name with a hyphen and the number put in
/// before its extension: stem and extension together are the file name.
pub proof fn lemma_numbered_name(name: Seq<char>, k: nat)
    requires
        1 <= k <= MAX_SUFFIX,
    ensures
        candidate_name(name, k) == stem_of(name) + "-"@ + decimal(k) + suffix_of(name),
        file_name_of(name) is Some ==> stem_of(name) + suffix_of(name) == file_name_of(name)->0,
{
    if file_name_of(name) is Some {
        lemma_stem_and_extension(file_name_of(name)->0);
    }
}

/// The `k`-th path that is tried for `name` in `dir`.
pub open spec fn candidate(dir: Seq<char>, name: Seq<char>, k: nat) -> Seq<char> {
    joined(dir, candidate_name(name, k))
}

/// The path that `name` lands at in `dir` when the paths for which `taken`
/// holds are occupied, trying from the `from`-th candidate on: the first
/// candidate up to `MAX_SUFFIX` that is free, and the `-dup` name if none is.
pub open spec fn resolved(
    dir: Seq<char>,
    name: Seq<char>,
    taken: spec_fn(Seq<char>) -> bool,
    from: nat,
) -> Seq<char>
    decreases MAX_SUFFIX + 1 - from,
{
    if from > MAX_SUFFIX {
        candidate(dir, name, from)
    } else if !taken(candidate(dir, name, from)) {
        candidate(dir, name, from)
    } else {
        resolved(dir, name, taken, from + 1)
    }
}

/// The number of the candidate that `resolved` returns.
pub open spec fn landing(
    dir: Seq<char>,
    name: Seq<char>,
    taken: spec_fn(Seq<char>) -> bool,
    from: nat,
) -> nat
    decreases MAX_SUFFIX + 1 - from,
{
    if from > MAX_SUFFIX {
        from
    } else if !taken(candidate(dir, name, from)) {
        from
    } else {
        landing(dir, name, taken, from + 1)
    }
}

/// Resolution never fails. It returns a candidate; every candidate before
/// it is taken; it is free itself unless every numbered candidate is taken,
/// in which case it is the `-dup` name.
pub proof fn lemma_resolution_is_total(
    dir: Seq<char>,
    name: Seq<char>,
    taken: spec_fn(Seq<char>) -> bool,
    from: nat,
)
    requires
        from <= MAX_SUFFIX + 1,
    ensures
        from <= landing(dir, name, taken, from) <= MAX_SUFFIX + 1,
        resolved(dir, name, taken, from) == candidate(
            dir,
            name,
            landing(dir, name, taken, from),
        ),
        forall|k: nat|
            from <= k < landing(dir, name, taken, from) ==> taken(
                #[trigger] candidate(dir, name, k),
            ),
        landing(dir, name, taken, from) <= MAX_SUFFIX ==> !taken(
            resolved(dir, name, taken, from),
        ),
        landing(dir, name, taken, from) == MAX_SUFFIX + 1 ==> resolved(dir, name, taken, from)
            == joined(dir, stem_of(name) + "-dup"@ + suffix_of(name)),
    decreases MAX_SUFFIX + 1 - from,
{
    if from <= MAX_SUFFIX && taken(candidate(dir, name, from)) {
        lemma_resolution_is_total(dir, name, taken, from + 1);
    }
}

/// A name that is free is used as it is: the file lands at the directory
/// joined with the name, and, where the last component of that path is the
/// name, it is listed under the name that was asked for.
pub proof fn lemma_free_name_is_kept(
    dir: Seq<char>,
    name: Seq<char>,
    taken: spec_fn(Seq<char>) -> bool,
)
    requires
        !taken(joined(dir, name)),
    ensures
        resolved(dir, name, taken, 0) == joined(dir, name),
        file_name_of(joined(dir, name)) == Some(name) ==> name_of(resolved(dir, name, taken, 0))
            == name,
{
}

/// Where the name and every numbered candidate before the `k`-th are taken
/// and the `k`-th is free, the name lands at the `k`-th: the directory
/// joined with the stem, a hyphen, the number and the extension.
pub proof fn lemma_first_free_number(
    dir: Seq<char>,
    name: Seq<char>,
    taken: spec_fn(Seq<char>) -> bool,
    k: nat,
)
    requires
        1 <= k <= MAX_SUFFIX,
        forall|j: nat| j < k ==> taken(#[trigger] candidate(dir, name, j)),
        !taken(candidate(dir, name, k)),
    ensures
        resolved(dir, name, taken, 0) == joined(
            dir,
            stem_of(name) + "-"@ + decimal(k) + suffix_of(name),
        ),
{
    lemma_resolution_is_total(dir, name, taken, 0);
    let n = landing(dir, name, taken, 0);
    if n < k {
        assert(taken(candidate(dir, name, n)));
    }
    if n > k {
        assert(taken(candidate(dir, name, k)));
    }
}

/// Where the name and all the numbered candidates are taken, the name
/// still lands somewhere: at the directory joined with the stem, `-dup` and
/// the extension.
pub proof fn lemma_all_numbers_taken(
    dir: Seq<char>,
    name: Seq<char>,
    taken: spec_fn(Seq<char>) -> bool,
)
    requires
        forall|j: nat| j <= MAX_SUFFIX ==> taken(#[trigger] candidate(dir, name, j)),
    ensures
        resolved(dir, name, taken, 0) == joined(dir, stem_of(name) + "-dup"@ + suffix_of(name)),
{
    lemma_resolution_is_total(dir, name, taken, 0);
    let n = landing(dir, name, taken, 0);
    if n <= MAX_SUFFIX {
        assert(taken(candidate(dir, name, n)));
    }
}

/// The search for a free name: which candidate is asked about now.
#[derive(Debug, PartialEq, Eq)]
pub struct ConflictSearch {
    pub dir: String,
    pub name: String,
    pub index: u32,
}

/// What follows an answer of the file system.
#[derive(Debug, PartialEq, Eq)]
pub enum Resolution {
    /// The name is settled: this is the path to use.
    Found(String),
    /// The candidate was taken: ask about the next one.
    Probe(ConflictSearch),
}

impl ConflictSearch {
    /// The search for a place for `name` in `dir`, at its first candidate:
    /// the name itself.
    pub fn new(dir: &str, name: &str) -> (s: ConflictSearch)
        ensures
            s.dir@ == dir@,
            s.name@ == name@,
            s.index == 0,
    {
        ConflictSearch { dir: owned(dir), name: owned(name), index: 0 }
    }

    /// The path of the `k`-th candidate.
    fn path_of(&self, k: u32) -> (r: String)
        ensures
            r@ == candidate(self.dir@, self.name@, k as nat),
    {
        if k == 0 {
            return crate::paths::join(self.dir.as_str(), self.name.as_str());
        }
        let stem = match file_stem(self.name.as_str()) {
            Some(s) => s,
            None => String::new(),
        };
        let suffix = match dotted_extension(self.name.as_str()) {
            Some(e) => e,
            None => String::new(),
        };
        let name = marked_name(stem.as_str(), suffix.as_str(), k);
        crate::paths::join(self.dir.as_str(), name.as_str())
    }

    /// The path to ask the file system about.
    pub fn candidate(&self) -> (r: String)
        ensures
            r@ == candidate(self.dir@, self.name@, self.index as nat),
    {
        self.path_of(self.index)
    }

    /// Takes the answer for the current candidate: whether something exists
    /// at its path. A free candidate is the result. A taken one leads to the
    /// next, and past the last number to the `-dup` name, which is used
    /// without asking.
    pub fn answer(self, exists: bool) -> (r: Resolution)
        ensures
            match r {
                Resolution::Found(path) => if !exists {
                    path@ == candidate(self.dir@, self.name@, self.index as nat)
                } else {
                    self.index >= MAX_SUFFIX && path@ == candidate(
                        self.dir@,
                        self.name@,
                        (MAX_SUFFIX + 1) as nat,
                    )
                },
                Resolution::Probe(next) => exists && self.index < MAX_SUFFIX && next.dir@
                    == self.dir@ && next.name@ == self.name@ && next.index == self.index + 1,
            },
    {
        if !exists {
            Resolution::Found(self.candidate())
        } else if self.index < MAX_SUFFIX {
            Resolution::Probe(
                ConflictSearch { dir: self.dir, name: self.name, index: self.index + 1 },
            )
        } else {
            Resolution::Found(self.path_of(MAX_SUFFIX + 1))
        }
    }
}

/// A search that is answered by one fixed state of the file system arrives
/// where `resolved` says: each answer either settles on the resolved path or
/// leads to a search with the same resolution.
pub proof fn lemma_search_follows_resolution(
    dir: Seq<char>,
    name: Seq<char>,
    taken: spec_fn(Seq<char>) -> bool,
    index: nat,
)
    requires
        index <= MAX_SUFFIX,
    ensures
        !taken(candidate(dir, name, index)) ==> resolved(dir, name, taken, index) == candidate(
            dir,
            name,
            index,
        ),
        taken(candidate(dir, name, index)) && index < MAX_SUFFIX ==> resolved(
            dir,
            name,
            taken,
            index,
        ) == resolved(dir, name, taken, index + 1),
        taken(candidate(dir, name, index)) && index == MAX_SUFFIX ==> resolved(
            dir,
            name,
            taken,
            index,
        ) == candidate(dir, name, (MAX_SUFFIX + 1) as nat),
{
    if taken(candidate(dir, name, index)) && index == MAX_SUFFIX {
        assert(resolved(dir, name, taken, index + 1) == candidate(dir, name, index + 1));
    }
}

/// Whether `path` is among `taken`.
fn is_taken(taken: &Vec<String>, path: &str) -> (r: bool)
    ensures
        r == strings(taken@).contains(path@),
{
    let mut i: usize = 0;
    while i < taken.len()
        invariant
            i <= taken.len(),
            forall|k: int| 0 <= k < i ==> strings(taken@)[k] != path@,
        decreases taken.len() - i,
    {
        if same_str(taken[i].as_str(), path) {
            assert(strings(taken@)[i as int] == path@);
            return true;
        }
        i += 1;
    }
    false
}

/// The path that `name` lands at in `dir` when exactly the paths in `taken`
/// are occupied.
pub fn resolve_conflict(dir: &str, name: &str, taken: &Vec<String>) -> (r: String)
    ensures
        r@ == resolved(dir@, name@, |p: Seq<char>| strings(taken@).contains(p), 0),
{
    let ghost occupied = |p: Seq<char>| strings(taken@).contains(p);
    let mut search = ConflictSearch::new(dir, name);
    loop
        invariant
            search.dir@ == dir@,
            search.name@ == name@,
            search.index <= MAX_SUFFIX,
            occupied == (|p: Seq<char>| strings(taken@).contains(p)),
            resolved(dir@, name@, occupied, 0) == resolved(
                dir@,
                name@,
                occupied,
                search.index as nat,
            ),
        decreases MAX_SUFFIX - search.index,
    {
        let path = search.candidate();
        let exists = is_taken(taken, path.as_str());
        proof {
            lemma_search_follows_resolution(dir@, name@, occupied, search.index as nat);
        }
        match search.answer(exists) {
            Resolution::Found(found) => {
                return found;
            },
            Resolution::Probe(next) => {
                search = next;
            },
        }
    }
}

/// One thing to do to the file system.
#[derive(Debug, PartialEq, Eq)]
pub enum FileAction {
    /// Rename `from` to `to`, atomically.
    Rename { from: String, to: String },
    /// Copy the content of `from` to `to`.
    Copy { from: String, to: String },
    /// Delete the file at `path`.
    Remove { path: String },
}

/// The view of an action.
pub enum FileActionView {
    Rename { from: Seq<char>, to: Seq<char> },
    Copy { from: Seq<char>, to: Seq<char> },
    Remove { path: Seq<char> },
}

impl View for FileAction {
    type V = FileActionView;

    open spec fn view(&self) -> FileActionView {
        match self {
            FileAction::Rename { from, to } => FileActionView::Rename { from: from@, to: to@ },
            FileAction::Copy { from, to } => FileActionView::Copy { from: from@, to: to@ },
            FileAction::Remove { path } => FileActionView::Remove { path: path@ },
        }
    }
}

/// How far a move has come.
#[derive(Clone, Copy, Debug, PartialEq, Eq, Structural)]
pub enum MoveStage {
    /// The atomic rename is being tried.
    Renaming,
    /// The rename failed; the content is being copied.
    Copying,
    /// The copy stands; the source is being deleted.
    Removing,
}

/// A move of a file from one path to another: an atomic rename, and where
/// that fails (as it does across file systems) a copy and then the deletion
/// of the source.
#[derive(Debug, PartialEq, Eq)]
pub struct Move {
    pub from: String,
    pub to: String,
    pub stage: MoveStage,
}

/// What follows the result of an action of a move.
#[derive(Debug, PartialEq, Eq)]
pub enum MoveStep {
    /// The file is at its new path, and no longer at the old one.
    Moved,
    /// Do this next.
    Next(Move),
    /// The move failed. If the copy failed, nothing has changed. If the
    /// deletion failed, the file stands at both paths: data is doubled, not
    /// lost.
    Failed(String),
}

/// The action that a stage of a move calls for.
pub open spec fn action_of(from: Seq<char>, to: Seq<char>, stage: MoveStage) -> FileActionView {
    match stage {
        MoveStage::Renaming => FileActionView::Rename { from, to },
        MoveStage::Copying => FileActionView::Copy { from, to },
        MoveStage::Removing => FileActionView::Remove { path: from },
    }
}

impl Move {
    /// The move of `from` to `to`, at its first action.
    pub fn new(from: &str, to: &str) -> (m: Move)
        ensures
            m.from@ == from@,
            m.to@ == to@,
            m.stage == MoveStage::Renaming,
    {
        Move { from: owned(from), to: owned(to), stage: MoveStage::Renaming }
    }

    /// The action to perform now.
    pub fn action(&self) -> (a: FileAction)
        ensures
            a@ == action_of(self.from@, self.to@, self.stage),
    {
        match self.stage {
            MoveStage::Renaming => FileAction::Rename {
                from: self.from.clone(),
                to: self.to.clone(),
            },
            MoveStage::Copying => FileAction::Copy { from: self.from.clone(), to: self.to.clone() },
            MoveStage::Removing => FileAction::Remove { path: self.from.clone() },
        }
    }

    /// Takes the result of the action: nothing if it succeeded, else what
    /// the file system reported. A rename that succeeds ends the move; one
    /// that fails leads to the copy. A copy that succeeds leads to the
    /// deletion of the source; one that fails ends the move in failure, as
    /// does a deletion that fails.
    pub fn advance(self, failure: Option<String>) -> (r: MoveStep)
        ensures
            match r {
                MoveStep::Moved => failure is None && (self.stage == MoveStage::Renaming
                    || self.stage == MoveStage::Removing),
                MoveStep::Next(m) => m.from@ == self.from@ && m.to@ == self.to@ && ((self.stage
                    == MoveStage::Renaming && failure is Some && m.stage == MoveStage::Copying)
                    || (self.stage == MoveStage::Copying && failure is None && m.stage
                    == MoveStage::Removing)),
                MoveStep::Failed(e) => failure is Some && e@ == failure->0@ && self.stage
                    != MoveStage::Renaming,
            },
    {
        match (self.stage, failure) {
            (MoveStage::Renaming, None) => MoveStep::Moved,
            (MoveStage::Renaming, Some(_)) => MoveStep::Next(
                Move { from: self.from, to: self.to, stage: MoveStage::Copying },
            ),
            (MoveStage::Copying, None) => MoveStep::Next(
                Move { from: self.from, to: self.to, stage: MoveStage::Removing },
            ),
            (MoveStage::Copying, Some(e)) => MoveStep::Failed(e),
            (MoveStage::Removing, None) => MoveStep::Moved,
            (MoveStage::Removing, Some(e)) => MoveStep::Failed(e),
        }
    }
}

/// One rename to apply: the file at `path` is to be called `new_name`.
#[derive(Clone, Debug, PartialEq, Eq)]
pub struct RenameTask {
    pub path: String,
    pub new_name: String,
}

/// What became of a task: the name that the file bears now, or why it was
/// not renamed. Exactly one of the two is there.
#[derive(Clone, Debug, PartialEq, Eq)]
pub struct RenameResult {
    pub path: String,
    pub new_name: Option<String>,
    pub error: Option<String>,
}

/// A file found in a folder.
#[derive(Clone, Debug, PartialEq, Eq)]
pub struct FileInfo {
    pub path: String,
    pub name: String,
}

/// Why a task was not applied.
#[derive(Clone, Copy, Debug, PartialEq, Eq, Structural)]
pub enum RenameFault {
    /// Nothing stands at the task's path. Detail: the path.
    SourceMissing,
    /// The path has no parent directory.
    NoParent,
    /// The file system refused the rename. Detail: its words.
    Refused,
}

/// A task that was not applied.
#[derive(Debug, PartialEq, Eq)]
pub struct RenameError {
    pub kind: RenameFault,
    pub detail: String,
}

impl View for RenameError {
    type V = (RenameFault, Seq<char>);

    open spec fn view(&self) -> (RenameFault, Seq<char>) {
        (self.kind, self.detail@)
    }
}

/// The fixed text that the message of a failed rename starts with.
pub open spec fn rename_prefix(kind: RenameFault) -> Seq<char> {
    match kind {
        RenameFault::SourceMissing => "源文件不存在: "@,
        RenameFault::NoParent => "无法获取父目录"@,
        RenameFault::Refused => ""@,
    }
}

impl RenameError {
    /// The message for a user: the kind's text, then the detail.
    pub fn message(&self) -> (m: String)
        ensures
            m@ == rename_prefix(self.kind) + self.detail@,
    {
        let prefix = match self.kind {
            RenameFault::SourceMissing => "源文件不存在: ",
            RenameFault::NoParent => "无法获取父目录",
            RenameFault::Refused => "",
        };
        let mut out = chars_of(prefix);
        push_str(&mut out, self.detail.as_str());
        string_of(&out)
    }
}

/// The view of an optional search or error.
pub open spec fn begun_view(r: Result<ConflictSearch, RenameError>) -> Result<
    (Seq<char>, Seq<char>, nat),
    (RenameFault, Seq<char>),
> {
    match r {
        Ok(s) => Ok((s.dir@, s.name@, s.index as nat)),
        Err(e) => Err(e@),
    }
}

/// How a task begins, given whether its file exists: a file that is
/// missing, or a path without a parent, ends the task; else the search for a
/// free name begins in the file's own directory.
pub open spec fn begun(path: Seq<char>, new_name: Seq<char>, exists: bool) -> Result<
    (Seq<char>, Seq<char>, nat),
    (RenameFault, Seq<char>),
> {
    if !exists {
        Err((RenameFault::SourceMissing, path))
    } else {
        match parent_of(path) {
            None => Err((RenameFault::NoParent, Seq::empty())),
            Some(dir) => Ok((dir, new_name, 0)),
        }
    }
}

/// Begins a task, once the caller has asked whether the file at the task's
/// path exists.
pub fn begin_rename(task: &RenameTask, exists: bool) -> (r: Result<ConflictSearch, RenameError>)
    ensures
        begun_view(r) == begun(task.path@, task.new_name@, exists),
{
    if !exists {
        return Err(RenameError { kind: RenameFault::SourceMissing, detail: task.path.clone() });
    }
    match parent(task.path.as_str()) {
        None => Err(RenameError { kind: RenameFault::NoParent, detail: String::new() }),
        Some(dir) => Ok(ConflictSearch::new(dir.as_str(), task.new_name.as_str())),
    }
}

/// The name under which a file at `path` is listed; empty where the path
/// has none.
pub fn final_name(path: &str) -> (r: String)
    ensures
        r@ == name_of(path@),
{
    match file_name(path) {
        Some(n) => n,
        None => String::new(),
    }
}

/// What became of a task whose file was to land at `target`, given what the
/// rename reported: nothing if it succeeded.
pub fn end_rename(target: &str, failure: Option<String>) -> (r: Result<String, RenameError>)
    ensures
        match r {
            Ok(name) => failure is None && name@ == name_of(target@),
            Err(e) => failure is Some && e@ == (RenameFault::Refused, failure->0@),
        },
{
    match failure {
        None => Ok(final_name(target)),
        Some(e) => Err(RenameError { kind: RenameFault::Refused, detail: e }),
    }
}

/// The view of a result.
pub struct RenameResultView {
    pub path: Seq<char>,
    pub new_name: Option<Seq<char>>,
    pub error: Option<Seq<char>>,
}

impl View for RenameResult {
    type V = RenameResultView;

    open spec fn view(&self) -> RenameResultView {
        RenameResultView {
            path: self.path@,
            new_name: opt_text(self.new_name),
            error: opt_text(self.error),
        }
    }
}

/// The result of a task at `path`, from its outcome: the final name, or the
/// message of the error.
pub open spec fn result_of(path: Seq<char>, outcome: Result<Seq<char>, Seq<char>>) -> RenameResultView {
    match outcome {
        Ok(name) => RenameResultView { path, new_name: Some(name), error: None },
        Err(message) => RenameResultView { path, new_name: None, error: Some(message) },
    }
}

/// The view of an outcome.
pub open spec fn outcome_view(o: Result<String, String>) -> Result<Seq<char>, Seq<char>> {
    match o {
        Ok(s) => Ok(s@),
        Err(e) => Err(e@),
    }
}

/// The result of one task, from its outcome.
pub fn rename_result(task: &RenameTask, outcome: &Result<String, String>) -> (r: RenameResult)
    ensures
        r@ == result_of(task.path@, outcome_view(*outcome)),
{
    match outcome {
        Ok(name) => RenameResult {
            path: task.path.clone(),
            new_name: Some(name.clone()),
            error: None,
        },
        Err(message) => RenameResult {
            path: task.path.clone(),
            new_name: None,
            error: Some(message.clone()),
        },
    }
}

/// The results of a batch, from the outcome of each task: one result for
/// each task, in the order of the tasks, each made from its own task and its
/// own outcome and from nothing else.
pub fn rename_files(tasks: &Vec<RenameTask>, outcomes: &Vec<Result<String, String>>) -> (r: Vec<
    RenameResult,
>)
    requires
        tasks@.len() == outcomes@.len(),
    ensures
        r@.len() == tasks@.len(),
        forall|i: int|
            0 <= i < tasks@.len() ==> (#[trigger] r@[i])@ == result_of(
                tasks@[i].path@,
                outcome_view(outcomes@[i]),
            ),
{
    let mut results: Vec<RenameResult> = Vec::new();
    let mut i: usize = 0;
    while i < tasks.len()
        invariant
            i <= tasks.len(),
            tasks@.len() == outcomes@.len(),
            results@.len() == i,
            forall|k: int|
                0 <= k < i ==> (#[trigger] results@[k])@ == result_of(
                    tasks@[k].path@,
                    outcome_view(outcomes@[k]),
                ),
        decreases tasks.len() - i,
    {
        results.push(rename_result(&tasks[i], &outcomes[i]));
        i += 1;
    }
    results
}

} // verus!
