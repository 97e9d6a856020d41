//! Paths as sequences of components, the form in which `std::path` compares
//! them, and the path rules that decide where chart files may go.

use vstd::prelude::*;
use crate::names;
use crate::text;

verus! {

/// One component of a path, as `std::path::Component` reports it.
pub enum PathPart {
    /// A Windows prefix such as `C:`.
    Prefix(String),
    /// The root separator.
    RootDir,
    /// `.` at the start of a relative path.
    CurDir,
    /// `..`.
    ParentDir,
    /// An ordinary name.
    Normal(String),
}

/// The abstract value of a path component.
pub enum PartView {
    Prefix(Seq<char>),
    RootDir,
    CurDir,
    ParentDir,
    Normal(Seq<char>),
}

impl View for PathPart {
    type V = PartView;

    open spec fn view(&self) -> PartView {
        match self {
            PathPart::Prefix(s) => PartView::Prefix(s@),
            PathPart::RootDir => PartView::RootDir,
            PathPart::CurDir => PartView::CurDir,
            PathPart::ParentDir => PartView::ParentDir,
            PathPart::Normal(s) => PartView::Normal(s@),
        }
    }
}

/// A path, held as its components.
pub struct ChartPath {
    pub parts: Vec<PathPart>,
}

impl View for ChartPath {
    type V = Seq<PartView>;

    open spec fn view(&self) -> Seq<PartView> {
        self.parts@.map_values(|p: PathPart| p@)
    }
}

/// `Path::file_name`: the last component when it is an ordinary name.
pub open spec fn file_name_of(p: Seq<PartView>) -> Option<Seq<char>> {
    if p.len() > 0 {
        match p.last() {
            PartView::Normal(n) => Some(n),
            _ => None,
        }
    } else {
        None
    }
}

/// `Path::parent`: the path without its last component, when that
/// component is a name, `.` or `..`.
pub open spec fn parent_of(p: Seq<PartView>) -> Option<Seq<PartView>> {
    if p.len() > 0 {
        match p.last() {
            PartView::Normal(_) | PartView::CurDir | PartView::ParentDir => Some(p.drop_last()),
            _ => None,
        }
    } else {
        None
    }
}

/// The index of the last `c` in `s`, or -1.
pub open spec fn last_index_of(s: Seq<char>, c: char) -> int
    decreases s.len(),
{
    if s.len() == 0 {
        -1
    } else if s.last() == c {
        s.len() - 1
    } else {
        last_index_of(s.drop_last(), c)
    }
}

/// The extension of a file name, as `Path::extension` splits it: the text
/// after the last dot, unless the name is `..`, has no dot, or its only dot
/// leads it.
pub open spec fn extension_of_name(name: Seq<char>) -> Option<Seq<char>> {
    let k = last_index_of(name, '.');
    if name == seq!['.', '.'] || k <= 0 {
        None
    } else {
        Some(name.skip(k + 1))
    }
}

/// The lowercase extension of a path, empty when it has none.
pub open spec fn lower_extension(p: Seq<PartView>) -> Seq<char> {
    match file_name_of(p) {
        Some(n) => match extension_of_name(n) {
            Some(e) => text::ascii_lower_seq(e),
            None => seq![],
        },
        None => seq![],
    }
}

/// Extensions of programs and scripts that are never installed.
pub open spec fn is_blocked_extension(e: Seq<char>) -> bool {
    ||| e == "bat"@
    ||| e == "cmd"@
    ||| e == "com"@
    ||| e == "dll"@
    ||| e == "exe"@
    ||| e == "lnk"@
    ||| e == "msi"@
    ||| e == "ps1"@
    ||| e == "scr"@
}

/// Extensions of archives, which are never installed inside a chart.
pub open spec fn is_archive_extension(e: Seq<char>) -> bool {
    e == "zip"@ || e == "7z"@ || e == "rar"@
}

/// A path that can be placed under the staging folder: not empty, and no
/// `..`, root or prefix component.
pub open spec fn is_safe_relative(p: Seq<PartView>) -> bool {
    &&& p.len() > 0
    &&& forall|i: int|
        0 <= i < p.len() ==> match #[trigger] p[i] {
            PartView::ParentDir | PartView::RootDir | PartView::Prefix(_) => false,
            _ => true,
        }
}

impl PathPart {
    pub fn clone_part(&self) -> (r: PathPart)
        ensures
            r@ == self@,
    {
        match self {
            PathPart::Prefix(s) => PathPart::Prefix(s.clone()),
            PathPart::RootDir => PathPart::RootDir,
            PathPart::CurDir => PathPart::CurDir,
            PathPart::ParentDir => PathPart::ParentDir,
            PathPart::Normal(s) => PathPart::Normal(s.clone()),
        }
    }

    pub fn same_as(&self, other: &PathPart) -> (r: bool)
        ensures
            r == (self@ == other@),
    {
        match (self, other) {
            (PathPart::Prefix(a), PathPart::Prefix(b)) => a.eq(b),
            (PathPart::RootDir, PathPart::RootDir) => true,
            (PathPart::CurDir, PathPart::CurDir) => true,
            (PathPart::ParentDir, PathPart::ParentDir) => true,
            (PathPart::Normal(a), PathPart::Normal(b)) => a.eq(b),
            _ => false,
        }
    }
}

impl ChartPath {
    pub fn from_parts(parts: Vec<PathPart>) -> (r: ChartPath)
        ensures
            r.parts == parts,
    {
        ChartPath { parts }
    }

    pub fn clone_path(&self) -> (r: ChartPath)
        ensures
            r@ == self@,
    {
        let mut out: Vec<PathPart> = Vec::new();
        let mut i: usize = 0;
        while i < self.parts.len()
            invariant
                i <= self.parts@.len(),
                out@.len() == i,
                forall|k: int| 0 <= k < i ==> (#[trigger] out@[k])@ == self.parts@[k]@,
            decreases self.parts@.len() - i,
        {
            out.push(self.parts[i].clone_part());
            i = i + 1;
        }
        let r = ChartPath { parts: out };
        assert(r@ =~= self@);
        r
    }

    /// `Path == Path`: the same components.
    pub fn same_path(&self, other: &ChartPath) -> (r: bool)
        ensures
            r == (self@ == other@),
    {
        if self.parts.len() != other.parts.len() {
            assert(self@.len() == self.parts@.len() && other@.len() == other.parts@.len());
            return false;
        }
        let mut i: usize = 0;
        while i < self.parts.len()
            invariant
                self.parts@.len() == other.parts@.len(),
                i <= self.parts@.len(),
                forall|k: int| 0 <= k < i ==> self@[k] == other@[k],
            decreases self.parts@.len() - i,
        {
            if !self.parts[i].same_as(&other.parts[i]) {
                assert(self@[i as int] == self.parts@[i as int]@);
                assert(other@[i as int] == other.parts@[i as int]@);
                return false;
            }
            i = i + 1;
        }
        assert(self@ =~= other@);
        true
    }

    /// `Path::file_name`.
    pub fn file_name(&self) -> (r: Option<String>)
        ensures
            match r {
                Some(s) => file_name_of(self@) == Some(s@),
                None => file_name_of(self@) is None,
            },
    {
        let n = self.parts.len();
        if n == 0 {
            return None;
        }
        match &self.parts[n - 1] {
            PathPart::Normal(s) => Some(s.clone()),
            _ => None,
        }
    }

    /// `Path::join` with a single ordinary name.
    pub fn join_name(&self, name: &str) -> (r: ChartPath)
        ensures
            r@ == self@.push(PartView::Normal(name@)),
    {
        let mut out = self.clone_path();
        out.parts.push(PathPart::Normal(text::string_from(&text::chars_of(name))));
        assert(out@ =~= self@.push(PartView::Normal(name@)));
        out
    }
}

fn last_dot(v: &Vec<char>) -> (r: Option<usize>)
    ensures
        match r {
            Some(k) => k == last_index_of(v@, '.') && k < v@.len(),
            None => last_index_of(v@, '.') == -1,
        },
{
    let mut i: usize = v.len();
    assert(v@.take(v@.len() as int) == v@);
    while i > 0
        invariant
            i <= v@.len(),
            last_index_of(v@, '.') == last_index_of(v@.take(i as int), '.'),
        decreases i,
    {
        assert(v@.take(i as int).drop_last() == v@.take(i - 1));
        if v[i - 1] == '.' {
            return Some(i - 1);
        }
        i = i - 1;
    }
    None
}

/// The lowercase extension of `path`, empty when it has none.
pub fn lowercase_extension(path: &ChartPath) -> (r: Vec<char>)
    ensures
        r@ == lower_extension(path@),
{
    match path.file_name() {
        None => Vec::new(),
        Some(name) => {
            let v = text::chars_of(name.as_str());
            proof {
                reveal_strlit("..");
            }
            let dots = text::chars_are(&v, "..");
            let n = v.len();
            match last_dot(&v) {
                Some(k) if !dots && k > 0 => {
                    let mut e: Vec<char> = Vec::new();
                    let mut i: usize = k + 1;
                    while i < v.len()
                        invariant
                            k + 1 <= i <= v@.len(),
                            e@ == v@.subrange(k + 1, i as int),
                        decreases v@.len() - i,
                    {
                        e.push(v[i]);
                        i = i + 1;
                        assert(e@ == v@.subrange(k + 1, i as int));
                    }
                    text::chars_to_ascii_lower(&e)
                },
                _ => {
                    proof {
                        assert(".."@ == seq!['.', '.']);
                    }
                    Vec::new()
                },
            }
        },
    }
}

/// Whether `path` names a program or script (by its extension, in any ASCII
/// case): such files are refused in chart archives.
pub fn contains_blocked_file(path: &ChartPath) -> (r: bool)
    ensures
        r == is_blocked_extension(lower_extension(path@)),
        r <==> (lower_extension(path@) == "bat"@ || lower_extension(path@) == "cmd"@ || lower_extension(
            path@,
        ) == "com"@ || lower_extension(path@) == "dll"@ || lower_extension(path@) == "exe"@
            || lower_extension(path@) == "lnk"@ || lower_extension(path@) == "msi"@ || lower_extension(
            path@,
        ) == "ps1"@ || lower_extension(path@) == "scr"@),
{
    let e = lowercase_extension(path);
    text::chars_are(&e, "bat") || text::chars_are(&e, "cmd") || text::chars_are(&e, "com")
        || text::chars_are(&e, "dll") || text::chars_are(&e, "exe") || text::chars_are(&e, "lnk")
        || text::chars_are(&e, "msi") || text::chars_are(&e, "ps1") || text::chars_are(&e, "scr")
}

/// Whether `path` names an archive (zip, 7z or rar, in any ASCII case):
/// archives inside a chart archive are refused.
pub fn is_nested_archive(path: &ChartPath) -> (r: bool)
    ensures
        r == is_archive_extension(lower_extension(path@)),
        r <==> (lower_extension(path@) == "zip"@ || lower_extension(path@) == "7z"@ || lower_extension(
            path@,
        ) == "rar"@),
{
    let e = lowercase_extension(path);
    text::chars_are(&e, "zip") || text::chars_are(&e, "7z") || text::chars_are(&e, "rar")
}

/// An archive entry's path, accepted only when it stays inside the folder it
/// is extracted to: not empty, and no `..`, root or prefix component.
pub fn safe_archive_path(path: &ChartPath) -> (r: Result<ChartPath, String>)
    ensures
        match r {
            Ok(p) => is_safe_relative(path@) && p@ == path@,
            Err(e) => !is_safe_relative(path@) && e@ == "the archive contains an unsafe file path."@,
        },
{
    let n = path.parts.len();
    let mut ok = n > 0;
    let mut i: usize = 0;
    while i < n
        invariant
            n == path.parts@.len() == path@.len(),
            i <= n,
            ok == (n > 0 && forall|k: int|
                0 <= k < i ==> match #[trigger] path@[k] {
                    PartView::ParentDir | PartView::RootDir | PartView::Prefix(_) => false,
                    _ => true,
                }),
        decreases n - i,
    {
        assert(path@[i as int] == path.parts@[i as int]@);
        match &path.parts[i] {
            PathPart::ParentDir | PathPart::RootDir | PathPart::Prefix(_) => {
                ok = false;
            },
            _ => {},
        }
        i = i + 1;
    }
    if ok {
        Ok(path.clone_path())
    } else {
        Err(text::string_from(&text::chars_of("the archive contains an unsafe file path.")))
    }
}

/// Whether `child` sits directly inside `parent` (`child.parent() == Some(parent)`).
pub fn is_direct_child(parent: &ChartPath, child: &ChartPath) -> (r: bool)
    ensures
        r == (parent_of(child@) == Some(parent@)),
{
    let n = child.parts.len();
    if n == 0 {
        return false;
    }
    assert(child@[n - 1] == child.parts@[n - 1]@);
    match &child.parts[n - 1] {
        PathPart::Normal(_) | PathPart::CurDir | PathPart::ParentDir => {},
        _ => {
            return false;
        },
    }
    if parent.parts.len() != n - 1 {
        assert(parent@.len() != child@.drop_last().len());
        return false;
    }
    let mut i: usize = 0;
    while i < n - 1
        invariant
            n == child.parts@.len() == child@.len(),
            parent.parts@.len() == parent@.len() == n - 1,
            i <= n - 1,
            forall|k: int| 0 <= k < i ==> parent@[k] == child@[k],
        decreases n - 1 - i,
    {
        assert(parent@[i as int] == parent.parts@[i as int]@);
        assert(child@[i as int] == child.parts@[i as int]@);
        if !parent.parts[i].same_as(&child.parts[i]) {
            assert(parent@[i as int] != child@.drop_last()[i as int]);
            return false;
        }
        i = i + 1;
    }
    assert(parent@ =~= child@.drop_last());
    true
}

/// The name for the folder that a chart archive installs into: the archive's
/// own root folder when it has one (`source` differs from `staging`), else
/// the sanitized title.
pub open spec fn install_folder_name_of(
    source: Seq<PartView>,
    staging: Seq<PartView>,
    title: Seq<char>,
) -> Seq<char> {
    if source != staging && file_name_of(source) is Some {
        names::sanitized(file_name_of(source)->0)
    } else {
        names::sanitized(text::trim_ws(title))
    }
}

/// The folder name under which an extracted chart is installed.
pub fn install_folder_name(
    source_path: &ChartPath,
    staging_path: &ChartPath,
    title: &str,
    _charter: &str,
) -> (r: String)
    ensures
        r@ == install_folder_name_of(source_path@, staging_path@, title@),
{
    if !source_path.same_path(staging_path) {
        if let Some(existing_name) = source_path.file_name() {
            return names::sanitize_folder_name(existing_name.as_str());
        }
    }
    names::generated_install_folder_name(title)
}

/// The app's private trash folder inside its local data folder.
pub fn trash_directory(local_data_dir: &ChartPath) -> (r: ChartPath)
    ensures
        r@ == local_data_dir@.push(PartView::Normal("Trash"@)),
{
    local_data_dir.join_name("Trash")
}

/// The app's folder of replaced chart versions inside its local data folder.
pub fn backup_directory(local_data_dir: &ChartPath) -> (r: ChartPath)
    ensures
        r@ == local_data_dir@.push(PartView::Normal("Backups"@)),
{
    local_data_dir.join_name("Backups")
}

/// The app's operation log inside its local data folder.
pub fn history_path(local_data_dir: &ChartPath) -> (r: ChartPath)
    ensures
        r@ == local_data_dir@.push(PartView::Normal("history.json"@)),
{
    local_data_dir.join_name("history.json")
}

/// The files never installed from an archive are exactly the programs and
/// scripts (bat, cmd, com, dll, exe, lnk, msi, ps1, scr) and the archives
/// (zip, 7z, rar), by lowercase extension.
pub proof fn lemma_refused_formats(e: Seq<char>)
    ensures
        is_blocked_extension(e) <==> (e == "bat"@ || e == "cmd"@ || e == "com"@ || e == "dll"@ || e
            == "exe"@ || e == "lnk"@ || e == "msi"@ || e == "ps1"@ || e == "scr"@),
        is_archive_extension(e) <==> (e == "zip"@ || e == "7z"@ || e == "rar"@),
{
}

} // verus!
