//! Where the client keeps its files.
use crate::scan;
use crate::text;
use crate::text::cat;
use vstd::prelude::*;

verus! {

/// A path: a folder that the system tells, and the names below it.
pub struct LocalPath {
    pub base: String,
    pub names: Vec<String>,
}

/// What [`LocalPath`] holds.
#[verifier::ext_equal]
pub struct PathView {
    pub base: Seq<char>,
    pub names: Seq<Seq<char>>,
}

impl View for LocalPath {
    type V = PathView;

    open spec fn view(&self) -> PathView {
        PathView { base: self.base@, names: text::texts(self.names@) }
    }
}

impl PathView {
    /// The path of that name below this one.
    pub open spec fn below(self, name: Seq<char>) -> PathView {
        PathView { base: self.base, names: self.names.push(name) }
    }
}

fn copy_names(v: &Vec<String>) -> (r: Vec<String>)
    ensures
        text::texts(r@) == text::texts(v@),
{
    let mut r: Vec<String> = Vec::new();
    let mut i: usize = 0;
    while i < v.len()
        invariant
            i <= v@.len(),
            r@.len() == i,
            forall|j: int| 0 <= j < i ==> (#[trigger] r@[j])@ == v@[j]@,
        decreases v@.len() - i,
    {
        r.push(v[i].clone());
        i = i + 1;
    }
    assert(text::texts(r@) =~= text::texts(v@));
    r
}

impl LocalPath {
    /// A folder that the system tells.
    pub fn at(base: &str) -> (r: Self)
        ensures
            r@ == (PathView { base: base@, names: Seq::empty() }),
    {
        let r = LocalPath { base: base.to_owned(), names: Vec::new() };
        assert(r@.names =~= Seq::empty());
        r
    }

    /// The same path once more.
    pub fn copy(&self) -> (r: Self)
        ensures
            r@ == self@,
    {
        LocalPath { base: self.base.clone(), names: copy_names(&self.names) }
    }

    /// The path of that name below this one.
    pub fn join(&self, name: &str) -> (r: Self)
        ensures
            r@ == self@.below(name@),
    {
        let mut r = self.copy();
        r.names.push(name.to_owned());
        assert(r@.names =~= self@.names.push(name@));
        r
    }
}

/// What is kept secret.
#[derive(Clone, Copy, PartialEq, Eq, Structural)]
pub enum SecretKey {
    ApiToken,
    RefreshToken,
    WorkerToken,
    DiscordWebhook,
}

impl SecretKey {
    /// The name of the file of a secret, without its extension.
    pub open spec fn stem(self) -> Seq<char> {
        match self {
            SecretKey::ApiToken => "api_token"@,
            SecretKey::RefreshToken => "refresh_token"@,
            SecretKey::WorkerToken => "worker_token"@,
            SecretKey::DiscordWebhook => "discord_webhook"@,
        }
    }

    /// The name of the file of a secret, without its extension.
    pub fn file_stem(self) -> (r: &'static str)
        ensures
            r@ == self.stem(),
    {
        match self {
            SecretKey::ApiToken => "api_token",
            SecretKey::RefreshToken => "refresh_token",
            SecretKey::WorkerToken => "worker_token",
            SecretKey::DiscordWebhook => "discord_webhook",
        }
    }
}

/// The files and folders of the client.
pub struct AppPaths {
    pub config_dir: LocalPath,
    pub data_dir: LocalPath,
    pub bin_dir: LocalPath,
    pub logs_dir: LocalPath,
    pub config_path: LocalPath,
    pub history_path: LocalPath,
    pub beatmap_cache_path: LocalPath,
    pub secrets_dir: LocalPath,
}

impl AppPaths {
    /// The files and folders of a client whose settings and data lie in these two folders.
    pub fn new(config_dir: LocalPath, data_dir: LocalPath) -> (r: Self)
        ensures
            r.config_dir@ == config_dir@,
            r.data_dir@ == data_dir@,
            r.bin_dir@ == data_dir@.below("bin"@),
            r.logs_dir@ == data_dir@.below("logs"@),
            r.config_path@ == config_dir@.below("config.json"@),
            r.history_path@ == data_dir@.below("history.json"@),
            r.beatmap_cache_path@ == data_dir@.below("beatmap-cache.json"@),
            r.secrets_dir@ == config_dir@.below("secrets"@),
    {
        AppPaths {
            bin_dir: data_dir.join("bin"),
            logs_dir: data_dir.join("logs"),
            secrets_dir: config_dir.join("secrets"),
            config_path: config_dir.join("config.json"),
            history_path: data_dir.join("history.json"),
            beatmap_cache_path: data_dir.join("beatmap-cache.json"),
            config_dir,
            data_dir,
        }
    }

    /// The file of a secret.
    pub fn secret_path(&self, key: SecretKey) -> (r: LocalPath)
        ensures
            r@ == self.secrets_dir@.below(key.stem() + ".dpapi"@),
    {
        self.secrets_dir.join(cat(key.file_stem(), ".dpapi").as_str())
    }
}

/// Each secret has a file of its own.
pub proof fn secrets_have_files_of_their_own(a: SecretKey, b: SecretKey)
    requires
        a != b,
    ensures
        a.stem() + ".dpapi"@ != b.stem() + ".dpapi"@,
{
    reveal_strlit("api_token");
    reveal_strlit("refresh_token");
    reveal_strlit("worker_token");
    reveal_strlit("discord_webhook");
    let x = a.stem() + ".dpapi"@;
    let y = b.stem() + ".dpapi"@;
    assert(x[0] == a.stem()[0]);
    assert(y[0] == b.stem()[0]);
}

// ---------------------------------------------------------------------------------------------
// Names in paths
// ---------------------------------------------------------------------------------------------

/// What stands after the last slash of a path.
pub open spec fn last_name(path: Seq<char>) -> Seq<char> {
    match scan::after_last(path, '/') {
        Some(n) => n,
        None => path,
    }
}

/// What stands after the last separator of a path, be it a slash or a backslash.
pub open spec fn bare_name(path: Seq<char>) -> Seq<char> {
    match scan::after_last(last_name(path), '\\') {
        Some(n) => n,
        None => last_name(path),
    }
}

/// A slash or a backslash.
pub open spec fn separates(c: char) -> bool {
    c == '/' || c == '\\'
}

/// A path that ends with the name of a file wherever backslashes separate names and wherever they do
/// not: it does not end with a separator or with one of the two names that stand for folders, it does
/// not begin with two separators, and a drive in front of it is followed by a separator somewhere.
pub open spec fn names_file(path: Seq<char>) -> bool {
    &&& bare_name(path).len() > 0
    &&& bare_name(path) != "."@
    &&& bare_name(path) != ".."@
    &&& path.len() > 1 ==> !(separates(path[0]) && separates(path[1]))
    &&& path.len() > 1 && path[1] == ':' ==> bare_name(path).len() < path.len()
}

/// What the name of a file holds after its last dot, unless that dot is its first character.
pub open spec fn name_extension(name: Seq<char>) -> Option<Seq<char>> {
    match scan::after_last(name, '.') {
        Some(e) => if e.len() + 1 < name.len() {
            Some(e)
        } else {
            None
        },
        None => None,
    }
}

/// What a system may take for the last name of a path. Systems differ only where there is a backslash,
/// which is a separator for some of them.
pub open spec fn may_name(path: Seq<char>, name: Option<Seq<char>>) -> bool {
    &&& name matches Some(n) ==> scan::has(path, n)
    &&& path == "."@ || path == ".."@ ==> name is None
    &&& names_file(path) ==> name == Some(bare_name(path)) || (scan::has_char(path, '\\') && name
        == Some(last_name(path)))
}

/// What a system may take for the extension of a path. Systems differ only where there is a backslash
/// and no extension behind it.
pub open spec fn may_extend(path: Seq<char>, extension: Option<Seq<char>>) -> bool {
    &&& extension matches Some(e) ==> scan::has(path, "."@ + e) && !scan::has_char(e, '.')
    &&& names_file(path) ==> match name_extension(bare_name(path)) {
        Some(e) => extension == Some(e),
        None => extension is None || (scan::has_char(path, '\\') && extension == name_extension(
            last_name(path),
        )),
    }
}

/// `std::path::Path::file_name`: the last name of a path. Whether a backslash separates names depends
/// on the system. Of every outcome it is said that the name stands in the path, and that the two names
/// of folders are none of a file; of a path that ends with the name of a file it is said that the name
/// is what stands after its last separator, where that is a slash or, for some systems, a backslash.
#[verifier::external_body]
pub(crate) fn path_file_name(path: &str) -> (r: Option<String>)
    ensures
        may_name(path@, text::opt_text(r)),
{
    std::path::Path::new(path).file_name().and_then(|n| n.to_str()).map(|n| n.to_string())
}

/// `std::path::Path::extension`: what the last name of a path holds after its last dot, unless the
/// name begins with that dot. Whether a backslash separates names depends on the system. Of every
/// outcome it is said that a dot and the extension stand in the path and that the extension holds no
/// dot; of a path that ends with the name of a file it is said which one it is, but for a name without
/// an extension behind a backslash.
#[verifier::external_body]
pub(crate) fn path_extension(path: &str) -> (r: Option<String>)
    ensures
        may_extend(path@, text::opt_text(r)),
{
    std::path::Path::new(path).extension().and_then(|e| e.to_str()).map(|e| e.to_string())
}

/// What a text does not hold, nothing stands after.
proof fn nothing_after(s: Seq<char>, k: char)
    requires
        !scan::has_char(s, k),
    ensures
        scan::after_last(s, k) is None,
    decreases s.len(),
{
    if s.len() > 0 {
        assert(s.last() != k);
        assert forall|i: int| 0 <= i < s.drop_last().len() implies s.drop_last()[i] != k by {
            assert(s.drop_last()[i] == s[i]);
        }
        nothing_after(s.drop_last(), k);
    }
}

/// A path without a separator is its own last name, for every system.
pub proof fn plain_names_are_last(path: Seq<char>)
    requires
        !scan::has_char(path, '/'),
        !scan::has_char(path, '\\'),
    ensures
        last_name(path) == path,
        bare_name(path) == path,
{
    nothing_after(path, '/');
    nothing_after(path, '\\');
}

} // verus!
