//! Releases of the renderer and of the client: which one is taken, and whether it is newer.
use crate::codec;
use crate::codec::sha256_hex;
use crate::error;
use crate::error::{AppError, AppResult, ErrorView};
use crate::paths;
use crate::paths::{path_file_name, AppPaths, LocalPath, PathView};
use crate::scan;
use crate::scan::{contains_char, ends_with, show};
use crate::text;
use crate::text::{
    ascii_space, blank, cat, cat3, cat5, chars_of, eq_ignore_case, lowercase, same_text, to_lower,
    trim, trim_start_of,
};
use crate::tools;
use crate::tools::is_sha256_text;
use vstd::prelude::*;

verus! {

/// A file of a release.
pub struct GitHubReleaseAsset {
    pub name: String,
    pub size: u64,
    pub browser_download_url: String,
}

/// A release.
pub struct GitHubRelease {
    pub tag_name: String,
    pub html_url: String,
    pub published_at: Option<String>,
    pub assets: Vec<GitHubReleaseAsset>,
}

// ---------------------------------------------------------------------------------------------
// Names of files
// ---------------------------------------------------------------------------------------------

/// A name without white space around it and without a separator of folders.
pub open spec fn is_plain_name(name: Seq<char>) -> bool {
    &&& name.len() > 0
    &&& text::trimmed(name) == name
    &&& !scan::has_char(name, '/')
    &&& !scan::has_char(name, '\\')
}

/// What may be said of whether a file is written under a name.
pub open spec fn may_be_safe(name: Seq<char>, safe: bool) -> bool {
    &&& safe ==> is_plain_name(name) && name != "."@ && name != ".."@
    &&& is_plain_name(name) && paths::names_file(name) ==> safe
}

/// Whether a file may be written under a name, given what the system takes for its last name.
pub fn judge_asset_name(asset_name: &str, file_name: Option<&str>) -> (r: bool)
    ensures
        r == (is_plain_name(asset_name@) && text::opt_str(file_name) == Some(asset_name@)),
{
    let trimmed = trim(asset_name);
    if trimmed.as_str().is_empty() || !same_text(trimmed.as_str(), asset_name) {
        return false;
    }
    if contains_char(asset_name, '/') || contains_char(asset_name, '\\') {
        return false;
    }
    match file_name {
        Some(n) => same_text(n, asset_name),
        None => false,
    }
}

/// Whether a file may be written under a name: it is one name for the system, whatever that takes for
/// a separator. A plain name is refused only where it is that of a folder or begins with a drive.
pub fn is_safe_asset_name(asset_name: &str) -> (r: bool)
    ensures
        may_be_safe(asset_name@, r),
{
    let file_name = path_file_name(asset_name);
    proof {
        if is_plain_name(asset_name@) {
            paths::plain_names_are_last(asset_name@);
        }
    }
    judge_asset_name(asset_name, text::borrow_text(&file_name))
}

// ---------------------------------------------------------------------------------------------
// The renderer
// ---------------------------------------------------------------------------------------------

/// What is told of the file of a renderer for one system.
pub struct RendererManifestAsset {
    pub platform: String,
    pub asset_name: String,
    pub size_bytes: u64,
    pub sha256: String,
}

/// What a release of the renderer tells of itself, in the form with a list of files or in the older
/// form with one file.
pub struct RendererReleaseManifest {
    pub version: String,
    pub renderer_commit: String,
    pub assets: Vec<RendererManifestAsset>,
    pub platform: Option<String>,
    pub asset_name: Option<String>,
    pub size_bytes: Option<u64>,
    pub sha256: Option<String>,
}

/// What is told of the renderer that is taken.
pub struct RendererManifest {
    pub version: String,
    pub renderer_commit: String,
    pub platform: String,
    pub asset_name: String,
    pub size_bytes: u64,
    pub sha256: String,
}

/// What [`RendererManifest`] holds.
pub struct RendererView {
    pub version: Seq<char>,
    pub renderer_commit: Seq<char>,
    pub platform: Seq<char>,
    pub asset_name: Seq<char>,
    pub size_bytes: u64,
    pub sha256: Seq<char>,
}

impl View for RendererManifest {
    type V = RendererView;

    open spec fn view(&self) -> RendererView {
        RendererView {
            version: self.version@,
            renderer_commit: self.renderer_commit@,
            platform: self.platform@,
            asset_name: self.asset_name@,
            size_bytes: self.size_bytes,
            sha256: self.sha256@,
        }
    }
}

/// The first file for Windows from that place on.
pub open spec fn windows_place(assets: Seq<RendererManifestAsset>, from: int) -> Option<int>
    decreases assets.len() - from,
{
    if from < 0 || from >= assets.len() {
        None
    } else if text::same_ignoring_case(assets[from].platform@, "windows-x64"@) {
        Some(from)
    } else {
        windows_place(assets, from + 1)
    }
}

/// A text, or the empty one.
pub open spec fn or_empty(o: Option<String>) -> Seq<char> {
    match o {
        Some(s) => s@,
        None => Seq::empty(),
    }
}

/// The renderer for Windows that a release tells.
pub open spec fn windows_manifest(tag: Seq<char>, m: RendererReleaseManifest) -> Result<
    RendererView,
    ErrorView,
> {
    if m.assets@.len() > 0 {
        match windows_place(m.assets@, 0) {
            None => Err(
                ErrorView::Binary(
                    "Miru renderer release "@ + tag + " has no Windows renderer asset"@,
                ),
            ),
            Some(i) => Ok(
                RendererView {
                    version: m.version@,
                    renderer_commit: m.renderer_commit@,
                    platform: m.assets@[i].platform@,
                    asset_name: m.assets@[i].asset_name@,
                    size_bytes: m.assets@[i].size_bytes,
                    sha256: m.assets@[i].sha256@,
                },
            ),
        }
    } else {
        match m.platform {
            None => Err(
                ErrorView::Binary(
                    "Miru renderer release "@ + tag + " manifest has no platform assets"@,
                ),
            ),
            Some(p) => Ok(
                RendererView {
                    version: m.version@,
                    renderer_commit: m.renderer_commit@,
                    platform: p@,
                    asset_name: or_empty(m.asset_name),
                    size_bytes: match m.size_bytes {
                        Some(n) => n,
                        None => 0,
                    },
                    sha256: or_empty(m.sha256),
                },
            ),
        }
    }
}

fn or_nothing(o: Option<String>) -> (r: String)
    ensures
        r@ == or_empty(o),
{
    match o {
        Some(s) => s,
        None => String::new(),
    }
}

fn find_windows(assets: &Vec<RendererManifestAsset>) -> (r: Option<usize>)
    ensures
        match r {
            Some(i) => windows_place(assets@, 0) == Some(i as int) && i < assets@.len(),
            None => windows_place(assets@, 0) is None,
        },
{
    let mut i: usize = 0;
    while i < assets.len()
        invariant
            i <= assets@.len(),
            windows_place(assets@, 0) == windows_place(assets@, i as int),
        decreases assets@.len() - i,
    {
        if eq_ignore_case(assets[i].platform.as_str(), "windows-x64") {
            return Some(i);
        }
        i = i + 1;
    }
    None
}

/// The renderer for Windows that a release tells.
pub fn select_windows_manifest(tag_name: &str, manifest: RendererReleaseManifest) -> (r: AppResult<
    RendererManifest,
>)
    ensures
        error::outcome(r) == windows_manifest(tag_name@, manifest),
{
    if manifest.assets.len() > 0 {
        return match find_windows(&manifest.assets) {
            None => Err(
                AppError::Binary(
                    cat3("Miru renderer release ", tag_name, " has no Windows renderer asset"),
                ),
            ),
            Some(i) => {
                let a = &manifest.assets[i];
                Ok(
                    RendererManifest {
                        platform: a.platform.clone(),
                        asset_name: a.asset_name.clone(),
                        size_bytes: a.size_bytes,
                        sha256: a.sha256.clone(),
                        version: manifest.version,
                        renderer_commit: manifest.renderer_commit,
                    },
                )
            },
        };
    }
    match manifest.platform {
        None => Err(
            AppError::Binary(
                cat3("Miru renderer release ", tag_name, " manifest has no platform assets"),
            ),
        ),
        Some(p) => Ok(
            RendererManifest {
                version: manifest.version,
                renderer_commit: manifest.renderer_commit,
                platform: p,
                asset_name: or_nothing(manifest.asset_name),
                size_bytes: match manifest.size_bytes {
                    Some(n) => n,
                    None => 0,
                },
                sha256: or_nothing(manifest.sha256),
            },
        ),
    }
}

/// The first thing that is wrong with a renderer, if anything is; `named` says whether its name is
/// one for the system.
pub open spec fn renderer_problem(tag: Seq<char>, m: RendererView, named: bool) -> Option<Seq<char>> {
    if !text::same_ignoring_case(m.platform, "windows-x64"@) {
        Some(
            "renderer release "@ + tag + " asset platform "@ + m.platform
                + " is not supported by the Windows client"@,
        )
    } else if !text::same_ignoring_case(m.asset_name, "miru.exe"@) {
        Some("renderer release "@ + tag + " must expose miru.exe for the Windows client"@)
    } else if !named {
        Some("renderer manifest has an invalid asset name"@)
    } else if m.size_bytes == 0 {
        Some("renderer manifest has an empty binary size"@)
    } else if !tools::is_sha256(m.sha256) {
        Some("renderer manifest has an invalid SHA-256"@)
    } else if text::is_blank(m.renderer_commit) {
        Some("renderer manifest has no source commit"@)
    } else {
        None
    }
}

/// What a problem comes to.
pub open spec fn binary_outcome(problem: Option<Seq<char>>) -> Result<(), ErrorView> {
    match problem {
        Some(p) => Err(ErrorView::Binary(p)),
        None => Ok(()),
    }
}

fn binary(message: &str) -> (e: AppError)
    ensures
        e@ == ErrorView::Binary(message@),
{
    AppError::Binary(message.to_owned())
}

/// Refuses a renderer that cannot be used, given whether its name is one for the system.
pub fn judge_renderer(tag_name: &str, manifest: &RendererManifest, named: bool) -> (r: AppResult<()>)
    ensures
        error::plain(r) == binary_outcome(renderer_problem(tag_name@, manifest@, named)),
{
    if !eq_ignore_case(manifest.platform.as_str(), "windows-x64") {
        return Err(
            AppError::Binary(
                cat5(
                    "renderer release ",
                    tag_name,
                    " asset platform ",
                    manifest.platform.as_str(),
                    " is not supported by the Windows client",
                ),
            ),
        );
    }
    if !eq_ignore_case(manifest.asset_name.as_str(), "miru.exe") {
        return Err(
            AppError::Binary(
                cat3(
                    "renderer release ",
                    tag_name,
                    " must expose miru.exe for the Windows client",
                ),
            ),
        );
    }
    if !named {
        return Err(binary("renderer manifest has an invalid asset name"));
    }
    if manifest.size_bytes == 0 {
        return Err(binary("renderer manifest has an empty binary size"));
    }
    if !is_sha256_text(manifest.sha256.as_str()) {
        return Err(binary("renderer manifest has an invalid SHA-256"));
    }
    if blank(manifest.renderer_commit.as_str()) {
        return Err(binary("renderer manifest has no source commit"));
    }
    Ok(())
}

/// Refuses a renderer that cannot be used.
pub fn validate_renderer_manifest(tag_name: &str, manifest: &RendererManifest) -> (r: AppResult<()>)
    ensures
        exists|named: bool|
            may_be_safe(manifest@.asset_name, named) && error::plain(r) == binary_outcome(
                #[trigger] renderer_problem(tag_name@, manifest@, named),
            ),
{
    let named = is_safe_asset_name(manifest.asset_name.as_str());
    let r = judge_renderer(tag_name, manifest, named);
    assert(error::plain(r) == binary_outcome(renderer_problem(tag_name@, manifest@, named)));
    r
}

/// The first file of a release with that name from that place on, whatever the case.
pub open spec fn asset_place(assets: Seq<GitHubReleaseAsset>, name: Seq<char>, from: int) -> Option<int>
    decreases assets.len() - from,
{
    if from < 0 || from >= assets.len() {
        None
    } else if text::same_ignoring_case(assets[from].name@, name) {
        Some(from)
    } else {
        asset_place(assets, name, from + 1)
    }
}

/// The place of a file of a release of the renderer.
pub fn renderer_release_asset(release: &GitHubRelease, asset_name: &str) -> (r: AppResult<usize>)
    ensures
        match asset_place(release.assets@, asset_name@, 0) {
            Some(i) => r matches Ok(j) && j == i && j < release.assets@.len(),
            None => r matches Err(e) && e@ == ErrorView::Binary(
                "Miru renderer release "@ + release.tag_name@ + " is missing asset "@ + asset_name@,
            ),
        },
{
    let mut i: usize = 0;
    while i < release.assets.len()
        invariant
            i <= release.assets@.len(),
            asset_place(release.assets@, asset_name@, 0) == asset_place(
                release.assets@,
                asset_name@,
                i as int,
            ),
        decreases release.assets@.len() - i,
    {
        if eq_ignore_case(release.assets[i].name.as_str(), asset_name) {
            return Ok(i);
        }
        i = i + 1;
    }
    let mut m = cat3("Miru renderer release ", release.tag_name.as_str(), " is missing asset ");
    m.append(asset_name);
    Err(AppError::Binary(m))
}

/// Refuses a file whose size is not the one that the release tells.
pub fn check_asset_size(kind: &str, told: u64, found: u64) -> (r: AppResult<()>)
    ensures
        error::plain(r) == if told == found {
            Ok(())
        } else {
            Err(
                ErrorView::Binary(
                    kind@ + " release asset size mismatch: manifest says "@ + scan::decimal(
                        told as nat,
                    ) + ", GitHub says "@ + scan::decimal(found as nat),
                ),
            )
        },
{
    if told != found {
        return Err(
            AppError::Binary(
                cat5(
                    kind,
                    " release asset size mismatch: manifest says ",
                    show(told).as_str(),
                    ", GitHub says ",
                    show(found).as_str(),
                ),
            ),
        );
    }
    Ok(())
}

/// Some bytes have the checksum that is told.
pub open spec fn has_checksum(bytes: Seq<u8>, expected: Seq<char>) -> bool {
    text::same_ignoring_case(codec::hex_text(codec::sha256(bytes)), expected)
}

/// Whether a file has the checksum that is told; a file that is not there has none.
pub fn verify_file_sha256(bytes: Option<&[u8]>, expected: &str) -> (r: bool)
    ensures
        r == (bytes matches Some(b) && has_checksum(b@, expected@)),
{
    match bytes {
        Some(b) => eq_ignore_case(sha256_hex(b).as_str(), expected),
        None => false,
    }
}

/// The first thing that is wrong with a renderer that was fetched, by its size and its checksum.
pub open spec fn download_problem(told: u64, got: nat, matches: bool) -> Option<Seq<char>> {
    if got != told {
        Some(
            "renderer size mismatch: expected "@ + scan::decimal(told as nat) + " bytes, got "@
                + scan::decimal(got) + " bytes"@,
        )
    } else if !matches {
        Some("renderer checksum mismatch after download"@)
    } else {
        None
    }
}

/// Refuses a renderer that was fetched and is not what the release tells.
pub fn ensure_renderer(manifest: &RendererManifest, bytes: &[u8]) -> (r: AppResult<()>)
    ensures
        error::plain(r) == binary_outcome(
            download_problem(
                manifest.size_bytes,
                bytes@.len(),
                has_checksum(bytes@, manifest.sha256@),
            ),
        ),
{
    let got: u64 = bytes.len() as u64;
    if got != manifest.size_bytes {
        let m = cat5(
            "renderer size mismatch: expected ",
            show(manifest.size_bytes).as_str(),
            " bytes, got ",
            show(got).as_str(),
            " bytes",
        );
        return Err(AppError::Binary(m));
    }
    if !verify_file_sha256(Some(bytes), manifest.sha256.as_str()) {
        return Err(binary("renderer checksum mismatch after download"));
    }
    Ok(())
}

/// No renderer is installed whose bytes do not have the checksum that the release tells.
pub proof fn installed_renderers_are_checked(told: u64, bytes: Seq<u8>, expected: Seq<char>)
    requires
        download_problem(told, bytes.len(), has_checksum(bytes, expected)) is None,
    ensures
        bytes.len() == told,
        text::lower_text(expected) == codec::hex_text(codec::sha256(bytes)),
{
    codec::hex_text_is_lower(codec::sha256(bytes));
}

/// The name under which the renderer is kept, by what the system takes for the last name of the file of
/// the release.
pub open spec fn renderer_file(name: Option<Seq<char>>) -> Seq<char> {
    match name {
        Some(n) => if text::is_blank(n) {
            "miru.exe"@
        } else {
            n
        },
        None => "miru.exe"@,
    }
}

/// The name under which the renderer is kept, given what the system takes for the last name of the file
/// of the release.
pub fn managed_renderer_name(file_name: Option<&str>) -> (r: String)
    ensures
        r@ == renderer_file(text::opt_str(file_name)),
{
    match file_name {
        Some(n) => if blank(n) {
            "miru.exe".to_owned()
        } else {
            n.to_owned()
        },
        None => "miru.exe".to_owned(),
    }
}

/// Where the renderer is kept.
pub fn managed_renderer_path(paths: &AppPaths, manifest: &RendererManifest) -> (r: LocalPath)
    ensures
        exists|name: Option<Seq<char>>|
            #[trigger] paths::may_name(manifest.asset_name@, name) && r@ == paths.bin_dir@.below(
                renderer_file(name),
            ),
{
    let name = path_file_name(manifest.asset_name.as_str());
    assert(paths::may_name(manifest.asset_name@, text::opt_text(name)));
    paths.bin_dir.join(managed_renderer_name(text::borrow_text(&name)).as_str())
}

/// The renderer that was chosen in place of the one of this client.
pub open spec fn chosen_renderer(raw_path: Seq<char>, present: bool, managed: bool) -> Option<Seq<char>> {
    if text::is_blank(raw_path) || !present || managed {
        None
    } else {
        Some(text::trimmed(raw_path))
    }
}

/// The renderer of the user: the one that the settings name, where there is such a file and it is not
/// the one that the client keeps.
pub fn custom_renderer_override(raw_path: &str, present: bool, managed: bool) -> (r: Option<String>)
    ensures
        text::opt_text(r) == chosen_renderer(raw_path@, present, managed),
        text::opt_text(r) == if text::is_blank(raw_path@) || !present || managed {
            None
        } else {
            Some(text::trimmed(raw_path@))
        },
{
    if blank(raw_path) || !present || managed {
        return None;
    }
    Some(trim(raw_path))
}

/// The form in which paths are compared.
pub open spec fn path_text(path: Seq<char>) -> Seq<char> {
    scan::replaced(path, '/', "\\"@)
}

/// Two paths are the same: as the system says, where it knows both files, otherwise by how they are
/// written.
pub open spec fn same_path(left: Seq<char>, right: Seq<char>, known: Option<bool>) -> bool {
    match known {
        Some(same) => same,
        None => text::same_ignoring_case(path_text(left), path_text(right)),
    }
}

/// Whether two paths are the same, given what the system says of them.
pub fn paths_equal(left: &str, right: &str, known: Option<bool>) -> (r: bool)
    ensures
        r == same_path(left@, right@, known),
{
    match known {
        Some(same) => same,
        None => eq_ignore_case(
            scan::replace(left, '/', "\\").as_str(),
            scan::replace(right, '/', "\\").as_str(),
        ),
    }
}

/// Whether a renderer is the one that the client keeps: it lies in the folder of the client, as the
/// system says where it knows both, otherwise it is the file of that name in that folder. `inside` and
/// `known` are what the system says; `kept` is that file, where the path has a name.
pub fn is_managed_renderer_path(
    path: &str,
    inside: Option<bool>,
    kept: Option<&str>,
    known: Option<bool>,
) -> (r: bool)
    ensures
        r == match inside {
            Some(b) => b,
            None => kept matches Some(k) && same_path(path@, k@, known),
        },
{
    match inside {
        Some(b) => b,
        None => match kept {
            Some(k) => paths_equal(path, k, known),
            None => false,
        },
    }
}

/// What a renderer is fetched for a benchmark.
pub struct RendererDownloadInfo {
    pub version: String,
    pub size_bytes: u64,
    pub install_path: String,
    pub already_available: bool,
    pub release_url: String,
}

/// What is known of the renderer of the user.
pub fn custom_download_info(path: String, size_bytes: Option<u64>) -> (r: RendererDownloadInfo)
    ensures
        r.version@ == "custom"@,
        r.size_bytes == match size_bytes {
            Some(n) => n,
            None => 0,
        },
        r.install_path == path,
        r.already_available,
        r.release_url@.len() == 0,
{
    RendererDownloadInfo {
        version: "custom".to_owned(),
        size_bytes: match size_bytes {
            Some(n) => n,
            None => 0,
        },
        install_path: path,
        already_available: true,
        release_url: String::new(),
    }
}

/// What is known of the renderer of a release.
pub fn release_download_info(
    manifest: &RendererManifest,
    install_path: String,
    already_available: bool,
    release_url: &str,
) -> (r: RendererDownloadInfo)
    ensures
        r.version@ == manifest.version@,
        r.size_bytes == manifest.size_bytes,
        r.install_path == install_path,
        r.already_available == already_available,
        r.release_url@ == release_url@,
{
    RendererDownloadInfo {
        version: manifest.version.clone(),
        size_bytes: manifest.size_bytes,
        install_path,
        already_available,
        release_url: release_url.to_owned(),
    }
}

/// Whether there is a newer renderer.
pub struct RendererUpdateStatus {
    pub current_version: String,
    pub latest_version: String,
    pub update_available: bool,
    pub installed: bool,
    pub custom_override: bool,
    pub release_url: String,
    pub asset_name: String,
    pub size_bytes: u64,
    pub install_path: String,
}

/// What is installed of the renderer.
pub enum InstalledRenderer {
    /// One of the user.
    Custom,
    /// The one of the latest release.
    Latest,
    /// Another one, of that version if it is known.
    Older(Option<String>),
    Missing,
}

/// What is shown of a renderer beside the latest release of it.
pub open spec fn shows_renderer(
    r: RendererUpdateStatus,
    installed: InstalledRenderer,
    manifest: RendererManifest,
) -> bool {
    &&& r.latest_version@ == manifest.version@
    &&& r.update_available == (installed is Older)
    &&& r.installed == !(installed is Missing)
    &&& r.custom_override == (installed is Custom)
    &&& r.size_bytes == manifest.size_bytes
    &&& r.current_version@ == match installed {
        InstalledRenderer::Custom => "custom"@,
        InstalledRenderer::Latest => manifest.version@,
        InstalledRenderer::Older(v) => match v {
            Some(s) => s@,
            None => "unknown"@,
        },
        InstalledRenderer::Missing => "not installed"@,
    }
}

/// Tells whether there is a newer renderer. The one of the user is never updated.
pub fn renderer_update_status(
    installed: &InstalledRenderer,
    manifest: &RendererManifest,
    release_url: &str,
    asset_name: &str,
    install_path: String,
) -> (r: RendererUpdateStatus)
    ensures
        shows_renderer(r, *installed, *manifest),
        r.current_version@ == match *installed {
            InstalledRenderer::Custom => "custom"@,
            InstalledRenderer::Latest => manifest.version@,
            InstalledRenderer::Older(v) => match v {
                Some(s) => s@,
                None => "unknown"@,
            },
            InstalledRenderer::Missing => "not installed"@,
        },
        r.latest_version@ == manifest.version@,
        r.update_available == (*installed is Older),
        r.installed == !(*installed is Missing),
        r.custom_override == (*installed is Custom),
        r.release_url@ == release_url@,
        r.asset_name@ == asset_name@,
        r.size_bytes == manifest.size_bytes,
        r.install_path == install_path,
{
    let current_version = match installed {
        InstalledRenderer::Custom => "custom".to_owned(),
        InstalledRenderer::Latest => manifest.version.clone(),
        InstalledRenderer::Older(v) => match v {
            Some(s) => s.clone(),
            None => "unknown".to_owned(),
        },
        InstalledRenderer::Missing => "not installed".to_owned(),
    };
    let (update_available, is_installed, custom_override) = match installed {
        InstalledRenderer::Custom => (false, true, true),
        InstalledRenderer::Latest => (false, true, false),
        InstalledRenderer::Older(_) => (true, true, false),
        InstalledRenderer::Missing => (false, false, false),
    };
    RendererUpdateStatus {
        current_version,
        latest_version: manifest.version.clone(),
        update_available,
        installed: is_installed,
        custom_override,
        release_url: release_url.to_owned(),
        asset_name: asset_name.to_owned(),
        size_bytes: manifest.size_bytes,
        install_path,
    }
}

// ---------------------------------------------------------------------------------------------
// The client
// ---------------------------------------------------------------------------------------------

/// What a release of the client tells of itself.
pub struct ClientManifest {
    pub version: String,
    pub client_commit: String,
    pub platform: String,
    pub asset_name: String,
    pub size_bytes: u64,
    pub sha256: String,
}

/// The first thing that is wrong with a release of the client, if anything is; `named` says whether
/// the name of its file is one for the system.
pub open spec fn client_problem(tag: Seq<char>, m: ClientManifest, named: bool) -> Option<Seq<char>> {
    if m.platform@ != "windows-x64"@ {
        Some("client release "@ + tag + " is for unsupported platform "@ + m.platform@)
    } else if text::is_blank(m.asset_name@) {
        Some("client manifest has no asset name"@)
    } else if !named {
        Some("client manifest has an invalid installer asset name"@)
    } else if !scan::finishes(text::lower_text(m.asset_name@), ".exe"@) {
        Some("client installer asset must be a Windows .exe"@)
    } else if m.size_bytes == 0 {
        Some("client manifest has an empty installer size"@)
    } else if !tools::is_sha256(m.sha256@) {
        Some("client manifest has an invalid SHA-256"@)
    } else if text::is_blank(m.client_commit@) {
        Some("client manifest has no source commit"@)
    } else {
        None
    }
}

/// Refuses a release of the client that cannot be used, given whether the name of its file is one for
/// the system.
pub fn judge_client(tag_name: &str, manifest: &ClientManifest, named: bool) -> (r: AppResult<()>)
    ensures
        error::plain(r) == binary_outcome(client_problem(tag_name@, *manifest, named)),
{
    if !same_text(manifest.platform.as_str(), "windows-x64") {
        let mut m = cat3("client release ", tag_name, " is for unsupported platform ");
        m.append(manifest.platform.as_str());
        return Err(AppError::Binary(m));
    }
    if blank(manifest.asset_name.as_str()) {
        return Err(binary("client manifest has no asset name"));
    }
    if !named {
        return Err(binary("client manifest has an invalid installer asset name"));
    }
    if !ends_with(lowercase(manifest.asset_name.as_str()).as_str(), ".exe") {
        return Err(binary("client installer asset must be a Windows .exe"));
    }
    if manifest.size_bytes == 0 {
        return Err(binary("client manifest has an empty installer size"));
    }
    if !is_sha256_text(manifest.sha256.as_str()) {
        return Err(binary("client manifest has an invalid SHA-256"));
    }
    if blank(manifest.client_commit.as_str()) {
        return Err(binary("client manifest has no source commit"));
    }
    Ok(())
}

/// Refuses a release of the client that cannot be used.
pub fn validate_manifest(tag_name: &str, manifest: &ClientManifest) -> (r: AppResult<()>)
    ensures
        exists|named: bool|
            may_be_safe(manifest.asset_name@, named) && error::plain(r) == binary_outcome(
                #[trigger] client_problem(tag_name@, *manifest, named),
            ),
{
    let named = is_safe_asset_name(manifest.asset_name.as_str());
    let r = judge_client(tag_name, manifest, named);
    assert(error::plain(r) == binary_outcome(client_problem(tag_name@, *manifest, named)));
    r
}

/// A character of the name of a file as GitHub writes it.
pub open spec fn github_char(c: char) -> char {
    if text::is_ascii_space(c) || c == '.' {
        '-'
    } else {
        text::lower(c)
    }
}

/// The name of a file as GitHub writes it.
pub open spec fn github_name(name: Seq<char>) -> Seq<char> {
    let s = text::trimmed(name);
    Seq::new(s.len(), |i: int| github_char(s[i]))
}

/// The name of a file as GitHub writes it.
pub fn normalize_github_asset_name(name: &str) -> (r: String)
    ensures
        r@ == github_name(name@),
{
    let s = trim(name);
    let v = chars_of(s.as_str());
    let mut out = String::new();
    let mut i: usize = 0;
    while i < v.len()
        invariant
            i <= v@.len(),
            v@ == text::trimmed(name@),
            out@ == github_name(name@).take(i as int),
        decreases v@.len() - i,
    {
        let c = if ascii_space(v[i]) || v[i] == '.' {
            '-'
        } else {
            to_lower(v[i])
        };
        out.push(c);
        i = i + 1;
        assert(out@ =~= github_name(name@).take(i as int));
    }
    assert(out@ =~= github_name(name@));
    out
}

/// Two names of one file.
pub open spec fn same_asset(a: Seq<char>, b: Seq<char>) -> bool {
    text::same_ignoring_case(a, b) || github_name(a) == github_name(b)
}

/// Whether two names are of one file.
pub fn asset_names_match(actual: &str, expected: &str) -> (r: bool)
    ensures
        r == same_asset(actual@, expected@),
{
    eq_ignore_case(actual, expected) || same_text(
        normalize_github_asset_name(actual).as_str(),
        normalize_github_asset_name(expected).as_str(),
    )
}

/// The first file of a release of the client with that name from that place on.
pub open spec fn client_asset_place(assets: Seq<GitHubReleaseAsset>, name: Seq<char>, from: int) -> Option<
    int,
>
    decreases assets.len() - from,
{
    if from < 0 || from >= assets.len() {
        None
    } else if same_asset(assets[from].name@, name) {
        Some(from)
    } else {
        client_asset_place(assets, name, from + 1)
    }
}

/// The place of a file of a release of the client.
pub fn release_asset(release: &GitHubRelease, asset_name: &str) -> (r: AppResult<usize>)
    ensures
        match client_asset_place(release.assets@, asset_name@, 0) {
            Some(i) => r matches Ok(j) && j == i && j < release.assets@.len(),
            None => r matches Err(e) && e@ == ErrorView::Binary(
                "Miru Client release "@ + release.tag_name@ + " is missing asset "@ + asset_name@,
            ),
        },
{
    let mut i: usize = 0;
    while i < release.assets.len()
        invariant
            i <= release.assets@.len(),
            client_asset_place(release.assets@, asset_name@, 0) == client_asset_place(
                release.assets@,
                asset_name@,
                i as int,
            ),
        decreases release.assets@.len() - i,
    {
        if asset_names_match(release.assets[i].name.as_str(), asset_name) {
            return Ok(i);
        }
        i = i + 1;
    }
    let mut m = cat3("Miru Client release ", release.tag_name.as_str(), " is missing asset ");
    m.append(asset_name);
    Err(AppError::Binary(m))
}

/// Where the installer of the client goes, given whether the name of its file is one for the system.
pub fn place_installer(paths: &AppPaths, asset_name: &str, named: bool) -> (r: AppResult<LocalPath>)
    ensures
        error::outcome(r) == installer_place(paths.data_dir@, asset_name@, named),
{
    if !named {
        return Err(binary("client installer asset name is not safe"));
    }
    Ok(paths.data_dir.join("updates").join(asset_name))
}

/// Where the installer of the client goes, by whether the name of its file is one for the system.
pub open spec fn installer_place(data_dir: PathView, name: Seq<char>, named: bool) -> Result<
    PathView,
    ErrorView,
> {
    if named {
        Ok(data_dir.below("updates"@).below(name))
    } else {
        Err(ErrorView::Binary("client installer asset name is not safe"@))
    }
}

/// Where the installer of the client goes.
pub fn client_installer_path(paths: &AppPaths, asset_name: &str) -> (r: AppResult<LocalPath>)
    ensures
        exists|named: bool| #[trigger]
            may_be_safe(asset_name@, named) && error::outcome(r) == installer_place(
                paths.data_dir@,
                asset_name@,
                named,
            ),
{
    let named = is_safe_asset_name(asset_name);
    assert(may_be_safe(asset_name@, named));
    place_installer(paths, asset_name, named)
}

// ---------------------------------------------------------------------------------------------
// Versions
// ---------------------------------------------------------------------------------------------

/// A version without white space around it and without the letter in front of it.
pub open spec fn version_label(version: Seq<char>) -> Seq<char> {
    text::drop_front(text::trimmed(version), text::only('v'))
}

/// A version without white space around it and without the letter in front of it.
pub fn normalize_version_label(version: &str) -> (r: String)
    ensures
        r@ == version_label(version@),
{
    trim_start_of(trim(version).as_str(), 'v')
}

/// Whether the second of two versions is above the first, where both are versions.
pub uninterp spec fn semver_above(current: Seq<char>, latest: Seq<char>) -> Option<bool>;

/// `semver::Version::parse` and the order of `Version`: whether the second version is above the
/// first; nothing where one of the texts is no version. A version is not above itself.
#[verifier::external_body]
fn compare_versions(current: &str, latest: &str) -> (r: Option<bool>)
    ensures
        r == semver_above(current@, latest@),
        current@ == latest@ ==> r != Some(true),
{
    let c = semver::Version::parse(current).ok()?;
    let l = semver::Version::parse(latest).ok()?;
    Some(l > c)
}

/// A version is newer than another: it is above it, or simply another one where the two cannot be
/// compared.
pub open spec fn newer(above: Option<bool>, current: Seq<char>, latest: Seq<char>) -> bool {
    match above {
        Some(b) => b,
        None => latest != current,
    }
}

/// Whether a version is newer, given how the two compare.
pub fn judge_newer(above: Option<bool>, current: &str, latest: &str) -> (r: bool)
    ensures
        r == newer(above, version_label(current@), version_label(latest@)),
{
    match above {
        Some(b) => b,
        None => !same_text(
            normalize_version_label(latest).as_str(),
            normalize_version_label(current).as_str(),
        ),
    }
}

/// Whether a version is newer than the current one. No version is newer than itself.
pub fn is_newer_version(current: &str, latest: &str) -> (r: bool)
    ensures
        ({
            let c = version_label(current@);
            let l = version_label(latest@);
            r == newer(semver_above(c, l), c, l)
        }),
        version_label(current@) == version_label(latest@) ==> !r,
{
    let c = normalize_version_label(current);
    let l = normalize_version_label(latest);
    let above = compare_versions(c.as_str(), l.as_str());
    judge_newer(above, current, latest)
}

/// A release of the client is an update: its version is newer, or it is the same version built from
/// other sources.
pub open spec fn is_update(
    above: Option<bool>,
    current: Seq<char>,
    latest: Seq<char>,
    current_commit: Option<Seq<char>>,
    latest_commit: Seq<char>,
) -> bool {
    newer(above, version_label(current), version_label(latest)) || (version_label(current)
        == version_label(latest) && (current_commit matches Some(c) && !text::is_blank(c)
        && !text::same_ignoring_case(c, text::trimmed(latest_commit))))
}

/// Whether a release of the client is an update, given whether its version is newer.
pub fn judge_update(
    is_newer: bool,
    current_version: &str,
    latest_version: &str,
    current_commit: Option<&str>,
    latest_commit: &str,
) -> (r: bool)
    ensures
        r == (is_newer || (version_label(current_version@) == version_label(latest_version@) && (
        text::opt_str(current_commit) matches Some(c) && !text::is_blank(c)
            && !text::same_ignoring_case(c, text::trimmed(latest_commit@))))),
{
    if is_newer {
        return true;
    }
    if !same_text(
        normalize_version_label(current_version).as_str(),
        normalize_version_label(latest_version).as_str(),
    ) {
        return false;
    }
    match current_commit {
        Some(c) => !blank(c) && !eq_ignore_case(c, trim(latest_commit).as_str()),
        None => false,
    }
}

/// Whether a release of the client is an update. The release that the client was built from is none.
pub fn client_update_available(
    current_version: &str,
    latest_version: &str,
    current_commit: Option<&str>,
    latest_commit: &str,
) -> (r: bool)
    ensures
        r == is_update(
            semver_above(version_label(current_version@), version_label(latest_version@)),
            current_version@,
            latest_version@,
            text::opt_str(current_commit),
            latest_commit@,
        ),
        version_label(current_version@) == version_label(latest_version@) && (current_commit is None
            || text::same_ignoring_case(current_commit->0@, text::trimmed(latest_commit@))) ==> !r,
{
    let is_newer = is_newer_version(current_version, latest_version);
    judge_update(is_newer, current_version, latest_version, current_commit, latest_commit)
}

/// Whether there is a newer client.
pub struct ClientUpdateStatus {
    pub current_version: String,
    pub latest_version: String,
    pub update_available: bool,
    pub release_url: String,
    pub download_url: String,
    pub asset_name: String,
    pub size_bytes: u64,
    pub sha256: String,
    pub published_at: Option<String>,
    pub current_commit: Option<String>,
    pub latest_commit: String,
}

/// What is shown of an update of the client.
pub open spec fn shows_update(
    r: ClientUpdateStatus,
    current_version: Seq<char>,
    installer: GitHubReleaseAsset,
    manifest: ClientManifest,
) -> bool {
    &&& r.current_version@ == current_version
    &&& r.latest_version@ == version_label(manifest.version@)
    &&& r.download_url@ == installer.browser_download_url@
    &&& r.asset_name@ == installer.name@
    &&& r.size_bytes == manifest.size_bytes
    &&& r.sha256@ == manifest.sha256@
    &&& r.latest_commit@ == text::trimmed(manifest.client_commit@)
}

/// Tells whether there is a newer client.
pub fn check_client_update(
    current_version: &str,
    current_commit: Option<String>,
    release_url: String,
    published_at: Option<String>,
    installer: &GitHubReleaseAsset,
    manifest: &ClientManifest,
) -> (r: ClientUpdateStatus)
    ensures
        shows_update(r, current_version@, *installer, *manifest),
        r.current_version@ == current_version@,
        r.latest_version@ == version_label(manifest.version@),
        r.update_available == is_update(
            semver_above(
                version_label(current_version@),
                version_label(version_label(manifest.version@)),
            ),
            current_version@,
            version_label(manifest.version@),
            text::opt_text(current_commit),
            text::trimmed(manifest.client_commit@),
        ),
        r.release_url == release_url,
        r.download_url@ == installer.browser_download_url@,
        r.asset_name@ == installer.name@,
        r.size_bytes == manifest.size_bytes,
        r.sha256@ == manifest.sha256@,
        r.published_at == published_at,
        r.current_commit == current_commit,
        r.latest_commit@ == text::trimmed(manifest.client_commit@),
{
    let latest_version = normalize_version_label(manifest.version.as_str());
    let latest_commit = trim(manifest.client_commit.as_str());
    let update_available = client_update_available(
        current_version,
        latest_version.as_str(),
        text::borrow_text(&current_commit),
        latest_commit.as_str(),
    );
    ClientUpdateStatus {
        current_version: current_version.to_owned(),
        latest_version,
        update_available,
        release_url,
        download_url: installer.browser_download_url.clone(),
        asset_name: installer.name.clone(),
        size_bytes: manifest.size_bytes,
        sha256: manifest.sha256.clone(),
        published_at,
        current_commit,
        latest_commit,
    }
}

// ---------------------------------------------------------------------------------------------
// Fetching the installer
// ---------------------------------------------------------------------------------------------

/// The size of an installer while it comes: the larger of the two that are told.
pub open spec fn larger_size(content_length: Option<u64>, size_bytes: u64) -> u64 {
    match content_length {
        Some(n) => if n > size_bytes {
            n
        } else {
            size_bytes
        },
        None => size_bytes,
    }
}

/// The bytes that a download is measured by: what the server tells, but at least what the release
/// tells.
pub fn installer_total(content_length: Option<u64>, size_bytes: u64) -> (r: u64)
    ensures
        r == larger_size(content_length, size_bytes),
        r == match content_length {
            Some(n) => if n > size_bytes {
                n
            } else {
                size_bytes
            },
            None => size_bytes,
        },
{
    match content_length {
        Some(n) => if n > size_bytes {
            n
        } else {
            size_bytes
        },
        None => size_bytes,
    }
}

/// Whether the progress of a download is shown: where the percentage has changed, or a quarter of a
/// second has passed.
pub fn shows_progress(last_percent: u64, percent: u64, elapsed_ms: u64) -> (r: bool)
    ensures
        r == (percent != last_percent || elapsed_ms >= 250),
{
    percent != last_percent || elapsed_ms >= 250
}

/// The outcome of fetching an installer, by its size and whether it has the checksum that is told.
pub open spec fn installer_outcome(told: u64, got: nat, matches: bool) -> Result<(), ErrorView> {
    if got != told {
        Err(
            ErrorView::Binary(
                "client installer size mismatch: expected "@ + scan::decimal(told as nat)
                    + " bytes, got "@ + scan::decimal(got) + " bytes"@,
            ),
        )
    } else if !matches {
        Err(ErrorView::Binary("client installer checksum mismatch after download"@))
    } else {
        Ok(())
    }
}

/// Refuses an installer that is not what the release tells, given its size and its checksum.
pub fn judge_installer(manifest: &ClientManifest, downloaded: u64, actual_sha256: &str) -> (r: AppResult<
    (),
>)
    ensures
        error::plain(r) == installer_outcome(
            manifest.size_bytes,
            downloaded as nat,
            text::same_ignoring_case(actual_sha256@, manifest.sha256@),
        ),
{
    if downloaded != manifest.size_bytes {
        return Err(
            AppError::Binary(
                cat5(
                    "client installer size mismatch: expected ",
                    show(manifest.size_bytes).as_str(),
                    " bytes, got ",
                    show(downloaded).as_str(),
                    " bytes",
                ),
            ),
        );
    }
    if !eq_ignore_case(actual_sha256, manifest.sha256.as_str()) {
        return Err(binary("client installer checksum mismatch after download"));
    }
    Ok(())
}

/// Refuses an installer that was fetched and is not what the release tells.
pub fn download_client_installer(manifest: &ClientManifest, bytes: &[u8]) -> (r: AppResult<()>)
    ensures
        error::plain(r) == installer_outcome(
            manifest.size_bytes,
            bytes@.len(),
            has_checksum(bytes@, manifest.sha256@),
        ),
{
    judge_installer(manifest, bytes.len() as u64, sha256_hex(bytes).as_str())
}

/// No installer is run whose bytes do not have the checksum that the release tells.
pub proof fn installers_are_checked(told: u64, bytes: Seq<u8>, expected: Seq<char>)
    requires
        installer_outcome(told, bytes.len(), has_checksum(bytes, expected)) is Ok,
    ensures
        bytes.len() == told,
        text::lower_text(expected) == codec::hex_text(codec::sha256(bytes)),
{
    codec::hex_text_is_lower(codec::sha256(bytes));
}

/// A moment of an update that is shown.
pub enum UpdateMoment {
    Checking,
    /// There is none for this version.
    UpToDate(String),
    /// The installer was there already.
    AlreadyThere,
    Verifying,
    Ready,
    Launching,
    /// The installer could not be run, for this reason.
    LaunchFailed(String),
    Closing,
}

/// How an update is coming along: its phase, its share of the whole in percent by the bits of a
/// `Double`, and what is said of it.
pub struct UpdateProgress {
    pub phase: String,
    pub percent_bits: u64,
    pub message: String,
}

/// What is shown at a moment of an update.
pub open spec fn update_moment(m: UpdateMoment) -> (Seq<char>, u64, Seq<char>) {
    match m {
        UpdateMoment::Checking => (
            "checking"@,
            0x4000_0000_0000_0000,
            "Buscando la ultima release del cliente..."@,
        ),
        UpdateMoment::UpToDate(version) => (
            "error"@,
            0x4059_0000_0000_0000,
            "Miru Desktop Client ya esta actualizado ("@ + version@ + ")."@,
        ),
        UpdateMoment::AlreadyThere => (
            "verifying"@,
            0x4056_0000_0000_0000,
            "Instalador ya descargado. Verificando checksum..."@,
        ),
        UpdateMoment::Verifying => (
            "verifying"@,
            0x4055_0000_0000_0000,
            "Verificando tamano y checksum del instalador..."@,
        ),
        UpdateMoment::Ready => (
            "ready"@,
            0x4057_0000_0000_0000,
            "Instalador descargado y verificado."@,
        ),
        UpdateMoment::Launching => (
            "launching"@,
            0x4058_0000_0000_0000,
            "Preparando el instalador del cliente..."@,
        ),
        UpdateMoment::LaunchFailed(problem) => (
            "error"@,
            0x4059_0000_0000_0000,
            "No se pudo iniciar el instalador: "@ + problem@,
        ),
        UpdateMoment::Closing => (
            "closing"@,
            0x4059_0000_0000_0000,
            "Instalador iniciado. Miru se cerrara para terminar la instalacion."@,
        ),
    }
}

fn update_progress(phase: &str, percent_bits: u64, message: String) -> (r: UpdateProgress)
    ensures
        r.phase@ == phase@,
        r.percent_bits == percent_bits,
        r.message@ == message@,
{
    UpdateProgress { phase: phase.to_owned(), percent_bits, message }
}

/// What is shown at a moment of an update.
pub fn emit_client_update_progress(m: &UpdateMoment) -> (r: UpdateProgress)
    ensures
        r.phase@ == update_moment(*m).0,
        r.percent_bits == update_moment(*m).1,
        r.message@ == update_moment(*m).2,
{
    match m {
        UpdateMoment::Checking => update_progress(
            "checking",
            0x4000_0000_0000_0000,
            "Buscando la ultima release del cliente...".to_owned(),
        ),
        UpdateMoment::UpToDate(version) => update_progress(
            "error",
            0x4059_0000_0000_0000,
            cat3("Miru Desktop Client ya esta actualizado (", version.as_str(), ")."),
        ),
        UpdateMoment::AlreadyThere => update_progress(
            "verifying",
            0x4056_0000_0000_0000,
            "Instalador ya descargado. Verificando checksum...".to_owned(),
        ),
        UpdateMoment::Verifying => update_progress(
            "verifying",
            0x4055_0000_0000_0000,
            "Verificando tamano y checksum del instalador...".to_owned(),
        ),
        UpdateMoment::Ready => update_progress(
            "ready",
            0x4057_0000_0000_0000,
            "Instalador descargado y verificado.".to_owned(),
        ),
        UpdateMoment::Launching => update_progress(
            "launching",
            0x4058_0000_0000_0000,
            "Preparando el instalador del cliente...".to_owned(),
        ),
        UpdateMoment::LaunchFailed(problem) => update_progress(
            "error",
            0x4059_0000_0000_0000,
            cat("No se pudo iniciar el instalador: ", problem.as_str()),
        ),
        UpdateMoment::Closing => update_progress(
            "closing",
            0x4059_0000_0000_0000,
            "Instalador iniciado. Miru se cerrara para terminar la instalacion.".to_owned(),
        ),
    }
}

/// What installing an update does next, given whether there is one and whether its installer is
/// already there.
pub enum InstallChoice {
    /// There is none.
    Refuse(AppError),
    /// Run the installer that is there.
    Launch,
    /// Fetch the installer first.
    Download,
}

/// Decides how an update is installed.
pub fn install_client_update(available: bool, current_version: &str, already_there: bool) -> (r:
    InstallChoice)
    ensures
        match r {
            InstallChoice::Refuse(e) => !available && e@ == ErrorView::Binary(
                "Miru Desktop Client is already up to date ("@ + current_version@ + ")"@,
            ),
            InstallChoice::Launch => available && already_there,
            InstallChoice::Download => available && !already_there,
        },
{
    if !available {
        return InstallChoice::Refuse(
            AppError::Binary(
                cat3("Miru Desktop Client is already up to date (", current_version, ")"),
            ),
        );
    }
    if already_there {
        InstallChoice::Launch
    } else {
        InstallChoice::Download
    }
}

proof fn windows_asset_is_first(assets: Seq<RendererManifestAsset>, from: int, i: int)
    requires
        0 <= from <= i < assets.len(),
        text::lower_text(assets[i].platform@) == text::lower_text("windows-x64"@),
        forall|j: int|
            from <= j < i ==> text::lower_text((#[trigger] assets[j]).platform@) != text::lower_text(
                "windows-x64"@,
            ),
    ensures
        windows_place(assets, from) == Some(i),
    decreases i - from,
{
    if from < i {
        assert(text::lower_text(assets[from].platform@) != text::lower_text("windows-x64"@));
        windows_asset_is_first(assets, from + 1, i);
    }
}

/// The renderer of a release is its first asset for Windows, with the version and the commit of the release.
pub proof fn releases_tell_their_windows_asset(tag: Seq<char>, m: RendererReleaseManifest, i: int)
    requires
        0 <= i < m.assets@.len(),
        text::lower_text(m.assets@[i].platform@) == text::lower_text("windows-x64"@),
        forall|j: int|
            0 <= j < i ==> text::lower_text((#[trigger] m.assets@[j]).platform@) != text::lower_text(
                "windows-x64"@,
            ),
    ensures
        windows_manifest(tag, m) matches Ok(r) && r.version == m.version@ && r.renderer_commit
            == m.renderer_commit@ && r.platform == m.assets@[i].platform@ && r.asset_name
            == m.assets@[i].asset_name@ && r.size_bytes == m.assets@[i].size_bytes && r.sha256
            == m.assets@[i].sha256@,
{
    windows_asset_is_first(m.assets@, 0, i);
}

proof fn no_windows_asset(assets: Seq<RendererManifestAsset>, from: int)
    requires
        0 <= from <= assets.len(),
        forall|j: int|
            from <= j < assets.len() ==> text::lower_text((#[trigger] assets[j]).platform@)
                != text::lower_text("windows-x64"@),
    ensures
        windows_place(assets, from) is None,
    decreases assets.len() - from,
{
    if from < assets.len() {
        assert(text::lower_text(assets[from].platform@) != text::lower_text("windows-x64"@));
        no_windows_asset(assets, from + 1);
    }
}

/// A release with assets of which none is for Windows has no renderer, nor has one without assets that names no
/// platform.
pub proof fn releases_for_others_are_refused(tag: Seq<char>, m: RendererReleaseManifest)
    ensures
        m.assets@.len() > 0 && (forall|j: int|
            0 <= j < m.assets@.len() ==> text::lower_text((#[trigger] m.assets@[j]).platform@)
                != text::lower_text("windows-x64"@)) ==> windows_manifest(tag, m) is Err,
        m.assets@.len() == 0 && m.platform is None ==> windows_manifest(tag, m) is Err,
        m.assets@.len() == 0 ==> (m.platform matches Some(p) ==> (windows_manifest(tag, m) matches Ok(r)
            && r.version == m.version@ && r.renderer_commit == m.renderer_commit@ && r.platform == p@ && (
        m.asset_name matches Some(n) ==> r.asset_name == n@) && (m.size_bytes matches Some(n)
            ==> r.size_bytes == n) && (m.sha256 matches Some(h) ==> r.sha256 == h@))),
{
    if m.assets@.len() > 0 && (forall|j: int|
        0 <= j < m.assets@.len() ==> text::lower_text((#[trigger] m.assets@[j]).platform@)
            != text::lower_text("windows-x64"@)) {
        no_windows_asset(m.assets@, 0);
    }
}

/// A renderer is accepted exactly where it is `miru.exe` for Windows, with a size, a checksum and a commit.
pub proof fn sound_renderers_are_accepted(tag: Seq<char>, m: RendererView, named: bool)
    ensures
        binary_outcome(renderer_problem(tag, m, named)) is Ok <==> {
            &&& text::lower_text(m.platform) == text::lower_text("windows-x64"@)
            &&& text::lower_text(m.asset_name) == text::lower_text("miru.exe"@)
            &&& named
            &&& m.size_bytes > 0
            &&& tools::is_sha256(m.sha256)
            &&& !text::is_blank(m.renderer_commit)
        },
{
}

/// A client is accepted exactly where it is an `.exe` for Windows with a safe name, a size, a checksum and a
/// commit.
pub proof fn sound_clients_are_accepted(tag: Seq<char>, m: ClientManifest, named: bool)
    ensures
        client_problem(tag, m, named) is None <==> {
            &&& m.platform@ == "windows-x64"@
            &&& !text::is_blank(m.asset_name@)
            &&& named
            &&& scan::finishes(text::lower_text(m.asset_name@), ".exe"@)
            &&& m.size_bytes > 0
            &&& tools::is_sha256(m.sha256@)
            &&& !text::is_blank(m.client_commit@)
        },
{
}

/// A download is accepted exactly where it has the size that was told and its checksum.
pub proof fn whole_downloads_are_accepted(told: u64, got: nat, matches: bool)
    ensures
        download_problem(told, got, matches) is None <==> got == told && matches,
        installer_outcome(told, got, matches) is Ok <==> got == told && matches,
{
}

/// A release is an update where its version is above the current one, or where the versions are the same and
/// the commit is another one; where the versions cannot be compared, any other version is.
pub proof fn releases_are_updates(
    current: Seq<char>,
    latest: Seq<char>,
    commit: Seq<char>,
    latest_commit: Seq<char>,
)
    ensures
        is_update(Some(true), current, latest, Some(commit), latest_commit),
        is_update(Some(true), current, latest, None, latest_commit),
        version_label(current) != version_label(latest) ==> !is_update(
            Some(false),
            current,
            latest,
            Some(commit),
            latest_commit,
        ),
        version_label(current) != version_label(latest) ==> is_update(
            None,
            current,
            latest,
            Some(commit),
            latest_commit,
        ),
        version_label(current) == version_label(latest) ==> !is_update(
            Some(false),
            current,
            latest,
            None,
            latest_commit,
        ),
        version_label(current) == version_label(latest) ==> (is_update(
            Some(false),
            current,
            latest,
            Some(commit),
            latest_commit,
        ) <==> !text::is_blank(commit) && text::lower_text(commit) != text::lower_text(
            text::trimmed(latest_commit),
        )),
{
}

/// The name of a file may hold no stroke of either kind and no white space around it, and is not empty.
pub proof fn plain_names_stay_in_their_folder(name: Seq<char>)
    ensures
        is_plain_name(name) <==> name.len() > 0 && text::trimmed(name) == name && (forall|i: int|
            0 <= i < name.len() ==> #[trigger] name[i] != '/' && name[i] != '\\'),
{
    if is_plain_name(name) {
        assert forall|i: int| 0 <= i < name.len() implies #[trigger] name[i] != '/' && name[i]
            != '\\' by {
            if name[i] == '/' {
                assert(scan::has_char(name, '/'));
            }
            if name[i] == '\\' {
                assert(scan::has_char(name, '\\'));
            }
        }
    }
}

/// An update of the renderer is offered exactly where an older one is installed; the latest one is shown under its
/// own version, and a missing one as not installed.
pub proof fn older_renderers_can_be_updated(
    r: RendererUpdateStatus,
    installed: InstalledRenderer,
    manifest: RendererManifest,
)
    requires
        shows_renderer(r, installed, manifest),
    ensures
        r.latest_version@ == manifest.version@ && r.size_bytes == manifest.size_bytes,
        installed is Older ==> r.update_available && r.installed && !r.custom_override,
        installed is Latest ==> !r.update_available && r.installed && r.current_version@ == r.latest_version@,
        installed is Missing ==> !r.update_available && !r.installed && r.current_version@
            == "not installed"@,
        installed is Custom ==> !r.update_available && r.installed && r.custom_override,
{
}

proof fn asset_is_first(assets: Seq<GitHubReleaseAsset>, name: Seq<char>, from: int, i: int)
    requires
        0 <= from <= i < assets.len(),
        text::lower_text(assets[i].name@) == text::lower_text(name),
        forall|j: int|
            from <= j < i ==> text::lower_text((#[trigger] assets[j]).name@) != text::lower_text(name),
    ensures
        asset_place(assets, name, from) == Some(i),
    decreases i - from,
{
    if from < i {
        assert(text::lower_text(assets[from].name@) != text::lower_text(name));
        asset_is_first(assets, name, from + 1, i);
    }
}

/// The asset of a release is the first one of its name, in whatever case.
pub proof fn assets_are_found_by_name(assets: Seq<GitHubReleaseAsset>, name: Seq<char>, i: int)
    requires
        0 <= i < assets.len(),
        text::lower_text(assets[i].name@) == text::lower_text(name),
        forall|j: int| 0 <= j < i ==> text::lower_text((#[trigger] assets[j]).name@) != text::lower_text(name),
    ensures
        asset_place(assets, name, 0) == Some(i),
{
    asset_is_first(assets, name, 0, i);
}

/// Two names are those of one asset where they differ in case, or in a space or a dot where the other has a
/// hyphen; which of the two comes first does not matter.
pub proof fn names_of_assets_are_alike(a: Seq<char>, b: Seq<char>, c: char)
    ensures
        same_asset(a, a),
        same_asset(a, b) <==> same_asset(b, a),
        text::lower_text(a) == text::lower_text(b) ==> same_asset(a, b),
        github_char(' ') == '-' && github_char('.') == '-',
        'A' <= c <= 'Z' ==> github_char(c) as int == c as int + 32,
        'a' <= c <= 'z' || '0' <= c <= '9' || c == '-' || c == '_' ==> github_char(c) == c,
{
}

/// The label of a version is the version without space around it and without the letters in front of it.
pub proof fn versions_have_labels(v: Seq<char>)
    requires
        text::trimmed(v) == v,
        v.len() > 0,
        v[0] != 'v',
    ensures
        version_label(v) == v,
        version_label(seq!['v'] + v) == v,
{
    let w = seq!['v'] + v;
    text::trimmed_ends(v);
    assert(w.drop_first() =~= v);
    assert(text::drop_front(v, text::only('v')) == v);
    assert(w.last() == v.last());
    assert(text::trimmed(w) == w) by {
        text::only_space_is_trimmed(Seq::empty(), w, Seq::empty());
        assert(Seq::<char>::empty() + w + Seq::<char>::empty() =~= w);
    }
}

/// A renderer that was chosen is used where it is there, unless it is the one of this client.
pub proof fn chosen_renderers_are_used(path: Seq<char>, managed: bool)
    ensures
        !text::is_blank(path) ==> chosen_renderer(path, true, false) == Some(text::trimmed(path)),
        chosen_renderer(path, false, managed) is None,
        chosen_renderer(path, true, true) is None,
        text::is_blank(path) ==> chosen_renderer(path, true, managed) is None,
{
}

/// An update is shown with the version, the commit, the size and the checksum of its release, and with the
/// address and the name of its installer.
pub proof fn updates_show_their_release(
    r: ClientUpdateStatus,
    current_version: Seq<char>,
    installer: GitHubReleaseAsset,
    manifest: ClientManifest,
)
    requires
        shows_update(r, current_version, installer, manifest),
    ensures
        r.current_version@ == current_version && r.latest_version@ == version_label(manifest.version@),
        r.download_url@ == installer.browser_download_url@ && r.asset_name@ == installer.name@,
        r.size_bytes == manifest.size_bytes && r.sha256@ == manifest.sha256@,
        r.latest_commit@ == text::trimmed(manifest.client_commit@),
{
}

/// The size that is told of an installer is never less than either of the two that are known.
pub proof fn larger_sizes_count(n: u64, size_bytes: u64)
    ensures
        larger_size(Some(n), size_bytes) >= n && larger_size(Some(n), size_bytes) >= size_bytes,
        larger_size(Some(n), size_bytes) == n || larger_size(Some(n), size_bytes) == size_bytes,
        larger_size(None, size_bytes) == size_bytes,
{
}

proof fn client_asset_is_first(assets: Seq<GitHubReleaseAsset>, name: Seq<char>, from: int, i: int)
    requires
        0 <= from <= i < assets.len(),
        same_asset(assets[i].name@, name),
        forall|j: int| from <= j < i ==> !same_asset((#[trigger] assets[j]).name@, name),
    ensures
        client_asset_place(assets, name, from) == Some(i),
    decreases i - from,
{
    if from < i {
        assert(!same_asset(assets[from].name@, name));
        client_asset_is_first(assets, name, from + 1, i);
    }
}

/// The installer of a release is the first of its assets that has its name.
pub proof fn installers_are_found_by_name(assets: Seq<GitHubReleaseAsset>, name: Seq<char>, i: int)
    requires
        0 <= i < assets.len(),
        same_asset(assets[i].name@, name),
        forall|j: int| 0 <= j < i ==> !same_asset((#[trigger] assets[j]).name@, name),
    ensures
        client_asset_place(assets, name, 0) == Some(i),
{
    client_asset_is_first(assets, name, 0, i);
}

/// A download of another size is refused with both sizes, and one with another checksum for that.
pub proof fn refused_downloads_tell_why(told: u64, got: nat)
    ensures
        got != told ==> download_problem(told, got, true) == Some(
            "renderer size mismatch: expected "@ + scan::decimal(told as nat) + " bytes, got "@
                + scan::decimal(got) + " bytes"@,
        ),
        got == told ==> download_problem(told, got, false) == Some(
            "renderer checksum mismatch after download"@,
        ),
        got == told ==> installer_outcome(told, got, false) == Err::<(), ErrorView>(
            ErrorView::Binary("client installer checksum mismatch after download"@),
        ),
        got != told ==> installer_outcome(told, got, true) == Err::<(), ErrorView>(
            ErrorView::Binary(
                "client installer size mismatch: expected "@ + scan::decimal(told as nat) + " bytes, got "@
                    + scan::decimal(got) + " bytes"@,
            ),
        ),
{
}

} // verus!
