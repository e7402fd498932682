//! The tools for videos that the renderer needs.
use crate::codec;
use crate::codec::sha256_hex;
use crate::error;
use crate::error::{AppError, AppResult, ErrorView};
use crate::paths;
use crate::paths::{path_extension, AppPaths, LocalPath};
use crate::scan;
use crate::scan::{ends_with, parse_u64, replace, show, split_at_char, split_on};
use crate::text;
use crate::text::{cat, cat3, chars_of, eq_ignore_case, lowercase, same_text, trim};
use crate::transfer;
use crate::transfer::content_range_total;
use vstd::prelude::*;

verus! {

pub const FFMPEG_ZIP_URL: &'static str =
    "https://www.gyan.dev/ffmpeg/builds/ffmpeg-release-essentials.zip";

pub const FFMPEG_ZIP_SHA256_URL: &'static str =
    "https://www.gyan.dev/ffmpeg/builds/ffmpeg-release-essentials.zip.sha256";

pub const FFMPEG_ZIP_MAX_BYTES: u64 = 268_435_456;

pub const FFMPEG_TOOL_MAX_BYTES: u64 = 134_217_728;

/// A tool, where it lies and how it was found.
pub struct ManagedToolSnapshot {
    pub path: String,
    pub directory: String,
    pub exists: bool,
    pub source: String,
}

/// Both tools, and the folder that the client keeps them in.
pub struct FfmpegToolsSnapshot {
    pub directory: String,
    pub ffmpeg: ManagedToolSnapshot,
    pub ffprobe: ManagedToolSnapshot,
}

/// Whether a tool can be run, and its size.
#[derive(Clone, Copy, PartialEq, Eq, Structural)]
pub struct FfmpegToolInfo {
    pub available: bool,
    pub size_bytes: Option<u64>,
}

/// Where the tools were installed, and how much was fetched for it.
pub struct FfmpegInstallResult {
    pub directory: String,
    pub size_bytes: u64,
}

// ---------------------------------------------------------------------------------------------
// Where the tools lie
// ---------------------------------------------------------------------------------------------

/// The folder that the client keeps the tools in.
pub fn managed_ffmpeg_dir(paths: &AppPaths) -> (r: LocalPath)
    ensures
        r@ == paths.bin_dir@.below("ffmpeg"@),
{
    paths.bin_dir.join("ffmpeg")
}

/// The name of the file of a program: on Windows it ends with the extension of programs.
pub open spec fn executable_name(program: Seq<char>, windows: bool) -> Seq<char> {
    if !windows || scan::finishes(text::lower_text(program), ".exe"@) {
        program
    } else {
        program + ".exe"@
    }
}

/// The name of the file of a program.
pub fn executable_file_name(program: &str, windows: bool) -> (r: String)
    ensures
        r@ == executable_name(program@, windows),
{
    if !windows || ends_with(lowercase(program).as_str(), ".exe") {
        program.to_owned()
    } else {
        cat(program, ".exe")
    }
}

/// The file of a tool in the folder of the client.
pub fn managed_ffmpeg_tool_path(paths: &AppPaths, program: &str, windows: bool) -> (r: LocalPath)
    ensures
        r@ == paths.bin_dir@.below("ffmpeg"@).below(executable_name(program@, windows)),
{
    managed_ffmpeg_dir(paths).join(executable_file_name(program, windows).as_str())
}

/// What was found of a tool: the file in the folder of the client, that folder, whether the file is
/// there, and the file of that name and its folder on the search path of the system.
pub struct ToolSearch {
    pub managed_path: String,
    pub managed_directory: String,
    pub managed_exists: bool,
    pub on_path: Option<(String, String)>,
}

/// A tool that is used was found as described.
pub open spec fn uses(tool: ManagedToolSnapshot, found: ToolSearch) -> bool {
    match found.on_path {
        Some(p) if !found.managed_exists => tool.path == p.0 && tool.directory == p.1 && tool.exists
            && tool.source@ == "path"@,
        _ => tool.path == found.managed_path && tool.directory == found.managed_directory
            && tool.exists == found.managed_exists && tool.source@ == "managed"@,
    }
}

/// The tool that is used: the one of the client where there is one, otherwise the one of the system,
/// and where there is none the one that the client would install.
pub fn managed_tool_snapshot(found: ToolSearch) -> (r: ManagedToolSnapshot)
    ensures
        uses(r, found),
{
    if !found.managed_exists {
        if let Some(p) = found.on_path {
            return ManagedToolSnapshot {
                path: p.0,
                directory: p.1,
                exists: true,
                source: "path".to_owned(),
            };
        }
    }
    ManagedToolSnapshot {
        path: found.managed_path,
        directory: found.managed_directory,
        exists: found.managed_exists,
        source: "managed".to_owned(),
    }
}

/// Both tools, and the folder that the client keeps them in.
pub fn ffmpeg_tools_snapshot(directory: String, ffmpeg: ToolSearch, ffprobe: ToolSearch) -> (r:
    FfmpegToolsSnapshot)
    ensures
        r.directory == directory,
        uses(r.ffmpeg, ffmpeg),
        uses(r.ffprobe, ffprobe),
{
    FfmpegToolsSnapshot {
        directory,
        ffmpeg: managed_tool_snapshot(ffmpeg),
        ffprobe: managed_tool_snapshot(ffprobe),
    }
}

/// A program with each of these extensions; blank ones are left out.
pub open spec fn candidate_names(program: Seq<char>, extensions: Seq<Seq<char>>) -> Seq<Seq<char>>
    decreases extensions.len(),
{
    if extensions.len() == 0 {
        Seq::empty()
    } else {
        let before = candidate_names(program, extensions.drop_last());
        let e = text::trimmed(extensions.last());
        if e.len() == 0 {
            before
        } else {
            before.push(program + e)
        }
    }
}

/// The names under which a program is looked for: on Windows a program without an extension is looked
/// for with each extension that the system knows, and then as an executable file; any other program is
/// looked for as it is.
pub open spec fn candidates(
    program: Seq<char>,
    windows: bool,
    has_extension: bool,
    pathext: Option<Seq<char>>,
) -> Seq<Seq<char>> {
    if !windows || has_extension {
        seq![program]
    } else {
        (match pathext {
            Some(p) => candidate_names(program, scan::split(p, text::only(';'))),
            None => Seq::empty(),
        }).push(program + ".exe"@)
    }
}

/// The names under which a program is looked for, given whether it has an extension and the
/// extensions that the system knows.
pub fn candidates_of(program: &str, windows: bool, has_extension: bool, pathext: Option<&str>) -> (r:
    Vec<String>)
    ensures
        text::texts(r@) == candidates(program@, windows, has_extension, text::opt_str(pathext)),
{
    let mut names: Vec<String> = Vec::new();
    assert(text::texts(names@) =~= Seq::empty());
    if !windows || has_extension {
        names.push(program.to_owned());
        assert(text::texts(names@) =~= seq![program@]);
        return names;
    }
    if let Some(p) = pathext {
        let parts = split_at_char(p, ';');
        let ghost all = text::texts(parts@);
        let mut i: usize = 0;
        assert(all.take(0) =~= Seq::empty());
        while i < parts.len()
            invariant
                i <= parts@.len(),
                all == text::texts(parts@),
                text::texts(names@) == candidate_names(program@, all.take(i as int)),
            decreases parts@.len() - i,
        {
            proof {
                assert(all.take(i + 1).drop_last() =~= all.take(i as int));
                assert(all.take(i + 1).last() == parts@[i as int]@);
            }
            let e = trim(parts[i].as_str());
            if !e.as_str().is_empty() {
                let ghost before = text::texts(names@);
                names.push(cat(program, e.as_str()));
                assert(text::texts(names@) =~= before.push(program@ + e@));
            }
            i = i + 1;
        }
        assert(all.take(all.len() as int) =~= all);
    }
    let ghost before = text::texts(names@);
    names.push(cat(program, ".exe"));
    assert(text::texts(names@) =~= before.push(program@ + ".exe"@));
    names
}

/// The names under which a program is looked for, given the extensions that the system knows.
pub fn executable_candidate_names(program: &str, windows: bool, pathext: Option<&str>) -> (r: Vec<
    String,
>)
    ensures
        exists|extension: Option<Seq<char>>|
            #[trigger] paths::may_extend(program@, extension) && text::texts(r@) == candidates(
                program@,
                windows,
                extension is Some,
                text::opt_str(pathext),
            ),
{
    let extension = path_extension(program);
    assert(paths::may_extend(program@, text::opt_text(extension)));
    candidates_of(program, windows, extension.is_some(), pathext)
}

/// What is said of the tools in the plan of a benchmark, and where they are missing.
pub open spec fn requirement(s: FfmpegToolsSnapshot, ffmpeg: bool, ffprobe: bool) -> Seq<char> {
    if ffmpeg && ffprobe {
        "Available for renderer encoding at "@ + s.directory@
    } else if ffprobe {
        "ffmpeg is missing. Download all will install it to "@ + s.ffmpeg.path@
    } else if ffmpeg {
        "ffprobe is missing. Download all will install it to "@ + s.ffprobe.path@
    } else {
        "ffmpeg and ffprobe are missing. Download all will install them to "@ + s.directory@
    }
}

/// What is said of the tools, given which of them can be run.
pub fn ffmpeg_requirement_message(
    snapshot: &FfmpegToolsSnapshot,
    ffmpeg_available: bool,
    ffprobe_available: bool,
) -> (r: String)
    ensures
        r@ == requirement(*snapshot, ffmpeg_available, ffprobe_available),
{
    if ffmpeg_available && ffprobe_available {
        cat("Available for renderer encoding at ", snapshot.directory.as_str())
    } else if ffprobe_available {
        cat(
            "ffmpeg is missing. Download all will install it to ",
            snapshot.ffmpeg.path.as_str(),
        )
    } else if ffmpeg_available {
        cat(
            "ffprobe is missing. Download all will install it to ",
            snapshot.ffprobe.path.as_str(),
        )
    } else {
        cat(
            "ffmpeg and ffprobe are missing. Download all will install them to ",
            snapshot.directory.as_str(),
        )
    }
}

// ---------------------------------------------------------------------------------------------
// The checksum
// ---------------------------------------------------------------------------------------------

/// Sixty-four hexadecimal digits.
pub open spec fn is_sha256(s: Seq<char>) -> bool {
    s.len() == 64 && forall|i: int| 0 <= i < s.len() ==> text::is_hex_digit(#[trigger] s[i])
}

/// Whether a text is sixty-four hexadecimal digits.
pub fn is_sha256_text(value: &str) -> (r: bool)
    ensures
        r == is_sha256(value@),
{
    let v = chars_of(value);
    if v.len() != 64 {
        return false;
    }
    let mut i: usize = 0;
    while i < v.len()
        invariant
            i <= v@.len(),
            v@ == value@,
            forall|j: int| 0 <= j < i ==> text::is_hex_digit(#[trigger] value@[j]),
        decreases v@.len() - i,
    {
        if !text::hex_digit(v[i]) {
            assert(!text::is_hex_digit(value@[i as int]));
            return false;
        }
        i = i + 1;
    }
    true
}

/// White space, the asterisk and the equals sign.
pub open spec fn separates() -> spec_fn(char) -> bool {
    |c: char| text::is_white_space(c) || c == '*' || c == '='
}

/// The first part that is a checksum, in lower case.
pub open spec fn first_checksum(parts: Seq<Seq<char>>) -> Option<Seq<char>>
    decreases parts.len(),
{
    if parts.len() == 0 {
        None
    } else {
        let p = text::lower_text(text::trimmed(parts[0]));
        if is_sha256(p) {
            Some(p)
        } else {
            first_checksum(parts.skip(1))
        }
    }
}

/// The checksum that a file of checksums tells.
pub fn fetch_ffmpeg_archive_sha256(manifest: &str) -> (r: AppResult<String>)
    ensures
        error::outcome(r) == match first_checksum(scan::split(manifest@, separates())) {
            Some(s) => Ok::<Seq<char>, ErrorView>(s),
            None => Err(
                ErrorView::Binary("FFmpeg SHA-256 manifest did not contain a valid hash"@),
            ),
        },
{
    let v = chars_of(manifest);
    let parts = split_on(
        v.as_slice(),
        |c: char| -> (b: bool)
            ensures b == (text::is_white_space(c) || c == '*' || c == '=')
            { text::white_space(c) || c == '*' || c == '=' },
        Ghost(separates()),
    );
    let ghost all = text::texts(parts@);
    let mut i: usize = 0;
    assert(all.skip(0) =~= all);
    while i < parts.len()
        invariant
            i <= parts@.len(),
            all == text::texts(parts@),
            all == scan::split(manifest@, separates()),
            first_checksum(all) == first_checksum(all.skip(i as int)),
        decreases parts@.len() - i,
    {
        proof {
            assert(all.skip(i as int)[0] == parts@[i as int]@);
            assert(all.skip(i as int).skip(1) =~= all.skip(i + 1));
        }
        let p = lowercase(trim(parts[i].as_str()).as_str());
        if is_sha256_text(p.as_str()) {
            return Ok(p);
        }
        i = i + 1;
    }
    Err(AppError::Binary("FFmpeg SHA-256 manifest did not contain a valid hash".to_owned()))
}

// ---------------------------------------------------------------------------------------------
// The archive
// ---------------------------------------------------------------------------------------------

/// An archive of that size may be fetched.
pub open spec fn fits_limit(declared: Option<u64>) -> bool {
    declared matches Some(n) ==> n <= FFMPEG_ZIP_MAX_BYTES
}

/// Refuses an archive that is told to be too large.
pub fn check_archive_length(declared: Option<u64>) -> (r: AppResult<()>)
    ensures
        r is Ok == fits_limit(declared),
        error::plain(r) == match declared {
            Some(n) => if n > FFMPEG_ZIP_MAX_BYTES {
                Err(
                    ErrorView::Binary(
                        "FFmpeg archive is larger than the "@ + scan::decimal(
                            FFMPEG_ZIP_MAX_BYTES as nat,
                        ) + " byte safety limit"@,
                    ),
                )
            } else {
                Ok(())
            },
            None => Ok(()),
        },
{
    if let Some(n) = declared {
        if n > FFMPEG_ZIP_MAX_BYTES {
            return Err(
                AppError::Binary(
                    cat3(
                        "FFmpeg archive is larger than the ",
                        show(FFMPEG_ZIP_MAX_BYTES).as_str(),
                        " byte safety limit",
                    ),
                ),
            );
        }
    }
    Ok(())
}

/// Counts a chunk of the archive.
pub fn archive_chunk(downloaded: u64, len: u64) -> (r: AppResult<u64>)
    ensures
        error::plain(r) == if downloaded + len > FFMPEG_ZIP_MAX_BYTES {
            Err(
                ErrorView::Binary(
                    "FFmpeg archive exceeded the "@ + scan::decimal(FFMPEG_ZIP_MAX_BYTES as nat)
                        + " byte safety limit"@,
                ),
            )
        } else {
            Ok((downloaded + len) as u64)
        },
{
    match downloaded.checked_add(len) {
        Some(next) => if next <= FFMPEG_ZIP_MAX_BYTES {
            return Ok(next);
        },
        None => {},
    }
    Err(
        AppError::Binary(
            cat3(
                "FFmpeg archive exceeded the ",
                show(FFMPEG_ZIP_MAX_BYTES).as_str(),
                " byte safety limit",
            ),
        ),
    )
}

/// The outcome of fetching the archive: it is not empty, and it has the checksum that is told.
pub open spec fn archive_outcome(downloaded: nat, matches: bool) -> Result<(), ErrorView> {
    if downloaded == 0 {
        Err(ErrorView::Binary("FFmpeg archive download was empty"@))
    } else if !matches {
        Err(ErrorView::Binary("FFmpeg archive checksum mismatch"@))
    } else {
        Ok(())
    }
}

/// Refuses an archive that has come whole, given its size and its checksum.
pub fn judge_archive(downloaded: u64, actual: &str, expected: &str) -> (r: AppResult<()>)
    ensures
        error::plain(r) == archive_outcome(
            downloaded as nat,
            text::same_ignoring_case(actual@, expected@),
        ),
{
    if downloaded == 0 {
        return Err(AppError::Binary("FFmpeg archive download was empty".to_owned()));
    }
    if !eq_ignore_case(actual, expected) {
        return Err(AppError::Binary("FFmpeg archive checksum mismatch".to_owned()));
    }
    Ok(())
}

/// Refuses an archive that has come whole and is not what is told.
pub fn download_ffmpeg_archive(bytes: &[u8], expected: &str) -> (r: AppResult<()>)
    ensures
        error::plain(r) == archive_outcome(
            bytes@.len(),
            text::same_ignoring_case(codec::hex_text(codec::sha256(bytes@)), expected@),
        ),
{
    judge_archive(bytes.len() as u64, sha256_hex(bytes).as_str(), expected)
}

/// A file in an archive: its name and its size.
pub struct ArchiveEntry {
    pub name: String,
    pub size: u64,
}

/// A file in an archive is the wanted tool.
pub open spec fn is_tool(name: Seq<char>, tool: Seq<char>) -> bool {
    let n = text::lower_text(scan::replaced(name, '\\', "/"@));
    scan::finishes(n, "/bin/"@ + tool) || n == tool
}

/// The first file from that place on that is the wanted tool.
pub open spec fn tool_place(entries: Seq<ArchiveEntry>, tool: Seq<char>, from: int) -> Option<int>
    decreases entries.len() - from,
{
    if from < 0 || from >= entries.len() {
        None
    } else if is_tool(entries[from].name@, tool) {
        Some(from)
    } else {
        tool_place(entries, tool, from + 1)
    }
}

/// Finds a tool in an archive, and refuses one that is empty or too large.
pub fn extract_archive_tool(entries: &Vec<ArchiveEntry>, executable_name: &str) -> (r: AppResult<usize>)
    ensures
        match tool_place(entries@, executable_name@, 0) {
            None => r matches Err(e) && e@ == ErrorView::Binary(
                executable_name@ + " was not found in the FFmpeg archive"@,
            ),
            Some(i) => if entries@[i].size == 0 || entries@[i].size > FFMPEG_TOOL_MAX_BYTES {
                r matches Err(e) && e@ == ErrorView::Binary(
                    executable_name@ + " in FFmpeg archive has an invalid size"@,
                )
            } else {
                r matches Ok(j) && j == i
            },
        },
{
    let tail = cat("/bin/", executable_name);
    let mut i: usize = 0;
    while i < entries.len()
        invariant
            i <= entries@.len(),
            tail@ == "/bin/"@ + executable_name@,
            tool_place(entries@, executable_name@, 0) == tool_place(
                entries@,
                executable_name@,
                i as int,
            ),
        decreases entries@.len() - i,
    {
        let n = lowercase(replace(entries[i].name.as_str(), '\\', "/").as_str());
        if ends_with(n.as_str(), tail.as_str()) || same_text(n.as_str(), executable_name) {
            let size: u64 = entries[i].size;
            if size == 0 || size > FFMPEG_TOOL_MAX_BYTES {
                return Err(
                    AppError::Binary(cat(executable_name, " in FFmpeg archive has an invalid size")),
                );
            }
            return Ok(i);
        }
        i = i + 1;
    }
    Err(AppError::Binary(cat(executable_name, " was not found in the FFmpeg archive")))
}

/// Refuses a tool that was not unpacked whole.
pub fn check_extracted(executable_name: &str, copied: u64, expected: u64) -> (r: AppResult<()>)
    ensures
        error::plain(r) == if copied == expected {
            Ok(())
        } else {
            Err(
                ErrorView::Binary(
                    executable_name@ + " in FFmpeg archive could not be extracted completely"@,
                ),
            )
        },
{
    if copied != expected {
        return Err(
            AppError::Binary(
                cat(executable_name, " in FFmpeg archive could not be extracted completely"),
            ),
        );
    }
    Ok(())
}

/// The size of an archive: that of its range, or else its length, unless it is zero.
pub open spec fn archive_size(range: Option<u64>, length: Option<nat>) -> Option<u64> {
    if range is Some {
        range
    } else {
        match length {
            Some(n) => if n > 0 {
                Some(n as u64)
            } else {
                None
            },
            None => None,
        }
    }
}

/// The size of the archive, from the headers of a response: that of the whole where it is a part.
pub fn content_length_or_range_total(content_range: Option<&str>, content_length: Option<&str>) -> (r:
    Option<u64>)
    ensures
        r == archive_size(
            match content_range {
                Some(h) => transfer::range_total(h@),
                None => None,
            },
            match content_length {
                Some(h) => scan::unsigned_value(text::trimmed(h@), u64::MAX as nat),
                None => None,
            },
        ),
        r == {
            let total = match content_range {
                Some(h) => transfer::range_total(h@),
                None => None,
            };
            if total is Some {
                total
            } else {
                match content_length {
                    Some(h) => match scan::unsigned_value(text::trimmed(h@), u64::MAX as nat) {
                        Some(n) => if n > 0 {
                            Some(n as u64)
                        } else {
                            None
                        },
                        None => None,
                    },
                    None => None,
                }
            }
        },
{
    let total: Option<u64> = content_range_total(content_range);
    if total.is_some() {
        return total;
    }
    match content_length {
        Some(h) => match parse_u64(trim(h).as_str()) {
            Some(n) => if n > 0 {
                Some(n)
            } else {
                None
            },
            None => None,
        },
        None => None,
    }
}

/// A checksum is the same whatever the case of its digits.
pub proof fn checksums_ignore_case(s: Seq<char>)
    requires
        is_sha256(s),
    ensures
        is_sha256(text::lower_text(s)),
        text::same_ignoring_case(s, text::lower_text(s)),
{
    let l = text::lower_text(s);
    assert forall|i: int| 0 <= i < l.len() implies text::is_hex_digit(#[trigger] l[i]) by {
        assert(text::is_hex_digit(s[i]));
    }
    assert(text::lower_text(l) =~= l);
}

/// A program has the extension of one on Windows, once, and its own name elsewhere.
pub proof fn programs_have_names(program: Seq<char>)
    ensures
        executable_name(program, false) == program,
        scan::finishes(text::lower_text(program), ".exe"@) ==> executable_name(program, true) == program,
        !scan::finishes(text::lower_text(program), ".exe"@) ==> executable_name(program, true) == program
            + ".exe"@,
{
}

/// A tool of this client is used before one on the path, and one on the path where this client has none.
pub proof fn own_tools_come_first(tool: ManagedToolSnapshot, found: ToolSearch)
    requires
        uses(tool, found),
    ensures
        found.managed_exists ==> tool.path == found.managed_path && tool.exists && tool.source@ == "managed"@,
        !found.managed_exists ==> (found.on_path matches Some(p) ==> tool.path == p.0 && tool.exists
            && tool.source@ == "path"@),
        !found.managed_exists && found.on_path is None ==> !tool.exists,
{
}

/// A checksum is sixty-four hexadecimal digits.
pub proof fn checksums_have_sixty_four_digits(s: Seq<char>)
    ensures
        is_sha256(s) ==> s.len() == 64,
        is_sha256(s) ==> forall|i: int|
            0 <= i < 64 ==> '0' <= #[trigger] s[i] <= '9' || 'a' <= s[i] <= 'f' || 'A' <= s[i] <= 'F',
        s.len() == 64 && (forall|i: int|
            0 <= i < 64 ==> '0' <= #[trigger] s[i] <= '9' || 'a' <= s[i] <= 'f' || 'A' <= s[i] <= 'F')
            ==> is_sha256(s),
{
}

/// The first checksum among some texts is the one that is taken.
pub proof fn first_checksums_are_taken(parts: Seq<Seq<char>>, i: int)
    ensures
        0 <= i < parts.len() && is_sha256(text::lower_text(text::trimmed(parts[i]))) && (forall|j: int|
            0 <= j < i ==> !is_sha256(text::lower_text(text::trimmed(#[trigger] parts[j]))))
            ==> first_checksum(parts) == Some(text::lower_text(text::trimmed(parts[i]))),
        (forall|j: int|
            0 <= j < parts.len() ==> !is_sha256(text::lower_text(text::trimmed(#[trigger] parts[j]))))
            ==> first_checksum(parts) is None,
    decreases parts.len(),
{
    if parts.len() > 0 {
        let rest = parts.skip(1);
        first_checksums_are_taken(rest, i - 1);
        if forall|j: int|
            0 <= j < parts.len() ==> !is_sha256(text::lower_text(text::trimmed(#[trigger] parts[j]))) {
            assert forall|j: int| 0 <= j < rest.len() implies !is_sha256(
                text::lower_text(text::trimmed(#[trigger] rest[j])),
            ) by {
                assert(rest[j] == parts[j + 1]);
            }
            assert(!is_sha256(text::lower_text(text::trimmed(parts[0]))));
        }
        if 0 < i < parts.len() && (forall|j: int|
            0 <= j < i ==> !is_sha256(text::lower_text(text::trimmed(#[trigger] parts[j])))) {
            assert(!is_sha256(text::lower_text(text::trimmed(parts[0]))));
            assert(rest[i - 1] == parts[i]);
            assert forall|j: int| 0 <= j < i - 1 implies !is_sha256(
                text::lower_text(text::trimmed(#[trigger] rest[j])),
            ) by {
                assert(rest[j] == parts[j + 1]);
            }
        }
    }
}

/// An archive is accepted exactly where something came and its checksum is right.
pub proof fn whole_archives_are_accepted(downloaded: nat, matches: bool)
    ensures
        archive_outcome(downloaded, matches) is Ok <==> downloaded > 0 && matches,
{
}

/// What is missing is what is told to be.
pub proof fn missing_tools_are_told(s: FfmpegToolsSnapshot)
    ensures
        requirement(s, true, true) == "Available for renderer encoding at "@ + s.directory@,
        requirement(s, false, true) == "ffmpeg is missing. Download all will install it to "@
            + s.ffmpeg.path@,
        requirement(s, true, false) == "ffprobe is missing. Download all will install it to "@
            + s.ffprobe.path@,
        requirement(s, false, false)
            == "ffmpeg and ffprobe are missing. Download all will install them to "@ + s.directory@,
{
}

/// A tool is found in an archive by its name alone, or by its name in a folder of programs, in whatever case and
/// with strokes of either kind.
pub proof fn tools_are_found_by_name(folder: Seq<char>, tool: Seq<char>)
    requires
        text::lower_text(scan::replaced(tool, '\\', "/"@)) == tool,
        text::lower_text(scan::replaced(folder + "/bin/"@ + tool, '\\', "/"@)) == folder + "/bin/"@ + tool,
    ensures
        is_tool(tool, tool),
        is_tool(folder + "/bin/"@ + tool, tool),
{
    let n = folder + "/bin/"@ + tool;
    let p = "/bin/"@ + tool;
    assert(n.subrange(n.len() - p.len(), n.len() as int) =~= p);
}

proof fn tool_is_first(entries: Seq<ArchiveEntry>, tool: Seq<char>, from: int, i: int)
    requires
        0 <= from <= i < entries.len(),
        is_tool(entries[i].name@, tool),
        forall|j: int| from <= j < i ==> !is_tool((#[trigger] entries[j]).name@, tool),
    ensures
        tool_place(entries, tool, from) == Some(i),
    decreases i - from,
{
    if from < i {
        assert(!is_tool(entries[from].name@, tool));
        tool_is_first(entries, tool, from + 1, i);
    }
}

/// The first entry of an archive that is the tool is taken.
pub proof fn first_tools_are_taken(entries: Seq<ArchiveEntry>, tool: Seq<char>, i: int)
    requires
        0 <= i < entries.len(),
        is_tool(entries[i].name@, tool),
        forall|j: int| 0 <= j < i ==> !is_tool((#[trigger] entries[j]).name@, tool),
    ensures
        tool_place(entries, tool, 0) == Some(i),
{
    tool_is_first(entries, tool, 0, i);
}

/// A program is looked for under its own name, and on Windows, where it has no extension, under each extension of
/// a program in turn, and under that of one last.
pub proof fn programs_are_looked_for(program: Seq<char>, list: Seq<Seq<char>>, e: Seq<char>)
    ensures
        candidates(program, false, false, None) == seq![program],
        candidates(program, true, true, None) == seq![program],
        candidates(program, true, false, None) == seq![program + ".exe"@],
        !text::is_blank(e) ==> candidate_names(program, list.push(e)) == candidate_names(program, list).push(
            program + text::trimmed(e),
        ),
        text::is_blank(e) ==> candidate_names(program, list.push(e)) == candidate_names(program, list),
        candidate_names(program, Seq::empty()) == Seq::<Seq<char>>::empty(),
{
    assert(list.push(e).drop_last() =~= list);
    assert(candidates(program, true, false, None) =~= seq![program + ".exe"@]);
}

/// The size of an archive is that of its range where one is told, and its length otherwise; an archive of no size
/// tells none, and one that is too large is not fetched.
pub proof fn archives_tell_their_size(range: u64, n: u64)
    ensures
        archive_size(Some(range), Some(n as nat)) == Some(range),
        n > 0 ==> archive_size(None, Some(n as nat)) == Some(n),
        archive_size(None, Some(0)) is None,
        archive_size(None, None) is None,
        fits_limit(None),
        fits_limit(Some(n)) <==> n <= FFMPEG_ZIP_MAX_BYTES,
{
}

} // verus!
