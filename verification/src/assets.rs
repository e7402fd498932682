//! The pictures and fonts that a render shows: those of its display and those of its intro.
use crate::error::{AppError, AppResult, ErrorView};
use crate::jobs;
use crate::jobs::{
    resolve_file_extension, safe_hud_asset_component, IntroUserAssignment, JobAssignment,
    WorkerRenderMode,
};
use crate::json::{Json, JsonView};
use crate::paths;
use crate::paths::path_extension;
use crate::scan;
use crate::scan::{show, split_at_char, starts_with};
use crate::text;
use crate::text::{
    borrow_text, cat, cat3, chars_of, clone_opt_text, eq_ignore_case, filled_text, lowercase,
    same_text, trim, uppercase,
};
use vstd::prelude::*;

verus! {

/// The text in a field, without white space around it, if that is anything.
pub open spec fn filled_field(j: JsonView, name: Seq<char>) -> Option<Seq<char>> {
    text::filled(j.text_field(name))
}

/// The text in a field, without white space around it, if that is anything.
pub fn filled_text_of(j: &Json, name: &str) -> (r: Option<String>)
    ensures
        text::opt_text(r) == filled_field(j@, name@),
{
    filled_text(j.text_of(name))
}

// ---------------------------------------------------------------------------------------------
// The display
// ---------------------------------------------------------------------------------------------

/// Settings of the display whose assets have to be fetched.
pub open spec fn has_assets(config: JsonView) -> bool {
    config.field("version"@) matches Some(v) && v.unsigned() == Some(4u64)
}

/// Whether the assets of the settings of a display have to be fetched.
pub fn hud_has_assets(config: &Json) -> (r: bool)
    ensures
        r == has_assets(config@),
{
    match config.get("version") {
        Some(v) => match v.as_u64() {
            Some(n) => n == 4,
            None => false,
        },
        None => false,
    }
}

/// The file of an asset stands in its address.
pub open spec fn is_embedded(asset: JsonView) -> bool {
    filled_field(asset, "url"@) matches Some(u) && scan::begins(u, "data:"@)
}

fn embedded(asset: &Json) -> (r: bool)
    ensures
        r == is_embedded(asset@),
{
    match filled_text_of(asset, "url") {
        Some(u) => starts_with(u.as_str(), "data:"),
        None => false,
    }
}

/// The path of an asset that is not fetched where there is such a file.
pub fn hud_asset_path(asset: &Json) -> (r: Option<String>)
    ensures
        text::opt_text(r) == if is_embedded(asset@) {
            None
        } else {
            filled_field(asset@, "path"@)
        },
{
    if embedded(asset) {
        None
    } else {
        filled_text_of(asset, "path")
    }
}

/// The kind of a picture, as its record tells it.
pub open spec fn mime_type(asset: JsonView) -> Seq<char> {
    let field = match asset.field("mimeType"@) {
        Some(v) => Some(v),
        None => asset.field("mime_type"@),
    };
    match field {
        Some(v) => match v.text() {
            Some(s) => text::lower_text(s),
            None => Seq::empty(),
        },
        None => Seq::empty(),
    }
}

/// The extension of the file of a picture.
pub open spec fn asset_extension(asset: JsonView) -> Seq<char> {
    let mime = mime_type(asset);
    if mime == "image/gif"@ {
        ".gif"@
    } else if mime == "image/jpeg"@ || mime == "image/jpg"@ {
        ".jpg"@
    } else if mime == "image/webp"@ {
        ".webp"@
    } else if asset.text_field("kind"@) matches Some(k) && text::same_ignoring_case(k, "gif"@) {
        ".gif"@
    } else {
        ".png"@
    }
}

/// The extension of the file of a picture.
pub fn hud_asset_extension(asset: &Json) -> (r: &'static str)
    ensures
        r@ == asset_extension(asset@),
{
    let field = match asset.get("mimeType") {
        Some(v) => Some(v),
        None => asset.get("mime_type"),
    };
    let mime = match field {
        Some(v) => match v.as_str() {
            Some(s) => lowercase(s),
            None => String::new(),
        },
        None => String::new(),
    };
    if same_text(mime.as_str(), "image/gif") {
        return ".gif";
    }
    if same_text(mime.as_str(), "image/jpeg") || same_text(mime.as_str(), "image/jpg") {
        return ".jpg";
    }
    if same_text(mime.as_str(), "image/webp") {
        return ".webp";
    }
    if let Some(k) = asset.text_of("kind") {
        if eq_ignore_case(k, "gif") {
            return ".gif";
        }
    }
    ".png"
}

/// A picture that is to be fetched: its address, the name of its file, and whether the address goes
/// out of its record then.
pub struct AssetFetch {
    pub url: String,
    pub file_name: String,
    pub drop_url: bool,
}

/// What [`AssetFetch`] holds.
pub struct FetchView {
    pub url: Seq<char>,
    pub file_name: Seq<char>,
    pub drop_url: bool,
}

impl View for AssetFetch {
    type V = FetchView;

    open spec fn view(&self) -> FetchView {
        FetchView { url: self.url@, file_name: self.file_name@, drop_url: self.drop_url }
    }
}

/// The name of the file of a picture: its place in the list, its name and its extension.
pub open spec fn asset_file_name(asset: JsonView, index: nat) -> Seq<char> {
    "hud-"@ + scan::decimal(index) + "-"@ + jobs::asset_name(
        asset.text_field("id"@),
        "asset-"@ + scan::decimal(index),
    ) + asset_extension(asset)
}

/// Whether a picture is fetched, given whether there is a file at the path that its record tells. A
/// picture that stands in its address is always written out.
pub open spec fn asset_fetch(asset: JsonView, index: nat, path_exists: bool) -> Option<FetchView> {
    let here = !is_embedded(asset) && filled_field(asset, "path"@) is Some && path_exists;
    match filled_field(asset, "url"@) {
        Some(url) => if asset is Record && !here {
            Some(
                FetchView {
                    url,
                    file_name: asset_file_name(asset, index),
                    drop_url: is_embedded(asset),
                },
            )
        } else {
            None
        },
        None => None,
    }
}

/// Whether a picture is fetched, given whether there is a file at the path that its record tells.
pub fn hud_asset_fetch(asset: &Json, index: u64, path_exists: bool) -> (r: Option<AssetFetch>)
    ensures
        match r {
            Some(f) => asset_fetch(asset@, index as nat, path_exists) == Some(f@),
            None => asset_fetch(asset@, index as nat, path_exists) is None,
        },
{
    let from_address = embedded(asset);
    if !from_address && path_exists && filled_text_of(asset, "path").is_some() {
        return None;
    }
    let url = match filled_text_of(asset, "url") {
        Some(u) => u,
        None => {
            return None;
        },
    };
    let number = show(index);
    let id = safe_hud_asset_component(
        asset.text_of("id"),
        cat("asset-", number.as_str()).as_str(),
    );
    let mut file_name = cat3("hud-", number.as_str(), "-");
    file_name.append(id.as_str());
    file_name.append(hud_asset_extension(asset));
    Some(AssetFetch { url, file_name, drop_url: from_address })
}

/// The field with the address that belongs to the field with a path.
pub open spec fn url_key(path_key: Seq<char>) -> Option<Seq<char>> {
    if path_key == "path"@ {
        Some("url"@)
    } else if path_key == "normalPath"@ {
        Some("normalUrl"@)
    } else if path_key == "boldPath"@ {
        Some("boldUrl"@)
    } else {
        None
    }
}

/// The field with the address that belongs to the field with a path.
pub fn hud_font_url_key(path_key: &str) -> (r: Option<&'static str>)
    ensures
        text::opt_str(r) == url_key(path_key@),
{
    if same_text(path_key, "path") {
        Some("url")
    } else if same_text(path_key, "normalPath") {
        Some("normalUrl")
    } else if same_text(path_key, "boldPath") {
        Some("boldUrl")
    } else {
        None
    }
}

/// The extension of the file of a font: one of the known ones, or the usual one.
pub open spec fn font_extension(ext: Option<Seq<char>>) -> Seq<char> {
    match ext {
        Some(e) => if text::lower_text(e) == "ttf"@ {
            ".ttf"@
        } else if text::lower_text(e) == "otf"@ {
            ".otf"@
        } else if text::lower_text(e) == "ttc"@ {
            ".ttc"@
        } else {
            ".woff2"@
        },
        None => ".woff2"@,
    }
}

/// The extension of the file of a font, given that of its path.
pub fn choose_font_extension(ext: Option<&str>) -> (r: &'static str)
    ensures
        r@ == font_extension(text::opt_str(ext)),
{
    match ext {
        Some(e) => {
            let l = lowercase(e);
            if same_text(l.as_str(), "ttf") {
                ".ttf"
            } else if same_text(l.as_str(), "otf") {
                ".otf"
            } else if same_text(l.as_str(), "ttc") {
                ".ttc"
            } else {
                ".woff2"
            }
        },
        None => ".woff2",
    }
}

/// What a system may take for the extension of a path or an address without its query.
pub open spec fn may_extend_source(source: Option<Seq<char>>, ext: Option<Seq<char>>) -> bool {
    match source {
        Some(s) => paths::may_extend(scan::split(s, text::only('?'))[0], ext),
        None => ext is None,
    }
}

/// What may be the extension of the file of a font.
pub open spec fn may_have_font_extension(source: Option<Seq<char>>, ext: Seq<char>) -> bool {
    exists|e: Option<Seq<char>>| may_extend_source(source, e) && ext == #[trigger] font_extension(e)
}

/// The extension of the file of a font, by its path or address without the query.
pub fn hud_font_extension(source: Option<&str>) -> (r: &'static str)
    ensures
        may_have_font_extension(text::opt_str(source), r@),
{
    let ext = match source {
        Some(s) => {
            let parts = split_at_char(s, '?');
            path_extension(parts[0].as_str())
        },
        None => None,
    };
    let r = choose_font_extension(borrow_text(&ext));
    assert(may_extend_source(text::opt_str(source), text::opt_text(ext)));
    assert(r@ == font_extension(text::opt_text(ext)));
    r
}

/// Where a font may come from.
pub struct FontSource {
    pub path: Option<String>,
    pub url: Option<String>,
}

impl FontSource {
    /// The path, or the address where there is no path.
    pub open spec fn first(self) -> Option<Seq<char>> {
        match self.path {
            Some(p) => Some(p@),
            None => text::opt_text(self.url),
        }
    }
}

/// The path and the address of a font in one of its fields; nothing where it has neither.
pub fn hud_font_source(font: &Json, path_key: &str) -> (r: Option<FontSource>)
    ensures
        ({
            let path = filled_field(font@, path_key@);
            let url = match url_key(path_key@) {
                Some(k) => filled_field(font@, k),
                None => None,
            };
            match r {
                Some(s) => {
                    &&& text::opt_text(s.path) == path && text::opt_text(s.url) == url
                    &&& path is Some || url is Some
                },
                None => path is None && url is None,
            }
        }),
{
    let path = filled_text_of(font, path_key);
    let url = match hud_font_url_key(path_key) {
        Some(k) => filled_text_of(font, k),
        None => None,
    };
    if path.is_none() && url.is_none() {
        return None;
    }
    Some(FontSource { path, url })
}

/// The name of the file of a font: its place in the list, its name, its field and its extension.
pub open spec fn font_file_name(font: JsonView, index: nat, path_key: Seq<char>, ext: Seq<char>) -> Seq<
    char,
> {
    "hud-font-"@ + scan::decimal(index) + "-"@ + jobs::asset_name(
        font.text_field("id"@),
        "font-"@ + scan::decimal(index),
    ) + "-"@ + path_key + ext
}

/// The name of the file of a font.
pub fn hud_font_file_name(font: &Json, index: u64, path_key: &str, source: &FontSource) -> (r: String)
    ensures
        exists|e: Seq<char>|
            #[trigger] may_have_font_extension(source.first(), e) && r@ == font_file_name(
                font@,
                index as nat,
                path_key@,
                e,
            ),
{
    let number = show(index);
    let id = safe_hud_asset_component(
        font.text_of("id"),
        cat("font-", number.as_str()).as_str(),
    );
    let from = match &source.path {
        Some(p) => Some(p.as_str()),
        None => borrow_text(&source.url),
    };
    let ext = hud_font_extension(from);
    let mut name = cat3("hud-font-", number.as_str(), "-");
    name.append(id.as_str());
    name.append("-");
    name.append(path_key);
    name.append(ext);
    assert(may_have_font_extension(source.first(), ext@));
    assert(name@ == font_file_name(font@, index as nat, path_key@, ext@));
    name
}

/// What is done for a font.
pub enum FontAction {
    /// Leave its record as it is.
    Skip,
    /// It lies where it should; its record gets that path.
    Keep(String),
    /// Copy it from there.
    Copy(String),
    /// Fetch it from there.
    Download(String),
}

/// What is done with a font: the file that is here is kept or copied, and it is fetched otherwise.
pub open spec fn font_use(has_path: bool, has_url: bool, present: bool, in_place: bool) -> (bool, bool, bool) {
    (
        has_path && present && in_place,
        has_path && present && !in_place,
        !(has_path && present) && has_url,
    )
}

/// Decides what is done for a font, given whether there is a file at its path and whether that is
/// already the file of the job. A file that is there goes before an address.
pub fn hud_font_action(source: &FontSource, present: bool, in_place: bool) -> (r: FontAction)
    ensures
        (r is Keep, r is Copy, r is Download) == font_use(
            source.path is Some,
            source.url is Some,
            present,
            in_place,
        ),
        match (source.path, source.url) {
            (Some(p), _) if present => if in_place {
                r matches FontAction::Keep(s) && s@ == p@
            } else {
                r matches FontAction::Copy(s) && s@ == p@
            },
            (_, Some(u)) => r matches FontAction::Download(s) && s@ == u@,
            _ => r is Skip,
        },
{
    if let Some(p) = &source.path {
        if present {
            return if in_place {
                FontAction::Keep(p.clone())
            } else {
                FontAction::Copy(p.clone())
            };
        }
    }
    match &source.url {
        Some(u) => FontAction::Download(u.clone()),
        None => FontAction::Skip,
    }
}

// ---------------------------------------------------------------------------------------------
// The intro
// ---------------------------------------------------------------------------------------------

/// Two letters, in upper case.
pub open spec fn country(value: Option<Seq<char>>) -> Option<Seq<char>> {
    match value {
        Some(v) => {
            let s = text::upper_text(text::trimmed(v));
            if s.len() == 2 && text::is_upper(s[0]) && text::is_upper(s[1]) {
                Some(s)
            } else {
                None
            }
        },
        None => None,
    }
}

/// Two letters, in upper case.
pub fn normalize_country_code(value: Option<&str>) -> (r: Option<String>)
    ensures
        text::opt_text(r) == country(text::opt_str(value)),
{
    match value {
        Some(v) => {
            let s = uppercase(trim(v).as_str());
            let c = chars_of(s.as_str());
            if c.len() == 2 && 'A' <= c[0] && c[0] <= 'Z' && 'A' <= c[1] && c[1] <= 'Z' {
                Some(s)
            } else {
                None
            }
        },
        None => None,
    }
}

/// The address of the flag of a country.
pub open spec fn flag_url(code: Seq<char>) -> Seq<char> {
    "https://flagcdn.com/h40/"@ + text::lower_text(code) + ".png"@
}

/// The address of the flag of a country.
pub fn flag_url_for_country_code(country_code: &str) -> (r: String)
    ensures
        r@ == flag_url(country_code@),
{
    cat3("https://flagcdn.com/h40/", lowercase(country_code).as_str(), ".png")
}

/// The flag that the intro shows: the one that is told, or else that of the country.
pub open spec fn intro_flag(u: IntroUserAssignment) -> Option<Seq<char>> {
    match text::filled(text::opt_text(u.flag_url)) {
        Some(s) => Some(s),
        None => match country(text::opt_text(u.country_code)) {
            Some(c) => Some(flag_url(c)),
            None => None,
        },
    }
}

/// The flag that the intro shows.
pub fn intro_flag_url(intro_user: &IntroUserAssignment) -> (r: Option<String>)
    ensures
        text::opt_text(r) == intro_flag(*intro_user),
{
    match filled_text(borrow_text(&intro_user.flag_url)) {
        Some(s) => Some(s),
        None => match normalize_country_code(borrow_text(&intro_user.country_code)) {
            Some(c) => Some(flag_url_for_country_code(c.as_str())),
            None => None,
        },
    }
}

/// What the intro shows of the player.
pub struct IntroPlan {
    pub country_code: Option<String>,
    pub avatar_url: Option<String>,
    pub flag_url: Option<String>,
    pub team_badge_url: Option<String>,
}

/// What [`IntroPlan`] holds.
pub struct IntroView {
    pub country_code: Option<Seq<char>>,
    pub avatar_url: Option<Seq<char>>,
    pub flag_url: Option<Seq<char>>,
    pub team_badge_url: Option<Seq<char>>,
}

impl View for IntroPlan {
    type V = IntroView;

    open spec fn view(&self) -> IntroView {
        IntroView {
            country_code: text::opt_text(self.country_code),
            avatar_url: text::opt_text(self.avatar_url),
            flag_url: text::opt_text(self.flag_url),
            team_badge_url: text::opt_text(self.team_badge_url),
        }
    }
}

/// What the intro shows. A beatmap that plays itself shows the flag of Ecuador and no picture.
pub open spec fn intro_of(job: JobAssignment) -> Option<IntroView> {
    match job.intro_user {
        None => None,
        Some(u) => Some(
            match job.render_mode {
                WorkerRenderMode::Autoplay => IntroView {
                    country_code: Some("EC"@),
                    avatar_url: None,
                    flag_url: Some(flag_url("EC"@)),
                    team_badge_url: text::opt_text(u.team_badge_url),
                },
                WorkerRenderMode::Replay => IntroView {
                    country_code: country(text::opt_text(u.country_code)),
                    avatar_url: text::opt_text(u.avatar_url),
                    flag_url: intro_flag(u),
                    team_badge_url: text::opt_text(u.team_badge_url),
                },
            },
        ),
    }
}

/// What the intro of a job shows of the player.
pub fn prepare_intro_user_json(job: &JobAssignment) -> (r: Option<IntroPlan>)
    ensures
        match r {
            Some(p) => intro_of(*job) == Some(p@),
            None => intro_of(*job) is None,
        },
{
    match &job.intro_user {
        None => None,
        Some(u) => Some(
            match job.render_mode {
                WorkerRenderMode::Autoplay => IntroPlan {
                    country_code: Some("EC".to_owned()),
                    avatar_url: None,
                    flag_url: Some(flag_url_for_country_code("EC")),
                    team_badge_url: clone_opt_text(&u.team_badge_url),
                },
                WorkerRenderMode::Replay => IntroPlan {
                    country_code: normalize_country_code(borrow_text(&u.country_code)),
                    avatar_url: clone_opt_text(&u.avatar_url),
                    flag_url: intro_flag_url(u),
                    team_badge_url: clone_opt_text(&u.team_badge_url),
                },
            },
        ),
    }
}

/// The name of the file of a picture of the intro.
pub fn intro_file_name(stem: &str, url: Option<&str>) -> (r: String)
    ensures
        exists|e: Seq<char>|
            #[trigger] jobs::may_have_extension(text::opt_str(url), ".png"@, e) && r@ == stem@ + e,
{
    let ext = resolve_file_extension(url, ".png");
    cat(stem, ext.as_str())
}

/// A field of a list of fields, where there is a value for it.
pub open spec fn field_if(name: Seq<char>, value: Option<Seq<char>>) -> Seq<(Seq<char>, Seq<char>)> {
    match value {
        Some(v) => seq![(name, v)],
        None => seq![],
    }
}

/// What the fields of a list hold.
pub open spec fn fields_view(v: Seq<(String, String)>) -> Seq<(Seq<char>, Seq<char>)> {
    Seq::new(v.len(), |i: int| (v[i].0@, v[i].1@))
}

fn push_field(out: &mut Vec<(String, String)>, name: &str, value: &Option<String>)
    ensures
        fields_view(final(out)@) == fields_view(old(out)@) + field_if(name@, text::opt_text(*value)),
{
    if let Some(v) = value {
        out.push((name.to_owned(), v.clone()));
    }
    assert(fields_view(out@) =~= fields_view(old(out)@) + field_if(name@, text::opt_text(*value)));
}

/// What the intro is told of a player.
pub open spec fn intro_fields(
    avatar: Option<Seq<char>>,
    country_code: Option<Seq<char>>,
    flag: Option<Seq<char>>,
    team_badge: Option<Seq<char>>,
) -> Seq<(Seq<char>, Seq<char>)> {
    field_if("avatar_path"@, avatar) + field_if("country_code"@, country_code) + field_if(
        "flag_path"@,
        flag,
    ) + field_if("team_badge_path"@, team_badge)
}

/// The record of the intro, from the names of the files that were fetched and the country. A record
/// without fields is not written.
pub fn intro_manifest(
    avatar: &Option<String>,
    country_code: &Option<String>,
    flag: &Option<String>,
    team_badge: &Option<String>,
) -> (r: Option<Vec<(String, String)>>)
    ensures
        ({
            let all = intro_fields(
                text::opt_text(*avatar),
                text::opt_text(*country_code),
                text::opt_text(*flag),
                text::opt_text(*team_badge),
            );
            match r {
                Some(v) => fields_view(v@) == all,
                None => all.len() == 0,
            }
        }),
        ({
            let all = field_if("avatar_path"@, text::opt_text(*avatar)) + field_if(
                "country_code"@,
                text::opt_text(*country_code),
            ) + field_if("flag_path"@, text::opt_text(*flag)) + field_if(
                "team_badge_path"@,
                text::opt_text(*team_badge),
            );
            match r {
                Some(v) => all.len() > 0 && fields_view(v@) == all,
                None => all.len() == 0,
            }
        }),
{
    let mut out: Vec<(String, String)> = Vec::new();
    push_field(&mut out, "avatar_path", avatar);
    assert(fields_view(out@) =~= field_if("avatar_path"@, text::opt_text(*avatar)));
    push_field(&mut out, "country_code", country_code);
    push_field(&mut out, "flag_path", flag);
    push_field(&mut out, "team_badge_path", team_badge);
    assert(fields_view(out@).len() == out@.len());
    if out.len() == 0 {
        None
    } else {
        Some(out)
    }
}

/// The render was cancelled.
pub open spec fn cancelled(e: ErrorView) -> bool {
    e == ErrorView::Process("Render cancelled"@)
}

/// Whether an error says that the render was cancelled.
pub fn is_render_cancelled(e: &AppError) -> (r: bool)
    ensures
        r == cancelled(e@),
{
    match e {
        AppError::Process(m) => same_text(m.as_str(), "Render cancelled"),
        _ => false,
    }
}

/// A picture of the intro that cannot be fetched is left out; a cancelled render goes on to fail.
pub fn try_download_intro_asset(result: AppResult<u64>, file_name: &str) -> (r: AppResult<
    Option<String>,
>)
    ensures
        match result {
            Ok(_) => r matches Ok(Some(n)) && n@ == file_name@,
            Err(e) => if cancelled(e@) {
                r matches Err(f) && f@ == e@
            } else {
                r matches Ok(None)
            },
        },
{
    match result {
        Ok(_) => Ok(Some(file_name.to_owned())),
        Err(e) => {
            if is_render_cancelled(&e) {
                return Err(e);
            }
            Ok(None)
        },
    }
}

/// The flag of a country is the same whatever the case of its code.
pub proof fn flags_ignore_case(a: Seq<char>, b: Seq<char>)
    requires
        text::lower_text(a) == text::lower_text(b),
    ensures
        flag_url(a) == flag_url(b),
{
}

/// A configuration has assets where it is of the fourth version.
pub proof fn only_the_fourth_version_has_assets(config: JsonView, v: u64)
    ensures
        config.field("version"@) == Some(JsonView::Unsigned(v)) ==> (has_assets(config) <==> v == 4),
        config.field("version"@) is None ==> !has_assets(config),
{
}

/// An asset is fetched where it has an address, unless its file is here already; one that is embedded is
/// always written, and then its address goes.
pub proof fn assets_are_fetched_once(asset: JsonView, index: nat, path_exists: bool, url: Seq<char>)
    requires
        asset is Record,
    ensures
        filled_field(asset, "url"@) == Some(url) && !scan::begins(url, "data:"@) && !(path_exists
            && filled_field(asset, "path"@) is Some) ==> (asset_fetch(asset, index, path_exists) matches Some(
            f,
        ) && f.url == url && !f.drop_url),
        filled_field(asset, "url"@) == Some(url) && !scan::begins(url, "data:"@) && path_exists
            && filled_field(asset, "path"@) is Some ==> asset_fetch(asset, index, path_exists) is None,
        filled_field(asset, "url"@) == Some(url) && scan::begins(url, "data:"@) ==> (asset_fetch(
            asset,
            index,
            path_exists,
        ) matches Some(f) && f.url == url && f.drop_url),
        filled_field(asset, "url"@) is None ==> asset_fetch(asset, index, path_exists) is None,
{
}

/// The extension of an asset is that of its kind.
pub proof fn kinds_have_extensions(asset: JsonView)
    ensures
        mime_type(asset) == "image/gif"@ ==> asset_extension(asset) == ".gif"@,
        mime_type(asset) == "image/jpeg"@ ==> asset_extension(asset) == ".jpg"@,
        mime_type(asset) == "image/jpg"@ ==> asset_extension(asset) == ".jpg"@,
        mime_type(asset) == "image/webp"@ ==> asset_extension(asset) == ".webp"@,
        mime_type(asset) == "image/png"@ && asset.text_field("kind"@) is None ==> asset_extension(asset)
            == ".png"@,
{
    reveal_strlit("image/gif");
    reveal_strlit("image/jpeg");
    reveal_strlit("image/jpg");
    reveal_strlit("image/webp");
    reveal_strlit("image/png");
    assert("image/gif"@[6] == 'g');
    assert("image/jpg"@[6] == 'j');
    assert("image/png"@[6] == 'p');
    assert("image/jpeg"@[6] == 'j');
    assert("image/webp"@[6] == 'w');
}

/// Every version of a font has an address under the name that goes with its path.
pub proof fn paths_have_addresses(key: Seq<char>)
    ensures
        url_key("path"@) == Some("url"@),
        url_key("normalPath"@) == Some("normalUrl"@),
        url_key("boldPath"@) == Some("boldUrl"@),
        key != "path"@ && key != "normalPath"@ && key != "boldPath"@ ==> url_key(key) is None,
{
    reveal_strlit("path");
    reveal_strlit("normalPath");
    reveal_strlit("boldPath");
    assert("path"@.len() == 4 && "normalPath"@.len() == 10 && "boldPath"@.len() == 8);
}

/// A country is two letters, in whatever case; anything else is none.
pub proof fn countries_are_two_letters(v: Seq<char>)
    ensures
        country(Some(v)) is Some <==> text::trimmed(v).len() == 2 && (forall|i: int|
            0 <= i < 2 ==> text::is_upper(#[trigger] text::trimmed(v)[i]) || text::is_lower(
                text::trimmed(v)[i],
            )),
        country(Some(v)) is Some ==> country(Some(v)) == Some(text::upper_text(text::trimmed(v))),
        country(None) is None,
{
    let t = text::trimmed(v);
    if t.len() == 2 {
        let s = text::upper_text(t);
        assert(s[0] == text::upper(t[0]) && s[1] == text::upper(t[1]));
        if text::is_upper(s[0]) && text::is_upper(s[1]) {
            assert forall|i: int| 0 <= i < 2 implies text::is_upper(#[trigger] t[i]) || text::is_lower(
                t[i],
            ) by {
                assert(i == 0 || i == 1);
            }
        }
    }
}

/// The intro of a replay shows the player: their country, picture, flag and team; that of an autoplay shows
/// neither a player's picture nor their country.
pub proof fn intros_show_the_player(job: JobAssignment)
    ensures
        job.intro_user is None ==> intro_of(job) is None,
        job.intro_user matches Some(u) ==> (intro_of(job) matches Some(v) && v.team_badge_url
            == text::opt_text(u.team_badge_url) && (job.render_mode == WorkerRenderMode::Replay
            ==> v.avatar_url == text::opt_text(u.avatar_url) && v.country_code == country(
            text::opt_text(u.country_code),
        )) && (job.render_mode == WorkerRenderMode::Autoplay ==> v.avatar_url is None && v.country_code
            == Some("EC"@))),
{
}

/// Everything that is known of a player is told to the intro under its own name, and nothing else.
pub proof fn intros_are_told_the_player(
    avatar: Option<Seq<char>>,
    country_code: Option<Seq<char>>,
    flag: Option<Seq<char>>,
    team_badge: Option<Seq<char>>,
)
    ensures
        ({
            let f = intro_fields(avatar, country_code, flag, team_badge);
            &&& avatar matches Some(v) ==> f.contains(("avatar_path"@, v))
            &&& country_code matches Some(v) ==> f.contains(("country_code"@, v))
            &&& flag matches Some(v) ==> f.contains(("flag_path"@, v))
            &&& team_badge matches Some(v) ==> f.contains(("team_badge_path"@, v))
            &&& f.len() == (if avatar is Some {
                1int
            } else {
                0
            }) + (if country_code is Some {
                1int
            } else {
                0
            }) + (if flag is Some {
                1int
            } else {
                0
            }) + (if team_badge is Some {
                1int
            } else {
                0
            })
        }),
{
    let a = field_if("avatar_path"@, avatar);
    let b = field_if("country_code"@, country_code);
    let c = field_if("flag_path"@, flag);
    let d = field_if("team_badge_path"@, team_badge);
    let f = intro_fields(avatar, country_code, flag, team_badge);
    if avatar is Some {
        assert(f[0] == a[0]);
    }
    if country_code is Some {
        assert(f[a.len() as int] == b[0]);
    }
    if flag is Some {
        assert(f[a.len() + b.len() as int] == c[0]);
    }
    if team_badge is Some {
        assert(f[a.len() + b.len() + c.len() as int] == d[0]);
    }
}

/// A font whose file is here is kept where it lies in its place and copied there otherwise; any other font is
/// fetched where it has an address.
pub proof fn fonts_are_kept_copied_or_fetched(has_url: bool, in_place: bool)
    ensures
        font_use(true, has_url, true, true) == (true, false, false),
        font_use(true, has_url, true, false) == (false, true, false),
        font_use(true, true, false, in_place) == (false, false, true),
        font_use(false, true, true, in_place) == (false, false, true),
        font_use(true, false, false, in_place) == (false, false, false),
        font_use(false, false, true, in_place) == (false, false, false),
{
}

/// The extension of a font is that of its file where it is one of a font, and that of the web otherwise.
pub proof fn fonts_have_extensions(e: Seq<char>)
    ensures
        text::lower_text(e) == "ttf"@ ==> font_extension(Some(e)) == ".ttf"@,
        text::lower_text(e) == "otf"@ ==> font_extension(Some(e)) == ".otf"@,
        text::lower_text(e) == "ttc"@ ==> font_extension(Some(e)) == ".ttc"@,
        text::lower_text(e) != "ttf"@ && text::lower_text(e) != "otf"@ && text::lower_text(e) != "ttc"@
            ==> font_extension(Some(e)) == ".woff2"@,
        font_extension(None) == ".woff2"@,
        may_have_font_extension(None, ".woff2"@),
        !may_have_font_extension(None, ".ttf"@),
{
    reveal_strlit("ttf");
    reveal_strlit("otf");
    reveal_strlit("ttc");
    reveal_strlit(".ttf");
    reveal_strlit(".woff2");
    assert("ttf"@[0] == 't' && "ttf"@[2] == 'f');
    assert("otf"@[0] == 'o');
    assert("ttc"@[0] == 't' && "ttc"@[2] == 'c');
    assert(".ttf"@.len() == 4 && ".woff2"@.len() == 6);
    assert(may_extend_source(None, None) && ".woff2"@ == font_extension(None));
}

} // verus!
