//! The client on the desktop: its tray, its dialogs, how it starts, and the skins that it offers.
use crate::error;
use crate::error::{invalid, AppError, AppResult, ErrorView};
use crate::osu;
use crate::osu::normalize_local_path;
use crate::scan;
use crate::scan::{replace, show};
use crate::text;
use crate::text::{blank, cat, cat3, cat5, same_text, trim};
use crate::types::{
    AppConfig, AutoRendererLibrary, AutoRendererLibraryPreset, AutoRendererLibrarySkin, ConfigView,
    WatcherStatus, WorkerStatus,
};
use crate::watch;
use crate::watch::can_use_auto_renderer;
use vstd::prelude::*;

verus! {

pub const START_MINIMIZED_ARG: &'static str = "--minimized-to-tray";

pub const DISCORD_INVITE: &'static str = "https://discord.gg/5kbA2NmwqS";

// ---------------------------------------------------------------------------------------------
// The tray
// ---------------------------------------------------------------------------------------------

/// An entry of the menu of the tray.
#[derive(Clone, Copy, PartialEq, Eq, Structural)]
pub enum TrayItem {
    Open,
    StartWatcher,
    StopWatcher,
    ConnectWorker,
    DisconnectWorker,
    Quit,
}

impl TrayItem {
    /// The name by which an entry is known.
    pub open spec fn name(self) -> Seq<char> {
        match self {
            TrayItem::Open => "open"@,
            TrayItem::StartWatcher => "start_watcher"@,
            TrayItem::StopWatcher => "stop_watcher"@,
            TrayItem::ConnectWorker => "connect_worker"@,
            TrayItem::DisconnectWorker => "disconnect_worker"@,
            TrayItem::Quit => "quit"@,
        }
    }

    /// The name by which an entry is known.
    pub fn id(self) -> (r: &'static str)
        ensures
            r@ == self.name(),
    {
        match self {
            TrayItem::Open => "open",
            TrayItem::StartWatcher => "start_watcher",
            TrayItem::StopWatcher => "stop_watcher",
            TrayItem::ConnectWorker => "connect_worker",
            TrayItem::DisconnectWorker => "disconnect_worker",
            TrayItem::Quit => "quit",
        }
    }

    /// The text of an entry.
    pub fn label(self) -> (r: &'static str)
        ensures
            r@ == match self {
                TrayItem::Open => "Open Miru"@,
                TrayItem::StartWatcher => "Start Auto Renderer"@,
                TrayItem::StopWatcher => "Stop Auto Renderer"@,
                TrayItem::ConnectWorker => "Connect Server Worker"@,
                TrayItem::DisconnectWorker => "Disconnect Server Worker"@,
                TrayItem::Quit => "Quit"@,
            },
    {
        match self {
            TrayItem::Open => "Open Miru",
            TrayItem::StartWatcher => "Start Auto Renderer",
            TrayItem::StopWatcher => "Stop Auto Renderer",
            TrayItem::ConnectWorker => "Connect Server Worker",
            TrayItem::DisconnectWorker => "Disconnect Server Worker",
            TrayItem::Quit => "Quit",
        }
    }
}

proof fn names_differ()
    ensures
        "open"@.len() == 4,
        "start_watcher"@.len() == 13,
        "stop_watcher"@.len() == 12,
        "connect_worker"@.len() == 14,
        "disconnect_worker"@.len() == 17,
        "quit"@.len() == 4,
        "open"@[0] != "quit"@[0],
{
    reveal_strlit("open");
    reveal_strlit("start_watcher");
    reveal_strlit("stop_watcher");
    reveal_strlit("connect_worker");
    reveal_strlit("disconnect_worker");
    reveal_strlit("quit");
}

/// The entry that a name stands for. It is the one entry that has the name.
pub fn tray_item(id: &str) -> (r: Option<TrayItem>)
    ensures
        forall|item: TrayItem| r == Some(item) <==> #[trigger] item.name() == id@,
{
    proof {
        names_differ();
    }
    if same_text(id, "open") {
        Some(TrayItem::Open)
    } else if same_text(id, "start_watcher") {
        Some(TrayItem::StartWatcher)
    } else if same_text(id, "stop_watcher") {
        Some(TrayItem::StopWatcher)
    } else if same_text(id, "connect_worker") {
        Some(TrayItem::ConnectWorker)
    } else if same_text(id, "disconnect_worker") {
        Some(TrayItem::DisconnectWorker)
    } else if same_text(id, "quit") {
        Some(TrayItem::Quit)
    } else {
        None
    }
}

/// The account runs a worker that it has registered.
pub open spec fn controls_worker(c: ConfigView) -> bool {
    c.is_server && !text::is_blank(c.user_id) && text::trimmed(c.registered_user_id)
        == text::trimmed(c.user_id)
}

/// Whether somebody is logged in.
pub fn is_authenticated_for_tray(config: &AppConfig) -> (r: bool)
    ensures
        r == !text::is_blank(config.user_id@),
{
    !blank(config.user_id.as_str())
}

/// Whether the account may render on its own.
pub fn can_use_auto_renderer_from_tray(config: &AppConfig) -> (r: bool)
    ensures
        r == watch::may_auto_render(config.user_role@, config.user_plan@),
{
    can_use_auto_renderer(config)
}

/// Whether the account runs a worker that it has registered.
pub fn can_control_server_worker_from_tray(config: &AppConfig) -> (r: bool)
    ensures
        r == controls_worker(config@),
{
    config.is_server && !blank(config.user_id.as_str()) && same_text(
        trim(config.registered_user_id.as_str()).as_str(),
        trim(config.user_id.as_str()).as_str(),
    )
}

/// The entry about the watcher: it is stopped where it runs.
pub open spec fn watcher_entry(c: ConfigView, status: WatcherStatus) -> Seq<TrayItem> {
    if text::is_blank(c.user_id) || !watch::may_auto_render(c.user_role, c.user_plan) {
        seq![]
    } else if status == WatcherStatus::Running || status == WatcherStatus::Starting {
        seq![TrayItem::StopWatcher]
    } else {
        seq![TrayItem::StartWatcher]
    }
}

/// The entry about the worker: it is disconnected where it is connected.
pub open spec fn worker_entry(c: ConfigView, status: WorkerStatus) -> Seq<TrayItem> {
    if !controls_worker(c) {
        seq![]
    } else if status == WorkerStatus::Connected || status == WorkerStatus::Connecting {
        seq![TrayItem::DisconnectWorker]
    } else {
        seq![TrayItem::ConnectWorker]
    }
}

/// The menu of the tray.
pub open spec fn tray_menu(c: ConfigView, watcher: WatcherStatus, worker: WorkerStatus) -> Seq<
    TrayItem,
> {
    seq![TrayItem::Open] + watcher_entry(c, watcher) + worker_entry(c, worker) + seq![
        TrayItem::Quit,
    ]
}

/// The menu of the tray.
pub fn build_tray_menu(config: &AppConfig, watcher: WatcherStatus, worker: WorkerStatus) -> (r: Vec<
    TrayItem,
>)
    ensures
        r@ == tray_menu(config@, watcher, worker),
{
    let mut menu: Vec<TrayItem> = Vec::new();
    menu.push(TrayItem::Open);
    if is_authenticated_for_tray(config) && can_use_auto_renderer_from_tray(config) {
        match watcher {
            WatcherStatus::Running | WatcherStatus::Starting => menu.push(TrayItem::StopWatcher),
            WatcherStatus::Stopped | WatcherStatus::Error => menu.push(TrayItem::StartWatcher),
        }
    }
    assert(menu@ =~= seq![TrayItem::Open] + watcher_entry(config@, watcher));
    if is_authenticated_for_tray(config) && can_control_server_worker_from_tray(config) {
        match worker {
            WorkerStatus::Connected | WorkerStatus::Connecting => menu.push(
                TrayItem::DisconnectWorker,
            ),
            WorkerStatus::Disconnected | WorkerStatus::Error => menu.push(TrayItem::ConnectWorker),
        }
    }
    assert(menu@ =~= seq![TrayItem::Open] + watcher_entry(config@, watcher) + worker_entry(
        config@,
        worker,
    ));
    menu.push(TrayItem::Quit);
    assert(menu@ =~= tray_menu(config@, watcher, worker));
    menu
}

/// The menu begins with the window and ends with quitting, and nobody who is not logged in is offered
/// anything else.
pub proof fn menu_opens_and_quits(c: ConfigView, watcher: WatcherStatus, worker: WorkerStatus)
    ensures
        tray_menu(c, watcher, worker).first() == TrayItem::Open,
        tray_menu(c, watcher, worker).last() == TrayItem::Quit,
        text::is_blank(c.user_id) ==> tray_menu(c, watcher, worker) == seq![
            TrayItem::Open,
            TrayItem::Quit,
        ],
{
    assert(text::is_blank(c.user_id) ==> tray_menu(c, watcher, worker) =~= seq![
        TrayItem::Open,
        TrayItem::Quit,
    ]);
}

/// Whether a window that is closed goes to the tray, given the settings where they can be read.
pub fn should_close_to_tray(config: Option<&AppConfig>) -> (r: bool)
    ensures
        r == match config {
            Some(c) => c.close_to_tray_on_exit,
            None => true,
        },
{
    match config {
        Some(c) => c.close_to_tray_on_exit,
        None => true,
    }
}

// ---------------------------------------------------------------------------------------------
// Starting
// ---------------------------------------------------------------------------------------------

/// Whether the client starts in the tray: one of its arguments says so.
pub fn should_start_minimized_to_tray(args: &Vec<String>) -> (r: bool)
    ensures
        r == exists|i: int| 0 <= i < args@.len() && (#[trigger] args@[i])@ == START_MINIMIZED_ARG@,
{
    let mut i: usize = 0;
    while i < args.len()
        invariant
            i <= args@.len(),
            forall|j: int| 0 <= j < i ==> (#[trigger] args@[j])@ != START_MINIMIZED_ARG@,
        decreases args@.len() - i,
    {
        if same_text(args[i].as_str(), START_MINIMIZED_ARG) {
            return true;
        }
        i = i + 1;
    }
    false
}

/// The command that starts the client.
pub open spec fn startup_text(exe: Seq<char>, minimized: bool) -> Seq<char> {
    let command = "\""@ + exe + "\""@;
    if minimized {
        command + " "@ + START_MINIMIZED_ARG@
    } else {
        command
    }
}

/// The command that starts the client.
pub fn startup_command(exe: &str, minimized: bool) -> (r: String)
    ensures
        r@ == startup_text(exe@, minimized),
{
    let mut command = cat3("\"", exe, "\"");
    if minimized {
        command.append(" ");
        command.append(START_MINIMIZED_ARG);
    }
    command
}

/// The arguments of the command that registers the client to be started, or takes it out.
pub open spec fn autostart_words(enabled: bool, exe: Seq<char>, minimized: bool) -> Seq<Seq<char>> {
    let key = "HKCU\\Software\\Microsoft\\Windows\\CurrentVersion\\Run"@;
    if enabled {
        seq![
            "add"@,
            key,
            "/v"@,
            "MiruDesktopClient"@,
            "/t"@,
            "REG_SZ"@,
            "/d"@,
            startup_text(exe, minimized),
            "/f"@,
        ]
    } else {
        seq!["delete"@, key, "/v"@, "MiruDesktopClient"@, "/f"@]
    }
}

/// The arguments of the command that registers the client to be started, or takes it out.
pub fn autostart_args(enabled: bool, exe: &str, minimized: bool) -> (r: Vec<String>)
    ensures
        text::texts(r@) == autostart_words(enabled, exe@, minimized),
{
    let mut args: Vec<String> = Vec::new();
    if enabled {
        args.push("add".to_owned());
    } else {
        args.push("delete".to_owned());
    }
    args.push("HKCU\\Software\\Microsoft\\Windows\\CurrentVersion\\Run".to_owned());
    args.push("/v".to_owned());
    args.push("MiruDesktopClient".to_owned());
    if enabled {
        args.push("/t".to_owned());
        args.push("REG_SZ".to_owned());
        args.push("/d".to_owned());
        args.push(startup_command(exe, minimized));
    }
    args.push("/f".to_owned());
    assert(text::texts(args@) =~= autostart_words(enabled, exe@, minimized));
    args
}

/// The outcome of that command. The client may be missing where it is taken out.
pub fn apply_autostart(succeeded: bool, enabled: bool) -> (r: AppResult<()>)
    ensures
        error::plain(r) == if succeeded || !enabled {
            Ok(())
        } else {
            Err(ErrorView::Process("failed to update Windows autostart registry"@))
        },
{
    if succeeded || !enabled {
        Ok(())
    } else {
        Err(AppError::Process("failed to update Windows autostart registry".to_owned()))
    }
}

// ---------------------------------------------------------------------------------------------
// Dialogs
// ---------------------------------------------------------------------------------------------

/// Only the invitation to Discord is opened.
pub fn open_external_url(url: &str) -> (r: AppResult<()>)
    ensures
        error::plain(r) == if url@ == DISCORD_INVITE@ {
            Ok(())
        } else {
            Err(ErrorView::InvalidInput("unsupported external URL"@))
        },
{
    if same_text(url, DISCORD_INVITE) {
        Ok(())
    } else {
        Err(invalid("unsupported external URL"))
    }
}

/// The folder in which a dialog opens: the path that is set if it is one, otherwise the folder that it
/// lies in.
pub fn dialog_initial_dir(value: &str, is_dir: bool, parent: Option<String>) -> (r: Option<String>)
    ensures
        text::opt_text(r) == if text::is_blank(value@) {
            None
        } else if is_dir {
            Some(text::trimmed(value@))
        } else {
            text::opt_text(parent)
        },
{
    if blank(value) {
        return None;
    }
    if is_dir {
        Some(trim(value))
    } else {
        parent
    }
}

/// A text between the quotes of a script, with each quote written twice.
pub open spec fn literal(s: Seq<char>) -> Seq<char> {
    scan::replaced(s, '\'', "''"@)
}

/// What a text between the quotes of a script is read as: two quotes are one, and one alone would end
/// it.
pub open spec fn literal_value(s: Seq<char>) -> Option<Seq<char>>
    decreases s.len(),
{
    if s.len() == 0 {
        Some(Seq::empty())
    } else if s.last() == '\'' {
        if s.len() >= 2 && s[s.len() - 2] == '\'' {
            match literal_value(s.drop_last().drop_last()) {
                Some(v) => Some(v.push('\'')),
                None => None,
            }
        } else {
            None
        }
    } else {
        match literal_value(s.drop_last()) {
            Some(v) => Some(v.push(s.last())),
            None => None,
        }
    }
}

/// A text between the quotes of a script, with each quote written twice.
pub fn escape_powershell_literal(value: &str) -> (r: String)
    ensures
        r@ == literal(value@),
{
    replace(value, '\'', "''")
}

/// The script of the dialog in which the renderer is chosen.
pub open spec fn renderer_picker(folder: Seq<char>) -> Seq<char> {
    let d = literal(folder);
    "Add-Type -AssemblyName System.Windows.Forms\n$dialog = New-Object System.Windows.Forms.OpenFileDialog\n$dialog.Filter = 'Executable (*.exe)|*.exe|All files (*.*)|*.*'\n$dialog.CheckFileExists = $true\n$dialog.Multiselect = $false\nif ('"@
        + d + "' -ne '') { $dialog.InitialDirectory = '"@ + d
        + "' }\nif ($dialog.ShowDialog() -eq [System.Windows.Forms.DialogResult]::OK) { Write-Output $dialog.FileName }\n"@
}

/// The script of the dialog in which the renderer is chosen.
pub fn pick_renderer_executable(initial_dir: Option<&str>) -> (r: String)
    ensures
        r@ == renderer_picker(
            match initial_dir {
                Some(d) => d@,
                None => Seq::empty(),
            },
        ),
{
    let d = match initial_dir {
        Some(d) => escape_powershell_literal(d),
        None => escape_powershell_literal(String::new().as_str()),
    };
    cat5(
        "Add-Type -AssemblyName System.Windows.Forms\n$dialog = New-Object System.Windows.Forms.OpenFileDialog\n$dialog.Filter = 'Executable (*.exe)|*.exe|All files (*.*)|*.*'\n$dialog.CheckFileExists = $true\n$dialog.Multiselect = $false\nif ('",
        d.as_str(),
        "' -ne '') { $dialog.InitialDirectory = '",
        d.as_str(),
        "' }\nif ($dialog.ShowDialog() -eq [System.Windows.Forms.DialogResult]::OK) { Write-Output $dialog.FileName }\n",
    )
}

/// The script of the dialog in which the folder of the game is chosen.
pub open spec fn folder_picker(folder: Seq<char>) -> Seq<char> {
    let d = literal(folder);
    "Add-Type -AssemblyName System.Windows.Forms\n$dialog = New-Object System.Windows.Forms.FolderBrowserDialog\n$dialog.Description = 'Select osu!stable root'\n$dialog.ShowNewFolderButton = $false\nif ('"@
        + d + "' -ne '') { $dialog.SelectedPath = '"@ + d
        + "' }\nif ($dialog.ShowDialog() -eq [System.Windows.Forms.DialogResult]::OK) { Write-Output $dialog.SelectedPath }\n"@
}

/// The script of the dialog in which the folder of the game is chosen.
pub fn pick_local_folder(initial_dir: Option<&str>) -> (r: String)
    ensures
        r@ == folder_picker(
            match initial_dir {
                Some(d) => d@,
                None => Seq::empty(),
            },
        ),
{
    let d = match initial_dir {
        Some(d) => escape_powershell_literal(d),
        None => escape_powershell_literal(String::new().as_str()),
    };
    cat5(
        "Add-Type -AssemblyName System.Windows.Forms\n$dialog = New-Object System.Windows.Forms.FolderBrowserDialog\n$dialog.Description = 'Select osu!stable root'\n$dialog.ShowNewFolderButton = $false\nif ('",
        d.as_str(),
        "' -ne '') { $dialog.SelectedPath = '",
        d.as_str(),
        "' }\nif ($dialog.ShowDialog() -eq [System.Windows.Forms.DialogResult]::OK) { Write-Output $dialog.SelectedPath }\n",
    )
}

/// A path of a dialog without the prefix of extended paths, unless it leads to another machine.
pub fn normalize_windows_dialog_path(value: String) -> (r: String)
    ensures
        r@ == osu::plain_path(value@),
{
    normalize_local_path(value.as_str(), true)
}

/// What a dialog has brought: the path that was chosen, or none where it was closed.
pub fn run_powershell_picker(succeeded: bool, output: &str, problem: &str) -> (r: AppResult<
    Option<String>,
>)
    ensures
        match r {
            Ok(o) => succeeded && text::opt_text(o) == if text::is_blank(output@) {
                None
            } else {
                Some(osu::plain_path(text::trimmed(output@)))
            },
            Err(e) => !succeeded && e@ == ErrorView::Process(
                if text::is_blank(problem@) {
                    "failed to open Windows picker dialog"@
                } else {
                    "failed to open Windows picker dialog: "@ + text::trimmed(problem@)
                },
            ),
        },
{
    if !succeeded {
        return Err(
            AppError::Process(
                if blank(problem) {
                    "failed to open Windows picker dialog".to_owned()
                } else {
                    cat("failed to open Windows picker dialog: ", trim(problem).as_str())
                },
            ),
        );
    }
    if blank(output) {
        return Ok(None);
    }
    Ok(Some(normalize_windows_dialog_path(trim(output))))
}

/// The script that starts an installer once the client is gone.
pub fn launch_client_installer_after_exit(installer: &str, parent: u32) -> (r: String)
    ensures
        r@ == "$installer = '"@ + literal(installer@) + "'\n$parentPid = "@ + scan::decimal(
            parent as nat,
        )
            + "\ntry { Wait-Process -Id $parentPid -Timeout 45 -ErrorAction SilentlyContinue } catch { }\nStart-Process -FilePath $installer -ArgumentList '/S' -WindowStyle Hidden\n"@,
{
    cat5(
        "$installer = '",
        escape_powershell_literal(installer).as_str(),
        "'\n$parentPid = ",
        show(parent as u64).as_str(),
        "\ntry { Wait-Process -Id $parentPid -Timeout 45 -ErrorAction SilentlyContinue } catch { }\nStart-Process -FilePath $installer -ArgumentList '/S' -WindowStyle Hidden\n",
    )
}

/// A text between the quotes of a script is read back as it was, whatever it holds.
pub proof fn literals_are_read_back(s: Seq<char>)
    ensures
        literal_value(literal(s)) == Some(s),
    decreases s.len(),
{
    reveal_strlit("''");
    if s.len() > 0 {
        let rest = s.drop_last();
        literals_are_read_back(rest);
        let l = literal(s);
        if s.last() == '\'' {
            assert(l == literal(rest) + "''"@);
            assert(l.drop_last().drop_last() =~= literal(rest));
        } else {
            assert(l == literal(rest).push(s.last()));
            assert(l.drop_last() =~= literal(rest));
        }
        assert(rest.push(s.last()) =~= s);
    } else {
        assert(literal(s) =~= Seq::empty());
    }
}

// ---------------------------------------------------------------------------------------------
// The library
// ---------------------------------------------------------------------------------------------

/// What a skin of the library holds.
#[verifier::ext_equal]
pub struct SkinView {
    pub id: Seq<char>,
    pub name: Seq<char>,
    pub is_default: bool,
    pub size_bytes: Option<u64>,
    pub created_at: Option<Seq<char>>,
}

impl View for AutoRendererLibrarySkin {
    type V = SkinView;

    open spec fn view(&self) -> SkinView {
        SkinView {
            id: self.id@,
            name: self.name@,
            is_default: self.is_default,
            size_bytes: self.size_bytes,
            created_at: text::opt_text(self.created_at),
        }
    }
}

/// What the skins of a list hold.
pub open spec fn skins_view(v: Seq<AutoRendererLibrarySkin>) -> Seq<SkinView> {
    Seq::new(v.len(), |i: int| v[i]@)
}

/// The skin that is always there.
pub open spec fn usual_skin() -> SkinView {
    SkinView {
        id: "default"@,
        name: "Default skin"@,
        is_default: true,
        size_bytes: None,
        created_at: None,
    }
}

/// A skin other than the usual one.
pub open spec fn own_skin() -> spec_fn(SkinView) -> bool {
    |s: SkinView| s.id != "default"@
}

/// The skin that is always there.
pub fn default_auto_renderer_skin() -> (r: AutoRendererLibrarySkin)
    ensures
        r@ == usual_skin(),
{
    AutoRendererLibrarySkin {
        id: "default".to_owned(),
        name: "Default skin".to_owned(),
        is_default: true,
        size_bytes: None,
        created_at: None,
    }
}

/// The library of somebody who is not logged in.
pub fn default_auto_renderer_library() -> (r: AutoRendererLibrary)
    ensures
        r.presets@.len() == 0,
        skins_view(r.skins@) == seq![usual_skin()],
{
    let mut skins: Vec<AutoRendererLibrarySkin> = Vec::new();
    skins.push(default_auto_renderer_skin());
    assert(skins_view(skins@) =~= seq![usual_skin()]);
    AutoRendererLibrary { presets: Vec::new(), skins }
}

fn copy_skin(skin: &AutoRendererLibrarySkin) -> (r: AutoRendererLibrarySkin)
    ensures
        r@ == skin@,
{
    AutoRendererLibrarySkin {
        id: skin.id.clone(),
        name: skin.name.clone(),
        is_default: skin.is_default,
        size_bytes: skin.size_bytes,
        created_at: text::clone_opt_text(&skin.created_at),
    }
}

/// The library of an account: its presets, and its skins after the usual one.
pub fn get_auto_renderer_library(
    presets: Option<Vec<AutoRendererLibraryPreset>>,
    skins: Option<Vec<AutoRendererLibrarySkin>>,
) -> (r: AutoRendererLibrary)
    ensures
        match presets {
            Some(p) => r.presets == p,
            None => r.presets@.len() == 0,
        },
        skins_view(r.skins@) == seq![usual_skin()] + match skins {
            Some(s) => skins_view(s@).filter(own_skin()),
            None => Seq::empty(),
        },
{
    let mut library = default_auto_renderer_library();
    if let Some(p) = presets {
        library.presets = p;
    }
    if let Some(given) = skins {
        let ghost all = skins_view(given@);
        let ghost head = skins_view(library.skins@);
        let mut i: usize = 0;
        assert(all.take(0) =~= Seq::empty());
        assert(all.take(0).filter(own_skin()) =~= Seq::empty()) by {
            reveal(Seq::filter);
        }
        while i < given.len()
            invariant
                i <= given@.len(),
                all == skins_view(given@),
                skins_view(library.skins@) == head + all.take(i as int).filter(own_skin()),
                match presets {
                    Some(p) => library.presets == p,
                    None => library.presets@.len() == 0,
                },
            decreases given@.len() - i,
        {
            let ghost before = library.skins@;
            proof {
                reveal(Seq::filter);
                assert(all.take(i + 1).drop_last() =~= all.take(i as int));
                assert(all.take(i + 1).last() == given@[i as int]@);
            }
            if !same_text(given[i].id.as_str(), "default") {
                library.skins.push(copy_skin(&given[i]));
                assert(skins_view(library.skins@) =~= skins_view(before).push(given@[i as int]@));
            }
            i = i + 1;
        }
        assert(all.take(given@.len() as int) =~= all);
    }
    library
}

/// The menu of the tray offers the watcher to members who are logged in, to be stopped where it runs and to be
/// started where it does not, and the worker to its owner in the same way.
pub proof fn menus_offer_what_can_be_done(c: ConfigView, watcher: WatcherStatus, worker: WorkerStatus)
    ensures
        ({
            let m = tray_menu(c, watcher, worker);
            let member = !text::is_blank(c.user_id) && watch::may_auto_render(c.user_role, c.user_plan);
            let running = watcher == WatcherStatus::Running || watcher == WatcherStatus::Starting;
            let owner = c.is_server && !text::is_blank(c.user_id) && text::trimmed(c.registered_user_id)
                == text::trimmed(c.user_id);
            let connected = worker == WorkerStatus::Connected || worker == WorkerStatus::Connecting;
            &&& m.contains(TrayItem::StopWatcher) <==> member && running
            &&& m.contains(TrayItem::StartWatcher) <==> member && !running
            &&& m.contains(TrayItem::DisconnectWorker) <==> owner && connected
            &&& m.contains(TrayItem::ConnectWorker) <==> owner && !connected
            &&& m[0] == TrayItem::Open && m.last() == TrayItem::Quit
        }),
{
    let m = tray_menu(c, watcher, worker);
    let a = watcher_entry(c, watcher);
    let b = worker_entry(c, worker);
    assert(m.len() == 2 + a.len() + b.len());
    if a.len() > 0 {
        assert(m[1] == a[0]);
        assert(m.contains(m[1]));
    }
    if b.len() > 0 {
        assert(m[1 + a.len() as int] == b[0]);
        assert(m.contains(m[1 + a.len() as int]));
    }
}

/// A client that starts with the system does so under its own name, by its own path in quotes, and is told to
/// hide where it shall; one that does not is taken out again under the same name.
pub proof fn autostarts_are_written(exe: Seq<char>, minimized: bool)
    ensures
        ({
            let on = autostart_words(true, exe, minimized);
            let off = autostart_words(false, exe, minimized);
            &&& on[0] == "add"@ && off[0] == "delete"@
            &&& on[1] == off[1] && on[2] == "/v"@ && off[2] == "/v"@ && on[3] == off[3]
            &&& on[6] == "/d"@ && on[7] == startup_text(exe, minimized)
            &&& on[8] == "/f"@ && off[4] == "/f"@
        }),
        startup_text(exe, false) == seq!['"'] + exe + seq!['"'],
        startup_text(exe, true) == startup_text(exe, false) + seq![' '] + START_MINIMIZED_ARG@,
{
    reveal_strlit("\"");
    reveal_strlit(" ");
    assert("\""@ =~= seq!['"']);
    assert(" "@ =~= seq![' ']);
}

} // verus!
