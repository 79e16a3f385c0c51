//! The command line, registry entries and install steps of the Windows installer.
use vstd::prelude::*;

use crate::text::{chars_of, concat, matches_at, seq_starts_with, string_of};

verus! {

/// The product name used for folders, shortcuts and registry entries.
pub const APP_NAME: &'static str = "Chosen Visualizer";

/// The version the installer registers.
pub const INSTALLER_VERSION: &'static str = "1.0.0";

/// File name of the installed application.
pub const APP_EXE: &'static str = "chosen-visualizer.exe";

/// File name of the installed copy of the installer.
pub const INSTALLER_EXE: &'static str = "chosen-visualizer-installer.exe";

/// File name of the Start Menu shortcut.
pub const START_MENU_LINK: &'static str = "Chosen Visualizer.lnk";

/// File name of the desktop shortcut.
pub const DESKTOP_LINK: &'static str = "Chosen Visualizer.lnk";

/// The per-user key whose values start programs at sign-in.
pub const RUN_KEY: &'static str = "Software\\Microsoft\\Windows\\CurrentVersion\\Run";

/// The per-user key that lists the program under installed apps.
pub const UNINSTALL_KEY: &'static str =
    "Software\\Microsoft\\Windows\\CurrentVersion\\Uninstall\\Chosen Visualizer";

/// What the installer is asked to do.
#[derive(Clone, Copy, Debug, PartialEq, Eq, Structural)]
pub enum Mode {
    Install,
    Uninstall,
    Help,
}

/// The installer's command-line choices.
pub struct Options {
    pub mode: Mode,
    pub source: Option<String>,
    pub desktop_shortcut: bool,
    pub start_menu_shortcut: bool,
    pub startup: bool,
    pub launch: bool,
}

/// The mathematical value of [`Options`].
pub struct OptionsView {
    pub mode: Mode,
    pub source: Option<Seq<char>>,
    pub desktop_shortcut: bool,
    pub start_menu_shortcut: bool,
    pub startup: bool,
    pub launch: bool,
}

impl View for Options {
    type V = OptionsView;

    open spec fn view(&self) -> OptionsView {
        OptionsView {
            mode: self.mode,
            source: match self.source {
                Some(s) => Some(s@),
                None => None,
            },
            desktop_shortcut: self.desktop_shortcut,
            start_menu_shortcut: self.start_menu_shortcut,
            startup: self.startup,
            launch: self.launch,
        }
    }
}

/// The choices before any argument is read: install with both shortcuts,
/// without a startup entry and without launching.
pub open spec fn default_options() -> OptionsView {
    OptionsView {
        mode: Mode::Install,
        source: None,
        desktop_shortcut: true,
        start_menu_shortcut: true,
        startup: false,
        launch: false,
    }
}

/// The texts of a list of arguments.
pub open spec fn arg_texts(args: Seq<String>) -> Seq<Seq<char>> {
    args.map_values(|a: String| a@)
}

/// Reads the arguments from position `i` on into the choices `o`: the help,
/// uninstall, shortcut, startup and launch flags; `--source <path>`,
/// `--source=<path>` or, while no source is known, a bare path; anything else
/// is an unknown option.
pub open spec fn parse_from(args: Seq<Seq<char>>, i: int, o: OptionsView) -> Result<
    OptionsView,
    Seq<char>,
>
    decreases args.len() - i,
{
    if i < 0 || i >= args.len() {
        Ok(o)
    } else {
        let a = args[i];
        if a == "-h"@ || a == "--help"@ {
            parse_from(args, i + 1, OptionsView { mode: Mode::Help, ..o })
        } else if a == "--uninstall"@ {
            parse_from(args, i + 1, OptionsView { mode: Mode::Uninstall, ..o })
        } else if a == "--no-desktop-shortcut"@ {
            parse_from(args, i + 1, OptionsView { desktop_shortcut: false, ..o })
        } else if a == "--no-start-menu-shortcut"@ {
            parse_from(args, i + 1, OptionsView { start_menu_shortcut: false, ..o })
        } else if a == "--startup"@ {
            parse_from(args, i + 1, OptionsView { startup: true, ..o })
        } else if a == "--launch"@ {
            parse_from(args, i + 1, OptionsView { launch: true, ..o })
        } else if a == "--source"@ {
            if i + 1 < args.len() {
                parse_from(args, i + 2, OptionsView { source: Some(args[i + 1]), ..o })
            } else {
                Err("--source requires a path"@)
            }
        } else if seq_starts_with(a, "--source="@) {
            parse_from(args, i + 1, OptionsView { source: Some(a.subrange(9, a.len() as int)), ..o })
        } else if !seq_starts_with(a, "-"@) && o.source is None {
            parse_from(args, i + 1, OptionsView { source: Some(a), ..o })
        } else {
            Err("unknown option: "@ + a)
        }
    }
}

/// Is `v` exactly the text `p`?
fn is_text(v: &Vec<char>, p: &str) -> (b: bool)
    ensures
        b == (v@ == p@),
{
    let same_len = v.len() == p.unicode_len();
    if same_len && matches_at(v, p, 0) {
        assert(v@.subrange(0, p@.len() as int) =~= v@);
        true
    } else {
        if same_len {
            assert(v@.subrange(0, p@.len() as int) =~= v@);
        }
        false
    }
}

impl Options {
    /// Reads the installer's arguments (the program name not among them).
    pub fn parse(args: &Vec<String>) -> (r: Result<Options, String>)
        ensures
            match r {
                Ok(o) => parse_from(arg_texts(args@), 0, default_options()) == Ok::<
                    OptionsView,
                    Seq<char>,
                >(o@),
                Err(e) => parse_from(arg_texts(args@), 0, default_options()) == Err::<
                    OptionsView,
                    Seq<char>,
                >(e@),
            },
    {
        let ghost texts = arg_texts(args@);
        let mut o = Options {
            mode: Mode::Install,
            source: None,
            desktop_shortcut: true,
            start_menu_shortcut: true,
            startup: false,
            launch: false,
        };
        let n = args.len();
        let mut i: usize = 0;
        while i < n
            invariant
                n == args@.len(),
                texts == arg_texts(args@),
                i <= n,
                parse_from(texts, 0, default_options()) == parse_from(texts, i as int, o@),
            decreases n - i,
        {
            let a = chars_of(args[i].as_str());
            assert(texts[i as int] == args@[i as int]@);
            if is_text(&a, "-h") || is_text(&a, "--help") {
                o.mode = Mode::Help;
            } else if is_text(&a, "--uninstall") {
                o.mode = Mode::Uninstall;
            } else if is_text(&a, "--no-desktop-shortcut") {
                o.desktop_shortcut = false;
            } else if is_text(&a, "--no-start-menu-shortcut") {
                o.start_menu_shortcut = false;
            } else if is_text(&a, "--startup") {
                o.startup = true;
            } else if is_text(&a, "--launch") {
                o.launch = true;
            } else if is_text(&a, "--source") {
                if i + 1 < n {
                    assert(texts[i + 1] == args@[i + 1]@);
                    o.source = Some(args[i + 1].clone());
                    i += 2;
                    continue;
                } else {
                    return Err(String::from_str("--source requires a path"));
                }
            } else if matches_at(&a, "--source=", 0) {
                proof {
                    reveal_strlit("--source=");
                }
                let mut rest: Vec<char> = Vec::new();
                let mut k: usize = 9;
                while k < a.len()
                    invariant
                        9 <= k <= a@.len(),
                        rest@ == a@.subrange(9, k as int),
                    decreases a.len() - k,
                {
                    rest.push(a[k]);
                    k += 1;
                }
                o.source = Some(string_of(&rest));
            } else if !matches_at(&a, "-", 0) && o.source.is_none() {
                o.source = Some(args[i].clone());
            } else {
                return Err(concat("unknown option: ", args[i].as_str()));
            }
            i += 1;
        }
        Ok(o)
    }
}

/// `path` in double quotes.
pub fn quote_path(path: &str) -> (q: String)
    ensures
        q@ == "\""@ + path@ + "\""@,
{
    let mut q = concat("\"", path);
    q.append("\"");
    q
}

/// The command that uninstalls through the installed installer.
pub fn uninstall_command(installed_installer: &str) -> (c: String)
    ensures
        c@ == "\""@ + installed_installer@ + "\" --uninstall"@,
{
    let mut c = concat("\"", installed_installer);
    c.append("\" --uninstall");
    c
}

/// A registry value to write.
pub enum RegistryValue {
    Text { name: String, text: String },
    Number { name: String, number: u32 },
}

pub open spec fn is_text_value(v: RegistryValue, name: Seq<char>, value: Seq<char>) -> bool {
    v matches RegistryValue::Text { name: n, text: x } && n@ == name && x@ == value
}

pub open spec fn is_number_value(v: RegistryValue, name: Seq<char>, value: u32) -> bool {
    v matches RegistryValue::Number { name: n, number: x } && n@ == name && x == value
}

fn text_value(name: &str, value: &str) -> (v: RegistryValue)
    ensures
        is_text_value(v, name@, value@),
{
    RegistryValue::Text { name: String::from_str(name), text: String::from_str(value) }
}

fn number_value(name: &str, value: u32) -> (v: RegistryValue)
    ensures
        is_number_value(v, name@, value),
{
    RegistryValue::Number { name: String::from_str(name), number: value }
}

/// The values of the uninstall entry, in the order they are written: name,
/// version, publisher, install folder, icon, uninstall command, and the marks
/// that the installation cannot be modified or repaired.
pub fn uninstall_entry_values(
    install_dir: &str,
    target_exe: &str,
    installed_installer: &str,
) -> (values: Vec<RegistryValue>)
    ensures
        values@.len() == 8,
        is_text_value(values@[0], "DisplayName"@, APP_NAME@),
        is_text_value(values@[1], "DisplayVersion"@, INSTALLER_VERSION@),
        is_text_value(values@[2], "Publisher"@, "Chosen Visualizer"@),
        is_text_value(values@[3], "InstallLocation"@, install_dir@),
        is_text_value(values@[4], "DisplayIcon"@, target_exe@),
        is_text_value(
            values@[5],
            "UninstallString"@,
            "\""@ + installed_installer@ + "\" --uninstall"@,
        ),
        is_number_value(values@[6], "NoModify"@, 1),
        is_number_value(values@[7], "NoRepair"@, 1),
{
    let command = uninstall_command(installed_installer);
    let mut values: Vec<RegistryValue> = Vec::new();
    values.push(text_value("DisplayName", APP_NAME));
    values.push(text_value("DisplayVersion", INSTALLER_VERSION));
    values.push(text_value("Publisher", "Chosen Visualizer"));
    values.push(text_value("InstallLocation", install_dir));
    values.push(text_value("DisplayIcon", target_exe));
    values.push(text_value("UninstallString", command.as_str()));
    values.push(number_value("NoModify", 1));
    values.push(number_value("NoRepair", 1));
    values
}

/// The Win32 status of success.
pub const ERROR_SUCCESS: u32 = 0;

/// The Win32 status of a missing file.
pub const ERROR_FILE_NOT_FOUND: u32 = 2;

/// The Win32 status of a missing path.
pub const ERROR_PATH_NOT_FOUND: u32 = 3;

/// Does a status of a removal count as done: success, or nothing there to remove?
pub fn removal_succeeded(status: u32) -> (b: bool)
    ensures
        b == (status == ERROR_SUCCESS || status == ERROR_FILE_NOT_FOUND || status
            == ERROR_PATH_NOT_FOUND),
{
    status == ERROR_SUCCESS || status == ERROR_FILE_NOT_FOUND || status == ERROR_PATH_NOT_FOUND
}

/// One step of an installation.
#[derive(Clone, Copy, Debug, PartialEq, Eq, Structural)]
pub enum InstallStep {
    CopyApp,
    CopyInstaller,
    StartMenuShortcut,
    DesktopShortcut,
    StartupEntry,
    RegisterUninstall,
    Launch,
}

pub open spec fn spec_install_steps(o: OptionsView) -> Seq<InstallStep> {
    seq![InstallStep::CopyApp, InstallStep::CopyInstaller]
        + (if o.start_menu_shortcut { seq![InstallStep::StartMenuShortcut] } else { Seq::empty() })
        + (if o.desktop_shortcut { seq![InstallStep::DesktopShortcut] } else { Seq::empty() })
        + (if o.startup { seq![InstallStep::StartupEntry] } else { Seq::empty() })
        + seq![InstallStep::RegisterUninstall]
        + (if o.launch { seq![InstallStep::Launch] } else { Seq::empty() })
}

/// The steps of an installation with `options`, in order: copy the
/// application and the installer, add the chosen shortcuts and startup
/// entry, register the uninstall entry, and launch where asked.
pub fn install_steps(options: &Options) -> (steps: Vec<InstallStep>)
    ensures
        steps@ == spec_install_steps(options@),
{
    let mut steps: Vec<InstallStep> = Vec::new();
    steps.push(InstallStep::CopyApp);
    steps.push(InstallStep::CopyInstaller);
    let ghost s0 = steps@;
    if options.start_menu_shortcut {
        steps.push(InstallStep::StartMenuShortcut);
    }
    let ghost s1 = steps@;
    if options.desktop_shortcut {
        steps.push(InstallStep::DesktopShortcut);
    }
    let ghost s2 = steps@;
    if options.startup {
        steps.push(InstallStep::StartupEntry);
    }
    let ghost s3 = steps@;
    steps.push(InstallStep::RegisterUninstall);
    let ghost s4 = steps@;
    if options.launch {
        steps.push(InstallStep::Launch);
    }
    assert(steps@ =~= spec_install_steps(options@));
    steps
}

} // verus!

verus! {

/// `x` is one of the arguments from position `i` on.
pub open spec fn occurs_from(args: Seq<Seq<char>>, i: int, x: Seq<char>) -> bool {
    exists|k: int| i <= k < args.len() && args[k] == x
}

/// After the last argument, the choices read so far are the result.
proof fn lemma_parse_at_end(args: Seq<Seq<char>>, o: OptionsView)
    ensures
        parse_from(args, args.len() as int, o) == Ok::<OptionsView, Seq<char>>(o),
{
}

/// Once the arguments up to some point have been read without an error,
/// reading one more argument after them continues from the choices read so
/// far.
proof fn lemma_parse_appended(args: Seq<Seq<char>>, x: Seq<char>, i: int, o: OptionsView)
    requires
        0 <= i <= args.len(),
        parse_from(args, i, o) is Ok,
    ensures
        parse_from(args.push(x), i, o) == parse_from(
            args.push(x),
            args.len() as int,
            parse_from(args, i, o)->Ok_0,
        ),
    decreases args.len() - i,
{
    let longer = args.push(x);
    if i < args.len() {
        let a = args[i];
        assert(longer[i] == a);
        if a == "-h"@ || a == "--help"@ {
            lemma_parse_appended(args, x, i + 1, OptionsView { mode: Mode::Help, ..o });
        } else if a == "--uninstall"@ {
            lemma_parse_appended(args, x, i + 1, OptionsView { mode: Mode::Uninstall, ..o });
        } else if a == "--no-desktop-shortcut"@ {
            lemma_parse_appended(args, x, i + 1, OptionsView { desktop_shortcut: false, ..o });
        } else if a == "--no-start-menu-shortcut"@ {
            lemma_parse_appended(args, x, i + 1, OptionsView { start_menu_shortcut: false, ..o });
        } else if a == "--startup"@ {
            lemma_parse_appended(args, x, i + 1, OptionsView { startup: true, ..o });
        } else if a == "--launch"@ {
            lemma_parse_appended(args, x, i + 1, OptionsView { launch: true, ..o });
        } else if a == "--source"@ {
            assert(i + 1 < args.len());
            assert(longer[i + 1] == args[i + 1]);
            lemma_parse_appended(args, x, i + 2, OptionsView { source: Some(args[i + 1]), ..o });
        } else if seq_starts_with(a, "--source="@) {
            lemma_parse_appended(
                args,
                x,
                i + 1,
                OptionsView { source: Some(a.subrange(9, a.len() as int)), ..o },
            );
        } else if !seq_starts_with(a, "-"@) && o.source is None {
            lemma_parse_appended(args, x, i + 1, OptionsView { source: Some(a), ..o });
        }
    }
}

/// Each installer flag changes its own choice and nothing else: adding a flag
/// after arguments that were read without an error gives the same choices
/// with only that flag's choice changed.
pub proof fn lemma_parse_flag_changes_only_its_choice(args: Seq<Seq<char>>)
    requires
        parse_from(args, 0, default_options()) is Ok,
    ensures
        ({
            let o = parse_from(args, 0, default_options())->Ok_0;
            &&& parse_from(args.push("--no-desktop-shortcut"@), 0, default_options()) == Ok::<
                OptionsView,
                Seq<char>,
            >(OptionsView { desktop_shortcut: false, ..o })
            &&& parse_from(args.push("--no-start-menu-shortcut"@), 0, default_options()) == Ok::<
                OptionsView,
                Seq<char>,
            >(OptionsView { start_menu_shortcut: false, ..o })
            &&& parse_from(args.push("--startup"@), 0, default_options()) == Ok::<
                OptionsView,
                Seq<char>,
            >(OptionsView { startup: true, ..o })
            &&& parse_from(args.push("--launch"@), 0, default_options()) == Ok::<
                OptionsView,
                Seq<char>,
            >(OptionsView { launch: true, ..o })
            &&& parse_from(args.push("--uninstall"@), 0, default_options()) == Ok::<
                OptionsView,
                Seq<char>,
            >(OptionsView { mode: Mode::Uninstall, ..o })
            &&& parse_from(args.push("--help"@), 0, default_options()) == Ok::<
                OptionsView,
                Seq<char>,
            >(OptionsView { mode: Mode::Help, ..o })
        }),
{
    let d = default_options();
    reveal_strlit("-h");
    reveal_strlit("--help");
    reveal_strlit("--uninstall");
    reveal_strlit("--no-desktop-shortcut");
    reveal_strlit("--no-start-menu-shortcut");
    reveal_strlit("--startup");
    reveal_strlit("--launch");
    reveal_strlit("--source");
    lemma_parse_appended(args, "--no-desktop-shortcut"@, 0, d);
    lemma_parse_appended(args, "--no-start-menu-shortcut"@, 0, d);
    lemma_parse_appended(args, "--startup"@, 0, d);
    lemma_parse_appended(args, "--launch"@, 0, d);
    lemma_parse_appended(args, "--uninstall"@, 0, d);
    lemma_parse_appended(args, "--help"@, 0, d);
    let n = args.len() as int;
    assert(args.push("--no-desktop-shortcut"@)[n] == "--no-desktop-shortcut"@);
    assert(args.push("--no-start-menu-shortcut"@)[n] == "--no-start-menu-shortcut"@);
    assert(args.push("--startup"@)[n] == "--startup"@);
    assert(args.push("--launch"@)[n] == "--launch"@);
    assert(args.push("--uninstall"@)[n] == "--uninstall"@);
    assert(args.push("--help"@)[n] == "--help"@);
    let o = parse_from(args, 0, d)->Ok_0;
    assert("--no-start-menu-shortcut"@.len() == 24 && "--no-desktop-shortcut"@.len() == 21);
    assert("--startup"@.len() == 9 && "--uninstall"@.len() == 11 && "--help"@.len() == 6);
    assert("-h"@.len() == 2);
    lemma_parse_at_end(
        args.push("--no-desktop-shortcut"@),
        OptionsView { desktop_shortcut: false, ..o },
    );
    lemma_parse_at_end(
        args.push("--no-start-menu-shortcut"@),
        OptionsView { start_menu_shortcut: false, ..o },
    );
    lemma_parse_at_end(
        args.push("--startup"@),
        OptionsView { startup: true, ..o },
    );
    lemma_parse_at_end(
        args.push("--launch"@),
        OptionsView { launch: true, ..o },
    );
    lemma_parse_at_end(
        args.push("--uninstall"@),
        OptionsView { mode: Mode::Uninstall, ..o },
    );
    lemma_parse_at_end(
        args.push("--help"@),
        OptionsView { mode: Mode::Help, ..o },
    );
}

/// Reading arguments from position `i` on, where none of them is `--source`
/// (so that every one of them is read as an option of its own): each choice
/// is switched exactly where its flag occurs.
proof fn lemma_parse_flags_from(args: Seq<Seq<char>>, i: int, o: OptionsView)
    requires
        0 <= i <= args.len(),
        forall|k: int| i <= k < args.len() ==> args[k] != "--source"@,
        parse_from(args, i, o) is Ok,
    ensures
        ({
            let r = parse_from(args, i, o)->Ok_0;
            &&& r.desktop_shortcut == (o.desktop_shortcut && !occurs_from(
                args,
                i,
                "--no-desktop-shortcut"@,
            ))
            &&& r.start_menu_shortcut == (o.start_menu_shortcut && !occurs_from(
                args,
                i,
                "--no-start-menu-shortcut"@,
            ))
            &&& r.startup == (o.startup || occurs_from(args, i, "--startup"@))
            &&& r.launch == (o.launch || occurs_from(args, i, "--launch"@))
        }),
    decreases args.len() - i,
{
    reveal_strlit("-h");
    reveal_strlit("--help");
    reveal_strlit("--uninstall");
    reveal_strlit("--no-desktop-shortcut");
    reveal_strlit("--no-start-menu-shortcut");
    reveal_strlit("--startup");
    reveal_strlit("--launch");
    reveal_strlit("--source");
    if i < args.len() {
        let a = args[i];
        let next = if a == "-h"@ || a == "--help"@ {
            OptionsView { mode: Mode::Help, ..o }
        } else if a == "--uninstall"@ {
            OptionsView { mode: Mode::Uninstall, ..o }
        } else if a == "--no-desktop-shortcut"@ {
            OptionsView { desktop_shortcut: false, ..o }
        } else if a == "--no-start-menu-shortcut"@ {
            OptionsView { start_menu_shortcut: false, ..o }
        } else if a == "--startup"@ {
            OptionsView { startup: true, ..o }
        } else if a == "--launch"@ {
            OptionsView { launch: true, ..o }
        } else if seq_starts_with(a, "--source="@) {
            OptionsView { source: Some(a.subrange(9, a.len() as int)), ..o }
        } else {
            OptionsView { source: Some(a), ..o }
        };
        assert(parse_from(args, i, o) == parse_from(args, i + 1, next));
        lemma_parse_flags_from(args, i + 1, next);
        assert forall|x: Seq<char>| occurs_from(args, i, x) == (a == x || occurs_from(args, i + 1, x)) by {
            if occurs_from(args, i, x) && a != x {
                let k = choose|k: int| i <= k < args.len() && args[k] == x;
                assert(i + 1 <= k);
            }
        }
    }
}

/// Where no argument is `--source`, every argument is read as an option of
/// its own, and each choice follows its own flag alone: the desktop and Start
/// Menu shortcuts are made exactly when their `--no-...` flag is absent, and
/// the startup entry and the launch happen exactly when their flag is given.
pub proof fn lemma_parse_choices_follow_their_flags(args: Seq<Seq<char>>)
    requires
        forall|k: int| 0 <= k < args.len() ==> args[k] != "--source"@,
        parse_from(args, 0, default_options()) is Ok,
    ensures
        ({
            let r = parse_from(args, 0, default_options())->Ok_0;
            &&& r.desktop_shortcut == !args.contains("--no-desktop-shortcut"@)
            &&& r.start_menu_shortcut == !args.contains("--no-start-menu-shortcut"@)
            &&& r.startup == args.contains("--startup"@)
            &&& r.launch == args.contains("--launch"@)
        }),
{
    lemma_parse_flags_from(args, 0, default_options());
    assert forall|x: Seq<char>| args.contains(x) == occurs_from(args, 0, x) by {
        if args.contains(x) {
            let k = choose|k: int| 0 <= k < args.len() && args[k] == x;
            assert(0 <= k < args.len() && args[k] == x);
        }
    }
}

/// `seq![x]` holds exactly `x`.
proof fn lemma_single_contains(x: InstallStep)
    ensures
        forall|y: InstallStep| #[trigger] seq![x].contains(y) == (x == y),
{
    assert forall|y: InstallStep| #[trigger] seq![x].contains(y) == (x == y) by {
        if x == y {
            assert(seq![x][0] == y);
        }
    }
}

/// What the installation does, step by step: it always begins by copying the
/// application and then the installer, always registers the uninstall entry,
/// makes each shortcut and the startup entry exactly when it is chosen, and
/// launches the application exactly when that is asked for, as its very last
/// step.
pub proof fn lemma_install_steps_follow_options(o: OptionsView)
    ensures
        ({
            let steps = spec_install_steps(o);
            &&& steps[0] == InstallStep::CopyApp
            &&& steps[1] == InstallStep::CopyInstaller
            &&& steps.contains(InstallStep::RegisterUninstall)
            &&& steps.contains(InstallStep::StartMenuShortcut) == o.start_menu_shortcut
            &&& steps.contains(InstallStep::DesktopShortcut) == o.desktop_shortcut
            &&& steps.contains(InstallStep::StartupEntry) == o.startup
            &&& steps.contains(InstallStep::Launch) == o.launch
            &&& o.launch ==> steps.last() == InstallStep::Launch
            &&& !o.launch ==> steps.last() == InstallStep::RegisterUninstall
        }),
{
    let a = seq![InstallStep::CopyApp, InstallStep::CopyInstaller];
    let b = if o.start_menu_shortcut { seq![InstallStep::StartMenuShortcut] } else { Seq::empty() };
    let c = if o.desktop_shortcut { seq![InstallStep::DesktopShortcut] } else { Seq::empty() };
    let d = if o.startup { seq![InstallStep::StartupEntry] } else { Seq::empty() };
    let e = seq![InstallStep::RegisterUninstall];
    let f = if o.launch { seq![InstallStep::Launch] } else { Seq::empty() };
    let steps = spec_install_steps(o);
    assert(steps == a + b + c + d + e + f);
    assert forall|x: InstallStep| #[trigger] steps.contains(x) == ((x == InstallStep::CopyApp || x
        == InstallStep::CopyInstaller) || b.contains(x) || c.contains(x) || d.contains(x) || e.contains(x)
        || f.contains(x)) by {
        vstd::seq_lib::lemma_seq_concat_contains_all_elements(a, b, x);
        vstd::seq_lib::lemma_seq_concat_contains_all_elements(a + b, c, x);
        vstd::seq_lib::lemma_seq_concat_contains_all_elements(a + b + c, d, x);
        vstd::seq_lib::lemma_seq_concat_contains_all_elements(a + b + c + d, e, x);
        vstd::seq_lib::lemma_seq_concat_contains_all_elements(a + b + c + d + e, f, x);
        if a.contains(x) {
            let k = choose|k: int| 0 <= k < a.len() && a[k] == x;
            assert(k == 0 || k == 1);
        }
        if x == InstallStep::CopyApp {
            assert(a[0] == x);
        }
        if x == InstallStep::CopyInstaller {
            assert(a[1] == x);
        }
    }
    lemma_single_contains(InstallStep::StartMenuShortcut);
    lemma_single_contains(InstallStep::DesktopShortcut);
    lemma_single_contains(InstallStep::StartupEntry);
    lemma_single_contains(InstallStep::RegisterUninstall);
    lemma_single_contains(InstallStep::Launch);
    assert(steps.contains(InstallStep::StartMenuShortcut) == o.start_menu_shortcut);
    assert(steps.contains(InstallStep::DesktopShortcut) == o.desktop_shortcut);
    assert(steps.contains(InstallStep::StartupEntry) == o.startup);
    assert(steps.contains(InstallStep::Launch) == o.launch);
    assert(e.contains(InstallStep::RegisterUninstall)) by {
        assert(e[0] == InstallStep::RegisterUninstall);
    }
    let front = a + b + c + d;
    assert(steps[0] == a[0] && steps[1] == a[1]) by {
        assert(front[0] == a[0] && front[1] == a[1]);
        assert((front + e)[0] == a[0] && (front + e)[1] == a[1]);
    }
    if o.launch {
        assert(steps.last() == f[0]);
    } else {
        assert(steps =~= front + e);
        assert(steps.last() == e[0]);
    }
}

} // verus!
