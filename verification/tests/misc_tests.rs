use chosen_visualizer::audio::{
    decode_int24, sample_kind_from_bits, sample_kind_from_format, waveform_window, SampleBuffer,
    SampleKind, SAMPLE_BUFFER, WAVEFORM_POINTS,
};
use chosen_visualizer::installer::{
    install_steps, quote_path, removal_succeeded, uninstall_command, uninstall_entry_values,
    InstallStep, Mode, Options, RegistryValue,
};
use chosen_visualizer::text::trim;
use chosen_visualizer::tray::{TrayCommand, TrayController};

fn args(list: &[&str]) -> Vec<String> {
    list.iter().map(|a| a.to_string()).collect()
}

#[test]
fn tray_commands_round_trip_through_codes() {
    for c in [
        TrayCommand::NoCommand,
        TrayCommand::Show,
        TrayCommand::OpenSettings,
        TrayCommand::Hide,
        TrayCommand::Quit,
    ] {
        assert_eq!(TrayCommand::from_code(c.code()), c);
    }
    assert_eq!(TrayCommand::from_code(9), TrayCommand::NoCommand);
}

#[test]
fn tray_command_is_taken_once() {
    let tray = TrayController::new();
    assert_eq!(tray.take_command(), TrayCommand::NoCommand);
    let menu = tray.clone();
    menu.request(TrayCommand::Hide);
    menu.request(TrayCommand::Quit);
    assert_eq!(tray.take_command(), TrayCommand::Quit);
    assert_eq!(tray.take_command(), TrayCommand::NoCommand);
}

#[test]
fn sample_formats() {
    assert_eq!(sample_kind_from_bits(16), SampleKind::Int16);
    assert_eq!(sample_kind_from_bits(24), SampleKind::Int24);
    assert_eq!(sample_kind_from_bits(32), SampleKind::Int32);
    assert_eq!(sample_kind_from_bits(8), SampleKind::Float32);
    assert_eq!(sample_kind_from_format(3, 32, false), SampleKind::Float32);
    assert_eq!(sample_kind_from_format(1, 16, true), SampleKind::Int16);
    assert_eq!(sample_kind_from_format(0xFFFE, 32, true), SampleKind::Float32);
    assert_eq!(sample_kind_from_format(0xFFFE, 24, false), SampleKind::Int24);
    assert_eq!(sample_kind_from_format(7, 16, false), SampleKind::Float32);
}

#[test]
fn decodes_24_bit_samples() {
    assert_eq!(decode_int24(0, 0, 0), 0);
    assert_eq!(decode_int24(0xFF, 0xFF, 0x7F), 8_388_607);
    assert_eq!(decode_int24(0, 0, 0x80), -8_388_608);
    assert_eq!(decode_int24(0xFF, 0xFF, 0xFF), -1);
    assert_eq!(decode_int24(0x01, 0x02, 0x03), 0x030201);
}

#[test]
fn sample_buffer_keeps_the_latest() {
    let mut b: SampleBuffer<f32> = SampleBuffer::new(4);
    b.extend_from_slice(&[0.1, 0.2, 0.3]);
    assert_eq!(b.len(), 3);
    b.extend_from_slice(&[0.4, 0.5, 0.6]);
    assert_eq!(b.len(), 4);
    assert_eq!(b.latest(10), vec![0.3, 0.4, 0.5, 0.6]);
    assert_eq!(b.latest(2), vec![0.5, 0.6]);
    b.push(0.7);
    assert_eq!(b.latest(4), vec![0.4, 0.5, 0.6, 0.7]);
    assert_eq!(SAMPLE_BUFFER, 8192);
}

#[test]
fn waveform_windows_cover_the_samples() {
    assert_eq!(WAVEFORM_POINTS, 512);
    assert_eq!(waveform_window(0, 8192, 512), (0, 16));
    assert_eq!(waveform_window(511, 8192, 512), (8176, 8192));
    // fewer samples than points: every window still holds one sample
    assert_eq!(waveform_window(0, 100, 512), (0, 1));
    assert_eq!(waveform_window(511, 100, 512), (99, 100));
}

#[test]
fn installer_defaults() {
    let o = Options::parse(&Vec::new()).unwrap();
    assert_eq!(o.mode, Mode::Install);
    assert_eq!(o.source, None);
    assert!(o.desktop_shortcut && o.start_menu_shortcut && !o.startup && !o.launch);
}

#[test]
fn installer_flags_and_sources() {
    let o = Options::parse(&args(&["--no-desktop-shortcut", "--startup", "--launch", "--source", "C:\\b\\app.exe"])).unwrap();
    assert!(!o.desktop_shortcut && o.start_menu_shortcut && o.startup && o.launch);
    assert_eq!(o.source.as_deref(), Some("C:\\b\\app.exe"));
    let o = Options::parse(&args(&["--source=x.exe", "--no-start-menu-shortcut"])).unwrap();
    assert_eq!(o.source.as_deref(), Some("x.exe"));
    assert!(!o.start_menu_shortcut);
    let o = Options::parse(&args(&["app.exe", "--uninstall"])).unwrap();
    assert_eq!(o.source.as_deref(), Some("app.exe"));
    assert_eq!(o.mode, Mode::Uninstall);
    assert_eq!(Options::parse(&args(&["-h"])).unwrap().mode, Mode::Help);
    assert_eq!(Options::parse(&args(&["--uninstall", "--help"])).unwrap().mode, Mode::Help);
}

#[test]
fn installer_argument_errors() {
    assert_eq!(
        Options::parse(&args(&["--source"])).err().unwrap(),
        "--source requires a path"
    );
    assert_eq!(
        Options::parse(&args(&["--bogus"])).err().unwrap(),
        "unknown option: --bogus"
    );
    assert_eq!(
        Options::parse(&args(&["a.exe", "b.exe"])).err().unwrap(),
        "unknown option: b.exe"
    );
}

#[test]
fn uninstall_entry() {
    assert_eq!(quote_path("C:\\P\\a.exe"), "\"C:\\P\\a.exe\"");
    assert_eq!(uninstall_command("C:\\P\\i.exe"), "\"C:\\P\\i.exe\" --uninstall");
    let values = uninstall_entry_values("C:\\P", "C:\\P\\a.exe", "C:\\P\\i.exe");
    let shown: Vec<(String, String)> = values
        .iter()
        .map(|v| match v {
            RegistryValue::Text { name, text } => (name.clone(), text.clone()),
            RegistryValue::Number { name, number } => (name.clone(), number.to_string()),
        })
        .collect();
    let expected = [
        ("DisplayName", "Chosen Visualizer"),
        ("DisplayVersion", "1.0.0"),
        ("Publisher", "Chosen Visualizer"),
        ("InstallLocation", "C:\\P"),
        ("DisplayIcon", "C:\\P\\a.exe"),
        ("UninstallString", "\"C:\\P\\i.exe\" --uninstall"),
        ("NoModify", "1"),
        ("NoRepair", "1"),
    ];
    let expected: Vec<(String, String)> =
        expected.iter().map(|(a, b)| (a.to_string(), b.to_string())).collect();
    assert_eq!(shown, expected);
}

#[test]
fn removal_statuses() {
    assert!(removal_succeeded(0));
    assert!(removal_succeeded(2));
    assert!(removal_succeeded(3));
    assert!(!removal_succeeded(5));
}

#[test]
fn install_step_order() {
    let o = Options::parse(&Vec::new()).unwrap();
    assert_eq!(
        install_steps(&o),
        vec![
            InstallStep::CopyApp,
            InstallStep::CopyInstaller,
            InstallStep::StartMenuShortcut,
            InstallStep::DesktopShortcut,
            InstallStep::RegisterUninstall
        ]
    );
    let o = Options::parse(&args(&["--no-desktop-shortcut", "--no-start-menu-shortcut", "--startup", "--launch"])).unwrap();
    assert_eq!(
        install_steps(&o),
        vec![
            InstallStep::CopyApp,
            InstallStep::CopyInstaller,
            InstallStep::StartupEntry,
            InstallStep::RegisterUninstall,
            InstallStep::Launch
        ]
    );
}

#[test]
fn trim_matches_std() {
    for s in ["", "   ", " a b ", "\u{2003}x\u{85}", "\t\r\nz", "no-space"] {
        assert_eq!(trim(s), s.trim());
    }
}

#[test]
fn trimming_twice_trims_no_more() {
    for s in ["  a  ", "\u{3000}\u{2028}b c\t", "", "x"] {
        let once = trim(s);
        assert_eq!(trim(&once), once);
    }
}

use chosen_visualizer::cover::{CoverArtCache, COVER_RETRY_MS};

#[test]
fn cover_palette_lookups_are_cached_and_retried() {
    let mut cache: CoverArtCache<u8> = CoverArtCache::new();
    assert_eq!(COVER_RETRY_MS, 10_000);
    assert!(!cache.begin_lookup("   ", 0));
    assert!(cache.begin_lookup("  cover.png ", 0));
    assert_eq!(cache.source, "cover.png");
    cache.finish_lookup(None, 100);
    // failed lookups wait ten seconds before another try
    assert!(!cache.begin_lookup("cover.png", 5_000));
    assert!(cache.begin_lookup("cover.png", 10_100));
    cache.finish_lookup(Some(7), 10_200);
    assert!(!cache.begin_lookup("cover.png", 99_999));
    assert_eq!(cache.palette, Some(7));
    // another source starts afresh
    assert!(cache.begin_lookup("other.png", 10_300));
    assert_eq!(cache.palette, None);
    // an empty source clears everything
    assert!(!cache.begin_lookup("", 10_400));
    assert_eq!(cache.source, "");
    assert_eq!(cache.attempted_at_ms, None);
}
