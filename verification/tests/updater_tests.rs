use chosen_visualizer::updater::{
    desktop_shortcut_script, evaluate_releases, find_update_asset, icon_location,
    is_installable_asset_name, is_versioned_update_asset_name, listing_status_failure,
    paths_equal, powershell_quote, releases_api_url, replace_failure_message, repository,
    select_release, update_asset, update_ui_arguments, validate_update_download, GithubAsset,
    GithubRelease, InstallOutcome, UpdateAsset, UpdateCheckResult, UpdateInfo, UpdatingApp,
    APP_VERSION, app_version_label,
};
use chosen_visualizer::version::{
    compare_release_candidates, compare_versions, is_newer_release, release_outranks,
    version_numbers,
};
use std::cmp::Ordering;

fn test_release(tag_name: &str, prerelease: bool) -> GithubRelease {
    GithubRelease {
        tag_name: tag_name.to_owned(),
        name: None,
        html_url: String::new(),
        draft: false,
        prerelease,
        assets: Vec::new(),
    }
}

fn asset(name: &str, url: &str) -> GithubAsset {
    GithubAsset { name: name.to_owned(), browser_download_url: url.to_owned() }
}

#[test]
fn compares_version_tags() {
    assert_eq!(compare_versions("v1.0.5", "1.0.4"), Ordering::Greater);
    assert_eq!(compare_versions("1.0.4", "v1.0.4"), Ordering::Equal);
    assert_eq!(compare_versions("v1.0.3", "1.0.4"), Ordering::Less);
}

#[test]
fn prefers_stable_release_when_versions_match() {
    let stable = test_release("v1.0.5", false);
    let prerelease = test_release("v1.0.5-test", true);
    assert_eq!(
        compare_release_candidates(&stable, &prerelease),
        Ordering::Greater
    );
}

#[test]
fn only_installs_windows_exe_assets() {
    assert!(is_installable_asset_name("chosen-visualizer-v1.0.5.exe"));
    assert!(is_installable_asset_name("ChosenVisualizerSetup.exe"));
    assert!(!is_installable_asset_name("ChosenVisualizerSetup.msi"));
    assert!(!is_installable_asset_name("source.zip"));
    assert!(!is_installable_asset_name("chosen-visualizer.pdb"));
}

#[test]
fn recognizes_versioned_update_assets() {
    assert!(is_versioned_update_asset_name("chosen-visualizer-v1.0.5.exe"));
    assert!(!is_versioned_update_asset_name("chosen-visualizer.exe"));
    assert!(!is_versioned_update_asset_name("chosen-visualizer-updater.exe"));
}

#[test]
fn reads_every_digit_run_of_a_tag() {
    assert_eq!(version_numbers("v1.0.5"), vec![1, 0, 5]);
    assert_eq!(version_numbers("release-2024.10-rc3"), vec![2024, 10, 3]);
    assert_eq!(version_numbers("no digits"), Vec::<u32>::new());
    assert_eq!(version_numbers("007.08"), vec![7, 8]);
}

#[test]
fn reads_oversized_version_numbers_as_zero() {
    assert_eq!(version_numbers("v4294967295.1"), vec![4294967295, 1]);
    assert_eq!(version_numbers("v4294967296.1"), vec![0, 1]);
    assert_eq!(version_numbers("99999999999999999999"), vec![0]);
}

#[test]
fn missing_version_components_count_as_zero() {
    assert_eq!(compare_versions("1", "1.0.0"), Ordering::Equal);
    assert_eq!(compare_versions("1.0.0.1", "1"), Ordering::Greater);
    assert_eq!(compare_versions("1.2", "1.10"), Ordering::Less);
    assert_eq!(compare_versions("", "0.0.0"), Ordering::Equal);
    assert_eq!(compare_versions("1.0", "1.0.0.0"), Ordering::Equal);
    assert_eq!(compare_versions("1.0.0.0.2", "1.0"), Ordering::Greater);
}

#[test]
fn version_order_is_antisymmetric_and_transitive_on_examples() {
    let tags = ["1.0", "1.0.1", "v0.9", "2", "1.0.1-beta"];
    for a in tags {
        for b in tags {
            let ab = compare_versions(a, b);
            assert_eq!(ab.reverse(), compare_versions(b, a));
            for c in tags {
                if ab != Ordering::Greater && compare_versions(b, c) != Ordering::Greater {
                    assert_ne!(compare_versions(a, c), Ordering::Greater);
                }
            }
        }
    }
}

#[test]
fn prerelease_ranks_below_stable_of_same_version() {
    let stable = test_release("v2.0.0", false);
    let pre = test_release("v2.0-rc", true);
    assert_eq!(compare_release_candidates(&pre, &stable), Ordering::Less);
    assert!(release_outranks(&stable, &pre));
    assert!(!release_outranks(&pre, &stable));
    let other = test_release("v2", true);
    assert_eq!(compare_release_candidates(&pre, &other), Ordering::Equal);
}

#[test]
fn newer_release_means_above_this_build() {
    assert_eq!(APP_VERSION, "1.0.3");
    assert!(is_newer_release("v1.0.4"));
    assert!(!is_newer_release("v1.0.3"));
    assert!(!is_newer_release("1.0.2"));
    assert!(is_newer_release("2"));
}

#[test]
fn installable_names_ignore_letter_case() {
    assert!(is_installable_asset_name("CHOSEN-VISUALIZER.EXE"));
    assert!(is_installable_asset_name("tool-Install.exe"));
    assert!(!is_installable_asset_name("setup-debug.exe"));
    assert!(!is_installable_asset_name("random.exe"));
    assert!(is_versioned_update_asset_name("Chosen-Visualizer-V2.EXE"));
}

#[test]
fn update_asset_keeps_installable_assets_only() {
    let a = asset("ChosenVisualizerSetup.exe", "https://example.com/setup.exe");
    let u = update_asset(&a).unwrap();
    assert_eq!(u.name, "ChosenVisualizerSetup.exe");
    assert_eq!(u.download_url, "https://example.com/setup.exe");
    assert!(update_asset(&asset("notes.txt", "https://example.com/notes.txt")).is_none());
}

#[test]
fn first_installable_asset_is_chosen() {
    let assets = vec![
        asset("source.zip", "u0"),
        asset("chosen-visualizer.pdb", "u1"),
        asset("chosen-visualizer-v1.2.0.exe", "u2"),
        asset("ChosenVisualizerSetup.exe", "u3"),
    ];
    let u = find_update_asset(&assets).unwrap();
    assert_eq!(u.download_url, "u2");
    assert!(find_update_asset(&vec![asset("source.zip", "u0")]).is_none());
}

fn release(tag: &str, draft: bool, prerelease: bool, name: Option<&str>) -> GithubRelease {
    GithubRelease {
        tag_name: tag.to_owned(),
        name: name.map(|n| n.to_owned()),
        html_url: format!("https://example.com/{tag}"),
        draft,
        prerelease,
        assets: vec![asset(&format!("chosen-visualizer-{tag}.exe"), &format!("dl/{tag}"))],
    }
}

#[test]
fn selects_the_highest_eligible_release() {
    let releases = vec![
        release("v1.0.4", false, false, None),
        release("v1.2.0", true, false, None),
        release("v1.1.0-test", false, true, None),
        release("v1.1.0", false, false, Some("One point one")),
        release("v1.0.1", false, false, None),
    ];
    assert_eq!(select_release(&releases), Some(3));
    match evaluate_releases(&releases) {
        UpdateCheckResult::Available(info) => {
            assert_eq!(info.version, "One point one");
            assert_eq!(info.tag, "v1.1.0");
            assert_eq!(info.page_url, "https://example.com/v1.1.0");
            assert!(!info.prerelease);
            let a = info.asset.unwrap();
            assert_eq!(a.name, "chosen-visualizer-v1.1.0.exe");
            assert_eq!(a.download_url, "dl/v1.1.0");
        }
        _ => panic!("an update was expected"),
    }
}

#[test]
fn last_of_equally_ranked_releases_is_selected() {
    let releases = vec![
        release("v1.5", false, false, None),
        release("1.5.0", false, false, None),
        release("v1.4", false, false, None),
    ];
    assert_eq!(select_release(&releases), Some(1));
}

#[test]
fn up_to_date_without_newer_published_release() {
    let releases = vec![
        release("v1.0.3", false, false, None),
        release("v0.9", false, false, None),
        release("v9.9.9", true, false, None),
    ];
    assert_eq!(select_release(&releases), None);
    assert!(matches!(evaluate_releases(&releases), UpdateCheckResult::UpToDate));
    assert!(matches!(evaluate_releases(&Vec::new()), UpdateCheckResult::UpToDate));
}

#[test]
fn release_version_falls_back_to_tag() {
    let releases = vec![release("v3.0.0", false, true, None)];
    match evaluate_releases(&releases) {
        UpdateCheckResult::Available(info) => {
            assert_eq!(info.version, "v3.0.0");
            assert!(info.prerelease);
        }
        _ => panic!("an update was expected"),
    }
}

#[test]
fn repository_defaults_when_none_is_configured() {
    assert_eq!(repository(None), "ChosenTechies/chosen-visualizer");
    assert_eq!(repository(Some("me/fork")), "me/fork");
    assert_eq!(
        releases_api_url("me/fork"),
        "https://api.github.com/repos/me/fork/releases?per_page=20"
    );
}

#[test]
fn listing_status_failures() {
    assert_eq!(
        listing_status_failure(404, "404 Not Found", "me/fork").unwrap(),
        "GitHub repository me/fork was not found. Confirm the repository and releases are public."
    );
    assert_eq!(
        listing_status_failure(500, "500 Internal Server Error", "me/fork").unwrap(),
        "GitHub returned 500 Internal Server Error"
    );
    assert!(listing_status_failure(200, "200 OK", "me/fork").is_none());
    assert!(listing_status_failure(204, "204 No Content", "me/fork").is_none());
    assert!(listing_status_failure(301, "301 Moved Permanently", "me/fork").is_some());
}

fn info(asset: Option<UpdateAsset>) -> UpdateInfo {
    UpdateInfo {
        version: "v1.1".to_owned(),
        tag: "v1.1".to_owned(),
        page_url: "https://example.com/page".to_owned(),
        prerelease: false,
        asset,
    }
}

#[test]
fn update_window_arguments() {
    let with_asset = info(Some(UpdateAsset {
        name: "setup.exe".to_owned(),
        download_url: "https://example.com/setup.exe".to_owned(),
    }));
    assert_eq!(
        update_ui_arguments(&with_asset).unwrap(),
        vec![
            "--update-ui".to_owned(),
            "https://example.com/setup.exe".to_owned(),
            "https://example.com/page".to_owned(),
            "setup.exe".to_owned()
        ]
    );
    assert_eq!(
        update_ui_arguments(&info(None)).unwrap_err(),
        "This GitHub release does not include a Windows executable asset."
    );
}

#[test]
fn downloads_are_checked_before_fetching() {
    assert!(validate_update_download("https://example.com/a.exe", "ChosenVisualizerSetup.exe").is_ok());
    assert_eq!(
        validate_update_download("http://example.com/a.exe", "ChosenVisualizerSetup.exe").unwrap_err(),
        "The release asset URL is not a secure GitHub download URL."
    );
    assert_eq!(
        validate_update_download("https://example.com/a.zip", "source.zip").unwrap_err(),
        "source.zip is not a supported Windows executable asset."
    );
}

#[test]
fn powershell_quote_doubles_single_quotes() {
    assert_eq!(powershell_quote("plain"), "'plain'");
    assert_eq!(powershell_quote("O'Brien's"), "'O''Brien''s'");
    assert_eq!(powershell_quote(""), "''");
}

#[test]
fn quoted_text_reads_back_unchanged() {
    for value in ["a'b", "''", "C:\\Users\\x'y\\app.exe", "plain"] {
        let q = powershell_quote(value);
        let inner = &q[1..q.len() - 1];
        assert_eq!(inner.replace("''", "'"), value);
    }
}

#[test]
fn shortcut_script_quotes_every_path() {
    let script = desktop_shortcut_script("C:\\A\\x.exe", "C:\\A", &icon_location("C:\\A\\x.exe"));
    assert_eq!(
        script,
        "$desktop = [Environment]::GetFolderPath('Desktop'); $shortcutPath = Join-Path $desktop 'Chosen Visualizer.lnk'; $shell = New-Object -ComObject WScript.Shell; $shortcut = $shell.CreateShortcut($shortcutPath); $shortcut.TargetPath = 'C:\\A\\x.exe'; $shortcut.WorkingDirectory = 'C:\\A'; $shortcut.IconLocation = 'C:\\A\\x.exe,0'; $shortcut.Save();"
    );
}

#[test]
fn path_comparison_follows_case_rule() {
    assert!(paths_equal("C:\\App\\X.exe", "c:\\app\\x.EXE", true));
    assert!(!paths_equal("C:\\App\\X.exe", "c:\\app\\x.EXE", false));
    assert!(paths_equal("/a/b", "/a/b", false));
    assert!(!paths_equal("/a/b", "/a/bc", true));
}

#[test]
fn replace_failure_names_the_file() {
    assert_eq!(
        replace_failure_message("C:\\x.exe", "denied"),
        "Could not replace C:\\x.exe. Close any running Chosen Visualizer windows and retry. Last error: denied"
    );
}

#[test]
fn updating_app_runs_one_job_at_a_time() {
    let mut app = UpdatingApp::new(
        "https://example.com/a.exe".to_owned(),
        "https://example.com/page".to_owned(),
        "a-setup.exe".to_owned(),
        "C:\\Data",
    );
    assert_eq!(app.status, "Preparing update install in C:\\Data...");
    assert!(app.start());
    assert_eq!(app.status, "Downloading a-setup.exe and installing it as chosen-visualizer.exe...");
    assert!(app.awaiting_result);
    assert!(!app.start());
    assert!(!app.record_outcome(InstallOutcome::Failed("network down".to_owned())));
    assert!(app.failed);
    assert_eq!(app.status, "network down");
    assert!(app.retry());
    assert!(!app.failed);
    assert!(app.record_outcome(InstallOutcome::Installed {
        path: "C:\\Data\\chosen-visualizer.exe".to_owned(),
        open_error: None,
    }));
    assert_eq!(app.status, "Installed C:\\Data\\chosen-visualizer.exe and opened the new version.");
}

#[test]
fn updating_app_reports_open_failure() {
    let mut app = UpdatingApp::new("u".to_owned(), "p".to_owned(), "a.exe".to_owned(), "D");
    assert!(app.start());
    assert!(!app.record_outcome(InstallOutcome::Installed {
        path: "D\\x.exe".to_owned(),
        open_error: Some("access denied".to_owned()),
    }));
    assert!(app.failed);
    assert_eq!(app.status, "Installed D\\x.exe, but could not open it: access denied");
}

#[test]
fn updating_app_without_download_does_not_start() {
    let mut app = UpdatingApp::new("   ".to_owned(), "p".to_owned(), "a.exe".to_owned(), "D");
    assert!(!app.start());
    assert!(!app.started);
    assert!(!app.retry());
}

#[test]
fn version_label_is_v_and_version() {
    assert_eq!(app_version_label(), "v1.0.3");
    assert_eq!(app_version_label(), format!("v{APP_VERSION}"));
}
