//! Choosing, describing and installing updates from the project's releases.
use vstd::prelude::*;

use crate::text::{
    chars_of, concat, contains_chars, ends_with_chars, lower_chars, lower_seq, seq_contains,
    seq_ends_with, seq_starts_with, starts_with_chars, string_of, trim, trim_seq,
};
use crate::version::{is_newer_release, outranks, release_outranks, spec_version_numbers, version_less, lemma_not_outranks_transitive, lemma_outranks_strict};

verus! {

/// The version of this build.
pub const APP_VERSION: &'static str = "1.0.3";

/// The repository whose releases are checked when no other is configured.
pub const DEFAULT_REPOSITORY: &'static str = "ChosenTechies/chosen-visualizer";

/// File name of the installed application.
pub const INSTALLED_EXE_NAME: &'static str = "chosen-visualizer.exe";

/// File name of the copy that runs the update window.
pub const UPDATER_EXE_NAME: &'static str = "chosen-visualizer-updater.exe";

/// File name under which a download is staged before it replaces the application.
pub const PARTIAL_EXE_NAME: &'static str = "chosen-visualizer.exe.download";

/// File name of the desktop shortcut.
pub const DESKTOP_SHORTCUT_NAME: &'static str = "Chosen Visualizer.lnk";

/// How often the installed executable is tried to be replaced before giving up.
pub const REPLACE_ATTEMPTS: u32 = 24;

/// The version label shown to users and sent with requests: `v` and the version.
pub fn app_version_label() -> (label: String)
    ensures
        label@ == "v"@ + APP_VERSION@,
{
    concat("v", APP_VERSION)
}

/// A downloadable file of a release.
pub struct GithubAsset {
    pub name: String,
    pub browser_download_url: String,
}

/// One release as the releases listing describes it.
pub struct GithubRelease {
    pub tag_name: String,
    pub name: Option<String>,
    pub html_url: String,
    pub draft: bool,
    pub prerelease: bool,
    pub assets: Vec<GithubAsset>,
}

/// The installable file of an update.
pub struct UpdateAsset {
    pub name: String,
    pub download_url: String,
}

/// An update that is newer than this build.
pub struct UpdateInfo {
    pub version: String,
    pub tag: String,
    pub page_url: String,
    pub prerelease: bool,
    pub asset: Option<UpdateAsset>,
}

/// The outcome of an update check.
pub enum UpdateCheckResult {
    Available(UpdateInfo),
    UpToDate,
    Failed(String),
}


/// An asset name that the updater may install: a Windows executable that
/// looks like a setup, an installer or the application itself, and no debug
/// build, symbol file or archive (letters compared case-insensitively).
pub open spec fn installable_name(name: Seq<char>) -> bool {
    let lower = lower_seq(name);
    &&& seq_ends_with(lower, ".exe"@)
    &&& (seq_contains(lower, "setup"@) || seq_contains(lower, "install"@) || seq_contains(
        lower,
        "chosen-visualizer"@,
    ))
    &&& !seq_contains(lower, "debug"@)
    &&& !seq_ends_with(lower, ".pdb"@)
    &&& !seq_ends_with(lower, ".zip"@)
}

/// A name that ends in `.exe` ends in neither `.pdb` nor `.zip`.
proof fn lemma_exe_is_no_symbol_file_or_archive(lower: Seq<char>)
    requires
        seq_ends_with(lower, ".exe"@),
    ensures
        !seq_ends_with(lower, ".pdb"@),
        !seq_ends_with(lower, ".zip"@),
{
    reveal_strlit(".exe");
    reveal_strlit(".pdb");
    reveal_strlit(".zip");
    let tail = lower.subrange(lower.len() - 4, lower.len() as int);
    assert(tail[1] == 'e');
}

/// Which asset names the updater installs, case-insensitively: every
/// Windows executable (`.exe`) whose name mentions `setup`, `install` or
/// `chosen-visualizer` anywhere, unless it mentions `debug`; and nothing else.
pub proof fn lemma_installable_names(name: Seq<char>)
    ensures
        ({
            let lower = lower_seq(name);
            &&& seq_ends_with(lower, ".exe"@) && seq_contains(lower, "setup"@) && !seq_contains(
                lower,
                "debug"@,
            ) ==> installable_name(name)
            &&& seq_ends_with(lower, ".exe"@) && seq_contains(lower, "install"@) && !seq_contains(
                lower,
                "debug"@,
            ) ==> installable_name(name)
            &&& seq_ends_with(lower, ".exe"@) && seq_contains(lower, "chosen-visualizer"@)
                && !seq_contains(lower, "debug"@) ==> installable_name(name)
            &&& installable_name(name) ==> seq_ends_with(lower, ".exe"@)
            &&& installable_name(name) ==> !seq_contains(lower, "debug"@)
            &&& installable_name(name) ==> seq_contains(lower, "setup"@) || seq_contains(
                lower,
                "install"@,
            ) || seq_contains(lower, "chosen-visualizer"@)
        }),
{
    let lower = lower_seq(name);
    if seq_ends_with(lower, ".exe"@) {
        lemma_exe_is_no_symbol_file_or_archive(lower);
    }
}

/// A file name of a versioned application download, `chosen-visualizer-v*.exe`
/// (case-insensitively).
pub open spec fn versioned_update_name(name: Seq<char>) -> bool {
    let lower = lower_seq(name);
    seq_starts_with(lower, "chosen-visualizer-v"@) && seq_ends_with(lower, ".exe"@)
}

/// Is `name` an asset that the updater may install?
pub fn is_installable_asset_name(name: &str) -> (b: bool)
    ensures
        b == installable_name(name@),
{
    let lower = lower_chars(name);
    let is_windows_exe = ends_with_chars(&lower, ".exe") && (contains_chars(&lower, "setup")
        || contains_chars(&lower, "install") || contains_chars(&lower, "chosen-visualizer"));
    is_windows_exe && !contains_chars(&lower, "debug") && !ends_with_chars(&lower, ".pdb")
        && !ends_with_chars(&lower, ".zip")
}

/// Is `name` the file name of a versioned application download?
pub fn is_versioned_update_asset_name(name: &str) -> (b: bool)
    ensures
        b == versioned_update_name(name@),
{
    let lower = lower_chars(name);
    starts_with_chars(&lower, "chosen-visualizer-v") && ends_with_chars(&lower, ".exe")
}

/// The update asset made from `asset`, where its name is installable.
pub fn update_asset(asset: &GithubAsset) -> (r: Option<UpdateAsset>)
    ensures
        r is None <==> !installable_name(asset.name@),
        r matches Some(u) ==> u.name@ == asset.name@ && u.download_url@
            == asset.browser_download_url@,
{
    if !is_installable_asset_name(asset.name.as_str()) {
        return None;
    }
    Some(UpdateAsset { name: asset.name.clone(), download_url: asset.browser_download_url.clone() })
}

/// `k` is the first asset with an installable name.
pub open spec fn first_installable(assets: Seq<GithubAsset>, k: int) -> bool {
    &&& 0 <= k < assets.len()
    &&& installable_name(assets[k].name@)
    &&& forall|j: int| 0 <= j < k ==> !installable_name(#[trigger] assets[j].name@)
}

/// The first asset of a release that the updater may install.
pub fn find_update_asset(assets: &Vec<GithubAsset>) -> (r: Option<UpdateAsset>)
    ensures
        r is None <==> forall|j: int| 0 <= j < assets@.len() ==> !installable_name(#[trigger] assets@[j].name@),
        r matches Some(u) ==> exists|k: int|
            first_installable(assets@, k) && u.name@ == assets@[k].name@ && u.download_url@
                == assets@[k].browser_download_url@,
{
    let mut i: usize = 0;
    while i < assets.len()
        invariant
            i <= assets@.len(),
            forall|j: int| 0 <= j < i ==> !installable_name(#[trigger] assets@[j].name@),
        decreases assets.len() - i,
    {
        let found = update_asset(&assets[i]);
        if found.is_some() {
            assert(first_installable(assets@, i as int));
            return found;
        }
        i += 1;
    }
    None
}

/// A release that is offered as an update: published, and newer than this build.
pub open spec fn eligible(r: GithubRelease) -> bool {
    !r.draft && version_less(spec_version_numbers(APP_VERSION@), spec_version_numbers(r.tag_name@))
}

/// `k` is the release that an update check offers: eligible, ranking at
/// least as high as every earlier eligible release and above every later one
/// (the last of the highest-ranking eligible releases).
pub open spec fn is_selected(rs: Seq<GithubRelease>, k: int) -> bool {
    &&& 0 <= k < rs.len()
    &&& eligible(rs[k])
    &&& forall|j: int| 0 <= j < k && eligible(rs[j]) ==> !outranks(#[trigger] rs[j], rs[k])
    &&& forall|j: int| k < j < rs.len() && eligible(rs[j]) ==> outranks(rs[k], #[trigger] rs[j])
}

/// At most one release is the one offered.
pub proof fn lemma_selection_unique(rs: Seq<GithubRelease>, k1: int, k2: int)
    requires
        is_selected(rs, k1),
        is_selected(rs, k2),
    ensures
        k1 == k2,
{
    if k1 < k2 {
        assert(outranks(rs[k1], rs[k2]));
        assert(!outranks(rs[k1], rs[k2]));
    } else if k2 < k1 {
        assert(outranks(rs[k2], rs[k1]));
        assert(!outranks(rs[k2], rs[k1]));
    }
}

/// The index of the release that an update check offers, if any.
pub fn select_release(releases: &Vec<GithubRelease>) -> (r: Option<usize>)
    ensures
        r is None <==> forall|j: int| 0 <= j < releases@.len() ==> !eligible(#[trigger] releases@[j]),
        r matches Some(k) ==> is_selected(releases@, k as int),
{
    let mut best: Option<usize> = None;
    let mut i: usize = 0;
    while i < releases.len()
        invariant
            i <= releases@.len(),
            best is None ==> forall|j: int| 0 <= j < i ==> !eligible(#[trigger] releases@[j]),
            best matches Some(b) ==> {
                &&& b < i
                &&& eligible(releases@[b as int])
                &&& forall|j: int|
                    0 <= j < b && eligible(releases@[j]) ==> !outranks(
                        #[trigger] releases@[j],
                        releases@[b as int],
                    )
                &&& forall|j: int|
                    b < j < i && eligible(releases@[j]) ==> outranks(
                        releases@[b as int],
                        #[trigger] releases@[j],
                    )
            },
        decreases releases.len() - i,
    {
        let r = &releases[i];
        if !r.draft && is_newer_release(r.tag_name.as_str()) {
            match best {
                None => {
                    best = Some(i);
                },
                Some(b) => {
                    if !release_outranks(&releases[b], r) {
                        let ghost rb = releases@[b as int];
                        assert forall|j: int|
                            0 <= j < i && eligible(releases@[j]) implies !outranks(
                            #[trigger] releases@[j],
                            releases@[i as int],
                        ) by {
                            let rj = releases@[j];
                            lemma_not_outranks_transitive(rj, rb, releases@[i as int]);
                            lemma_outranks_strict(rb, rj, releases@[i as int]);
                            lemma_outranks_strict(rj, rb, releases@[i as int]);
                        }
                        best = Some(i);
                    }
                },
            }
        }
        i += 1;
    }
    best
}

/// The update that `r` describes.
fn describe_release(r: &GithubRelease) -> (info: UpdateInfo)
    ensures
        info.version@ == (match r.name {
            Some(n) => n@,
            None => r.tag_name@,
        }),
        info.tag@ == r.tag_name@,
        info.page_url@ == r.html_url@,
        info.prerelease == r.prerelease,
        info.asset is None <==> forall|j: int|
            0 <= j < r.assets@.len() ==> !installable_name(#[trigger] r.assets@[j].name@),
        info.asset matches Some(u) ==> exists|k: int|
            first_installable(r.assets@, k) && u.name@ == r.assets@[k].name@ && u.download_url@
                == r.assets@[k].browser_download_url@,
{
    let asset = find_update_asset(&r.assets);
    let version = match &r.name {
        Some(n) => n.clone(),
        None => r.tag_name.clone(),
    };
    UpdateInfo {
        version,
        tag: r.tag_name.clone(),
        page_url: r.html_url.clone(),
        prerelease: r.prerelease,
        asset,
    }
}

/// `info` describes release `r`: its name (or tag), tag, page, pre-release
/// flag, and its first installable asset.
pub open spec fn describes(info: UpdateInfo, r: GithubRelease) -> bool {
    &&& info.version@ == (match r.name {
        Some(n) => n@,
        None => r.tag_name@,
    })
    &&& info.tag@ == r.tag_name@
    &&& info.page_url@ == r.html_url@
    &&& info.prerelease == r.prerelease
    &&& (info.asset is None <==> forall|j: int|
        0 <= j < r.assets@.len() ==> !installable_name(#[trigger] r.assets@[j].name@))
    &&& (info.asset matches Some(u) ==> exists|k: int|
        first_installable(r.assets@, k) && u.name@ == r.assets@[k].name@ && u.download_url@
            == r.assets@[k].browser_download_url@)
}

/// The result of an update check over the listed releases: the offered
/// release, or up to date where no release is eligible.
pub fn evaluate_releases(releases: &Vec<GithubRelease>) -> (result: UpdateCheckResult)
    ensures
        result is UpToDate <==> forall|j: int|
            0 <= j < releases@.len() ==> !eligible(#[trigger] releases@[j]),
        result matches UpdateCheckResult::Available(info) ==> exists|k: int|
            is_selected(releases@, k) && describes(info, releases@[k]),
        !(result is Failed),
{
    match select_release(releases) {
        None => UpdateCheckResult::UpToDate,
        Some(k) => {
            let info = describe_release(&releases[k]);
            assert(describes(info, releases@[k as int]));
            UpdateCheckResult::Available(info)
        },
    }
}


/// The repository to check: the configured one, else the default.
pub fn repository(configured: Option<&str>) -> (repo: String)
    ensures
        repo@ == (match configured {
            Some(c) => c@,
            None => DEFAULT_REPOSITORY@,
        }),
{
    match configured {
        Some(c) => String::from_str(c),
        None => String::from_str(DEFAULT_REPOSITORY),
    }
}

/// The address that lists the latest releases of `repo`.
pub fn releases_api_url(repo: &str) -> (url: String)
    ensures
        url@ == "https://api.github.com/repos/"@ + repo@ + "/releases?per_page=20"@,
{
    let mut url = concat("https://api.github.com/repos/", repo);
    url.append("/releases?per_page=20");
    url
}

/// Is `status` a success status (2xx)?
pub open spec fn is_success_status(status: u16) -> bool {
    200 <= status <= 299
}

/// The failure that an HTTP status of the releases listing means, if any:
/// 404 names the repository, any other non-success status is reported with
/// its text.
pub fn listing_status_failure(status: u16, status_text: &str, repo: &str) -> (r: Option<String>)
    ensures
        status == 404 ==> (r matches Some(m) && m@ == "GitHub repository "@ + repo@
            + " was not found. Confirm the repository and releases are public."@),
        status != 404 && !is_success_status(status) ==> (r matches Some(m) && m@
            == "GitHub returned "@ + status_text@),
        is_success_status(status) ==> r is None,
{
    if status == 404 {
        let mut m = concat("GitHub repository ", repo);
        m.append(" was not found. Confirm the repository and releases are public.");
        return Some(m);
    }
    if status < 200 || status > 299 {
        return Some(concat("GitHub returned ", status_text));
    }
    None
}

/// The message given when a release has no installable asset.
pub open spec fn no_asset_message() -> Seq<char> {
    "This GitHub release does not include a Windows executable asset."@
}

/// The arguments with which the update window is started for `info`:
/// the flag, the download address, the release page and the asset name.
pub fn update_ui_arguments(info: &UpdateInfo) -> (r: Result<Vec<String>, String>)
    ensures
        info.asset is None ==> (r matches Err(e) && e@ == no_asset_message()),
        info.asset matches Some(a) ==> (r matches Ok(args) && args@.len() == 4 && args@[0]@
            == "--update-ui"@ && args@[1]@ == a.download_url@ && args@[2]@ == info.page_url@
            && args@[3]@ == a.name@),
{
    match &info.asset {
        None => Err(String::from_str(
            "This GitHub release does not include a Windows executable asset.",
        )),
        Some(asset) => {
            let mut args: Vec<String> = Vec::new();
            args.push(String::from_str("--update-ui"));
            args.push(asset.download_url.clone());
            args.push(info.page_url.clone());
            args.push(asset.name.clone());
            Ok(args)
        },
    }
}

/// Checks a download before it is fetched: the address must use `https://`
/// and the asset must be installable.
pub fn validate_update_download(download_url: &str, asset_name: &str) -> (r: Result<(), String>)
    ensures
        !seq_starts_with(download_url@, "https://"@) ==> (r matches Err(e) && e@
            == "The release asset URL is not a secure GitHub download URL."@),
        seq_starts_with(download_url@, "https://"@) && !installable_name(asset_name@) ==> (
        r matches Err(e) && e@ == asset_name@ + " is not a supported Windows executable asset."@),
        seq_starts_with(download_url@, "https://"@) && installable_name(asset_name@) ==> r is Ok,
{
    let url = chars_of(download_url);
    if !starts_with_chars(&url, "https://") {
        return Err(String::from_str("The release asset URL is not a secure GitHub download URL."));
    }
    if !is_installable_asset_name(asset_name) {
        return Err(concat(asset_name, " is not a supported Windows executable asset."));
    }
    Ok(())
}

/// The characters of `s` with every `'` doubled.
pub open spec fn quote_escaped(s: Seq<char>) -> Seq<char>
    decreases s.len(),
{
    if s.len() == 0 {
        Seq::empty()
    } else {
        (if s[0] == '\'' {
            seq!['\'', '\'']
        } else {
            seq![s[0]]
        }) + quote_escaped(s.drop_first())
    }
}

/// `s` as a single-quoted PowerShell string literal.
pub open spec fn ps_quoted(s: Seq<char>) -> Seq<char> {
    seq!['\''] + quote_escaped(s) + seq!['\'']
}

/// The text of the body of a single-quoted PowerShell literal: `''` stands
/// for `'`, and a lone `'` ends the literal early, which makes the body invalid.
pub open spec fn ps_literal_body(t: Seq<char>) -> Option<Seq<char>>
    decreases t.len(),
{
    if t.len() == 0 {
        Some(Seq::empty())
    } else if t[0] == '\'' {
        if t.len() >= 2 && t[1] == '\'' {
            match ps_literal_body(t.subrange(2, t.len() as int)) {
                Some(r) => Some(seq!['\''] + r),
                None => None,
            }
        } else {
            None
        }
    } else {
        match ps_literal_body(t.drop_first()) {
            Some(r) => Some(seq![t[0]] + r),
            None => None,
        }
    }
}

/// The value that PowerShell reads from a single-quoted literal.
pub open spec fn ps_unquoted(q: Seq<char>) -> Option<Seq<char>> {
    if q.len() >= 2 && q[0] == '\'' && q.last() == '\'' {
        ps_literal_body(q.subrange(1, q.len() - 1))
    } else {
        None
    }
}

proof fn lemma_escaped_concat(a: Seq<char>, b: Seq<char>)
    ensures
        quote_escaped(a + b) == quote_escaped(a) + quote_escaped(b),
    decreases a.len(),
{
    if a.len() == 0 {
        assert(a + b =~= b);
    } else {
        assert((a + b).drop_first() =~= a.drop_first() + b);
        lemma_escaped_concat(a.drop_first(), b);
        assert((a + b)[0] == a[0]);
    }
}

/// Reading back a quoted value gives the value: what `powershell_quote`
/// writes, PowerShell reads back as the same text.
pub proof fn lemma_ps_quote_round_trip(s: Seq<char>)
    ensures
        ps_unquoted(ps_quoted(s)) == Some(s),
{
    let q = ps_quoted(s);
    assert(q.subrange(1, q.len() - 1) =~= quote_escaped(s));
    lemma_body_of_escaped(s);
}

proof fn lemma_body_of_escaped(s: Seq<char>)
    ensures
        ps_literal_body(quote_escaped(s)) == Some(s),
    decreases s.len(),
{
    if s.len() == 0 {
        assert(s =~= Seq::<char>::empty());
    } else {
        let rest = s.drop_first();
        lemma_body_of_escaped(rest);
        let e = quote_escaped(s);
        if s[0] == '\'' {
            assert(e.subrange(2, e.len() as int) =~= quote_escaped(rest));
            assert(seq!['\''] + rest =~= s);
        } else {
            assert(e.drop_first() =~= quote_escaped(rest));
            assert(seq![s[0]] + rest =~= s);
        }
    }
}

/// `value` as a single-quoted PowerShell string literal.
pub fn powershell_quote(value: &str) -> (q: String)
    ensures
        q@ == ps_quoted(value@),
{
    let v = chars_of(value);
    let mut out: Vec<char> = Vec::new();
    out.push('\'');
    let mut i: usize = 0;
    while i < v.len()
        invariant
            i <= v@.len(),
            out@ == seq!['\''] + quote_escaped(v@.subrange(0, i as int)),
        decreases v.len() - i,
    {
        let c = v[i];
        proof {
            let pre = v@.subrange(0, i as int);
            assert(v@.subrange(0, i + 1) =~= pre + seq![c]);
            lemma_escaped_concat(pre, seq![c]);
            assert(seq![c].drop_first() =~= Seq::<char>::empty());
            assert(quote_escaped(Seq::<char>::empty()) =~= Seq::<char>::empty());
            assert(seq![c][0] == c);
        }
        let ghost before = out@;
        if c == '\'' {
            out.push('\'');
            out.push('\'');
            assert(quote_escaped(seq![c]) =~= seq!['\'', '\'']);
        } else {
            out.push(c);
            assert(quote_escaped(seq![c]) =~= seq![c]);
        }
        assert(out@ =~= before + quote_escaped(seq![c]));
        i += 1;
    }
    out.push('\'');
    assert(v@.subrange(0, v@.len() as int) =~= v@);
    string_of(&out)
}

/// Where the shortcut takes its icon from: the first icon of `target`.
pub fn icon_location(target: &str) -> (loc: String)
    ensures
        loc@ == target@ + ",0"@,
{
    concat(target, ",0")
}

/// The PowerShell script that puts a shortcut to `target` on the desktop.
pub open spec fn shortcut_script(
    target: Seq<char>,
    working_directory: Seq<char>,
    icon: Seq<char>,
) -> Seq<char> {
    "$desktop = [Environment]::GetFolderPath('Desktop'); $shortcutPath = Join-Path $desktop "@
        + ps_quoted(DESKTOP_SHORTCUT_NAME@)
        + "; $shell = New-Object -ComObject WScript.Shell; $shortcut = $shell.CreateShortcut($shortcutPath); $shortcut.TargetPath = "@
        + ps_quoted(target) + "; $shortcut.WorkingDirectory = "@ + ps_quoted(working_directory)
        + "; $shortcut.IconLocation = "@ + ps_quoted(icon) + "; $shortcut.Save();"@
}

/// The PowerShell script that puts a shortcut to `target` on the desktop,
/// starting in `working_directory` and showing the icon at `icon`.
pub fn desktop_shortcut_script(target: &str, working_directory: &str, icon: &str) -> (script:
    String)
    ensures
        script@ == shortcut_script(target@, working_directory@, icon@),
{
    let mut s = String::from_str(
        "$desktop = [Environment]::GetFolderPath('Desktop'); $shortcutPath = Join-Path $desktop ",
    );
    let name = powershell_quote(DESKTOP_SHORTCUT_NAME);
    s.append(name.as_str());
    s.append(
        "; $shell = New-Object -ComObject WScript.Shell; $shortcut = $shell.CreateShortcut($shortcutPath); $shortcut.TargetPath = ",
    );
    let t = powershell_quote(target);
    s.append(t.as_str());
    s.append("; $shortcut.WorkingDirectory = ");
    let w = powershell_quote(working_directory);
    s.append(w.as_str());
    s.append("; $shortcut.IconLocation = ");
    let i = powershell_quote(icon);
    s.append(i.as_str());
    s.append("; $shortcut.Save();");
    s
}

/// Two resolved paths name the same file: equal text, or, where the file
/// system ignores case, equal up to ASCII case.
pub fn paths_equal(left: &str, right: &str, ignore_ascii_case: bool) -> (b: bool)
    ensures
        ignore_ascii_case ==> b == (lower_seq(left@) == lower_seq(right@)),
        !ignore_ascii_case ==> b == (left@ == right@),
{
    let l = if ignore_ascii_case {
        lower_chars(left)
    } else {
        chars_of(left)
    };
    let r = if ignore_ascii_case {
        lower_chars(right)
    } else {
        chars_of(right)
    };
    if l.len() != r.len() {
        return false;
    }
    let mut i: usize = 0;
    while i < l.len()
        invariant
            l@.len() == r@.len(),
            ignore_ascii_case ==> l@ == lower_seq(left@) && r@ == lower_seq(right@),
            !ignore_ascii_case ==> l@ == left@ && r@ == right@,
            i <= l@.len(),
            forall|j: int| 0 <= j < i ==> l@[j] == r@[j],
        decreases l.len() - i,
    {
        if l[i] != r[i] {
            assert(l@[i as int] != r@[i as int]);
            return false;
        }
        i += 1;
    }
    assert(l@ =~= r@);
    true
}


/// The failure reported when the installed executable could not be replaced.
pub fn replace_failure_message(final_path: &str, last_error: &str) -> (m: String)
    ensures
        m@ == "Could not replace "@ + final_path@
            + ". Close any running Chosen Visualizer windows and retry. Last error: "@
            + last_error@,
{
    let mut m = concat("Could not replace ", final_path);
    m.append(". Close any running Chosen Visualizer windows and retry. Last error: ");
    m.append(last_error);
    m
}

/// How an install job ended.
pub enum InstallOutcome {
    /// The asset was installed at `path`; `open_error` tells why the new
    /// version could not be started, if it could not.
    Installed { path: String, open_error: Option<String> },
    /// The install failed with this message.
    Failed(String),
}

/// The state of the update window, which downloads and installs one asset.
pub struct UpdatingApp {
    pub download_url: String,
    pub asset_name: String,
    pub status: String,
    pub started: bool,
    pub failed: bool,
    pub awaiting_result: bool,
}

/// The status shown while an install job runs.
pub open spec fn downloading_status(asset_name: Seq<char>) -> Seq<char> {
    "Downloading "@ + asset_name + " and installing it as "@ + INSTALLED_EXE_NAME@ + "..."@
}

impl UpdatingApp {
    /// A window that has not started yet; `install_dir_label` names the
    /// folder the update goes to.
    pub fn new(
        download_url: String,
        release_url: String,
        asset_name: String,
        install_dir_label: &str,
    ) -> (app: Self)
        ensures
            app.download_url == download_url,
            app.asset_name == asset_name,
            app.status@ == "Preparing update install in "@ + install_dir_label@ + "..."@,
            !app.started,
            !app.failed,
            !app.awaiting_result,
    {
        let mut status = concat("Preparing update install in ", install_dir_label);
        status.append("...");
        UpdatingApp {
            download_url,
            asset_name,
            status,
            started: false,
            failed: false,
            awaiting_result: false,
        }
    }

    /// Starts the install job unless it has started or there is nothing to
    /// download; says whether the job is to be run now.
    pub fn start(&mut self) -> (launch: bool)
        ensures
            launch == (!old(self).started && trim_seq(old(self).download_url@).len() > 0),
            launch ==> {
                &&& final(self).started
                &&& !final(self).failed
                &&& final(self).awaiting_result
                &&& final(self).status@ == downloading_status(old(self).asset_name@)
                &&& final(self).download_url == old(self).download_url
                &&& final(self).asset_name == old(self).asset_name
            },
            !launch ==> *final(self) == *old(self),
    {
        if self.started {
            return false;
        }
        let trimmed = trim(self.download_url.as_str());
        if trimmed.as_str().unicode_len() == 0 {
            return false;
        }
        self.started = true;
        self.failed = false;
        let mut status = concat("Downloading ", self.asset_name.as_str());
        status.append(" and installing it as ");
        status.append(INSTALLED_EXE_NAME);
        status.append("...");
        self.status = status;
        self.awaiting_result = true;
        true
    }

    /// Clears the started and failed marks and starts again.
    pub fn retry(&mut self) -> (launch: bool)
        ensures
            launch == (trim_seq(old(self).download_url@).len() > 0),
            launch ==> {
                &&& final(self).started
                &&& !final(self).failed
                &&& final(self).awaiting_result
                &&& final(self).status@ == downloading_status(old(self).asset_name@)
                &&& final(self).download_url == old(self).download_url
                &&& final(self).asset_name == old(self).asset_name
            },
            !launch ==> *final(self) == (UpdatingApp { started: false, failed: false, ..*old(self) }),
    {
        self.started = false;
        self.failed = false;
        self.start()
    }

    /// Records how the install job ended; says whether the window is to close.
    pub fn record_outcome(&mut self, outcome: InstallOutcome) -> (close: bool)
        ensures
            !final(self).awaiting_result,
            final(self).started == old(self).started,
            final(self).download_url == old(self).download_url,
            final(self).asset_name == old(self).asset_name,
            match outcome {
                InstallOutcome::Installed { path, open_error: None } => {
                    &&& close
                    &&& final(self).failed == old(self).failed
                    &&& final(self).status@ == "Installed "@ + path@ + " and opened the new version."@
                },
                InstallOutcome::Installed { path, open_error: Some(e) } => {
                    &&& !close
                    &&& final(self).failed
                    &&& final(self).status@ == "Installed "@ + path@ + ", but could not open it: "@ + e@
                },
                InstallOutcome::Failed(e) => {
                    &&& !close
                    &&& final(self).failed
                    &&& final(self).status@ == e@
                },
            },
    {
        self.awaiting_result = false;
        match outcome {
            InstallOutcome::Installed { path, open_error: None } => {
                let mut status = concat("Installed ", path.as_str());
                status.append(" and opened the new version.");
                self.status = status;
                true
            },
            InstallOutcome::Installed { path, open_error: Some(e) } => {
                self.failed = true;
                let mut status = concat("Installed ", path.as_str());
                status.append(", but could not open it: ");
                status.append(e.as_str());
                self.status = status;
                false
            },
            InstallOutcome::Failed(e) => {
                self.failed = true;
                self.status = e;
                false
            },
        }
    }
}

} // verus!
