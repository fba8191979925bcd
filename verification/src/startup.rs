//! Startup diagnostics: the single-instance lock outcome, the macOS
//! permission report, and the texts and links shown about it.

use vstd::prelude::*;
use crate::model::{
    body_start, body_start_of, file_name, lemma_last_sep_end_bounds, lemma_parent_end_shrinks, last_sep_end_of,
    name_end, parent_end, trim_end_of,
};
use crate::text::{joined_lines, texts, join_lines, law_line_in_joined, line_offset};

verus! {

/// General privacy page of System Settings.
pub const SETTINGS_PRIVACY_GENERAL_URL: &'static str = "x-apple.systempreferences:com.apple.preference.security";
/// Accessibility page of System Settings.
pub const SETTINGS_ACCESSIBILITY_URL: &'static str = "x-apple.systempreferences:com.apple.preference.security?Privacy_Accessibility";
/// Input Monitoring page of System Settings.
pub const SETTINGS_INPUT_MONITORING_URL: &'static str = "x-apple.systempreferences:com.apple.preference.security?Privacy_ListenEvent";
/// Microphone page of System Settings.
pub const SETTINGS_MICROPHONE_URL: &'static str = "x-apple.systempreferences:com.apple.preference.security?Privacy_Microphone";

/// A macOS permission the app still lacks.
#[derive(Debug, Clone, Copy, PartialEq, Eq, Structural)]
pub enum PermissionIssue {
    Accessibility,
    InputMonitoring,
    Microphone,
}

/// The paths permission checks apply to.
#[derive(Debug, Clone, PartialEq, Eq)]
pub struct LaunchContext {
    pub current_executable_path: String,
    pub current_app_bundle_path: Option<String>,
    pub expected_login_app_path: Option<String>,
}

/// Adds the component read so far, unless it is empty or ".".
pub open spec fn keep_part(parts: Seq<Seq<char>>, cur: Seq<char>) -> Seq<Seq<char>> {
    if cur.len() == 0 || cur == seq!['.'] {
        parts
    } else {
        parts.push(cur)
    }
}

/// Reads `s` left to right, splitting at '/': the components completed so
/// far, and the one being read.
pub open spec fn scan_parts(s: Seq<char>) -> (Seq<Seq<char>>, Seq<char>)
    decreases s.len(),
{
    if s.len() == 0 {
        (seq![], seq![])
    } else {
        let prev = scan_parts(s.drop_last());
        if s.last() == '/' {
            (keep_part(prev.0, prev.1), seq![])
        } else {
            (prev.0, prev.1.push(s.last()))
        }
    }
}

/// The components of a path body: its '/'-separated parts, without empty
/// parts (repeated or trailing separators) and "." parts.
pub open spec fn body_parts(s: Seq<char>) -> Seq<Seq<char>> {
    keep_part(scan_parts(s).0, scan_parts(s).1)
}

/// The components `std::path::Path::components` yields for a path, each as
/// its text: the root "/" or a leading "." first, then the body's parts.
pub open spec fn path_components(p: Seq<char>) -> Seq<Seq<char>> {
    if body_start(p) == 1 {
        seq![p.take(1)] + body_parts(p.skip(1))
    } else {
        body_parts(p)
    }
}

/// Whether two paths are equal as `Path`s: component by component.
pub open spec fn same_path_spec(a: Seq<char>, b: Seq<char>) -> bool {
    path_components(a) == path_components(b)
}

/// Reading one more character of `s` in `scan_parts`.
proof fn lemma_scan_step(s: Seq<char>, k: int)
    requires
        0 <= k < s.len(),
    ensures
        scan_parts(s.take(k + 1)) == (if s[k] == '/' {
            (keep_part(scan_parts(s.take(k)).0, scan_parts(s.take(k)).1), Seq::<char>::empty())
        } else {
            (scan_parts(s.take(k)).0, scan_parts(s.take(k)).1.push(s[k]))
        }),
{
    assert(s.take(k + 1).drop_last() =~= s.take(k));
    assert(s.take(k + 1).last() == s[k]);
}

/// The components of `p[from..]` as a path body.
fn body_parts_of(p: &str, from: usize) -> (parts: Vec<String>)
    requires
        from <= p@.len(),
    ensures
        texts(parts@) == body_parts(p@.skip(from as int)),
{
    let n = p.unicode_len();
    let ghost s = p@.skip(from as int);
    let mut parts: Vec<String> = Vec::new();
    let mut start = from;
    let mut i = from;
    while i < n
        invariant
            n == p@.len(),
            from <= start <= i <= n,
            s == p@.skip(from as int),
            scan_parts(s.take(i - from)) == (texts(parts@), p@.subrange(start as int, i as int)),
        decreases n - i,
    {
        let ghost prev = scan_parts(s.take(i - from));
        let ghost old_texts = texts(parts@);
        let ghost cur_v = p@.subrange(start as int, i as int);
        proof {
            lemma_scan_step(s, i - from);
            assert(s[i - from] == p@[i as int]);
            assert(prev.0 == old_texts && prev.1 == cur_v);
        }
        if p.get_char(i) == '/' {
            let cur = p.substring_char(start, i);
            let keep = !(i == start || (i - start == 1 && p.get_char(start) == '.'));
            proof {
                if i - start == 1 && p@[start as int] == '.' {
                    assert(cur@ =~= seq!['.']);
                }
                if i - start == 1 && p@[start as int] != '.' {
                    assert(cur@[0] != '.');
                }
                assert(keep == !(cur_v.len() == 0 || cur_v == seq!['.']));
            }
            if keep {
                parts.push(String::from_str(cur));
                assert(texts(parts@) =~= old_texts.push(cur_v));
            } else {
                assert(texts(parts@) == old_texts);
            }
            assert(texts(parts@) == keep_part(old_texts, cur_v));
            start = i + 1;
            assert(p@.subrange(start as int, i + 1) =~= Seq::<char>::empty());
            assert(scan_parts(s.take(i - from + 1)) == (texts(parts@), p@.subrange(start as int, i + 1)));
        } else {
            assert(p@.subrange(start as int, i + 1) =~= cur_v.push(p@[i as int]));
            assert(scan_parts(s.take(i - from + 1)) == (texts(parts@), p@.subrange(start as int, i + 1)));
        }
        i = i + 1;
    }
    assert(s.take(n - from) =~= s);
    let cur = p.substring_char(start, n);
    if n - start == 1 && p.get_char(start) == '.' {
        assert(cur@ =~= seq!['.']);
    }
    if n - start == 1 && p.get_char(start) != '.' {
        assert(cur@[0] != '.');
    }
    if !(n == start || (n - start == 1 && p.get_char(start) == '.')) {
        let ghost old_parts = parts@;
        parts.push(String::from_str(cur));
        assert(texts(parts@) =~= texts(old_parts).push(cur@));
    }
    parts
}

/// The components of a path, each as its text.
pub fn path_components_of(p: &str) -> (parts: Vec<String>)
    ensures
        texts(parts@) == path_components(p@),
{
    let bs = body_start_of(p);
    if bs == 1 {
        let mut parts: Vec<String> = Vec::new();
        let root = p.substring_char(0, 1);
        assert(root@ =~= p@.take(1));
        parts.push(String::from_str(root));
        let mut rest = body_parts_of(p, 1);
        let ghost first = parts@;
        let ghost tail = rest@;
        parts.append(&mut rest);
        assert(texts(parts@) =~= texts(first) + texts(tail));
        assert(texts(first) =~= seq![p@.take(1)]);
        parts
    } else {
        assert(p@.skip(0) =~= p@);
        body_parts_of(p, 0)
    }
}

/// Compares two paths as `Path`s do: component by component, so repeated
/// and trailing separators and "." components make no difference.
pub fn same_path(a: &str, b: &str) -> (r: bool)
    ensures
        r == same_path_spec(a@, b@),
{
    let pa = path_components_of(a);
    let pb = path_components_of(b);
    if pa.len() != pb.len() {
        assert(texts(pa@).len() != texts(pb@).len());
        return false;
    }
    let mut i: usize = 0;
    while i < pa.len()
        invariant
            pa.len() == pb.len(),
            texts(pa@) == path_components(a@),
            texts(pb@) == path_components(b@),
            i <= pa.len(),
            forall|j: int| 0 <= j < i ==> texts(pa@)[j] == texts(pb@)[j],
        decreases pa.len() - i,
    {
        if !same_text(pa[i].as_str(), pb[i].as_str()) {
            assert(texts(pa@)[i as int] != texts(pb@)[i as int]);
            return false;
        }
        i = i + 1;
    }
    assert(texts(pa@) =~= texts(pb@));
    true
}

/// Whether the running app is the installed login app, when one is expected;
/// the two paths are compared as `Path`s.
pub open spec fn login_match(ctx: LaunchContext) -> Option<bool> {
    match ctx.expected_login_app_path {
        Some(e) => Some(ctx.current_app_bundle_path matches Some(c) && same_path_spec(c@, e@)),
        None => None,
    }
}

/// The path macOS attributes permissions to: the app bundle if there is one.
pub open spec fn permission_target(ctx: LaunchContext) -> Seq<char> {
    match ctx.current_app_bundle_path {
        Some(b) => b@,
        None => ctx.current_executable_path@,
    }
}

impl LaunchContext {
    /// Returns the path macOS permission checks apply to for this process.
    pub fn permission_target_path(&self) -> (p: &str)
        ensures
            p@ == permission_target(*self),
    {
        match &self.current_app_bundle_path {
            Some(b) => b.as_str(),
            None => self.current_executable_path.as_str(),
        }
    }

    /// Returns whether the current runtime matches the expected login app.
    pub fn login_target_matches_current_runtime(&self) -> (r: Option<bool>)
        ensures
            r == login_match(*self),
    {
        match &self.expected_login_app_path {
            Some(expected) => match &self.current_app_bundle_path {
                Some(current) => Some(same_path(current.as_str(), expected.as_str())),
                None => Some(false),
            },
            None => None,
        }
    }
}

/// The current permission state of the running app.
#[derive(Debug, Clone, PartialEq, Eq)]
pub struct PermissionReport {
    pub launch_context: LaunchContext,
    pub accessibility_granted: bool,
    pub input_monitoring_granted: bool,
    pub microphone_granted: bool,
    pub issues: Vec<PermissionIssue>,
}

/// Whether a report still needs the user: a missing permission, or a
/// runtime that is not the installed login app.
pub open spec fn report_needs_attention(r: PermissionReport) -> bool {
    r.issues@.len() != 0 || login_match(r.launch_context) == Some(false)
}

impl PermissionReport {
    /// Returns true when the report still needs user attention.
    pub fn needs_attention(&self) -> (r: bool)
        ensures
            r == report_needs_attention(*self),
    {
        self.issues.len() != 0 || match self.launch_context.login_target_matches_current_runtime() {
            Some(m) => !m,
            None => false,
        }
    }
}

/// The button chosen in a permission dialog.
#[derive(Debug, Clone, Copy, PartialEq, Eq, Structural)]
pub enum DialogAction {
    OpenSettings,
    Later,
}

/// AVFoundation's microphone authorization status.
#[derive(Debug, Clone, Copy, PartialEq, Eq, Structural)]
pub enum MicrophoneAuthorizationStatus {
    NotDetermined,
    Restricted,
    Denied,
    Authorized,
    Unknown(isize),
}

/// The status a raw AVFoundation code stands for.
pub open spec fn microphone_status(raw: isize) -> MicrophoneAuthorizationStatus {
    if raw == 0 {
        MicrophoneAuthorizationStatus::NotDetermined
    } else if raw == 1 {
        MicrophoneAuthorizationStatus::Restricted
    } else if raw == 2 {
        MicrophoneAuthorizationStatus::Denied
    } else if raw == 3 {
        MicrophoneAuthorizationStatus::Authorized
    } else {
        MicrophoneAuthorizationStatus::Unknown(raw)
    }
}

impl MicrophoneAuthorizationStatus {
    /// Converts the AVFoundation raw status code to a typed status.
    pub fn from_raw(raw: isize) -> (s: Self)
        ensures
            s == microphone_status(raw),
    {
        match raw {
            0 => MicrophoneAuthorizationStatus::NotDetermined,
            1 => MicrophoneAuthorizationStatus::Restricted,
            2 => MicrophoneAuthorizationStatus::Denied,
            3 => MicrophoneAuthorizationStatus::Authorized,
            other => MicrophoneAuthorizationStatus::Unknown(other),
        }
    }
}

/// The missing permissions, in the order they are listed to the user.
pub open spec fn issues_from_grants(accessibility: bool, input_monitoring: bool, microphone: bool) -> Seq<PermissionIssue> {
    (if accessibility { seq![] } else { seq![PermissionIssue::Accessibility] })
    + (if input_monitoring { seq![] } else { seq![PermissionIssue::InputMonitoring] })
    + (if microphone { seq![] } else { seq![PermissionIssue::Microphone] })
}

/// Maps raw permission booleans to the user-facing missing-permission list.
pub fn permission_issues_from_grants(
    accessibility_granted: bool,
    input_monitoring_granted: bool,
    microphone_granted: bool,
) -> (issues: Vec<PermissionIssue>)
    ensures
        issues@ == issues_from_grants(accessibility_granted, input_monitoring_granted, microphone_granted),
{
    let mut issues = Vec::new();
    if !accessibility_granted {
        issues.push(PermissionIssue::Accessibility);
    }
    if !input_monitoring_granted {
        issues.push(PermissionIssue::InputMonitoring);
    }
    if !microphone_granted {
        issues.push(PermissionIssue::Microphone);
    }
    assert(issues@ =~= issues_from_grants(accessibility_granted, input_monitoring_granted, microphone_granted));
    issues
}

/// What the permission probes of the running app returned.
#[derive(Debug, Clone, Copy, PartialEq, Eq, Structural)]
pub struct PermissionProbes {
    /// The process is trusted for Accessibility.
    pub accessibility: bool,
    /// The process may post synthetic input events.
    pub post_event: bool,
    /// The process may listen to global keyboard events.
    pub input_monitoring: bool,
    /// The microphone authorization state.
    pub microphone: MicrophoneAuthorizationStatus,
}

/// Whether pasting works: it needs both Accessibility and synthetic events.
pub open spec fn paste_granted(p: PermissionProbes) -> bool {
    p.accessibility && p.post_event
}

/// Whether recording works: only an authorized microphone counts.
pub open spec fn microphone_granted(p: PermissionProbes) -> bool {
    p.microphone == MicrophoneAuthorizationStatus::Authorized
}

/// Collects all missing or incomplete permissions the app needs from what
/// the probes returned.
pub fn collect_permission_issues(probes: PermissionProbes) -> (issues: Vec<PermissionIssue>)
    ensures
        issues@ == issues_from_grants(paste_granted(probes), probes.input_monitoring, microphone_granted(probes)),
{
    let microphone = match probes.microphone {
        MicrophoneAuthorizationStatus::Authorized => true,
        _ => false,
    };
    permission_issues_from_grants(probes.accessibility && probes.post_event, probes.input_monitoring, microphone)
}

/// The permission state of the running app at `launch_context`, from what
/// the probes returned.
pub fn current_permission_report(launch_context: LaunchContext, probes: PermissionProbes) -> (r: PermissionReport)
    ensures
        r.launch_context == launch_context,
        r.accessibility_granted == paste_granted(probes),
        r.input_monitoring_granted == probes.input_monitoring,
        r.microphone_granted == microphone_granted(probes),
        r.issues@ == issues_from_grants(paste_granted(probes), probes.input_monitoring, microphone_granted(probes)),
{
    let issues = collect_permission_issues(probes);
    let microphone_granted = match probes.microphone {
        MicrophoneAuthorizationStatus::Authorized => true,
        _ => false,
    };
    PermissionReport {
        launch_context,
        accessibility_granted: probes.accessibility && probes.post_event,
        input_monitoring_granted: probes.input_monitoring,
        microphone_granted,
        issues,
    }
}

/// Which native permission prompts to raise at startup.
#[derive(Debug, Clone, Copy, PartialEq, Eq, Structural)]
pub struct PromptPlan {
    pub accessibility: bool,
    pub input_monitoring: bool,
    pub post_event: bool,
    pub microphone: bool,
}

/// Asks for every permission that is missing and has a native prompt; the
/// microphone prompt only exists while the user has not yet decided.
pub fn prompts_needed(probes: PermissionProbes) -> (plan: PromptPlan)
    ensures
        plan.accessibility == !probes.accessibility,
        plan.input_monitoring == !probes.input_monitoring,
        plan.post_event == !probes.post_event,
        plan.microphone == (probes.microphone == MicrophoneAuthorizationStatus::NotDetermined),
{
    PromptPlan {
        accessibility: !probes.accessibility,
        input_monitoring: !probes.input_monitoring,
        post_event: !probes.post_event,
        microphone: match probes.microphone {
            MicrophoneAuthorizationStatus::NotDetermined => true,
            _ => false,
        },
    }
}

/// The System Settings page for a set of missing permissions: the specific
/// page for a single one, the general privacy page otherwise.
pub open spec fn settings_url(issues: Seq<PermissionIssue>) -> Seq<char> {
    if issues.len() == 1 && issues[0] == PermissionIssue::Accessibility {
        "x-apple.systempreferences:com.apple.preference.security?Privacy_Accessibility"@
    } else if issues.len() == 1 && issues[0] == PermissionIssue::InputMonitoring {
        "x-apple.systempreferences:com.apple.preference.security?Privacy_ListenEvent"@
    } else if issues.len() == 1 && issues[0] == PermissionIssue::Microphone {
        "x-apple.systempreferences:com.apple.preference.security?Privacy_Microphone"@
    } else {
        "x-apple.systempreferences:com.apple.preference.security"@
    }
}

/// Chooses the best System Settings deep link for the current issue set.
pub fn settings_url_for_issues(issues: &[PermissionIssue]) -> (url: &'static str)
    ensures
        url@ == settings_url(issues@),
{
    if issues.len() == 1 {
        match issues[0] {
            PermissionIssue::Accessibility => SETTINGS_ACCESSIBILITY_URL,
            PermissionIssue::InputMonitoring => SETTINGS_INPUT_MONITORING_URL,
            PermissionIssue::Microphone => SETTINGS_MICROPHONE_URL,
        }
    } else {
        SETTINGS_PRIVACY_GENERAL_URL
    }
}

/// The word shown for a permission state.
pub open spec fn status_label(granted: bool) -> Seq<char> {
    if granted { "Granted"@ } else { "Missing"@ }
}

/// Formats a boolean permission state for status-dialog display.
pub fn permission_status_label(granted: bool) -> (s: &'static str)
    ensures
        s@ == status_label(granted),
{
    if granted { "Granted" } else { "Missing" }
}

/// The line explaining why a permission is needed.
pub open spec fn issue_line(issue: PermissionIssue) -> Seq<char> {
    match issue {
        PermissionIssue::Accessibility => "- Accessibility: needed to paste transcript text into the focused app."@,
        PermissionIssue::InputMonitoring => "- Input Monitoring: needed to detect the global hotkey while running in the background."@,
        PermissionIssue::Microphone => "- Microphone: needed to capture voice input."@,
    }
}

/// The sentence shown when the runtime is not the installed login app.
pub open spec fn mismatch_line() -> Seq<char> {
    "The current runtime does not match the installed login app. Permissions granted to one path will not apply to the other."@
}

/// The lines naming the permission target and the expected login app.
pub open spec fn target_lines(ctx: LaunchContext) -> Seq<Seq<char>> {
    let target = seq!["Permission target: "@ + permission_target(ctx)];
    match ctx.expected_login_app_path {
        Some(e) => {
            let with_expected = target.push("Expected login app: "@ + e@);
            if login_match(ctx) == Some(false) {
                with_expected.push(mismatch_line())
            } else {
                with_expected
            }
        },
        None => target,
    }
}

/// The lines of the startup permission dialog.
pub open spec fn permission_dialog_lines(issues: Seq<PermissionIssue>, ctx: LaunchContext) -> Seq<Seq<char>> {
    seq!["WhisperInput started without all required permissions."@, ""@]
    + target_lines(ctx)
    + seq![""@]
    + issues.map_values(|i: PermissionIssue| issue_line(i))
    + seq![
        ""@,
        "WhisperInput already asked macOS for any permission that supports a direct prompt."@,
        "Open System Settings now for anything that still needs manual approval. After changing permissions, quit and reopen WhisperInput if a feature stays unavailable."@,
    ]
}

/// The lines of the on-demand permission status dialog.
pub open spec fn permission_status_lines(r: PermissionReport) -> Seq<Seq<char>> {
    seq!["WhisperInput permission status for this running app."@, ""@]
    + target_lines(r.launch_context)
    + seq![
        ""@,
        "- Input Monitoring / Hotkey: "@ + status_label(r.input_monitoring_granted),
        "- Accessibility / Paste: "@ + status_label(r.accessibility_granted),
        "- Microphone / Recording: "@ + status_label(r.microphone_granted),
        ""@,
    ]
    + if r.issues@.len() == 0 {
        seq!["All required permissions are currently granted."@]
    } else {
        seq![
            "Missing permissions can prevent the global hotkey, recording, or auto-paste from working."@,
            "Use Open Settings to grant access for the permission target shown above, then restart WhisperInput if a feature still does not respond."@,
        ]
    }
}

fn line(s: &str) -> (l: String)
    ensures
        l@ == s@,
{
    String::from_str(s)
}

fn prefixed(prefix: &str, rest: &str) -> (l: String)
    ensures
        l@ == prefix@ + rest@,
{
    let mut l = String::from_str(prefix);
    l.append(rest);
    l
}

/// Appends one line.
fn push_line(lines: &mut Vec<String>, l: String)
    ensures
        texts(final(lines)@) == texts(old(lines)@).push(l@),
{
    lines.push(l);
    assert(texts(lines@) =~= texts(old(lines)@).push(l@));
}

/// Appends the target lines of a launch context.
fn push_target_lines(lines: &mut Vec<String>, ctx: &LaunchContext)
    ensures
        texts(final(lines)@) == texts(old(lines)@) + target_lines(*ctx),
{
    let ghost start = texts(lines@);
    push_line(lines, prefixed("Permission target: ", ctx.permission_target_path()));
    if let Some(expected) = &ctx.expected_login_app_path {
        push_line(lines, prefixed("Expected login app: ", expected.as_str()));
        if let Some(false) = ctx.login_target_matches_current_runtime() {
            push_line(lines, line(
                "The current runtime does not match the installed login app. Permissions granted to one path will not apply to the other.",
            ));
        }
    }
    assert(texts(lines@) =~= start + target_lines(*ctx));
}

/// Builds the user-facing permission summary shown at startup.
pub fn build_permission_dialog_message(issues: &[PermissionIssue], launch_context: &LaunchContext) -> (m: String)
    ensures
        m@ == joined_lines(permission_dialog_lines(issues@, *launch_context)),
{
    let mut lines: Vec<String> = Vec::new();
    push_line(&mut lines, line("WhisperInput started without all required permissions."));
    push_line(&mut lines, line(""));
    push_target_lines(&mut lines, launch_context);
    push_line(&mut lines, line(""));
    let ghost before = texts(lines@);
    let mut i: usize = 0;
    while i < issues.len()
        invariant
            i <= issues@.len(),
            texts(lines@) == before + issues@.take(i as int).map_values(|x: PermissionIssue| issue_line(x)),
        decreases issues@.len() - i,
    {
        let text = match issues[i] {
            PermissionIssue::Accessibility => "- Accessibility: needed to paste transcript text into the focused app.",
            PermissionIssue::InputMonitoring => "- Input Monitoring: needed to detect the global hotkey while running in the background.",
            PermissionIssue::Microphone => "- Microphone: needed to capture voice input.",
        };
        push_line(&mut lines, line(text));
        assert(issues@.take(i + 1) =~= issues@.take(i as int).push(issues@[i as int]));
        assert(texts(lines@) =~= before + issues@.take(i + 1).map_values(|x: PermissionIssue| issue_line(x)));
        i = i + 1;
    }
    assert(issues@.take(issues@.len() as int) =~= issues@);
    push_line(&mut lines, line(""));
    push_line(&mut lines, line("WhisperInput already asked macOS for any permission that supports a direct prompt."));
    push_line(&mut lines, line(
        "Open System Settings now for anything that still needs manual approval. After changing permissions, quit and reopen WhisperInput if a feature stays unavailable.",
    ));
    assert(texts(lines@) =~= permission_dialog_lines(issues@, *launch_context));
    join_lines(&lines)
}

/// Builds the user-facing permission status summary used by tray diagnostics.
pub fn build_permission_status_dialog_message(report: &PermissionReport) -> (m: String)
    ensures
        m@ == joined_lines(permission_status_lines(*report)),
{
    let mut lines: Vec<String> = Vec::new();
    push_line(&mut lines, line("WhisperInput permission status for this running app."));
    push_line(&mut lines, line(""));
    push_target_lines(&mut lines, &report.launch_context);
    push_line(&mut lines, line(""));
    push_line(&mut lines, prefixed(
        "- Input Monitoring / Hotkey: ",
        permission_status_label(report.input_monitoring_granted),
    ));
    push_line(&mut lines, prefixed("- Accessibility / Paste: ", permission_status_label(report.accessibility_granted)));
    push_line(&mut lines, prefixed("- Microphone / Recording: ", permission_status_label(report.microphone_granted)));
    push_line(&mut lines, line(""));
    if report.issues.len() == 0 {
        push_line(&mut lines, line("All required permissions are currently granted."));
    } else {
        push_line(&mut lines, line(
            "Missing permissions can prevent the global hotkey, recording, or auto-paste from working.",
        ));
        push_line(&mut lines, line(
            "Use Open Settings to grant access for the permission target shown above, then restart WhisperInput if a feature still does not respond.",
        ));
    }
    assert(texts(lines@) =~= permission_status_lines(*report));
    join_lines(&lines)
}

/// Whether the on-demand diagnostics open System Settings: only when the
/// user asked for it and something still needs attention.
pub fn open_settings_after_diagnostics(action: DialogAction, report: &PermissionReport) -> (r: bool)
    ensures
        r == (action == DialogAction::OpenSettings && report_needs_attention(*report)),
{
    match action {
        DialogAction::OpenSettings => report.needs_attention(),
        DialogAction::Later => false,
    }
}

/// Character-wise equality of two texts.
pub fn same_text(a: &str, b: &str) -> (r: bool)
    ensures
        r == (a@ == b@),
{
    let n = a.unicode_len();
    if n != b.unicode_len() {
        return false;
    }
    let mut i: usize = 0;
    while i < n
        invariant
            n == a@.len(),
            n == b@.len(),
            i <= n,
            a@.take(i as int) == b@.take(i as int),
        decreases n - i,
    {
        if a.get_char(i) != b.get_char(i) {
            assert(a@[i as int] != b@[i as int]);
            return false;
        }
        assert(a@.take(i + 1) =~= a@.take(i as int).push(a@[i as int]));
        assert(b@.take(i + 1) =~= b@.take(i as int).push(b@[i as int]));
        i = i + 1;
    }
    assert(a@ =~= a@.take(n as int));
    assert(b@ =~= b@.take(n as int));
    true
}

/// The action of a permission dialog from how it ended: a completed dialog
/// whose (trimmed) output is "Open Settings" opens System Settings.
pub fn dialog_action_from_output(completed: bool, button: &str) -> (a: DialogAction)
    ensures
        a == (if completed && button@ == "Open Settings"@ {
            DialogAction::OpenSettings
        } else {
            DialogAction::Later
        }),
{
    if completed && same_text(button, "Open Settings") {
        DialogAction::OpenSettings
    } else {
        DialogAction::Later
    }
}

/// Why the single-instance lock could not be taken.
#[derive(Debug, Clone, Copy, PartialEq, Eq, Structural)]
pub enum LockError {
    /// The lock call failed for a reason other than a held lock.
    LockFailed,
}

/// The message shown when the single-instance lock cannot be taken.
pub open spec fn lock_error_message(e: LockError) -> Seq<char> {
    match e {
        LockError::LockFailed => "failed to acquire single-instance lock"@,
    }
}

impl LockError {
    /// Returns the user-facing message of the error.
    pub fn message(&self) -> (m: &'static str)
        ensures
            m@ == lock_error_message(*self),
    {
        match self {
            LockError::LockFailed => "failed to acquire single-instance lock",
        }
    }
}

/// Interprets a `flock` result: 0 means the lock is ours, a would-block
/// failure means another instance holds it, any other failure is an error.
pub fn try_lock_file_result(result: i32, would_block: bool) -> (r: Result<bool, LockError>)
    ensures
        result == 0 ==> r == Ok::<bool, LockError>(true),
        result != 0 && would_block ==> r == Ok::<bool, LockError>(false),
        result != 0 && !would_block ==> r == Err::<bool, LockError>(LockError::LockFailed),
{
    if result == 0 {
        return Ok(true);
    }
    if would_block {
        return Ok(false);
    }
    Err(LockError::LockFailed)
}

/// Whether a path component names an app bundle: "<name>.app" with a
/// non-empty name.
pub open spec fn is_bundle_name(name: Seq<char>) -> bool {
    name.len() > 4 && name.skip(name.len() - 4) == ".app"@
}

/// Whether a path's file name, as `Path::file_name` reads it, has the
/// extension "app".
pub open spec fn names_bundle(a: Seq<char>) -> bool {
    file_name(a) matches Some(n) && is_bundle_name(n)
}

/// Walks the ancestors of `p` as `Path::ancestors` yields them, starting at
/// the ancestor `p[..end]` and going to each one's `Path::parent`, and gives
/// the length of the first whose file name has the extension "app".
pub open spec fn bundle_search(p: Seq<char>, end: int) -> Option<int>
    decreases end,
{
    if end < 0 || end > p.len() {
        None
    } else if names_bundle(p.take(end)) {
        Some(end)
    } else if name_end(p.take(end)) <= body_start(p.take(end)) {
        None
    } else {
        proof {
            lemma_parent_end_shrinks(p.take(end));
        }
        bundle_search(p, parent_end(p.take(end)))
    }
}

/// Extracts the enclosing `.app` bundle path from an executable path: the
/// first of its ancestors (the path itself, then each parent) whose
/// extension is "app", with its text as the ancestor has it.
pub fn app_bundle_path_for_executable(executable_path: &str) -> (r: Option<String>)
    ensures
        match bundle_search(executable_path@, executable_path@.len() as int) {
            Some(k) => r matches Some(b) && b@ == executable_path@.take(k),
            None => r is None,
        },
{
    let n = executable_path.unicode_len();
    let mut end = n;
    loop
        invariant
            end <= n,
            n == executable_path@.len(),
            bundle_search(executable_path@, end as int) == bundle_search(executable_path@, n as int),
        decreases end,
    {
        let a = executable_path.substring_char(0, end);
        assert(a@ =~= executable_path@.take(end as int));
        let len = a.unicode_len();
        let bs = body_start_of(a);
        let e = trim_end_of(a, len);
        if e <= bs {
            return None;
        }
        let cs = last_sep_end_of(a, bs, e);
        proof {
            lemma_last_sep_end_bounds(a@, bs as int, e as int);
        }
        let is_app = e - cs > 4 && a.get_char(e - 4) == '.' && a.get_char(e - 3) == 'a' && a.get_char(e - 2)
            == 'p' && a.get_char(e - 1) == 'p';
        proof {
            reveal_strlit(".app");
            reveal_strlit("..");
            let name = a@.subrange(cs as int, e as int);
            if name.len() > 4 {
                assert(name.skip(name.len() - 4) =~= seq![a@[e - 4], a@[e - 3], a@[e - 2], a@[e - 1]]);
            }
            assert(".app"@ =~= seq!['.', 'a', 'p', 'p']);
            assert(".."@ =~= seq!['.', '.']);
            assert(names_bundle(a@) == is_app);
        }
        if is_app {
            return Some(String::from_str(a));
        }
        proof {
            lemma_parent_end_shrinks(a@);
        }
        let pe = if cs > bs { cs - 1 } else { bs };
        end = trim_end_of(a, pe);
    }
}

/// Whether a line is non-empty and begins with `c`.
pub open spec fn opens_with(l: Seq<char>, c: char) -> bool {
    l.len() > 0 && l[0] == c
}

/// Reveals the first characters of the fixed dialog lines.
proof fn lemma_fixed_line_openings()
    ensures
        opens_with("Permission target: "@, 'P'),
        opens_with("Expected login app: "@, 'E'),
        opens_with(mismatch_line(), 'T'),
        opens_with("WhisperInput started without all required permissions."@, 'W'),
        opens_with("WhisperInput permission status for this running app."@, 'W'),
        opens_with("WhisperInput already asked macOS for any permission that supports a direct prompt."@, 'W'),
        opens_with("Open System Settings now for anything that still needs manual approval. After changing permissions, quit and reopen WhisperInput if a feature stays unavailable."@, 'O'),
        opens_with("- Input Monitoring / Hotkey: "@, '-'),
        opens_with("- Accessibility / Paste: "@, '-'),
        opens_with("- Microphone / Recording: "@, '-'),
        opens_with("All required permissions are currently granted."@, 'A'),
        opens_with("Missing permissions can prevent the global hotkey, recording, or auto-paste from working."@, 'M'),
        opens_with("Use Open Settings to grant access for the permission target shown above, then restart WhisperInput if a feature still does not respond."@, 'U'),
        ""@.len() == 0,
        forall|i: PermissionIssue| #[trigger] opens_with(issue_line(i), '-'),
{
    reveal_strlit("Permission target: ");
    reveal_strlit("Expected login app: ");
    reveal_strlit("The current runtime does not match the installed login app. Permissions granted to one path will not apply to the other.");
    reveal_strlit("WhisperInput started without all required permissions.");
    reveal_strlit("WhisperInput permission status for this running app.");
    reveal_strlit("WhisperInput already asked macOS for any permission that supports a direct prompt.");
    reveal_strlit("Open System Settings now for anything that still needs manual approval. After changing permissions, quit and reopen WhisperInput if a feature stays unavailable.");
    reveal_strlit("- Input Monitoring / Hotkey: ");
    reveal_strlit("- Accessibility / Paste: ");
    reveal_strlit("- Microphone / Recording: ");
    reveal_strlit("All required permissions are currently granted.");
    reveal_strlit("Missing permissions can prevent the global hotkey, recording, or auto-paste from working.");
    reveal_strlit("Use Open Settings to grant access for the permission target shown above, then restart WhisperInput if a feature still does not respond.");
    reveal_strlit("");
    reveal_strlit("- Accessibility: needed to paste transcript text into the focused app.");
    reveal_strlit("- Input Monitoring: needed to detect the global hotkey while running in the background.");
    reveal_strlit("- Microphone: needed to capture voice input.");
}

/// A prefixed line opens like its prefix.
proof fn lemma_prefixed_opening(prefix: Seq<char>, rest: Seq<char>, c: char)
    requires
        opens_with(prefix, c),
    ensures
        opens_with(prefix + rest, c),
{
}

/// The path lines of a dialog: the permission target, then the expected
/// login app when there is one, then the mismatch sentence exactly when the
/// running app is not that login app. Each opens with 'P', 'E' or 'T'.
pub proof fn law_target_lines(ctx: LaunchContext)
    ensures
        target_lines(ctx)[0] == "Permission target: "@ + permission_target(ctx),
        ctx.expected_login_app_path matches Some(e) ==> target_lines(ctx)[1] == "Expected login app: "@ + e@,
        target_lines(ctx).len() == 1 + (if ctx.expected_login_app_path is Some { 1int } else { 0int }) + (
        if login_match(ctx) == Some(false) { 1int } else { 0int }),
        target_lines(ctx).contains(mismatch_line()) <==> login_match(ctx) == Some(false),
        forall|k: int|
            0 <= k < target_lines(ctx).len() ==> opens_with(#[trigger] target_lines(ctx)[k], 'P') || opens_with(
                target_lines(ctx)[k],
                'E',
            ) || opens_with(target_lines(ctx)[k], 'T'),
        forall|k: int|
            0 <= k < target_lines(ctx).len() && opens_with(#[trigger] target_lines(ctx)[k], 'E') ==> k == 1
                && ctx.expected_login_app_path is Some,
{
    lemma_fixed_line_openings();
    let t = target_lines(ctx);
    lemma_prefixed_opening("Permission target: "@, permission_target(ctx), 'P');
    if let Some(e) = ctx.expected_login_app_path {
        lemma_prefixed_opening("Expected login app: "@, e@, 'E');
    }
    if t.contains(mismatch_line()) {
        let k = choose|k: int| 0 <= k < t.len() && t[k] == mismatch_line();
        assert(opens_with(t[k], 'T'));
    }
    if login_match(ctx) == Some(false) {
        assert(t[t.len() - 1] == mismatch_line());
    }
}

/// The startup permission dialog lists one bullet line per missing
/// permission, in order, and no other line is a bullet; it names the
/// permission target, and carries the mismatch sentence exactly when the
/// running app is not the expected login app.
pub proof fn law_permission_dialog_lines(issues: Seq<PermissionIssue>, ctx: LaunchContext)
    ensures
        permission_dialog_lines(issues, ctx).len() == target_lines(ctx).len() + 6 + issues.len(),
        permission_dialog_lines(issues, ctx)[0] == "WhisperInput started without all required permissions."@,
        permission_dialog_lines(issues, ctx)[2] == "Permission target: "@ + permission_target(ctx),
        forall|j: int|
            0 <= j < issues.len() ==> #[trigger] permission_dialog_lines(issues, ctx)[target_lines(ctx).len() + 3int + j]
                == issue_line(issues[j]),
        forall|k: int|
            0 <= k < permission_dialog_lines(issues, ctx).len() ==> (opens_with(
                #[trigger] permission_dialog_lines(issues, ctx)[k],
                '-',
            ) <==> target_lines(ctx).len() + 3 <= k < target_lines(ctx).len() + 3 + issues.len()),
        permission_dialog_lines(issues, ctx).contains(mismatch_line()) <==> login_match(ctx) == Some(false),
{
    lemma_fixed_line_openings();
    law_target_lines(ctx);
    let t = target_lines(ctx);
    let n = t.len();
    let head = seq!["WhisperInput started without all required permissions."@, ""@];
    let bullets = issues.map_values(|i: PermissionIssue| issue_line(i));
    let tail = seq![
        ""@,
        "WhisperInput already asked macOS for any permission that supports a direct prompt."@,
        "Open System Settings now for anything that still needs manual approval. After changing permissions, quit and reopen WhisperInput if a feature stays unavailable."@,
    ];
    let lines = permission_dialog_lines(issues, ctx);
    assert(lines =~= head + t + seq![""@] + bullets + tail);
    assert forall|k: int| 0 <= k < lines.len() implies (opens_with(#[trigger] lines[k], '-') <==> n + 3 <= k
        < n + 3 + issues.len()) by {
        if 2 <= k < 2 + n {
            assert(lines[k] == t[k - 2]);
        } else if n + 3 <= k < n + 3 + issues.len() {
            assert(lines[k] == issue_line(issues[k - n - 3]));
        }
    }
    if lines.contains(mismatch_line()) {
        let k = choose|k: int| 0 <= k < lines.len() && lines[k] == mismatch_line();
        if 2 <= k < 2 + n {
            assert(t[k - 2] == mismatch_line());
            assert(t.contains(mismatch_line()));
        } else if n + 3 <= k < n + 3 + issues.len() {
            assert(opens_with(lines[k], '-'));
        }
    }
    if login_match(ctx) == Some(false) {
        let k = choose|k: int| 0 <= k < t.len() && t[k] == mismatch_line();
        assert(lines[k + 2] == mismatch_line());
    }
}

/// The permission status dialog shows the three permission states, in this
/// order, after the path lines; it says all permissions are granted exactly
/// when nothing is missing, points to Open Settings exactly when something
/// is, and carries the mismatch sentence exactly when the running app is not
/// the expected login app.
pub proof fn law_status_dialog_lines(r: PermissionReport)
    ensures
        permission_status_lines(r)[0] == "WhisperInput permission status for this running app."@,
        permission_status_lines(r)[2] == "Permission target: "@ + permission_target(r.launch_context),
        permission_status_lines(r)[target_lines(r.launch_context).len() + 3int] == "- Input Monitoring / Hotkey: "@
            + status_label(r.input_monitoring_granted),
        permission_status_lines(r)[target_lines(r.launch_context).len() + 4int] == "- Accessibility / Paste: "@
            + status_label(r.accessibility_granted),
        permission_status_lines(r)[target_lines(r.launch_context).len() + 5int] == "- Microphone / Recording: "@
            + status_label(r.microphone_granted),
        permission_status_lines(r).contains("All required permissions are currently granted."@) <==> r.issues@.len()
            == 0,
        permission_status_lines(r).contains(
            "Use Open Settings to grant access for the permission target shown above, then restart WhisperInput if a feature still does not respond."@,
        ) <==> r.issues@.len() != 0,
        permission_status_lines(r).contains(mismatch_line()) <==> login_match(r.launch_context) == Some(false),
{
    lemma_fixed_line_openings();
    law_target_lines(r.launch_context);
    let t = target_lines(r.launch_context);
    let n = t.len();
    let all_granted = "All required permissions are currently granted."@;
    let use_settings = "Use Open Settings to grant access for the permission target shown above, then restart WhisperInput if a feature still does not respond."@;
    let head = seq!["WhisperInput permission status for this running app."@, ""@];
    let states = seq![
        ""@,
        "- Input Monitoring / Hotkey: "@ + status_label(r.input_monitoring_granted),
        "- Accessibility / Paste: "@ + status_label(r.accessibility_granted),
        "- Microphone / Recording: "@ + status_label(r.microphone_granted),
        ""@,
    ];
    let closing: Seq<Seq<char>> = if r.issues@.len() == 0 {
        seq![all_granted]
    } else {
        seq![
            "Missing permissions can prevent the global hotkey, recording, or auto-paste from working."@,
            use_settings,
        ]
    };
    let lines = permission_status_lines(r);
    assert(lines =~= head + t + states + closing);
    lemma_prefixed_opening("- Input Monitoring / Hotkey: "@, status_label(r.input_monitoring_granted), '-');
    lemma_prefixed_opening("- Accessibility / Paste: "@, status_label(r.accessibility_granted), '-');
    lemma_prefixed_opening("- Microphone / Recording: "@, status_label(r.microphone_granted), '-');
    // Every line before the closing opens with a character other than 'A',
    // 'U' and 'T', or is a path line.
    assert forall|k: int| 0 <= k < n + 7 implies (#[trigger] lines[k]).len() == 0 || opens_with(lines[k], 'W')
        || opens_with(lines[k], '-') || (2 <= k < 2 + n && lines[k] == t[k - 2]) by {
    }
    if lines.contains(all_granted) {
        let k = choose|k: int| 0 <= k < lines.len() && lines[k] == all_granted;
        if 2 <= k < 2 + n {
            assert(opens_with(t[k - 2], 'P') || opens_with(t[k - 2], 'E') || opens_with(t[k - 2], 'T'));
        }
    }
    if r.issues@.len() == 0 {
        assert(lines[n + 7int] == all_granted);
    } else {
        assert(lines[n + 8int] == use_settings);
    }
    if lines.contains(use_settings) {
        let k = choose|k: int| 0 <= k < lines.len() && lines[k] == use_settings;
        if 2 <= k < 2 + n {
            assert(opens_with(t[k - 2], 'P') || opens_with(t[k - 2], 'E') || opens_with(t[k - 2], 'T'));
        }
    }
    if lines.contains(mismatch_line()) {
        let k = choose|k: int| 0 <= k < lines.len() && lines[k] == mismatch_line();
        if 2 <= k < 2 + n {
            assert(t[k - 2] == mismatch_line());
            assert(t.contains(mismatch_line()));
        }
    }
    if login_match(r.launch_context) == Some(false) {
        let k = choose|k: int| 0 <= k < t.len() && t[k] == mismatch_line();
        assert(lines[k + 2] == mismatch_line());
    }
}

/// A permission is listed as an issue exactly when it is not granted.
pub proof fn law_issue_iff_missing(accessibility: bool, input_monitoring: bool, microphone: bool)
    ensures
        issues_from_grants(accessibility, input_monitoring, microphone).contains(
            PermissionIssue::Accessibility,
        ) == !accessibility,
        issues_from_grants(accessibility, input_monitoring, microphone).contains(
            PermissionIssue::InputMonitoring,
        ) == !input_monitoring,
        issues_from_grants(accessibility, input_monitoring, microphone).contains(
            PermissionIssue::Microphone,
        ) == !microphone,
        issues_from_grants(accessibility, input_monitoring, microphone).len() == (if accessibility {
            0int
        } else {
            1int
        }) + (if input_monitoring { 0int } else { 1int }) + (if microphone { 0int } else { 1int }),
{
    let s = issues_from_grants(accessibility, input_monitoring, microphone);
    let targets = seq![PermissionIssue::Accessibility, PermissionIssue::InputMonitoring, PermissionIssue::Microphone];
    assert forall|j: int| 0 <= j < 3 implies #[trigger] s.contains(targets[j]) == match targets[j] {
        PermissionIssue::Accessibility => !accessibility,
        PermissionIssue::InputMonitoring => !input_monitoring,
        PermissionIssue::Microphone => !microphone,
    } by {
        let t = targets[j];
        if s.contains(t) {
            let i = choose|i: int| 0 <= i < s.len() && s[i] == t;
        } else {
            if t == PermissionIssue::Accessibility && !accessibility {
                assert(s[0] == t);
            }
            if t == PermissionIssue::InputMonitoring && !input_monitoring {
                assert(s[if accessibility { 0int } else { 1int }] == t);
            }
            if t == PermissionIssue::Microphone && !microphone {
                assert(s[s.len() - 1] == t);
            }
        }
    }
    assert(targets[0] == PermissionIssue::Accessibility);
    assert(targets[1] == PermissionIssue::InputMonitoring);
    assert(targets[2] == PermissionIssue::Microphone);
}

/// Whether `x` stands in `t` as a contiguous piece.
pub open spec fn holds_piece(t: Seq<char>, x: Seq<char>) -> bool {
    exists|i: int| 0 <= i && i + x.len() <= t.len() && #[trigger] t.subrange(i, i + x.len()) == x
}

/// A line of a dialog is a piece of the dialog's text.
proof fn lemma_line_piece(lines: Seq<Seq<char>>, k: int)
    requires
        0 <= k < lines.len(),
    ensures
        holds_piece(joined_lines(lines), lines[k]),
{
    law_line_in_joined(lines, k);
    let o = line_offset(lines, k);
    assert(joined_lines(lines).subrange(o, o + lines[k].len()) == lines[k]);
}

/// The startup dialog's text names the permission target, holds one bullet
/// per missing permission, and holds the mismatch sentence when the running
/// app is not the expected login app.
pub proof fn law_permission_dialog_text(issues: Seq<PermissionIssue>, ctx: LaunchContext)
    ensures
        holds_piece(joined_lines(permission_dialog_lines(issues, ctx)), "Permission target: "@ + permission_target(ctx)),
        forall|j: int|
            0 <= j < issues.len() ==> holds_piece(
                joined_lines(permission_dialog_lines(issues, ctx)),
                #[trigger] issue_line(issues[j]),
            ),
        login_match(ctx) == Some(false) ==> holds_piece(joined_lines(permission_dialog_lines(issues, ctx)), mismatch_line()),
        ctx.expected_login_app_path matches Some(e) ==> holds_piece(
            joined_lines(permission_dialog_lines(issues, ctx)),
            "Expected login app: "@ + e@,
        ),
{
    law_permission_dialog_lines(issues, ctx);
    law_target_lines(ctx);
    let lines = permission_dialog_lines(issues, ctx);
    let n = target_lines(ctx).len();
    lemma_line_piece(lines, 2);
    assert forall|j: int| 0 <= j < issues.len() implies holds_piece(joined_lines(lines), #[trigger] issue_line(issues[j])) by {
        lemma_line_piece(lines, n + 3 + j);
    }
    if login_match(ctx) == Some(false) {
        let k = choose|k: int| 0 <= k < lines.len() && lines[k] == mismatch_line();
        lemma_line_piece(lines, k);
    }
    if let Some(e) = ctx.expected_login_app_path {
        assert(lines[3] == target_lines(ctx)[1]);
        lemma_line_piece(lines, 3);
    }
}

/// The status dialog's text holds its title, the three permission states,
/// the all-granted sentence when nothing is missing, the Open Settings hint
/// when something is, and the mismatch sentence when the running app is not
/// the expected login app.
pub proof fn law_status_dialog_text(r: PermissionReport)
    ensures
        holds_piece(joined_lines(permission_status_lines(r)), "WhisperInput permission status for this running app."@),
        holds_piece(
            joined_lines(permission_status_lines(r)),
            "- Input Monitoring / Hotkey: "@ + status_label(r.input_monitoring_granted),
        ),
        holds_piece(joined_lines(permission_status_lines(r)), "- Accessibility / Paste: "@ + status_label(r.accessibility_granted)),
        holds_piece(joined_lines(permission_status_lines(r)), "- Microphone / Recording: "@ + status_label(r.microphone_granted)),
        r.issues@.len() == 0 ==> holds_piece(
            joined_lines(permission_status_lines(r)),
            "All required permissions are currently granted."@,
        ),
        r.issues@.len() != 0 ==> holds_piece(
            joined_lines(permission_status_lines(r)),
            "Use Open Settings to grant access for the permission target shown above, then restart WhisperInput if a feature still does not respond."@,
        ),
        login_match(r.launch_context) == Some(false) ==> holds_piece(joined_lines(permission_status_lines(r)), mismatch_line()),
{
    law_status_dialog_lines(r);
    let lines = permission_status_lines(r);
    let n = target_lines(r.launch_context).len();
    lemma_line_piece(lines, 0);
    lemma_line_piece(lines, n + 3int);
    lemma_line_piece(lines, n + 4int);
    lemma_line_piece(lines, n + 5int);
    if r.issues@.len() == 0 {
        let k = choose|k: int| 0 <= k < lines.len() && lines[k] == "All required permissions are currently granted."@;
        lemma_line_piece(lines, k);
    } else {
        let k = choose|k: int| 0 <= k < lines.len() && lines[k]
            == "Use Open Settings to grant access for the permission target shown above, then restart WhisperInput if a feature still does not respond."@;
        lemma_line_piece(lines, k);
    }
    if login_match(r.launch_context) == Some(false) {
        let k = choose|k: int| 0 <= k < lines.len() && lines[k] == mismatch_line();
        lemma_line_piece(lines, k);
    }
}

/// The bundle path found for an executable is one of its ancestors whose
/// file name has the extension "app", and the path itself is chosen when it
/// names a bundle.
pub proof fn law_bundle_is_first_app_ancestor(p: Seq<char>)
    ensures
        bundle_search(p, p.len() as int) matches Some(k) ==> 0 <= k <= p.len() && names_bundle(p.take(k)),
        names_bundle(p) ==> bundle_search(p, p.len() as int) == Some(p.len() as int),
{
    lemma_bundle_search_found(p, p.len() as int);
    assert(p.take(p.len() as int) =~= p);
}

proof fn lemma_bundle_search_found(p: Seq<char>, end: int)
    ensures
        bundle_search(p, end) matches Some(k) ==> 0 <= k <= end && k <= p.len() && names_bundle(p.take(k)),
    decreases end,
{
    if 0 <= end <= p.len() && !names_bundle(p.take(end)) && name_end(p.take(end)) > body_start(p.take(end)) {
        lemma_parent_end_shrinks(p.take(end));
        lemma_bundle_search_found(p, parent_end(p.take(end)));
    }
}

} // verus!
