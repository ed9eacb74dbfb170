//! Data types shared by the `but hook` subcommands, with their mathematical views.

use vstd::prelude::*;
use vstd::string::*;

verus! {

/// Human-readable hint shown in all contexts where managed hooks are absent
/// (disabled by config or displaced by an external manager) to tell the user
/// how to re-enable them.
pub const FORCE_HOOKS_RECOVERY_HINT: &'static str =
    "To switch back to GitButler-managed hooks: but setup --force-hooks";

/// The names of the hooks GitButler manages, in the order they are handled.
pub open spec fn managed_hooks() -> Seq<Seq<char>> {
    seq!["pre-commit"@, "post-checkout"@, "pre-push"@]
}

/// The names of the hooks GitButler manages, in the order they are handled.
pub fn managed_hook_names() -> (names: Vec<String>)
    ensures
        names.deep_view() == managed_hooks(),
{
    let names = vec![
        String::from_str("pre-commit"),
        String::from_str("post-checkout"),
        String::from_str("pre-push"),
    ];
    assert(names.deep_view() =~= managed_hooks());
    names
}

/// Status of a hook installation.
#[derive(Debug)]
pub enum HookStatus {
    /// Hook was installed (may have backed up existing hook)
    Installed {
        /// Path to backup if one was created, None otherwise
        backup_path: Option<String>,
    },
    /// Hook was already configured
    AlreadyConfigured,
    /// Hook was skipped
    Skipped,
}

/// The model of a [`HookStatus`].
pub enum HookStatusView {
    Installed { backup_path: Option<Seq<char>> },
    AlreadyConfigured,
    Skipped,
}

impl DeepView for HookStatus {
    type V = HookStatusView;

    open spec fn deep_view(&self) -> HookStatusView {
        match self {
            HookStatus::Installed { backup_path } => HookStatusView::Installed {
                backup_path: backup_path.deep_view(),
            },
            HookStatus::AlreadyConfigured => HookStatusView::AlreadyConfigured,
            HookStatus::Skipped => HookStatusView::Skipped,
        }
    }
}

/// Information about a single installed hook.
#[derive(Debug)]
pub struct HookInfo {
    /// The name of the hook (e.g. "pre-commit")
    pub name: String,
    /// The status of the hook
    pub status: HookStatus,
}

/// The model of a [`HookInfo`].
pub struct HookInfoView {
    pub name: Seq<char>,
    pub status: HookStatusView,
}

impl DeepView for HookInfo {
    type V = HookInfoView;

    open spec fn deep_view(&self) -> HookInfoView {
        HookInfoView { name: self.name@, status: self.status.deep_view() }
    }
}

/// Details about an external hook manager detected during setup.
#[derive(Debug)]
pub struct HookManagerInfo {
    /// The name of the detected hook manager (e.g. "prek", "lefthook")
    pub name: String,
    /// Whether GitButler installed its own managed hooks
    pub hooks_installed: bool,
}

/// The model of a [`HookManagerInfo`].
pub struct HookManagerInfoView {
    pub name: Seq<char>,
    pub hooks_installed: bool,
}

impl DeepView for HookManagerInfo {
    type V = HookManagerInfoView;

    open spec fn deep_view(&self) -> HookManagerInfoView {
        HookManagerInfoView { name: self.name@, hooks_installed: self.hooks_installed }
    }
}

/// Result of a `but hook install` invocation, suitable for embedding in a
/// parent command's JSON output.
#[derive(Debug)]
pub struct HookInstallReport {
    /// Per-hook outcome, one entry per managed hook name.
    pub hooks: Vec<HookInfo>,
    /// External hook manager detected (and respected), if any.
    pub hook_manager: Option<HookManagerInfo>,
    /// Whether GitButler-managed hooks now exist on disk after this run.
    pub hooks_installed: bool,
    /// Non-fatal warnings (orphaned-hooks sweep, partial install, etc.).
    pub warnings: Vec<String>,
}

impl Default for HookInstallReport {
    /// An empty report: no hooks, no manager, nothing installed, no warnings.
    fn default() -> (report: Self)
        ensures
            report.deep_view() == (HookInstallReportView {
                hooks: Seq::empty(),
                hook_manager: None,
                hooks_installed: false,
                warnings: Seq::empty(),
            }),
    {
        let report = HookInstallReport {
            hooks: Vec::new(),
            hook_manager: None,
            hooks_installed: false,
            warnings: Vec::new(),
        };
        assert(report.deep_view().hooks =~= Seq::<HookInfoView>::empty());
        assert(report.deep_view().warnings =~= Seq::<Seq<char>>::empty());
        report
    }
}

/// The model of a [`HookInstallReport`].
pub struct HookInstallReportView {
    pub hooks: Seq<HookInfoView>,
    pub hook_manager: Option<HookManagerInfoView>,
    pub hooks_installed: bool,
    pub warnings: Seq<Seq<char>>,
}

impl DeepView for HookInstallReport {
    type V = HookInstallReportView;

    open spec fn deep_view(&self) -> HookInstallReportView {
        HookInstallReportView {
            hooks: self.hooks.deep_view(),
            hook_manager: self.hook_manager.deep_view(),
            hooks_installed: self.hooks_installed,
            warnings: self.warnings.deep_view(),
        }
    }
}

/// Result of a `but hook uninstall` invocation.
#[derive(Debug)]
pub struct HookUninstallReport {
    /// Names of GitButler-managed hooks removed from the hooks directory.
    pub removed: Vec<String>,
    /// Names of hooks where a backed-up user hook was restored.
    pub restored: Vec<String>,
    /// Non-fatal warnings.
    pub warnings: Vec<String>,
    /// External hook manager detected in the hooks directory after uninstall,
    /// if any (e.g. `prek`, `lefthook`).
    pub external_manager: Option<String>,
}

impl Default for HookUninstallReport {
    /// An empty report: nothing removed or restored, no warnings, no manager.
    fn default() -> (report: Self)
        ensures
            report.deep_view() == (HookUninstallReportView {
                removed: Seq::empty(),
                restored: Seq::empty(),
                warnings: Seq::empty(),
                external_manager: None,
            }),
    {
        let report = HookUninstallReport {
            removed: Vec::new(),
            restored: Vec::new(),
            warnings: Vec::new(),
            external_manager: None,
        };
        assert(report.deep_view().removed =~= Seq::<Seq<char>>::empty());
        assert(report.deep_view().restored =~= Seq::<Seq<char>>::empty());
        assert(report.deep_view().warnings =~= Seq::<Seq<char>>::empty());
        report
    }
}

/// The model of a [`HookUninstallReport`].
pub struct HookUninstallReportView {
    pub removed: Seq<Seq<char>>,
    pub restored: Seq<Seq<char>>,
    pub warnings: Seq<Seq<char>>,
    pub external_manager: Option<Seq<char>>,
}

impl DeepView for HookUninstallReport {
    type V = HookUninstallReportView;

    open spec fn deep_view(&self) -> HookUninstallReportView {
        HookUninstallReportView {
            removed: self.removed.deep_view(),
            restored: self.restored.deep_view(),
            warnings: self.warnings.deep_view(),
            external_manager: self.external_manager.deep_view(),
        }
    }
}

/// Where the hooks live, as observed in the repository.
#[derive(Debug)]
pub struct HooksLocation {
    /// The resolved hooks directory, for display.
    pub hooks_dir: String,
    /// The repository's default hooks directory (`$GIT_DIR/hooks`), for display.
    pub default_hooks_dir: String,
    /// Whether the resolved hooks directory differs from the default one
    /// (i.e. `core.hooksPath` redirects it).
    pub custom_hooks_path: bool,
    /// The shell command that removes GitButler-managed hooks from the default
    /// hooks directory; present exactly when that directory holds such hooks.
    pub orphaned_remove_command: Option<String>,
}

/// The model of a [`HooksLocation`].
pub struct HooksLocationView {
    pub hooks_dir: Seq<char>,
    pub default_hooks_dir: Seq<char>,
    pub custom_hooks_path: bool,
    pub orphaned_remove_command: Option<Seq<char>>,
}

impl DeepView for HooksLocation {
    type V = HooksLocationView;

    open spec fn deep_view(&self) -> HooksLocationView {
        HooksLocationView {
            hooks_dir: self.hooks_dir@,
            default_hooks_dir: self.default_hooks_dir@,
            custom_hooks_path: self.custom_hooks_path,
            orphaned_remove_command: self.orphaned_remove_command.deep_view(),
        }
    }
}

/// GitButler-managed hooks were left behind in the default hooks directory
/// while `core.hooksPath` points elsewhere.
pub open spec fn has_orphaned_hooks(loc: HooksLocationView) -> bool {
    loc.custom_hooks_path && loc.orphaned_remove_command is Some
}

/// How a line of human-readable output is painted.
#[derive(Debug, Clone, Copy, PartialEq, Eq, Structural)]
pub enum LineStyle {
    /// An empty line.
    Blank,
    /// No colour.
    Plain,
    Success,
    /// Success colour, dimmed.
    SuccessDim,
    Hint,
    Info,
    /// Info colour, bold.
    InfoBold,
    Attention,
    /// Error colour, bold.
    ErrorBold,
    CommandSuggestion,
}

/// One line of human-readable output: its style, whether it is indented by
/// two spaces, and its text.
#[derive(Debug)]
pub struct HumanLine {
    pub style: LineStyle,
    pub indented: bool,
    pub text: String,
}

/// The model of a [`HumanLine`].
pub struct HumanLineView {
    pub style: LineStyle,
    pub indented: bool,
    pub text: Seq<char>,
}

impl DeepView for HumanLine {
    type V = HumanLineView;

    open spec fn deep_view(&self) -> HumanLineView {
        HumanLineView { style: self.style, indented: self.indented, text: self.text@ }
    }
}

/// An empty output line.
pub open spec fn blank_line() -> HumanLineView {
    HumanLineView { style: LineStyle::Blank, indented: false, text: Seq::empty() }
}

/// An indented output line.
pub open spec fn indented_line(style: LineStyle, text: Seq<char>) -> HumanLineView {
    HumanLineView { style, indented: true, text }
}

/// A line that starts at the left margin.
pub open spec fn plain_line(style: LineStyle, text: Seq<char>) -> HumanLineView {
    HumanLineView { style, indented: false, text }
}

/// Build an empty output line.
pub fn blank() -> (line: HumanLine)
    ensures
        line.deep_view() == blank_line(),
{
    HumanLine { style: LineStyle::Blank, indented: false, text: String::new() }
}

/// Build an indented output line.
pub fn indented(style: LineStyle, text: String) -> (line: HumanLine)
    ensures
        line.deep_view() == indented_line(style, text@),
{
    HumanLine { style, indented: true, text }
}

/// Build a line at the left margin.
pub fn plain(style: LineStyle, text: String) -> (line: HumanLine)
    ensures
        line.deep_view() == plain_line(style, text@),
{
    HumanLine { style, indented: false, text }
}

/// Copy an optional string.
pub fn clone_opt(o: &Option<String>) -> (c: Option<String>)
    ensures
        c.deep_view() == o.deep_view(),
{
    match o {
        Some(s) => Some(s.clone()),
        None => None,
    }
}

/// Copy a list of strings.
pub fn clone_strings(v: &Vec<String>) -> (c: Vec<String>)
    ensures
        c.deep_view() == v.deep_view(),
{
    let mut out: Vec<String> = Vec::new();
    let mut i: usize = 0;
    while i < v.len()
        invariant
            i <= v.len(),
            out.deep_view() =~= v.deep_view().subrange(0, i as int),
        decreases v.len() - i,
    {
        let ghost before = out.deep_view();
        let s = v[i].clone();
        out.push(s);
        assert(out.deep_view() =~= before.push(v[i as int]@));
        i += 1;
    }
    assert(v.deep_view().subrange(0, v.len() as int) =~= v.deep_view());
    out
}

/// `a` followed by `b`.
pub fn cat2(a: &str, b: &str) -> (s: String)
    ensures
        s@ == a@ + b@,
{
    let mut s = String::from_str(a);
    s.append(b);
    s
}

/// `a`, `b` and `c` in turn.
pub fn cat3(a: &str, b: &str, c: &str) -> (s: String)
    ensures
        s@ == a@ + b@ + c@,
{
    let mut s = String::from_str(a);
    s.append(b);
    s.append(c);
    s
}

/// One indented line per item, each `prefix + item + suffix`.
pub open spec fn decorated_lines(
    style: LineStyle,
    prefix: Seq<char>,
    items: Seq<Seq<char>>,
    suffix: Seq<char>,
) -> Seq<HumanLineView> {
    Seq::new(items.len(), |i: int| indented_line(style, prefix + items[i] + suffix))
}

/// Append one indented line per item, each `prefix + item + suffix`.
pub fn push_decorated(
    lines: &mut Vec<HumanLine>,
    style: LineStyle,
    prefix: &str,
    items: &Vec<String>,
    suffix: &str,
)
    ensures
        final(lines).deep_view() == old(lines).deep_view() + decorated_lines(
            style,
            prefix@,
            items.deep_view(),
            suffix@,
        ),
{
    let ghost base = lines.deep_view();
    let ghost all = decorated_lines(style, prefix@, items.deep_view(), suffix@);
    let mut i: usize = 0;
    while i < items.len()
        invariant
            i <= items.len(),
            all == decorated_lines(style, prefix@, items.deep_view(), suffix@),
            lines.deep_view() =~= base + all.subrange(0, i as int),
        decreases items.len() - i,
    {
        let ghost before = lines.deep_view();
        lines.push(indented(style, cat3(prefix, items[i].as_str(), suffix)));
        assert(lines.deep_view() =~= before.push(all[i as int]));
        i += 1;
    }
    assert(all.subrange(0, items.len() as int) =~= all);
}

} // verus!
