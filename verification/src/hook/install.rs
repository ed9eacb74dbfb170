//! `but hook install`: turning the outcome of the hook installer into a
//! report and human-readable output.

use vstd::prelude::*;
use vstd::string::*;

use crate::hook::types::{
    blank, blank_line, cat2, cat3, clone_opt, clone_strings, decorated_lines, has_orphaned_hooks, indented,
    indented_line, managed_hook_names, managed_hooks, push_decorated, HookInfo, HookInfoView,
    HookInstallReport, HookInstallReportView, HookManagerInfo, HookManagerInfoView, HookStatus,
    HookStatusView, HooksLocation, HooksLocationView, HumanLine, HumanLineView, LineStyle,
    FORCE_HOOKS_RECOVERY_HINT,
};
use crate::text::{joined, join, split_lines, str_eq, text_lines};

verus! {

/// The installer's result for one hook.
#[derive(Debug)]
pub struct HookResult {
    /// The hook name.
    pub name: String,
    /// Where a pre-existing hook was backed up to, if it was.
    pub backup_path: Option<String>,
    /// The line the installer reports for this hook.
    pub install_line: String,
}

/// The model of a [`HookResult`].
pub struct HookResultView {
    pub name: Seq<char>,
    pub backup_path: Option<Seq<char>>,
    pub install_line: Seq<char>,
}

impl DeepView for HookResult {
    type V = HookResultView;

    open spec fn deep_view(&self) -> HookResultView {
        HookResultView {
            name: self.name@,
            backup_path: self.backup_path.deep_view(),
            install_line: self.install_line@,
        }
    }
}

/// The outcome of ensuring GitButler-managed hooks are installed.
#[derive(Debug)]
pub enum HookSetupOutcome {
    /// All hooks were installed.
    Installed { hook_results: Vec<HookResult> },
    /// The managed hooks were already in place.
    AlreadyInstalled,
    /// Some hooks were installed, others were not.
    PartialSuccess {
        installed_hooks: Vec<String>,
        hook_results: Vec<HookResult>,
        warnings: Vec<String>,
    },
    /// Hook installation is disabled by configuration.
    DisabledByConfig,
    /// An external hook manager owns the hooks.
    ExternalManagerDetected { manager_name: String, instructions: String },
    /// Hooks exist that are not GitButler-managed and were left alone.
    HookSkipped { hook_names: Vec<String> },
    /// Installation failed.
    Failed { error: String },
}

/// The model of a [`HookSetupOutcome`].
pub enum HookSetupOutcomeView {
    Installed { hook_results: Seq<HookResultView> },
    AlreadyInstalled,
    PartialSuccess {
        installed_hooks: Seq<Seq<char>>,
        hook_results: Seq<HookResultView>,
        warnings: Seq<Seq<char>>,
    },
    DisabledByConfig,
    ExternalManagerDetected { manager_name: Seq<char>, instructions: Seq<char> },
    HookSkipped { hook_names: Seq<Seq<char>> },
    Failed { error: Seq<char> },
}

impl DeepView for HookSetupOutcome {
    type V = HookSetupOutcomeView;

    open spec fn deep_view(&self) -> HookSetupOutcomeView {
        match self {
            HookSetupOutcome::Installed { hook_results } => HookSetupOutcomeView::Installed {
                hook_results: hook_results.deep_view(),
            },
            HookSetupOutcome::AlreadyInstalled => HookSetupOutcomeView::AlreadyInstalled,
            HookSetupOutcome::PartialSuccess { installed_hooks, hook_results, warnings } =>
                HookSetupOutcomeView::PartialSuccess {
                installed_hooks: installed_hooks.deep_view(),
                hook_results: hook_results.deep_view(),
                warnings: warnings.deep_view(),
            },
            HookSetupOutcome::DisabledByConfig => HookSetupOutcomeView::DisabledByConfig,
            HookSetupOutcome::ExternalManagerDetected { manager_name, instructions } =>
                HookSetupOutcomeView::ExternalManagerDetected {
                manager_name: manager_name@,
                instructions: instructions@,
            },
            HookSetupOutcome::HookSkipped { hook_names } => HookSetupOutcomeView::HookSkipped {
                hook_names: hook_names.deep_view(),
            },
            HookSetupOutcome::Failed { error } => HookSetupOutcomeView::Failed { error: error@ },
        }
    }
}

/// One `Installed` entry per installer result, carrying its backup path.
pub open spec fn installed_infos(results: Seq<HookResultView>) -> Seq<HookInfoView> {
    Seq::new(
        results.len(),
        |i: int|
            HookInfoView {
                name: results[i].name,
                status: HookStatusView::Installed { backup_path: results[i].backup_path },
            },
    )
}

/// One entry with the given status per name.
pub open spec fn infos_with_status(names: Seq<Seq<char>>, status: HookStatusView) -> Seq<
    HookInfoView,
> {
    Seq::new(names.len(), |i: int| HookInfoView { name: names[i], status })
}

/// The names of the installer results.
pub open spec fn result_names(results: Seq<HookResultView>) -> Seq<Seq<char>> {
    Seq::new(results.len(), |i: int| results[i].name)
}

/// The names that are not among `excluded`, in order.
pub open spec fn names_not_among(names: Seq<Seq<char>>, excluded: Seq<Seq<char>>) -> Seq<
    Seq<char>,
>
    decreases names.len(),
{
    if names.len() == 0 {
        Seq::empty()
    } else if excluded.contains(names.last()) {
        names_not_among(names.drop_last(), excluded)
    } else {
        names_not_among(names.drop_last(), excluded).push(names.last())
    }
}

/// Installation was attempted in the hooks directory (rather than being
/// disabled, left to an external manager, or failing outright).
pub open spec fn installation_attempted(o: HookSetupOutcomeView) -> bool {
    o is Installed || o is AlreadyInstalled || o is PartialSuccess || o is HookSkipped
}

/// The warning about managed hooks left in the old hooks directory.
pub open spec fn old_hooks_dir_warning(loc: HooksLocationView) -> Seq<char> {
    "GitButler-managed hooks found in old hooks directory ("@ + loc.default_hooks_dir + ")."@
}

/// The names of the hooks in a list of entries.
pub open spec fn report_names(hooks: Seq<HookInfoView>) -> Seq<Seq<char>> {
    Seq::new(hooks.len(), |i: int| hooks[i].name)
}

/// The warnings of an install report: the non-fatal warnings of a partial
/// install, then the warning about hooks orphaned in the old hooks directory.
pub open spec fn install_warnings(o: HookSetupOutcomeView, loc: HooksLocationView) -> Seq<
    Seq<char>,
> {
    (if installation_attempted(o) && has_orphaned_hooks(loc) {
        seq![old_hooks_dir_warning(loc)]
    } else {
        Seq::empty()
    }) + (match o {
        HookSetupOutcomeView::PartialSuccess { warnings, .. } => warnings,
        _ => Seq::empty(),
    })
}

/// The entries the installer's outcome reports on directly.
pub open spec fn outcome_infos(o: HookSetupOutcomeView) -> Seq<HookInfoView> {
    match o {
        HookSetupOutcomeView::Installed { hook_results } => installed_infos(hook_results),
        HookSetupOutcomeView::AlreadyInstalled => infos_with_status(
            managed_hooks(),
            HookStatusView::AlreadyConfigured,
        ),
        HookSetupOutcomeView::PartialSuccess { hook_results, .. } => installed_infos(hook_results),
        HookSetupOutcomeView::HookSkipped { hook_names } => infos_with_status(
            hook_names,
            HookStatusView::Skipped,
        ),
        _ => Seq::empty(),
    }
}

/// The per-hook entries of an install report: those the outcome reports on,
/// then every other managed hook as skipped.
pub open spec fn install_hooks(o: HookSetupOutcomeView) -> Seq<HookInfoView> {
    outcome_infos(o) + infos_with_status(
        names_not_among(managed_hooks(), report_names(outcome_infos(o))),
        HookStatusView::Skipped,
    )
}

/// The report `install` gives for an installer outcome.
pub open spec fn install_report(
    o: HookSetupOutcomeView,
    loc: HooksLocationView,
) -> HookInstallReportView {
    HookInstallReportView {
        hooks: install_hooks(o),
        hook_manager: match o {
            HookSetupOutcomeView::ExternalManagerDetected { manager_name, .. } => Some(
                HookManagerInfoView { name: manager_name, hooks_installed: false },
            ),
            _ => None,
        },
        hooks_installed: o is Installed || o is AlreadyInstalled || o is PartialSuccess,
        warnings: install_warnings(o, loc),
    }
}

/// Convert a list of per-hook installation results into [`HookInfo`] entries.
///
/// Each result becomes a [`HookInfo`] with [`HookStatus::Installed`],
/// carrying the backup path (if any) from the result.
pub fn hook_results_to_hook_info(results: &[HookResult]) -> (infos: Vec<HookInfo>)
    ensures
        infos.deep_view() == installed_infos(results.deep_view()),
{
    let ghost all = installed_infos(results.deep_view());
    let mut infos: Vec<HookInfo> = Vec::new();
    let mut i: usize = 0;
    while i < results.len()
        invariant
            i <= results.len(),
            all == installed_infos(results.deep_view()),
            infos.deep_view() =~= all.subrange(0, i as int),
        decreases results.len() - i,
    {
        let r = &results[i];
        let info = HookInfo {
            name: r.name.clone(),
            status: HookStatus::Installed { backup_path: clone_opt(&r.backup_path) },
        };
        let ghost before = infos.deep_view();
        infos.push(info);
        assert(infos.deep_view() =~= before.push(all[i as int]));
        i += 1;
    }
    assert(all.subrange(0, results.len() as int) =~= all);
    infos
}

/// One entry per name, all with the status produced by `status`.
fn infos_for_names(names: &Vec<String>, skipped: bool) -> (infos: Vec<HookInfo>)
    ensures
        infos.deep_view() == infos_with_status(
            names.deep_view(),
            if skipped {
                HookStatusView::Skipped
            } else {
                HookStatusView::AlreadyConfigured
            },
        ),
{
    let ghost status = if skipped {
        HookStatusView::Skipped
    } else {
        HookStatusView::AlreadyConfigured
    };
    let ghost all = infos_with_status(names.deep_view(), status);
    let mut infos: Vec<HookInfo> = Vec::new();
    let mut i: usize = 0;
    while i < names.len()
        invariant
            i <= names.len(),
            all == infos_with_status(names.deep_view(), status),
            status == (if skipped {
                HookStatusView::Skipped
            } else {
                HookStatusView::AlreadyConfigured
            }),
            infos.deep_view() =~= all.subrange(0, i as int),
        decreases names.len() - i,
    {
        let s = if skipped {
            HookStatus::Skipped
        } else {
            HookStatus::AlreadyConfigured
        };
        let info = HookInfo { name: names[i].clone(), status: s };
        let ghost before = infos.deep_view();
        infos.push(info);
        assert(infos.deep_view() =~= before.push(all[i as int]));
        i += 1;
    }
    assert(all.subrange(0, names.len() as int) =~= all);
    infos
}

/// Build [`HookInfo`] entries for hooks that were already configured (no changes made).
///
/// Produces one entry per managed hook name, all with [`HookStatus::AlreadyConfigured`].
pub fn already_configured_hook_info() -> (infos: Vec<HookInfo>)
    ensures
        infos.deep_view() == infos_with_status(managed_hooks(), HookStatusView::AlreadyConfigured),
{
    let names = managed_hook_names();
    infos_for_names(&names, false)
}

fn info_names_contain(infos: &Vec<HookInfo>, name: &str) -> (found: bool)
    ensures
        found == report_names(infos.deep_view()).contains(name@),
{
    let ghost names = report_names(infos.deep_view());
    let mut i: usize = 0;
    while i < infos.len()
        invariant
            i <= infos.len(),
            names == report_names(infos.deep_view()),
            forall|j: int| 0 <= j < i ==> names[j] != name@,
        decreases infos.len() - i,
    {
        if str_eq(infos[i].name.as_str(), name) {
            assert(names[i as int] == name@);
            return true;
        }
        i += 1;
    }
    false
}

/// The managed hook names that no entry reports on, in order.
fn unreported_managed_names(infos: &Vec<HookInfo>) -> (names: Vec<String>)
    ensures
        names.deep_view() == names_not_among(managed_hooks(), report_names(infos.deep_view())),
{
    let all = managed_hook_names();
    let ghost excluded = report_names(infos.deep_view());
    let mut names: Vec<String> = Vec::new();
    let mut i: usize = 0;
    while i < all.len()
        invariant
            i <= all.len(),
            all.deep_view() == managed_hooks(),
            excluded == report_names(infos.deep_view()),
            names.deep_view() =~= names_not_among(
                all.deep_view().subrange(0, i as int),
                excluded,
            ),
        decreases all.len() - i,
    {
        let ghost prefix = all.deep_view().subrange(0, i + 1);
        assert(prefix.drop_last() =~= all.deep_view().subrange(0, i as int));
        assert(prefix.last() == all[i as int]@);
        if !info_names_contain(infos, all[i].as_str()) {
            let ghost before = names.deep_view();
            names.push(all[i].clone());
            assert(names.deep_view() =~= before.push(all[i as int]@));
        }
        i += 1;
    }
    assert(all.deep_view().subrange(0, all.len() as int) =~= all.deep_view());
    names
}

fn old_hooks_dir_warning_text(location: &HooksLocation) -> (s: String)
    ensures
        s@ == old_hooks_dir_warning(location.deep_view()),
{
    cat3(
        "GitButler-managed hooks found in old hooks directory (",
        location.default_hooks_dir.as_str(),
        ").",
    )
}

fn attempted(outcome: &HookSetupOutcome) -> (a: bool)
    ensures
        a == installation_attempted(outcome.deep_view()),
{
    match outcome {
        HookSetupOutcome::Installed { .. } => true,
        HookSetupOutcome::AlreadyInstalled => true,
        HookSetupOutcome::PartialSuccess { .. } => true,
        HookSetupOutcome::HookSkipped { .. } => true,
        _ => false,
    }
}

/// Build the report of `but hook install` from the installer's outcome.
///
/// Records one entry per managed hook (those the installer did not report on
/// as skipped), the external hook manager that was respected (if any),
/// whether GitButler-managed hooks now exist, and the non-fatal warnings: first
/// the one about managed hooks left behind in the old hooks directory after
/// `core.hooksPath` moved the hooks elsewhere, then those of a partial install.
pub fn install(outcome: &HookSetupOutcome, location: &HooksLocation) -> (report: HookInstallReport)
    ensures
        report.deep_view() == install_report(outcome.deep_view(), location.deep_view()),
{
    let ghost o = outcome.deep_view();
    let mut warnings: Vec<String> = Vec::new();
    if attempted(outcome) && location.custom_hooks_path
        && location.orphaned_remove_command.is_some() {
        warnings.push(old_hooks_dir_warning_text(location));
    }
    match outcome {
        HookSetupOutcome::PartialSuccess { warnings: partial, .. } => {
            let mut rest = clone_strings(partial);
            warnings.append(&mut rest);
        },
        _ => {},
    }
    assert(warnings.deep_view() =~= install_warnings(o, location.deep_view()));

    let mut hooks: Vec<HookInfo> = match outcome {
        HookSetupOutcome::Installed { hook_results } => {
            let sl = hook_results.as_slice();
            let infos = hook_results_to_hook_info(sl);
            assert(sl.deep_view() =~= hook_results.deep_view());
            infos
        },
        HookSetupOutcome::AlreadyInstalled => already_configured_hook_info(),
        HookSetupOutcome::PartialSuccess { hook_results, .. } => {
            let sl = hook_results.as_slice();
            let infos = hook_results_to_hook_info(sl);
            assert(sl.deep_view() =~= hook_results.deep_view());
            infos
        },
        HookSetupOutcome::HookSkipped { hook_names } => infos_for_names(hook_names, true),
        _ => {
            let infos: Vec<HookInfo> = Vec::new();
            assert(infos.deep_view() =~= Seq::<HookInfoView>::empty());
            infos
        },
    };
    assert(hooks.deep_view() =~= outcome_infos(o));
    let skipped = unreported_managed_names(&hooks);
    let mut rest = infos_for_names(&skipped, true);
    let ghost first = hooks.deep_view();
    let ghost second = rest.deep_view();
    hooks.append(&mut rest);
    assert(hooks.deep_view() =~= first + second);

    let hook_manager = match outcome {
        HookSetupOutcome::ExternalManagerDetected { manager_name, .. } => Some(
            HookManagerInfo { name: manager_name.clone(), hooks_installed: false },
        ),
        _ => None,
    };
    let hooks_installed = match outcome {
        HookSetupOutcome::Installed { .. } => true,
        HookSetupOutcome::AlreadyInstalled => true,
        HookSetupOutcome::PartialSuccess { .. } => true,
        _ => false,
    };
    HookInstallReport { hooks, hook_manager, hooks_installed, warnings }
}

/// The lines shown for an external manager's integration instructions: a
/// blank line for each empty line, an indented hint otherwise.
pub open spec fn instruction_lines(lines: Seq<Seq<char>>) -> Seq<HumanLineView> {
    Seq::new(
        lines.len(),
        |i: int|
            if lines[i].len() == 0 {
                blank_line()
            } else {
                indented_line(LineStyle::Hint, lines[i])
            },
    )
}

/// The human-readable lines describing an installer outcome.
pub open spec fn outcome_lines(o: HookSetupOutcomeView) -> Seq<HumanLineView> {
    match o {
        HookSetupOutcomeView::Installed { hook_results } => Seq::new(
            hook_results.len(),
            |i: int| indented_line(LineStyle::SuccessDim, hook_results[i].install_line),
        ),
        HookSetupOutcomeView::AlreadyInstalled => decorated_lines(
            LineStyle::Success,
            "✓ "@,
            managed_hooks(),
            " (already managed)"@,
        ),
        HookSetupOutcomeView::PartialSuccess { installed_hooks, warnings, .. } => decorated_lines(
            LineStyle::Success,
            "✓ Installed "@,
            installed_hooks,
            ""@,
        ) + decorated_lines(LineStyle::Attention, "Warning: "@, warnings, ""@),
        HookSetupOutcomeView::DisabledByConfig => seq![
            indented_line(
                LineStyle::Hint,
                "Skipping hook installation (--no-hooks is configured for this repository)"@,
            ),
            indented_line(LineStyle::Hint, FORCE_HOOKS_RECOVERY_HINT@),
        ],
        HookSetupOutcomeView::ExternalManagerDetected { manager_name, instructions } => seq![
            blank_line(),
            indented_line(
                LineStyle::Info,
                "Detected "@ + manager_name + " managing your git hooks."@,
            ),
            indented_line(
                LineStyle::Hint,
                "GitButler will not overwrite hooks owned by your hook manager."@,
            ),
            indented_line(
                LineStyle::Hint,
                "This repository is now configured for externally-managed hooks."@,
            ),
            blank_line(),
            indented_line(
                LineStyle::Attention,
                "To integrate GitButler's workspace guard with your hook manager:"@,
            ),
        ] + instruction_lines(text_lines(instructions)) + seq![
            blank_line(),
            indented_line(LineStyle::Hint, FORCE_HOOKS_RECOVERY_HINT@),
            blank_line(),
        ],
        HookSetupOutcomeView::HookSkipped { hook_names } => seq![
            indented_line(
                LineStyle::Attention,
                "Warning: Skipped "@ + joined(hook_names, ", "@)
                    + " — hook(s) exist and are not GitButler-managed. Use --force-hooks to override."@,
            ),
        ],
        HookSetupOutcomeView::Failed { error } => seq![
            indented_line(
                LineStyle::Attention,
                "Warning: Failed to install GitButler managed hooks: "@ + error,
            ),
        ],
    }
}

/// The lines about managed hooks orphaned in the old hooks directory.
pub open spec fn orphan_lines(o: HookSetupOutcomeView, loc: HooksLocationView) -> Seq<
    HumanLineView,
> {
    if installation_attempted(o) && has_orphaned_hooks(loc) {
        seq![
            indented_line(LineStyle::Attention, "Warning: "@ + old_hooks_dir_warning(loc)),
            indented_line(
                LineStyle::Hint,
                "core.hooksPath is now set to "@ + loc.hooks_dir + ", so those hooks are orphaned."@,
            ),
            indented_line(
                LineStyle::Hint,
                "You can safely remove them with: "@ + loc.orphaned_remove_command->0,
            ),
        ]
    } else {
        Seq::empty()
    }
}

/// The human-readable output of `but hook install`.
pub open spec fn install_output(o: HookSetupOutcomeView, loc: HooksLocationView) -> Seq<
    HumanLineView,
> {
    outcome_lines(o) + orphan_lines(o, loc)
}

fn push_instruction_lines(lines: &mut Vec<HumanLine>, instructions: &str)
    ensures
        final(lines).deep_view() == old(lines).deep_view() + instruction_lines(
            text_lines(instructions@),
        ),
{
    let parts = split_lines(instructions);
    let ghost base = lines.deep_view();
    let ghost all = instruction_lines(text_lines(instructions@));
    let mut i: usize = 0;
    while i < parts.len()
        invariant
            i <= parts.len(),
            parts.deep_view() == text_lines(instructions@),
            all == instruction_lines(text_lines(instructions@)),
            lines.deep_view() =~= base + all.subrange(0, i as int),
        decreases parts.len() - i,
    {
        let ghost before = lines.deep_view();
        if parts[i].unicode_len() == 0 {
            lines.push(blank());
        } else {
            lines.push(indented(LineStyle::Hint, parts[i].clone()));
        }
        assert(lines.deep_view() =~= before.push(all[i as int]));
        i += 1;
    }
    assert(all.subrange(0, parts.len() as int) =~= all);
}

/// The human-readable output of `but hook install` for an installer outcome.
pub fn install_messages(outcome: &HookSetupOutcome, location: &HooksLocation) -> (lines: Vec<
    HumanLine,
>)
    ensures
        lines.deep_view() == install_output(outcome.deep_view(), location.deep_view()),
{
    let mut lines: Vec<HumanLine> = Vec::new();
    match outcome {
        HookSetupOutcome::Installed { hook_results } => {
            let ghost all = outcome_lines(outcome.deep_view());
            let mut i: usize = 0;
            while i < hook_results.len()
                invariant
                    i <= hook_results.len(),
                    all == Seq::new(
                        hook_results.deep_view().len(),
                        |k: int|
                            indented_line(
                                LineStyle::SuccessDim,
                                hook_results.deep_view()[k].install_line,
                            ),
                    ),
                    lines.deep_view() =~= all.subrange(0, i as int),
                decreases hook_results.len() - i,
            {
                let ghost before = lines.deep_view();
                lines.push(indented(LineStyle::SuccessDim, hook_results[i].install_line.clone()));
                assert(lines.deep_view() =~= before.push(all[i as int]));
                i += 1;
            }
            assert(all.subrange(0, hook_results.len() as int) =~= all);
            assert(lines.deep_view() =~= outcome_lines(outcome.deep_view()));
        },
        HookSetupOutcome::AlreadyInstalled => {
            let names = managed_hook_names();
            push_decorated(&mut lines, LineStyle::Success, "✓ ", &names, " (already managed)");
            assert(lines.deep_view() =~= outcome_lines(outcome.deep_view()));
        },
        HookSetupOutcome::PartialSuccess { installed_hooks, warnings, .. } => {
            push_decorated(&mut lines, LineStyle::Success, "✓ Installed ", installed_hooks, "");
            push_decorated(&mut lines, LineStyle::Attention, "Warning: ", warnings, "");
            assert(lines.deep_view() =~= outcome_lines(outcome.deep_view()));
        },
        HookSetupOutcome::DisabledByConfig => {
            lines.push(
                indented(
                    LineStyle::Hint,
                    String::from_str(
                        "Skipping hook installation (--no-hooks is configured for this repository)",
                    ),
                ),
            );
            lines.push(indented(LineStyle::Hint, String::from_str(FORCE_HOOKS_RECOVERY_HINT)));
            assert(lines.deep_view() =~= outcome_lines(outcome.deep_view()));
        },
        HookSetupOutcome::ExternalManagerDetected { manager_name, instructions } => {
            lines.push(blank());
            lines.push(
                indented(
                    LineStyle::Info,
                    cat3("Detected ", manager_name.as_str(), " managing your git hooks."),
                ),
            );
            lines.push(
                indented(
                    LineStyle::Hint,
                    String::from_str(
                        "GitButler will not overwrite hooks owned by your hook manager.",
                    ),
                ),
            );
            lines.push(
                indented(
                    LineStyle::Hint,
                    String::from_str(
                        "This repository is now configured for externally-managed hooks.",
                    ),
                ),
            );
            lines.push(blank());
            lines.push(
                indented(
                    LineStyle::Attention,
                    String::from_str(
                        "To integrate GitButler's workspace guard with your hook manager:",
                    ),
                ),
            );
            let ghost head = lines.deep_view();
            push_instruction_lines(&mut lines, instructions.as_str());
            let ghost mid = lines.deep_view();
            lines.push(blank());
            lines.push(indented(LineStyle::Hint, String::from_str(FORCE_HOOKS_RECOVERY_HINT)));
            lines.push(blank());
            assert(lines.deep_view() =~= mid + seq![
                blank_line(),
                indented_line(LineStyle::Hint, FORCE_HOOKS_RECOVERY_HINT@),
                blank_line(),
            ]);
            assert(lines.deep_view() =~= outcome_lines(outcome.deep_view()));
        },
        HookSetupOutcome::HookSkipped { hook_names } => {
            let mut text = String::from_str("Warning: Skipped ");
            text.append(join(hook_names, ", ").as_str());
            text.append(
                " — hook(s) exist and are not GitButler-managed. Use --force-hooks to override.",
            );
            lines.push(indented(LineStyle::Attention, text));
            assert(lines.deep_view() =~= outcome_lines(outcome.deep_view()));
        },
        HookSetupOutcome::Failed { error } => {
            lines.push(
                indented(
                    LineStyle::Attention,
                    cat2("Warning: Failed to install GitButler managed hooks: ", error.as_str()),
                ),
            );
            assert(lines.deep_view() =~= outcome_lines(outcome.deep_view()));
        },
    }
    assert(lines.deep_view() =~= outcome_lines(outcome.deep_view()));
    if attempted(outcome) && location.custom_hooks_path {
        match &location.orphaned_remove_command {
            Some(cmd) => {
                lines.push(
                    indented(
                        LineStyle::Attention,
                        cat2("Warning: ", old_hooks_dir_warning_text(location).as_str()),
                    ),
                );
                lines.push(
                    indented(
                        LineStyle::Hint,
                        cat3(
                            "core.hooksPath is now set to ",
                            location.hooks_dir.as_str(),
                            ", so those hooks are orphaned.",
                        ),
                    ),
                );
                lines.push(
                    indented(
                        LineStyle::Hint,
                        cat2("You can safely remove them with: ", cmd.as_str()),
                    ),
                );
            },
            None => {},
        }
    }
    assert(lines.deep_view() =~= install_output(outcome.deep_view(), location.deep_view()));
    lines
}

/// The report says GitButler-managed hooks exist exactly when the installer
/// installed them, found them already in place, or installed some of them;
/// it names a hook manager exactly when one was detected, and it never warns
/// about orphaned hooks unless installation was attempted in the hooks
/// directory (an external manager's hooks are elsewhere on purpose).
pub proof fn install_reports_installed_hooks_exactly_when_present(
    o: HookSetupOutcomeView,
    loc: HooksLocationView,
)
    ensures
        install_report(o, loc).hooks_installed <==> (o is Installed || o is AlreadyInstalled
            || o is PartialSuccess),
        install_report(o, loc).hook_manager is Some <==> o is ExternalManagerDetected,
        !installation_attempted(o) ==> install_report(o, loc).warnings.len() == 0
            && orphan_lines(o, loc).len() == 0,
{
}

/// Whenever managed hooks are absent because configuration disabled them or
/// an external manager displaced them, the output tells the user how to
/// switch back to GitButler-managed hooks.
pub proof fn install_shows_recovery_hint_when_hooks_are_absent(
    o: HookSetupOutcomeView,
    loc: HooksLocationView,
)
    requires
        o is DisabledByConfig || o is ExternalManagerDetected,
    ensures
        exists|i: int|
            0 <= i < install_output(o, loc).len() && #[trigger] install_output(o, loc)[i].text
                == FORCE_HOOKS_RECOVERY_HINT@,
{
    let out = install_output(o, loc);
    if o is DisabledByConfig {
        assert(out[1].text == FORCE_HOOKS_RECOVERY_HINT@);
    } else {
        let n = instruction_lines(text_lines(o->instructions)).len();
        assert(out[6 + n as int + 1].text == FORCE_HOOKS_RECOVERY_HINT@);
    }
}

proof fn names_not_among_members(names: Seq<Seq<char>>, excluded: Seq<Seq<char>>, x: Seq<char>)
    ensures
        names_not_among(names, excluded).contains(x) <==> (names.contains(x)
            && !excluded.contains(x)),
    decreases names.len(),
{
    if names.len() > 0 {
        let rest = names.drop_last();
        names_not_among_members(rest, excluded, x);
        if names.contains(x) && x != names.last() {
            let i = choose|i: int| 0 <= i < names.len() && names[i] == x;
            assert(rest[i] == x);
        }
        if rest.contains(x) {
            let i = choose|i: int| 0 <= i < rest.len() && rest[i] == x;
            assert(names[i] == x);
        }
        assert(names[names.len() - 1] == names.last());
        let r = names_not_among(rest, excluded);
        if !excluded.contains(names.last()) {
            assert(r.push(names.last())[r.len() as int] == names.last());
            if r.contains(x) {
                let i = choose|i: int| 0 <= i < r.len() && r[i] == x;
                assert(r.push(names.last())[i] == x);
            }
            if r.push(names.last()).contains(x) && x != names.last() {
                let i = choose|i: int| 0 <= i < r.len() + 1 && r.push(names.last())[i] == x;
                assert(r[i] == x);
            }
        }
    }
}

proof fn names_not_among_no_duplicates(names: Seq<Seq<char>>, excluded: Seq<Seq<char>>)
    requires
        names.no_duplicates(),
    ensures
        names_not_among(names, excluded).no_duplicates(),
    decreases names.len(),
{
    if names.len() > 0 {
        let rest = names.drop_last();
        assert(rest.no_duplicates()) by {
            assert forall|i: int, j: int|
                0 <= i < rest.len() && 0 <= j < rest.len() && i != j implies rest[i] != rest[j] by {
                assert(rest[i] == names[i] && rest[j] == names[j]);
            }
        }
        names_not_among_no_duplicates(rest, excluded);
        let r = names_not_among(rest, excluded);
        if !excluded.contains(names.last()) {
            names_not_among_members(rest, excluded, names.last());
            assert(!rest.contains(names.last())) by {
                if rest.contains(names.last()) {
                    let i = choose|i: int| 0 <= i < rest.len() && rest[i] == names.last();
                    assert(names[i] == names[names.len() - 1]);
                }
            }
            let p = r.push(names.last());
            assert forall|i: int, j: int|
                0 <= i < p.len() && 0 <= j < p.len() && i != j implies p[i] != p[j] by {
                if i == r.len() {
                    assert(p[j] == r[j]);
                } else if j == r.len() {
                    assert(p[i] == r[i]);
                } else {
                    assert(p[i] == r[i] && p[j] == r[j]);
                }
            }
        }
    }
}

/// The names are distinct and all of them are managed hook names.
pub open spec fn distinct_managed_names(names: Seq<Seq<char>>) -> bool {
    &&& names.no_duplicates()
    &&& forall|i: int| 0 <= i < names.len() ==> managed_hooks().contains(#[trigger] names[i])
}

/// The installer reported on each hook at most once, and only on managed hooks.
pub open spec fn outcome_names_are_managed(o: HookSetupOutcomeView) -> bool {
    match o {
        HookSetupOutcomeView::Installed { hook_results } => distinct_managed_names(
            result_names(hook_results),
        ),
        HookSetupOutcomeView::PartialSuccess { hook_results, .. } => distinct_managed_names(
            result_names(hook_results),
        ),
        HookSetupOutcomeView::HookSkipped { hook_names } => distinct_managed_names(hook_names),
        _ => true,
    }
}

/// Whatever the installer's outcome, the report has one entry per managed
/// hook name, provided the installer reported on each hook at most once and
/// only on managed hooks.
pub proof fn install_reports_each_managed_hook_once(o: HookSetupOutcomeView, loc: HooksLocationView)
    requires
        outcome_names_are_managed(o),
    ensures
        ({
            let names = report_names(install_report(o, loc).hooks);
            &&& names.no_duplicates()
            &&& forall|x: Seq<char>| names.contains(x) <==> managed_hooks().contains(x)
        }),
{
    reveal_strlit("pre-commit");
    reveal_strlit("post-checkout");
    reveal_strlit("pre-push");
    let m = managed_hooks();
    assert(m.no_duplicates()) by {
        assert("pre-commit"@.len() != "post-checkout"@.len());
        assert("pre-push"@.len() != "post-checkout"@.len());
        assert("pre-push"@[4] != "pre-commit"@[4]);
    }
    let e = report_names(outcome_infos(o));
    match o {
        HookSetupOutcomeView::Installed { hook_results } => {
            assert(e =~= result_names(hook_results));
        },
        HookSetupOutcomeView::PartialSuccess { hook_results, .. } => {
            assert(e =~= result_names(hook_results));
        },
        HookSetupOutcomeView::HookSkipped { hook_names } => {
            assert(e =~= hook_names);
        },
        HookSetupOutcomeView::AlreadyInstalled => {
            assert(e =~= m);
            assert forall|i: int| 0 <= i < e.len() implies m.contains(#[trigger] e[i]) by {
                assert(m[i] == e[i]);
            }
        },
        _ => {
            assert(e =~= Seq::<Seq<char>>::empty());
        },
    }
    assert(distinct_managed_names(e));
    let skipped = names_not_among(m, e);
    names_not_among_no_duplicates(m, e);
    let names = report_names(install_report(o, loc).hooks);
    assert(names =~= e + skipped);
    assert forall|x: Seq<char>| names.contains(x) <==> m.contains(x) by {
        names_not_among_members(m, e, x);
        if e.contains(x) {
            let i = choose|i: int| 0 <= i < e.len() && e[i] == x;
            assert(names[i] == x);
        }
        if skipped.contains(x) {
            let i = choose|i: int| 0 <= i < skipped.len() && skipped[i] == x;
            assert(names[e.len() + i] == x);
        }
        if names.contains(x) {
            let i = choose|i: int| 0 <= i < names.len() && names[i] == x;
            if i < e.len() {
                assert(e[i] == x);
            } else {
                assert(skipped[i - e.len()] == x);
            }
        }
    }
    assert forall|i: int, j: int|
        0 <= i < names.len() && 0 <= j < names.len() && i != j implies names[i] != names[j] by {
        if i < e.len() && j < e.len() {
        } else if i >= e.len() && j >= e.len() {
            assert(names[i] == skipped[i - e.len()] && names[j] == skipped[j - e.len()]);
        } else if i < e.len() {
            names_not_among_members(m, e, names[j]);
            assert(names[j] == skipped[j - e.len()]);
            assert(skipped.contains(names[j]));
            assert(e.contains(names[i]));
        } else {
            names_not_among_members(m, e, names[i]);
            assert(names[i] == skipped[i - e.len()]);
            assert(skipped.contains(names[i]));
            assert(e.contains(names[j]));
        }
    }
}

/// The non-fatal warnings of a partial install all reach the report.
pub proof fn install_keeps_partial_install_warnings(
    installed_hooks: Seq<Seq<char>>,
    hook_results: Seq<HookResultView>,
    warnings: Seq<Seq<char>>,
    loc: HooksLocationView,
    i: int,
)
    requires
        0 <= i < warnings.len(),
    ensures
        install_report(
            HookSetupOutcomeView::PartialSuccess { installed_hooks, hook_results, warnings },
            loc,
        ).warnings.contains(warnings[i]),
{
    let r = install_report(
        HookSetupOutcomeView::PartialSuccess { installed_hooks, hook_results, warnings },
        loc,
    );
    let k = r.warnings.len() - warnings.len();
    assert(r.warnings[k + i] == warnings[i]);
}

/// Unless `core.hooksPath` moves the hooks away from the default directory,
/// no hooks are orphaned there: the install report then carries no warning
/// but those of a partial install, whatever the default directory holds.
pub proof fn install_warns_of_orphans_only_when_hooks_path_moved(
    o: HookSetupOutcomeView,
    loc: HooksLocationView,
)
    requires
        !loc.custom_hooks_path,
    ensures
        install_report(o, loc).warnings == (match o {
            HookSetupOutcomeView::PartialSuccess { warnings, .. } => warnings,
            _ => Seq::<Seq<char>>::empty(),
        }),
        install_output(o, loc) == outcome_lines(o),
{
    assert(install_report(o, loc).warnings =~= (match o {
        HookSetupOutcomeView::PartialSuccess { warnings, .. } => warnings,
        _ => Seq::<Seq<char>>::empty(),
    }));
    assert(install_output(o, loc) =~= outcome_lines(o));
}

/// When hooks were installed, the output shows, in order and dimmed in the
/// success colour, the very line the installer gave for each hook (such as
/// the note that an existing hook was backed up), followed only by the
/// orphaned-hooks notice.
pub proof fn install_shows_each_installer_line(
    hook_results: Seq<HookResultView>,
    loc: HooksLocationView,
    i: int,
)
    requires
        0 <= i < hook_results.len(),
    ensures
        install_output(HookSetupOutcomeView::Installed { hook_results }, loc)[i]
            == (HumanLineView {
            style: LineStyle::SuccessDim,
            indented: true,
            text: hook_results[i].install_line,
        }),
        install_output(HookSetupOutcomeView::Installed { hook_results }, loc).len()
            == hook_results.len() + (if loc.custom_hooks_path && loc.orphaned_remove_command is Some {
            3int
        } else {
            0int
        }),
{
    let o = HookSetupOutcomeView::Installed { hook_results };
    assert(install_output(o, loc)[i] == outcome_lines(o)[i]);
}

} // verus!
