//! `but hook uninstall`: turning the outcome of hook removal into a report and
//! human-readable output.

use vstd::prelude::*;
use vstd::string::*;

use crate::hook::types::{
    blank, blank_line, cat2, cat3, clone_opt, clone_strings, decorated_lines, indented,
    indented_line, push_decorated, HookUninstallReport, HookUninstallReportView, HumanLine,
    HumanLineView, LineStyle,
};

verus! {

/// What removing the managed hooks did.
#[derive(Debug)]
pub struct UninstallSummary {
    /// Names of GitButler-managed hooks removed.
    pub removed: Vec<String>,
    /// Names of hooks whose backed-up user hook was restored.
    pub restored: Vec<String>,
    /// Non-fatal warnings.
    pub warnings: Vec<String>,
}

/// The model of an [`UninstallSummary`].
pub struct UninstallSummaryView {
    pub removed: Seq<Seq<char>>,
    pub restored: Seq<Seq<char>>,
    pub warnings: Seq<Seq<char>>,
}

impl DeepView for UninstallSummary {
    type V = UninstallSummaryView;

    open spec fn deep_view(&self) -> UninstallSummaryView {
        UninstallSummaryView {
            removed: self.removed.deep_view(),
            restored: self.restored.deep_view(),
            warnings: self.warnings.deep_view(),
        }
    }
}

/// What `but hook uninstall` found in an opened repository: the result of
/// removing the managed hooks (the error message when it failed), and the
/// external hook manager then present in the hooks directory, if any.
#[derive(Debug)]
pub struct UninstallObservation {
    pub outcome: Result<UninstallSummary, String>,
    pub external_manager: Option<String>,
}

/// The model of an [`UninstallObservation`].
pub struct UninstallObservationView {
    pub outcome: Result<UninstallSummaryView, Seq<char>>,
    pub external_manager: Option<Seq<char>>,
}

impl DeepView for UninstallObservation {
    type V = UninstallObservationView;

    open spec fn deep_view(&self) -> UninstallObservationView {
        UninstallObservationView {
            outcome: match &self.outcome {
                Ok(s) => Ok(s.deep_view()),
                Err(e) => Err(e@),
            },
            external_manager: self.external_manager.deep_view(),
        }
    }
}

/// The model of an optional observation.
pub open spec fn observation_view(o: Option<UninstallObservation>) -> Option<
    UninstallObservationView,
> {
    match o {
        Some(obs) => Some(obs.deep_view()),
        None => None,
    }
}

/// The warning recorded when removing the hooks failed.
pub open spec fn uninstall_failure(error: Seq<char>) -> Seq<char> {
    "Failed to uninstall Git hooks: "@ + error
}

/// The report of `but hook uninstall`.  A repository that could not be
/// opened (`None`) yields an empty report.
pub open spec fn uninstall_report(obs: Option<UninstallObservationView>) -> HookUninstallReportView {
    match obs {
        None => HookUninstallReportView {
            removed: Seq::empty(),
            restored: Seq::empty(),
            warnings: Seq::empty(),
            external_manager: None,
        },
        Some(o) => match o.outcome {
            Ok(s) => HookUninstallReportView {
                removed: s.removed,
                restored: s.restored,
                warnings: s.warnings,
                external_manager: o.external_manager,
            },
            Err(e) => HookUninstallReportView {
                removed: Seq::empty(),
                restored: Seq::empty(),
                warnings: seq![uninstall_failure(e)],
                external_manager: None,
            },
        },
    }
}

/// Build the report of `but hook uninstall` from what removing the managed
/// hooks did.
pub fn uninstall(observation: Option<UninstallObservation>) -> (report: HookUninstallReport)
    ensures
        report.deep_view() == uninstall_report(observation_view(observation)),
{
    let mut report = HookUninstallReport::default();
    match observation {
        None => {},
        Some(obs) => match obs.outcome {
            Ok(summary) => {
                report.removed = summary.removed;
                report.restored = summary.restored;
                report.warnings = summary.warnings;
                report.external_manager = obs.external_manager;
            },
            Err(e) => {
                report.warnings.push(cat2("Failed to uninstall Git hooks: ", e.as_str()));
            },
        },
    }
    assert(report.deep_view().removed =~= uninstall_report(observation_view(observation)).removed);
    assert(report.deep_view().restored =~= uninstall_report(
        observation_view(observation),
    ).restored);
    assert(report.deep_view().warnings =~= uninstall_report(
        observation_view(observation),
    ).warnings);
    report
}

/// The lines naming an external manager that now owns the hooks.
pub open spec fn external_manager_lines(manager: Option<Seq<char>>) -> Seq<HumanLineView> {
    match manager {
        Some(m) => seq![
            indented_line(
                LineStyle::Hint,
                "Hooks are managed by "@ + m + " — leaving them untouched."@,
            ),
            indented_line(
                LineStyle::Hint,
                "If you wired 'but hook' commands into "@ + m
                    + ", remove those entries to fully disable GitButler's workspace guards."@,
            ),
            blank_line(),
        ],
        None => Seq::empty(),
    }
}

/// The human-readable output of `but hook uninstall`.
pub open spec fn uninstall_output(obs: Option<UninstallObservationView>) -> Seq<HumanLineView> {
    match obs {
        None => Seq::empty(),
        Some(o) => match o.outcome {
            Ok(s) => decorated_lines(LineStyle::Success, "✓ Removed "@, s.removed, ""@)
                + decorated_lines(
                LineStyle::Success,
                "✓ Restored "@,
                s.restored,
                " (your original hook is back)"@,
            ) + decorated_lines(LineStyle::Attention, "Warning: "@, s.warnings, ""@) + (if s.removed.len()
                > 0 || s.restored.len() > 0 || s.warnings.len() > 0 {
                seq![blank_line()]
            } else {
                Seq::empty()
            }) + external_manager_lines(o.external_manager),
            Err(e) => seq![
                indented_line(LineStyle::Attention, "Warning: "@ + uninstall_failure(e)),
            ],
        },
    }
}

/// The human-readable output of `but hook uninstall`.
pub fn uninstall_messages(observation: &Option<UninstallObservation>) -> (lines: Vec<HumanLine>)
    ensures
        lines.deep_view() == uninstall_output(observation_view(*observation)),
{
    let mut lines: Vec<HumanLine> = Vec::new();
    match observation {
        None => {},
        Some(obs) => match &obs.outcome {
            Ok(summary) => {
                push_decorated(&mut lines, LineStyle::Success, "✓ Removed ", &summary.removed, "");
                push_decorated(
                    &mut lines,
                    LineStyle::Success,
                    "✓ Restored ",
                    &summary.restored,
                    " (your original hook is back)",
                );
                push_decorated(&mut lines, LineStyle::Attention, "Warning: ", &summary.warnings, "");
                let ghost g1 = lines.deep_view();
                let any = summary.removed.len() > 0 || summary.restored.len() > 0
                    || summary.warnings.len() > 0;
                if any {
                    lines.push(blank());
                }
                let ghost g2 = lines.deep_view();
                assert(g2 =~= g1 + (if any {
                    seq![blank_line()]
                } else {
                    Seq::<HumanLineView>::empty()
                }));
                match &obs.external_manager {
                    Some(m) => {
                        lines.push(
                            indented(
                                LineStyle::Hint,
                                cat3("Hooks are managed by ", m.as_str(), " — leaving them untouched."),
                            ),
                        );
                        lines.push(
                            indented(
                                LineStyle::Hint,
                                cat3(
                                    "If you wired 'but hook' commands into ",
                                    m.as_str(),
                                    ", remove those entries to fully disable GitButler's workspace guards.",
                                ),
                            ),
                        );
                        lines.push(blank());
                    },
                    None => {},
                }
                assert(lines.deep_view() =~= g2 + external_manager_lines(
                    obs.external_manager.deep_view(),
                ));
                assert(lines.deep_view() =~= uninstall_output(Some(obs.deep_view())));
            },
            Err(e) => {
                let text = cat3("Warning: ", "Failed to uninstall Git hooks: ", e.as_str());
                assert(text@ =~= "Warning: "@ + uninstall_failure(e@));
                lines.push(indented(LineStyle::Attention, text));
                assert(lines.deep_view() =~= uninstall_output(Some(obs.deep_view())));
            },
        },
    }
    assert(lines.deep_view() =~= uninstall_output(observation_view(*observation)));
    lines
}

/// A successful removal is reported as it happened: the hooks removed and
/// restored, every non-fatal warning of the removal, and the external
/// manager that now owns the hooks.
pub proof fn uninstall_reports_what_the_removal_did(o: UninstallObservationView)
    requires
        o.outcome is Ok,
    ensures
        uninstall_report(Some(o)).removed == o.outcome->Ok_0.removed,
        uninstall_report(Some(o)).restored == o.outcome->Ok_0.restored,
        uninstall_report(Some(o)).warnings == o.outcome->Ok_0.warnings,
        uninstall_report(Some(o)).external_manager == o.external_manager,
{
}

/// Every warning that `but hook uninstall` prints is also in its report: each
/// line in the attention style reads `Warning: ` followed by one of the
/// report's warnings.
pub proof fn uninstall_reports_every_warning_it_shows(
    obs: Option<UninstallObservationView>,
    i: int,
)
    requires
        0 <= i < uninstall_output(obs).len(),
        uninstall_output(obs)[i].style == LineStyle::Attention,
    ensures
        exists|k: int|
            0 <= k < uninstall_report(obs).warnings.len() && uninstall_output(obs)[i].text
                == "Warning: "@ + #[trigger] uninstall_report(obs).warnings[k],
{
    reveal_strlit("");
    let out = uninstall_output(obs);
    let r = uninstall_report(obs);
    match obs {
        None => {},
        Some(o) => match o.outcome {
            Ok(s) => {
                let a = decorated_lines(LineStyle::Success, "✓ Removed "@, s.removed, ""@);
                let b = decorated_lines(
                    LineStyle::Success,
                    "✓ Restored "@,
                    s.restored,
                    " (your original hook is back)"@,
                );
                let c = decorated_lines(LineStyle::Attention, "Warning: "@, s.warnings, ""@);
                let d: Seq<HumanLineView> = if s.removed.len() > 0 || s.restored.len() > 0
                    || s.warnings.len() > 0 {
                    seq![blank_line()]
                } else {
                    Seq::empty()
                };
                let e = external_manager_lines(o.external_manager);
                assert(out =~= a + b + c + d + e);
                if i < a.len() {
                    assert(out[i] == a[i]);
                } else if i < a.len() + b.len() {
                    assert(out[i] == b[i - a.len()]);
                } else if i < a.len() + b.len() + c.len() {
                    let k = i - a.len() - b.len();
                    assert(out[i] == c[k]);
                    assert(""@ =~= Seq::<char>::empty());
                    assert("Warning: "@ + s.warnings[k] + ""@ =~= "Warning: "@ + s.warnings[k]);
                    assert(r.warnings[k] == s.warnings[k]);
                } else if i < a.len() + b.len() + c.len() + d.len() {
                    assert(out[i] == d[i - a.len() - b.len() - c.len()]);
                } else {
                    assert(out[i] == e[i - a.len() - b.len() - c.len() - d.len()]);
                }
            },
            Err(e) => {
                assert(r.warnings[0] == uninstall_failure(e));
            },
        },
    }
}

} // verus!
