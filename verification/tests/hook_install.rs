use but::hook::install::{
    already_configured_hook_info, hook_results_to_hook_info, install, install_messages,
    HookResult, HookSetupOutcome,
};
use but::hook::types::{HookStatus, HooksLocation, LineStyle, FORCE_HOOKS_RECOVERY_HINT};
use but::hook::uninstall::{uninstall, uninstall_messages, UninstallObservation, UninstallSummary};

fn location(orphaned: bool) -> HooksLocation {
    HooksLocation {
        hooks_dir: "/r/.husky".to_string(),
        default_hooks_dir: "/r/.git/hooks".to_string(),
        custom_hooks_path: orphaned,
        orphaned_remove_command: if orphaned {
            Some("rm -f /r/.git/hooks/pre-commit".to_string())
        } else {
            None
        },
    }
}

fn result(name: &str, backup: Option<&str>) -> HookResult {
    HookResult {
        name: name.to_string(),
        backup_path: backup.map(|s| s.to_string()),
        install_line: format!("✓ Installed {name}"),
    }
}

fn strings(v: &[&str]) -> Vec<String> {
    v.iter().map(|s| s.to_string()).collect()
}

fn all_skipped(report: &but::hook::types::HookInstallReport) -> bool {
    let names: Vec<&str> = report.hooks.iter().map(|i| i.name.as_str()).collect();
    names == vec!["pre-commit", "post-checkout", "pre-push"]
        && report.hooks.iter().all(|h| matches!(h.status, HookStatus::Skipped))
}

#[test]
fn hook_results_keep_names_and_backups() {
    let infos = hook_results_to_hook_info(&[
        result("pre-commit", Some("/r/.git/hooks/pre-commit.gitbutler-backup")),
        result("pre-push", None),
    ]);
    assert_eq!(infos.len(), 2);
    assert_eq!(infos[0].name, "pre-commit");
    match &infos[0].status {
        HookStatus::Installed { backup_path } => assert_eq!(
            backup_path.as_deref(),
            Some("/r/.git/hooks/pre-commit.gitbutler-backup")
        ),
        other => panic!("unexpected {other:?}"),
    }
    match &infos[1].status {
        HookStatus::Installed { backup_path } => assert_eq!(*backup_path, None),
        other => panic!("unexpected {other:?}"),
    }
}

#[test]
fn already_configured_lists_every_managed_hook() {
    let infos = already_configured_hook_info();
    let names: Vec<&str> = infos.iter().map(|i| i.name.as_str()).collect();
    assert_eq!(names, vec!["pre-commit", "post-checkout", "pre-push"]);
    assert!(infos
        .iter()
        .all(|i| matches!(i.status, HookStatus::AlreadyConfigured)));
}

#[test]
fn install_installed_reports_hooks() {
    let outcome = HookSetupOutcome::Installed {
        hook_results: vec![result("pre-commit", None), result("post-checkout", None)],
    };
    let report = install(&outcome, &location(false));
    assert!(report.hooks_installed);
    assert!(report.hook_manager.is_none());
    let names: Vec<&str> = report.hooks.iter().map(|i| i.name.as_str()).collect();
    assert_eq!(names, vec!["pre-commit", "post-checkout", "pre-push"]);
    assert!(matches!(report.hooks[0].status, HookStatus::Installed { .. }));
    assert!(matches!(report.hooks[1].status, HookStatus::Installed { .. }));
    assert!(matches!(report.hooks[2].status, HookStatus::Skipped));
    assert!(report.warnings.is_empty());
    let lines = install_messages(&outcome, &location(false));
    assert_eq!(lines.len(), 2);
    assert_eq!(lines[0].style, LineStyle::SuccessDim);
    assert_eq!(lines[0].text, "✓ Installed pre-commit");
}

#[test]
fn install_partial_success_fills_in_skipped_hooks() {
    let outcome = HookSetupOutcome::PartialSuccess {
        installed_hooks: strings(&["post-checkout"]),
        hook_results: vec![result("post-checkout", None)],
        warnings: strings(&["pre-commit exists"]),
    };
    let report = install(&outcome, &location(false));
    assert!(report.hooks_installed);
    let names: Vec<&str> = report.hooks.iter().map(|i| i.name.as_str()).collect();
    assert_eq!(names, vec!["post-checkout", "pre-commit", "pre-push"]);
    assert!(matches!(report.hooks[0].status, HookStatus::Installed { .. }));
    assert!(matches!(report.hooks[1].status, HookStatus::Skipped));
    assert!(matches!(report.hooks[2].status, HookStatus::Skipped));
    // The installer's warnings are shown and recorded in the report.
    assert_eq!(report.warnings, strings(&["pre-commit exists"]));
    let lines = install_messages(&outcome, &location(false));
    let texts: Vec<&str> = lines.iter().map(|l| l.text.as_str()).collect();
    assert_eq!(texts, vec!["✓ Installed post-checkout", "Warning: pre-commit exists"]);
}

#[test]
fn install_already_installed() {
    let report = install(&HookSetupOutcome::AlreadyInstalled, &location(false));
    assert!(report.hooks_installed);
    assert_eq!(report.hooks.len(), 3);
    let lines = install_messages(&HookSetupOutcome::AlreadyInstalled, &location(false));
    assert_eq!(lines[0].text, "✓ pre-commit (already managed)");
    assert_eq!(lines[2].text, "✓ pre-push (already managed)");
}

#[test]
fn install_disabled_by_config_shows_recovery_hint() {
    let report = install(&HookSetupOutcome::DisabledByConfig, &location(true));
    assert!(!report.hooks_installed);
    assert!(all_skipped(&report));
    // No orphan sweep when installation was not attempted.
    assert!(report.warnings.is_empty());
    let lines = install_messages(&HookSetupOutcome::DisabledByConfig, &location(true));
    assert_eq!(lines.len(), 2);
    assert_eq!(lines[1].text, FORCE_HOOKS_RECOVERY_HINT);
}

#[test]
fn install_external_manager_is_respected() {
    let outcome = HookSetupOutcome::ExternalManagerDetected {
        manager_name: "prek".to_string(),
        instructions: "Add to prek.toml:\r\n\n  but hook pre-commit\n".to_string(),
    };
    let report = install(&outcome, &location(true));
    assert!(!report.hooks_installed);
    let manager = report.hook_manager.as_ref().expect("manager");
    assert_eq!(manager.name, "prek");
    assert!(!manager.hooks_installed);
    assert!(all_skipped(&report));
    assert!(report.warnings.is_empty());
    let lines = install_messages(&outcome, &location(true));
    let texts: Vec<(LineStyle, &str)> = lines.iter().map(|l| (l.style, l.text.as_str())).collect();
    assert_eq!(
        texts,
        vec![
            (LineStyle::Blank, ""),
            (LineStyle::Info, "Detected prek managing your git hooks."),
            (LineStyle::Hint, "GitButler will not overwrite hooks owned by your hook manager."),
            (LineStyle::Hint, "This repository is now configured for externally-managed hooks."),
            (LineStyle::Blank, ""),
            (LineStyle::Attention, "To integrate GitButler's workspace guard with your hook manager:"),
            (LineStyle::Hint, "Add to prek.toml:"),
            (LineStyle::Blank, ""),
            (LineStyle::Hint, "  but hook pre-commit"),
            (LineStyle::Blank, ""),
            (LineStyle::Hint, FORCE_HOOKS_RECOVERY_HINT),
            (LineStyle::Blank, ""),
        ]
    );
}

#[test]
fn install_skipped_hooks_are_listed() {
    let outcome = HookSetupOutcome::HookSkipped {
        hook_names: strings(&["pre-commit", "pre-push"]),
    };
    let report = install(&outcome, &location(false));
    assert!(!report.hooks_installed);
    let names: Vec<&str> = report.hooks.iter().map(|i| i.name.as_str()).collect();
    assert_eq!(names, vec!["pre-commit", "pre-push", "post-checkout"]);
    assert!(report.hooks.iter().all(|h| matches!(h.status, HookStatus::Skipped)));
    let lines = install_messages(&outcome, &location(false));
    assert_eq!(
        lines[0].text,
        "Warning: Skipped pre-commit, pre-push — hook(s) exist and are not GitButler-managed. Use --force-hooks to override."
    );
}

#[test]
fn install_failure_is_a_warning_line_only() {
    let outcome = HookSetupOutcome::Failed {
        error: "permission denied".to_string(),
    };
    let report = install(&outcome, &location(true));
    assert!(!report.hooks_installed);
    assert!(all_skipped(&report));
    assert!(report.warnings.is_empty());
    let lines = install_messages(&outcome, &location(true));
    assert_eq!(lines.len(), 1);
    assert_eq!(
        lines[0].text,
        "Warning: Failed to install GitButler managed hooks: permission denied"
    );
}

#[test]
fn install_orphan_warning_comes_before_partial_install_warnings() {
    let outcome = HookSetupOutcome::PartialSuccess {
        installed_hooks: strings(&["pre-push"]),
        hook_results: vec![result("pre-push", None)],
        warnings: strings(&["pre-commit exists", "post-checkout exists"]),
    };
    let report = install(&outcome, &location(true));
    assert_eq!(
        report.warnings,
        strings(&[
            "GitButler-managed hooks found in old hooks directory (/r/.git/hooks).",
            "pre-commit exists",
            "post-checkout exists",
        ])
    );
    let names: Vec<&str> = report.hooks.iter().map(|i| i.name.as_str()).collect();
    assert_eq!(names, vec!["pre-push", "pre-commit", "post-checkout"]);
}

#[test]
fn install_warns_about_orphaned_hooks() {
    let report = install(&HookSetupOutcome::AlreadyInstalled, &location(true));
    assert_eq!(
        report.warnings,
        strings(&["GitButler-managed hooks found in old hooks directory (/r/.git/hooks)."])
    );
    let lines = install_messages(&HookSetupOutcome::AlreadyInstalled, &location(true));
    let tail: Vec<&str> = lines[3..].iter().map(|l| l.text.as_str()).collect();
    assert_eq!(
        tail,
        vec![
            "Warning: GitButler-managed hooks found in old hooks directory (/r/.git/hooks).",
            "core.hooksPath is now set to /r/.husky, so those hooks are orphaned.",
            "You can safely remove them with: rm -f /r/.git/hooks/pre-commit",
        ]
    );
}

#[test]
fn uninstall_emits_json_report() {
    // After `hook install`, uninstall removes the three managed hooks and finds
    // no external manager.
    let obs = UninstallObservation {
        outcome: Ok(UninstallSummary {
            removed: strings(&["pre-commit", "post-checkout", "pre-push"]),
            restored: vec![],
            warnings: vec![],
        }),
        external_manager: None,
    };
    let report = uninstall(Some(obs));
    assert!(report.external_manager.is_none(), "externalManager should be null when none detected");
    assert_eq!(
        report.removed.len(),
        3,
        "expected 3 removed hooks (pre-commit, post-checkout, pre-push)"
    );
    assert!(report.restored.is_empty());
    assert!(report.warnings.is_empty());
}

#[test]
fn uninstall_without_repository_is_empty() {
    let report = uninstall(None);
    assert!(report.removed.is_empty());
    assert!(report.restored.is_empty());
    assert!(report.warnings.is_empty());
    assert!(report.external_manager.is_none());
    assert!(uninstall_messages(&None).is_empty());
}

#[test]
fn uninstall_reports_restores_and_external_manager() {
    let obs = Some(UninstallObservation {
        outcome: Ok(UninstallSummary {
            removed: strings(&["pre-push"]),
            restored: strings(&["pre-commit"]),
            warnings: strings(&["could not read post-checkout"]),
        }),
        external_manager: Some("lefthook".to_string()),
    });
    let lines = uninstall_messages(&obs);
    let texts: Vec<(LineStyle, &str)> = lines.iter().map(|l| (l.style, l.text.as_str())).collect();
    assert_eq!(
        texts,
        vec![
            (LineStyle::Success, "✓ Removed pre-push"),
            (LineStyle::Success, "✓ Restored pre-commit (your original hook is back)"),
            (LineStyle::Attention, "Warning: could not read post-checkout"),
            (LineStyle::Blank, ""),
            (LineStyle::Hint, "Hooks are managed by lefthook — leaving them untouched."),
            (LineStyle::Hint, "If you wired 'but hook' commands into lefthook, remove those entries to fully disable GitButler's workspace guards."),
            (LineStyle::Blank, ""),
        ]
    );
    let report = uninstall(obs);
    assert_eq!(report.external_manager.as_deref(), Some("lefthook"));
    assert_eq!(report.restored, strings(&["pre-commit"]));
}

#[test]
fn uninstall_failure_becomes_a_warning() {
    let obs = Some(UninstallObservation {
        outcome: Err("hooks dir unreadable".to_string()),
        external_manager: Some("prek".to_string()),
    });
    let lines = uninstall_messages(&obs);
    assert_eq!(lines.len(), 1);
    assert_eq!(
        lines[0].text,
        "Warning: Failed to uninstall Git hooks: hooks dir unreadable"
    );
    let report = uninstall(obs);
    assert_eq!(
        report.warnings,
        strings(&["Failed to uninstall Git hooks: hooks dir unreadable"])
    );
    assert!(report.removed.is_empty());
    assert!(report.external_manager.is_none());
}

#[test]
fn uninstall_without_changes_prints_nothing() {
    let obs = Some(UninstallObservation {
        outcome: Ok(UninstallSummary { removed: vec![], restored: vec![], warnings: vec![] }),
        external_manager: None,
    });
    assert!(uninstall_messages(&obs).is_empty());
}
