use but::hook::status::{
    hook_missing_description, hook_status_label, status, status_human_lines, status_shell_lines,
    HookFileObservation, HookMode, HookOwner, HookStatusInput, SingleHookStatus, StatusLine,
};
use but::hook::types::{managed_hook_names, HooksLocation, LineStyle};

#[test]
fn hook_missing_description_covers_all_managed_hooks() {
    assert!(hook_missing_description("pre-commit").contains("workspace guard"));
    assert!(hook_missing_description("post-checkout").contains("workspace cleanup"));
    assert!(hook_missing_description("pre-push").contains("push guard"));
    assert_eq!(
        hook_missing_description("unknown-hook"),
        "GitButler hook won't run"
    );
}

fn location(custom: bool, orphaned: Option<&str>) -> HooksLocation {
    HooksLocation {
        hooks_dir: "/repo/.hooks".to_string(),
        default_hooks_dir: "/repo/.git/hooks".to_string(),
        custom_hooks_path: custom,
        orphaned_remove_command: orphaned.map(|s| s.to_string()),
    }
}

fn file(name: &str, exists: bool, managed: bool, manager: Option<&str>) -> HookFileObservation {
    HookFileObservation {
        name: name.to_string(),
        exists,
        gitbutler_managed: managed,
        content_manager: manager.map(|s| s.to_string()),
    }
}

#[test]
fn status_all_gitbutler_hooks_is_managed_mode() {
    let input = HookStatusInput {
        location: location(false, None),
        config_enabled: true,
        config_only_manager: None,
        hook_files: managed_hook_names()
            .iter()
            .map(|n| file(n, true, true, None))
            .collect(),
    };
    let r = status(&input);
    assert_eq!(r.mode, HookMode::Managed);
    assert_eq!(r.external_manager, None);
    assert_eq!(r.hooks.len(), 3);
    assert!(r.hooks.iter().all(|h| h.owner == HookOwner::Gitbutler && h.exists));
    assert!(r.warnings.is_empty());
    assert!(r.recommendations.is_empty());
    assert_eq!(r.hooks_path, "/repo/.hooks");
}

#[test]
fn status_nothing_installed_is_unconfigured() {
    let input = HookStatusInput {
        location: location(false, None),
        config_enabled: true,
        config_only_manager: None,
        hook_files: managed_hook_names()
            .iter()
            .map(|n| file(n, false, false, None))
            .collect(),
    };
    let r = status(&input);
    assert_eq!(r.mode, HookMode::Unconfigured);
    assert!(r.hooks.iter().all(|h| h.owner == HookOwner::Missing && !h.exists));
    assert_eq!(
        r.recommendations,
        vec!["Run `but setup` to install GitButler hooks.".to_string()]
    );
}

#[test]
fn status_disabled_by_config() {
    let input = HookStatusInput {
        location: location(false, None),
        config_enabled: false,
        config_only_manager: None,
        hook_files: vec![file("pre-commit", false, false, None)],
    };
    let r = status(&input);
    assert_eq!(r.mode, HookMode::Disabled);
    assert_eq!(
        r.recommendations,
        vec!["Run `but setup --force-hooks` to re-enable GitButler-managed hooks.".to_string()]
    );
}

#[test]
fn status_external_manager_with_missing_hooks_warns_per_hook() {
    let input = HookStatusInput {
        location: location(false, None),
        config_enabled: false,
        config_only_manager: None,
        hook_files: vec![
            file("pre-commit", true, false, Some("prek")),
            file("post-checkout", false, false, None),
            file("pre-push", true, false, Some("prek")),
        ],
    };
    let r = status(&input);
    // External takes precedence over the disabled config.
    assert_eq!(r.mode, HookMode::External);
    assert_eq!(r.external_manager.as_deref(), Some("prek"));
    assert_eq!(r.hooks[1].owner, HookOwner::Missing);
    assert_eq!(
        r.warnings,
        vec![
            "post-checkout is not installed by external manager — workspace cleanup won't run — stale state may persist when switching branches"
                .to_string()
        ]
    );
    assert_eq!(
        r.recommendations,
        vec![
            "Hooks are managed by prek. Use `but hook pre-commit` etc. in your prek config."
                .to_string(),
            "Run `but setup` to see integration instructions.".to_string(),
        ]
    );
}

#[test]
fn status_config_only_manager_fills_missing_slots() {
    let input = HookStatusInput {
        location: location(false, None),
        config_enabled: true,
        config_only_manager: Some("lefthook".to_string()),
        hook_files: managed_hook_names()
            .iter()
            .map(|n| file(n, false, false, None))
            .collect(),
    };
    let r = status(&input);
    assert_eq!(r.mode, HookMode::External);
    for h in &r.hooks {
        assert_eq!(h.owner, HookOwner::External);
        assert!(!h.exists);
        assert_eq!(h.manager.as_deref(), Some("lefthook"));
    }
    assert_eq!(r.warnings.len(), 3);
    assert_eq!(
        r.warnings[0],
        "pre-commit is not installed by lefthook — workspace guard won't run — commits to the workspace branch won't be blocked"
    );
}

#[test]
fn status_config_only_manager_is_dropped_when_user_hooks_exist() {
    let input = HookStatusInput {
        location: location(false, None),
        config_enabled: true,
        config_only_manager: Some("prek".to_string()),
        hook_files: vec![
            file("pre-commit", true, false, None),
            file("post-checkout", false, false, None),
            file("pre-push", true, true, None),
        ],
    };
    let r = status(&input);
    assert_eq!(r.external_manager, None);
    assert_eq!(r.hooks[0].owner, HookOwner::User);
    assert_eq!(r.hooks[1].owner, HookOwner::Missing);
    assert_eq!(r.hooks[1].manager, None);
    assert!(!r.hooks[1].exists);
    assert_eq!(r.hooks[2].owner, HookOwner::Gitbutler);
    assert_eq!(r.mode, HookMode::Managed);
    assert_eq!(
        r.warnings,
        vec![
            "pre-commit: user hook present — workspace guard won't run — commits to the workspace branch won't be blocked"
                .to_string()
        ]
    );
}

#[test]
fn status_orphaned_hooks_warn_and_recommend_removal() {
    let input = HookStatusInput {
        location: location(true, Some("rm /repo/.git/hooks/pre-commit")),
        config_enabled: true,
        config_only_manager: None,
        hook_files: vec![file("pre-commit", true, true, None)],
    };
    let r = status(&input);
    assert!(r.custom_hooks_path);
    assert_eq!(
        r.warnings,
        vec![
            "Orphaned GitButler-managed hooks found in /repo/.git/hooks (core.hooksPath points elsewhere)"
                .to_string()
        ]
    );
    assert_eq!(
        r.recommendations,
        vec!["Remove orphaned hooks: rm /repo/.git/hooks/pre-commit".to_string()]
    );
}

#[test]
fn status_orphans_need_a_custom_hooks_path() {
    let input = HookStatusInput {
        location: location(false, Some("rm x")),
        config_enabled: true,
        config_only_manager: None,
        hook_files: vec![file("pre-commit", true, true, None)],
    };
    let r = status(&input);
    assert!(r.warnings.is_empty());
    assert!(r.recommendations.is_empty());
}

#[test]
fn owner_display_labels() {
    assert_eq!(HookOwner::Gitbutler.display(None), "GitButler-managed");
    assert_eq!(HookOwner::External.display(Some("prek")), "external (prek)");
    assert_eq!(HookOwner::External.display(None), "external (unknown)");
    assert_eq!(HookOwner::User.display(Some("x")), "user hook");
    assert_eq!(HookOwner::Missing.display(None), "not installed");
    assert_eq!(HookMode::Managed.label(), "GitButler-managed");
    assert_eq!(HookMode::External.label(), "external hook manager");
    assert_eq!(HookMode::Disabled.label(), "disabled");
    assert_eq!(HookMode::Unconfigured.label(), "unconfigured");
}

#[test]
fn status_labels_per_owner() {
    let h = |exists, owner, manager: Option<&str>| SingleHookStatus {
        name: "pre-commit".to_string(),
        exists,
        owner,
        manager: manager.map(|s| s.to_string()),
    };
    let l = hook_status_label(&h(true, HookOwner::Gitbutler, None));
    assert_eq!((l.style, l.text.as_str()), (LineStyle::Success, "✓ GitButler-managed"));
    let l = hook_status_label(&h(true, HookOwner::External, Some("prek")));
    assert_eq!((l.style, l.text.as_str()), (LineStyle::Info, "● external (prek)"));
    let l = hook_status_label(&h(true, HookOwner::User, None));
    assert_eq!((l.style, l.text.as_str()), (LineStyle::Attention, "○ user hook"));
    let l = hook_status_label(&h(false, HookOwner::External, Some("prek")));
    assert_eq!((l.style, l.text.as_str()), (LineStyle::Hint, "✗ not configured (prek)"));
    let l = hook_status_label(&h(false, HookOwner::Missing, None));
    assert_eq!((l.style, l.text.as_str()), (LineStyle::Hint, "✗ not installed"));
}

#[test]
fn status_shell_output_escapes_values() {
    let input = HookStatusInput {
        location: HooksLocation {
            hooks_dir: "/it's/hooks".to_string(),
            default_hooks_dir: "/it's/.git/hooks".to_string(),
            custom_hooks_path: true,
            orphaned_remove_command: None,
        },
        config_enabled: true,
        config_only_manager: None,
        hook_files: vec![
            file("pre-commit", true, false, Some("o'manager")),
            file("post-checkout", true, true, None),
        ],
    };
    let r = status(&input);
    let lines = status_shell_lines(&r);
    assert_eq!(
        lines,
        vec![
            r"hooks_path='/it'\''s/hooks'".to_string(),
            "custom_hooks_path=true".to_string(),
            "config_enabled=true".to_string(),
            "mode='external hook manager'".to_string(),
            r"external_manager='o'\''manager'".to_string(),
            r"hook_pre_commit='external (o'\''manager)'".to_string(),
            "hook_post_checkout='GitButler-managed'".to_string(),
        ]
    );
}

fn row_of(line: &StatusLine) -> (String, LineStyle, String) {
    match line {
        StatusLine::Row { label, value_style, value } => (label.clone(), *value_style, value.clone()),
        StatusLine::Text(l) => panic!("expected a row, got {l:?}"),
    }
}

fn text_of(line: &StatusLine) -> (LineStyle, bool, String) {
    match line {
        StatusLine::Text(l) => (l.style, l.indented, l.text.clone()),
        StatusLine::Row { label, .. } => panic!("expected a text line, got row {label}"),
    }
}

#[test]
fn status_human_lines_managed_mode_has_no_closing_blank() {
    let input = HookStatusInput {
        location: location(false, None),
        config_enabled: true,
        config_only_manager: None,
        hook_files: managed_hook_names()
            .iter()
            .map(|n| file(n, true, true, None))
            .collect(),
    };
    let lines = status_human_lines(&status(&input));
    // blank, title, blank, 3 config rows, blank, 3 hook rows, blank.
    assert_eq!(lines.len(), 11);
    assert_eq!(text_of(&lines[0]), (LineStyle::Blank, false, String::new()));
    assert_eq!(text_of(&lines[1]), (LineStyle::InfoBold, false, "Hook status".to_string()));
    assert_eq!(
        row_of(&lines[3]),
        ("Hooks path:         ".to_string(), LineStyle::Plain, "/repo/.hooks".to_string())
    );
    assert_eq!(
        row_of(&lines[4]),
        ("Config:             ".to_string(), LineStyle::Plain, "gitbutler.installHooks = true".to_string())
    );
    assert_eq!(
        row_of(&lines[5]),
        ("Mode:               ".to_string(), LineStyle::Plain, "GitButler-managed".to_string())
    );
    assert_eq!(text_of(&lines[6]).0, LineStyle::Blank);
    assert_eq!(
        row_of(&lines[7]),
        ("pre-commit:         ".to_string(), LineStyle::Success, "✓ GitButler-managed".to_string())
    );
    assert_eq!(row_of(&lines[9]).0, "pre-push:           ");
    assert_eq!(text_of(&lines[10]).0, LineStyle::Blank);
    assert!(lines.iter().all(|l| match l {
        StatusLine::Row { label, .. } => label.chars().count() == 20,
        StatusLine::Text(_) => true,
    }));
}

#[test]
fn status_human_lines_show_hooks_path_note_manager_and_advice() {
    let input = HookStatusInput {
        location: location(true, Some("rm -f /repo/.git/hooks/pre-commit")),
        config_enabled: false,
        config_only_manager: None,
        hook_files: vec![
            file("pre-commit", true, false, Some("prek")),
            file("post-checkout", false, false, None),
            file("pre-push", true, false, Some("prek")),
        ],
    };
    let result = status(&input);
    let lines = status_human_lines(&result);
    assert_eq!(
        row_of(&lines[4]),
        ("                    ".to_string(), LineStyle::Hint, "(set via core.hooksPath)".to_string())
    );
    assert_eq!(row_of(&lines[5]).2, "gitbutler.installHooks = false");
    assert_eq!(row_of(&lines[6]).2, "external hook manager");
    assert_eq!(
        row_of(&lines[7]),
        ("Hook manager:       ".to_string(), LineStyle::Plain, "prek".to_string())
    );
    let n_advice = result.warnings.len() + result.recommendations.len();
    // 9 header lines, 3 hook rows, a blank, the advice and a closing blank.
    assert_eq!(lines.len(), 9 + 3 + 1 + n_advice + 1);
    let first_warning = text_of(&lines[13]);
    assert_eq!(first_warning.0, LineStyle::Attention);
    assert!(first_warning.1);
    assert_eq!(first_warning.2, format!("⚠ {}", result.warnings[0]));
    let last_rec = text_of(&lines[lines.len() - 2]);
    assert_eq!(last_rec.0, LineStyle::Hint);
    assert_eq!(
        last_rec.2,
        "→ Remove orphaned hooks: rm -f /repo/.git/hooks/pre-commit"
    );
    assert_eq!(text_of(&lines[lines.len() - 1]).0, LineStyle::Blank);
}
