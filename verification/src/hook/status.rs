//! `but hook status`: hook ownership and integration state of a repository.

use vstd::prelude::*;
use vstd::string::*;

use crate::hook::types::{
    blank, blank_line, cat2, cat3, clone_opt, has_orphaned_hooks, indented, indented_line,
    managed_hooks, plain, plain_line, HumanLine, HumanLineView, HooksLocation, HooksLocationView,
    LineStyle,
};
use crate::text::{
    bool_text, bool_to_string, dashes_to_underscores, replace_dashes, shell_quoted,
    shell_single_quote, str_eq,
};

verus! {

/// The integration mode for GitButler hooks in this repository.
#[derive(Debug, Clone, Copy, PartialEq, Eq, Structural)]
pub enum HookMode {
    /// GitButler manages hooks directly in the hooks directory.
    Managed,
    /// An external hook manager (e.g. prek) owns the hook files.
    External,
    /// Hook installation is disabled via `gitbutler.installHooks = false`.
    Disabled,
    /// No hooks are installed and no configuration has been set.
    Unconfigured,
}

/// How a [`HookMode`] is printed.
pub open spec fn mode_text(mode: HookMode) -> Seq<char> {
    match mode {
        HookMode::Managed => "GitButler-managed"@,
        HookMode::External => "external hook manager"@,
        HookMode::Disabled => "disabled"@,
        HookMode::Unconfigured => "unconfigured"@,
    }
}

impl HookMode {
    /// The human-readable label of the mode.
    pub fn label(&self) -> (s: &'static str)
        ensures
            s@ == mode_text(*self),
    {
        match self {
            HookMode::Managed => "GitButler-managed",
            HookMode::External => "external hook manager",
            HookMode::Disabled => "disabled",
            HookMode::Unconfigured => "unconfigured",
        }
    }
}

/// Ownership classification for a single hook file.
#[derive(Debug, Clone, Copy, PartialEq, Eq, Structural)]
pub enum HookOwner {
    /// The hook file is managed by GitButler (contains the V1 signature).
    Gitbutler,
    /// The hook file is owned by a known external hook manager.
    External,
    /// The hook file exists but is not recognized as GitButler or a known manager.
    User,
    /// No hook file exists at this path.
    Missing,
}

/// `o`'s value, or `default` when it is absent.
pub open spec fn or_default(o: Option<Seq<char>>, default: Seq<char>) -> Seq<char> {
    match o {
        Some(s) => s,
        None => default,
    }
}

/// The human-readable label of an owner, optionally annotated with the manager name.
pub open spec fn owner_text(owner: HookOwner, manager: Option<Seq<char>>) -> Seq<char> {
    match owner {
        HookOwner::Gitbutler => "GitButler-managed"@,
        HookOwner::External => "external ("@ + or_default(manager, "unknown"@) + ")"@,
        HookOwner::User => "user hook"@,
        HookOwner::Missing => "not installed"@,
    }
}

impl HookOwner {
    /// Human-readable label, optionally annotated with the manager name.
    pub fn display(&self, manager: Option<&str>) -> (s: String)
        ensures
            s@ == owner_text(*self, manager.deep_view()),
    {
        match self {
            HookOwner::Gitbutler => String::from_str("GitButler-managed"),
            HookOwner::External => {
                let name = match manager {
                    Some(m) => m,
                    None => "unknown",
                };
                cat3("external (", name, ")")
            },
            HookOwner::User => String::from_str("user hook"),
            HookOwner::Missing => String::from_str("not installed"),
        }
    }
}

/// The consequence of a GitButler hook being missing or displaced.
pub open spec fn missing_description(hook_name: Seq<char>) -> Seq<char> {
    if hook_name == "pre-commit"@ {
        "workspace guard won't run — commits to the workspace branch won't be blocked"@
    } else if hook_name == "post-checkout"@ {
        "workspace cleanup won't run — stale state may persist when switching branches"@
    } else if hook_name == "pre-push"@ {
        "push guard won't run — pushes from the workspace branch won't be blocked"@
    } else {
        "GitButler hook won't run"@
    }
}

/// Human-readable description of the consequence when a GitButler hook is missing or displaced.
pub fn hook_missing_description(hook_name: &str) -> (d: &'static str)
    ensures
        d@ == missing_description(hook_name@),
{
    if str_eq(hook_name, "pre-commit") {
        "workspace guard won't run — commits to the workspace branch won't be blocked"
    } else if str_eq(hook_name, "post-checkout") {
        "workspace cleanup won't run — stale state may persist when switching branches"
    } else if str_eq(hook_name, "pre-push") {
        "push guard won't run — pushes from the workspace branch won't be blocked"
    } else {
        "GitButler hook won't run"
    }
}

/// Each managed hook has a description of its own, distinct from the generic one.
pub proof fn every_managed_hook_has_a_specific_description(i: int)
    requires
        0 <= i < managed_hooks().len(),
    ensures
        missing_description(managed_hooks()[i]) != missing_description("unknown-hook"@),
{
    reveal_strlit("pre-commit");
    reveal_strlit("post-checkout");
    reveal_strlit("pre-push");
    reveal_strlit("unknown-hook");
    reveal_strlit("GitButler hook won't run");
    reveal_strlit("workspace guard won't run — commits to the workspace branch won't be blocked");
    reveal_strlit("workspace cleanup won't run — stale state may persist when switching branches");
    reveal_strlit("push guard won't run — pushes from the workspace branch won't be blocked");
    assert("unknown-hook"@[0] != "pre-commit"@[0]);
    assert("unknown-hook"@[0] != "post-checkout"@[0]);
    assert("unknown-hook"@[0] != "pre-push"@[0]);
    assert("pre-commit"@.len() != "post-checkout"@.len());
    assert("pre-push"@.len() != "post-checkout"@.len());
    assert("pre-push"@[4] != "pre-commit"@[4]);
    let d = missing_description(managed_hooks()[i]);
    assert(d.len() != "GitButler hook won't run"@.len());
}

/// What the repository shows for one managed hook.
#[derive(Debug)]
pub struct HookFileObservation {
    /// The hook name (e.g. "pre-commit").
    pub name: String,
    /// Whether the hook file exists in the hooks directory.
    pub exists: bool,
    /// Whether the hook file carries GitButler's managed-hook signature.
    pub gitbutler_managed: bool,
    /// The external hook manager recognised from the hook file's content, if any.
    pub content_manager: Option<String>,
}

/// The model of a [`HookFileObservation`].
pub struct HookFileObservationView {
    pub name: Seq<char>,
    pub exists: bool,
    pub gitbutler_managed: bool,
    pub content_manager: Option<Seq<char>>,
}

impl DeepView for HookFileObservation {
    type V = HookFileObservationView;

    open spec fn deep_view(&self) -> HookFileObservationView {
        HookFileObservationView {
            name: self.name@,
            exists: self.exists,
            gitbutler_managed: self.gitbutler_managed,
            content_manager: self.content_manager.deep_view(),
        }
    }
}

/// Everything `but hook status` reads from the repository.
#[derive(Debug)]
pub struct HookStatusInput {
    /// Where the hooks live.
    pub location: HooksLocation,
    /// Value of the `gitbutler.installHooks` config key (`true` when not set).
    pub config_enabled: bool,
    /// An external manager that is configured and available although it has
    /// not installed any hook file yet.
    pub config_only_manager: Option<String>,
    /// One observation per managed hook, in the order of the managed hook names.
    pub hook_files: Vec<HookFileObservation>,
}

/// The model of a [`HookStatusInput`].
pub struct HookStatusInputView {
    pub location: HooksLocationView,
    pub config_enabled: bool,
    pub config_only_manager: Option<Seq<char>>,
    pub hook_files: Seq<HookFileObservationView>,
}

impl DeepView for HookStatusInput {
    type V = HookStatusInputView;

    open spec fn deep_view(&self) -> HookStatusInputView {
        HookStatusInputView {
            location: self.location.deep_view(),
            config_enabled: self.config_enabled,
            config_only_manager: self.config_only_manager.deep_view(),
            hook_files: self.hook_files.deep_view(),
        }
    }
}

/// Status of a single hook file.
#[derive(Debug)]
pub struct SingleHookStatus {
    /// The hook name (e.g. "pre-commit").
    pub name: String,
    /// Whether the hook file exists on disk.
    pub exists: bool,
    /// Who owns this hook file.
    pub owner: HookOwner,
    /// Name of the external hook manager, when `owner` is `external`.
    pub manager: Option<String>,
}

/// The model of a [`SingleHookStatus`].
pub struct SingleHookStatusView {
    pub name: Seq<char>,
    pub exists: bool,
    pub owner: HookOwner,
    pub manager: Option<Seq<char>>,
}

impl DeepView for SingleHookStatus {
    type V = SingleHookStatusView;

    open spec fn deep_view(&self) -> SingleHookStatusView {
        SingleHookStatusView {
            name: self.name@,
            exists: self.exists,
            owner: self.owner,
            manager: self.manager.deep_view(),
        }
    }
}

/// Full result of the `but hook status` diagnostic command.
#[derive(Debug)]
pub struct HookStatusResult {
    /// The resolved hooks directory path.
    pub hooks_path: String,
    /// Whether `core.hooksPath` is set (non-default).
    pub custom_hooks_path: bool,
    /// Value of `gitbutler.installHooks` config key (`true` when not set).
    pub config_enabled: bool,
    /// The detected hook integration mode.
    pub mode: HookMode,
    /// Name of the detected external hook manager, if any.
    pub external_manager: Option<String>,
    /// Per-hook status for each managed hook type.
    pub hooks: Vec<SingleHookStatus>,
    /// Warning messages (e.g. orphaned hooks).
    pub warnings: Vec<String>,
    /// Recommended next actions.
    pub recommendations: Vec<String>,
}

/// The model of a [`HookStatusResult`].
pub struct HookStatusResultView {
    pub hooks_path: Seq<char>,
    pub custom_hooks_path: bool,
    pub config_enabled: bool,
    pub mode: HookMode,
    pub external_manager: Option<Seq<char>>,
    pub hooks: Seq<SingleHookStatusView>,
    pub warnings: Seq<Seq<char>>,
    pub recommendations: Seq<Seq<char>>,
}

impl DeepView for HookStatusResult {
    type V = HookStatusResultView;

    open spec fn deep_view(&self) -> HookStatusResultView {
        HookStatusResultView {
            hooks_path: self.hooks_path@,
            custom_hooks_path: self.custom_hooks_path,
            config_enabled: self.config_enabled,
            mode: self.mode,
            external_manager: self.external_manager.deep_view(),
            hooks: self.hooks.deep_view(),
            warnings: self.warnings.deep_view(),
            recommendations: self.recommendations.deep_view(),
        }
    }
}

/// Who owns a hook file, judged from what the repository shows.
pub open spec fn classify(
    o: HookFileObservationView,
    config_only_manager: Option<Seq<char>>,
) -> SingleHookStatusView {
    if o.exists {
        if o.gitbutler_managed {
            SingleHookStatusView {
                name: o.name,
                exists: true,
                owner: HookOwner::Gitbutler,
                manager: None,
            }
        } else if o.content_manager is Some {
            SingleHookStatusView {
                name: o.name,
                exists: true,
                owner: HookOwner::External,
                manager: o.content_manager,
            }
        } else {
            SingleHookStatusView { name: o.name, exists: true, owner: HookOwner::User, manager: None }
        }
    } else if config_only_manager is Some {
        SingleHookStatusView {
            name: o.name,
            exists: false,
            owner: HookOwner::External,
            manager: config_only_manager,
        }
    } else {
        SingleHookStatusView { name: o.name, exists: false, owner: HookOwner::Missing, manager: None }
    }
}

/// The classification of every observed hook file.
pub open spec fn classified(input: HookStatusInputView) -> Seq<SingleHookStatusView> {
    Seq::new(
        input.hook_files.len(),
        |i: int| classify(input.hook_files[i], input.config_only_manager),
    )
}

/// Some hook has the given owner.
pub open spec fn some_owner(hooks: Seq<SingleHookStatusView>, owner: HookOwner) -> bool {
    exists|i: int| 0 <= i < hooks.len() && hooks[i].owner == owner
}

/// Some hook file on disk belongs to an external manager.
pub open spec fn some_present_external(hooks: Seq<SingleHookStatusView>) -> bool {
    exists|i: int| 0 <= i < hooks.len() && hooks[i].exists && hooks[i].owner == HookOwner::External
}

/// The manager of the last externally owned hook.
pub open spec fn last_external_manager(hooks: Seq<SingleHookStatusView>) -> Option<Seq<char>>
    decreases hooks.len(),
{
    if hooks.len() == 0 {
        None
    } else if hooks.last().owner == HookOwner::External {
        hooks.last().manager
    } else {
        last_external_manager(hooks.drop_last())
    }
}

/// A manager was detected only through its configuration while user-owned
/// hook files are present: reporting it would contradict those files.
pub open spec fn config_only_detection_misleading(hooks: Seq<SingleHookStatusView>) -> bool {
    some_owner(hooks, HookOwner::User) && !some_present_external(hooks)
        && last_external_manager(hooks) is Some
}

/// A config-only external slot reported as missing instead.
pub open spec fn downgraded(h: SingleHookStatusView) -> SingleHookStatusView {
    if h.owner == HookOwner::External {
        SingleHookStatusView { name: h.name, exists: false, owner: HookOwner::Missing, manager: None }
    } else {
        h
    }
}

/// The per-hook statuses that `status` reports.
pub open spec fn reported_hooks(input: HookStatusInputView) -> Seq<SingleHookStatusView> {
    let c = classified(input);
    if config_only_detection_misleading(c) {
        Seq::new(c.len(), |i: int| downgraded(c[i]))
    } else {
        c
    }
}

/// The external manager that `status` reports.
pub open spec fn reported_external_manager(input: HookStatusInputView) -> Option<Seq<char>> {
    let c = classified(input);
    if config_only_detection_misleading(c) {
        None
    } else {
        last_external_manager(c)
    }
}

/// The integration mode that `status` reports.  The external check comes
/// first: `but setup` disables the config when it detects an external manager.
pub open spec fn reported_mode(input: HookStatusInputView) -> HookMode {
    if reported_external_manager(input) is Some {
        HookMode::External
    } else if !input.config_enabled {
        HookMode::Disabled
    } else if some_owner(classified(input), HookOwner::Gitbutler) {
        HookMode::Managed
    } else {
        HookMode::Unconfigured
    }
}

/// The warning about managed hooks orphaned in the default hooks directory.
pub open spec fn orphaned_status_warning(loc: HooksLocationView) -> Seq<char> {
    "Orphaned GitButler-managed hooks found in "@ + loc.default_hooks_dir
        + " (core.hooksPath points elsewhere)"@
}

/// The warning about a hook that the external manager has not installed.
pub open spec fn missing_hook_warning(h: SingleHookStatusView) -> Seq<char> {
    h.name + " is not installed by "@ + or_default(h.manager, "external manager"@) + " — "@
        + missing_description(h.name)
}

/// One warning per hook that does not exist on disk.
pub open spec fn missing_hook_warnings(hooks: Seq<SingleHookStatusView>) -> Seq<Seq<char>>
    decreases hooks.len(),
{
    if hooks.len() == 0 {
        Seq::empty()
    } else if !hooks.last().exists {
        missing_hook_warnings(hooks.drop_last()).push(missing_hook_warning(hooks.last()))
    } else {
        missing_hook_warnings(hooks.drop_last())
    }
}

/// The warning about a slot occupied by a user hook instead of a GitButler hook.
pub open spec fn user_hook_warning(h: SingleHookStatusView) -> Seq<char> {
    h.name + ": user hook present — "@ + missing_description(h.name)
}

/// One warning per hook owned by the user.
pub open spec fn user_hook_warnings(hooks: Seq<SingleHookStatusView>) -> Seq<Seq<char>>
    decreases hooks.len(),
{
    if hooks.len() == 0 {
        Seq::empty()
    } else if hooks.last().owner == HookOwner::User {
        user_hook_warnings(hooks.drop_last()).push(user_hook_warning(hooks.last()))
    } else {
        user_hook_warnings(hooks.drop_last())
    }
}

/// The warnings that `status` reports.
pub open spec fn status_warnings(input: HookStatusInputView) -> Seq<Seq<char>> {
    let hooks = reported_hooks(input);
    let mode = reported_mode(input);
    (if has_orphaned_hooks(input.location) {
        seq![orphaned_status_warning(input.location)]
    } else {
        Seq::empty()
    }) + (if mode == HookMode::External {
        missing_hook_warnings(hooks)
    } else {
        Seq::empty()
    }) + (if mode == HookMode::Managed {
        user_hook_warnings(hooks)
    } else {
        Seq::empty()
    })
}

/// The recommendation that follows from the mode alone.
pub open spec fn mode_recommendations(mode: HookMode, manager: Option<Seq<char>>) -> Seq<
    Seq<char>,
> {
    match mode {
        HookMode::Disabled => seq![
            "Run `but setup --force-hooks` to re-enable GitButler-managed hooks."@,
        ],
        HookMode::External => match manager {
            Some(m) => seq![
                "Hooks are managed by "@ + m + ". Use `but hook pre-commit` etc. in your "@ + m
                    + " config."@,
            ],
            None => Seq::empty(),
        },
        HookMode::Unconfigured => seq!["Run `but setup` to install GitButler hooks."@],
        HookMode::Managed => Seq::empty(),
    }
}

/// Some hook is absent from disk.
pub open spec fn some_absent(hooks: Seq<SingleHookStatusView>) -> bool {
    exists|i: int| 0 <= i < hooks.len() && !hooks[i].exists
}

/// The recommendations that `status` reports.
pub open spec fn status_recommendations(input: HookStatusInputView) -> Seq<Seq<char>> {
    let hooks = reported_hooks(input);
    let mode = reported_mode(input);
    mode_recommendations(mode, reported_external_manager(input)) + (if mode == HookMode::External
        && some_absent(hooks) {
        seq!["Run `but setup` to see integration instructions."@]
    } else {
        Seq::empty()
    }) + (match input.location.orphaned_remove_command {
        Some(cmd) => if input.location.custom_hooks_path {
            seq!["Remove orphaned hooks: "@ + cmd]
        } else {
            Seq::empty()
        },
        None => Seq::empty(),
    })
}

/// The full diagnostic that `status` reports for what the repository shows.
pub open spec fn status_report(input: HookStatusInputView) -> HookStatusResultView {
    HookStatusResultView {
        hooks_path: input.location.hooks_dir,
        custom_hooks_path: input.location.custom_hooks_path,
        config_enabled: input.config_enabled,
        mode: reported_mode(input),
        external_manager: reported_external_manager(input),
        hooks: reported_hooks(input),
        warnings: status_warnings(input),
        recommendations: status_recommendations(input),
    }
}

fn classify_hook(o: &HookFileObservation, config_only_manager: &Option<String>) -> (h:
    SingleHookStatus)
    ensures
        h.deep_view() == classify(o.deep_view(), config_only_manager.deep_view()),
{
    if o.exists {
        if o.gitbutler_managed {
            SingleHookStatus {
                name: o.name.clone(),
                exists: true,
                owner: HookOwner::Gitbutler,
                manager: None,
            }
        } else {
            match &o.content_manager {
                Some(m) => SingleHookStatus {
                    name: o.name.clone(),
                    exists: true,
                    owner: HookOwner::External,
                    manager: Some(m.clone()),
                },
                None => SingleHookStatus {
                    name: o.name.clone(),
                    exists: true,
                    owner: HookOwner::User,
                    manager: None,
                },
            }
        }
    } else {
        match config_only_manager {
            Some(m) => SingleHookStatus {
                name: o.name.clone(),
                exists: false,
                owner: HookOwner::External,
                manager: Some(m.clone()),
            },
            None => SingleHookStatus {
                name: o.name.clone(),
                exists: false,
                owner: HookOwner::Missing,
                manager: None,
            },
        }
    }
}

fn missing_hook_warning_text(h: &SingleHookStatus) -> (s: String)
    ensures
        s@ == missing_hook_warning(h.deep_view()),
{
    let mgr = match &h.manager {
        Some(m) => m.as_str(),
        None => "external manager",
    };
    let mut s = h.name.clone();
    s.append(" is not installed by ");
    s.append(mgr);
    s.append(" — ");
    s.append(hook_missing_description(h.name.as_str()));
    s
}

fn user_hook_warning_text(h: &SingleHookStatus) -> (s: String)
    ensures
        s@ == user_hook_warning(h.deep_view()),
{
    let mut s = h.name.clone();
    s.append(": user hook present — ");
    s.append(hook_missing_description(h.name.as_str()));
    s
}

/// Summarise hook ownership and integration state from what the repository shows.
///
/// Classifies each managed hook file, drops a manager that was detected only
/// through its configuration when user hooks contradict it, determines the
/// integration mode, and collects warnings and recommended next actions.
pub fn status(input: &HookStatusInput) -> (result: HookStatusResult)
    ensures
        result.deep_view() == status_report(input.deep_view()),
{
    let ghost iv = input.deep_view();
    let ghost cls = classified(iv);
    let n = input.hook_files.len();

    // First pass: what the classification as a whole shows.
    let mut has_gitbutler_hook = false;
    let mut has_user_hook = false;
    let mut has_real_external_hook = false;
    let mut external_manager_name: Option<String> = None;
    let mut i: usize = 0;
    while i < n
        invariant
            n == input.hook_files.len(),
            i <= n,
            iv == input.deep_view(),
            cls == classified(iv),
            has_gitbutler_hook == (exists|j: int|
                0 <= j < i && #[trigger] cls[j].owner == HookOwner::Gitbutler),
            has_user_hook == (exists|j: int| 0 <= j < i && #[trigger] cls[j].owner == HookOwner::User),
            has_real_external_hook == (exists|j: int|
                0 <= j < i && #[trigger] cls[j].exists && cls[j].owner == HookOwner::External),
            external_manager_name.deep_view() == last_external_manager(cls.subrange(0, i as int)),
        decreases n - i,
    {
        let h = classify_hook(&input.hook_files[i], &input.config_only_manager);
        assert(h.deep_view() == cls[i as int]);
        assert(cls[i as int].exists == h.exists && cls[i as int].owner == h.owner);
        if h.owner == HookOwner::Gitbutler {
            has_gitbutler_hook = true;
        } else if h.owner == HookOwner::External {
            external_manager_name = clone_opt(&h.manager);
            if h.exists {
                has_real_external_hook = true;
            }
        } else if h.owner == HookOwner::User {
            has_user_hook = true;
        }
        assert(cls.subrange(0, i + 1).drop_last() =~= cls.subrange(0, i as int));
        i += 1;
    }
    assert(cls.subrange(0, n as int) =~= cls);
    assert(has_gitbutler_hook == some_owner(cls, HookOwner::Gitbutler));
    assert(has_user_hook == some_owner(cls, HookOwner::User));
    assert(has_real_external_hook == some_present_external(cls));

    // A manager detected only via config is misleading when user hooks exist.
    let misleading = has_user_hook && !has_real_external_hook && external_manager_name.is_some();
    assert(misleading == config_only_detection_misleading(cls));
    if misleading {
        external_manager_name = None;
    }
    let ghost hooks_spec = reported_hooks(iv);

    // Second pass: the per-hook statuses.
    let mut hooks: Vec<SingleHookStatus> = Vec::new();
    let mut i: usize = 0;
    while i < n
        invariant
            n == input.hook_files.len(),
            i <= n,
            iv == input.deep_view(),
            cls == classified(iv),
            hooks_spec == reported_hooks(iv),
            misleading == config_only_detection_misleading(cls),
            hooks.deep_view() =~= hooks_spec.subrange(0, i as int),
        decreases n - i,
    {
        let h = classify_hook(&input.hook_files[i], &input.config_only_manager);
        let h = if misleading && h.owner == HookOwner::External {
            SingleHookStatus { name: h.name, exists: false, owner: HookOwner::Missing, manager: None }
        } else {
            h
        };
        let ghost before = hooks.deep_view();
        hooks.push(h);
        assert(hooks.deep_view() =~= before.push(hooks_spec[i as int]));
        i += 1;
    }
    assert(hooks.deep_view() =~= hooks_spec);

    // The integration mode.
    let mode = if external_manager_name.is_some() {
        HookMode::External
    } else if !input.config_enabled {
        HookMode::Disabled
    } else if has_gitbutler_hook {
        HookMode::Managed
    } else {
        HookMode::Unconfigured
    };
    assert(mode == reported_mode(iv));

    // Warnings.
    let mut warnings: Vec<String> = Vec::new();
    let orphaned = input.location.custom_hooks_path
        && input.location.orphaned_remove_command.is_some();
    if orphaned {
        warnings.push(
            cat3(
                "Orphaned GitButler-managed hooks found in ",
                input.location.default_hooks_dir.as_str(),
                " (core.hooksPath points elsewhere)",
            ),
        );
    }
    let ghost base = warnings.deep_view();
    assert(base =~= (if has_orphaned_hooks(iv.location) {
        seq![orphaned_status_warning(iv.location)]
    } else {
        Seq::<Seq<char>>::empty()
    }));
    if mode == HookMode::External {
        let mut i: usize = 0;
        while i < n
            invariant
                n == hooks.len(),
                i <= n,
                hooks.deep_view() == hooks_spec,
                warnings.deep_view() =~= base + missing_hook_warnings(
                    hooks_spec.subrange(0, i as int),
                ),
            decreases n - i,
        {
            let ghost prefix = hooks_spec.subrange(0, i + 1);
            assert(prefix.drop_last() =~= hooks_spec.subrange(0, i as int));
            assert(prefix.last() == hooks[i as int].deep_view());
            let ghost old_w = warnings.deep_view();
            if !hooks[i].exists {
                let w = missing_hook_warning_text(&hooks[i]);
                warnings.push(w);
                assert(warnings.deep_view() =~= old_w.push(missing_hook_warning(prefix.last())));
                assert(missing_hook_warnings(prefix) == missing_hook_warnings(prefix.drop_last()).push(
                    missing_hook_warning(prefix.last()),
                ));
            } else {
                assert(missing_hook_warnings(prefix) == missing_hook_warnings(prefix.drop_last()));
            }
            i += 1;
        }
        assert(hooks_spec.subrange(0, n as int) =~= hooks_spec);
    }
    if mode == HookMode::Managed {
        let mut i: usize = 0;
        while i < n
            invariant
                n == hooks.len(),
                i <= n,
                hooks.deep_view() == hooks_spec,
                warnings.deep_view() =~= base + user_hook_warnings(hooks_spec.subrange(0, i as int)),
            decreases n - i,
        {
            let ghost prefix = hooks_spec.subrange(0, i + 1);
            assert(prefix.drop_last() =~= hooks_spec.subrange(0, i as int));
            assert(prefix.last() == hooks[i as int].deep_view());
            let ghost old_w = warnings.deep_view();
            if hooks[i].owner == HookOwner::User {
                let w = user_hook_warning_text(&hooks[i]);
                warnings.push(w);
                assert(warnings.deep_view() =~= old_w.push(user_hook_warning(prefix.last())));
                assert(user_hook_warnings(prefix) == user_hook_warnings(prefix.drop_last()).push(
                    user_hook_warning(prefix.last()),
                ));
            } else {
                assert(user_hook_warnings(prefix) == user_hook_warnings(prefix.drop_last()));
            }
            i += 1;
        }
        assert(hooks_spec.subrange(0, n as int) =~= hooks_spec);
    }
    assert(warnings.deep_view() =~= status_warnings(iv));

    // Recommendations.
    let mut recommendations: Vec<String> = Vec::new();
    match mode {
        HookMode::Disabled => {
            recommendations.push(
                String::from_str(
                    "Run `but setup --force-hooks` to re-enable GitButler-managed hooks.",
                ),
            );
        },
        HookMode::External => {
            match &external_manager_name {
                Some(mgr) => {
                    let mut s = String::from_str("Hooks are managed by ");
                    s.append(mgr.as_str());
                    s.append(". Use `but hook pre-commit` etc. in your ");
                    s.append(mgr.as_str());
                    s.append(" config.");
                    recommendations.push(s);
                },
                None => {},
            }
        },
        HookMode::Unconfigured => {
            recommendations.push(String::from_str("Run `but setup` to install GitButler hooks."));
        },
        HookMode::Managed => {},
    }
    let ghost recs0 = recommendations.deep_view();
    assert(recs0 =~= mode_recommendations(mode, reported_external_manager(iv)));
    if mode == HookMode::External {
        let mut any_missing = false;
        let mut i: usize = 0;
        while i < n
            invariant
                n == hooks.len(),
                i <= n,
                hooks.deep_view() == hooks_spec,
                any_missing == (exists|j: int| 0 <= j < i && !#[trigger] hooks_spec[j].exists),
            decreases n - i,
        {
            assert(hooks[i as int].deep_view() == hooks_spec[i as int]);
            assert(hooks_spec[i as int].exists == hooks[i as int].exists);
            if !hooks[i].exists {
                any_missing = true;
            }
            i += 1;
        }
        if any_missing {
            recommendations.push(
                String::from_str("Run `but setup` to see integration instructions."),
            );
        }
    }
    let ghost recs1 = recommendations.deep_view();
    assert(recs1 =~= recs0 + (if mode == HookMode::External && some_absent(hooks_spec) {
        seq!["Run `but setup` to see integration instructions."@]
    } else {
        Seq::<Seq<char>>::empty()
    }));
    if orphaned {
        match &input.location.orphaned_remove_command {
            Some(cmd) => {
                recommendations.push(cat2("Remove orphaned hooks: ", cmd.as_str()));
            },
            None => {},
        }
    }
    assert(recommendations.deep_view() =~= status_recommendations(iv));

    HookStatusResult {
        hooks_path: input.location.hooks_dir.clone(),
        custom_hooks_path: input.location.custom_hooks_path,
        config_enabled: input.config_enabled,
        mode,
        external_manager: external_manager_name,
        hooks,
        warnings,
        recommendations,
    }
}

/// The status column shown for a hook in human-readable output.
pub open spec fn hook_label(h: SingleHookStatusView) -> HumanLineView {
    if h.exists {
        if h.owner == HookOwner::Gitbutler {
            indented_line(LineStyle::Success, "✓ "@ + owner_text(HookOwner::Gitbutler, None))
        } else if h.owner == HookOwner::External {
            indented_line(LineStyle::Info, "● "@ + owner_text(HookOwner::External, h.manager))
        } else {
            indented_line(LineStyle::Attention, "○ "@ + owner_text(h.owner, None))
        }
    } else if h.owner == HookOwner::External {
        indented_line(
            LineStyle::Hint,
            "✗ not configured ("@ + or_default(h.manager, "unknown"@) + ")"@,
        )
    } else {
        indented_line(LineStyle::Hint, "✗ "@ + owner_text(h.owner, h.manager))
    }
}

/// The status column shown for a hook in human-readable output.
///
/// A hook file that exists is never reported as missing (see
/// [`status_never_reports_a_present_hook_as_missing`]).
pub fn hook_status_label(hook: &SingleHookStatus) -> (line: HumanLine)
    requires
        !(hook.exists && hook.owner == HookOwner::Missing),
    ensures
        line.deep_view() == hook_label(hook.deep_view()),
{
    let manager = match &hook.manager {
        Some(m) => Some(m.as_str()),
        None => None,
    };
    if hook.exists {
        if hook.owner == HookOwner::Gitbutler {
            indented(LineStyle::Success, cat2("✓ ", hook.owner.display(None).as_str()))
        } else if hook.owner == HookOwner::External {
            indented(LineStyle::Info, cat2("● ", hook.owner.display(manager).as_str()))
        } else {
            indented(LineStyle::Attention, cat2("○ ", hook.owner.display(None).as_str()))
        }
    } else if hook.owner == HookOwner::External {
        let name = match manager {
            Some(m) => m,
            None => "unknown",
        };
        indented(LineStyle::Hint, cat3("✗ not configured (", name, ")"))
    } else {
        indented(LineStyle::Hint, cat2("✗ ", hook.owner.display(manager).as_str()))
    }
}

/// The `hook_<name>=` line of shell output.
pub open spec fn shell_hook_line(h: SingleHookStatusView) -> Seq<char> {
    "hook_"@ + dashes_to_underscores(h.name) + "='"@ + shell_quoted(owner_text(h.owner, h.manager))
        + "'"@
}

/// The lines of `--format shell` output for a status result.  Values that may
/// hold user-controlled content are escaped for single-quoted literals.
pub open spec fn shell_lines(r: HookStatusResultView) -> Seq<Seq<char>> {
    seq![
        "hooks_path='"@ + shell_quoted(r.hooks_path) + "'"@,
        "custom_hooks_path="@ + bool_text(r.custom_hooks_path),
        "config_enabled="@ + bool_text(r.config_enabled),
        "mode='"@ + mode_text(r.mode) + "'"@,
    ] + (match r.external_manager {
        Some(m) => seq!["external_manager='"@ + shell_quoted(m) + "'"@],
        None => Seq::empty(),
    }) + Seq::new(r.hooks.len(), |i: int| shell_hook_line(r.hooks[i]))
}

/// Render a status result as shell variable assignments.
pub fn status_shell_lines(result: &HookStatusResult) -> (lines: Vec<String>)
    ensures
        lines.deep_view() == shell_lines(result.deep_view()),
{
    let mut lines: Vec<String> = Vec::new();
    lines.push(cat3("hooks_path='", shell_single_quote(result.hooks_path.as_str()).as_str(), "'"));
    lines.push(cat2("custom_hooks_path=", bool_to_string(result.custom_hooks_path).as_str()));
    lines.push(cat2("config_enabled=", bool_to_string(result.config_enabled).as_str()));
    lines.push(cat3("mode='", result.mode.label(), "'"));
    match &result.external_manager {
        Some(m) => {
            lines.push(cat3("external_manager='", shell_single_quote(m.as_str()).as_str(), "'"));
        },
        None => {},
    }
    let ghost base = lines.deep_view();
    let ghost rv = result.deep_view();
    let mut i: usize = 0;
    while i < result.hooks.len()
        invariant
            i <= result.hooks.len(),
            rv == result.deep_view(),
            lines.deep_view() =~= base + Seq::new(i as nat, |k: int| shell_hook_line(rv.hooks[k])),
        decreases result.hooks.len() - i,
    {
        let hook = &result.hooks[i];
        let manager = match &hook.manager {
            Some(m) => Some(m.as_str()),
            None => None,
        };
        let label = hook.owner.display(manager);
        let mut line = String::from_str("hook_");
        line.append(replace_dashes(hook.name.as_str()).as_str());
        line.append("='");
        line.append(shell_single_quote(label.as_str()).as_str());
        line.append("'");
        assert(line@ == shell_hook_line(rv.hooks[i as int]));
        let ghost before = lines.deep_view();
        lines.push(line);
        assert(lines.deep_view() =~= before.push(shell_hook_line(rv.hooks[i as int])));
        i += 1;
    }
    lines
}

/// The width of the label column of the status table.
pub open spec fn label_width() -> nat {
    20
}

/// `s` padded with spaces to the label column width.
pub open spec fn padded_label(s: Seq<char>) -> Seq<char> {
    if s.len() < label_width() {
        s + Seq::new((label_width() - s.len()) as nat, |i: int| ' ')
    } else {
        s
    }
}

/// Pad a label with spaces to the label column width.
fn pad_label(s: &str) -> (padded: String)
    ensures
        padded@ == padded_label(s@),
{
    proof {
        reveal_strlit(" ");
    }
    let n = s.unicode_len();
    let mut out = String::from_str(s);
    let mut k: usize = n;
    while k < 20
        invariant
            n == s@.len(),
            n <= k <= 20 || (n > 20 && k == n),
            " "@ =~= seq![' '],
            out@ =~= s@ + Seq::new((k - n) as nat, |i: int| ' '),
        decreases 20 - k,
    {
        out.append(" ");
        k += 1;
    }
    out
}

/// One line of the status diagnostic: a styled line, or a row of the
/// two-column table whose label is shown as a hint.
#[derive(Debug)]
pub enum StatusLine {
    Text(HumanLine),
    Row { label: String, value_style: LineStyle, value: String },
}

/// The model of a [`StatusLine`].
pub enum StatusLineView {
    Text(HumanLineView),
    Row { label: Seq<char>, value_style: LineStyle, value: Seq<char> },
}

impl DeepView for StatusLine {
    type V = StatusLineView;

    open spec fn deep_view(&self) -> StatusLineView {
        match self {
            StatusLine::Text(line) => StatusLineView::Text(line.deep_view()),
            StatusLine::Row { label, value_style, value } => StatusLineView::Row {
                label: label@,
                value_style: *value_style,
                value: value@,
            },
        }
    }
}

/// A table row with a padded label.
pub open spec fn status_row(label: Seq<char>, value_style: LineStyle, value: Seq<char>) -> StatusLineView {
    StatusLineView::Row { label: padded_label(label), value_style, value }
}

/// The table row of one hook.
pub open spec fn hook_row(h: SingleHookStatusView) -> StatusLineView {
    status_row(h.name + ":"@, hook_label(h).style, hook_label(h).text)
}

/// The header of the status diagnostic and its configuration table, up to
/// the blank line before the hook rows.
pub open spec fn status_header(r: HookStatusResultView) -> Seq<StatusLineView> {
    seq![
        StatusLineView::Text(blank_line()),
        StatusLineView::Text(plain_line(LineStyle::InfoBold, "Hook status"@)),
        StatusLineView::Text(blank_line()),
        status_row("Hooks path:"@, LineStyle::Plain, r.hooks_path),
    ] + (if r.custom_hooks_path {
        seq![status_row(""@, LineStyle::Hint, "(set via core.hooksPath)"@)]
    } else {
        Seq::empty()
    }) + seq![
        status_row(
            "Config:"@,
            LineStyle::Plain,
            "gitbutler.installHooks = "@ + bool_text(r.config_enabled),
        ),
        status_row("Mode:"@, LineStyle::Plain, mode_text(r.mode)),
    ] + (match r.external_manager {
        Some(m) => seq![status_row("Hook manager:"@, LineStyle::Plain, m)],
        None => Seq::empty(),
    }) + seq![StatusLineView::Text(blank_line())]
}

/// One table row per hook.
pub open spec fn hook_rows(r: HookStatusResultView) -> Seq<StatusLineView> {
    Seq::new(r.hooks.len(), |i: int| hook_row(r.hooks[i]))
}

/// One attention line per warning.
pub open spec fn warning_lines(r: HookStatusResultView) -> Seq<StatusLineView> {
    Seq::new(
        r.warnings.len(),
        |i: int| StatusLineView::Text(indented_line(LineStyle::Attention, "⚠ "@ + r.warnings[i])),
    )
}

/// One hint line per recommendation.
pub open spec fn recommendation_lines(r: HookStatusResultView) -> Seq<StatusLineView> {
    Seq::new(
        r.recommendations.len(),
        |i: int| StatusLineView::Text(indented_line(LineStyle::Hint, "→ "@ + r.recommendations[i])),
    )
}

/// The closing blank line, shown only after warnings or recommendations.
pub open spec fn status_footer(r: HookStatusResultView) -> Seq<StatusLineView> {
    if r.warnings.len() > 0 || r.recommendations.len() > 0 {
        seq![StatusLineView::Text(blank_line())]
    } else {
        Seq::empty()
    }
}

/// The human-readable status diagnostic: the header, the configuration
/// table, one row per hook, then warnings and recommendations.
pub open spec fn status_human(r: HookStatusResultView) -> Seq<StatusLineView> {
    status_header(r) + hook_rows(r) + seq![StatusLineView::Text(blank_line())] + warning_lines(r)
        + recommendation_lines(r) + status_footer(r)
}

fn row(label: &str, value_style: LineStyle, value: String) -> (line: StatusLine)
    ensures
        line.deep_view() == status_row(label@, value_style, value@),
{
    StatusLine::Row { label: pad_label(label), value_style, value }
}

/// The human-readable status diagnostic.  A hook file that exists is never
/// reported as missing (see [`status_never_reports_a_present_hook_as_missing`]).
pub fn status_human_lines(result: &HookStatusResult) -> (lines: Vec<StatusLine>)
    requires
        forall|i: int|
            0 <= i < result.hooks@.len() ==> !(#[trigger] result.hooks@[i].exists
                && result.hooks@[i].owner == HookOwner::Missing),
    ensures
        lines.deep_view() == status_human(result.deep_view()),
{
    let ghost rv = result.deep_view();
    let mut lines: Vec<StatusLine> = Vec::new();
    lines.push(StatusLine::Text(blank()));
    lines.push(StatusLine::Text(plain(LineStyle::InfoBold, String::from_str("Hook status"))));
    lines.push(StatusLine::Text(blank()));
    lines.push(row("Hooks path:", LineStyle::Plain, result.hooks_path.clone()));
    if result.custom_hooks_path {
        lines.push(row("", LineStyle::Hint, String::from_str("(set via core.hooksPath)")));
    }
    lines.push(
        row(
            "Config:",
            LineStyle::Plain,
            cat2("gitbutler.installHooks = ", bool_to_string(result.config_enabled).as_str()),
        ),
    );
    lines.push(row("Mode:", LineStyle::Plain, String::from_str(result.mode.label())));
    match &result.external_manager {
        Some(m) => {
            lines.push(row("Hook manager:", LineStyle::Plain, m.clone()));
        },
        None => {},
    }
    lines.push(StatusLine::Text(blank()));
    let ghost head = lines.deep_view();
    assert(head =~= status_header(rv));
    let mut i: usize = 0;
    while i < result.hooks.len()
        invariant
            i <= result.hooks.len(),
            rv == result.deep_view(),
            forall|k: int|
                0 <= k < result.hooks@.len() ==> !(#[trigger] result.hooks@[k].exists
                    && result.hooks@[k].owner == HookOwner::Missing),
            lines.deep_view() =~= head + Seq::new(i as nat, |k: int| hook_row(rv.hooks[k])),
        decreases result.hooks.len() - i,
    {
        let hook = &result.hooks[i];
        assert(!(result.hooks@[i as int].exists && result.hooks@[i as int].owner
            == HookOwner::Missing));
        let label = hook_status_label(hook);
        let ghost before = lines.deep_view();
        lines.push(row(cat2(hook.name.as_str(), ":").as_str(), label.style, label.text));
        assert(lines.deep_view() =~= before.push(hook_row(rv.hooks[i as int])));
        i += 1;
    }
    assert(lines.deep_view() =~= head + hook_rows(rv));
    lines.push(StatusLine::Text(blank()));
    let ghost mid = lines.deep_view();
    let mut i: usize = 0;
    while i < result.warnings.len()
        invariant
            i <= result.warnings.len(),
            rv == result.deep_view(),
            lines.deep_view() =~= mid + Seq::new(
                i as nat,
                |k: int|
                    StatusLineView::Text(
                        indented_line(LineStyle::Attention, "⚠ "@ + rv.warnings[k]),
                    ),
            ),
        decreases result.warnings.len() - i,
    {
        let ghost before = lines.deep_view();
        lines.push(
            StatusLine::Text(
                indented(LineStyle::Attention, cat2("⚠ ", result.warnings[i].as_str())),
            ),
        );
        assert(lines.deep_view() =~= before.push(
            StatusLineView::Text(indented_line(LineStyle::Attention, "⚠ "@ + rv.warnings[i as int])),
        ));
        i += 1;
    }
    let ghost mid2 = lines.deep_view();
    assert(mid2 =~= mid + warning_lines(rv));
    let mut i: usize = 0;
    while i < result.recommendations.len()
        invariant
            i <= result.recommendations.len(),
            rv == result.deep_view(),
            lines.deep_view() =~= mid2 + Seq::new(
                i as nat,
                |k: int|
                    StatusLineView::Text(
                        indented_line(LineStyle::Hint, "→ "@ + rv.recommendations[k]),
                    ),
            ),
        decreases result.recommendations.len() - i,
    {
        let ghost before = lines.deep_view();
        lines.push(
            StatusLine::Text(
                indented(LineStyle::Hint, cat2("→ ", result.recommendations[i].as_str())),
            ),
        );
        assert(lines.deep_view() =~= before.push(
            StatusLineView::Text(indented_line(LineStyle::Hint, "→ "@ + rv.recommendations[i as int])),
        ));
        i += 1;
    }
    let ghost body = lines.deep_view();
    assert(body =~= mid2 + recommendation_lines(rv));
    if result.warnings.len() > 0 || result.recommendations.len() > 0 {
        lines.push(StatusLine::Text(blank()));
    }
    assert(lines.deep_view() =~= body + status_footer(rv));
    assert(lines.deep_view() =~= status_human(rv));
    lines
}

proof fn classified_owner_facts(input: HookStatusInputView, i: int)
    requires
        0 <= i < input.hook_files.len(),
    ensures
        classified(input)[i].name == input.hook_files[i].name,
        classified(input)[i].owner == HookOwner::Missing ==> !classified(input)[i].exists,
        classified(input)[i].owner == HookOwner::External ==> classified(input)[i].manager is Some,
        classified(input)[i].owner != HookOwner::External ==> classified(input)[i].manager is None,
        classified(input)[i].exists == input.hook_files[i].exists,
{
}

/// A hook reported as missing never exists on disk, so the human-readable
/// output never meets a present-but-missing hook.
pub proof fn status_never_reports_a_present_hook_as_missing(input: HookStatusInputView, i: int)
    requires
        0 <= i < reported_hooks(input).len(),
    ensures
        reported_hooks(input)[i].owner == HookOwner::Missing ==> !reported_hooks(input)[i].exists,
{
    classified_owner_facts(input, i);
}

/// `status` reports one entry per observed hook file, in order and under the
/// same name, and only externally owned hooks carry a manager name.
pub proof fn status_reports_every_hook_file(input: HookStatusInputView, i: int)
    requires
        0 <= i < input.hook_files.len(),
    ensures
        reported_hooks(input).len() == input.hook_files.len(),
        reported_hooks(input)[i].name == input.hook_files[i].name,
        reported_hooks(input)[i].manager is Some <==> reported_hooks(input)[i].owner
            == HookOwner::External,
{
    classified_owner_facts(input, i);
}

proof fn last_external_manager_belongs_to_a_hook(hooks: Seq<SingleHookStatusView>)
    requires
        forall|i: int|
            0 <= i < hooks.len() && #[trigger] hooks[i].owner == HookOwner::External
                ==> hooks[i].manager is Some,
    ensures
        last_external_manager(hooks) is Some <==> some_owner(hooks, HookOwner::External),
        last_external_manager(hooks) is Some ==> exists|i: int|
            0 <= i < hooks.len() && hooks[i].owner == HookOwner::External && hooks[i].manager
                == last_external_manager(hooks),
    decreases hooks.len(),
{
    if hooks.len() > 0 {
        let rest = hooks.drop_last();
        assert forall|i: int|
            0 <= i < rest.len() && #[trigger] rest[i].owner == HookOwner::External implies rest[i].manager is Some by {
            assert(rest[i] == hooks[i]);
        }
        last_external_manager_belongs_to_a_hook(rest);
        if hooks.last().owner == HookOwner::External {
            assert(hooks[hooks.len() - 1].owner == HookOwner::External);
        } else {
            if some_owner(hooks, HookOwner::External) {
                let i = choose|i: int| 0 <= i < hooks.len() && hooks[i].owner == HookOwner::External;
                assert(i != hooks.len() - 1);
                assert(rest[i] == hooks[i]);
            }
            if last_external_manager(rest) is Some {
                let i = choose|i: int|
                    0 <= i < rest.len() && rest[i].owner == HookOwner::External && rest[i].manager
                        == last_external_manager(rest);
                assert(rest[i] == hooks[i]);
            }
        }
    }
}

/// The external manager that `status` names is the manager of a hook it
/// reports as externally owned, and `status` is in external mode exactly
/// when it names one.
pub proof fn status_external_manager_owns_a_reported_hook(input: HookStatusInputView)
    ensures
        reported_mode(input) == HookMode::External <==> reported_external_manager(input) is Some,
        reported_external_manager(input) is Some ==> exists|i: int|
            0 <= i < reported_hooks(input).len() && reported_hooks(input)[i].owner
                == HookOwner::External && reported_hooks(input)[i].manager
                == reported_external_manager(input),
{
    let c = classified(input);
    assert forall|i: int|
        0 <= i < c.len() && #[trigger] c[i].owner == HookOwner::External implies c[i].manager is Some by {
        classified_owner_facts(input, i);
    }
    last_external_manager_belongs_to_a_hook(c);
    if reported_external_manager(input) is Some {
        assert(!config_only_detection_misleading(c));
        assert(reported_hooks(input) == c);
        let i = choose|i: int|
            0 <= i < c.len() && c[i].owner == HookOwner::External && c[i].manager
                == last_external_manager(c);
        assert(reported_hooks(input)[i] == c[i]);
    }
}

/// `status` never contradicts itself: when it reports a user-owned hook file
/// next to an externally owned slot, the external manager has installed a
/// hook file of its own.
pub proof fn status_reports_no_contradictory_ownership(input: HookStatusInputView)
    ensures
        some_owner(reported_hooks(input), HookOwner::User) && some_owner(
            reported_hooks(input),
            HookOwner::External,
        ) ==> some_present_external(reported_hooks(input)),
{
    let c = classified(input);
    let r = reported_hooks(input);
    assert forall|i: int|
        0 <= i < c.len() && #[trigger] c[i].owner == HookOwner::External implies c[i].manager is Some by {
        classified_owner_facts(input, i);
    }
    last_external_manager_belongs_to_a_hook(c);
    if config_only_detection_misleading(c) {
        if some_owner(r, HookOwner::External) {
            let i = choose|i: int| 0 <= i < r.len() && r[i].owner == HookOwner::External;
            assert(r[i] == downgraded(c[i]));
        }
    }
}

/// In GitButler-managed mode at least one hook file carries GitButler's signature.
pub proof fn status_managed_mode_has_a_gitbutler_hook(input: HookStatusInputView)
    ensures
        reported_mode(input) == HookMode::Managed ==> some_owner(
            reported_hooks(input),
            HookOwner::Gitbutler,
        ),
{
    let c = classified(input);
    let r = reported_hooks(input);
    if reported_mode(input) == HookMode::Managed {
        let i = choose|i: int| 0 <= i < c.len() && c[i].owner == HookOwner::Gitbutler;
        if config_only_detection_misleading(c) {
            assert(r[i] == downgraded(c[i]));
        }
        assert(r[i].owner == HookOwner::Gitbutler);
    }
}

proof fn user_hook_warnings_come_from_user_hooks(hooks: Seq<SingleHookStatusView>, k: int)
    requires
        0 <= k < user_hook_warnings(hooks).len(),
    ensures
        exists|j: int|
            0 <= j < hooks.len() && hooks[j].owner == HookOwner::User
                && user_hook_warnings(hooks)[k] == #[trigger] user_hook_warning(hooks[j]),
    decreases hooks.len(),
{
    let rest = hooks.drop_last();
    if hooks.len() > 0 {
        if hooks.last().owner == HookOwner::User && k == user_hook_warnings(rest).len() {
            assert(hooks[hooks.len() - 1] == hooks.last());
        } else {
            user_hook_warnings_come_from_user_hooks(rest, k);
            let j = choose|j: int|
                0 <= j < rest.len() && rest[j].owner == HookOwner::User
                    && user_hook_warnings(rest)[k] == #[trigger] user_hook_warning(rest[j]);
            assert(hooks[j] == rest[j]);
        }
    }
}

/// Outside external-manager mode, `status` warns of nothing but managed hooks
/// orphaned in the default hooks directory and of hooks occupied by user
/// hooks: a missing hook is only reported as "not installed by" a manager
/// when an external manager owns the hooks.  An unconfigured or disabled
/// repository gets no warning at all unless hooks are orphaned.
pub proof fn status_warns_of_missing_hooks_only_under_an_external_manager(
    input: HookStatusInputView,
    k: int,
)
    requires
        status_report(input).mode != HookMode::External,
        0 <= k < status_report(input).warnings.len(),
    ensures
        status_report(input).warnings[k] == orphaned_status_warning(input.location) || exists|
            j: int|
            0 <= j < status_report(input).hooks.len() && status_report(input).hooks[j].owner
                == HookOwner::User && status_report(input).mode == HookMode::Managed
                && status_report(input).warnings[k] == #[trigger] user_hook_warning(
                status_report(input).hooks[j],
            ),
        status_report(input).mode != HookMode::Managed ==> status_report(input).warnings[k]
            == orphaned_status_warning(input.location),
{
    let r = status_report(input);
    let hooks = reported_hooks(input);
    let head: Seq<Seq<char>> = if has_orphaned_hooks(input.location) {
        seq![orphaned_status_warning(input.location)]
    } else {
        Seq::empty()
    };
    if k >= head.len() {
        assert(r.mode == HookMode::Managed);
        let u = user_hook_warnings(hooks);
        assert(r.warnings =~= head + u);
        assert(r.warnings[k] == u[k - head.len()]);
        user_hook_warnings_come_from_user_hooks(hooks, k - head.len());
        let j = choose|j: int|
            0 <= j < hooks.len() && hooks[j].owner == HookOwner::User
                && u[k - head.len()] == #[trigger] user_hook_warning(hooks[j]);
        assert(r.hooks == hooks);
        assert(r.warnings[k] == user_hook_warning(r.hooks[j]));
    } else {
        assert(r.warnings =~= head + (if r.mode == HookMode::Managed {
            user_hook_warnings(hooks)
        } else {
            Seq::empty()
        }));
        assert(r.warnings[k] == head[k]);
    }
}

/// The shell output starts with the hooks path, then `custom_hooks_path=` with
/// whether `core.hooksPath` redirects the hooks, then `config_enabled=` with
/// the value of `gitbutler.installHooks`, each flag as `true` or `false`.
pub proof fn shell_lines_show_each_flag_under_its_own_name(r: HookStatusResultView)
    ensures
        shell_lines(r).len() >= 4,
        shell_lines(r)[0] == "hooks_path='"@ + shell_quoted(r.hooks_path) + "'"@,
        shell_lines(r)[1] == "custom_hooks_path="@ + (if r.custom_hooks_path {
            "true"@
        } else {
            "false"@
        }),
        shell_lines(r)[2] == "config_enabled="@ + (if r.config_enabled {
            "true"@
        } else {
            "false"@
        }),
{
}

proof fn missing_hook_warnings_are_the_absent_hooks(hooks: Seq<SingleHookStatusView>)
    ensures
        forall|k: int|
            #![trigger missing_hook_warnings(hooks)[k]]
            0 <= k < missing_hook_warnings(hooks).len() ==> exists|j: int|
                0 <= j < hooks.len() && !hooks[j].exists && missing_hook_warnings(hooks)[k]
                    == #[trigger] missing_hook_warning(hooks[j]),
        forall|j: int|
            0 <= j < hooks.len() && !hooks[j].exists ==> missing_hook_warnings(hooks).contains(
                #[trigger] missing_hook_warning(hooks[j]),
            ),
    decreases hooks.len(),
{
    if hooks.len() > 0 {
        let rest = hooks.drop_last();
        missing_hook_warnings_are_the_absent_hooks(rest);
        let w = missing_hook_warnings(hooks);
        let wr = missing_hook_warnings(rest);
        assert forall|k: int| #![trigger w[k]] 0 <= k < w.len() implies exists|j: int|
            0 <= j < hooks.len() && !hooks[j].exists && w[k] == #[trigger] missing_hook_warning(
                hooks[j],
            ) by {
            if k < wr.len() {
                let j = choose|j: int|
                    0 <= j < rest.len() && !rest[j].exists && wr[k]
                        == #[trigger] missing_hook_warning(rest[j]);
                assert(hooks[j] == rest[j]);
                assert(w[k] == wr[k]);
            } else {
                assert(hooks[hooks.len() - 1] == hooks.last());
            }
        }
        assert forall|j: int| 0 <= j < hooks.len() && !hooks[j].exists implies w.contains(
            #[trigger] missing_hook_warning(hooks[j]),
        ) by {
            if j < rest.len() {
                assert(hooks[j] == rest[j]);
                let k = choose|k: int| 0 <= k < wr.len() && wr[k] == missing_hook_warning(rest[j]);
                assert(w[k] == wr[k]);
            } else {
                assert(hooks[j] == hooks.last());
                assert(w[wr.len() as int] == missing_hook_warning(hooks.last()));
            }
        }
    }
}

/// Under an external hook manager, `status` warns once of each hook file that
/// is absent, and of nothing else but orphaned managed hooks.
pub proof fn status_warns_of_each_absent_hook_under_an_external_manager(
    input: HookStatusInputView,
)
    requires
        status_report(input).mode == HookMode::External,
    ensures
        forall|j: int|
            0 <= j < status_report(input).hooks.len() && !status_report(input).hooks[j].exists
                ==> status_report(input).warnings.contains(
                #[trigger] missing_hook_warning(status_report(input).hooks[j]),
            ),
        forall|k: int|
            #![trigger status_report(input).warnings[k]]
            0 <= k < status_report(input).warnings.len() ==> status_report(input).warnings[k]
                == orphaned_status_warning(input.location) || exists|j: int|
                0 <= j < status_report(input).hooks.len() && !status_report(input).hooks[j].exists
                    && status_report(input).warnings[k] == #[trigger] missing_hook_warning(
                    status_report(input).hooks[j],
                ),
{
    let r = status_report(input);
    let hooks = reported_hooks(input);
    assert(r.hooks == hooks);
    let head: Seq<Seq<char>> = if has_orphaned_hooks(input.location) {
        seq![orphaned_status_warning(input.location)]
    } else {
        Seq::empty()
    };
    let m = missing_hook_warnings(hooks);
    assert(r.warnings =~= head + m);
    missing_hook_warnings_are_the_absent_hooks(hooks);
    assert forall|j: int| 0 <= j < r.hooks.len() && !r.hooks[j].exists implies r.warnings.contains(
        #[trigger] missing_hook_warning(r.hooks[j]),
    ) by {
        let k = choose|k: int| 0 <= k < m.len() && m[k] == missing_hook_warning(hooks[j]);
        assert(r.warnings[head.len() + k] == m[k]);
    }
    assert forall|k: int| #![trigger r.warnings[k]] 0 <= k < r.warnings.len() implies r.warnings[k] == orphaned_status_warning(
        input.location,
    ) || exists|j: int|
        0 <= j < r.hooks.len() && !r.hooks[j].exists && r.warnings[k]
            == #[trigger] missing_hook_warning(r.hooks[j]) by {
        if k >= head.len() {
            assert(r.warnings[k] == m[k - head.len()]);
        } else {
            assert(r.warnings[k] == head[k]);
        }
    }
}

/// The shell output holds, after the hooks path and the two flags, the mode,
/// the external manager when there is one, and one line per hook.
pub proof fn shell_lines_have_one_line_per_hook(r: HookStatusResultView)
    ensures
        shell_lines(r).len() == 4 + (if r.external_manager is Some {
            1int
        } else {
            0int
        }) + r.hooks.len(),
        shell_lines(r)[3] == "mode='"@ + mode_text(r.mode) + "'"@,
{
}

} // verus!
