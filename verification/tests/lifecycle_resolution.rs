use zellij_sshd::lifecycle::apply_reconnect;
use zellij_sshd::lifecycle::attach_with_session_index;
use zellij_sshd::lifecycle::attach_with_session_name;
use zellij_sshd::lifecycle::choose_server_session_name;
use zellij_sshd::lifecycle::generate_unique_session_name;
use zellij_sshd::lifecycle::match_session_name;
use zellij_sshd::lifecycle::pick_unique_session_name;
use zellij_sshd::lifecycle::plan_delete_all;
use zellij_sshd::lifecycle::plan_kill_all;
use zellij_sshd::lifecycle::require_target_session;
use zellij_sshd::lifecycle::resolve_action_target;
use zellij_sshd::lifecycle::resolve_attach;
use zellij_sshd::lifecycle::resolve_start;
use zellij_sshd::lifecycle::session_exists;
use zellij_sshd::lifecycle::AttachCommand;
use zellij_sshd::lifecycle::ClientInfo;
use zellij_sshd::lifecycle::ClientOptions;
use zellij_sshd::lifecycle::CliIntent;
use zellij_sshd::lifecycle::LayoutChoice;
use zellij_sshd::lifecycle::ReconnectRequest;
use zellij_sshd::lifecycle::ResolveError;
use zellij_sshd::lifecycle::SavedLayout;
use zellij_sshd::lifecycle::SessionNameMatch;

fn names(list: &[&str]) -> Vec<String> {
    list.iter().map(|s| s.to_string()).collect()
}

fn no_options() -> ClientOptions {
    ClientOptions { session_name: None, attach_to_session: None }
}

fn plain_attach(name: Option<&str>, create: bool) -> AttachCommand {
    AttachCommand {
        session_name: name.map(|s| s.to_string()),
        create,
        force_run_commands: false,
        index: None,
        options: None,
    }
}

#[test]
fn prefix_matching_on_two_names() {
    let live = names(&["alpha", "alphabet"]);
    assert_eq!(
        match_session_name(&live, "alp"),
        SessionNameMatch::AmbiguousPrefix(names(&["alpha", "alphabet"]))
    );
    assert_eq!(
        match_session_name(&live, "alpha"),
        SessionNameMatch::Exact("alpha".to_string())
    );
    assert_eq!(match_session_name(&live, "zz"), SessionNameMatch::NoMatch);
    assert_eq!(
        match_session_name(&live, "alphab"),
        SessionNameMatch::UniquePrefix("alphabet".to_string())
    );
}

#[test]
fn resurrection_takes_precedence_over_creation() {
    let live = names(&[]);
    let layout = SavedLayout { start_suspended_override: None };
    let r = resolve_attach(
        plain_attach(Some("beta"), true),
        no_options(),
        &live,
        &live,
        Some(layout),
        &names(&["candidate"]),
        &names(&["beta"]),
    );
    assert_eq!(r, Ok(ClientInfo::Resurrect("beta".to_string(), layout)));
}

#[test]
fn forced_resurrection_marks_commands_to_run() {
    let live = names(&[]);
    let cmd = AttachCommand {
        session_name: Some("beta".to_string()),
        create: true,
        force_run_commands: true,
        index: None,
        options: None,
    };
    let r = resolve_attach(
        cmd,
        no_options(),
        &live,
        &live,
        Some(SavedLayout { start_suspended_override: None }),
        &names(&[]),
        &names(&["beta"]),
    );
    assert_eq!(
        r,
        Ok(ClientInfo::Resurrect(
            "beta".to_string(),
            SavedLayout { start_suspended_override: Some(false) }
        ))
    );
}

#[test]
fn live_session_wins_over_saved_layout() {
    let live = names(&["beta"]);
    let r = resolve_attach(
        plain_attach(Some("beta"), true),
        no_options(),
        &live,
        &live,
        Some(SavedLayout { start_suspended_override: None }),
        &names(&[]),
        &names(&["beta"]),
    );
    assert_eq!(r, Ok(ClientInfo::Attach("beta".to_string(), no_options())));
}

#[test]
fn single_live_session_is_attached_without_a_name() {
    let live = names(&["only-one"]);
    let r = attach_with_session_name(None, no_options(), false, &live, &names(&[]), &names(&[]));
    assert_eq!(r, Ok(ClientInfo::Attach("only-one".to_string(), no_options())));
}

#[test]
fn no_live_sessions_without_create_is_an_error() {
    let r = attach_with_session_name(
        None,
        no_options(),
        false,
        &names(&[]),
        &names(&[]),
        &names(&[]),
    );
    assert_eq!(r, Err(ResolveError::NoActiveSessions));
}

#[test]
fn many_live_sessions_without_a_name_are_ambiguous() {
    let r = attach_with_session_name(
        None,
        no_options(),
        false,
        &names(&["a", "b"]),
        &names(&[]),
        &names(&[]),
    );
    assert_eq!(r, Err(ResolveError::MultipleActiveSessions));
}

#[test]
fn requested_name_with_create_attaches_or_creates() {
    let live = names(&["here"]);
    let r = attach_with_session_name(
        Some("here".to_string()),
        no_options(),
        true,
        &live,
        &names(&[]),
        &names(&[]),
    );
    assert_eq!(r, Ok(ClientInfo::Attach("here".to_string(), no_options())));
    let r = attach_with_session_name(
        Some("new-name".to_string()),
        no_options(),
        true,
        &live,
        &names(&[]),
        &names(&[]),
    );
    assert_eq!(r, Ok(ClientInfo::New("new-name".to_string())));
}

#[test]
fn ambiguous_prefix_is_reported_with_the_matches() {
    let live = names(&["alpha", "alphabet", "other"]);
    let r = attach_with_session_name(
        Some("alp".to_string()),
        no_options(),
        false,
        &live,
        &names(&[]),
        &names(&[]),
    );
    assert_eq!(r, Err(ResolveError::AmbiguousPrefix(names(&["alpha", "alphabet"]))));
}

#[test]
fn missing_name_is_reported() {
    let r = attach_with_session_name(
        Some("zz".to_string()),
        no_options(),
        false,
        &names(&["alpha"]),
        &names(&[]),
        &names(&[]),
    );
    assert_eq!(r, Err(ResolveError::NoMatchingSession("zz".to_string())));
}

#[test]
fn unique_names_avoid_live_and_dead_sessions() {
    let live = names(&["taken"]);
    let dead = names(&["gone"]);
    let picked = pick_unique_session_name(&names(&["taken", "gone", "fresh"]), &live, &dead);
    assert_eq!(picked, Some("fresh".to_string()));
    assert!(!session_exists("fresh", &live));
    assert!(!session_exists("fresh", &dead));
}

#[test]
fn exhausted_candidates_fail_name_generation() {
    // A thousand candidates, every one colliding with the live set.
    let candidates: Vec<String> = (0..1000).map(|i| format!("s{}", i)).collect();
    let live = candidates.clone();
    assert_eq!(pick_unique_session_name(&candidates, &live, &names(&[])), None);
    assert_eq!(
        generate_unique_session_name(&candidates, &live, &names(&[])),
        Err(ResolveError::NameGenerationExhausted)
    );
}

#[test]
fn candidates_beyond_the_cap_are_not_tried() {
    // The first thousand collide; the thousand-and-first would be free but
    // lies past the cap.
    let mut candidates: Vec<String> = (0..1000).map(|i| format!("s{}", i)).collect();
    candidates.push("past-the-cap".to_string());
    let live: Vec<String> = (0..1000).map(|i| format!("s{}", i)).collect();
    assert_eq!(pick_unique_session_name(&candidates, &live, &names(&[])), None);
}

#[test]
fn indexed_attach_selects_by_position() {
    let sessions = names(&["newest", "older", "oldest"]);
    let r = attach_with_session_index(&sessions, no_options(), 1, false, &names(&[]), &names(&[]));
    assert_eq!(r, Ok(ClientInfo::Attach("older".to_string(), no_options())));
}

#[test]
fn indexed_attach_out_of_range_lists_sessions() {
    let sessions = names(&["a", "b"]);
    let r = attach_with_session_index(&sessions, no_options(), 5, false, &names(&[]), &names(&[]));
    assert_eq!(
        r,
        Err(ResolveError::NoSessionIndexed { index: 5, sessions: names(&["a", "b"]) })
    );
}

#[test]
fn indexed_attach_out_of_range_can_create() {
    let sessions = names(&["a"]);
    let r = attach_with_session_index(
        &sessions,
        no_options(),
        5,
        true,
        &names(&["a", "fresh"]),
        &names(&[]),
    );
    assert_eq!(r, Ok(ClientInfo::New("fresh".to_string())));
}

#[test]
fn indexed_attach_on_empty_registry() {
    let r = attach_with_session_index(
        &names(&[]),
        no_options(),
        0,
        false,
        &names(&[]),
        &names(&[]),
    );
    assert_eq!(r, Err(ResolveError::NoActiveSessions));
}

#[test]
fn start_with_plain_session_argument_creates_it() {
    let intent = CliIntent {
        command: None,
        session: Some("mine".to_string()),
        options: no_options(),
    };
    let r = resolve_start(intent, None, &names(&[]), &names(&[]), None, &names(&[]), &names(&[]))
        .unwrap();
    assert_eq!(r.client, ClientInfo::New("mine".to_string()));
    assert_eq!(r.layout, LayoutChoice::BaseLayout);
}

#[test]
fn start_refuses_to_nest_the_current_session() {
    let intent = CliIntent {
        command: None,
        session: None,
        options: ClientOptions {
            session_name: Some("inner".to_string()),
            attach_to_session: None,
        },
    };
    let r = resolve_start(
        intent,
        Some("inner".to_string()),
        &names(&[]),
        &names(&[]),
        None,
        &names(&[]),
        &names(&[]),
    );
    assert_eq!(r, Err(ResolveError::NestedSessionAttach("inner".to_string())));
}

#[test]
fn start_with_configured_name_attaches_when_asked() {
    let options = ClientOptions {
        session_name: Some("cfg".to_string()),
        attach_to_session: Some(true),
    };
    let intent = CliIntent { command: None, session: None, options: options.clone() };
    let live = names(&["cfg"]);
    let r = resolve_start(intent, None, &live, &live, None, &names(&[]), &names(&[])).unwrap();
    assert_eq!(r.client, ClientInfo::Attach("cfg".to_string(), options));
    assert_eq!(r.layout, LayoutChoice::NoLayout);
}

#[test]
fn start_with_configured_name_creates_by_default() {
    let intent = CliIntent {
        command: None,
        session: None,
        options: ClientOptions {
            session_name: Some("cfg".to_string()),
            attach_to_session: None,
        },
    };
    let r = resolve_start(intent, None, &names(&[]), &names(&[]), None, &names(&[]), &names(&[]))
        .unwrap();
    assert_eq!(r.client, ClientInfo::New("cfg".to_string()));
}

#[test]
fn start_with_nothing_generates_a_unique_name() {
    let intent = CliIntent { command: None, session: None, options: no_options() };
    let r = resolve_start(
        intent,
        None,
        &names(&["busy"]),
        &names(&["busy"]),
        None,
        &names(&["busy", "quiet"]),
        &names(&[]),
    )
    .unwrap();
    assert_eq!(r.client, ClientInfo::New("quiet".to_string()));
    assert_eq!(r.layout, LayoutChoice::BaseLayout);
}

#[test]
fn start_with_attach_command_resolves_and_picks_layout() {
    let intent = CliIntent {
        command: Some(plain_attach(Some("beta"), true)),
        session: None,
        options: no_options(),
    };
    let layout = SavedLayout { start_suspended_override: None };
    let r = resolve_start(
        intent,
        None,
        &names(&[]),
        &names(&[]),
        Some(layout),
        &names(&[]),
        &names(&["beta"]),
    )
    .unwrap();
    assert_eq!(r.client, ClientInfo::Resurrect("beta".to_string(), layout));
    assert_eq!(r.layout, LayoutChoice::Resurrected(layout));
}

#[test]
fn reconnect_with_a_name_becomes_an_attach_that_may_create() {
    let intent = CliIntent { command: None, session: None, options: no_options() };
    let r = apply_reconnect(
        intent,
        &ReconnectRequest {
            name: Some("next".to_string()),
            tab_position: Some(2),
            pane_id: None,
        },
    );
    let cmd = r.command.expect("attach command installed");
    assert_eq!(cmd.session_name, Some("next".to_string()));
    assert!(cmd.create);
    assert!(!cmd.force_run_commands);
    assert_eq!(cmd.index, None);
    assert_eq!(cmd.options, None);
}

#[test]
fn reconnect_without_a_name_clears_session_affinity() {
    let intent = CliIntent {
        command: Some(plain_attach(Some("old"), false)),
        session: Some("old".to_string()),
        options: ClientOptions {
            session_name: Some("cfg".to_string()),
            attach_to_session: Some(true),
        },
    };
    let r = apply_reconnect(
        intent,
        &ReconnectRequest { name: None, tab_position: None, pane_id: None },
    );
    assert_eq!(r.command, None);
    assert_eq!(r.session, None);
    assert_eq!(
        r.options,
        ClientOptions { session_name: Some("cfg".to_string()), attach_to_session: None }
    );
}

#[test]
fn action_targets_follow_the_live_sessions() {
    assert_eq!(
        resolve_action_target(&names(&[]), None, None),
        Err(ResolveError::NoActiveSessions)
    );
    assert_eq!(
        resolve_action_target(&names(&["one"]), None, None),
        Ok("one".to_string())
    );
    assert_eq!(
        resolve_action_target(&names(&["one"]), Some("other".to_string()), None),
        Err(ResolveError::NoMatchingSession("other".to_string()))
    );
    assert_eq!(
        resolve_action_target(&names(&["a", "b"]), Some("b".to_string()), None),
        Ok("b".to_string())
    );
    assert_eq!(
        resolve_action_target(&names(&["a", "b"]), None, Some("a".to_string())),
        Ok("a".to_string())
    );
    assert_eq!(
        resolve_action_target(&names(&["a", "b"]), None, None),
        Err(ResolveError::MultipleActiveSessions)
    );
}

#[test]
fn kill_all_needs_a_live_session() {
    assert_eq!(plan_kill_all(&names(&[])), Err(ResolveError::NoActiveSessions));
    assert_eq!(plan_kill_all(&names(&["a", "b"])), Ok(names(&["a", "b"])));
}

#[test]
fn delete_all_spares_live_sessions_unless_forced() {
    let resurrectable = names(&["dead", "shared"]);
    let live = names(&["shared"]);
    assert_eq!(plan_delete_all(&resurrectable, &live, false), names(&["dead"]));
    assert_eq!(plan_delete_all(&resurrectable, &live, true), names(&["dead", "shared"]));
}

#[test]
fn kill_and_delete_need_a_target() {
    assert_eq!(require_target_session(None), Err(ResolveError::NoTargetSpecified));
    assert_eq!(require_target_session(Some("t".to_string())), Ok("t".to_string()));
}

#[test]
fn server_session_name_prefers_explicit_then_environment() {
    assert_eq!(
        choose_server_session_name(
            Some("cli".to_string()),
            Some("env".to_string()),
            &names(&[]),
            &names(&[]),
            &names(&[])
        ),
        Ok("cli".to_string())
    );
    assert_eq!(
        choose_server_session_name(
            None,
            Some("env".to_string()),
            &names(&[]),
            &names(&[]),
            &names(&[])
        ),
        Ok("env".to_string())
    );
    assert_eq!(
        choose_server_session_name(None, None, &names(&["gen"]), &names(&[]), &names(&[])),
        Ok("gen".to_string())
    );
}

#[test]
fn error_kinds_have_messages() {
    assert!(!ResolveError::NoActiveSessions.kind_message().is_empty());
    assert!(!ResolveError::NameGenerationExhausted.kind_message().is_empty());
}
