use pfman::kube_config::{KubeContext, KubeTarget};
use pfman::models::{Session, SessionStatus, SessionType};
use pfman::ssh_config::SshHost;
use pfman::time::Timestamp;
use pfman::ui::session_form::{
    field_for, form_title, label, resolve_kube_context, suggestion_title, wrap, Field, FormOutcome,
    FormState, FormStep, SuggestionSource, VISIBLE_ITEMS,
};
use pfman::ui::{FormMode, Key, KeyCode};

fn host(name: &str, user: Option<&str>) -> SshHost {
    SshHost { name: name.to_string(), hostname: None, user: user.map(|s| s.to_string()), port: None }
}

fn context(name: &str) -> KubeContext {
    KubeContext { name: name.to_string(), cluster: "c".to_string(), namespace: None }
}

fn target(name: &str, namespace: &str, ports: Vec<u16>) -> KubeTarget {
    KubeTarget { kind: "pods".to_string(), name: name.to_string(), namespace: namespace.to_string(), ports }
}

fn form() -> FormState {
    FormState::new(
        vec![host("alpha", Some("root")), host("beta", None), host("alps", None)],
        "minikube".to_string(),
        vec![context("minikube"), context("prod"), context("production")],
        vec!["default".to_string(), "shop".to_string()],
    )
}

fn kube_form() -> FormState {
    let mut f = form();
    f.session_type = SessionType::Kubectl;
    f.step = FormStep::FillFields;
    f
}

fn key(code: KeyCode) -> Key {
    Key { code, control: false }
}

fn press(f: &mut FormState, code: KeyCode) -> FormOutcome {
    let k = key(code);
    assert!(f.accepts(k));
    f.handle_key(k, true, None)
}

#[test]
fn new_form_starts_at_the_choice_of_kind() {
    let f = form();
    assert_eq!(f.step, FormStep::SelectType);
    assert_eq!(f.type_selection, 0);
    assert_eq!(f.session_type, SessionType::SSH);
    assert_eq!(f.context_field, "minikube");
    assert_eq!(f.name, "");
    assert_eq!(f.ssh_hosts.len(), 3);
    assert_eq!(f.filtered_hosts.len(), 3);
    assert_eq!(f.kube_contexts.len(), 3);
    assert_eq!(f.filtered_kube_contexts.len(), 3);
    assert_eq!(f.namespaces, vec!["default", "shop"]);
    assert_eq!(f.filtered_namespaces, vec!["default", "shop"]);
    assert!(f.kube_targets.is_empty());
    assert!(!f.show_suggestions);
    assert!(!f.loading_targets);
    assert_eq!(f.focused_field, 0);
    assert_eq!(f.cursor_pos, 0);
}

#[test]
fn kube_context_falls_back_to_what_kubectl_reports() {
    let parsed = resolve_kube_context(Some(("a".to_string(), vec![context("a")])), Some("b".to_string()));
    assert_eq!(parsed.0, "a");
    assert_eq!(parsed.1.len(), 1);
    let reported = resolve_kube_context(None, Some("b".to_string()));
    assert_eq!(reported.0, "b");
    assert!(reported.1.is_empty());
    assert_eq!(resolve_kube_context(None, None).0, "");
}

#[test]
fn form_for_editing_takes_over_the_session() {
    let mut s = Session::with_identity(
        7,
        Timestamp { nanos: 0 },
        "wéb".to_string(),
        SessionType::Kubectl,
        "pods/a".to_string(),
        8080,
        Some(80),
    );
    s.kube_namespace = Some("shop".to_string());
    let f = FormState::from_session(&s, vec![host("a", None)], "fallback".to_string(), vec![context("x")]);
    assert_eq!(f.step, FormStep::FillFields);
    assert_eq!(f.name, "wéb");
    assert_eq!(f.cursor_pos, 4);
    assert_eq!(f.focused_field, 1);
    assert_eq!(f.context_field, "fallback");
    assert_eq!(f.namespace_field, "shop");
    assert_eq!(f.local_port, "8080");
    assert_eq!(f.remote_port, "80");
    assert!(f.namespaces.is_empty());
    assert!(f.filtered_namespaces.is_empty());
    let mut p = Session::with_identity(
        7,
        Timestamp { nanos: 0 },
        "p".to_string(),
        SessionType::Socks5,
        "h".to_string(),
        1080,
        None,
    );
    p.kube_context = Some("own".to_string());
    let g = FormState::from_session(&p, Vec::new(), "fallback".to_string(), Vec::new());
    assert_eq!(g.focused_field, 0);
    assert_eq!(g.remote_port, "");
    assert_eq!(g.context_field, "own");
    assert_eq!(g.namespace_field, "");
}

#[test]
fn to_session_needs_the_ports_of_the_kind() {
    let mut f = form();
    f.name = "n".to_string();
    f.target = "t".to_string();
    f.local_port = "8080".to_string();
    assert!(f.to_session().is_none());
    f.remote_port = "80".to_string();
    let s = f.to_session().unwrap();
    assert_eq!(s.name, "n");
    assert_eq!(s.target, "t");
    assert_eq!(s.local_port, 8080);
    assert_eq!(s.remote_port, Some(80));
    assert_eq!(s.status, SessionStatus::Stopped);
    assert_eq!(s.kube_context, None);
    f.local_port = "80 80".to_string();
    assert!(f.to_session().is_none());
    f.local_port = "65536".to_string();
    assert!(f.to_session().is_none());
    f.local_port = "1".to_string();
    f.session_type = SessionType::Socks5;
    f.remote_port = "junk".to_string();
    let p = f.to_session().unwrap();
    assert_eq!(p.remote_port, None);
    assert_eq!(p.kube_context, None);
}

#[test]
fn to_session_keeps_context_and_namespace_of_a_port_forward() {
    let mut f = kube_form();
    f.local_port = "1".to_string();
    f.remote_port = "2".to_string();
    f.namespace_field = "shop".to_string();
    let s = f.to_session().unwrap();
    assert_eq!(s.kube_context, Some("minikube".to_string()));
    assert_eq!(s.kube_namespace, Some("shop".to_string()));
    f.context_field = String::new();
    f.namespace_field = String::new();
    let t = f.to_session().unwrap();
    assert_eq!(t.kube_context, None);
    assert_eq!(t.kube_namespace, None);
}

#[test]
fn toggling_cycles_through_the_kinds() {
    let mut f = form();
    f.toggle_type();
    assert_eq!(f.session_type, SessionType::Kubectl);
    f.toggle_type();
    assert_eq!(f.session_type, SessionType::Socks5);
    f.toggle_type();
    assert_eq!(f.session_type, SessionType::SSH);
}

#[test]
fn confirming_takes_the_selected_kind() {
    for (position, kind) in [
        (0usize, SessionType::SSH),
        (1, SessionType::Kubectl),
        (2, SessionType::Socks5),
        (9, SessionType::SSH),
    ] {
        let mut f = form();
        f.type_selection = position;
        f.confirm_type_selection();
        assert_eq!(f.session_type, kind);
        assert_eq!(f.step, FormStep::FillFields);
    }
}

#[test]
fn selection_of_kind_wraps_around() {
    let mut f = form();
    f.move_type_selection(-1);
    assert_eq!(f.type_selection, 2);
    f.move_type_selection(1);
    assert_eq!(f.type_selection, 0);
    f.move_type_selection(7);
    assert_eq!(f.type_selection, 1);
    f.move_type_selection(i32::MIN);
    assert_eq!(f.type_selection as i64, (1i64 + i32::MIN as i64).rem_euclid(3));
}

#[test]
fn wrapping_is_euclidean() {
    assert_eq!(wrap(0, -1, 5), 4);
    assert_eq!(wrap(4, 1, 5), 0);
    assert_eq!(wrap(2, -12, 5), 0);
    assert_eq!(wrap(2, 0, 1), 0);
    assert_eq!(wrap(usize::MAX, 1, 7) as u128, (usize::MAX as u128 + 1) % 7);
}

#[test]
fn field_count_depends_on_the_kind() {
    let mut f = form();
    assert_eq!(f.field_count(), 4);
    f.session_type = SessionType::Kubectl;
    assert_eq!(f.field_count(), 6);
    f.session_type = SessionType::Socks5;
    assert_eq!(f.field_count(), 3);
}

#[test]
fn fields_are_laid_out_by_kind() {
    let mut f = form();
    assert_eq!(f.fields(), vec![Field::Name, Field::Target, Field::LocalPort, Field::RemotePort]);
    f.session_type = SessionType::Socks5;
    assert_eq!(f.fields(), vec![Field::Name, Field::Target, Field::LocalPort]);
    f.session_type = SessionType::Kubectl;
    assert_eq!(
        f.fields(),
        vec![
            Field::Context,
            Field::Name,
            Field::Namespace,
            Field::Target,
            Field::LocalPort,
            Field::RemotePort
        ]
    );
    assert_eq!(field_for(SessionType::Kubectl, 6), None);
    assert_eq!(field_for(SessionType::SSH, 4), None);
    assert_eq!(field_for(SessionType::SSH, 1), Some(Field::Target));
    assert_eq!(label(Field::LocalPort), "Local Port");
    assert_eq!(label(Field::Context), "Context");
    assert_eq!(form_title(FormMode::Create), "Create Session");
    assert_eq!(form_title(FormMode::Edit(3)), "Edit Session");
}

#[test]
fn typing_a_target_suggests_hosts() {
    let mut f = form();
    f.step = FormStep::FillFields;
    f.focused_field = 1;
    f.selected_suggestion = 2;
    f.scroll_offset = 1;
    assert!(f.update_target("AL".to_string()).is_none());
    assert_eq!(f.target, "AL");
    let names: Vec<String> = f.filtered_hosts.iter().map(|h| h.name.clone()).collect();
    assert_eq!(names, vec!["alpha", "alps"]);
    assert!(f.show_suggestions);
    assert_eq!(f.selected_suggestion, 0);
    assert_eq!(f.scroll_offset, 0);
    assert!(f.update_target("zzz".to_string()).is_none());
    assert!(!f.show_suggestions);
    f.focused_field = 0;
    f.update_target("al".to_string());
    assert!(f.filtered_hosts.is_empty());
    assert_eq!(f.target, "al");
}

#[test]
fn typing_a_kube_target_fetches_targets_once() {
    let mut f = kube_form();
    f.focused_field = 3;
    f.namespace_field = "shop".to_string();
    let query = f.update_target("w".to_string()).unwrap();
    assert_eq!(query.context, Some("minikube".to_string()));
    assert_eq!(query.namespace, Some("shop".to_string()));
    assert!(f.loading_targets);
    assert!(f.update_target("we".to_string()).is_none());
    assert!(!f.show_suggestions);
    assert!(f.poll_target_updates(Some(vec![
        target("web", "shop", vec![80]),
        target("db", "shop", vec![5432]),
    ])));
    assert!(!f.loading_targets);
    assert_eq!(f.kube_targets.len(), 2);
    assert_eq!(f.filtered_kube_targets.len(), 1);
    assert!(f.show_suggestions);
    assert!(!f.poll_target_updates(None));
    assert!(f.update_target("db".to_string()).is_none());
    assert_eq!(f.filtered_kube_targets.len(), 1);
    assert_eq!(f.filtered_kube_targets[0].name, "db");
}

#[test]
fn empty_kube_target_filters_what_is_known() {
    let mut f = kube_form();
    f.focused_field = 3;
    assert!(f.update_target(String::new()).is_none());
    assert!(!f.loading_targets);
    assert!(!f.show_suggestions);
}

#[test]
fn arriving_targets_open_only_under_the_target_field() {
    let mut f = kube_form();
    f.focused_field = 4;
    f.loading_targets = true;
    assert!(f.poll_target_updates(Some(vec![target("web", "shop", vec![80])])));
    assert!(!f.show_suggestions);
    assert_eq!(f.filtered_kube_targets.len(), 1);
}

#[test]
fn loading_targets_is_for_port_forwards_only() {
    let mut f = form();
    assert!(f.start_loading_targets().is_none());
    assert!(!f.loading_targets);
    let mut k = kube_form();
    k.context_field = String::new();
    let q = k.start_loading_targets().unwrap();
    assert_eq!(q.context, None);
    assert_eq!(q.namespace, None);
    assert!(k.loading_targets);
}

#[test]
fn typing_a_context_suggests_contexts() {
    let mut f = kube_form();
    f.update_context("PROD".to_string());
    let names: Vec<String> = f.filtered_kube_contexts.iter().map(|c| c.name.clone()).collect();
    assert_eq!(names, vec!["prod", "production"]);
    assert!(f.show_suggestions);
    f.focused_field = 1;
    f.update_context("mini".to_string());
    assert_eq!(f.context_field, "mini");
    assert_eq!(f.filtered_kube_contexts.len(), 2);
    f.filter_contexts();
    assert_eq!(f.filtered_kube_contexts.len(), 1);
}

#[test]
fn typing_a_namespace_suggests_namespaces() {
    let mut f = kube_form();
    f.focused_field = 2;
    f.update_namespace("SH".to_string(), None);
    assert_eq!(f.filtered_namespaces, vec!["shop"]);
    assert!(f.show_suggestions);
    f.update_namespace("sh".to_string(), Some(vec!["ignored".to_string()]));
    assert_eq!(f.namespaces, vec!["default", "shop"]);
    f.namespace_field = "def".to_string();
    f.filter_namespaces();
    assert_eq!(f.filtered_namespaces, vec!["default"]);
}

#[test]
fn namespaces_are_fetched_when_none_is_known() {
    let mut f = kube_form();
    f.namespaces = Vec::new();
    f.filtered_namespaces = Vec::new();
    f.focused_field = 1;
    assert!(f.on_focus_change().is_none());
    f.focused_field = 2;
    let q = f.on_focus_change().unwrap();
    assert_eq!(q.context, Some("minikube".to_string()));
    f.update_namespace("a".to_string(), Some(vec!["alpha".to_string(), "beta".to_string(), "gamma".to_string()]));
    assert_eq!(f.namespaces, vec!["alpha", "beta", "gamma"]);
    assert_eq!(f.filtered_namespaces, vec!["alpha", "beta", "gamma"]);
    assert!(f.on_focus_change().is_none());
    f.update_namespace("e".to_string(), None);
    assert_eq!(f.filtered_namespaces, vec!["beta"]);
}

#[test]
fn reloading_namespaces_is_for_port_forwards_only() {
    let mut f = form();
    f.reload_namespaces(vec!["x".to_string()]);
    assert_eq!(f.namespaces, vec!["default", "shop"]);
    let mut k = kube_form();
    k.reload_namespaces(vec!["x".to_string()]);
    assert_eq!(k.namespaces, vec!["x"]);
    assert_eq!(k.filtered_namespaces, vec!["x"]);
    assert_eq!(k.namespace_query().context, Some("minikube".to_string()));
}

#[test]
fn selecting_a_host_fills_the_target() {
    let mut f = form();
    f.step = FormStep::FillFields;
    f.focused_field = 1;
    f.update_target("al".to_string());
    assert!(f.select_suggestion().is_none());
    assert_eq!(f.target, "root@alpha");
    assert!(!f.show_suggestions);
    assert!(f.select_suggestion().is_none());
    assert_eq!(f.target, "root@alpha");
}

#[test]
fn selecting_a_context_asks_for_its_namespaces() {
    let mut f = kube_form();
    f.update_context("prod".to_string());
    f.move_suggestion(1);
    let q = f.select_suggestion().unwrap();
    assert_eq!(q.context, Some("production".to_string()));
    assert_eq!(f.context_field, "production");
    assert_eq!(f.cursor_pos, 10);
    assert!(!f.show_suggestions);
}

#[test]
fn selecting_a_namespace_forgets_the_targets() {
    let mut f = kube_form();
    f.kube_targets = vec![target("web", "shop", vec![80])];
    f.focused_field = 2;
    f.update_namespace("sh".to_string(), None);
    assert!(f.select_suggestion().is_none());
    assert_eq!(f.namespace_field, "shop");
    assert_eq!(f.cursor_pos, 4);
    assert!(f.kube_targets.is_empty());
    assert!(!f.show_suggestions);
}

#[test]
fn selecting_a_target_fills_what_is_empty() {
    let mut f = kube_form();
    f.focused_field = 3;
    f.kube_targets = vec![target("web", "shop", vec![80]), target("multi", "data", vec![1, 2])];
    f.update_target("web".to_string());
    assert!(f.select_suggestion().is_none());
    assert_eq!(f.target, "pods/web");
    assert_eq!(f.namespace_field, "shop");
    assert_eq!(f.available_ports, vec![80]);
    assert_eq!(f.local_port, "80");
    assert_eq!(f.remote_port, "80");
    f.update_target("multi".to_string());
    f.local_port = String::new();
    f.select_suggestion();
    assert_eq!(f.target, "pods/multi");
    assert_eq!(f.namespace_field, "shop");
    assert_eq!(f.available_ports, vec![1, 2]);
    assert_eq!(f.local_port, "");
    assert_eq!(f.remote_port, "80");
}

#[test]
fn selecting_a_port_fills_the_port_in_focus() {
    let mut f = kube_form();
    f.available_ports = vec![80, 8443];
    f.focused_field = 4;
    f.show_port_suggestions();
    assert!(f.show_suggestions);
    f.move_suggestion(1);
    f.select_suggestion();
    assert_eq!(f.local_port, "8443");
    assert_eq!(f.cursor_pos, 4);
    f.focused_field = 5;
    f.show_port_suggestions();
    f.select_suggestion();
    assert_eq!(f.remote_port, "80");
    assert_eq!(f.cursor_pos, 2);
}

#[test]
fn ports_are_offered_only_where_there_are_any() {
    let mut f = kube_form();
    f.focused_field = 4;
    f.show_port_suggestions();
    assert!(!f.show_suggestions);
    f.available_ports = vec![1];
    f.focused_field = 3;
    f.show_port_suggestions();
    assert!(!f.show_suggestions);
    f.session_type = SessionType::SSH;
    f.focused_field = 4;
    f.show_port_suggestions();
    assert!(!f.show_suggestions);
}

#[test]
fn moving_the_selection_scrolls_the_list() {
    let hosts: Vec<SshHost> = (0..20).map(|i| host(&format!("h{}", i), None)).collect();
    let mut f = FormState::new(hosts, String::new(), Vec::new(), Vec::new());
    f.step = FormStep::FillFields;
    f.move_suggestion(1);
    assert_eq!(f.selected_suggestion, 0);
    f.show_suggestions = true;
    for _ in 0..7 {
        f.move_suggestion(1);
    }
    assert_eq!((f.selected_suggestion, f.scroll_offset), (7, 0));
    f.move_suggestion(1);
    assert_eq!((f.selected_suggestion, f.scroll_offset), (8, 1));
    f.move_suggestion(-9);
    assert_eq!((f.selected_suggestion, f.scroll_offset), (19, 12));
    f.move_suggestion(1);
    assert_eq!((f.selected_suggestion, f.scroll_offset), (0, 0));
    f.scroll_offset = 5;
    f.move_suggestion(3);
    assert_eq!((f.selected_suggestion, f.scroll_offset), (3, 3));
    assert_eq!(VISIBLE_ITEMS, 8);
    f.filtered_hosts = Vec::new();
    f.move_suggestion(1);
    assert_eq!(f.selected_suggestion, 3);
}

#[test]
fn suggestions_are_drawn_from_the_scroll_offset() {
    let mut f = form();
    assert_eq!(f.suggestion_source(), SuggestionSource::Hosts);
    assert_eq!(f.suggestion_items(), vec!["root@alpha", "beta", "alps"]);
    f.scroll_offset = 2;
    assert_eq!(f.suggestion_items(), vec!["alps"]);
    f.scroll_offset = 3;
    assert!(f.suggestion_items().is_empty());
    let mut k = kube_form();
    assert_eq!(k.suggestion_source(), SuggestionSource::Contexts);
    assert_eq!(k.suggestion_items(), vec!["minikube", "prod", "production"]);
    k.focused_field = 2;
    assert_eq!(k.suggestion_items(), vec!["default", "shop"]);
    k.focused_field = 5;
    k.available_ports = vec![80, 443];
    assert_eq!(k.suggestion_source(), SuggestionSource::Ports);
    assert_eq!(k.suggestion_items(), vec!["80", "443"]);
    assert_eq!(k.suggestion_count(), 2);
    k.focused_field = 1;
    k.filtered_kube_targets = vec![target("web", "shop", vec![80])];
    assert_eq!(k.suggestion_source(), SuggestionSource::Targets);
    assert_eq!(k.suggestion_items(), vec!["pods/web [shop] - ports: 80"]);
    assert_eq!(
        suggestion_title(SuggestionSource::Hosts),
        "SSH Hosts (↑↓ navigate, Enter select, Esc close)"
    );
    assert_eq!(
        suggestion_title(SuggestionSource::Ports),
        "Available Ports (↑↓ navigate, Enter select, Esc close)"
    );
}

#[test]
fn hiding_closes_the_suggestions() {
    let mut f = form();
    f.show_suggestions = true;
    f.hide_suggestions();
    assert!(!f.show_suggestions);
}

#[test]
fn keys_choose_the_kind() {
    let mut f = form();
    assert!(matches!(press(&mut f, KeyCode::Up), FormOutcome::Stay));
    assert_eq!(f.type_selection, 2);
    press(&mut f, KeyCode::Down);
    press(&mut f, KeyCode::Down);
    assert_eq!(f.type_selection, 1);
    press(&mut f, KeyCode::Char('x'));
    assert_eq!(f.name, "");
    assert!(matches!(press(&mut f, KeyCode::Enter), FormOutcome::Stay));
    assert_eq!(f.session_type, SessionType::Kubectl);
    assert_eq!(f.step, FormStep::FillFields);
    let mut g = form();
    assert!(matches!(press(&mut g, KeyCode::Esc), FormOutcome::Close));
}

#[test]
fn keys_type_into_the_field_in_focus() {
    let mut f = form();
    f.step = FormStep::FillFields;
    press(&mut f, KeyCode::Char('a'));
    press(&mut f, KeyCode::Char('c'));
    f.cursor_pos = 1;
    press(&mut f, KeyCode::Char('b'));
    assert_eq!(f.name, "abc");
    assert_eq!(f.cursor_pos, 2);
    press(&mut f, KeyCode::Backspace);
    assert_eq!(f.name, "ac");
    assert_eq!(f.cursor_pos, 1);
    press(&mut f, KeyCode::Backspace);
    press(&mut f, KeyCode::Backspace);
    assert_eq!(f.name, "c");
    assert_eq!(f.cursor_pos, 0);
    press(&mut f, KeyCode::Other);
    assert_eq!(f.name, "c");
    let ctrl_a = Key { code: KeyCode::Char('a'), control: true };
    assert!(matches!(f.handle_key(ctrl_a, true, None), FormOutcome::Stay));
    assert_eq!(f.name, "ac");
}

#[test]
fn cursor_off_a_character_boundary_is_not_accepted() {
    let mut f = form();
    f.step = FormStep::FillFields;
    press(&mut f, KeyCode::Char('é'));
    assert_eq!(f.name, "é");
    assert_eq!(f.cursor_pos, 1);
    assert!(!f.accepts(key(KeyCode::Char('x'))));
    assert!(f.accepts(key(KeyCode::Backspace)));
    assert!(f.accepts(key(KeyCode::Tab)));
    f.cursor_pos = 2;
    assert!(f.accepts(key(KeyCode::Char('x'))));
    assert!(!f.accepts(key(KeyCode::Backspace)));
    f.cursor_pos = 3;
    assert!(!f.accepts(key(KeyCode::Char('x'))));
    f.focused_field = 9;
    assert!(f.accepts(key(KeyCode::Char('x'))));
}

#[test]
fn save_and_escape_leave_the_form_to_the_caller() {
    let mut f = form();
    f.step = FormStep::FillFields;
    let save = Key { code: KeyCode::Char('s'), control: true };
    assert!(matches!(f.handle_key(save, true, None), FormOutcome::Save));
    let save_upper = Key { code: KeyCode::Char('S'), control: true };
    assert!(matches!(f.handle_key(save_upper, false, None), FormOutcome::Save));
    assert_eq!(f.name, "");
    assert!(matches!(press(&mut f, KeyCode::Esc), FormOutcome::Close));
    press(&mut f, KeyCode::Char('s'));
    assert_eq!(f.name, "s");
}

#[test]
fn open_suggestions_take_the_steering_keys() {
    let mut f = form();
    f.step = FormStep::FillFields;
    f.focused_field = 1;
    f.cursor_pos = 0;
    press(&mut f, KeyCode::Char('a'));
    assert!(f.show_suggestions);
    assert!(matches!(press(&mut f, KeyCode::Down), FormOutcome::Stay));
    assert_eq!(f.selected_suggestion, 1);
    assert!(matches!(press(&mut f, KeyCode::Esc), FormOutcome::Stay));
    assert!(!f.show_suggestions);
    press(&mut f, KeyCode::Char('l'));
    assert_eq!(f.target, "al");
    press(&mut f, KeyCode::Up);
    assert_eq!(f.selected_suggestion, 1);
    press(&mut f, KeyCode::Enter);
    assert_eq!(f.target, "alps");
    assert!(matches!(press(&mut f, KeyCode::Enter), FormOutcome::Stay));
}

#[test]
fn tab_moves_the_focus_and_mirrors_ports_while_creating() {
    let mut f = form();
    f.step = FormStep::FillFields;
    f.name = "abc".to_string();
    f.focused_field = 2;
    f.local_port = "8080".to_string();
    f.show_suggestions = false;
    press(&mut f, KeyCode::Tab);
    assert_eq!(f.focused_field, 3);
    assert_eq!(f.remote_port, "8080");
    assert_eq!(f.cursor_pos, 4);
    press(&mut f, KeyCode::Tab);
    assert_eq!(f.focused_field, 0);
    assert_eq!(f.cursor_pos, 3);
    press(&mut f, KeyCode::BackTab);
    assert_eq!(f.focused_field, 3);
    let mut e = form();
    e.step = FormStep::FillFields;
    e.focused_field = 3;
    e.remote_port = "22".to_string();
    let tab = key(KeyCode::BackTab);
    e.handle_key(tab, false, None);
    assert_eq!(e.local_port, "");
    assert_eq!(e.focused_field, 2);
    e.focused_field = 3;
    e.handle_key(tab, true, None);
    assert_eq!(e.local_port, "22");
    let mut p = form();
    p.step = FormStep::FillFields;
    p.session_type = SessionType::Socks5;
    p.focused_field = 2;
    p.local_port = "1".to_string();
    press(&mut p, KeyCode::Tab);
    assert_eq!(p.focused_field, 0);
    assert_eq!(p.remote_port, "");
}

#[test]
fn tab_onto_the_namespace_asks_for_namespaces() {
    let mut f = kube_form();
    f.namespaces = Vec::new();
    f.filtered_namespaces = Vec::new();
    f.focused_field = 1;
    match press(&mut f, KeyCode::Tab) {
        FormOutcome::LoadNamespaces(q) => assert_eq!(q.context, Some("minikube".to_string())),
        _ => panic!("the namespaces are due"),
    }
    assert_eq!(f.focused_field, 2);
    f.reload_namespaces(vec!["a".to_string()]);
    f.focused_field = 1;
    assert!(matches!(press(&mut f, KeyCode::Tab), FormOutcome::Stay));
    f.available_ports = vec![80];
    f.focused_field = 3;
    press(&mut f, KeyCode::Tab);
    assert_eq!(f.focused_field, 4);
    assert!(f.show_suggestions);
    f.focused_field = 5;
    f.show_suggestions = false;
    press(&mut f, KeyCode::Tab);
    assert_eq!(f.focused_field, 0);
    assert_eq!(f.cursor_pos, 8);
}

#[test]
fn typing_a_namespace_brings_the_namespaces_along() {
    let mut f = kube_form();
    f.namespaces = Vec::new();
    f.filtered_namespaces = Vec::new();
    f.kube_targets = vec![target("web", "shop", vec![80])];
    f.focused_field = 2;
    let k = key(KeyCode::Char('s'));
    let wanted = f.namespaces_wanted_by(k).unwrap();
    assert_eq!(wanted.context, Some("minikube".to_string()));
    assert!(f.namespaces_wanted_by(key(KeyCode::Tab)).is_none());
    f.handle_key(k, true, Some(vec!["shop".to_string(), "data".to_string()]));
    assert_eq!(f.namespace_field, "s");
    assert_eq!(f.namespaces, vec!["shop", "data"]);
    assert_eq!(f.filtered_namespaces, vec!["shop"]);
    assert!(f.kube_targets.is_empty());
    assert!(f.namespaces_wanted_by(key(KeyCode::Char('h'))).is_none());
}

#[test]
fn typing_a_kube_target_reports_the_fetch() {
    let mut f = kube_form();
    f.focused_field = 3;
    match press(&mut f, KeyCode::Char('w')) {
        FormOutcome::LoadTargets(q) => {
            assert_eq!(q.context, Some("minikube".to_string()));
            assert_eq!(q.namespace, None);
        }
        _ => panic!("the targets are due"),
    }
    assert!(matches!(press(&mut f, KeyCode::Char('e')), FormOutcome::Stay));
    assert_eq!(f.target, "we");
}
