//! The form in which a session is created or edited: its fields, the
//! suggestions offered for them, and how both change as the user moves on.

use crate::kube_config::{
    context_views, copy_contexts, copy_ports, filter_contexts, filter_namespaces, filter_targets,
    filtered_contexts, filtered_namespaces, filtered_targets, KubeContext, KubeContextView,
    KubeTarget, KubeTargetView, target_views,
};
use crate::models::{Session, SessionType, SessionView, StatusView};
use crate::ssh_config::{copy_hosts, filter_hosts, filtered_hosts, host_views, SshHost, SshHostView};
use crate::text::{
    at_boundary, byte_len, copy_texts, decimal, decimal_text, insert_char, inserted, is_empty_text,
    on_boundary, opt_text, parse_u16, parsed_u16, remove_char, removed, texts,
};
use crate::time::Timestamp;
use crate::ui::{FormMode, Key, KeyCode};
use vstd::prelude::*;
use vstd::string::*;

verus! {

/// The two steps of the form: choosing the kind of session, then filling
/// in its fields.
#[derive(Debug, Clone, Copy, PartialEq, Eq, Structural)]
pub enum FormStep {
    SelectType,
    FillFields,
}

/// The number of suggestions that are visible at once.
pub const VISIBLE_ITEMS: usize = 8;

/// The state of the form.
#[derive(Debug)]
pub struct FormState {
    pub step: FormStep,
    pub type_selection: usize,
    pub name: String,
    pub session_type: SessionType,
    pub context_field: String,
    pub namespace_field: String,
    pub target: String,
    pub local_port: String,
    pub remote_port: String,
    pub focused_field: usize,
    pub cursor_pos: usize,
    pub ssh_hosts: Vec<SshHost>,
    pub filtered_hosts: Vec<SshHost>,
    pub selected_suggestion: usize,
    pub show_suggestions: bool,
    pub kube_contexts: Vec<KubeContext>,
    pub filtered_kube_contexts: Vec<KubeContext>,
    pub namespaces: Vec<String>,
    pub filtered_namespaces: Vec<String>,
    pub kube_targets: Vec<KubeTarget>,
    pub filtered_kube_targets: Vec<KubeTarget>,
    pub available_ports: Vec<u16>,
    pub scroll_offset: usize,
    pub loading_targets: bool,
}

/// The mathematical value of a [`FormState`].
pub struct FormView {
    pub step: FormStep,
    pub type_selection: usize,
    pub name: Seq<char>,
    pub session_type: SessionType,
    pub context_field: Seq<char>,
    pub namespace_field: Seq<char>,
    pub target: Seq<char>,
    pub local_port: Seq<char>,
    pub remote_port: Seq<char>,
    pub focused_field: usize,
    pub cursor_pos: usize,
    pub ssh_hosts: Seq<SshHostView>,
    pub filtered_hosts: Seq<SshHostView>,
    pub selected_suggestion: usize,
    pub show_suggestions: bool,
    pub kube_contexts: Seq<KubeContextView>,
    pub filtered_kube_contexts: Seq<KubeContextView>,
    pub namespaces: Seq<Seq<char>>,
    pub filtered_namespaces: Seq<Seq<char>>,
    pub kube_targets: Seq<KubeTargetView>,
    pub filtered_kube_targets: Seq<KubeTargetView>,
    pub available_ports: Seq<u16>,
    pub scroll_offset: usize,
    pub loading_targets: bool,
}

impl View for FormState {
    type V = FormView;

    open spec fn view(&self) -> FormView {
        FormView {
            step: self.step,
            type_selection: self.type_selection,
            name: self.name@,
            session_type: self.session_type,
            context_field: self.context_field@,
            namespace_field: self.namespace_field@,
            target: self.target@,
            local_port: self.local_port@,
            remote_port: self.remote_port@,
            focused_field: self.focused_field,
            cursor_pos: self.cursor_pos,
            ssh_hosts: host_views(self.ssh_hosts@),
            filtered_hosts: host_views(self.filtered_hosts@),
            selected_suggestion: self.selected_suggestion,
            show_suggestions: self.show_suggestions,
            kube_contexts: context_views(self.kube_contexts@),
            filtered_kube_contexts: context_views(self.filtered_kube_contexts@),
            namespaces: texts(self.namespaces@),
            filtered_namespaces: texts(self.filtered_namespaces@),
            kube_targets: target_views(self.kube_targets@),
            filtered_kube_targets: target_views(self.filtered_kube_targets@),
            available_ports: self.available_ports@,
            scroll_offset: self.scroll_offset,
            loading_targets: self.loading_targets,
        }
    }
}

/// What the cluster is to be asked for its namespaces: the context, where
/// the form names one.
#[derive(Debug)]
pub struct NamespaceQuery {
    pub context: Option<String>,
}

/// What the cluster is to be asked for its targets: context and namespace,
/// where the form names them.
#[derive(Debug)]
pub struct TargetQuery {
    pub context: Option<String>,
    pub namespace: Option<String>,
}

/// A field of the form as an argument to `kubectl`: absent where the field
/// is empty.
pub open spec fn argument(field: Seq<char>) -> Option<Seq<char>> {
    if field.len() == 0 {
        None
    } else {
        Some(field)
    }
}

/// The kind of session that follows `t` when the kind is toggled.
pub open spec fn next_type(t: SessionType) -> SessionType {
    match t {
        SessionType::SSH => SessionType::Kubectl,
        SessionType::Kubectl => SessionType::Socks5,
        SessionType::Socks5 => SessionType::SSH,
    }
}

/// The kind of session at a position of the list of kinds; a position off
/// the list stands for SSH.
pub open spec fn type_at(position: usize) -> SessionType {
    if position == 1 {
        SessionType::Kubectl
    } else if position == 2 {
        SessionType::Socks5
    } else {
        SessionType::SSH
    }
}

/// The number of fields the form has for a kind of session.
pub open spec fn fields_of(t: SessionType) -> usize {
    match t {
        SessionType::Socks5 => 3,
        SessionType::Kubectl => 6,
        SessionType::SSH => 4,
    }
}

/// The field in which the target is typed, for a kind of session.
pub open spec fn target_field_of(t: SessionType) -> usize {
    if t == SessionType::Kubectl {
        3
    } else {
        1
    }
}

/// A position moved by `delta` around a list of `count` entries.
pub open spec fn wrapped(position: usize, delta: i32, count: int) -> int
    recommends
        count > 0,
{
    (position + delta) % count
}

/// A field of the form as an argument to `kubectl`.
fn argument_of(field: &String) -> (r: Option<String>)
    ensures
        opt_text(r) == argument(field@),
{
    if is_empty_text(field.as_str()) {
        None
    } else {
        Some(field.clone())
    }
}

/// A position moved by `delta` around a list of `count` entries.
pub fn wrap(position: usize, delta: i32, count: usize) -> (r: usize)
    requires
        count > 0,
    ensures
        r == wrapped(position, delta, count as int),
        r < count,
{
    let moved: i128 = position as i128 + delta as i128;
    let size: i128 = count as i128;
    if moved >= 0 {
        (moved % size) as usize
    } else {
        let back: i128 = -moved;
        let rest: i128 = back % size;
        proof {
            let q = back as int / size as int;
            vstd::arithmetic::div_mod::lemma_fundamental_div_mod(back as int, size as int);
            assert(back == size * q + rest);
            if rest == 0 {
                assert(moved == (-q) * size + 0) by (nonlinear_arith)
                    requires
                        moved == -back,
                        back == size * q + rest,
                        rest == 0,
                ;
                vstd::arithmetic::div_mod::lemma_fundamental_div_mod_converse(
                    moved as int,
                    size as int,
                    -q,
                    0,
                );
            } else {
                assert(moved == (-q - 1) * size + (size - rest)) by (nonlinear_arith)
                    requires
                        moved == -back,
                        back == size * q + rest,
                ;
                vstd::arithmetic::div_mod::lemma_fundamental_div_mod_converse(
                    moved as int,
                    size as int,
                    -q - 1,
                    size - rest,
                );
            }
        }
        if rest == 0 {
            0
        } else {
            (size - rest) as usize
        }
    }
}


/// The context the form starts from and the contexts it offers: those of
/// the client configuration where it could be read, else the context that
/// `kubectl` reports, or none, and no contexts to offer.
pub fn resolve_kube_context(
    parsed: Option<(String, Vec<KubeContext>)>,
    reported: Option<String>,
) -> (r: (String, Vec<KubeContext>))
    ensures
        match parsed {
            Some(found) => r == found,
            None => {
                &&& r.0@ == match reported {
                    Some(context) => context@,
                    None => Seq::<char>::empty(),
                }
                &&& r.1@.len() == 0
            },
        },
{
    match parsed {
        Some(found) => found,
        None => {
            let context = match reported {
                Some(context) => context,
                None => String::new(),
            };
            (context, Vec::new())
        },
    }
}

/// The form as it opens for a new session.
pub open spec fn opened(
    ssh_hosts: Seq<SshHostView>,
    kube_context: Seq<char>,
    kube_contexts: Seq<KubeContextView>,
    namespaces: Seq<Seq<char>>,
) -> FormView {
    FormView {
        step: FormStep::SelectType,
        type_selection: 0,
        name: Seq::empty(),
        session_type: SessionType::SSH,
        context_field: kube_context,
        namespace_field: Seq::empty(),
        target: Seq::empty(),
        local_port: Seq::empty(),
        remote_port: Seq::empty(),
        focused_field: 0,
        cursor_pos: 0,
        ssh_hosts,
        filtered_hosts: ssh_hosts,
        selected_suggestion: 0,
        show_suggestions: false,
        kube_contexts,
        filtered_kube_contexts: kube_contexts,
        namespaces,
        filtered_namespaces: namespaces,
        kube_targets: Seq::empty(),
        filtered_kube_targets: Seq::empty(),
        available_ports: Seq::empty(),
        scroll_offset: 0,
        loading_targets: false,
    }
}

/// The form as it opens for editing `session`.
pub open spec fn opened_for(
    session: SessionView,
    ssh_hosts: Seq<SshHostView>,
    default_context: Seq<char>,
    kube_contexts: Seq<KubeContextView>,
) -> FormView {
    FormView {
        step: FormStep::FillFields,
        type_selection: 0,
        name: session.name,
        session_type: session.session_type,
        context_field: match session.kube_context {
            Some(context) => context,
            None => default_context,
        },
        namespace_field: match session.kube_namespace {
            Some(namespace) => namespace,
            None => Seq::empty(),
        },
        target: session.target,
        local_port: decimal(session.local_port as nat),
        remote_port: match session.remote_port {
            Some(port) => decimal(port as nat),
            None => Seq::empty(),
        },
        focused_field: if session.session_type == SessionType::Kubectl {
            1
        } else {
            0
        },
        cursor_pos: byte_len(session.name) as usize,
        ssh_hosts,
        filtered_hosts: ssh_hosts,
        selected_suggestion: 0,
        show_suggestions: false,
        kube_contexts,
        filtered_kube_contexts: kube_contexts,
        namespaces: Seq::empty(),
        filtered_namespaces: Seq::empty(),
        kube_targets: Seq::empty(),
        filtered_kube_targets: Seq::empty(),
        available_ports: Seq::empty(),
        scroll_offset: 0,
        loading_targets: false,
    }
}

impl FormView {
    /// The ports of the form make a session: the local port is a 16-bit
    /// number, and so is the remote port unless the session is a SOCKS5
    /// proxy, which has none.
    pub open spec fn is_complete(self) -> bool {
        parsed_u16(self.local_port) is Some && (self.session_type == SessionType::Socks5
            || parsed_u16(self.remote_port) is Some)
    }

    /// The remote port of the session the form describes.
    pub open spec fn remote(self) -> Option<u16> {
        if self.session_type == SessionType::Socks5 {
            None
        } else {
            parsed_u16(self.remote_port)
        }
    }

    /// The context of the session the form describes.
    pub open spec fn session_context(self) -> Option<Seq<char>> {
        if self.session_type == SessionType::Kubectl {
            argument(self.context_field)
        } else {
            None
        }
    }

    /// The namespace of the session the form describes.
    pub open spec fn session_namespace(self) -> Option<Seq<char>> {
        if self.session_type == SessionType::Kubectl {
            argument(self.namespace_field)
        } else {
            None
        }
    }
}

impl FormView {
    /// The session that a complete form describes, under the identity and
    /// the time of creation given.
    pub open spec fn session(self, id: u128, created_at: Timestamp) -> SessionView {
        SessionView {
            id,
            name: self.name,
            session_type: self.session_type,
            target: self.target,
            local_port: parsed_u16(self.local_port)->0,
            remote_port: self.remote(),
            status: StatusView::Stopped,
            pid: None,
            created_at,
            last_started: None,
            additional_options: Seq::empty(),
            kube_context: self.session_context(),
            kube_namespace: self.session_namespace(),
        }
    }

    /// A session once it has been edited in the form: what the form
    /// describes replaces the description, the identity and the state of
    /// the session stay.
    pub open spec fn edited(self, existing: SessionView) -> SessionView {
        SessionView {
            name: self.name,
            session_type: self.session_type,
            target: self.target,
            local_port: parsed_u16(self.local_port)->0,
            remote_port: self.remote(),
            kube_context: self.session_context(),
            kube_namespace: self.session_namespace(),
            ..existing
        }
    }
}

impl FormState {
    /// The form for a new session, given the hosts of the SSH
    /// configuration, the Kubernetes context to start from, the contexts to
    /// offer and the namespaces of that context.
    pub fn new(
        ssh_hosts: Vec<SshHost>,
        kube_context: String,
        kube_contexts: Vec<KubeContext>,
        namespaces: Vec<String>,
    ) -> (f: FormState)
        ensures
            f@ == opened(
                host_views(ssh_hosts@),
                kube_context@,
                context_views(kube_contexts@),
                texts(namespaces@),
            ),
    {
        let filtered_hosts = copy_hosts(ssh_hosts.as_slice());
        let filtered_kube_contexts = copy_contexts(&kube_contexts);
        let filtered_namespaces = copy_texts(&namespaces);
        let f = FormState {
            step: FormStep::SelectType,
            type_selection: 0,
            name: String::new(),
            session_type: SessionType::SSH,
            context_field: kube_context,
            namespace_field: String::new(),
            target: String::new(),
            local_port: String::new(),
            remote_port: String::new(),
            focused_field: 0,
            cursor_pos: 0,
            ssh_hosts,
            filtered_hosts,
            selected_suggestion: 0,
            show_suggestions: false,
            kube_contexts,
            filtered_kube_contexts,
            namespaces,
            filtered_namespaces,
            kube_targets: Vec::new(),
            filtered_kube_targets: Vec::new(),
            available_ports: Vec::new(),
            scroll_offset: 0,
            loading_targets: false,
        };
        assert(f@.kube_targets =~= Seq::empty());
        assert(f@.filtered_kube_targets =~= Seq::empty());
        f
    }

    /// The form for editing `session`. The namespaces are left to be loaded
    /// when their field is first reached.
    pub fn from_session(
        session: &Session,
        ssh_hosts: Vec<SshHost>,
        default_context: String,
        kube_contexts: Vec<KubeContext>,
    ) -> (f: FormState)
        ensures
            f@ == opened_for(
                session@,
                host_views(ssh_hosts@),
                default_context@,
                context_views(kube_contexts@),
            ),
    {
        let filtered_hosts = copy_hosts(ssh_hosts.as_slice());
        let filtered_kube_contexts = copy_contexts(&kube_contexts);
        let context_field = match &session.kube_context {
            Some(context) => context.clone(),
            None => default_context,
        };
        let namespace_field = match &session.kube_namespace {
            Some(namespace) => namespace.clone(),
            None => String::new(),
        };
        let remote_port = match session.remote_port {
            Some(port) => decimal_text(port as u64),
            None => String::new(),
        };
        let focused_field: usize = match session.session_type {
            SessionType::Kubectl => 1,
            _ => 0,
        };
        let f = FormState {
            step: FormStep::FillFields,
            type_selection: 0,
            name: session.name.clone(),
            session_type: session.session_type,
            context_field,
            namespace_field,
            target: session.target.clone(),
            local_port: decimal_text(session.local_port as u64),
            remote_port,
            focused_field,
            cursor_pos: session.name.as_str().len(),
            ssh_hosts,
            filtered_hosts,
            selected_suggestion: 0,
            show_suggestions: false,
            kube_contexts,
            filtered_kube_contexts,
            namespaces: Vec::new(),
            filtered_namespaces: Vec::new(),
            kube_targets: Vec::new(),
            filtered_kube_targets: Vec::new(),
            available_ports: Vec::new(),
            scroll_offset: 0,
            loading_targets: false,
        };
        assert(f@.kube_targets =~= Seq::empty());
        assert(f@.filtered_kube_targets =~= Seq::empty());
        assert(f@.namespaces =~= Seq::empty());
        assert(f@.filtered_namespaces =~= Seq::empty());
        f
    }

    /// The session that the form describes, under a fresh identity: none
    /// where a port that the session needs is not a 16-bit number.
    pub fn to_session(&self) -> (r: Option<Session>)
        ensures
            r is Some <==> self@.is_complete(),
            r matches Some(s) ==> s@ == self@.session(s@.id, s@.created_at),
    {
        let local_port = match parse_u16(self.local_port.as_str()) {
            Some(port) => port,
            None => {
                return None;
            },
        };
        let remote_port = match self.session_type {
            SessionType::Socks5 => None,
            _ => match parse_u16(self.remote_port.as_str()) {
                Some(port) => Some(port),
                None => {
                    return None;
                },
            },
        };
        let mut session = Session::new(
            self.name.clone(),
            self.session_type,
            self.target.clone(),
            local_port,
            remote_port,
        );
        match self.session_type {
            SessionType::Kubectl => {
                session.kube_context = argument_of(&self.context_field);
                session.kube_namespace = argument_of(&self.namespace_field);
            },
            _ => {},
        }
        Some(session)
    }

    pub fn toggle_type(&mut self)
        ensures
            final(self)@ == (FormView { session_type: next_type(old(self)@.session_type), ..old(self)@ }),
    {
        self.session_type = match self.session_type {
            SessionType::SSH => SessionType::Kubectl,
            SessionType::Kubectl => SessionType::Socks5,
            SessionType::Socks5 => SessionType::SSH,
        };
    }

    /// Takes the kind that is selected and moves on to the fields.
    pub fn confirm_type_selection(&mut self)
        ensures
            final(self)@ == (FormView {
                session_type: type_at(old(self)@.type_selection),
                step: FormStep::FillFields,
                ..old(self)@
            }),
    {
        self.session_type = if self.type_selection == 1 {
            SessionType::Kubectl
        } else if self.type_selection == 2 {
            SessionType::Socks5
        } else {
            SessionType::SSH
        };
        self.step = FormStep::FillFields;
    }

    /// Moves the selection by `delta` around the three kinds.
    pub fn move_type_selection(&mut self, delta: i32)
        ensures
            final(self)@ == (FormView {
                type_selection: wrapped(old(self)@.type_selection, delta, 3) as usize,
                ..old(self)@
            }),
            final(self)@.type_selection < 3,
    {
        self.type_selection = wrap(self.type_selection, delta, 3);
    }

    pub fn field_count(&self) -> (n: usize)
        ensures
            n == fields_of(self@.session_type),
    {
        match self.session_type {
            SessionType::Socks5 => 3,
            SessionType::Kubectl => 6,
            SessionType::SSH => 4,
        }
    }

    pub fn hide_suggestions(&mut self)
        ensures
            final(self)@ == (FormView { show_suggestions: false, ..old(self)@ }),
    {
        self.show_suggestions = false;
    }
}


impl FormView {
    /// The form shows a fresh list of `count` suggestions: it is open where
    /// there is anything to show, with the first entry selected.
    pub open spec fn offering(self, count: nat) -> FormView {
        FormView {
            show_suggestions: count > 0,
            selected_suggestion: 0,
            scroll_offset: 0,
            ..self
        }
    }

    /// The focus is on the field in which the target is typed.
    pub open spec fn on_target_field(self) -> bool {
        self.focused_field == target_field_of(self.session_type)
    }

    /// The targets of the cluster have to be fetched before any can be
    /// suggested: the session is a port forward, a target is being typed,
    /// none is known, and none is on its way.
    pub open spec fn must_load_targets(self) -> bool {
        &&& self.session_type == SessionType::Kubectl
        &&& self.kube_targets.len() == 0
        &&& self.target.len() > 0
        &&& !self.loading_targets
    }

    /// The namespaces of the cluster have to be fetched: the focus is on
    /// the namespace of a port forward, and no namespace is known.
    pub open spec fn must_load_namespaces(self) -> bool {
        &&& self.session_type == SessionType::Kubectl
        &&& self.focused_field == 2
        &&& self.namespaces.len() == 0
    }

    /// The form once `target` has been typed into it.
    pub open spec fn with_target(self, target: Seq<char>) -> FormView {
        let typed = FormView { target, ..self };
        if !typed.on_target_field() {
            typed
        } else if typed.session_type != SessionType::Kubectl {
            let found = filtered_hosts(typed.ssh_hosts, target);
            (FormView { filtered_hosts: found, ..typed }).offering(found.len())
        } else if typed.must_load_targets() {
            FormView { loading_targets: true, ..typed }
        } else {
            let found = filtered_targets(typed.kube_targets, target);
            (FormView { filtered_kube_targets: found, ..typed }).offering(found.len())
        }
    }

    /// The form once the fetching of targets has been started.
    pub open spec fn loading(self) -> FormView {
        if self.session_type == SessionType::Kubectl {
            FormView { loading_targets: true, ..self }
        } else {
            self
        }
    }

    /// The form once `context` has been typed into it.
    pub open spec fn with_context(self, context: Seq<char>) -> FormView {
        let typed = FormView { context_field: context, ..self };
        if typed.session_type == SessionType::Kubectl && typed.focused_field == 0 {
            let found = filtered_contexts(typed.kube_contexts, context);
            (FormView { filtered_kube_contexts: found, ..typed }).offering(found.len())
        } else {
            typed
        }
    }

    /// The form once the namespaces of the cluster have arrived. They only
    /// concern a port forward.
    pub open spec fn with_namespaces(self, loaded: Seq<Seq<char>>) -> FormView {
        if self.session_type == SessionType::Kubectl {
            FormView { namespaces: loaded, filtered_namespaces: loaded, ..self }
        } else {
            self
        }
    }

    /// The form once `namespace` has been typed into it; `loaded` holds the
    /// namespaces of the cluster where they were fetched for the occasion.
    pub open spec fn with_namespace(self, namespace: Seq<char>, loaded: Option<Seq<Seq<char>>>) -> FormView {
        let typed = FormView { namespace_field: namespace, ..self };
        if typed.session_type == SessionType::Kubectl && typed.focused_field == 2 {
            let known = match loaded {
                Some(list) => if typed.namespaces.len() == 0 {
                    typed.with_namespaces(list)
                } else {
                    typed
                },
                None => typed,
            };
            let found = filtered_namespaces(known.namespaces, namespace);
            (FormView { filtered_namespaces: found, ..known }).offering(found.len())
        } else {
            typed
        }
    }

    /// The form once the targets of the cluster have arrived.
    pub open spec fn with_targets(self, targets: Seq<KubeTargetView>) -> FormView {
        let found = filtered_targets(targets, self.target);
        FormView {
            kube_targets: targets,
            filtered_kube_targets: found,
            show_suggestions: found.len() > 0 && self.focused_field == 3,
            selected_suggestion: 0,
            scroll_offset: 0,
            loading_targets: false,
            ..self
        }
    }

    /// The form once the ports of the chosen target are offered, where
    /// there are any to offer for the field in focus.
    pub open spec fn with_port_suggestions(self) -> FormView {
        if self.session_type == SessionType::Kubectl && self.available_ports.len() > 0 && (
        self.focused_field == 4 || self.focused_field == 5) {
            FormView { show_suggestions: true, selected_suggestion: 0, scroll_offset: 0, ..self }
        } else {
            self
        }
    }
}

impl FormState {
    /// What the cluster is to be asked for its namespaces.
    pub fn namespace_query(&self) -> (q: NamespaceQuery)
        ensures
            opt_text(q.context) == argument(self@.context_field),
    {
        NamespaceQuery { context: argument_of(&self.context_field) }
    }

    /// What the cluster is to be asked for its targets.
    pub fn target_query(&self) -> (q: TargetQuery)
        ensures
            opt_text(q.context) == argument(self@.context_field),
            opt_text(q.namespace) == argument(self@.namespace_field),
    {
        TargetQuery {
            context: argument_of(&self.context_field),
            namespace: argument_of(&self.namespace_field),
        }
    }

    /// Narrows the contexts on offer to those that the context field
    /// selects.
    pub fn filter_contexts(&mut self)
        ensures
            final(self)@ == (FormView {
                filtered_kube_contexts: filtered_contexts(
                    old(self)@.kube_contexts,
                    old(self)@.context_field,
                ),
                ..old(self)@
            }),
    {
        self.filtered_kube_contexts = filter_contexts(
            &self.kube_contexts,
            self.context_field.as_str(),
        );
    }

    /// Narrows the namespaces on offer to those that the namespace field
    /// selects.
    pub fn filter_namespaces(&mut self)
        ensures
            final(self)@ == (FormView {
                filtered_namespaces: filtered_namespaces(
                    old(self)@.namespaces,
                    old(self)@.namespace_field,
                ),
                ..old(self)@
            }),
    {
        self.filtered_namespaces = filter_namespaces(
            &self.namespaces,
            self.namespace_field.as_str(),
        );
    }

    /// Takes in the namespaces of the cluster, fetched as
    /// [`FormState::namespace_query`] asks.
    pub fn reload_namespaces(&mut self, loaded: Vec<String>)
        ensures
            final(self)@ == old(self)@.with_namespaces(texts(loaded@)),
    {
        match self.session_type {
            SessionType::Kubectl => {
                self.filtered_namespaces = copy_texts(&loaded);
                self.namespaces = loaded;
            },
            _ => {},
        }
    }

    /// Marks the targets of the cluster as being fetched and says what to
    /// ask for; does nothing for a session that is no port forward.
    pub fn start_loading_targets(&mut self) -> (r: Option<TargetQuery>)
        ensures
            final(self)@ == old(self)@.loading(),
            r is Some <==> old(self)@.session_type == SessionType::Kubectl,
            r matches Some(q) ==> opt_text(q.context) == argument(old(self)@.context_field)
                && opt_text(q.namespace) == argument(old(self)@.namespace_field),
    {
        match self.session_type {
            SessionType::Kubectl => {
                self.loading_targets = true;
                Some(self.target_query())
            },
            _ => None,
        }
    }

    /// Takes `target` as the text of the target field and renews the
    /// suggestions for it. Returns what to ask the cluster where its
    /// targets have to be fetched first.
    pub fn update_target(&mut self, target: String) -> (r: Option<TargetQuery>)
        ensures
            final(self)@ == old(self)@.with_target(target@),
            r is Some <==> {
                let typed = FormView { target: target@, ..old(self)@ };
                typed.on_target_field() && typed.must_load_targets()
            },
            r matches Some(q) ==> opt_text(q.context) == argument(old(self)@.context_field)
                && opt_text(q.namespace) == argument(old(self)@.namespace_field),
    {
        self.target = target;
        let target_field: usize = match self.session_type {
            SessionType::Kubectl => 3,
            _ => 1,
        };
        if self.focused_field != target_field {
            return None;
        }
        match self.session_type {
            SessionType::Kubectl => {
                if self.kube_targets.len() == 0 && !is_empty_text(self.target.as_str())
                    && !self.loading_targets {
                    self.start_loading_targets()
                } else {
                    self.filtered_kube_targets = filter_targets(
                        self.kube_targets.as_slice(),
                        self.target.as_str(),
                    );
                    self.show_suggestions = self.filtered_kube_targets.len() > 0;
                    self.selected_suggestion = 0;
                    self.scroll_offset = 0;
                    None
                }
            },
            _ => {
                self.filtered_hosts = filter_hosts(self.ssh_hosts.as_slice(), self.target.as_str());
                self.show_suggestions = self.filtered_hosts.len() > 0;
                self.selected_suggestion = 0;
                self.scroll_offset = 0;
                None
            },
        }
    }

    /// Takes `context` as the text of the context field and renews the
    /// suggestions for it.
    pub fn update_context(&mut self, context: String)
        ensures
            final(self)@ == old(self)@.with_context(context@),
    {
        self.context_field = context;
        if self.session_type == SessionType::Kubectl && self.focused_field == 0 {
            self.filter_contexts();
            self.show_suggestions = self.filtered_kube_contexts.len() > 0;
            self.selected_suggestion = 0;
            self.scroll_offset = 0;
        }
    }

    /// Takes `namespace` as the text of the namespace field and renews the
    /// suggestions for it. Where [`FormState::on_focus_change`] asks for
    /// the namespaces of the cluster, `loaded` brings them.
    pub fn update_namespace(&mut self, namespace: String, loaded: Option<Vec<String>>)
        ensures
            final(self)@ == old(self)@.with_namespace(
                namespace@,
                match loaded {
                    Some(list) => Some(texts(list@)),
                    None => None,
                },
            ),
    {
        self.namespace_field = namespace;
        if self.session_type == SessionType::Kubectl && self.focused_field == 2 {
            match loaded {
                Some(list) => {
                    if self.namespaces.len() == 0 {
                        self.reload_namespaces(list);
                    }
                },
                None => {},
            }
            self.filter_namespaces();
            self.show_suggestions = self.filtered_namespaces.len() > 0;
            self.selected_suggestion = 0;
            self.scroll_offset = 0;
        }
    }

    /// Says whether the namespaces of the cluster are due now that the
    /// focus has moved, and what to ask for. The answer goes to
    /// [`FormState::reload_namespaces`].
    pub fn on_focus_change(&self) -> (r: Option<NamespaceQuery>)
        ensures
            r is Some <==> self@.must_load_namespaces(),
            r matches Some(q) ==> opt_text(q.context) == argument(self@.context_field),
    {
        if self.session_type == SessionType::Kubectl && self.focused_field == 2
            && self.namespaces.len() == 0 {
            Some(self.namespace_query())
        } else {
            None
        }
    }

    /// Offers the ports of the chosen target for a port field.
    pub fn show_port_suggestions(&mut self)
        ensures
            final(self)@ == old(self)@.with_port_suggestions(),
    {
        if self.session_type == SessionType::Kubectl && self.available_ports.len() > 0 && (
        self.focused_field == 4 || self.focused_field == 5) {
            self.show_suggestions = true;
            self.selected_suggestion = 0;
            self.scroll_offset = 0;
        }
    }

    /// Takes in the targets of the cluster where they have arrived, and
    /// says whether they have.
    pub fn poll_target_updates(&mut self, arrived: Option<Vec<KubeTarget>>) -> (changed: bool)
        ensures
            changed == arrived is Some,
            final(self)@ == match arrived {
                Some(targets) => old(self)@.with_targets(target_views(targets@)),
                None => old(self)@,
            },
    {
        match arrived {
            Some(targets) => {
                self.filtered_kube_targets = filter_targets(
                    targets.as_slice(),
                    self.target.as_str(),
                );
                self.kube_targets = targets;
                self.show_suggestions = self.filtered_kube_targets.len() > 0
                    && self.focused_field == 3;
                self.selected_suggestion = 0;
                self.scroll_offset = 0;
                self.loading_targets = false;
                true
            },
            None => false,
        }
    }
}


/// The list from which the suggestions for the field in focus are drawn.
#[derive(Debug, Clone, Copy, PartialEq, Eq, Structural)]
pub enum SuggestionSource {
    Contexts,
    Namespaces,
    Ports,
    Targets,
    Hosts,
}

impl FormView {
    /// The list that serves the field in focus.
    pub open spec fn source(self) -> SuggestionSource {
        if self.session_type != SessionType::Kubectl {
            SuggestionSource::Hosts
        } else if self.focused_field == 0 {
            SuggestionSource::Contexts
        } else if self.focused_field == 2 {
            SuggestionSource::Namespaces
        } else if self.focused_field == 4 || self.focused_field == 5 {
            SuggestionSource::Ports
        } else {
            SuggestionSource::Targets
        }
    }

    /// The number of suggestions for the field in focus.
    pub open spec fn suggestion_count(self) -> nat {
        match self.source() {
            SuggestionSource::Contexts => self.filtered_kube_contexts.len(),
            SuggestionSource::Namespaces => self.filtered_namespaces.len(),
            SuggestionSource::Ports => self.available_ports.len(),
            SuggestionSource::Targets => self.filtered_kube_targets.len(),
            SuggestionSource::Hosts => self.filtered_hosts.len(),
        }
    }

    /// A suggestion is open and selected that can be taken.
    pub open spec fn can_select(self) -> bool {
        self.show_suggestions && self.selected_suggestion < self.suggestion_count()
    }

    /// The form once a target of the cluster has been taken: the target
    /// fills its field and, where they are empty, the namespace and — if the
    /// target has one port only — the two port fields; its ports are kept to
    /// be offered.
    pub open spec fn with_chosen_target(self, chosen: KubeTargetView) -> FormView {
        let only = chosen.ports.len() == 1;
        FormView {
            target: chosen.target_string(),
            namespace_field: if self.namespace_field.len() == 0 {
                chosen.namespace
            } else {
                self.namespace_field
            },
            available_ports: chosen.ports,
            local_port: if only && self.local_port.len() == 0 {
                decimal(chosen.ports[0] as nat)
            } else {
                self.local_port
            },
            remote_port: if only && self.remote_port.len() == 0 {
                decimal(chosen.ports[0] as nat)
            } else {
                self.remote_port
            },
            show_suggestions: false,
            ..self
        }
    }

    /// The form once the selected suggestion has been taken. Nothing
    /// changes where no suggestion is open or the selection is off the
    /// list.
    pub open spec fn with_selection(self) -> FormView {
        let at = self.selected_suggestion as int;
        if !self.can_select() {
            self
        } else {
            match self.source() {
                SuggestionSource::Contexts => {
                    let name = self.filtered_kube_contexts[at].name;
                    FormView {
                        context_field: name,
                        cursor_pos: byte_len(name) as usize,
                        show_suggestions: false,
                        ..self
                    }
                },
                SuggestionSource::Namespaces => {
                    let name = self.filtered_namespaces[at];
                    FormView {
                        namespace_field: name,
                        cursor_pos: byte_len(name) as usize,
                        show_suggestions: false,
                        kube_targets: Seq::empty(),
                        ..self
                    }
                },
                SuggestionSource::Ports => {
                    let numeral = decimal(self.available_ports[at] as nat);
                    if self.focused_field == 4 {
                        FormView {
                            local_port: numeral,
                            cursor_pos: byte_len(numeral) as usize,
                            show_suggestions: false,
                            ..self
                        }
                    } else {
                        FormView {
                            remote_port: numeral,
                            cursor_pos: byte_len(numeral) as usize,
                            show_suggestions: false,
                            ..self
                        }
                    }
                },
                SuggestionSource::Targets => self.with_chosen_target(self.filtered_kube_targets[at]),
                SuggestionSource::Hosts => FormView {
                    target: self.filtered_hosts[at].connection_string(),
                    show_suggestions: false,
                    ..self
                },
            }
        }
    }

    /// Where the list of suggestions starts once `selected` is the
    /// selection: moved just far enough to keep the selection among the
    /// [`VISIBLE_ITEMS`] entries shown.
    pub open spec fn scrolled_to(self, selected: int) -> int {
        if selected < self.scroll_offset {
            selected
        } else if selected >= self.scroll_offset + VISIBLE_ITEMS {
            if selected >= VISIBLE_ITEMS - 1 {
                selected - (VISIBLE_ITEMS - 1)
            } else {
                0
            }
        } else {
            self.scroll_offset as int
        }
    }

    /// The form once the selection has moved by `delta` around the list of
    /// suggestions. Nothing changes where no suggestion is open or the list
    /// is empty.
    pub open spec fn with_moved_selection(self, delta: i32) -> FormView {
        if !self.show_suggestions || self.suggestion_count() == 0 {
            self
        } else {
            let selected = wrapped(self.selected_suggestion, delta, self.suggestion_count() as int);
            FormView {
                selected_suggestion: selected as usize,
                scroll_offset: self.scrolled_to(selected) as usize,
                ..self
            }
        }
    }
}

impl FormState {
    /// The list that serves the field in focus.
    pub fn suggestion_source(&self) -> (r: SuggestionSource)
        ensures
            r == self@.source(),
    {
        match self.session_type {
            SessionType::Kubectl => {
                if self.focused_field == 0 {
                    SuggestionSource::Contexts
                } else if self.focused_field == 2 {
                    SuggestionSource::Namespaces
                } else if self.focused_field == 4 || self.focused_field == 5 {
                    SuggestionSource::Ports
                } else {
                    SuggestionSource::Targets
                }
            },
            _ => SuggestionSource::Hosts,
        }
    }

    /// The number of suggestions for the field in focus.
    pub fn suggestion_count(&self) -> (n: usize)
        ensures
            n == self@.suggestion_count(),
    {
        match self.suggestion_source() {
            SuggestionSource::Contexts => self.filtered_kube_contexts.len(),
            SuggestionSource::Namespaces => self.filtered_namespaces.len(),
            SuggestionSource::Ports => self.available_ports.len(),
            SuggestionSource::Targets => self.filtered_kube_targets.len(),
            SuggestionSource::Hosts => self.filtered_hosts.len(),
        }
    }

    /// Takes the selected suggestion into the field in focus. Where a
    /// context was taken, returns what to ask the cluster for the
    /// namespaces of that context; the answer goes to
    /// [`FormState::reload_namespaces`].
    pub fn select_suggestion(&mut self) -> (r: Option<NamespaceQuery>)
        ensures
            final(self)@ == old(self)@.with_selection(),
            r is Some <==> old(self)@.can_select() && old(self)@.source()
                == SuggestionSource::Contexts,
            r matches Some(q) ==> opt_text(q.context) == argument(final(self)@.context_field),
    {
        if !self.show_suggestions || self.selected_suggestion >= self.suggestion_count() {
            return None;
        }
        let at = self.selected_suggestion;
        match self.suggestion_source() {
            SuggestionSource::Contexts => {
                self.context_field = self.filtered_kube_contexts[at].name.clone();
                self.cursor_pos = self.context_field.as_str().len();
                self.show_suggestions = false;
                Some(self.namespace_query())
            },
            SuggestionSource::Namespaces => {
                self.namespace_field = self.filtered_namespaces[at].clone();
                self.cursor_pos = self.namespace_field.as_str().len();
                self.show_suggestions = false;
                self.kube_targets = Vec::new();
                assert(target_views(self.kube_targets@) =~= Seq::empty());
                assert(texts(self.filtered_namespaces@)[at as int] == self.filtered_namespaces@[at as int]@);
                None
            },
            SuggestionSource::Ports => {
                let numeral = decimal_text(self.available_ports[at] as u64);
                let len = numeral.as_str().len();
                if self.focused_field == 4 {
                    self.local_port = numeral;
                } else {
                    self.remote_port = numeral;
                }
                self.cursor_pos = len;
                self.show_suggestions = false;
                None
            },
            SuggestionSource::Targets => {
                let chosen = self.filtered_kube_targets[at].clone();
                self.target = chosen.target_string();
                if is_empty_text(self.namespace_field.as_str()) {
                    self.namespace_field = chosen.namespace.clone();
                }
                self.available_ports = copy_ports(&chosen.ports);
                if chosen.ports.len() == 1 {
                    if is_empty_text(self.local_port.as_str()) {
                        self.local_port = decimal_text(chosen.ports[0] as u64);
                    }
                    if is_empty_text(self.remote_port.as_str()) {
                        self.remote_port = decimal_text(chosen.ports[0] as u64);
                    }
                }
                self.show_suggestions = false;
                None
            },
            SuggestionSource::Hosts => {
                self.target = self.filtered_hosts[at].connection_string();
                self.show_suggestions = false;
                None
            },
        }
    }

    /// Moves the selection by `delta` around the suggestions for the field
    /// in focus, and the list with it where the selection would leave the
    /// part that is shown.
    pub fn move_suggestion(&mut self, delta: i32)
        ensures
            final(self)@ == old(self)@.with_moved_selection(delta),
    {
        if !self.show_suggestions {
            return ;
        }
        let count = self.suggestion_count();
        if count == 0 {
            return ;
        }
        let selected = wrap(self.selected_suggestion, delta, count);
        self.selected_suggestion = selected;
        if selected < self.scroll_offset {
            self.scroll_offset = selected;
        } else if selected - self.scroll_offset >= VISIBLE_ITEMS {
            self.scroll_offset = if selected >= VISIBLE_ITEMS - 1 {
                selected - (VISIBLE_ITEMS - 1)
            } else {
                0
            };
        }
    }
}


/// A field of the form that takes text.
#[derive(Debug, Clone, Copy, PartialEq, Eq, Structural)]
pub enum Field {
    Context,
    Name,
    Namespace,
    Target,
    LocalPort,
    RemotePort,
}

/// What the caller is to do after a key press.
#[derive(Debug)]
pub enum FormOutcome {
    /// Nothing beyond showing the form again.
    Stay,
    /// Leave the form without saving.
    Close,
    /// Save what the form describes and leave.
    Save,
    /// Fetch the namespaces of the cluster and hand them to
    /// [`FormState::reload_namespaces`].
    LoadNamespaces(NamespaceQuery),
    /// Fetch the targets of the cluster and hand them to
    /// [`FormState::poll_target_updates`] when they arrive.
    LoadTargets(TargetQuery),
}

/// The mathematical value of a [`FormOutcome`].
pub enum OutcomeView {
    Stay,
    Close,
    Save,
    LoadNamespaces(Option<Seq<char>>),
    LoadTargets(Option<Seq<char>>, Option<Seq<char>>),
}

impl View for FormOutcome {
    type V = OutcomeView;

    open spec fn view(&self) -> OutcomeView {
        match self {
            FormOutcome::Stay => OutcomeView::Stay,
            FormOutcome::Close => OutcomeView::Close,
            FormOutcome::Save => OutcomeView::Save,
            FormOutcome::LoadNamespaces(q) => OutcomeView::LoadNamespaces(opt_text(q.context)),
            FormOutcome::LoadTargets(q) => OutcomeView::LoadTargets(
                opt_text(q.context),
                opt_text(q.namespace),
            ),
        }
    }
}

/// The field at a position of the form, for a kind of session.
pub open spec fn field_at(t: SessionType, position: usize) -> Option<Field> {
    if t == SessionType::Kubectl {
        if position == 0 {
            Some(Field::Context)
        } else if position == 1 {
            Some(Field::Name)
        } else if position == 2 {
            Some(Field::Namespace)
        } else if position == 3 {
            Some(Field::Target)
        } else if position == 4 {
            Some(Field::LocalPort)
        } else if position == 5 {
            Some(Field::RemotePort)
        } else {
            None
        }
    } else {
        if position == 0 {
            Some(Field::Name)
        } else if position == 1 {
            Some(Field::Target)
        } else if position == 2 {
            Some(Field::LocalPort)
        } else if position == 3 {
            Some(Field::RemotePort)
        } else {
            None
        }
    }
}

/// The key asks to save: Control with the letter S.
pub open spec fn asks_to_save(key: Key) -> bool {
    key.control && (key.code == KeyCode::Char('s') || key.code == KeyCode::Char('S'))
}

/// The key steers the list of suggestions.
pub open spec fn steers_suggestions(key: Key) -> bool {
    key.code == KeyCode::Up || key.code == KeyCode::Down || key.code == KeyCode::Enter || key.code
        == KeyCode::Esc
}

impl FormView {
    /// The text of a field.
    pub open spec fn text_of(self, field: Field) -> Seq<char> {
        match field {
            Field::Context => self.context_field,
            Field::Name => self.name,
            Field::Namespace => self.namespace_field,
            Field::Target => self.target,
            Field::LocalPort => self.local_port,
            Field::RemotePort => self.remote_port,
        }
    }

    /// The field in focus, where the focus is on a field.
    pub open spec fn field_in_focus(self) -> Option<Field> {
        field_at(self.session_type, self.focused_field)
    }

    /// The key reaches the fields: the form is past the choice of kind, and
    /// the key is not taken by an open list of suggestions.
    pub open spec fn reaches_fields(self, key: Key) -> bool {
        self.step == FormStep::FillFields && !(self.show_suggestions && steers_suggestions(key))
    }

    /// The key puts a character into the field in focus.
    pub open spec fn types_into(self, key: Key) -> Option<Field> {
        if self.reaches_fields(key) && key.code is Char && !asks_to_save(key) {
            self.field_in_focus()
        } else {
            None
        }
    }

    /// The key takes a character out of the field in focus.
    pub open spec fn erases_from(self, key: Key) -> Option<Field> {
        if self.reaches_fields(key) && key.code == KeyCode::Backspace && self.cursor_pos > 0 {
            self.field_in_focus()
        } else {
            None
        }
    }

    /// The cursor stands where the key can be carried out: on a boundary
    /// of the text for a character to go in, behind a character of the text
    /// for one to go out.
    pub open spec fn accepts(self, key: Key) -> bool {
        &&& self.types_into(key) matches Some(field) ==> on_boundary(
            self.text_of(field),
            self.cursor_pos as int,
        ) && self.cursor_pos < usize::MAX
        &&& self.erases_from(key) matches Some(field) ==> on_boundary(
            self.text_of(field),
            self.cursor_pos - 1,
        ) && self.cursor_pos - 1 < byte_len(self.text_of(field)) as usize
    }

    /// The key changes the namespace field while no namespace of the
    /// cluster is known, so that they have to be fetched for it.
    pub open spec fn wants_namespaces(self, key: Key) -> bool {
        (self.types_into(key) == Some(Field::Namespace) || self.erases_from(key) == Some(
            Field::Namespace,
        )) && self.namespaces.len() == 0
    }

    /// The form once the port that was typed is carried over to the other
    /// port field, which happens when the focus leaves a port field while
    /// the other one is empty.
    pub open spec fn with_ports_mirrored(self) -> FormView {
        let local_at: usize = if self.session_type == SessionType::Kubectl {
            4
        } else {
            2
        };
        let remote_at: usize = if self.session_type == SessionType::Kubectl {
            5
        } else {
            3
        };
        if self.session_type == SessionType::Socks5 {
            self
        } else if self.focused_field == local_at && self.local_port.len() > 0
            && self.remote_port.len() == 0 {
            FormView { remote_port: self.local_port, ..self }
        } else if self.focused_field == remote_at && self.remote_port.len() > 0
            && self.local_port.len() == 0 {
            FormView { local_port: self.remote_port, ..self }
        } else {
            self
        }
    }

    /// The field the focus moves to.
    pub open spec fn neighbour(self, forward: bool) -> usize {
        let count = fields_of(self.session_type);
        if forward {
            ((self.focused_field + 1) % (count as int)) as usize
        } else if self.focused_field == 0 {
            (count - 1) as usize
        } else {
            (self.focused_field - 1) as usize
        }
    }

    /// The form with the focus on the field at `position`: suggestions
    /// closed, the cursor behind the text of the field.
    pub open spec fn with_focus(self, position: usize) -> FormView {
        let moved = FormView { focused_field: position, show_suggestions: false, ..self };
        FormView {
            cursor_pos: match moved.field_in_focus() {
                Some(field) => byte_len(moved.text_of(field)) as usize,
                None => 0,
            },
            ..moved
        }
    }

    /// The form once the focus has moved to the next field, or the one
    /// before. While a session is being created, a port typed into one port
    /// field is carried over to the other.
    pub open spec fn after_tab(self, create: bool, forward: bool) -> FormView {
        let base = if create {
            self.with_ports_mirrored()
        } else {
            self
        };
        base.with_focus(self.neighbour(forward)).with_port_suggestions()
    }

    /// The form with `text` as the text of `field` after a stroke of the
    /// keyboard, and the suggestions for the field renewed.
    pub open spec fn with_text(self, field: Field, text: Seq<char>, loaded: Option<Seq<Seq<char>>>) -> FormView {
        match field {
            Field::Context => self.with_context(text),
            Field::Name => FormView { name: text, ..self },
            Field::Namespace => FormView {
                kube_targets: Seq::empty(),
                ..self.with_namespace(text, loaded)
            },
            Field::Target => self.with_target(text),
            Field::LocalPort => FormView { local_port: text, ..self },
            Field::RemotePort => FormView { remote_port: text, ..self },
        }
    }

    /// The form once `c` has been typed at the cursor.
    pub open spec fn after_typing(self, field: Field, c: char, loaded: Option<Seq<Seq<char>>>) -> FormView {
        (FormView { cursor_pos: (self.cursor_pos + 1) as usize, ..self }).with_text(
            field,
            inserted(self.text_of(field), self.cursor_pos as int, c),
            loaded,
        )
    }

    /// The form once the character before the cursor has been erased.
    pub open spec fn after_erasing(self, field: Field, loaded: Option<Seq<Seq<char>>>) -> FormView {
        (FormView { cursor_pos: (self.cursor_pos - 1) as usize, ..self }).with_text(
            field,
            removed(self.text_of(field), self.cursor_pos - 1),
            loaded,
        )
    }

    /// The form after a key press.
    pub open spec fn after_key(self, key: Key, create: bool, loaded: Option<Seq<Seq<char>>>) -> FormView {
        if self.step == FormStep::SelectType {
            match key.code {
                KeyCode::Up => FormView {
                    type_selection: wrapped(self.type_selection, -1i32, 3) as usize,
                    ..self
                },
                KeyCode::Down => FormView {
                    type_selection: wrapped(self.type_selection, 1i32, 3) as usize,
                    ..self
                },
                KeyCode::Enter => FormView {
                    session_type: type_at(self.type_selection),
                    step: FormStep::FillFields,
                    ..self
                },
                _ => self,
            }
        } else if self.show_suggestions && steers_suggestions(key) {
            match key.code {
                KeyCode::Up => self.with_moved_selection(-1i32),
                KeyCode::Down => self.with_moved_selection(1i32),
                KeyCode::Enter => self.with_selection(),
                _ => FormView { show_suggestions: false, ..self },
            }
        } else if asks_to_save(key) {
            self
        } else {
            match key.code {
                KeyCode::Tab => self.after_tab(create, true),
                KeyCode::BackTab => self.after_tab(create, false),
                KeyCode::Char(c) => match self.field_in_focus() {
                    Some(field) => self.after_typing(field, c, loaded),
                    None => self,
                },
                KeyCode::Backspace => match self.erases_from(key) {
                    Some(field) => self.after_erasing(field, loaded),
                    None => self,
                },
                _ => self,
            }
        }
    }

    /// Whether the targets have to be fetched once `text` stands in the
    /// target field.
    pub open spec fn loads_targets_for(self, text: Seq<char>) -> bool {
        (FormView { target: text, ..self }).on_target_field() && (FormView {
            target: text,
            ..self
        }).must_load_targets()
    }

    /// What the caller is to do after a key press.
    pub open spec fn outcome_of_key(self, key: Key, create: bool) -> OutcomeView {
        if self.step == FormStep::SelectType {
            if key.code == KeyCode::Esc {
                OutcomeView::Close
            } else {
                OutcomeView::Stay
            }
        } else if self.show_suggestions && steers_suggestions(key) {
            if key.code == KeyCode::Enter && self.can_select() && self.source()
                == SuggestionSource::Contexts {
                OutcomeView::LoadNamespaces(argument(self.with_selection().context_field))
            } else {
                OutcomeView::Stay
            }
        } else if key.code == KeyCode::Esc {
            OutcomeView::Close
        } else if asks_to_save(key) {
            OutcomeView::Save
        } else if key.code == KeyCode::Tab || key.code == KeyCode::BackTab {
            let moved = self.after_tab(create, key.code == KeyCode::Tab);
            if moved.must_load_namespaces() {
                OutcomeView::LoadNamespaces(argument(moved.context_field))
            } else {
                OutcomeView::Stay
            }
        } else if self.types_into(key) == Some(Field::Target) && self.loads_targets_for(
            inserted(self.target, self.cursor_pos as int, key.code->Char_0),
        ) {
            OutcomeView::LoadTargets(argument(self.context_field), argument(self.namespace_field))
        } else if self.erases_from(key) == Some(Field::Target) && self.loads_targets_for(
            removed(self.target, self.cursor_pos - 1),
        ) {
            OutcomeView::LoadTargets(argument(self.context_field), argument(self.namespace_field))
        } else {
            OutcomeView::Stay
        }
    }
}


/// The field at a position of the form, for a kind of session.
pub fn field_for(t: SessionType, position: usize) -> (r: Option<Field>)
    ensures
        r == field_at(t, position),
{
    match t {
        SessionType::Kubectl => {
            if position == 0 {
                Some(Field::Context)
            } else if position == 1 {
                Some(Field::Name)
            } else if position == 2 {
                Some(Field::Namespace)
            } else if position == 3 {
                Some(Field::Target)
            } else if position == 4 {
                Some(Field::LocalPort)
            } else if position == 5 {
                Some(Field::RemotePort)
            } else {
                None
            }
        },
        _ => {
            if position == 0 {
                Some(Field::Name)
            } else if position == 1 {
                Some(Field::Target)
            } else if position == 2 {
                Some(Field::LocalPort)
            } else if position == 3 {
                Some(Field::RemotePort)
            } else {
                None
            }
        },
    }
}

/// Whether the key asks to save.
fn is_save_key(key: Key) -> (b: bool)
    ensures
        b == asks_to_save(key),
{
    key.control && match key.code {
        KeyCode::Char(c) => c == 's' || c == 'S',
        _ => false,
    }
}

/// Whether the key steers the list of suggestions.
fn is_steering_key(key: Key) -> (b: bool)
    ensures
        b == steers_suggestions(key),
{
    match key.code {
        KeyCode::Up => true,
        KeyCode::Down => true,
        KeyCode::Enter => true,
        KeyCode::Esc => true,
        _ => false,
    }
}

impl FormState {
    /// The text of a field.
    fn text(&self, field: Field) -> (r: &String)
        ensures
            r@ == self@.text_of(field),
    {
        match field {
            Field::Context => &self.context_field,
            Field::Name => &self.name,
            Field::Namespace => &self.namespace_field,
            Field::Target => &self.target,
            Field::LocalPort => &self.local_port,
            Field::RemotePort => &self.remote_port,
        }
    }

    /// The field a key types into, if it types into one.
    fn typed_field(&self, key: Key) -> (r: Option<Field>)
        ensures
            r == self@.types_into(key),
    {
        let reaches = self.step == FormStep::FillFields && !(self.show_suggestions
            && is_steering_key(key));
        let is_char = match key.code {
            KeyCode::Char(_) => true,
            _ => false,
        };
        if reaches && is_char && !is_save_key(key) {
            field_for(self.session_type, self.focused_field)
        } else {
            None
        }
    }

    /// The field a key erases from, if it erases from one.
    fn erased_field(&self, key: Key) -> (r: Option<Field>)
        ensures
            r == self@.erases_from(key),
    {
        let reaches = self.step == FormStep::FillFields && !(self.show_suggestions
            && is_steering_key(key));
        if reaches && key.code == KeyCode::Backspace && self.cursor_pos > 0 {
            field_for(self.session_type, self.focused_field)
        } else {
            None
        }
    }

    /// Whether the cursor stands where the key can be carried out. A key
    /// for which this does not hold must not be given to
    /// [`FormState::handle_key`].
    pub fn accepts(&self, key: Key) -> (b: bool)
        ensures
            b == self@.accepts(key),
    {
        let typing = match self.typed_field(key) {
            Some(field) => at_boundary(self.text(field).as_str(), self.cursor_pos)
                && self.cursor_pos < usize::MAX,
            None => true,
        };
        let erasing = match self.erased_field(key) {
            Some(field) => at_boundary(self.text(field).as_str(), self.cursor_pos - 1)
                && self.cursor_pos - 1 < self.text(field).as_str().len(),
            None => true,
        };
        typing && erasing
    }

    /// Says whether the key changes the namespace field while no namespace
    /// of the cluster is known, and what to ask the cluster then. The
    /// answer goes to [`FormState::handle_key`] along with the key.
    pub fn namespaces_wanted_by(&self, key: Key) -> (r: Option<NamespaceQuery>)
        ensures
            r is Some <==> self@.wants_namespaces(key),
            r matches Some(q) ==> opt_text(q.context) == argument(self@.context_field),
    {
        let typing = match self.typed_field(key) {
            Some(Field::Namespace) => true,
            _ => false,
        };
        let erasing = match self.erased_field(key) {
            Some(Field::Namespace) => true,
            _ => false,
        };
        if (typing || erasing) && self.namespaces.len() == 0 {
            Some(self.namespace_query())
        } else {
            None
        }
    }

    /// Carries a port typed into one port field over to the other, where
    /// the focus is on a port field and the other one is empty.
    fn mirror_ports(&mut self)
        ensures
            final(self)@ == old(self)@.with_ports_mirrored(),
    {
        let (local_at, remote_at): (usize, usize) = match self.session_type {
            SessionType::Kubectl => (4, 5),
            SessionType::SSH => (2, 3),
            SessionType::Socks5 => {
                return ;
            },
        };
        if self.focused_field == local_at && !is_empty_text(self.local_port.as_str()) && is_empty_text(
            self.remote_port.as_str(),
        ) {
            self.remote_port = self.local_port.clone();
        } else if self.focused_field == remote_at && !is_empty_text(self.remote_port.as_str())
            && is_empty_text(self.local_port.as_str()) {
            self.local_port = self.remote_port.clone();
        }
    }

    /// Moves the focus to the next field, or the one before.
    fn move_focus(&mut self, create: bool, forward: bool) -> (r: FormOutcome)
        ensures
            final(self)@ == old(self)@.after_tab(create, forward),
            r@ == if final(self)@.must_load_namespaces() {
                OutcomeView::LoadNamespaces(argument(final(self)@.context_field))
            } else {
                OutcomeView::Stay
            },
    {
        let count = self.field_count();
        let next: usize = if forward {
            ((self.focused_field as u128 + 1) % (count as u128)) as usize
        } else if self.focused_field == 0 {
            count - 1
        } else {
            self.focused_field - 1
        };
        if create {
            self.mirror_ports();
        }
        self.focused_field = next;
        self.show_suggestions = false;
        self.cursor_pos = match field_for(self.session_type, self.focused_field) {
            Some(field) => self.text(field).as_str().len(),
            None => 0,
        };
        let due = self.on_focus_change();
        self.show_port_suggestions();
        match due {
            Some(query) => FormOutcome::LoadNamespaces(query),
            None => FormOutcome::Stay,
        }
    }

    /// Puts `text` into `field` after a stroke of the keyboard and renews
    /// the suggestions for the field.
    fn set_text(&mut self, field: Field, text: String, loaded: Option<Vec<String>>) -> (r:
        FormOutcome)
        requires
            field == Field::Target ==> old(self)@.on_target_field(),
        ensures
            final(self)@ == old(self)@.with_text(
                field,
                text@,
                match loaded {
                    Some(list) => Some(texts(list@)),
                    None => None,
                },
            ),
            r@ == if field == Field::Target && old(self)@.loads_targets_for(text@) {
                OutcomeView::LoadTargets(
                    argument(old(self)@.context_field),
                    argument(old(self)@.namespace_field),
                )
            } else {
                OutcomeView::Stay
            },
    {
        match field {
            Field::Context => {
                self.update_context(text);
                FormOutcome::Stay
            },
            Field::Name => {
                self.name = text;
                FormOutcome::Stay
            },
            Field::Namespace => {
                self.update_namespace(text, loaded);
                self.kube_targets = Vec::new();
                assert(target_views(self.kube_targets@) =~= Seq::empty());
                FormOutcome::Stay
            },
            Field::Target => match self.update_target(text) {
                Some(query) => FormOutcome::LoadTargets(query),
                None => FormOutcome::Stay,
            },
            Field::LocalPort => {
                self.local_port = text;
                FormOutcome::Stay
            },
            Field::RemotePort => {
                self.remote_port = text;
                FormOutcome::Stay
            },
        }
    }

    /// Takes a key press. `create` says whether a session is being created
    /// rather than edited; `loaded` brings the namespaces of the cluster
    /// where [`FormState::namespaces_wanted_by`] asked for them.
    pub fn handle_key(&mut self, key: Key, create: bool, loaded: Option<Vec<String>>) -> (r:
        FormOutcome)
        requires
            old(self)@.accepts(key),
        ensures
            final(self)@ == old(self)@.after_key(
                key,
                create,
                match loaded {
                    Some(list) => Some(texts(list@)),
                    None => None,
                },
            ),
            r@ == old(self)@.outcome_of_key(key, create),
    {
        if self.step == FormStep::SelectType {
            match key.code {
                KeyCode::Up => {
                    self.move_type_selection(-1);
                    FormOutcome::Stay
                },
                KeyCode::Down => {
                    self.move_type_selection(1);
                    FormOutcome::Stay
                },
                KeyCode::Enter => {
                    self.confirm_type_selection();
                    FormOutcome::Stay
                },
                KeyCode::Esc => FormOutcome::Close,
                _ => FormOutcome::Stay,
            }
        } else if self.show_suggestions && is_steering_key(key) {
            match key.code {
                KeyCode::Up => {
                    self.move_suggestion(-1);
                    FormOutcome::Stay
                },
                KeyCode::Down => {
                    self.move_suggestion(1);
                    FormOutcome::Stay
                },
                KeyCode::Enter => match self.select_suggestion() {
                    Some(query) => FormOutcome::LoadNamespaces(query),
                    None => FormOutcome::Stay,
                },
                _ => {
                    self.hide_suggestions();
                    FormOutcome::Stay
                },
            }
        } else if key.code == KeyCode::Esc {
            FormOutcome::Close
        } else if is_save_key(key) {
            FormOutcome::Save
        } else {
            match key.code {
                KeyCode::Tab => self.move_focus(create, true),
                KeyCode::BackTab => self.move_focus(create, false),
                KeyCode::Char(c) => match self.typed_field(key) {
                    Some(field) => {
                        let mut text = self.text(field).clone();
                        insert_char(&mut text, self.cursor_pos, c);
                        self.cursor_pos = self.cursor_pos + 1;
                        self.set_text(field, text, loaded)
                    },
                    None => FormOutcome::Stay,
                },
                KeyCode::Backspace => match self.erased_field(key) {
                    Some(field) => {
                        let mut text = self.text(field).clone();
                        remove_char(&mut text, self.cursor_pos - 1);
                        self.cursor_pos = self.cursor_pos - 1;
                        self.set_text(field, text, loaded)
                    },
                    None => FormOutcome::Stay,
                },
                _ => FormOutcome::Stay,
            }
        }
    }
}


/// The title of the form.
pub open spec fn form_title_of(mode: FormMode) -> Seq<char> {
    match mode {
        FormMode::Create => "Create Session"@,
        FormMode::Edit(_) => "Edit Session"@,
    }
}

/// The name of a field.
pub open spec fn label_of(field: Field) -> Seq<char> {
    match field {
        Field::Context => "Context"@,
        Field::Name => "Name"@,
        Field::Namespace => "Namespace"@,
        Field::Target => "Target"@,
        Field::LocalPort => "Local Port"@,
        Field::RemotePort => "Remote Port"@,
    }
}

/// The fields of the form for a kind of session, in the order of their
/// positions.
pub open spec fn field_list(t: SessionType) -> Seq<Field> {
    Seq::new(fields_of(t) as nat, |i: int| field_at(t, i as usize)->0)
}

/// The title over the suggestions drawn from a list.
pub open spec fn suggestion_title_of(source: SuggestionSource) -> Seq<char> {
    match source {
        SuggestionSource::Contexts => "Kubernetes Contexts (↑↓ navigate, Enter select, Esc close)"@,
        SuggestionSource::Namespaces =>
            "Kubernetes Namespaces (↑↓ navigate, Enter select, Esc close)"@,
        SuggestionSource::Ports => "Available Ports (↑↓ navigate, Enter select, Esc close)"@,
        SuggestionSource::Targets => "Kubernetes Targets (↑↓ navigate, Enter select, Esc close)"@,
        SuggestionSource::Hosts => "SSH Hosts (↑↓ navigate, Enter select, Esc close)"@,
    }
}

impl FormView {
    /// The suggestion at a position of the list for the field in focus, as
    /// it is shown.
    pub open spec fn suggestion_text(self, at: int) -> Seq<char> {
        match self.source() {
            SuggestionSource::Contexts => self.filtered_kube_contexts[at].display_name(),
            SuggestionSource::Namespaces => self.filtered_namespaces[at],
            SuggestionSource::Ports => decimal(self.available_ports[at] as nat),
            SuggestionSource::Targets => self.filtered_kube_targets[at].display_name(),
            SuggestionSource::Hosts => self.filtered_hosts[at].display_name(),
        }
    }

    /// The suggestions that are drawn: those from the scroll offset on.
    pub open spec fn suggestions_drawn(self) -> Seq<Seq<char>> {
        if self.scroll_offset >= self.suggestion_count() {
            Seq::empty()
        } else {
            Seq::new(
                (self.suggestion_count() - self.scroll_offset) as nat,
                |i: int| self.suggestion_text(self.scroll_offset + i),
            )
        }
    }
}

/// The title of the form.
pub fn form_title(mode: FormMode) -> (r: &'static str)
    ensures
        r@ == form_title_of(mode),
{
    match mode {
        FormMode::Create => "Create Session",
        FormMode::Edit(_) => "Edit Session",
    }
}

/// The name of a field.
pub fn label(field: Field) -> (r: &'static str)
    ensures
        r@ == label_of(field),
{
    match field {
        Field::Context => "Context",
        Field::Name => "Name",
        Field::Namespace => "Namespace",
        Field::Target => "Target",
        Field::LocalPort => "Local Port",
        Field::RemotePort => "Remote Port",
    }
}

/// The title over the suggestions drawn from a list.
pub fn suggestion_title(source: SuggestionSource) -> (r: &'static str)
    ensures
        r@ == suggestion_title_of(source),
{
    match source {
        SuggestionSource::Contexts => "Kubernetes Contexts (↑↓ navigate, Enter select, Esc close)",
        SuggestionSource::Namespaces =>
            "Kubernetes Namespaces (↑↓ navigate, Enter select, Esc close)",
        SuggestionSource::Ports => "Available Ports (↑↓ navigate, Enter select, Esc close)",
        SuggestionSource::Targets => "Kubernetes Targets (↑↓ navigate, Enter select, Esc close)",
        SuggestionSource::Hosts => "SSH Hosts (↑↓ navigate, Enter select, Esc close)",
    }
}

impl FormState {
    /// The fields of the form, in the order of their positions.
    pub fn fields(&self) -> (r: Vec<Field>)
        ensures
            r@ == field_list(self@.session_type),
    {
        let count = self.field_count();
        let mut out: Vec<Field> = Vec::new();
        let mut i: usize = 0;
        while i < count
            invariant
                i <= count,
                count == fields_of(self.session_type),
                out@ == field_list(self.session_type).take(i as int),
            decreases count - i,
        {
            match field_for(self.session_type, i) {
                Some(field) => {
                    out.push(field);
                },
                None => {},
            }
            i += 1;
            assert(out@ =~= field_list(self.session_type).take(i as int));
        }
        assert(field_list(self.session_type).take(count as int) =~= field_list(
            self.session_type,
        ));
        out
    }

    /// A copy of the text of a field.
    pub fn field_text(&self, field: Field) -> (r: String)
        ensures
            r@ == self@.text_of(field),
    {
        self.text(field).clone()
    }

    /// The field in focus, where the focus is on a field.
    pub fn focused(&self) -> (r: Option<Field>)
        ensures
            r == self@.field_in_focus(),
    {
        field_for(self.session_type, self.focused_field)
    }

    /// The suggestions that are drawn, as they are shown.
    pub fn suggestion_items(&self) -> (r: Vec<String>)
        ensures
            texts(r@) == self@.suggestions_drawn(),
    {
        let count = self.suggestion_count();
        let source = self.suggestion_source();
        let mut out: Vec<String> = Vec::new();
        if self.scroll_offset >= count {
            assert(texts(out@) =~= Seq::empty());
            return out;
        }
        let mut i: usize = self.scroll_offset;
        assert(texts(out@) =~= self@.suggestions_drawn().take(0));
        while i < count
            invariant
                self.scroll_offset <= i <= count,
                self.scroll_offset < count,
                count == self@.suggestion_count(),
                source == self@.source(),
                texts(out@) == self@.suggestions_drawn().take(i - self.scroll_offset),
            decreases count - i,
        {
            let ghost before = out@;
            let item = match source {
                SuggestionSource::Contexts => self.filtered_kube_contexts[i].display_name(),
                SuggestionSource::Namespaces => {
                    assert(texts(self.filtered_namespaces@)[i as int] == self.filtered_namespaces@[i as int]@);
                    self.filtered_namespaces[i].clone()
                },
                SuggestionSource::Ports => decimal_text(self.available_ports[i] as u64),
                SuggestionSource::Targets => self.filtered_kube_targets[i].display_name(),
                SuggestionSource::Hosts => self.filtered_hosts[i].display_name(),
            };
            assert(item@ == self@.suggestion_text(i as int));
            out.push(item);
            i += 1;
            assert(texts(out@) =~= texts(before).push(item@));
            assert(texts(out@) =~= self@.suggestions_drawn().take(i - self.scroll_offset));
        }
        assert(self@.suggestions_drawn().take(count - self.scroll_offset)
            =~= self@.suggestions_drawn());
        out
    }
}

} // verus!
