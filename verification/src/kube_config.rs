//! Kubernetes contexts and the targets a port forward can point at.

use crate::storage::{home_of, home_or_here, Location, LocationView};
use crate::text::{
    contains_ignoring_case, copy_opt_text, decimal, decimal_text, has_substring, is_empty_text,
    join_from, joined, lowercase, opt_text, split_words, text_is, texts, to_lower, trim_text,
    trimmed, words_of,
};
use vstd::prelude::*;
use vstd::string::*;

verus! {

/// A context of the Kubernetes client configuration.
#[derive(Debug)]
pub struct KubeContext {
    pub name: String,
    pub cluster: String,
    pub namespace: Option<String>,
}

/// The mathematical value of a [`KubeContext`].
pub struct KubeContextView {
    pub name: Seq<char>,
    pub cluster: Seq<char>,
    pub namespace: Option<Seq<char>>,
}

impl View for KubeContext {
    type V = KubeContextView;

    open spec fn view(&self) -> KubeContextView {
        KubeContextView {
            name: self.name@,
            cluster: self.cluster@,
            namespace: opt_text(self.namespace),
        }
    }
}

impl KubeContextView {
    /// The context as a list of suggestions shows it.
    pub open spec fn display_name(self) -> Seq<char> {
        match self.namespace {
            Some(ns) => self.name + " ("@ + ns + ")"@,
            None => self.name,
        }
    }

    /// The query, already in lower case, occurs in the lower-case form of
    /// the context's name, cluster or namespace.
    pub open spec fn matches(self, query_lower: Seq<char>) -> bool {
        ||| has_substring(lowercase(self.name), query_lower)
        ||| has_substring(lowercase(self.cluster), query_lower)
        ||| (self.namespace matches Some(ns) && has_substring(lowercase(ns), query_lower))
    }
}

/// The values of a list of contexts.
pub open spec fn context_views(contexts: Seq<KubeContext>) -> Seq<KubeContextView> {
    contexts.map_values(|c: KubeContext| c@)
}

/// The contexts that a query selects: all of them for the empty query,
/// else those that match it without regard to case, in their order.
pub open spec fn filtered_contexts(contexts: Seq<KubeContextView>, query: Seq<char>) -> Seq<
    KubeContextView,
> {
    if query.len() == 0 {
        contexts
    } else {
        contexts.filter(|c: KubeContextView| c.matches(lowercase(query)))
    }
}

impl Clone for KubeContext {
    fn clone(&self) -> (r: KubeContext)
        ensures
            r@ == self@,
    {
        KubeContext {
            name: self.name.clone(),
            cluster: self.cluster.clone(),
            namespace: copy_opt_text(&self.namespace),
        }
    }
}

impl KubeContext {
    pub fn display_name(&self) -> (r: String)
        ensures
            r@ == self@.display_name(),
    {
        match &self.namespace {
            Some(ns) => {
                let mut out = self.name.clone();
                out.append(" (");
                out.append(ns.as_str());
                out.append(")");
                out
            },
            None => self.name.clone(),
        }
    }

    /// Whether a query, already in lower case, selects the context.
    pub fn matches(&self, query_lower: &str) -> (b: bool)
        ensures
            b == self@.matches(query_lower@),
    {
        if contains_ignoring_case(self.name.as_str(), query_lower) {
            return true;
        }
        if contains_ignoring_case(self.cluster.as_str(), query_lower) {
            return true;
        }
        match &self.namespace {
            Some(ns) => contains_ignoring_case(ns.as_str(), query_lower),
            None => false,
        }
    }
}

/// A copy of a list of contexts.
pub fn copy_contexts(contexts: &Vec<KubeContext>) -> (r: Vec<KubeContext>)
    ensures
        context_views(r@) == context_views(contexts@),
{
    let mut out: Vec<KubeContext> = Vec::new();
    let mut i: usize = 0;
    while i < contexts.len()
        invariant
            i <= contexts.len(),
            out@.len() == i,
            forall|k: int| 0 <= k < i ==> out@[k]@ == contexts@[k]@,
        decreases contexts.len() - i,
    {
        out.push(contexts[i].clone());
        i += 1;
    }
    assert(context_views(out@) =~= context_views(contexts@));
    out
}

/// The contexts that `query` selects.
pub fn filter_contexts(contexts: &Vec<KubeContext>, query: &str) -> (r: Vec<KubeContext>)
    ensures
        context_views(r@) == filtered_contexts(context_views(contexts@), query@),
{
    if is_empty_text(query) {
        return copy_contexts(contexts);
    }
    let query_lower = to_lower(query);
    let ghost all = context_views(contexts@);
    let ghost pred = |c: KubeContextView| c.matches(lowercase(query@));
    let mut out: Vec<KubeContext> = Vec::new();
    let mut i: usize = 0;
    assert(context_views(out@) =~= all.take(0).filter(pred));
    while i < contexts.len()
        invariant
            i <= contexts.len(),
            all == context_views(contexts@),
            query_lower@ == lowercase(query@),
            pred == |c: KubeContextView| c.matches(lowercase(query@)),
            context_views(out@) == all.take(i as int).filter(pred),
        decreases contexts.len() - i,
    {
        let context = &contexts[i];
        proof {
            assert(all.take(i + 1) =~= all.take(i as int).push(context@));
            all.take(i as int).lemma_filter_push(context@, pred);
        }
        if context.matches(query_lower.as_str()) {
            let ghost before = out@;
            out.push(context.clone());
            assert(context_views(out@) =~= context_views(before).push(context@));
        }
        i += 1;
    }
    assert(all.take(contexts.len() as int) =~= all);
    out
}

/// The namespaces that a query selects: all of them for the empty query,
/// else those in whose lower-case form the lower-case query occurs.
pub open spec fn filtered_namespaces(namespaces: Seq<Seq<char>>, query: Seq<char>) -> Seq<
    Seq<char>,
> {
    if query.len() == 0 {
        namespaces
    } else {
        namespaces.filter(|ns: Seq<char>| has_substring(lowercase(ns), lowercase(query)))
    }
}

/// The namespaces that `query` selects.
pub fn filter_namespaces(namespaces: &Vec<String>, query: &str) -> (r: Vec<String>)
    ensures
        texts(r@) == filtered_namespaces(texts(namespaces@), query@),
{
    if is_empty_text(query) {
        return crate::text::copy_texts(namespaces);
    }
    let query_lower = to_lower(query);
    let ghost all = texts(namespaces@);
    let ghost pred = |ns: Seq<char>| has_substring(lowercase(ns), lowercase(query@));
    let mut out: Vec<String> = Vec::new();
    let mut i: usize = 0;
    assert(texts(out@) =~= all.take(0).filter(pred));
    while i < namespaces.len()
        invariant
            i <= namespaces.len(),
            all == texts(namespaces@),
            query_lower@ == lowercase(query@),
            pred == |ns: Seq<char>| has_substring(lowercase(ns), lowercase(query@)),
            texts(out@) == all.take(i as int).filter(pred),
        decreases namespaces.len() - i,
    {
        let ns = &namespaces[i];
        proof {
            assert(all.take(i + 1) =~= all.take(i as int).push(ns@));
            all.take(i as int).lemma_filter_push(ns@, pred);
        }
        if contains_ignoring_case(ns.as_str(), query_lower.as_str()) {
            let ghost before = out@;
            out.push(ns.clone());
            assert(texts(out@) =~= texts(before).push(ns@));
        }
        i += 1;
    }
    assert(all.take(namespaces.len() as int) =~= all);
    out
}

/// Something a port forward can point at: a pod or a service, with the
/// ports it offers.
#[derive(Debug)]
pub struct KubeTarget {
    /// `pods` or `services`.
    pub kind: String,
    pub name: String,
    pub namespace: String,
    pub ports: Vec<u16>,
}

/// The mathematical value of a [`KubeTarget`].
pub struct KubeTargetView {
    pub kind: Seq<char>,
    pub name: Seq<char>,
    pub namespace: Seq<char>,
    pub ports: Seq<u16>,
}

impl View for KubeTarget {
    type V = KubeTargetView;

    open spec fn view(&self) -> KubeTargetView {
        KubeTargetView {
            kind: self.kind@,
            name: self.name@,
            namespace: self.namespace@,
            ports: self.ports@,
        }
    }
}

/// The decimal numerals of a list of ports.
pub open spec fn port_numerals(ports: Seq<u16>) -> Seq<Seq<char>> {
    ports.map_values(|p: u16| decimal(p as nat))
}

impl KubeTargetView {
    /// The ports as a list, or the words that say there are none.
    pub open spec fn ports_text(self) -> Seq<char> {
        if self.ports.len() == 0 {
            "no ports"@
        } else {
            joined(port_numerals(self.ports), ", "@)
        }
    }

    /// The target as a list of suggestions shows it.
    pub open spec fn display_name(self) -> Seq<char> {
        self.kind + "/"@ + self.name + " ["@ + self.namespace + "] - ports: "@ + self.ports_text()
    }

    /// What `kubectl port-forward` is given to reach the target.
    pub open spec fn target_string(self) -> Seq<char> {
        self.kind + "/"@ + self.name
    }

    /// The query, already in lower case, occurs in the lower-case form of
    /// the target's name, namespace or kind.
    pub open spec fn matches(self, query_lower: Seq<char>) -> bool {
        ||| has_substring(lowercase(self.name), query_lower)
        ||| has_substring(lowercase(self.namespace), query_lower)
        ||| has_substring(lowercase(self.kind), query_lower)
    }
}

/// The values of a list of targets.
pub open spec fn target_views(targets: Seq<KubeTarget>) -> Seq<KubeTargetView> {
    targets.map_values(|t: KubeTarget| t@)
}

/// The targets that a query selects: all of them for the empty query, else
/// those that match it without regard to case, in their order.
pub open spec fn filtered_targets(targets: Seq<KubeTargetView>, query: Seq<char>) -> Seq<
    KubeTargetView,
> {
    if query.len() == 0 {
        targets
    } else {
        targets.filter(|t: KubeTargetView| t.matches(lowercase(query)))
    }
}

/// A copy of a list of ports.
pub fn copy_ports(ports: &Vec<u16>) -> (r: Vec<u16>)
    ensures
        r@ == ports@,
{
    let mut out: Vec<u16> = Vec::new();
    let mut i: usize = 0;
    while i < ports.len()
        invariant
            i <= ports.len(),
            out@ == ports@.take(i as int),
        decreases ports.len() - i,
    {
        out.push(ports[i]);
        i += 1;
        assert(out@ =~= ports@.take(i as int));
    }
    assert(ports@.take(ports.len() as int) =~= ports@);
    out
}

impl Clone for KubeTarget {
    fn clone(&self) -> (r: KubeTarget)
        ensures
            r@ == self@,
    {
        KubeTarget {
            kind: self.kind.clone(),
            name: self.name.clone(),
            namespace: self.namespace.clone(),
            ports: copy_ports(&self.ports),
        }
    }
}

impl KubeTarget {
    pub fn display_name(&self) -> (r: String)
        ensures
            r@ == self@.display_name(),
    {
        let ports_text = if self.ports.len() == 0 {
            String::from_str("no ports")
        } else {
            let mut numerals: Vec<String> = Vec::new();
            let mut i: usize = 0;
            while i < self.ports.len()
                invariant
                    i <= self.ports.len(),
                    texts(numerals@) == port_numerals(self.ports@).take(i as int),
                decreases self.ports.len() - i,
            {
                let ghost before = numerals@;
                numerals.push(decimal_text(self.ports[i] as u64));
                i += 1;
                assert(texts(numerals@) =~= texts(before).push(decimal(self.ports@[i - 1] as nat)));
                assert(texts(numerals@) =~= port_numerals(self.ports@).take(i as int));
            }
            assert(port_numerals(self.ports@).take(self.ports.len() as int) =~= port_numerals(
                self.ports@,
            ));
            assert(texts(numerals@).subrange(0, numerals.len() as int) =~= texts(numerals@));
            join_from(&numerals, 0, ", ")
        };
        let mut out = self.kind.clone();
        out.append("/");
        out.append(self.name.as_str());
        out.append(" [");
        out.append(self.namespace.as_str());
        out.append("] - ports: ");
        out.append(ports_text.as_str());
        out
    }

    pub fn target_string(&self) -> (r: String)
        ensures
            r@ == self@.target_string(),
    {
        let mut out = self.kind.clone();
        out.append("/");
        out.append(self.name.as_str());
        out
    }

    /// Whether a query, already in lower case, selects the target.
    pub fn matches(&self, query_lower: &str) -> (b: bool)
        ensures
            b == self@.matches(query_lower@),
    {
        if contains_ignoring_case(self.name.as_str(), query_lower) {
            return true;
        }
        if contains_ignoring_case(self.namespace.as_str(), query_lower) {
            return true;
        }
        contains_ignoring_case(self.kind.as_str(), query_lower)
    }
}

/// A copy of a list of targets.
pub fn copy_targets(targets: &[KubeTarget]) -> (r: Vec<KubeTarget>)
    ensures
        target_views(r@) == target_views(targets@),
{
    let mut out: Vec<KubeTarget> = Vec::new();
    let mut i: usize = 0;
    while i < targets.len()
        invariant
            i <= targets.len(),
            out@.len() == i,
            forall|k: int| 0 <= k < i ==> out@[k]@ == targets@[k]@,
        decreases targets.len() - i,
    {
        out.push(targets[i].clone());
        i += 1;
    }
    assert(target_views(out@) =~= target_views(targets@));
    out
}

/// The targets that `query` selects.
pub fn filter_targets(targets: &[KubeTarget], query: &str) -> (r: Vec<KubeTarget>)
    ensures
        target_views(r@) == filtered_targets(target_views(targets@), query@),
{
    if is_empty_text(query) {
        return copy_targets(targets);
    }
    let query_lower = to_lower(query);
    let ghost all = target_views(targets@);
    let ghost pred = |t: KubeTargetView| t.matches(lowercase(query@));
    let mut out: Vec<KubeTarget> = Vec::new();
    let mut i: usize = 0;
    assert(target_views(out@) =~= all.take(0).filter(pred));
    while i < targets.len()
        invariant
            i <= targets.len(),
            all == target_views(targets@),
            query_lower@ == lowercase(query@),
            pred == |t: KubeTargetView| t.matches(lowercase(query@)),
            target_views(out@) == all.take(i as int).filter(pred),
        decreases targets.len() - i,
    {
        let target = &targets[i];
        proof {
            assert(all.take(i + 1) =~= all.take(i as int).push(target@));
            all.take(i as int).lemma_filter_push(target@, pred);
        }
        if target.matches(query_lower.as_str()) {
            let ghost before = out@;
            out.push(target.clone());
            assert(target_views(out@) =~= target_views(before).push(target@));
        }
        i += 1;
    }
    assert(all.take(targets.len() as int) =~= all);
    out
}

/// A pod as the cluster lists it: each container with the ports it
/// declares, if it declares any.
#[derive(Debug)]
pub struct PodRecord {
    pub name: String,
    pub namespace: String,
    pub containers: Vec<Option<Vec<u16>>>,
}

/// A service as the cluster lists it, with the ports it declares.
#[derive(Debug)]
pub struct ServiceRecord {
    pub name: String,
    pub namespace: String,
    pub ports: Option<Vec<u16>>,
}

/// The ports of an optional list.
pub open spec fn opt_ports(ports: Option<Vec<u16>>) -> Seq<u16> {
    match ports {
        Some(p) => p@,
        None => Seq::empty(),
    }
}

/// The ports that the first `n` containers declare, in order.
pub open spec fn container_ports(containers: Seq<Option<Vec<u16>>>, n: nat) -> Seq<u16>
    decreases n,
{
    if n == 0 {
        Seq::empty()
    } else {
        container_ports(containers, (n - 1) as nat) + opt_ports(containers[n - 1])
    }
}

/// Whether something in `namespace` passes the filter: every namespace
/// passes where there is no filter.
pub open spec fn in_namespace(namespace: Seq<char>, filter: Option<Seq<char>>) -> bool {
    match filter {
        Some(wanted) => namespace == wanted,
        None => true,
    }
}

/// The target that a pod gives: none where it declares no port or lies
/// outside the namespace asked for.
pub open spec fn pod_target(pod: PodRecord, filter: Option<Seq<char>>) -> Option<KubeTargetView> {
    let ports = container_ports(pod.containers@, pod.containers@.len());
    if ports.len() == 0 || !in_namespace(pod.namespace@, filter) {
        None
    } else {
        Some(KubeTargetView { kind: "pods"@, name: pod.name@, namespace: pod.namespace@, ports })
    }
}

/// The target that a service gives: none where it declares no port or lies
/// outside the namespace asked for.
pub open spec fn service_target(service: ServiceRecord, filter: Option<Seq<char>>) -> Option<
    KubeTargetView,
> {
    let ports = opt_ports(service.ports);
    if ports.len() == 0 || !in_namespace(service.namespace@, filter) {
        None
    } else {
        Some(
            KubeTargetView {
                kind: "services"@,
                name: service.name@,
                namespace: service.namespace@,
                ports,
            },
        )
    }
}

/// The targets that the first `n` pods give, in order.
pub open spec fn pod_targets(pods: Seq<PodRecord>, filter: Option<Seq<char>>, n: nat) -> Seq<
    KubeTargetView,
>
    decreases n,
{
    if n == 0 {
        Seq::empty()
    } else {
        let earlier = pod_targets(pods, filter, (n - 1) as nat);
        match pod_target(pods[n - 1], filter) {
            Some(t) => earlier.push(t),
            None => earlier,
        }
    }
}

/// The targets that the first `n` services give, in order.
pub open spec fn service_targets(
    services: Seq<ServiceRecord>,
    filter: Option<Seq<char>>,
    n: nat,
) -> Seq<KubeTargetView>
    decreases n,
{
    if n == 0 {
        Seq::empty()
    } else {
        let earlier = service_targets(services, filter, (n - 1) as nat);
        match service_target(services[n - 1], filter) {
            Some(t) => earlier.push(t),
            None => earlier,
        }
    }
}

/// The text of an optional string slice.
pub open spec fn opt_str_text(o: Option<&str>) -> Option<Seq<char>> {
    match o {
        Some(s) => Some(s@),
        None => None,
    }
}

/// Whether something in `namespace` passes the filter.
fn passes(namespace: &String, filter: Option<&str>) -> (b: bool)
    ensures
        b == in_namespace(namespace@, opt_str_text(filter)),
{
    match filter {
        Some(wanted) => text_is(namespace, wanted),
        None => true,
    }
}

/// All ports that the containers of a pod declare.
fn ports_of_containers(containers: &Vec<Option<Vec<u16>>>) -> (r: Vec<u16>)
    ensures
        r@ == container_ports(containers@, containers@.len()),
{
    let mut out: Vec<u16> = Vec::new();
    let mut i: usize = 0;
    while i < containers.len()
        invariant
            i <= containers.len(),
            out@ == container_ports(containers@, i as nat),
        decreases containers.len() - i,
    {
        let ghost before = out@;
        match &containers[i] {
            Some(ports) => {
                let mut j: usize = 0;
                while j < ports.len()
                    invariant
                        j <= ports.len(),
                        out@ == before + ports@.take(j as int),
                    decreases ports.len() - j,
                {
                    out.push(ports[j]);
                    j += 1;
                    assert(out@ =~= before + ports@.take(j as int));
                }
                assert(ports@.take(ports.len() as int) =~= ports@);
            },
            None => {
                assert(out@ =~= before + Seq::<u16>::empty());
            },
        }
        i += 1;
    }
    out
}

/// The pods that a port forward can point at, out of a listing of pods:
/// those that declare a port and lie in the namespace asked for.
pub fn get_pods_with_ports(pods: &Vec<PodRecord>, namespace: Option<&str>) -> (r: Vec<KubeTarget>)
    ensures
        target_views(r@) == pod_targets(pods@, opt_str_text(namespace), pods@.len()),
{
    let ghost filter = opt_str_text(namespace);
    let mut out: Vec<KubeTarget> = Vec::new();
    let mut i: usize = 0;
    assert(target_views(out@) =~= Seq::empty());
    while i < pods.len()
        invariant
            i <= pods.len(),
            filter == opt_str_text(namespace),
            target_views(out@) == pod_targets(pods@, filter, i as nat),
        decreases pods.len() - i,
    {
        let pod = &pods[i];
        let ports = ports_of_containers(&pod.containers);
        if ports.len() > 0 && passes(&pod.namespace, namespace) {
            let ghost before = out@;
            let target = KubeTarget {
                kind: String::from_str("pods"),
                name: pod.name.clone(),
                namespace: pod.namespace.clone(),
                ports,
            };
            out.push(target);
            assert(target_views(out@) =~= target_views(before).push(target@));
        }
        i += 1;
    }
    out
}

/// The services that a port forward can point at, out of a listing of
/// services: those that declare a port and lie in the namespace asked for.
pub fn get_services_with_ports(services: &Vec<ServiceRecord>, namespace: Option<&str>) -> (r: Vec<
    KubeTarget,
>)
    ensures
        target_views(r@) == service_targets(services@, opt_str_text(namespace), services@.len()),
{
    let ghost filter = opt_str_text(namespace);
    let mut out: Vec<KubeTarget> = Vec::new();
    let mut i: usize = 0;
    assert(target_views(out@) =~= Seq::empty());
    while i < services.len()
        invariant
            i <= services.len(),
            filter == opt_str_text(namespace),
            target_views(out@) == service_targets(services@, filter, i as nat),
        decreases services.len() - i,
    {
        let service = &services[i];
        let declared = match &service.ports {
            Some(ports) => ports.len() > 0,
            None => false,
        };
        if declared && passes(&service.namespace, namespace) {
            let ghost before = out@;
            let ports = match &service.ports {
                Some(ports) => copy_ports(ports),
                None => Vec::new(),
            };
            let target = KubeTarget {
                kind: String::from_str("services"),
                name: service.name.clone(),
                namespace: service.namespace.clone(),
                ports,
            };
            out.push(target);
            assert(target_views(out@) =~= target_views(before).push(target@));
        }
        i += 1;
    }
    out
}

/// Everything a port forward can point at: the pods, then the services.
pub fn get_targets(
    pods: &Vec<PodRecord>,
    services: &Vec<ServiceRecord>,
    namespace: Option<&str>,
) -> (r: Vec<KubeTarget>)
    ensures
        target_views(r@) == pod_targets(pods@, opt_str_text(namespace), pods@.len())
            + service_targets(services@, opt_str_text(namespace), services@.len()),
{
    let mut targets = get_pods_with_ports(pods, namespace);
    let mut more = get_services_with_ports(services, namespace);
    let ghost first = targets@;
    let ghost second = more@;
    targets.append(&mut more);
    assert(target_views(targets@) =~= target_views(first) + target_views(second));
    targets
}

/// What a Kubernetes client configuration says: the context in use and all
/// contexts, where the configuration names both.
pub fn parse_kube_config(
    current_context: Option<String>,
    contexts: Option<Vec<KubeContext>>,
) -> (r: Option<(String, Vec<KubeContext>)>)
    ensures
        match (current_context, contexts) {
            (Some(current), Some(all)) => r == Some((current, all)),
            _ => r is None,
        },
{
    match current_context {
        Some(current) => match contexts {
            Some(all) => Some((current, all)),
            None => None,
        },
        None => None,
    }
}

/// The context in use, out of what `kubectl config current-context`
/// answered: its output without the white space around it, where the
/// command succeeded and said anything.
pub fn get_current_context(succeeded: bool, output: &str) -> (r: Option<String>)
    ensures
        match r {
            Some(context) => succeeded && context@ == trimmed(output@) && context@.len() > 0,
            None => !succeeded || trimmed(output@).len() == 0,
        },
{
    if succeeded {
        let context = trim_text(output);
        if !is_empty_text(context.as_str()) {
            return Some(context);
        }
    }
    None
}

/// The namespaces of a cluster, out of what `kubectl get namespaces`
/// answered: the words of its output where the command succeeded, nothing
/// where it failed.
pub fn get_namespaces(succeeded: bool, output: &str) -> (r: Vec<String>)
    ensures
        texts(r@) == if succeeded {
            words_of(output@)
        } else {
            Seq::empty()
        },
{
    if succeeded {
        split_words(output)
    } else {
        let none: Vec<String> = Vec::new();
        assert(texts(none@) =~= Seq::empty());
        none
    }
}

/// Where the client configuration of Kubernetes lies: where `KUBECONFIG`
/// says, else in `.kube/config` under the home directory.
pub fn get_kubeconfig_path(kubeconfig: Option<String>, home: Option<String>) -> (r: Location)
    ensures
        r@ == match kubeconfig {
            Some(path) => LocationView { base: path@, below: Seq::empty() },
            None => LocationView { base: home_or_here(home), below: seq![".kube"@, "config"@] },
        },
{
    match kubeconfig {
        Some(path) => {
            let r = Location { base: path, below: Vec::new() };
            assert(r@.below =~= Seq::empty());
            r
        },
        None => {
            let mut below: Vec<String> = Vec::new();
            below.push(String::from_str(".kube"));
            below.push(String::from_str("config"));
            let r = Location { base: home_of(home), below };
            assert(r@.below =~= seq![".kube"@, "config"@]);
            r
        },
    }
}

} // verus!
