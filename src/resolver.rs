//! Resolution of cluster DNS names to pods.
//!
//! A name has the form `<sub>.<name>.<kind>[.cluster.local]` with `kind`
//! either `svc` or `pod`. The cluster objects that resolution reads are
//! given as plain models: the caller fetches them and converts.
use vstd::prelude::*;
use vstd::string::*;

verus! {

/// Why a name could not be resolved.
#[derive(Debug)]
pub enum Errors {
    PodNotFound { namespace: String, pod: String },
    ServiceNotFound { namespace: String, service: String },
    ServiceInvalid { namespace: String, service: String, reason: String },
    ServiceNoReadyPods { namespace: String, service: String },
    NamedServicePodsNotFound { namespace: String, service: String, pod: String },
    PortNotFound(String, String, u16),
    UnsupportedAddress(String),
    ForwardFailed(String),
    LookupFailed(String),
}

pub enum ErrorsView {
    PodNotFound { namespace: Seq<char>, pod: Seq<char> },
    ServiceNotFound { namespace: Seq<char>, service: Seq<char> },
    ServiceInvalid { namespace: Seq<char>, service: Seq<char>, reason: Seq<char> },
    ServiceNoReadyPods { namespace: Seq<char>, service: Seq<char> },
    NamedServicePodsNotFound { namespace: Seq<char>, service: Seq<char>, pod: Seq<char> },
    PortNotFound(Seq<char>, Seq<char>, u16),
    UnsupportedAddress(Seq<char>),
    ForwardFailed(Seq<char>),
    LookupFailed(Seq<char>),
}

impl View for Errors {
    type V = ErrorsView;

    open spec fn view(&self) -> ErrorsView {
        match self {
            Errors::PodNotFound { namespace, pod } => ErrorsView::PodNotFound {
                namespace: namespace@,
                pod: pod@,
            },
            Errors::ServiceNotFound { namespace, service } => ErrorsView::ServiceNotFound {
                namespace: namespace@,
                service: service@,
            },
            Errors::ServiceInvalid { namespace, service, reason } => ErrorsView::ServiceInvalid {
                namespace: namespace@,
                service: service@,
                reason: reason@,
            },
            Errors::ServiceNoReadyPods { namespace, service } => ErrorsView::ServiceNoReadyPods {
                namespace: namespace@,
                service: service@,
            },
            Errors::NamedServicePodsNotFound { namespace, service, pod } =>
                ErrorsView::NamedServicePodsNotFound {
                namespace: namespace@,
                service: service@,
                pod: pod@,
            },
            Errors::PortNotFound(n, s, p) => ErrorsView::PortNotFound(n@, s@, *p),
            Errors::UnsupportedAddress(a) => ErrorsView::UnsupportedAddress(a@),
            Errors::ForwardFailed(m) => ErrorsView::ForwardFailed(m@),
            Errors::LookupFailed(m) => ErrorsView::LookupFailed(m@),
        }
    }
}

/// What a name designates.
#[derive(Debug)]
pub enum Target {
    /// A service; with a host name, the pod of the service that has it.
    Service { hostname: Option<String>, service: String, namespace: String },
    Pod { pod: String, namespace: String },
}

pub enum TargetView {
    Service { hostname: Option<Seq<char>>, service: Seq<char>, namespace: Seq<char> },
    Pod { pod: Seq<char>, namespace: Seq<char> },
}

pub open spec fn opt_view(o: Option<String>) -> Option<Seq<char>> {
    match o {
        Some(s) => Some(s@),
        None => None,
    }
}

impl View for Target {
    type V = TargetView;

    open spec fn view(&self) -> TargetView {
        match self {
            Target::Service { hostname, service, namespace } => TargetView::Service {
                hostname: opt_view(*hostname),
                service: service@,
                namespace: namespace@,
            },
            Target::Pod { pod, namespace } => TargetView::Pod { pod: pod@, namespace: namespace@ },
        }
    }
}

/// The dot-separated segments of a name; empty segments are kept.
pub open spec fn split_dots(s: Seq<char>) -> Seq<Seq<char>>
    decreases s.len(),
{
    if s.len() == 0 {
        seq![seq![]]
    } else {
        let init = split_dots(s.drop_last());
        if s.last() == '.' {
            init.push(seq![])
        } else {
            init.update(init.len() - 1, init.last().push(s.last()))
        }
    }
}

pub proof fn lemma_split_dots_nonempty(s: Seq<char>)
    ensures
        split_dots(s).len() >= 1,
    decreases s.len(),
{
    if s.len() > 0 {
        lemma_split_dots_nonempty(s.drop_last());
    }
}

proof fn lemma_split_dots_append(a: Seq<char>, b: Seq<char>)
    requires
        forall|k: int| 0 <= k < b.len() ==> b[k] != '.',
    ensures
        split_dots(a + seq!['.'] + b) == split_dots(a).push(b),
    decreases b.len(),
{
    let s = a + seq!['.'] + b;
    if b.len() == 0 {
        assert(s.drop_last() =~= a);
        assert(s =~= a + seq!['.']);
        assert(b =~= Seq::<char>::empty());
    } else {
        let b0 = b.drop_last();
        lemma_split_dots_append(a, b0);
        assert(s.drop_last() =~= a + seq!['.'] + b0);
        assert(b0.push(b.last()) =~= b);
        assert(s.last() == b.last());
        let init = split_dots(a).push(b0);
        assert(init.last() == b0);
        assert(init.len() - 1 == split_dots(a).len());
        assert(split_dots(a).push(b0).update(split_dots(a).len() as int, b) =~= split_dots(a).push(b));
    }
}

/// A name not itself ending in `.cluster.local` designates the same service
/// or pod with `.cluster.local` appended as without.
pub proof fn lemma_cluster_local_suffix(s: Seq<char>)
    requires
        strip_cluster_local(split_dots(s)) == split_dots(s),
    ensures
        spec_parse_target(s + ".cluster.local"@) == spec_parse_target(s),
{
    reveal_strlit(".cluster.local");
    reveal_strlit("cluster");
    reveal_strlit("local");
    let cl = "cluster"@;
    let lo = "local"@;
    assert(".cluster.local"@ =~= seq!['.'] + cl + seq!['.'] + lo);
    let a = s + seq!['.'] + cl;
    lemma_split_dots_append(s, cl);
    lemma_split_dots_append(a, lo);
    assert(s + ".cluster.local"@ =~= a + seq!['.'] + lo);
    let segs = split_dots(s).push(cl).push(lo);
    assert(segs.take(segs.len() - 2) =~= split_dots(s));
}

/// The segments without a trailing `cluster`, `local` pair.
pub open spec fn strip_cluster_local(segs: Seq<Seq<char>>) -> Seq<Seq<char>> {
    if segs.len() >= 2 && segs.last() == "local"@ && segs[segs.len() - 2] == "cluster"@ {
        segs.take(segs.len() - 2)
    } else {
        segs
    }
}

/// What a name designates, if it has one of the accepted forms:
/// `<service>.<namespace>.svc`, `<sub>.<service>.<namespace>.svc` or
/// `<pod>.<namespace>.pod`, each optionally followed by `.cluster.local`.
pub open spec fn spec_parse_target(s: Seq<char>) -> Option<TargetView> {
    let segs = strip_cluster_local(split_dots(s));
    if segs.len() == 0 {
        None
    } else {
        let kind = segs.last();
        let rest = segs.drop_last();
        if kind == "svc"@ {
            if rest.len() == 2 {
                Some(TargetView::Service { hostname: None, service: rest[0], namespace: rest[1] })
            } else if rest.len() == 3 {
                Some(
                    TargetView::Service {
                        hostname: Some(rest[0]),
                        service: rest[1],
                        namespace: rest[2],
                    },
                )
            } else {
                None
            }
        } else if kind == "pod"@ {
            if rest.len() == 2 {
                Some(TargetView::Pod { pod: rest[0], namespace: rest[1] })
            } else {
                None
            }
        } else {
            None
        }
    }
}

pub open spec fn strings_view(v: Seq<String>) -> Seq<Seq<char>> {
    v.map_values(|x: String| x@)
}

/// Splits a name at its dots.
pub fn split_name(address: &str) -> (r: Vec<String>)
    ensures
        strings_view(r@) == split_dots(address@),
{
    let n = address.unicode_len();
    let mut segs: Vec<String> = Vec::new();
    let mut start: usize = 0;
    let mut i: usize = 0;
    assert(address@.take(0) =~= Seq::<char>::empty());
    assert(strings_view(segs@).push(address@.subrange(0, 0)) =~= seq![Seq::<char>::empty()]);
    while i < n
        invariant
            start <= i <= n,
            n == address@.len(),
            split_dots(address@.take(i as int)) == strings_view(segs@).push(
                address@.subrange(start as int, i as int),
            ),
        decreases n - i,
    {
        let c = address.get_char(i);
        let ghost prev = address@.take(i as int);
        let ghost next = address@.take(i + 1);
        assert(next.drop_last() =~= prev);
        assert(next.last() == c);
        proof {
            lemma_split_dots_nonempty(prev);
        }
        if c == '.' {
            let seg = address.substring_char(start, i).to_owned();
            let ghost old_segs = segs@;
            segs.push(seg);
            assert(strings_view(segs@) =~= strings_view(old_segs).push(seg@));
            start = i + 1;
            assert(address@.subrange(start as int, i + 1) =~= Seq::<char>::empty());
        } else {
            assert(address@.subrange(start as int, i + 1) =~= address@.subrange(
                start as int,
                i as int,
            ).push(c));
        }
        i = i + 1;
    }
    let last = address.substring_char(start, n).to_owned();
    let ghost old_segs = segs@;
    segs.push(last);
    assert(strings_view(segs@) =~= strings_view(old_segs).push(last@));
    assert(address@.take(n as int) =~= address@);
    segs
}

/// Reads a cluster name. A name of none of the accepted forms gives
/// `UnsupportedAddress` with the name.
pub fn parse_target(address: &str) -> (r: Result<Target, Errors>)
    ensures
        match (r, spec_parse_target(address@)) {
            (Ok(t), Some(v)) => t@ == v,
            (Err(e), None) => e@ == ErrorsView::UnsupportedAddress(address@),
            _ => false,
        },
{
    let segs = split_name(address);
    let ghost all = strings_view(segs@);
    proof {
        lemma_split_dots_nonempty(address@);
    }
    let len = segs.len();
    let local = "local".to_owned();
    let cluster = "cluster".to_owned();
    let mut kind_at: usize = len - 1;
    if len >= 2 && segs[len - 1] == local && segs[len - 2] == cluster {
        if len == 2 {
            assert(strip_cluster_local(all).len() == 0);
            return Err(Errors::UnsupportedAddress(address.to_owned()));
        }
        kind_at = len - 3;
    }
    let ghost segs_v = strip_cluster_local(all);
    assert(segs_v =~= all.take(kind_at + 1));
    let svc = "svc".to_owned();
    let pod = "pod".to_owned();
    if segs[kind_at] == svc {
        if kind_at == 2 {
            Ok(Target::Service { hostname: None, service: segs[0].clone(), namespace: segs[1].clone() })
        } else if kind_at == 3 {
            Ok(
                Target::Service {
                    hostname: Some(segs[0].clone()),
                    service: segs[1].clone(),
                    namespace: segs[2].clone(),
                },
            )
        } else {
            Err(Errors::UnsupportedAddress(address.to_owned()))
        }
    } else if segs[kind_at] == pod {
        if kind_at == 2 {
            Ok(Target::Pod { pod: segs[0].clone(), namespace: segs[1].clone() })
        } else {
            Err(Errors::UnsupportedAddress(address.to_owned()))
        }
    } else {
        Err(Errors::UnsupportedAddress(address.to_owned()))
    }
}

/// A named or numbered port of a container.
#[derive(Debug)]
pub struct ContainerPortInfo {
    pub name: Option<String>,
    pub container_port: i32,
}

/// An entry of a pod's `status.conditions`.
#[derive(Debug)]
pub struct PodCondition {
    pub kind: String,
    pub status: String,
}

/// What resolution reads of a pod: `metadata.name`, `spec.hostname`,
/// `status.conditions` and the ports of all its containers, in order.
#[derive(Debug)]
pub struct PodInfo {
    pub name: Option<String>,
    pub hostname: Option<String>,
    pub conditions: Vec<PodCondition>,
    pub container_ports: Vec<ContainerPortInfo>,
}

/// A service port's `targetPort`.
#[derive(Debug)]
pub enum TargetPort {
    Int(i32),
    Name(String),
}

/// An entry of a service's `spec.ports`.
#[derive(Debug)]
pub struct ServicePortInfo {
    pub port: i32,
    pub target_port: Option<TargetPort>,
}

/// What resolution reads of a service's spec: the selector, in key order,
/// and the ports.
#[derive(Debug)]
pub struct ServiceSpecInfo {
    pub selector: Option<Vec<(String, String)>>,
    pub ports: Vec<ServicePortInfo>,
}

/// What resolution reads of a service.
#[derive(Debug)]
pub struct ServiceInfo {
    pub spec: Option<ServiceSpecInfo>,
}

/// The label query for a selector: `k1=v1,k2=v2,...`.
pub open spec fn label_query(sel: Seq<(String, String)>) -> Seq<char>
    decreases sel.len(),
{
    if sel.len() == 0 {
        seq![]
    } else if sel.len() == 1 {
        sel[0].0@ + "="@ + sel[0].1@
    } else {
        label_query(sel.drop_last()) + ","@ + sel.last().0@ + "="@ + sel.last().1@
    }
}

/// Writes a selector as a label query.
pub fn selector_labels(selector: &Vec<(String, String)>) -> (r: String)
    ensures
        r@ == label_query(selector@),
{
    let mut res = String::new();
    let mut i: usize = 0;
    while i < selector.len()
        invariant
            i <= selector@.len(),
            res@ == label_query(selector@.take(i as int)),
        decreases selector@.len() - i,
    {
        let ghost before = selector@.take(i as int);
        assert(selector@.take(i + 1).drop_last() =~= before);
        if i > 0 {
            res.append(",");
        }
        res.append(selector[i].0.as_str());
        res.append("=");
        res.append(selector[i].1.as_str());
        proof {
            let after = selector@.take(i + 1);
            if i == 0 {
                assert(res@ =~= after[0].0@ + "="@ + after[0].1@);
            } else {
                assert(res@ =~= label_query(before) + ","@ + after.last().0@ + "="@ + after.last().1@);
            }
        }
        i = i + 1;
    }
    assert(selector@.take(selector@.len() as int) =~= selector@);
    res
}

/// The label query for a service, or why there is none.
pub open spec fn spec_service_labels(namespace: Seq<char>, service: Seq<char>, found: Option<ServiceInfo>) -> Result<Seq<char>, ErrorsView> {
    match found {
        None => Err(ErrorsView::ServiceNotFound { namespace, service }),
        Some(svc) => match svc.spec {
            None => Err(
                ErrorsView::ServiceInvalid { namespace, service, reason: "spec is not set"@ },
            ),
            Some(spec) => match spec.selector {
                None => Err(
                    ErrorsView::ServiceInvalid {
                        namespace,
                        service,
                        reason: "spec.selectors is not set"@,
                    },
                ),
                Some(sel) => Ok(label_query(sel@)),
            },
        },
    }
}

/// Given the service that a lookup found, if any, gives it back with the
/// label query that lists its pods.
pub fn service_labels(namespace: &String, service: &String, found: Option<ServiceInfo>) -> (r: Result<(ServiceInfo, String), Errors>)
    ensures
        match (r, spec_service_labels(namespace@, service@, found)) {
            (Ok((svc, l)), Ok(m)) => found == Some(svc) && l@ == m,
            (Err(e), Err(f)) => e@ == f,
            _ => false,
        },
{
    match found {
        None => Err(Errors::ServiceNotFound { namespace: namespace.clone(), service: service.clone() }),
        Some(svc) => match &svc.spec {
            None => Err(
                Errors::ServiceInvalid {
                    namespace: namespace.clone(),
                    service: service.clone(),
                    reason: "spec is not set".to_owned(),
                },
            ),
            Some(spec) => match &spec.selector {
                None => Err(
                    Errors::ServiceInvalid {
                        namespace: namespace.clone(),
                        service: service.clone(),
                        reason: "spec.selectors is not set".to_owned(),
                    },
                ),
                Some(sel) => {
                    let labels = selector_labels(sel);
                    Ok((svc, labels))
                },
            },
        },
    }
}

/// Whether a pod has a `Ready` condition whose status is `True`.
pub open spec fn is_ready(p: PodInfo) -> bool {
    exists|k: int|
        0 <= k < p.conditions@.len() && (#[trigger] p.conditions@[k]).kind@ == "Ready"@
            && p.conditions@[k].status@ == "True"@
}

/// The host name a pod answers to: `spec.hostname`, else `metadata.name`.
pub open spec fn pod_host(p: PodInfo) -> Option<Seq<char>> {
    match p.hostname {
        Some(h) => Some(h@),
        None => opt_view(p.name),
    }
}

/// Whether a pod can be chosen: it has a name and, when a host name is
/// asked for, answers to it; otherwise it is ready.
pub open spec fn eligible(p: PodInfo, hostname: Option<Seq<char>>) -> bool {
    &&& p.name is Some
    &&& match hostname {
        Some(h) => pod_host(p) == Some(h),
        None => is_ready(p),
    }
}

/// The first eligible pod at or after `from`.
pub open spec fn first_eligible(pods: Seq<PodInfo>, hostname: Option<Seq<char>>, from: int) -> Option<int>
    decreases pods.len() - from,
{
    if from < 0 || from >= pods.len() {
        None
    } else if eligible(pods[from], hostname) {
        Some(from)
    } else {
        first_eligible(pods, hostname, from + 1)
    }
}

proof fn lemma_first_eligible(pods: Seq<PodInfo>, hostname: Option<Seq<char>>, from: int)
    requires
        0 <= from,
    ensures
        first_eligible(pods, hostname, from) matches Some(i) ==> from <= i < pods.len()
            && eligible(pods[i], hostname),
    decreases pods.len() - from,
{
    if from < pods.len() && !eligible(pods[from], hostname) {
        lemma_first_eligible(pods, hostname, from + 1);
    }
}

fn pod_ready(p: &PodInfo) -> (r: bool)
    ensures
        r == is_ready(*p),
{
    let ready = "Ready".to_owned();
    let yes = "True".to_owned();
    let mut k: usize = 0;
    while k < p.conditions.len()
        invariant
            k <= p.conditions@.len(),
            ready@ == "Ready"@,
            yes@ == "True"@,
            forall|j: int|
                0 <= j < k ==> !((#[trigger] p.conditions@[j]).kind@ == "Ready"@
                    && p.conditions@[j].status@ == "True"@),
        decreases p.conditions@.len() - k,
    {
        let c = &p.conditions[k];
        let kind_ok = c.kind == ready;
        let status_ok = c.status == yes;
        if kind_ok && status_ok {
            assert(p.conditions@[k as int].kind@ == "Ready"@ && p.conditions@[k as int].status@ == "True"@);
            return true;
        }
        k = k + 1;
    }
    false
}

fn pod_eligible(p: &PodInfo, hostname: &Option<String>) -> (r: bool)
    ensures
        r == eligible(*p, opt_view(*hostname)),
{
    if p.name.is_none() {
        return false;
    }
    match hostname {
        Some(h) => match &p.hostname {
            Some(ph) => *ph == *h,
            None => match &p.name {
                Some(n) => *n == *h,
                None => false,
            },
        },
        None => pod_ready(p),
    }
}

/// The first entry of `ports` for the service port `port`, at or after `from`.
pub open spec fn first_service_port(ports: Seq<ServicePortInfo>, port: u16, from: int) -> Option<int>
    decreases ports.len() - from,
{
    if from < 0 || from >= ports.len() {
        None
    } else if ports[from].port == port as i32 {
        Some(from)
    } else {
        first_service_port(ports, port, from + 1)
    }
}

/// The first container port named `name`, at or after `from`.
pub open spec fn first_named_port(ports: Seq<ContainerPortInfo>, name: Seq<char>, from: int) -> Option<int>
    decreases ports.len() - from,
{
    if from < 0 || from >= ports.len() {
        None
    } else if opt_view(ports[from].name) == Some(name) {
        Some(from)
    } else {
        first_named_port(ports, name, from + 1)
    }
}

/// The pod port that the service port `port` leads to on `pod`.
pub open spec fn spec_pod_port(namespace: Seq<char>, service: Seq<char>, svc: ServiceInfo, pod: PodInfo, port: u16) -> Result<u16, ErrorsView> {
    match svc.spec {
        None => Ok(port),
        Some(spec) => spec_mapped_port(namespace, service, spec, pod, port),
    }
}

/// The pod port that the service port `port` leads to through `spec`.
pub open spec fn spec_mapped_port(namespace: Seq<char>, service: Seq<char>, spec: ServiceSpecInfo, pod: PodInfo, port: u16) -> Result<u16, ErrorsView> {
    match first_service_port(spec.ports@, port, 0) {
        None => Ok(port),
        Some(i) => match spec.ports@[i].target_port {
            None => Ok(port),
            Some(TargetPort::Int(t)) => if 0 <= t <= u16::MAX {
                Ok(t as u16)
            } else {
                Err(
                    ErrorsView::ServiceInvalid {
                        namespace,
                        service,
                        reason: "could not convert target port to u16"@,
                    },
                )
            },
            Some(TargetPort::Name(n)) => match first_named_port(pod.container_ports@, n@, 0) {
                Some(j) => if 0 <= pod.container_ports@[j].container_port <= u16::MAX {
                    Ok(pod.container_ports@[j].container_port as u16)
                } else {
                    Err(ErrorsView::PortNotFound(namespace, service, port))
                },
                None => Err(ErrorsView::PortNotFound(namespace, service, port)),
            },
        },
    }
}

fn find_service_port(ports: &Vec<ServicePortInfo>, port: u16) -> (r: Option<usize>)
    ensures
        match r {
            Some(i) => i < ports@.len() && first_service_port(ports@, port, 0) == Some(i as int),
            None => first_service_port(ports@, port, 0) is None,
        },
{
    let mut i: usize = 0;
    while i < ports.len()
        invariant
            i <= ports@.len(),
            first_service_port(ports@, port, 0) == first_service_port(ports@, port, i as int),
        decreases ports@.len() - i,
    {
        if ports[i].port == port as i32 {
            return Some(i);
        }
        i = i + 1;
    }
    None
}

fn find_named_port(ports: &Vec<ContainerPortInfo>, name: &String) -> (r: Option<usize>)
    ensures
        match r {
            Some(i) => i < ports@.len() && first_named_port(ports@, name@, 0) == Some(i as int),
            None => first_named_port(ports@, name@, 0) is None,
        },
{
    let mut i: usize = 0;
    while i < ports.len()
        invariant
            i <= ports@.len(),
            first_named_port(ports@, name@, 0) == first_named_port(ports@, name@, i as int),
        decreases ports@.len() - i,
    {
        let hit = match &ports[i].name {
            Some(n) => *n == *name,
            None => false,
        };
        if hit {
            return Some(i);
        }
        i = i + 1;
    }
    None
}

/// Maps the service port `port` to a port of `pod` through the service's
/// ports: a numeric target is taken as it is, a named one is looked up
/// among the pod's container ports, and a port the service does not list
/// is passed through, as is any port of a service without a spec.
pub fn pod_port(namespace: &String, service: &String, svc: &ServiceInfo, pod: &PodInfo, port: u16) -> (r: Result<u16, Errors>)
    ensures
        match (r, spec_pod_port(namespace@, service@, *svc, *pod, port)) {
            (Ok(p), Ok(q)) => p == q,
            (Err(e), Err(f)) => e@ == f,
            _ => false,
        },
{
    let spec = match &svc.spec {
        None => return Ok(port),
        Some(spec) => spec,
    };
    match find_service_port(&spec.ports, port) {
        None => Ok(port),
        Some(i) => match &spec.ports[i].target_port {
            None => Ok(port),
            Some(TargetPort::Int(t)) => if 0 <= *t && *t <= 65535 {
                Ok(*t as u16)
            } else {
                Err(
                    Errors::ServiceInvalid {
                        namespace: namespace.clone(),
                        service: service.clone(),
                        reason: "could not convert target port to u16".to_owned(),
                    },
                )
            },
            Some(TargetPort::Name(n)) => match find_named_port(&pod.container_ports, n) {
                Some(j) => {
                    let cp = pod.container_ports[j].container_port;
                    if 0 <= cp && cp <= 65535 {
                        Ok(cp as u16)
                    } else {
                        Err(Errors::PortNotFound(namespace.clone(), service.clone(), port))
                    }
                },
                None => Err(Errors::PortNotFound(namespace.clone(), service.clone(), port)),
            },
        },
    }
}

/// The pod, namespace and port that a service name resolves to, given the
/// service's spec and the pods its selector lists.
pub open spec fn spec_select_pod(
    namespace: Seq<char>,
    service: Seq<char>,
    hostname: Option<Seq<char>>,
    svc: ServiceInfo,
    pods: Seq<PodInfo>,
    port: u16,
) -> Result<(Seq<char>, Seq<char>, u16), ErrorsView> {
    match first_eligible(pods, hostname, 0) {
        None => match hostname {
            Some(h) => Err(ErrorsView::NamedServicePodsNotFound { namespace, service, pod: h }),
            None => Err(ErrorsView::ServiceNoReadyPods { namespace, service }),
        },
        Some(i) => match spec_pod_port(namespace, service, svc, pods[i], port) {
            Ok(q) => Ok((opt_view(pods[i].name)->0, namespace, q)),
            Err(e) => Err(e),
        },
    }
}

fn find_eligible(pods: &Vec<PodInfo>, hostname: &Option<String>) -> (r: Option<usize>)
    ensures
        match r {
            Some(i) => first_eligible(pods@, opt_view(*hostname), 0) == Some(i as int),
            None => first_eligible(pods@, opt_view(*hostname), 0) is None,
        },
{
    let mut i: usize = 0;
    while i < pods.len()
        invariant
            i <= pods@.len(),
            first_eligible(pods@, opt_view(*hostname), 0) == first_eligible(
                pods@,
                opt_view(*hostname),
                i as int,
            ),
        decreases pods@.len() - i,
    {
        if pod_eligible(&pods[i], hostname) {
            return Some(i);
        }
        i = i + 1;
    }
    None
}

/// Chooses the pod for a service name among the pods its selector lists:
/// with a host name, the first pod that answers to it; otherwise the first
/// ready pod. Either way the port is mapped through the service's ports.
pub fn select_service_pod(
    namespace: &String,
    service: &String,
    hostname: &Option<String>,
    svc: &ServiceInfo,
    pods: &Vec<PodInfo>,
    port: u16,
) -> (r: Result<(String, String, u16), Errors>)
    ensures
        match (r, spec_select_pod(namespace@, service@, opt_view(*hostname), *svc, pods@, port)) {
            (Ok((p, n, q)), Ok((pv, nv, qv))) => p@ == pv && n@ == nv && q == qv,
            (Err(e), Err(f)) => e@ == f,
            _ => false,
        },
{
    let i = match find_eligible(pods, hostname) {
        Some(i) => i,
        None => {
            return match hostname {
                Some(hn) => Err(
                    Errors::NamedServicePodsNotFound {
                        namespace: namespace.clone(),
                        service: service.clone(),
                        pod: hn.clone(),
                    },
                ),
                None => Err(
                    Errors::ServiceNoReadyPods { namespace: namespace.clone(), service: service.clone() },
                ),
            };
        },
    };
    proof {
        lemma_first_eligible(pods@, opt_view(*hostname), 0);
    }
    let pod = &pods[i];
    let name = match &pod.name {
        Some(n) => n.clone(),
        None => return Err(Errors::ServiceNoReadyPods { namespace: namespace.clone(), service: service.clone() }),
    };
    match pod_port(namespace, service, svc, pod, port) {
        Ok(q) => Ok((name, namespace.clone(), q)),
        Err(e) => Err(e),
    }
}

/// The target of a pod name, given whether the lookup found the pod.
pub fn pod_target(namespace: &String, pod: &String, found: bool, port: u16) -> (r: Result<(String, String, u16), Errors>)
    ensures
        found ==> (r matches Ok((p, n, q)) && p@ == pod@ && n@ == namespace@ && q == port),
        !found ==> (r matches Err(e) && e@ == ErrorsView::PodNotFound {
            namespace: namespace@,
            pod: pod@,
        }),
{
    if found {
        Ok((pod.clone(), namespace.clone(), port))
    } else {
        Err(Errors::PodNotFound { namespace: namespace.clone(), pod: pod.clone() })
    }
}

} // verus!
