use kube_socks::resolver::{
    parse_target, pod_port, pod_target, select_service_pod, selector_labels, service_labels,
    split_name, ContainerPortInfo, Errors, PodCondition, PodInfo, ServiceInfo, ServicePortInfo,
    ServiceSpecInfo, Target, TargetPort,
};

fn s(v: &str) -> String {
    v.to_string()
}

fn pod(name: &str, hostname: Option<&str>, ready: bool, ports: Vec<(Option<&str>, i32)>) -> PodInfo {
    PodInfo {
        name: Some(s(name)),
        hostname: hostname.map(s),
        conditions: vec![
            PodCondition { kind: s("Initialized"), status: s("True") },
            PodCondition { kind: s("Ready"), status: s(if ready { "True" } else { "False" }) },
        ],
        container_ports: ports
            .into_iter()
            .map(|(n, p)| ContainerPortInfo { name: n.map(s), container_port: p })
            .collect(),
    }
}

fn spec(ports: Vec<(i32, Option<TargetPort>)>) -> ServiceInfo {
    ServiceInfo {
        spec: Some(ServiceSpecInfo {
            selector: Some(vec![(s("app"), s("api"))]),
            ports: ports
                .into_iter()
                .map(|(port, target_port)| ServicePortInfo { port, target_port })
                .collect(),
        }),
    }
}

#[test]
fn split_keeps_empty_segments() {
    assert_eq!(split_name("a..b"), vec![s("a"), s(""), s("b")]);
    assert_eq!(split_name(""), vec![s("")]);
    assert_eq!(split_name("x."), vec![s("x"), s("")]);
}

#[test]
fn parse_service_name() {
    match parse_target("api.ns1.svc").unwrap() {
        Target::Service { hostname, service, namespace } => {
            assert_eq!(hostname, None);
            assert_eq!(service, "api");
            assert_eq!(namespace, "ns1");
        }
        other => panic!("unexpected {:?}", other),
    }
}

#[test]
fn parse_service_name_with_host() {
    match parse_target("web-0.web.prod.svc.cluster.local").unwrap() {
        Target::Service { hostname, service, namespace } => {
            assert_eq!(hostname, Some(s("web-0")));
            assert_eq!(service, "web");
            assert_eq!(namespace, "prod");
        }
        other => panic!("unexpected {:?}", other),
    }
}

#[test]
fn parse_pod_name() {
    match parse_target("mypod.default.pod.cluster.local").unwrap() {
        Target::Pod { pod, namespace } => {
            assert_eq!(pod, "mypod");
            assert_eq!(namespace, "default");
        }
        other => panic!("unexpected {:?}", other),
    }
}

#[test]
fn cluster_local_suffix_gives_same_target() {
    let a = parse_target("api.ns1.svc.cluster.local").unwrap();
    let b = parse_target("api.ns1.svc").unwrap();
    match (a, b) {
        (
            Target::Service { hostname: h1, service: s1, namespace: n1 },
            Target::Service { hostname: h2, service: s2, namespace: n2 },
        ) => {
            assert_eq!(h1, h2);
            assert_eq!(s1, s2);
            assert_eq!(n1, n2);
        }
        other => panic!("unexpected {:?}", other),
    }
}

#[test]
fn unsupported_names() {
    for name in [
        "example.com",
        "cluster.local",
        "",
        "svc",
        "a.svc",
        "a.b.c.d.svc",
        "a.b.c.pod",
        "a.b.svc.cluster.local.cluster.local",
    ] {
        match parse_target(name) {
            Err(Errors::UnsupportedAddress(a)) => assert_eq!(a, name),
            other => panic!("{}: unexpected {:?}", name, other),
        }
    }
}

#[test]
fn label_query_for_selector() {
    assert_eq!(selector_labels(&vec![]), "");
    assert_eq!(selector_labels(&vec![(s("app"), s("api"))]), "app=api");
    assert_eq!(
        selector_labels(&vec![(s("app"), s("api")), (s("tier"), s("web"))]),
        "app=api,tier=web"
    );
}

#[test]
fn service_labels_errors() {
    match service_labels(&s("ns"), &s("api"), None) {
        Err(Errors::ServiceNotFound { namespace, service }) => {
            assert_eq!(namespace, "ns");
            assert_eq!(service, "api");
        }
        other => panic!("unexpected {:?}", other),
    }
    match service_labels(&s("ns"), &s("api"), Some(ServiceInfo { spec: None })) {
        Err(Errors::ServiceInvalid { reason, .. }) => assert_eq!(reason, "spec is not set"),
        other => panic!("unexpected {:?}", other),
    }
    let no_selector = ServiceInfo { spec: Some(ServiceSpecInfo { selector: None, ports: vec![] }) };
    match service_labels(&s("ns"), &s("api"), Some(no_selector)) {
        Err(Errors::ServiceInvalid { reason, .. }) => assert_eq!(reason, "spec.selectors is not set"),
        other => panic!("unexpected {:?}", other),
    }
    let (found, labels) = service_labels(&s("ns"), &s("api"), Some(spec(vec![(80, None)]))).unwrap();
    assert_eq!(labels, "app=api");
    assert_eq!(found.spec.unwrap().ports.len(), 1);
}

#[test]
fn picks_first_ready_pod() {
    let pods = vec![
        pod("api-0", None, false, vec![]),
        pod("api-1", None, true, vec![]),
        pod("api-2", None, true, vec![]),
    ];
    let r = select_service_pod(&s("ns1"), &s("api"), &None, &spec(vec![]), &pods, 80).unwrap();
    assert_eq!(r, (s("api-1"), s("ns1"), 80));
}

#[test]
fn no_ready_pods() {
    let pods = vec![pod("api-0", None, false, vec![])];
    match select_service_pod(&s("ns1"), &s("api"), &None, &spec(vec![]), &pods, 80) {
        Err(Errors::ServiceNoReadyPods { namespace, service }) => {
            assert_eq!(namespace, "ns1");
            assert_eq!(service, "api");
        }
        other => panic!("unexpected {:?}", other),
    }
}

#[test]
fn named_pod_by_hostname_or_name() {
    let pods = vec![
        pod("web-abc", Some("web-0"), false, vec![]),
        pod("web-1", None, false, vec![]),
    ];
    let by_host =
        select_service_pod(&s("p"), &s("web"), &Some(s("web-0")), &spec(vec![]), &pods, 81).unwrap();
    assert_eq!(by_host, (s("web-abc"), s("p"), 81));
    let by_name =
        select_service_pod(&s("p"), &s("web"), &Some(s("web-1")), &spec(vec![]), &pods, 81).unwrap();
    assert_eq!(by_name, (s("web-1"), s("p"), 81));
    match select_service_pod(&s("p"), &s("web"), &Some(s("web-abc")), &spec(vec![]), &pods, 81) {
        Err(Errors::NamedServicePodsNotFound { pod, .. }) => assert_eq!(pod, "web-abc"),
        other => panic!("unexpected {:?}", other),
    }
}

#[test]
fn named_pod_port_is_mapped() {
    let sp = spec(vec![(80, Some(TargetPort::Int(8080)))]);
    let pods = vec![pod("web-abc", Some("web-0"), false, vec![])];
    let r = select_service_pod(&s("p"), &s("web"), &Some(s("web-0")), &sp, &pods, 80).unwrap();
    assert_eq!(r, (s("web-abc"), s("p"), 8080));
}

#[test]
fn numeric_target_port() {
    let sp = spec(vec![(80, Some(TargetPort::Int(8080)))]);
    let p = pod("api-0", None, true, vec![]);
    assert_eq!(pod_port(&s("n"), &s("api"), &sp, &p, 80).unwrap(), 8080);
    assert_eq!(pod_port(&s("n"), &s("api"), &sp, &p, 81).unwrap(), 81);
}

#[test]
fn service_without_spec_passes_port_through() {
    let p = pod("api-0", None, true, vec![]);
    let no_spec = ServiceInfo { spec: None };
    assert_eq!(pod_port(&s("n"), &s("api"), &no_spec, &p, 443).unwrap(), 443);
}

#[test]
fn numeric_target_port_out_of_range() {
    let sp = spec(vec![(80, Some(TargetPort::Int(70000)))]);
    let p = pod("api-0", None, true, vec![]);
    match pod_port(&s("n"), &s("api"), &sp, &p, 80) {
        Err(Errors::ServiceInvalid { reason, .. }) => {
            assert_eq!(reason, "could not convert target port to u16")
        }
        other => panic!("unexpected {:?}", other),
    }
}

#[test]
fn named_target_port() {
    let sp = spec(vec![(80, Some(TargetPort::Name(s("http")))), (90, None)]);
    let p = pod("api-0", None, true, vec![(Some("metrics"), 9100), (Some("http"), 8000)]);
    assert_eq!(pod_port(&s("n"), &s("api"), &sp, &p, 80).unwrap(), 8000);
    assert_eq!(pod_port(&s("n"), &s("api"), &sp, &p, 90).unwrap(), 90);
    let r = select_service_pod(&s("n"), &s("api"), &None, &sp, &vec![p], 80).unwrap();
    assert_eq!(r, (s("api-0"), s("n"), 8000));
}

#[test]
fn named_target_port_missing() {
    let sp = spec(vec![(80, Some(TargetPort::Name(s("http"))))]);
    let p = pod("api-0", None, true, vec![(Some("grpc"), 9000), (None, 8000)]);
    match select_service_pod(&s("n"), &s("api"), &None, &sp, &vec![p], 80) {
        Err(Errors::PortNotFound(ns, svc, port)) => {
            assert_eq!(ns, "n");
            assert_eq!(svc, "api");
            assert_eq!(port, 80);
        }
        other => panic!("unexpected {:?}", other),
    }
}

#[test]
fn pod_lookup() {
    assert_eq!(pod_target(&s("ns"), &s("p"), true, 22).unwrap(), (s("p"), s("ns"), 22));
    match pod_target(&s("ns"), &s("p"), false, 22) {
        Err(Errors::PodNotFound { namespace, pod }) => {
            assert_eq!(namespace, "ns");
            assert_eq!(pod, "p");
        }
        other => panic!("unexpected {:?}", other),
    }
}
