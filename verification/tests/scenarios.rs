use eip_operator::cloud::{Address, Instance, InstanceDescription, NetworkInterface, Reservation, Tag};
use eip_operator::cluster::{Node, Pod};
use eip_operator::eip::v1::{LaxEip, LaxEipSpec};
use eip_operator::eip::v2::{Eip, EipSelector, EipSpec};
use eip_operator::eip::{EipPhase, EipStatus};
use eip_operator::eip_reconciler::{eip_apply_step, eip_cleanup_step, EipApplyState, EipCleanupState};
use eip_operator::error::Error;
use eip_operator::finalizer::{eip_phase, pod_phase, Phase};
use eip_operator::labels::Labels;
use eip_operator::meta::ObjectMeta;
use eip_operator::migrate::{upgrade_step, UpgradeState};
use eip_operator::pod_reconciler::{pod_apply_step, pod_cleanup_step, PodApplyState, PodCleanupState};
use eip_operator::protocol::{Action, Event, PatchOp};
use eip_operator::selector::{resolve_target, Target};
use eip_operator::sweeper::{sweep_step, SweepState};

const CLUSTER: &str = "C";
const POD_FINALIZER: &str = "eip.materialize.cloud/disassociate";
const EIP_FINALIZER: &str = "eip.materialize.cloud/destroy";
const LEGACY_FINALIZER: &str = "eip.aws.materialize.com/disassociate";

/// A cluster and a cloud held in memory, which answer the actions of the reconcilers.
#[derive(Debug, PartialEq)]
struct World {
    pods: Vec<Pod>,
    nodes: Vec<Node>,
    eips: Vec<Eip>,
    stored_v1: Vec<LaxEip>,
    addresses: Vec<Address>,
    instances: Vec<(String, InstanceDescription)>,
    allocations: u32,
    log: Vec<String>,
}

fn labels(pairs: &[(&str, &str)]) -> Labels {
    let mut labels = Labels::new();
    for (key, value) in pairs {
        labels.insert(key.to_string(), value.to_string());
    }
    labels
}

fn has_tags(address: &Address, filters: &[Tag]) -> bool {
    filters.iter().all(|f| address.tags.iter().any(|t| t == f))
}

impl World {
    fn new() -> World {
        World {
            pods: vec![],
            nodes: vec![],
            eips: vec![],
            stored_v1: vec![],
            addresses: vec![],
            instances: vec![],
            allocations: 0,
            log: vec![],
        }
    }

    fn add_node(&mut self, name: &str, instance: &str, node_labels: &[(&str, &str)], enis: &[(&str, &str)]) {
        let mut metadata = ObjectMeta::named(name);
        metadata.labels = labels(node_labels);
        self.nodes.push(Node { metadata, provider_id: Some(format!("aws:///us-east-1a/{}", instance)) });
        let interfaces = enis
            .iter()
            .map(|(eni, ip)| NetworkInterface {
                network_interface_id: Some(eni.to_string()),
                private_ip_addresses: vec![ip.to_string()],
            })
            .collect();
        self.instances.push((
            instance.to_string(),
            InstanceDescription {
                reservations: Some(vec![Reservation {
                    instances: Some(vec![Instance { network_interfaces: Some(interfaces) }]),
                }]),
            },
        ));
    }

    fn add_pod(&mut self, name: &str, pod_labels: &[(&str, &str)], node: &str, ip: &str) {
        let mut metadata = ObjectMeta::named(name);
        metadata.namespace = Some("default".to_string());
        metadata.uid = Some(format!("pod-uid-{}", name));
        metadata.labels = labels(pod_labels);
        self.pods.push(Pod { metadata, node_name: Some(node.to_string()), pod_ip: Some(ip.to_string()) });
    }

    fn add_eip(&mut self, name: &str, selector: EipSelector) {
        let mut eip = Eip::new(name, EipSpec { selector });
        eip.metadata.namespace = Some("default".to_string());
        eip.metadata.uid = Some(format!("uid-{}", name));
        self.eips.push(eip);
    }

    fn pod(&self, name: &str) -> &Pod {
        self.pods.iter().find(|p| p.metadata.name.as_deref() == Some(name)).unwrap()
    }

    fn eip(&self, name: &str) -> &Eip {
        self.eips.iter().find(|e| e.name() == Some(name)).unwrap()
    }

    fn has_eip(&self, name: &str) -> bool {
        self.eips.iter().any(|e| e.name() == Some(name))
    }

    fn status(&self, name: &str) -> EipStatus {
        self.eip(name).status.clone().unwrap()
    }

    fn status_mut(&mut self, name: &str) -> Option<&mut EipStatus> {
        let eip = self.eips.iter_mut().find(|e| e.name() == Some(name))?;
        Some(eip.status.get_or_insert_with(EipStatus::new))
    }

    fn count(&self, what: &str) -> usize {
        self.log.iter().filter(|entry| entry.starts_with(what)).count()
    }

    /// Does to the world what the action asks for, and answers.
    fn perform(&mut self, action: Action) -> Event {
        self.log.push(format!("{:?}", action));
        match action {
            Action::ApplyEip { eip } => {
                match self.eips.iter_mut().find(|e| e.metadata.name == eip.metadata.name) {
                    Some(existing) => existing.spec = eip.spec,
                    None => {
                        let mut eip = eip;
                        eip.metadata.namespace = Some("default".to_string());
                        eip.metadata.uid = Some(format!("uid-{}", eip.name().unwrap()));
                        self.eips.push(eip);
                    }
                }
                Event::Done
            }
            Action::DeleteEip { name } => match self.eips.iter().position(|e| e.name() == Some(name.as_str())) {
                Some(i) => {
                    if self.eips[i].metadata.finalizers.is_empty() {
                        self.eips.remove(i);
                    } else {
                        self.eips[i].metadata.deleting = true;
                    }
                    Event::Done
                }
                None => Event::Missing,
            },
            Action::ReplaceEip { namespace, eip } => {
                let mut eip = eip;
                eip.metadata.namespace = namespace;
                self.stored_v1.retain(|old| old.metadata.name != eip.metadata.name);
                self.eips.retain(|old| old.metadata.name != eip.metadata.name);
                self.eips.push(eip);
                Event::Done
            }
            Action::GetNode { name } => {
                match self.nodes.iter().find(|n| n.metadata.name.as_deref() == Some(name.as_str())) {
                    Some(node) => Event::Node(node.clone()),
                    None => Event::Missing,
                }
            }
            Action::ListEips => Event::Eips(self.eips.clone()),
            Action::ListLaxEips => Event::LaxEips(self.stored_v1.clone()),
            Action::ListLegacyPods => Event::Pods(
                self.pods
                    .iter()
                    .filter(|p| p.metadata.labels.contains_key("eip.aws.materialize.com/manage"))
                    .cloned()
                    .collect(),
            ),
            Action::SetEipStatusCreated { name, allocation_id, public_ip_address } => {
                let status = self.status_mut(&name).unwrap();
                status.allocation_id = Some(allocation_id);
                status.public_ip_address = Some(public_ip_address);
                Event::Done
            }
            Action::SetEipStatusAttached { name, eni, private_ip_address } => {
                let status = self.status_mut(&name).unwrap();
                status.eni = Some(eni);
                status.private_ip_address = Some(private_ip_address);
                Event::Done
            }
            Action::SetEipStatusDetached { name } => {
                let status = self.status_mut(&name).unwrap();
                status.eni = None;
                status.private_ip_address = None;
                Event::Done
            }
            Action::AnnotatePod { name, annotations } => {
                let pod =
                    self.pods.iter_mut().find(|p| p.metadata.name.as_deref() == Some(name.as_str())).unwrap();
                for i in 0..annotations.len() {
                    pod.metadata.annotations.insert(annotations.key_at(i).clone(), annotations.value_at(i).clone());
                }
                Event::Done
            }
            Action::PatchPod { namespace, name, operations } => {
                assert_eq!(namespace.as_deref(), Some("default"));
                let pod =
                    self.pods.iter_mut().find(|p| p.metadata.name.as_deref() == Some(name.as_str())).unwrap();
                for operation in operations {
                    match operation {
                        PatchOp::Test { path, value } => {
                            let index: usize = path.rsplit('/').next().unwrap().parse().unwrap();
                            assert!(path.starts_with("/metadata/finalizers/"));
                            assert_eq!(pod.metadata.finalizers[index], value);
                        }
                        PatchOp::Remove { path } => {
                            let index: usize = path.rsplit('/').next().unwrap().parse().unwrap();
                            pod.metadata.finalizers.remove(index);
                        }
                    }
                }
                Event::Done
            }
            Action::DescribeInstance { instance_id } => Event::Instance(
                match self.instances.iter().find(|(id, _)| *id == instance_id) {
                    Some((_, description)) => description.clone(),
                    None => InstanceDescription { reservations: Some(vec![]) },
                },
            ),
            Action::DescribeAddress { allocation_id } => Event::Addresses(Some(
                self.addresses
                    .iter()
                    .filter(|a| a.allocation_id.as_deref() == Some(allocation_id.as_str()))
                    .cloned()
                    .collect(),
            )),
            Action::DescribeAddresses { filters } => {
                Event::Addresses(Some(self.addresses.iter().filter(|a| has_tags(a, &filters)).cloned().collect()))
            }
            Action::Allocate { tags } => {
                self.allocations += 1;
                let allocation_id = format!("A{}", self.allocations);
                let public_ip = format!("52.0.0.{}", self.allocations);
                self.addresses.push(Address {
                    allocation_id: Some(allocation_id.clone()),
                    public_ip: Some(public_ip.clone()),
                    network_interface_id: None,
                    private_ip_address: None,
                    association_id: None,
                    tags,
                });
                Event::Allocated { allocation_id: Some(allocation_id), public_ip: Some(public_ip) }
            }
            Action::Associate { allocation_id, eni, private_ip } => {
                let address = self
                    .addresses
                    .iter_mut()
                    .find(|a| a.allocation_id.as_deref() == Some(allocation_id.as_str()))
                    .unwrap();
                address.association_id = Some(format!("assoc-{}-{}", allocation_id, eni));
                address.network_interface_id = Some(eni);
                address.private_ip_address = Some(private_ip);
                Event::Done
            }
            Action::Disassociate { association_id } => {
                match self
                    .addresses
                    .iter_mut()
                    .find(|a| a.association_id.as_deref() == Some(association_id.as_str()))
                {
                    Some(address) => {
                        address.association_id = None;
                        address.network_interface_id = None;
                        address.private_ip_address = None;
                        Event::Done
                    }
                    None => Event::Missing,
                }
            }
            Action::Release { allocation_id } => {
                match self.addresses.iter().position(|a| a.allocation_id.as_deref() == Some(allocation_id.as_str())) {
                    Some(i) => {
                        self.addresses.remove(i);
                        Event::Done
                    }
                    None => Event::Missing,
                }
            }
            Action::Done { .. } | Action::Fail(_) => panic!("the end of a reconcile is not performed"),
        }
    }

    fn apply_pod(&mut self, name: &str) -> Action {
        let pod = self.pod(name).clone();
        let mut step = pod_apply_step(&pod, PodApplyState::Start, Event::Begin);
        while !step.1.is_final() {
            let event = self.perform(step.1);
            step = pod_apply_step(&pod, step.0, event);
        }
        assert_eq!(step.0, PodApplyState::Finished);
        step.1
    }

    fn cleanup_pod(&mut self, name: &str) -> Action {
        let pod = self.pod(name).clone();
        let mut step = pod_cleanup_step(&pod, PodCleanupState::Start, Event::Begin);
        while !step.1.is_final() {
            let event = self.perform(step.1);
            step = pod_cleanup_step(&pod, step.0, event);
        }
        step.1
    }

    fn apply_eip(&mut self, name: &str) -> Action {
        let eip = self.eip(name).clone();
        let defaults = vec![Tag::new("owner", "test")];
        let mut step = eip_apply_step(&eip, CLUSTER, &defaults, EipApplyState::Start, Event::Begin);
        while !step.1.is_final() {
            let event = self.perform(step.1);
            step = eip_apply_step(&eip, CLUSTER, &defaults, step.0, event);
        }
        step.1
    }

    fn cleanup_eip(&mut self, name: &str) -> Action {
        let eip = self.eip(name).clone();
        let mut step = eip_cleanup_step(&eip, EipCleanupState::Start, Event::Begin);
        while !step.1.is_final() {
            let event = self.perform(step.1);
            step = eip_cleanup_step(&eip, step.0, event);
        }
        step.1
    }

    fn sweep(&mut self) -> Action {
        let mut step = sweep_step(CLUSTER, None, SweepState::Start, Event::Begin);
        while !step.1.is_final() {
            let event = self.perform(step.1);
            step = sweep_step(CLUSTER, None, step.0, event);
        }
        step.1
    }

    fn upgrade(&mut self) -> Action {
        let mut step = upgrade_step(UpgradeState::Start, Event::Begin);
        while !step.1.is_final() {
            let event = self.perform(step.1);
            step = upgrade_step(step.0, event);
        }
        step.1
    }

    /// One reconcile of a pod as the controller makes it: the finalizer
    /// first, then the binding or its undoing.
    fn reconcile_pod(&mut self, name: &str) -> Option<Action> {
        let i = self.pods.iter().position(|p| p.metadata.name.as_deref() == Some(name)).unwrap();
        match pod_phase(&self.pods[i]) {
            Phase::Ignore => None,
            Phase::AddFinalizer => {
                self.pods[i].metadata.finalizers.push(POD_FINALIZER.to_string());
                None
            }
            Phase::Apply => Some(self.apply_pod(name)),
            Phase::Cleanup { finalizer_index } => {
                let end = self.cleanup_pod(name);
                if end == (Action::Done { refresh: false }) {
                    assert_eq!(self.pods[i].metadata.finalizers[finalizer_index], POD_FINALIZER);
                    self.pods[i].metadata.finalizers.remove(finalizer_index);
                    if self.pods[i].metadata.finalizers.is_empty() {
                        self.pods.remove(i);
                    }
                }
                Some(end)
            }
        }
    }

    /// One reconcile of an `Eip` as the controller makes it.
    fn reconcile_eip(&mut self, name: &str) -> Option<Action> {
        let i = self.eips.iter().position(|e| e.name() == Some(name)).unwrap();
        match eip_phase(&self.eips[i]) {
            Phase::Ignore => None,
            Phase::AddFinalizer => {
                self.eips[i].metadata.finalizers.push(EIP_FINALIZER.to_string());
                None
            }
            Phase::Apply => Some(self.apply_eip(name)),
            Phase::Cleanup { finalizer_index } => {
                let end = self.cleanup_eip(name);
                if end == (Action::Done { refresh: false }) {
                    self.eips[i].metadata.finalizers.remove(finalizer_index);
                    if self.eips[i].metadata.finalizers.is_empty() {
                        self.eips.remove(i);
                    }
                }
                Some(end)
            }
        }
    }

    fn delete_pod(&mut self, name: &str) {
        let i = self.pods.iter().position(|p| p.metadata.name.as_deref() == Some(name)).unwrap();
        if self.pods[i].metadata.finalizers.is_empty() {
            self.pods.remove(i);
        } else {
            self.pods[i].metadata.deleting = true;
        }
    }
}

const MANAGED: (&str, &str) = ("eip.materialize.cloud/manage", "true");
const AUTOCREATE: (&str, &str) = ("eip.materialize.cloud/autocreate_eip", "true");

/// The world of the first scenario, reconciled until the pod is bound.
fn bound_world() -> World {
    let mut world = World::new();
    world.add_node("n1", "i-1", &[], &[("eni-aa", "10.1.2.3")]);
    world.add_pod("p1", &[MANAGED, AUTOCREATE], "n1", "10.1.2.3");
    assert_eq!(world.reconcile_pod("p1"), None);
    assert_eq!(world.reconcile_pod("p1"), Some(Action::Fail(Error::MissingEipStatus)));
    assert_eq!(world.reconcile_eip("p1"), None);
    assert_eq!(world.reconcile_eip("p1"), Some(Action::Done { refresh: true }));
    assert_eq!(world.reconcile_pod("p1"), Some(Action::Done { refresh: true }));
    world
}

#[test]
fn auto_create_bind() {
    let world = bound_world();
    let eip = world.eip("p1");
    assert_eq!(eip.spec.selector, EipSelector::Pod { pod_name: "p1".to_string() });
    assert_eq!(
        world.status("p1"),
        EipStatus {
            allocation_id: Some("A1".to_string()),
            public_ip_address: Some("52.0.0.1".to_string()),
            eni: Some("eni-aa".to_string()),
            private_ip_address: Some("10.1.2.3".to_string()),
        }
    );
    assert_eq!(eip.phase(), EipPhase::Attached);
    let annotations = &world.pod("p1").metadata.annotations;
    assert_eq!(annotations.get("eip.materialize.cloud/allocation_id").map(|s| s.as_str()), Some("A1"));
    assert_eq!(annotations.get("external-dns.alpha.kubernetes.io/target").map(|s| s.as_str()), Some("52.0.0.1"));
    assert_eq!(world.addresses.len(), 1);
    assert!(world.addresses[0].attached_to("eni-aa", "10.1.2.3"));
    assert_eq!(world.addresses[0].tag("eip.materialize.cloud/cluster_name"), Some("C"));
    assert_eq!(world.addresses[0].tag("eip.materialize.cloud/eip_uid"), Some("uid-p1"));
    assert_eq!(world.addresses[0].tag("eip.materialize.cloud/eip_name"), Some("p1"));
    assert_eq!(world.addresses[0].tag("eip.materialize.cloud/pod_name"), Some("p1"));
    assert_eq!(world.addresses[0].tag("eip.materialize.cloud/namespace"), Some("default"));
    assert_eq!(world.addresses[0].tag("owner"), Some("test"));
    assert_eq!(world.count("Allocate"), 1);
    assert_eq!(world.count("Associate"), 1);
}

#[test]
fn pod_deletion() {
    let mut world = bound_world();
    let association = world.addresses[0].association_id.clone().unwrap();
    world.delete_pod("p1");
    assert_eq!(world.reconcile_pod("p1"), Some(Action::Done { refresh: false }));
    assert!(world.log.contains(&format!("{:?}", Action::Disassociate { association_id: association })));
    assert!(world.pods.is_empty());
    assert!(world.eip("p1").metadata.deleting);
    assert!(!world.eip("p1").attached());
    assert_eq!(world.reconcile_eip("p1"), Some(Action::Done { refresh: false }));
    assert!(!world.has_eip("p1"));
    assert!(world.log.contains(&format!("{:?}", Action::Release { allocation_id: "A1".to_string() })));
    assert!(world.addresses.iter().all(|a| a.tag("eip.materialize.cloud/cluster_name") != Some("C")));
    assert!(world.addresses.is_empty());
}

#[test]
fn selector_rematch() {
    let mut world = World::new();
    world.add_node("n-a", "i-a", &[("topology", "az-a")], &[("eni-a", "10.0.0.2")]);
    world.add_node("n-b", "i-b", &[("topology", "az-a")], &[("eni-b", "10.0.0.2")]);
    world.add_pod("p2", &[MANAGED], "n-a", "10.0.0.2");
    world.add_eip("e2", EipSelector::Node { selector: labels(&[("topology", "az-a")]) });
    world.reconcile_eip("e2");
    assert_eq!(world.reconcile_eip("e2"), Some(Action::Done { refresh: true }));
    world.reconcile_pod("p2");
    assert_eq!(world.reconcile_pod("p2"), Some(Action::Done { refresh: true }));
    assert_eq!(world.status("e2").eni.as_deref(), Some("eni-a"));
    assert!(world.addresses[0].attached_to("eni-a", "10.0.0.2"));
    assert!(!world.has_eip("p2"));

    world.pods[0].node_name = Some("n-b".to_string());
    assert_eq!(world.reconcile_pod("p2"), Some(Action::Done { refresh: true }));
    assert_eq!(world.status("e2").eni.as_deref(), Some("eni-b"));
    assert_eq!(world.status("e2").allocation_id.as_deref(), Some("A1"));
    assert!(world.addresses[0].attached_to("eni-b", "10.0.0.2"));
    assert_eq!(world.addresses.len(), 1);
    assert_eq!(world.count("Allocate"), 1);
    assert_eq!(world.count("Associate"), 2);
}

#[test]
fn v1_to_v2_migration() {
    let mut world = World::new();
    let mut metadata = ObjectMeta::named("legacy");
    metadata.namespace = Some("default".to_string());
    metadata.resource_version = Some("1234".to_string());
    world.stored_v1.push(LaxEip { metadata, spec: LaxEipSpec { pod_name: Some("p3".to_string()) } });
    let mut other = ObjectMeta::named("not-an-eip");
    other.resource_version = Some("9".to_string());
    world.stored_v1.push(LaxEip { metadata: other, spec: LaxEipSpec { pod_name: None } });
    assert_eq!(world.upgrade(), Action::Done { refresh: false });
    let upgraded = world.eip("legacy");
    assert_eq!(upgraded.spec.selector, EipSelector::Pod { pod_name: "p3".to_string() });
    assert_eq!(upgraded.metadata.resource_version.as_deref(), Some("1234"));
    assert_eq!(upgraded.metadata.namespace.as_deref(), Some("default"));
    assert_eq!(world.eips.len(), 1);
    assert_eq!(world.count("ReplaceEip"), 1);
    assert_eq!(world.stored_v1.len(), 1);
}

#[test]
fn migration_writes_the_same_however_often_it_runs() {
    let mut world = World::new();
    let mut metadata = ObjectMeta::named("legacy");
    metadata.resource_version = Some("1".to_string());
    let old = LaxEip { metadata, spec: LaxEipSpec { pod_name: Some("p3".to_string()) } };
    world.stored_v1.push(old.clone());
    world.upgrade();
    let first = world.log.clone();
    let eips = world.eips.clone();
    world.stored_v1.push(old);
    world.log.clear();
    world.upgrade();
    assert_eq!(world.log, first);
    assert_eq!(world.eips, eips);
}

fn tagged(allocation: &str, tags: &[(&str, &str)]) -> Address {
    Address {
        allocation_id: Some(allocation.to_string()),
        public_ip: Some("52.1.1.1".to_string()),
        network_interface_id: None,
        private_ip_address: None,
        association_id: None,
        tags: tags.iter().map(|(k, v)| Tag::new(k, v)).collect(),
    }
}

#[test]
fn orphan_reclamation() {
    let mut world = World::new();
    world.addresses.push(tagged(
        "A-ghost",
        &[("eip.materialize.cloud/cluster_name", "C"), ("eip.materialize.cloud/eip_uid", "ghost")],
    ));
    assert_eq!(world.sweep(), Action::Done { refresh: false });
    assert!(world.addresses.is_empty());
    assert_eq!(world.count("Release"), 1);
}

#[test]
fn sweep_spares_what_is_live_or_not_ours() {
    let mut world = bound_world();
    world.addresses.push(tagged("A-other", &[("eip.materialize.cloud/cluster_name", "D")]));
    world.addresses.push(tagged("A-untagged", &[]));
    world.addresses.push(tagged("A-lost", &[("eip.materialize.cloud/cluster_name", "C")]));
    world.addresses.push(tagged(
        "A-old",
        &[("eip.aws.materialize.com/cluster_name", "C"), ("eip.materialize.cloud/eip_uid", "gone")],
    ));
    let mut attached = tagged("A-held", &[("eip.materialize.cloud/cluster_name", "C")]);
    attached.association_id = Some("assoc-held".to_string());
    world.addresses.push(attached);
    world.log.clear();
    assert_eq!(world.sweep(), Action::Done { refresh: false });
    let left: Vec<&str> = world.addresses.iter().map(|a| a.allocation_id.as_deref().unwrap()).collect();
    assert_eq!(left, vec!["A1", "A-other", "A-untagged"]);
    assert_eq!(world.count("Release"), 3);
    assert_eq!(world.count("Disassociate"), 1);
    assert!(world.addresses[0].attached_to("eni-aa", "10.1.2.3"));
}

#[test]
fn a_sweep_of_one_namespace_leaves_the_addresses_of_others() {
    let mut world = bound_world();
    world.addresses.push(tagged(
        "A-theirs",
        &[
            ("eip.aws.materialize.com/cluster_name", "C"),
            ("eip.materialize.cloud/namespace", "other"),
            ("eip.materialize.cloud/eip_uid", "uid-of-an-eip-elsewhere"),
        ],
    ));
    world.addresses.push(tagged(
        "A-ours",
        &[
            ("eip.aws.materialize.com/cluster_name", "C"),
            ("eip.materialize.cloud/namespace", "default"),
            ("eip.materialize.cloud/eip_uid", "ghost"),
        ],
    ));
    world.log.clear();
    let mut step = sweep_step(CLUSTER, Some("default"), SweepState::Start, Event::Begin);
    while !step.1.is_final() {
        let event = world.perform(step.1);
        step = sweep_step(CLUSTER, Some("default"), step.0, event);
    }
    assert_eq!(step.1, Action::Done { refresh: false });
    let left: Vec<&str> = world.addresses.iter().map(|a| a.allocation_id.as_deref().unwrap()).collect();
    assert_eq!(left, vec!["A1", "A-theirs"]);
    assert_eq!(world.count("Release"), 1);
    assert_eq!(world.count("Disassociate"), 0);
}

#[test]
fn an_unreadable_interface_annotation_stops_the_binding() {
    let mut world = World::new();
    world.add_node("n1", "i-1", &[], &[("eni-aa", "10.1.2.3")]);
    world.add_pod("p1", &[MANAGED], "n1", "10.1.2.3");
    world.add_eip("e1", EipSelector::Pod { pod_name: "p1".to_string() });
    world.reconcile_eip("e1");
    world.reconcile_eip("e1");
    world.pods[0].metadata.annotations.insert("vpc.amazonaws.com/pod-eni".to_string(), "not json".to_string());
    world.reconcile_pod("p1");
    world.log.clear();
    assert_eq!(world.reconcile_pod("p1"), Some(Action::Fail(Error::UnparseableEniAnnotation)));
    assert_eq!(world.count("DescribeInstance"), 0);
    assert_eq!(world.count("Associate"), 0);
    assert_eq!(world.count("SetEipStatusAttached"), 0);
    assert!(!world.eip("e1").attached());
    world.pods[0]
        .metadata
        .annotations
        .insert("vpc.amazonaws.com/pod-eni".to_string(), r#"[{"eniId":"eni-branch"}]"#.to_string());
    assert_eq!(world.reconcile_pod("p1"), Some(Action::Done { refresh: true }));
    assert_eq!(world.status("e1").eni.as_deref(), Some("eni-branch"));
    assert_eq!(world.count("DescribeInstance"), 0);
}

#[test]
fn duplicate_tag_fault() {
    let mut world = World::new();
    world.add_eip("x", EipSelector::Pod { pod_name: "p".to_string() });
    world.eips[0].metadata.uid = Some("X".to_string());
    world.eips[0].metadata.finalizers.push(EIP_FINALIZER.to_string());
    world.addresses.push(tagged("A1", &[("eip.materialize.cloud/eip_uid", "X")]));
    world.addresses.push(tagged("A2", &[("eip.materialize.cloud/eip_uid", "X")]));
    let before = world.addresses.clone();
    assert_eq!(world.reconcile_eip("x"), Some(Action::Fail(Error::MultipleEipsTaggedForPod)));
    assert_eq!(world.count("Allocate"), 0);
    assert_eq!(world.count("Associate"), 0);
    assert_eq!(world.count("Release"), 0);
    assert_eq!(world.count("Disassociate"), 0);
    assert_eq!(world.log.len(), 1);
    assert!(world.log[0].starts_with("DescribeAddresses"));
    assert_eq!(world.addresses, before);
    assert_eq!(world.eip("x").status, None);
    assert!(Error::MultipleEipsTaggedForPod.needs_intervention());
}

#[test]
fn pod_before_its_eip() {
    let mut world = World::new();
    world.add_node("n1", "i-1", &[], &[("eni-aa", "10.1.2.3")]);
    world.add_pod("p1", &[MANAGED], "n1", "10.1.2.3");
    world.reconcile_pod("p1");
    assert_eq!(
        world.reconcile_pod("p1"),
        Some(Action::Fail(Error::NoEipResourceWithThatPodName("p1".to_string())))
    );
    assert_eq!(world.count("Associate"), 0);
    world.add_eip("e1", EipSelector::Pod { pod_name: "p1".to_string() });
    world.reconcile_eip("e1");
    assert_eq!(world.reconcile_eip("e1"), Some(Action::Done { refresh: true }));
    assert_eq!(world.eip("e1").phase(), EipPhase::Allocated);
    assert_eq!(world.reconcile_pod("p1"), Some(Action::Done { refresh: true }));
    assert_eq!(world.eip("e1").phase(), EipPhase::Attached);
    assert!(world.eip("e1").attached());
}

#[test]
fn force_deleted_eip_is_swept() {
    let mut world = bound_world();
    world.eips.clear();
    assert_eq!(world.addresses.len(), 1);
    assert_eq!(world.sweep(), Action::Done { refresh: false });
    assert!(world.addresses.is_empty());
    assert_eq!(world.count("Disassociate"), 1);
    assert_eq!(world.count("Release"), 1);
}

#[test]
fn node_selector_without_nodes_stays_allocated() {
    let mut world = World::new();
    world.add_node("n-b", "i-b", &[("topology", "az-b")], &[("eni-b", "10.0.0.2")]);
    world.add_pod("p2", &[MANAGED], "n-b", "10.0.0.2");
    world.add_eip("e2", EipSelector::Node { selector: labels(&[("topology", "az-a")]) });
    world.reconcile_eip("e2");
    for _ in 0..3 {
        assert_eq!(world.reconcile_eip("e2"), Some(Action::Done { refresh: true }));
        assert_eq!(resolve_target(world.eip("e2"), &world.pods, &world.nodes), Target::NotReady);
        assert_eq!(world.eip("e2").phase(), EipPhase::Allocated);
        assert!(!world.eip("e2").attached());
    }
    assert_eq!(world.count("Allocate"), 1);
    assert_eq!(world.count("Associate"), 0);
    assert_eq!(world.count("SetEipStatusAttached"), 0);
}

#[test]
fn node_selector_with_several_nodes_takes_the_smallest_name() {
    let mut world = World::new();
    world.add_node("n-c", "i-c", &[("topology", "az-a")], &[]);
    world.add_node("n-a", "i-a", &[("topology", "az-a")], &[]);
    world.add_node("n-b", "i-b", &[("topology", "az-a")], &[]);
    world.add_eip("e2", EipSelector::Node { selector: labels(&[("topology", "az-a")]) });
    for _ in 0..3 {
        assert_eq!(resolve_target(world.eip("e2"), &world.pods, &world.nodes), Target::Node(1));
        world.reconcile_eip("e2");
    }
    world.nodes.reverse();
    assert_eq!(resolve_target(world.eip("e2"), &world.pods, &world.nodes), Target::Node(1));
    world.nodes.swap(0, 1);
    assert_eq!(resolve_target(world.eip("e2"), &world.pods, &world.nodes), Target::Node(0));
    assert_eq!(world.nodes[0].metadata.name.as_deref(), Some("n-a"));
}

#[test]
fn a_second_reconcile_of_a_pod_changes_nothing() {
    let mut world = bound_world();
    let first: Vec<String> = {
        let mut fresh = World::new();
        fresh.add_node("n1", "i-1", &[], &[("eni-aa", "10.1.2.3")]);
        fresh.add_pod("p1", &[MANAGED, AUTOCREATE], "n1", "10.1.2.3");
        fresh.reconcile_pod("p1");
        fresh.reconcile_pod("p1");
        fresh.reconcile_eip("p1");
        fresh.reconcile_eip("p1");
        fresh.log.clear();
        fresh.reconcile_pod("p1");
        fresh.log
    };
    world.log.clear();
    let settled = World { log: vec![], ..bound_world() };
    assert_eq!(world.reconcile_pod("p1"), Some(Action::Done { refresh: true }));
    let second = std::mem::take(&mut world.log);
    assert_eq!(world, settled);
    assert_eq!(world.count("Associate"), 0);
    let writes = |log: &Vec<String>| -> Vec<String> {
        log.iter()
            .filter(|l| l.starts_with("ApplyEip") || l.starts_with("SetEip") || l.starts_with("AnnotatePod"))
            .cloned()
            .collect()
    };
    assert_eq!(writes(&second), writes(&first));
    assert!(first.iter().any(|l| l.starts_with("Associate")));
    assert!(second.iter().all(|l| !l.starts_with("Associate")));
}

#[test]
fn a_second_reconcile_of_an_eip_writes_nothing() {
    let mut world = bound_world();
    world.log.clear();
    let settled = World { log: vec![], ..bound_world() };
    assert_eq!(world.reconcile_eip("p1"), Some(Action::Done { refresh: true }));
    assert_eq!(world.log.len(), 1);
    assert!(world.log[0].starts_with("DescribeAddresses"));
    world.log.clear();
    assert_eq!(world, settled);
}

#[test]
fn an_unmanaged_pod_is_left_alone() {
    let mut world = World::new();
    world.add_node("n1", "i-1", &[], &[("eni-aa", "10.1.2.3")]);
    world.add_pod("p1", &[AUTOCREATE], "n1", "10.1.2.3");
    for _ in 0..3 {
        assert_eq!(world.reconcile_pod("p1"), None);
    }
    assert!(world.pod("p1").metadata.finalizers.is_empty());
    assert!(world.eips.is_empty());
    assert!(world.log.is_empty());
}

#[test]
fn an_autocreate_pod_has_its_eip_even_if_the_reconcile_fails() {
    let mut world = World::new();
    world.add_pod("p1", &[MANAGED, AUTOCREATE], "n-missing", "10.1.2.3");
    world.reconcile_pod("p1");
    assert_eq!(world.reconcile_pod("p1"), Some(Action::Fail(Error::NodeNotFound)));
    assert_eq!(world.eip("p1").spec.selector, EipSelector::Pod { pod_name: "p1".to_string() });
    assert_eq!(world.eip("p1").name(), Some("p1"));
}

#[test]
fn statuses_stay_paired_through_the_life_of_an_eip() {
    fn paired(status: &Option<EipStatus>) -> bool {
        match status {
            None => true,
            Some(s) => {
                s.allocation_id.is_some() == s.public_ip_address.is_some()
                    && s.eni.is_some() == s.private_ip_address.is_some()
                    && (s.eni.is_none() || s.allocation_id.is_some())
            }
        }
    }
    let mut world = World::new();
    world.add_node("n1", "i-1", &[], &[("eni-aa", "10.1.2.3")]);
    world.add_pod("p1", &[MANAGED, AUTOCREATE], "n1", "10.1.2.3");
    for step in 0..12 {
        if step == 7 {
            world.delete_pod("p1");
        }
        if world.pods.iter().any(|p| p.metadata.name.as_deref() == Some("p1")) {
            world.reconcile_pod("p1");
        }
        assert!(world.eips.iter().all(|e| paired(&e.status)), "after step {}", step);
        if world.has_eip("p1") {
            world.reconcile_eip("p1");
        }
        assert!(world.eips.iter().all(|e| paired(&e.status)), "after step {}", step);
    }
    assert!(world.pods.is_empty());
    assert!(world.eips.is_empty());
    assert!(world.addresses.is_empty());
}

#[test]
fn legacy_finalizers_are_taken_off_by_the_sweep() {
    let mut world = World::new();
    world.add_pod("old", &[("eip.aws.materialize.com/manage", "true")], "n1", "10.0.0.1");
    world.pods[0].metadata.finalizers = vec!["keep".to_string(), LEGACY_FINALIZER.to_string()];
    world.add_pod("new", &[MANAGED], "n1", "10.0.0.2");
    world.pods[1].metadata.finalizers = vec![LEGACY_FINALIZER.to_string()];
    assert_eq!(world.sweep(), Action::Done { refresh: false });
    assert_eq!(world.pod("old").metadata.finalizers, vec!["keep".to_string()]);
    assert_eq!(world.pod("new").metadata.finalizers, vec![LEGACY_FINALIZER.to_string()]);
    assert_eq!(world.count("PatchPod"), 1);
}

#[test]
fn cleanup_tolerates_what_is_gone_already() {
    let mut world = bound_world();
    world.addresses.clear();
    world.delete_pod("p1");
    assert_eq!(world.reconcile_pod("p1"), Some(Action::Done { refresh: false }));
    assert_eq!(world.reconcile_eip("p1"), Some(Action::Done { refresh: false }));
    assert!(world.eips.is_empty());
    let mut world = bound_world();
    world.nodes.clear();
    world.delete_pod("p1");
    assert_eq!(world.reconcile_pod("p1"), Some(Action::Done { refresh: false }));
    assert!(world.pods.is_empty());
}
