use eip_operator::cloud::{
    allocation_tags, clone_tags, find_interface_serving, Address, Instance, InstanceDescription,
    NetworkInterface, Reservation, Tag,
};
use eip_operator::eip::v2::EipSelector;
use eip_operator::error::Error;
use eip_operator::labels::Labels;
use eip_operator::protocol::Action;
use eip_operator::teardown::{disassociate_actions, release_actions};

fn address(allocation: Option<&str>, association: Option<&str>, tags: &[(&str, &str)]) -> Address {
    Address {
        allocation_id: allocation.map(|s| s.to_string()),
        public_ip: Some("52.0.0.1".to_string()),
        network_interface_id: None,
        private_ip_address: None,
        association_id: association.map(|s| s.to_string()),
        tags: tags.iter().map(|(k, v)| Tag::new(k, v)).collect(),
    }
}

fn nic(id: Option<&str>, ips: &[&str]) -> NetworkInterface {
    NetworkInterface {
        network_interface_id: id.map(|s| s.to_string()),
        private_ip_addresses: ips.iter().map(|s| s.to_string()).collect(),
    }
}

fn description(nics: Vec<NetworkInterface>) -> InstanceDescription {
    InstanceDescription {
        reservations: Some(vec![Reservation { instances: Some(vec![Instance { network_interfaces: Some(nics) }]) }]),
    }
}

#[test]
fn tags_are_made_of_key_and_value() {
    let tag = Tag::new("k", "v");
    assert_eq!(tag.key, "k");
    assert_eq!(tag.value, "v");
    assert_eq!(tag.clone(), tag);
    let tags = vec![Tag::new("a", "1"), Tag::new("b", "2")];
    assert_eq!(clone_tags(&tags), tags);
}

#[test]
fn tag_lookup_finds_the_first_of_a_key() {
    let a = address(Some("A1"), None, &[("x", "1"), ("y", "2"), ("x", "3")]);
    assert_eq!(a.tag("x"), Some("1"));
    assert_eq!(a.tag("y"), Some("2"));
    assert_eq!(a.tag("z"), None);
    assert_eq!(address(None, None, &[]).tag("x"), None);
}

#[test]
fn an_address_without_uid_tag_is_an_orphan() {
    let live = vec!["u1".to_string()];
    assert!(address(Some("A1"), None, &[]).is_orphan(&live));
    assert!(address(Some("A1"), None, &[("eip.materialize.cloud/cluster_name", "C")]).is_orphan(&live));
}

#[test]
fn an_address_is_an_orphan_unless_its_uid_is_live() {
    let live = vec!["u1".to_string(), "u2".to_string()];
    assert!(!address(Some("A1"), None, &[("eip.materialize.cloud/eip_uid", "u1")]).is_orphan(&live));
    assert!(!address(Some("A1"), None, &[("eip.materialize.cloud/eip_uid", "u2")]).is_orphan(&live));
    assert!(address(Some("A1"), None, &[("eip.materialize.cloud/eip_uid", "ghost")]).is_orphan(&live));
    assert!(address(Some("A1"), None, &[("eip.materialize.cloud/eip_uid", "u1")]).is_orphan(&vec![]));
}

#[test]
fn attachment_asks_for_interface_and_address() {
    let mut a = address(Some("A1"), Some("assoc"), &[]);
    assert!(!a.attached_to("eni-1", "10.0.0.1"));
    a.network_interface_id = Some("eni-1".to_string());
    assert!(!a.attached_to("eni-1", "10.0.0.1"));
    a.private_ip_address = Some("10.0.0.1".to_string());
    assert!(a.attached_to("eni-1", "10.0.0.1"));
    assert!(!a.attached_to("eni-2", "10.0.0.1"));
    assert!(!a.attached_to("eni-1", "10.0.0.2"));
    assert_eq!(a.clone(), a);
}

#[test]
fn an_interface_serves_the_addresses_it_holds() {
    assert!(nic(Some("eni-1"), &["10.0.0.1", "10.0.0.2"]).serves("10.0.0.2"));
    assert!(!nic(Some("eni-1"), &["10.0.0.1"]).serves("10.0.0.2"));
    assert!(!nic(Some("eni-1"), &[]).serves("10.0.0.2"));
    assert!(!nic(None, &["10.0.0.2"]).serves("10.0.0.2"));
}

#[test]
fn the_first_interface_that_serves_is_found() {
    let nics = vec![
        nic(Some("eni-0"), &["10.0.0.9"]),
        nic(None, &["10.0.0.1"]),
        nic(Some("eni-1"), &["10.0.0.3", "10.0.0.1"]),
        nic(Some("eni-2"), &["10.0.0.1"]),
    ];
    assert_eq!(find_interface_serving(&nics, "10.0.0.1"), Some("eni-1".to_string()));
    assert_eq!(find_interface_serving(&nics, "10.0.0.9"), Some("eni-0".to_string()));
    assert_eq!(find_interface_serving(&nics, "10.0.0.7"), None);
    assert_eq!(find_interface_serving(&vec![], "10.0.0.1"), None);
}

#[test]
fn eni_for_ip_reads_the_first_instance() {
    let d = description(vec![nic(Some("eni-aa"), &["10.1.2.3"])]);
    assert_eq!(d.eni_for_ip("10.1.2.3"), Ok("eni-aa".to_string()));
    assert_eq!(d.eni_for_ip("10.1.2.4"), Err(Error::NoInterfaceWithThatIp));
}

#[test]
fn eni_for_ip_names_the_level_that_is_missing() {
    assert_eq!(InstanceDescription { reservations: None }.eni_for_ip("x"), Err(Error::MissingReservations));
    assert_eq!(
        InstanceDescription { reservations: Some(vec![]) }.eni_for_ip("x"),
        Err(Error::MissingReservations)
    );
    assert_eq!(
        InstanceDescription { reservations: Some(vec![Reservation { instances: None }]) }.eni_for_ip("x"),
        Err(Error::MissingInstances)
    );
    assert_eq!(
        InstanceDescription { reservations: Some(vec![Reservation { instances: Some(vec![]) }]) }
            .eni_for_ip("x"),
        Err(Error::MissingInstances)
    );
    assert_eq!(
        InstanceDescription {
            reservations: Some(vec![Reservation {
                instances: Some(vec![Instance { network_interfaces: None }])
            }])
        }
        .eni_for_ip("x"),
        Err(Error::MissingNetworkInterfaces)
    );
    assert_eq!(description(vec![]).eni_for_ip("x"), Err(Error::NoInterfaceWithThatIp));
}

#[test]
fn eni_for_ip_ignores_later_reservations_and_instances() {
    let d = InstanceDescription {
        reservations: Some(vec![
            Reservation {
                instances: Some(vec![
                    Instance { network_interfaces: Some(vec![nic(Some("eni-1"), &["10.0.0.1"])]) },
                    Instance { network_interfaces: Some(vec![nic(Some("eni-2"), &["10.0.0.2"])]) },
                ]),
            },
            Reservation {
                instances: Some(vec![Instance {
                    network_interfaces: Some(vec![nic(Some("eni-3"), &["10.0.0.3"])]),
                }]),
            },
        ]),
    };
    assert_eq!(d.eni_for_ip("10.0.0.1"), Ok("eni-1".to_string()));
    assert_eq!(d.eni_for_ip("10.0.0.2"), Err(Error::NoInterfaceWithThatIp));
    assert_eq!(d.eni_for_ip("10.0.0.3"), Err(Error::NoInterfaceWithThatIp));
}

#[test]
fn allocation_tags_name_cluster_eip_pod_and_namespace() {
    let selector = EipSelector::Pod { pod_name: "p1".to_string() };
    let defaults = vec![Tag::new("team", "infra"), Tag::new("env", "prod")];
    let tags = allocation_tags("uid-1", "e1", &selector, "C", "ns", &defaults);
    assert_eq!(
        tags,
        vec![
            Tag::new("eip.materialize.cloud/cluster_name", "C"),
            Tag::new("eip.materialize.cloud/eip_uid", "uid-1"),
            Tag::new("eip.materialize.cloud/eip_name", "e1"),
            Tag::new("eip.materialize.cloud/pod_name", "p1"),
            Tag::new("eip.materialize.cloud/namespace", "ns"),
            Tag::new("team", "infra"),
            Tag::new("env", "prod"),
        ]
    );
}

#[test]
fn allocation_tags_of_a_node_selector_name_no_pod() {
    let mut labels = Labels::new();
    labels.insert("topology".to_string(), "az-a".to_string());
    let selector = EipSelector::Node { selector: labels };
    let tags = allocation_tags("uid-2", "e2", &selector, "C", "default", &vec![]);
    assert_eq!(tags.len(), 5);
    assert_eq!(tags[3], Tag::new("eip.materialize.cloud/pod_name", ""));
    assert!(tags.iter().all(|t| t.key != "eip.aws.materialize.com/cluster_name"));
}

#[test]
fn disassociations_are_made_for_associated_addresses() {
    let list = vec![
        address(Some("A1"), Some("as-1"), &[]),
        address(Some("A2"), None, &[]),
        address(None, Some("as-3"), &[]),
    ];
    assert_eq!(
        disassociate_actions(&list),
        vec![
            Action::Disassociate { association_id: "as-1".to_string() },
            Action::Disassociate { association_id: "as-3".to_string() },
        ]
    );
    assert_eq!(disassociate_actions(&vec![]), vec![]);
}

#[test]
fn releases_tolerate_partial_addresses() {
    let list = vec![
        address(Some("A1"), Some("as-1"), &[]),
        address(Some("A2"), None, &[]),
        address(None, Some("as-3"), &[]),
        address(None, None, &[]),
    ];
    assert_eq!(
        release_actions(&list),
        vec![
            Action::Disassociate { association_id: "as-1".to_string() },
            Action::Release { allocation_id: "A1".to_string() },
            Action::Release { allocation_id: "A2".to_string() },
            Action::Disassociate { association_id: "as-3".to_string() },
        ]
    );
    assert_eq!(release_actions(&vec![]), vec![]);
}
