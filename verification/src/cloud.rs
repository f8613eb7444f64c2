//! What the operator reads of the cloud: Elastic IP addresses with their
//! tags, and the network interfaces of instances.

use crate::eip::v2::{EipSelector, EipSelectorView};
use crate::error::{Error, ErrorView};
use crate::names::{CLUSTER_NAME_TAG, EIP_NAME_TAG, EIP_UID_TAG, NAMESPACE_TAG, POD_NAME_TAG};
use crate::search::{first_match, lemma_first_index_is};
use crate::text::{clone_opt, contains_text, str_eq};
use vstd::prelude::*;

verus! {

/// A tag of a cloud resource.
#[derive(Debug, PartialEq, Eq)]
pub struct Tag {
    pub key: String,
    pub value: String,
}

/// The mathematical value of a [`Tag`].
pub struct TagView {
    pub key: Seq<char>,
    pub value: Seq<char>,
}

impl View for Tag {
    type V = TagView;

    open spec fn view(&self) -> TagView {
        TagView { key: self.key@, value: self.value@ }
    }
}

impl DeepView for Tag {
    type V = TagView;

    open spec fn deep_view(&self) -> TagView {
        self.view()
    }
}

impl Tag {
    /// The tag `key = value`.
    pub fn new(key: &str, value: &str) -> (r: Tag)
        ensures
            r@ == (TagView { key: key@, value: value@ }),
    {
        Tag { key: key.to_owned(), value: value.to_owned() }
    }
}

impl Clone for Tag {
    fn clone(&self) -> (r: Tag)
        ensures
            r@ == self@,
    {
        Tag { key: self.key.clone(), value: self.value.clone() }
    }
}

/// A copy of a list of tags.
pub fn clone_tags(tags: &Vec<Tag>) -> (r: Vec<Tag>)
    ensures
        r.deep_view() == tags.deep_view(),
{
    let mut r: Vec<Tag> = Vec::new();
    let mut i: usize = 0;
    while i < tags.len()
        invariant
            0 <= i <= tags@.len(),
            r@.len() == i,
            forall|j: int| 0 <= j < i ==> (#[trigger] r@[j])@ == tags@[j]@,
        decreases tags@.len() - i,
    {
        r.push(tags[i].clone());
        i += 1;
    }
    proof {
        assert(r.deep_view() =~= tags.deep_view());
    }
    r
}

/// An Elastic IP address as the cloud describes it.
#[derive(Debug, PartialEq, Eq)]
pub struct Address {
    pub allocation_id: Option<String>,
    pub public_ip: Option<String>,
    pub network_interface_id: Option<String>,
    pub private_ip_address: Option<String>,
    pub association_id: Option<String>,
    pub tags: Vec<Tag>,
}

/// The mathematical value of an [`Address`].
pub struct AddressView {
    pub allocation_id: Option<Seq<char>>,
    pub public_ip: Option<Seq<char>>,
    pub network_interface_id: Option<Seq<char>>,
    pub private_ip_address: Option<Seq<char>>,
    pub association_id: Option<Seq<char>>,
    pub tags: Seq<TagView>,
}

impl View for Address {
    type V = AddressView;

    open spec fn view(&self) -> AddressView {
        AddressView {
            allocation_id: self.allocation_id.deep_view(),
            public_ip: self.public_ip.deep_view(),
            network_interface_id: self.network_interface_id.deep_view(),
            private_ip_address: self.private_ip_address.deep_view(),
            association_id: self.association_id.deep_view(),
            tags: self.tags.deep_view(),
        }
    }
}

impl DeepView for Address {
    type V = AddressView;

    open spec fn deep_view(&self) -> AddressView {
        self.view()
    }
}

impl AddressView {
    /// The value of the first tag whose key is `key`.
    pub open spec fn tag(self, key: Seq<char>) -> Option<Seq<char>> {
        match first_match(self.tags, |t: TagView| t.key == key) {
            Some(t) => Some(t.value),
            None => None,
        }
    }

    /// The address belongs to no `Eip` of `live_uids`: it names none, or one
    /// that is not among them.
    pub open spec fn is_orphan(self, live_uids: Seq<Seq<char>>) -> bool {
        match self.tag(EIP_UID_TAG@) {
            None => true,
            Some(uid) => !live_uids.contains(uid),
        }
    }

    /// The address is within reach of an operator held to `namespace`: the
    /// operator is held to none, or the address names no namespace, or it
    /// names that one. An address that names another namespace is out of reach.
    pub open spec fn in_namespace(self, namespace: Option<Seq<char>>) -> bool {
        match namespace {
            None => true,
            Some(namespace) => match self.tag(NAMESPACE_TAG@) {
                None => true,
                Some(own) => own == namespace,
            },
        }
    }

    /// The address is attached to the interface `eni` under the private address `private_ip`.
    pub open spec fn attached_to(self, eni: Seq<char>, private_ip: Seq<char>) -> bool {
        self.network_interface_id == Some(eni) && self.private_ip_address == Some(private_ip)
    }
}

impl Address {
    /// The value of the first tag whose key is `key`.
    pub fn tag(&self, key: &str) -> (r: Option<&str>)
        ensures
            r is Some == self@.tag(key@) is Some,
            r matches Some(value) ==> self@.tag(key@) == Some(value@),
    {
        let ghost wanted = |t: TagView| t.key == key@;
        let mut i: usize = 0;
        while i < self.tags.len()
            invariant
                0 <= i <= self.tags@.len(),
                wanted == |t: TagView| t.key == key@,
                forall|j: int| 0 <= j < i ==> !wanted(#[trigger] self.tags.deep_view()[j]),
            decreases self.tags@.len() - i,
        {
            if str_eq(self.tags[i].key.as_str(), key) {
                proof {
                    lemma_first_index_is(self.tags.deep_view(), wanted, i as int);
                }
                return Some(self.tags[i].value.as_str());
            }
            i += 1;
        }
        proof {
            lemma_first_index_is(self.tags.deep_view(), wanted, self.tags@.len() as int);
        }
        None
    }

    /// Whether the address belongs to no `Eip` of `live_uids`.
    pub fn is_orphan(&self, live_uids: &Vec<String>) -> (r: bool)
        ensures
            r == self@.is_orphan(live_uids.deep_view()),
    {
        match self.tag(EIP_UID_TAG) {
            None => true,
            Some(uid) => !contains_text(live_uids, uid),
        }
    }

    /// Whether the address is within reach of an operator held to `namespace`.
    pub fn in_namespace(&self, namespace: Option<&str>) -> (r: bool)
        ensures
            r == self@.in_namespace(
                match namespace {
                    Some(namespace) => Some(namespace@),
                    None => None,
                },
            ),
    {
        match namespace {
            None => true,
            Some(namespace) => match self.tag(NAMESPACE_TAG) {
                None => true,
                Some(own) => str_eq(own, namespace),
            },
        }
    }

    /// Whether the address is attached to the interface `eni` under the
    /// private address `private_ip`.
    pub fn attached_to(&self, eni: &str, private_ip: &str) -> (r: bool)
        ensures
            r == self@.attached_to(eni@, private_ip@),
    {
        let eni_matches = match &self.network_interface_id {
            Some(id) => str_eq(id.as_str(), eni),
            None => false,
        };
        let ip_matches = match &self.private_ip_address {
            Some(ip) => str_eq(ip.as_str(), private_ip),
            None => false,
        };
        eni_matches && ip_matches
    }
}

impl Clone for Address {
    fn clone(&self) -> (r: Address)
        ensures
            r@ == self@,
    {
        Address {
            allocation_id: clone_opt(&self.allocation_id),
            public_ip: clone_opt(&self.public_ip),
            network_interface_id: clone_opt(&self.network_interface_id),
            private_ip_address: clone_opt(&self.private_ip_address),
            association_id: clone_opt(&self.association_id),
            tags: clone_tags(&self.tags),
        }
    }
}

/// A network interface of an instance, with the private addresses it holds.
#[derive(Clone, Debug, PartialEq, Eq)]
pub struct NetworkInterface {
    pub network_interface_id: Option<String>,
    pub private_ip_addresses: Vec<String>,
}

/// The mathematical value of a [`NetworkInterface`].
pub struct NetworkInterfaceView {
    pub network_interface_id: Option<Seq<char>>,
    pub private_ip_addresses: Seq<Seq<char>>,
}

impl View for NetworkInterface {
    type V = NetworkInterfaceView;

    open spec fn view(&self) -> NetworkInterfaceView {
        NetworkInterfaceView {
            network_interface_id: self.network_interface_id.deep_view(),
            private_ip_addresses: self.private_ip_addresses.deep_view(),
        }
    }
}

impl DeepView for NetworkInterface {
    type V = NetworkInterfaceView;

    open spec fn deep_view(&self) -> NetworkInterfaceView {
        self.view()
    }
}

impl NetworkInterfaceView {
    /// The interface has an id and holds the private address `ip`.
    pub open spec fn serves(self, ip: Seq<char>) -> bool {
        self.network_interface_id is Some && self.private_ip_addresses.contains(ip)
    }
}

impl NetworkInterface {
    /// Whether the interface has an id and holds the private address `ip`.
    pub fn serves(&self, ip: &str) -> (r: bool)
        ensures
            r == self@.serves(ip@),
    {
        if self.network_interface_id.is_none() {
            return false;
        }
        contains_text(&self.private_ip_addresses, ip)
    }
}

/// An instance, as far as its network interfaces go.
#[derive(Clone, Debug, PartialEq, Eq)]
pub struct Instance {
    pub network_interfaces: Option<Vec<NetworkInterface>>,
}

/// The mathematical value of an [`Instance`].
pub struct InstanceView {
    pub network_interfaces: Option<Seq<NetworkInterfaceView>>,
}

impl View for Instance {
    type V = InstanceView;

    open spec fn view(&self) -> InstanceView {
        InstanceView { network_interfaces: self.network_interfaces.deep_view() }
    }
}

impl DeepView for Instance {
    type V = InstanceView;

    open spec fn deep_view(&self) -> InstanceView {
        self.view()
    }
}

/// A reservation: a group of instances in the cloud's answer.
#[derive(Clone, Debug, PartialEq, Eq)]
pub struct Reservation {
    pub instances: Option<Vec<Instance>>,
}

/// The mathematical value of a [`Reservation`].
pub struct ReservationView {
    pub instances: Option<Seq<InstanceView>>,
}

impl View for Reservation {
    type V = ReservationView;

    open spec fn view(&self) -> ReservationView {
        ReservationView { instances: self.instances.deep_view() }
    }
}

impl DeepView for Reservation {
    type V = ReservationView;

    open spec fn deep_view(&self) -> ReservationView {
        self.view()
    }
}

/// The cloud's answer to the question what an instance looks like.
#[derive(Clone, Debug, PartialEq, Eq)]
pub struct InstanceDescription {
    pub reservations: Option<Vec<Reservation>>,
}

/// The mathematical value of an [`InstanceDescription`].
pub struct InstanceDescriptionView {
    pub reservations: Option<Seq<ReservationView>>,
}

impl View for InstanceDescription {
    type V = InstanceDescriptionView;

    open spec fn view(&self) -> InstanceDescriptionView {
        InstanceDescriptionView { reservations: self.reservations.deep_view() }
    }
}

impl DeepView for InstanceDescription {
    type V = InstanceDescriptionView;

    open spec fn deep_view(&self) -> InstanceDescriptionView {
        self.view()
    }
}

/// The id of the first of `interfaces` that has one and holds the address `ip`.
pub open spec fn interface_serving(interfaces: Seq<NetworkInterfaceView>, ip: Seq<char>) -> Option<
    Seq<char>,
> {
    match first_match(interfaces, |nic: NetworkInterfaceView| nic.serves(ip)) {
        Some(nic) => nic.network_interface_id,
        None => None,
    }
}

impl InstanceDescriptionView {
    /// The interface of the described instance that holds the private address
    /// `ip`. Only the first instance of the first reservation is looked at;
    /// each level that is missing or empty has its own error.
    pub open spec fn eni_for_ip(self, ip: Seq<char>) -> Result<Seq<char>, ErrorView> {
        match self.reservations {
            None => Err(ErrorView::MissingReservations),
            Some(reservations) => if reservations.len() == 0 {
                Err(ErrorView::MissingReservations)
            } else {
                match reservations[0].instances {
                    None => Err(ErrorView::MissingInstances),
                    Some(instances) => if instances.len() == 0 {
                        Err(ErrorView::MissingInstances)
                    } else {
                        match instances[0].network_interfaces {
                            None => Err(ErrorView::MissingNetworkInterfaces),
                            Some(interfaces) => match interface_serving(interfaces, ip) {
                                Some(id) => Ok(id),
                                None => Err(ErrorView::NoInterfaceWithThatIp),
                            },
                        }
                    },
                }
            },
        }
    }
}

/// The id of the first of `interfaces` that has one and holds the address `ip`.
pub fn find_interface_serving(interfaces: &Vec<NetworkInterface>, ip: &str) -> (r: Option<String>)
    ensures
        r.deep_view() == interface_serving(interfaces.deep_view(), ip@),
{
    let ghost wanted = |nic: NetworkInterfaceView| nic.serves(ip@);
    let mut i: usize = 0;
    while i < interfaces.len()
        invariant
            0 <= i <= interfaces@.len(),
            wanted == |nic: NetworkInterfaceView| nic.serves(ip@),
            forall|j: int| 0 <= j < i ==> !wanted(#[trigger] interfaces.deep_view()[j]),
        decreases interfaces@.len() - i,
    {
        if interfaces[i].serves(ip) {
            proof {
                lemma_first_index_is(interfaces.deep_view(), wanted, i as int);
            }
            return clone_opt(&interfaces[i].network_interface_id);
        }
        i += 1;
    }
    proof {
        lemma_first_index_is(interfaces.deep_view(), wanted, interfaces@.len() as int);
    }
    None
}

impl InstanceDescription {
    /// The interface of the described instance that holds the private address `ip`.
    pub fn eni_for_ip(&self, ip: &str) -> (r: Result<String, Error>)
        ensures
            match r {
                Ok(id) => self@.eni_for_ip(ip@) == Ok::<Seq<char>, ErrorView>(id@),
                Err(e) => self@.eni_for_ip(ip@) == Err::<Seq<char>, ErrorView>(e@),
            },
    {
        let reservations = match &self.reservations {
            None => {
                return Err(Error::MissingReservations);
            },
            Some(reservations) => reservations,
        };
        if reservations.len() == 0 {
            return Err(Error::MissingReservations);
        }
        let instances = match &reservations[0].instances {
            None => {
                return Err(Error::MissingInstances);
            },
            Some(instances) => instances,
        };
        if instances.len() == 0 {
            return Err(Error::MissingInstances);
        }
        let interfaces = match &instances[0].network_interfaces {
            None => {
                return Err(Error::MissingNetworkInterfaces);
            },
            Some(interfaces) => interfaces,
        };
        match find_interface_serving(interfaces, ip) {
            Some(id) => Ok(id),
            None => Err(Error::NoInterfaceWithThatIp),
        }
    }
}

/// The value of the pod-name tag for a selector: the pod's name where the
/// selector names a pod, and nothing where it selects a node.
pub open spec fn pod_name_tag_value(selector: EipSelectorView) -> Seq<char> {
    match selector {
        EipSelectorView::Pod { pod_name } => pod_name,
        EipSelectorView::Node { .. } => Seq::empty(),
    }
}

/// The tags that mark an allocation as made for an `Eip`: cluster, uid, name,
/// pod name and namespace, followed by the default tags in their order.
pub open spec fn allocation_tags_of(
    eip_uid: Seq<char>,
    eip_name: Seq<char>,
    selector: EipSelectorView,
    cluster_name: Seq<char>,
    namespace: Seq<char>,
    default_tags: Seq<TagView>,
) -> Seq<TagView> {
    seq![
        TagView { key: CLUSTER_NAME_TAG@, value: cluster_name },
        TagView { key: EIP_UID_TAG@, value: eip_uid },
        TagView { key: EIP_NAME_TAG@, value: eip_name },
        TagView { key: POD_NAME_TAG@, value: pod_name_tag_value(selector) },
        TagView { key: NAMESPACE_TAG@, value: namespace },
    ] + default_tags
}

/// The tags that mark an allocation as made for an `Eip`.
pub fn allocation_tags(
    eip_uid: &str,
    eip_name: &str,
    selector: &EipSelector,
    cluster_name: &str,
    namespace: &str,
    default_tags: &Vec<Tag>,
) -> (r: Vec<Tag>)
    ensures
        r.deep_view() == allocation_tags_of(
            eip_uid@,
            eip_name@,
            selector@,
            cluster_name@,
            namespace@,
            default_tags.deep_view(),
        ),
{
    let pod_name = match selector {
        EipSelector::Pod { pod_name } => pod_name.clone(),
        EipSelector::Node { .. } => String::new(),
    };
    let mut tags: Vec<Tag> = Vec::new();
    tags.push(Tag::new(CLUSTER_NAME_TAG, cluster_name));
    tags.push(Tag::new(EIP_UID_TAG, eip_uid));
    tags.push(Tag::new(EIP_NAME_TAG, eip_name));
    tags.push(Tag::new(POD_NAME_TAG, pod_name.as_str()));
    tags.push(Tag::new(NAMESPACE_TAG, namespace));
    let mut i: usize = 0;
    while i < default_tags.len()
        invariant
            0 <= i <= default_tags@.len(),
            tags@.len() == 5 + i,
            tags.deep_view() == allocation_tags_of(
                eip_uid@,
                eip_name@,
                selector@,
                cluster_name@,
                namespace@,
                default_tags.deep_view().take(i as int),
            ),
        decreases default_tags@.len() - i,
    {
        let ghost before = tags.deep_view();
        tags.push(default_tags[i].clone());
        proof {
            assert(default_tags.deep_view().take(i + 1) =~= default_tags.deep_view().take(
                i as int,
            ).push(default_tags@[i as int]@));
            assert(tags.deep_view() =~= before.push(default_tags@[i as int]@));
        }
        i += 1;
    }
    proof {
        assert(default_tags.deep_view().take(default_tags@.len() as int) =~= default_tags.deep_view());
    }
    tags
}

} // verus!
