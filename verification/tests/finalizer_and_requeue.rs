use eip_operator::cluster::Pod;
use eip_operator::eip::v2::Eip;
use eip_operator::error::Error;
use eip_operator::finalizer::{
    decimal, eip_phase, finalizer_path, finalizer_removal, pod_phase, reconcile_phase, Phase,
};
use eip_operator::meta::ObjectMeta;
use eip_operator::protocol::{take_next, Action, PatchOp};
use eip_operator::requeue::{on_error, on_success, requeue_after_secs, Requeue};

fn meta(finalizers: &[&str], deleting: bool) -> ObjectMeta {
    let mut m = ObjectMeta::named("x");
    m.finalizers = finalizers.iter().map(|s| s.to_string()).collect();
    m.deleting = deleting;
    m
}

const POD_FINALIZER: &str = "eip.materialize.cloud/disassociate";
const EIP_FINALIZER: &str = "eip.materialize.cloud/destroy";

fn pod(managed: bool, finalizers: &[&str], deleting: bool) -> Pod {
    let mut metadata = meta(finalizers, deleting);
    if managed {
        metadata.labels.insert("eip.materialize.cloud/manage".to_string(), "true".to_string());
    }
    Pod { metadata, node_name: None, pod_ip: None }
}

#[test]
fn phase_goes_by_finalizer_and_deletion() {
    assert_eq!(reconcile_phase(&meta(&[], false), "f"), Phase::AddFinalizer);
    assert_eq!(reconcile_phase(&meta(&["f"], false), "f"), Phase::Apply);
    assert_eq!(reconcile_phase(&meta(&["f"], true), "f"), Phase::Cleanup { finalizer_index: 0 });
    assert_eq!(reconcile_phase(&meta(&[], true), "f"), Phase::Ignore);
    assert_eq!(reconcile_phase(&meta(&["g"], false), "f"), Phase::AddFinalizer);
    assert_eq!(reconcile_phase(&meta(&["g"], true), "f"), Phase::Ignore);
}

#[test]
fn cleanup_names_the_position_of_the_finalizer() {
    assert_eq!(reconcile_phase(&meta(&["a", "b", "f", "f"], true), "f"), Phase::Cleanup { finalizer_index: 2 });
    assert_eq!(ObjectMeta::new().finalizer_position("f"), None);
    assert_eq!(meta(&["a", "f"], false).finalizer_position("f"), Some(1));
}

#[test]
fn a_managed_pod_goes_through_all_phases() {
    assert_eq!(pod_phase(&pod(true, &[], false)), Phase::AddFinalizer);
    assert_eq!(pod_phase(&pod(true, &[POD_FINALIZER], false)), Phase::Apply);
    assert_eq!(pod_phase(&pod(true, &["x", POD_FINALIZER], true)), Phase::Cleanup { finalizer_index: 1 });
    assert_eq!(pod_phase(&pod(true, &[], true)), Phase::Ignore);
}

#[test]
fn an_unmanaged_pod_never_gains_the_finalizer() {
    assert_eq!(pod_phase(&pod(false, &[], false)), Phase::Ignore);
    assert_eq!(pod_phase(&pod(false, &[], true)), Phase::Ignore);
    assert_eq!(pod_phase(&pod(false, &[POD_FINALIZER], false)), Phase::Ignore);
    assert_eq!(pod_phase(&pod(false, &[EIP_FINALIZER], false)), Phase::Ignore);
    let mut legacy = pod(false, &[], false);
    legacy.metadata.labels.insert("eip.aws.materialize.com/manage".to_string(), "true".to_string());
    assert_eq!(pod_phase(&legacy), Phase::Ignore);
}

#[test]
fn an_unmanaged_pod_that_bears_the_finalizer_is_still_cleaned_up() {
    assert_eq!(pod_phase(&pod(false, &[POD_FINALIZER], true)), Phase::Cleanup { finalizer_index: 0 });
}

#[test]
fn an_eip_goes_by_the_destroy_finalizer() {
    let mut eip = Eip::for_pod("p1");
    assert_eq!(eip_phase(&eip), Phase::AddFinalizer);
    eip.metadata.finalizers.push(POD_FINALIZER.to_string());
    assert_eq!(eip_phase(&eip), Phase::AddFinalizer);
    eip.metadata.finalizers.push(EIP_FINALIZER.to_string());
    assert_eq!(eip_phase(&eip), Phase::Apply);
    eip.metadata.deleting = true;
    assert_eq!(eip_phase(&eip), Phase::Cleanup { finalizer_index: 1 });
    eip.metadata.finalizers.clear();
    assert_eq!(eip_phase(&eip), Phase::Ignore);
}

#[test]
fn numbers_are_written_in_decimal() {
    assert_eq!(decimal(0), "0");
    assert_eq!(decimal(7), "7");
    assert_eq!(decimal(9), "9");
    assert_eq!(decimal(10), "10");
    assert_eq!(decimal(42), "42");
    assert_eq!(decimal(100), "100");
    assert_eq!(decimal(1234567890), "1234567890");
    assert_eq!(decimal(usize::MAX), usize::MAX.to_string());
}

#[test]
fn finalizer_path_points_into_the_list() {
    assert_eq!(finalizer_path(0), "/metadata/finalizers/0");
    assert_eq!(finalizer_path(3), "/metadata/finalizers/3");
    assert_eq!(finalizer_path(12), "/metadata/finalizers/12");
}

#[test]
fn removal_tests_before_it_removes() {
    assert_eq!(
        finalizer_removal(2, "eip.aws.materialize.com/disassociate"),
        vec![
            PatchOp::Test {
                path: "/metadata/finalizers/2".to_string(),
                value: "eip.aws.materialize.com/disassociate".to_string(),
            },
            PatchOp::Remove { path: "/metadata/finalizers/2".to_string() },
        ]
    );
}

#[test]
fn refresh_interval_is_four_to_six_minutes() {
    for _ in 0..500 {
        match on_success(true) {
            Requeue::AfterMillis(millis) => {
                assert!(240_000 <= millis && millis < 360_000, "{}", millis);
                assert_eq!(millis % 1000, 0);
            }
            Requeue::AwaitChange => panic!("a refresh was asked for"),
        }
    }
}

#[test]
fn refresh_interval_varies() {
    let first = on_success(true);
    assert!((0..200).any(|_| on_success(true) != first));
}

#[test]
fn without_refresh_the_next_change_is_awaited() {
    assert_eq!(on_success(false), Requeue::AwaitChange);
}

#[test]
fn error_backoff_is_four_to_eight_seconds() {
    for _ in 0..500 {
        match on_error() {
            Requeue::AfterMillis(millis) => assert!(4000 <= millis && millis < 8000, "{}", millis),
            Requeue::AwaitChange => panic!("an error is retried"),
        }
    }
}

#[test]
fn error_backoff_varies() {
    let first = on_error();
    assert!((0..200).any(|_| on_error() != first));
}

#[test]
fn seconds_become_milliseconds() {
    assert_eq!(requeue_after_secs(0), Requeue::AfterMillis(0));
    assert_eq!(requeue_after_secs(240), Requeue::AfterMillis(240_000));
    assert_eq!(requeue_after_secs(359), Requeue::AfterMillis(359_000));
}

#[test]
fn lined_up_actions_are_taken_from_the_front() {
    let pending = vec![
        Action::Release { allocation_id: "A1".to_string() },
        Action::Release { allocation_id: "A2".to_string() },
    ];
    let (rest, first) = take_next(pending, false);
    assert_eq!(first, Action::Release { allocation_id: "A1".to_string() });
    assert_eq!(rest, vec![Action::Release { allocation_id: "A2".to_string() }]);
    let (rest, second) = take_next(rest, false);
    assert_eq!(second, Action::Release { allocation_id: "A2".to_string() });
    let (rest, end) = take_next(rest, true);
    assert_eq!(end, Action::Done { refresh: true });
    assert!(rest.is_empty());
    assert_eq!(take_next(vec![], false).1, Action::Done { refresh: false });
}

#[test]
fn actions_know_what_they_are() {
    let release = Action::Release { allocation_id: "A".to_string() };
    let disassociate = Action::Disassociate { association_id: "a".to_string() };
    let delete = Action::DeleteEip { name: "e".to_string() };
    let get = Action::GetNode { name: "n".to_string() };
    let allocate = Action::Allocate { tags: vec![] };
    let associate =
        Action::Associate { allocation_id: "A".to_string(), eni: "e".to_string(), private_ip: "i".to_string() };
    assert!(release.changes_cloud() && disassociate.changes_cloud());
    assert!(allocate.changes_cloud() && associate.changes_cloud());
    assert!(!delete.changes_cloud() && !get.changes_cloud() && !Action::ListEips.changes_cloud());
    assert!(Action::Done { refresh: true }.is_final());
    assert!(Action::Fail(Error::MissingPodIp).is_final());
    assert!(!release.is_final() && !Action::ListEips.is_final());
}

#[test]
fn what_is_gone_already_counts_as_missing() {
    let release = Action::Release { allocation_id: "A".to_string() };
    let disassociate = Action::Disassociate { association_id: "a".to_string() };
    let delete = Action::DeleteEip { name: "e".to_string() };
    let get = Action::GetNode { name: "n".to_string() };
    assert!(disassociate.gone_by_code("InvalidAssociationID.NotFound"));
    assert!(!disassociate.gone_by_code("InvalidAllocationID.NotFound"));
    assert!(!disassociate.gone_by_code("AuthFailure"));
    assert!(release.gone_by_code("InvalidAllocationID.NotFound"));
    assert!(!release.gone_by_code("InvalidAssociationID.NotFound"));
    assert!(!release.gone_by_code(""));
    assert!(!delete.gone_by_code("InvalidAllocationID.NotFound"));
    assert!(delete.gone_by_status(404));
    assert!(get.gone_by_status(404));
    assert!(!delete.gone_by_status(409));
    assert!(!delete.gone_by_status(500));
    assert!(!release.gone_by_status(404));
    assert!(!Action::ListEips.gone_by_status(404));
}

#[test]
fn errors_describe_themselves() {
    assert_eq!(Error::NoEipResourceWithThatPodName("p".to_string()).message(), "No EIP found with that podName.");
    assert_eq!(Error::MissingEipStatus.message(), "EIP does not have a status.");
    assert_eq!(Error::MissingEipUid.message(), "EIP does not have a UID in its metadata.");
    assert_eq!(Error::MissingEipName.message(), "EIP does not have a name in its metadata.");
    assert_eq!(Error::MissingPodName.message(), "Pod does not have a name in its metadata.");
    assert_eq!(Error::MissingPodIp.message(), "Pod does not have an IP address.");
    assert_eq!(Error::MissingNodeName.message(), "Pod does not have a node name in its spec.");
    assert_eq!(Error::MissingProviderId.message(), "Node does not have a provider_id in its spec.");
    assert_eq!(Error::MalformedProviderId.message(), "Node provider_id is not in expected format.");
    assert_eq!(
        Error::MultipleEipsTaggedForPod.message(),
        "Multiple elastic IPs are tagged with this pod's UID."
    );
    assert_eq!(Error::MissingAllocationId.message(), "allocation_id was None.");
    assert_eq!(Error::MissingPublicIp.message(), "public_ip was None.");
    assert_eq!(Error::MissingReservations.message(), "DescribeInstancesResult.reservations was None.");
    assert_eq!(
        Error::MissingInstances.message(),
        "DescribeInstancesResult.reservations[0].instances was None."
    );
    assert_eq!(
        Error::MissingNetworkInterfaces.message(),
        "DescribeInstancesResult.reservations[0].instances[0].network_interfaces was None."
    );
    assert_eq!(Error::MissingAddresses.message(), "DescribeAddressesResult.addresses was None.");
    assert_eq!(Error::NoInterfaceWithThatIp.message(), "No interface found with IP matching pod.");
    assert_eq!(
        Error::UnparseableEniAnnotation.message(),
        "Pod annotation vpc.amazonaws.com/pod-eni names no network interface."
    );
    assert_eq!(Error::NodeNotFound.message(), "Node of the pod does not exist.");
    assert_eq!(Error::UnexpectedEvent.message(), "Reconcile received an answer it did not ask for.");
}

#[test]
fn some_errors_need_a_human() {
    assert!(Error::MultipleEipsTaggedForPod.needs_intervention());
    assert!(Error::MalformedProviderId.needs_intervention());
    assert!(Error::UnparseableEniAnnotation.needs_intervention());
    assert!(Error::UnexpectedEvent.needs_intervention());
    assert!(!Error::MissingPodIp.needs_intervention());
    assert!(!Error::NodeNotFound.needs_intervention());
    assert!(!Error::NoEipResourceWithThatPodName("p".to_string()).needs_intervention());
}
