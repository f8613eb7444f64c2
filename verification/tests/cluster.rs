use eip_operator::cluster::{eni_id_from_parsed, instance_id_from, is_true, Node, Pod};
use eip_operator::error::Error;
use eip_operator::meta::ObjectMeta;

fn pod(labels: &[(&str, &str)], annotations: &[(&str, &str)]) -> Pod {
    let mut metadata = ObjectMeta::named("p1");
    for (key, value) in labels {
        metadata.labels.insert(key.to_string(), value.to_string());
    }
    for (key, value) in annotations {
        metadata.annotations.insert(key.to_string(), value.to_string());
    }
    Pod { metadata, node_name: None, pod_ip: None }
}

#[test]
fn true_is_recognised_in_any_case() {
    for text in ["true", "TRUE", "True", "tRuE", "trUE"] {
        assert!(is_true(text), "{}", text);
    }
    for text in ["", "false", "tru", "truee", " true", "true ", "yes", "1", "trüe", "t r u e"] {
        assert!(!is_true(text), "{}", text);
    }
}

#[test]
fn true_agrees_with_lowercasing() {
    for text in ["true", "TRUE", "True", "false", "", "TrUe", "tru", "ｔｒｕｅ", "TRUE\n"] {
        assert_eq!(is_true(text), text.to_lowercase() == "true", "{:?}", text);
    }
}

#[test]
fn managed_pods_carry_the_manage_label() {
    assert!(pod(&[("eip.materialize.cloud/manage", "true")], &[]).is_managed());
    assert!(pod(&[("eip.materialize.cloud/manage", "")], &[]).is_managed());
    assert!(!pod(&[], &[]).is_managed());
    assert!(!pod(&[("eip.aws.materialize.com/manage", "true")], &[]).is_managed());
    assert!(!pod(&[("eip.materialize.cloud/autocreate_eip", "true")], &[]).is_managed());
}

#[test]
fn autocreate_asks_for_a_true_label() {
    assert!(pod(&[("eip.materialize.cloud/autocreate_eip", "true")], &[]).should_autocreate_eip());
    assert!(pod(&[("eip.materialize.cloud/autocreate_eip", "TRUE")], &[]).should_autocreate_eip());
    assert!(pod(&[("eip.materialize.cloud/autocreate_eip", "True")], &[]).should_autocreate_eip());
    assert!(!pod(&[("eip.materialize.cloud/autocreate_eip", "false")], &[]).should_autocreate_eip());
    assert!(!pod(&[("eip.materialize.cloud/autocreate_eip", "")], &[]).should_autocreate_eip());
    assert!(!pod(&[("eip.materialize.cloud/manage", "true")], &[]).should_autocreate_eip());
    assert!(!pod(&[], &[]).should_autocreate_eip());
}

#[test]
fn instance_id_follows_the_last_slash() {
    assert_eq!(instance_id_from("aws:///us-east-1a/i-0123456789"), Some("i-0123456789".to_string()));
    assert_eq!(instance_id_from("a/b"), Some("b".to_string()));
    assert_eq!(instance_id_from("/i-1"), Some("i-1".to_string()));
    assert_eq!(instance_id_from("i-1/"), Some("".to_string()));
    assert_eq!(instance_id_from("/"), Some("".to_string()));
    assert_eq!(instance_id_from("é/ü/i-ß"), Some("i-ß".to_string()));
}

#[test]
fn instance_id_is_missing_without_a_slash() {
    assert_eq!(instance_id_from("i-0123456789"), None);
    assert_eq!(instance_id_from(""), None);
}

#[test]
fn instance_id_agrees_with_rsplit_once() {
    for text in ["aws:///us-east-1a/i-1", "", "/", "//", "a", "a/", "/a", "a/b/c", "é/€"] {
        assert_eq!(
            instance_id_from(text),
            text.rsplit_once('/').map(|(_, id)| id.to_string()),
            "{:?}",
            text
        );
    }
}

#[test]
fn eni_id_is_the_first_of_the_annotation() {
    let annotation = r#"[{"eniId":"eni-0e42914a33ee3c5ce","ifAddress":"0e:cb:3c:0d:97:3b","privateIp":"10.1.191.190","vlanId":1,"subnetCidr":"10.1.160.0/19"}]"#;
    let p = pod(&[], &[("vpc.amazonaws.com/pod-eni", annotation)]);
    assert_eq!(p.eni_id_from_annotation(), Ok(Some("eni-0e42914a33ee3c5ce".to_string())));
}

#[test]
fn eni_id_of_several_entries_is_that_of_the_first() {
    let annotation = r#"[{"eniId":"eni-1"},{"eniId":"eni-2"}]"#;
    let p = pod(&[], &[("vpc.amazonaws.com/pod-eni", annotation)]);
    assert_eq!(p.eni_id_from_annotation(), Ok(Some("eni-1".to_string())));
}

#[test]
fn eni_id_is_absent_without_the_annotation() {
    assert_eq!(pod(&[], &[]).eni_id_from_annotation(), Ok(None));
    assert_eq!(pod(&[], &[("other", r#"[{"eniId":"eni-1"}]"#)]).eni_id_from_annotation(), Ok(None));
}

#[test]
fn an_annotation_that_names_no_interface_is_an_error() {
    for annotation in [
        "",
        "eni-1",
        "not json",
        "[]",
        "[",
        "{}",
        r#"{"eniId":"eni-1"}"#,
        r#"[{"eni_id":"eni-1"}]"#,
        r#"[{"eniId":17}]"#,
        r#"[{"eniId":null}]"#,
        r#"["eni-1"]"#,
        r#"[{"eniId":"eni-1"},{"privateIp":"10.0.0.1"}]"#,
        r#"[{"eniId":"eni-1"},7]"#,
    ] {
        let p = pod(&[], &[("vpc.amazonaws.com/pod-eni", annotation)]);
        assert_eq!(p.eni_id_from_annotation(), Err(Error::UnparseableEniAnnotation), "{}", annotation);
    }
}

#[test]
fn parsed_list_gives_its_first_id_if_all_entries_have_one() {
    assert_eq!(eni_id_from_parsed(&None), None);
    assert_eq!(eni_id_from_parsed(&Some(vec![])), None);
    assert_eq!(eni_id_from_parsed(&Some(vec![Some("a".to_string())])), Some("a".to_string()));
    assert_eq!(
        eni_id_from_parsed(&Some(vec![Some("a".to_string()), Some("b".to_string())])),
        Some("a".to_string())
    );
    assert_eq!(eni_id_from_parsed(&Some(vec![None])), None);
    assert_eq!(eni_id_from_parsed(&Some(vec![Some("a".to_string()), None])), None);
    assert_eq!(eni_id_from_parsed(&Some(vec![None, Some("b".to_string())])), None);
}

#[test]
fn copies_of_pods_and_nodes_are_equal() {
    let mut p = pod(&[("a", "b")], &[("c", "d")]);
    p.node_name = Some("n1".to_string());
    p.pod_ip = Some("10.0.0.1".to_string());
    assert_eq!(p.clone(), p);
    let n = Node { metadata: ObjectMeta::named("n1"), provider_id: Some("aws:///z/i-1".to_string()) };
    assert_eq!(n.clone(), n);
}
