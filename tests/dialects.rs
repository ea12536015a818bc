use oasiscap::id::Id;
use oasiscap::language::Language;
use oasiscap::protobuf::{self, AlertConversionError, InfoConversionError, ResourceConversionError};
use oasiscap::{v1dot0, v1dot1, v1dot2, Alert, DateTime};

fn sent() -> DateTime {
    DateTime::parse("2003-04-02T14:39:01-05:00").unwrap()
}

fn v1dot0_resource(mime_type: Option<&str>) -> v1dot0::Resource {
    v1dot0::Resource {
        description: "Image file (GIF)".into(),
        mime_type: mime_type.map(String::from),
        size: Some(1234),
        uri: None,
        digest: None,
    }
}

fn v1dot0_info(certainty: v1dot0::Certainty, resources: Vec<v1dot0::Resource>) -> v1dot0::Info {
    v1dot0::Info {
        language: Language::unspecified(),
        categories: vec![v1dot0::Category::Security],
        event: "Homeland Security Advisory System Update".into(),
        urgency: v1dot0::Urgency::Immediate,
        severity: v1dot0::Severity::Severe,
        certainty,
        audience: None,
        event_codes: v1dot0::KeyValueMap::new(),
        effective: None,
        onset: None,
        expires: None,
        sender_name: None,
        headline: Some("Homeland Security Sets Code ORANGE".into()),
        description: None,
        instruction: None,
        web: None,
        contact: None,
        parameters: v1dot0::KeyValueMap::new(),
        resources,
        areas: vec![],
    }
}

fn v1dot0_alert(info: Vec<v1dot0::Info>) -> v1dot0::Alert {
    v1dot0::Alert {
        identifier: Id::new("43b080713727".into()).unwrap(),
        sender: Id::new("hsas@dhs.gov".into()).unwrap(),
        password: Some("secret".into()),
        source: None,
        sent: sent(),
        status: v1dot0::Status::Actual,
        scope: v1dot0::Scope::Public,
        restriction: None,
        addresses: None,
        codes: vec![],
        message_type: v1dot0::MessageType::Alert,
        note: None,
        references: None,
        incidents: None,
        info,
    }
}

#[test]
fn very_likely_upgrades_to_likely() {
    let a = v1dot0_alert(vec![v1dot0_info(v1dot0::Certainty::VeryLikely, vec![])]);
    let latest = Alert::V1dot0(a).into_latest();
    assert_eq!(latest.info[0].certainty, v1dot2::Certainty::Likely);
    assert_eq!(latest.info[0].categories, vec![v1dot2::Category::Security]);
    assert!(latest.info[0].response_type.is_empty());
}

#[test]
fn missing_mime_type_upgrades_to_octet_stream() {
    let a = v1dot0_alert(vec![v1dot0_info(
        v1dot0::Certainty::Likely,
        vec![v1dot0_resource(None), v1dot0_resource(Some("image/gif"))],
    )]);
    let latest = v1dot2::Alert::from_v1dot0(a);
    assert_eq!(latest.info[0].resources[0].mime_type, "application/octet-stream");
    assert_eq!(latest.info[0].resources[1].mime_type, "image/gif");
    assert_eq!(latest.info[0].resources[0].size, Some(1234));
    assert!(latest.info[0].resources[0].embedded_content.is_none());
}

#[test]
fn upgrade_in_two_steps_equals_direct_upgrade() {
    let make = || {
        v1dot0_alert(vec![v1dot0_info(
            v1dot0::Certainty::VeryLikely,
            vec![v1dot0_resource(None)],
        )])
    };
    let two_steps = v1dot2::Alert::from_v1dot1(v1dot1::Alert::from_v1dot0(make()));
    let direct = v1dot2::Alert::from_v1dot0(make());
    let via_union = Alert::V1dot0(make()).into_latest();
    assert_eq!(two_steps, direct);
    assert_eq!(via_union, direct);
    assert_eq!(direct.identifier.as_str(), "43b080713727");
    assert_eq!(direct.status, v1dot2::Status::Actual);
}

#[test]
fn union_accessors() {
    let a = Alert::V1dot0(v1dot0_alert(vec![]));
    assert_eq!(a.identifier().as_str(), "43b080713727");
    assert_eq!(a.sender().as_str(), "hsas@dhs.gov");
    assert_eq!(a.sent(), sent());
    assert_eq!(a.xml_namespace(), "http://www.incident.com/cap/1.0");
    let b = Alert::V1dot1(v1dot1::Alert::from_v1dot0(v1dot0_alert(vec![])));
    assert_eq!(b.xml_namespace(), "urn:oasis:names:tc:emergency:cap:1.1");
    let c = Alert::V1dot2(b.clone().into_latest());
    assert_eq!(c.xml_namespace(), "urn:oasis:names:tc:emergency:cap:1.2");
    assert_eq!(c.clone().into_latest(), b.into_latest());
}

#[test]
fn enum_names() {
    assert_eq!(v1dot0::Certainty::VeryLikely.name(), "Very Likely");
    assert_eq!(v1dot1::Certainty::Observed.name(), "Observed");
    assert_eq!(v1dot0::Severity::Minor.name(), "Minor");
    assert_eq!(v1dot0::Severity::Unknown.description(), "Severity unknown");
}

fn binary_info(certainty: protobuf::Certainty) -> protobuf::Info {
    protobuf::Info {
        event: "Test".into(),
        urgency: protobuf::Urgency::Immediate.code(),
        severity: protobuf::Severity::Minor.code(),
        certainty: certainty.code(),
        ..Default::default()
    }
}

#[test]
fn observed_certainty_is_unrepresentable_in_v1dot0() {
    let r = v1dot0::Info::try_from_protobuf(binary_info(protobuf::Certainty::Observed));
    assert_eq!(
        r.unwrap_err(),
        InfoConversionError::UnrepresentableCertainty(protobuf::Certainty::Observed)
    );
    let ok = v1dot1::Info::try_from_protobuf(binary_info(protobuf::Certainty::Observed)).unwrap();
    assert_eq!(ok.certainty, v1dot1::Certainty::Observed);
    let very = v1dot1::Info::try_from_protobuf(binary_info(protobuf::Certainty::VeryLikely)).unwrap();
    assert_eq!(very.certainty, v1dot1::Certainty::Likely);
    let old = v1dot0::Info::try_from_protobuf(binary_info(protobuf::Certainty::VeryLikely)).unwrap();
    assert_eq!(old.certainty, v1dot0::Certainty::VeryLikely);
}

#[test]
fn info_code_errors() {
    let mut i = binary_info(protobuf::Certainty::Likely);
    i.urgency = 99;
    assert_eq!(v1dot2::Info::try_from_protobuf(i).unwrap_err(), InfoConversionError::Urgency(99));
    let mut i = binary_info(protobuf::Certainty::Likely);
    i.category = vec![protobuf::Category::Cbrne.code()];
    assert_eq!(
        v1dot0::Info::try_from_protobuf(i).unwrap_err(),
        InfoConversionError::UnrepresentableCategory(protobuf::Category::Cbrne)
    );
    let mut i = binary_info(protobuf::Certainty::Likely);
    i.response_type = vec![protobuf::ResponseType::AllClear.code()];
    assert_eq!(
        v1dot1::Info::try_from_protobuf(i.clone()).unwrap_err(),
        InfoConversionError::UnrepresentableResponseType(protobuf::ResponseType::AllClear)
    );
    assert_eq!(
        v1dot2::Info::try_from_protobuf(i).unwrap().response_type,
        vec![v1dot2::ResponseType::AllClear]
    );
    let mut i = binary_info(protobuf::Certainty::Likely);
    i.effective = Some("2003-04-02T14:39:01".into());
    assert!(matches!(v1dot2::Info::try_from_protobuf(i), Err(InfoConversionError::Effective(_))));
    let mut i = binary_info(protobuf::Certainty::Likely);
    i.web = Some("www.fema.org".into());
    assert_eq!(
        v1dot2::Info::try_from_protobuf(i).unwrap().web.unwrap().as_str(),
        "http://www.fema.org/"
    );
}

#[test]
fn resource_conversions() {
    let r = protobuf::Resource {
        resource_desc: "map".into(),
        size: Some(-1),
        ..Default::default()
    };
    assert_eq!(v1dot2::Resource::try_from_protobuf(r).unwrap_err(), ResourceConversionError::Size(-1));
    let r = protobuf::Resource {
        resource_desc: "map".into(),
        deref_uri: Some("aGk=".into()),
        ..Default::default()
    };
    assert_eq!(
        v1dot0::Resource::try_from_protobuf(r.clone()).unwrap_err(),
        ResourceConversionError::DerefUriPresent
    );
    let v2 = v1dot2::Resource::try_from_protobuf(r).unwrap();
    assert_eq!(v2.mime_type, "application/octet-stream");
    assert_eq!(v2.embedded_content.clone().unwrap().as_slice(), b"hi");
    let back = protobuf::Resource::from_v1dot2(v2);
    assert_eq!(back.deref_uri.as_deref(), Some("aGk="));
    assert_eq!(back.mime_type.as_deref(), Some("application/octet-stream"));
    let big = v1dot2::Resource {
        description: "big".into(),
        mime_type: "text/plain".into(),
        size: Some(u64::MAX),
        uri: None,
        embedded_content: None,
        digest: None,
    };
    assert_eq!(protobuf::Resource::from_v1dot2(big).size, None);
}

fn binary_alert(xmlns: &str) -> protobuf::Alert {
    protobuf::Alert {
        xmlns: xmlns.into(),
        identifier: "43b080713727".into(),
        sender: "hsas@dhs.gov".into(),
        sent: "2003-04-02T14:39:01-05:00".into(),
        status: protobuf::Status::Actual.code(),
        msg_type: protobuf::MsgType::Update.code(),
        scope: Some(protobuf::Scope::Restricted.code()),
        addresses: Some(protobuf::Group { value: vec!["a b".into(), "c".into()] }),
        info: vec![binary_info(protobuf::Certainty::Likely)],
        ..Default::default()
    }
}

#[test]
fn alert_errors_are_exact() {
    let mut missing = binary_alert("http://www.incident.com/cap/1.0");
    missing.scope = None;
    assert_eq!(Alert::try_from_protobuf(missing).unwrap_err(), AlertConversionError::ScopeMissing);
    let mut unknown = binary_alert("urn:oasis:names:tc:emergency:cap:1.2");
    unknown.scope = Some(7);
    assert_eq!(Alert::try_from_protobuf(unknown).unwrap_err(), AlertConversionError::Scope(7));
    let mut status = binary_alert("urn:oasis:names:tc:emergency:cap:1.1");
    status.status = 9;
    assert_eq!(Alert::try_from_protobuf(status).unwrap_err(), AlertConversionError::Status(9));
    let mut rt = binary_info(protobuf::Certainty::Likely);
    rt.response_type = vec![42];
    assert_eq!(v1dot0::Info::try_from_protobuf(rt).unwrap_err(), InfoConversionError::ResponseType(42));
    let mut rt = binary_info(protobuf::Certainty::Likely);
    rt.response_type = vec![protobuf::ResponseType::Shelter.code()];
    assert_eq!(
        v1dot0::Info::try_from_protobuf(rt).unwrap_err(),
        InfoConversionError::UnrepresentableResponseType(protobuf::ResponseType::Shelter)
    );
}

#[test]
fn alert_dispatch_on_namespace() {
    let a = Alert::try_from_protobuf(binary_alert("urn:oasis:names:tc:emergency:cap:1.2")).unwrap();
    match &a {
        Alert::V1dot2(x) => {
            // the scope comes from the scope code, not from the message type code
            assert_eq!(x.scope, v1dot2::Scope::Restricted);
            assert_eq!(x.message_type, v1dot2::MessageType::Update);
            assert_eq!(x.addresses.as_ref().unwrap().to_string(), "\"a b\" c");
        },
        _ => panic!("wrong dialect"),
    }
    let back = protobuf::Alert::from_alert(a);
    assert_eq!(back, binary_alert("urn:oasis:names:tc:emergency:cap:1.2"));
    assert!(matches!(
        Alert::try_from_protobuf(binary_alert("urn:example")),
        Err(AlertConversionError::Xmlns(_))
    ));
    assert!(matches!(
        Alert::try_from_protobuf(binary_alert("http://www.incident.com/cap/1.0")),
        Ok(Alert::V1dot0(_))
    ));
    let mut missing = binary_alert("urn:oasis:names:tc:emergency:cap:1.1");
    missing.scope = None;
    assert_eq!(Alert::try_from_protobuf(missing).unwrap_err(), AlertConversionError::ScopeMissing);
    let mut draft = binary_alert("http://www.incident.com/cap/1.0");
    draft.status = protobuf::Status::Draft.code();
    assert_eq!(
        Alert::try_from_protobuf(draft).unwrap_err(),
        AlertConversionError::UnrepresentableStatus(protobuf::Status::Draft)
    );
}
