use distinst::upgrade::{
    distinst_resume_upgrade, distinst_upgrade, to_envelope, EngineRun, EngineSignal,
    RecordingSink, RepairRecorder, UpgradeEvent, DISTINST_UPGRADE_TAG,
};

#[test]
fn no_payload_variant_leaves_all_slots_absent() {
    let envelope = to_envelope(&UpgradeEvent::AttemptingRepair);
    assert!(envelope.tag == DISTINST_UPGRADE_TAG::ATTEMPTING_REPAIR);
    assert_eq!(envelope.percent, 0);
    assert!(envelope.str1.is_none());
    assert!(envelope.str2.is_none());
    assert!(envelope.str3.is_none());

    let envelope = to_envelope(&UpgradeEvent::AttemptingUpgrade);
    assert!(envelope.tag == DISTINST_UPGRADE_TAG::ATTEMPTING_UPGRADE);
    assert!(envelope.str1.is_none() && envelope.str2.is_none() && envelope.str3.is_none());

    let envelope = to_envelope(&UpgradeEvent::ResumingUpgrade);
    assert!(envelope.tag == DISTINST_UPGRADE_TAG::RESUMING_UPGRADE);
    assert!(envelope.str1.is_none() && envelope.str2.is_none() && envelope.str3.is_none());
}

#[test]
fn single_string_variants_populate_only_the_first_slot() {
    let cases = [
        (UpgradeEvent::DpkgInfo("a".to_string()), DISTINST_UPGRADE_TAG::DPKG_INFO),
        (UpgradeEvent::DpkgErr("b".to_string()), DISTINST_UPGRADE_TAG::DPKG_ERR),
        (UpgradeEvent::UpgradeInfo("c".to_string()), DISTINST_UPGRADE_TAG::UPGRADE_INFO),
        (UpgradeEvent::UpgradeErr("d".to_string()), DISTINST_UPGRADE_TAG::UPGRADE_ERR),
        (
            UpgradeEvent::PackageProcessing("e".to_string()),
            DISTINST_UPGRADE_TAG::PACKAGE_PROCESSING,
        ),
        (
            UpgradeEvent::PackageSettingUp("f".to_string()),
            DISTINST_UPGRADE_TAG::PACKAGE_SETTING_UP,
        ),
    ];
    for (event, tag) in &cases {
        let envelope = to_envelope(event);
        assert!(envelope.tag == *tag);
        assert_eq!(envelope.percent, 0);
        assert!(envelope.str1.is_some());
        assert!(envelope.str2.is_none());
        assert!(envelope.str3.is_none());
    }
}

#[test]
fn unpacking_variant_populates_three_slots_in_order() {
    let event = UpgradeEvent::PackageUnpacking {
        package: "foo".to_string(),
        version: "1.0".to_string(),
        over: "2.0".to_string(),
    };
    let envelope = to_envelope(&event);
    assert!(envelope.tag == DISTINST_UPGRADE_TAG::PACKAGE_UNPACKING);
    assert_eq!(envelope.percent, 0);
    assert_eq!(envelope.str1, Some("foo"));
    assert_eq!(envelope.str2, Some("1.0"));
    assert_eq!(envelope.str3, Some("2.0"));
}

#[test]
fn progress_variant_sets_percentage_only() {
    let envelope = to_envelope(&UpgradeEvent::PackageProgress(42));
    assert!(envelope.tag == DISTINST_UPGRADE_TAG::PACKAGE_PROGRESS);
    assert_eq!(envelope.percent, 42);
    assert!(envelope.str1.is_none());
    assert!(envelope.str2.is_none());
    assert!(envelope.str3.is_none());
}

#[test]
fn successful_upgrade_returns_zero_and_no_log() {
    let events = vec![
        UpgradeEvent::AttemptingUpgrade,
        UpgradeEvent::PackageProcessing("dpkg".to_string()),
        UpgradeEvent::PackageProgress(100),
    ];
    let mut sink = RecordingSink { log: Vec::new() };
    let (status, log) = distinst_upgrade(&events, &Ok(()), &mut sink);
    assert_eq!(status, 0);
    assert!(log.is_none());
    assert_eq!(sink.log.len(), 3);
    assert!(sink.log[0].tag == DISTINST_UPGRADE_TAG::ATTEMPTING_UPGRADE);
    assert!(sink.log[1].tag == DISTINST_UPGRADE_TAG::PACKAGE_PROCESSING);
    assert_eq!(sink.log[1].str1.as_deref(), Some("dpkg"));
    assert!(sink.log[2].tag == DISTINST_UPGRADE_TAG::PACKAGE_PROGRESS);
    assert_eq!(sink.log[2].percent, 100);
}

#[test]
fn failed_upgrade_logs_detail_once_after_delivering_every_event() {
    let events = vec![
        UpgradeEvent::AttemptingUpgrade,
        UpgradeEvent::DpkgErr("broken pipe".to_string()),
    ];
    let mut sink = RecordingSink { log: Vec::new() };
    let outcome: Result<(), String> = Err("dpkg exited with failure".to_string());
    let (status, log) = distinst_upgrade(&events, &outcome, &mut sink);
    assert_eq!(status, -1);
    assert_eq!(log.as_deref(), Some("dpkg exited with failure"));
    assert_eq!(sink.log.len(), 2);
    assert!(sink.log[0].tag == DISTINST_UPGRADE_TAG::ATTEMPTING_UPGRADE);
    assert!(sink.log[1].tag == DISTINST_UPGRADE_TAG::DPKG_ERR);
    assert_eq!(sink.log[1].str1.as_deref(), Some("broken pipe"));
}

#[test]
fn resumed_upgrade_forwards_events_and_repair_choices_in_order() {
    let run = EngineRun {
        signals: vec![
            EngineSignal::Event(UpgradeEvent::ResumingUpgrade),
            EngineSignal::RepairRequest("recovery partition".to_string()),
            EngineSignal::Event(UpgradeEvent::PackageProgress(55)),
        ],
        outcome: Ok(()),
    };
    let mut sink = RecordingSink { log: Vec::new() };
    let mut repair = RepairRecorder { log: Vec::new() };
    let (status, log) = distinst_resume_upgrade(Some(&run), &mut sink, &mut repair);
    assert_eq!(status, 0);
    assert!(log.is_none());
    assert_eq!(sink.log.len(), 2);
    assert!(sink.log[0].tag == DISTINST_UPGRADE_TAG::RESUMING_UPGRADE);
    assert!(sink.log[1].tag == DISTINST_UPGRADE_TAG::PACKAGE_PROGRESS);
    assert_eq!(sink.log[1].percent, 55);
    assert_eq!(repair.log, vec!["recovery partition".to_string()]);
}

#[test]
fn failed_resume_returns_nonzero_and_logs_detail() {
    let run = EngineRun {
        signals: vec![EngineSignal::Event(UpgradeEvent::ResumingUpgrade)],
        outcome: Err("no recovery entry".to_string()),
    };
    let mut sink = RecordingSink { log: Vec::new() };
    let mut repair = RepairRecorder { log: Vec::new() };
    let (status, log) = distinst_resume_upgrade(Some(&run), &mut sink, &mut repair);
    assert_eq!(status, -1);
    assert_eq!(log.as_deref(), Some("no recovery entry"));
    assert_eq!(sink.log.len(), 1);
    assert!(repair.log.is_empty());
}
