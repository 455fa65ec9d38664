use stdf_ingest::records::TSR;
use stdf_ingest::tracker::{RecordTracker, TestIDType};

#[test]
fn device_indices_increase_from_one() {
    let mut t = RecordTracker::new(TestIDType::TestNumberAndName);
    assert_eq!(t.pir_detected(0, 1, 1), 1);
    assert_eq!(t.pir_detected(0, 1, 2), 2);
    assert_eq!(t.pir_detected(0, 2, 1), 3);
    // A retest of the same (head, site) gets a fresh, larger index.
    assert_eq!(t.pir_detected(0, 1, 1), 4);
    // Another group counts independently from one.
    assert_eq!(t.pir_detected(1, 1, 1), 1);
}

#[test]
fn device_index_unique_per_head_site_at_assignment() {
    let mut t = RecordTracker::new(TestIDType::TestNumberAndName);
    let a = t.pir_detected(0, 1, 1);
    let b = t.pir_detected(0, 1, 2);
    let c = t.pir_detected(0, 2, 1);
    assert!(a != b && b != c && a != c);
}

#[test]
fn test_id_resolution_number_and_name() {
    let mut t = RecordTracker::new(TestIDType::TestNumberAndName);
    t.pir_detected(0, 1, 1);
    let (_, id1) = t.xtr_detected(0, 1, 1, 100, &String::from("VDD")).unwrap();
    let (_, id2) = t.xtr_detected(0, 1, 1, 100, &String::from("VDD")).unwrap();
    // Same (number, name) resolves to the same dense id.
    assert_eq!(id1, id2);
    // A different name under NumberAndName is a different test.
    let (_, id3) = t.xtr_detected(0, 1, 1, 100, &String::from("IDD")).unwrap();
    assert_ne!(id1, id3);
    // Ids are dense, starting at zero.
    assert_eq!(id1, 0);
    assert_eq!(id3, 1);
}

#[test]
fn test_id_resolution_number_only() {
    let mut t = RecordTracker::new(TestIDType::TestNumberOnly);
    t.pir_detected(0, 1, 1);
    let (_, id1) = t.xtr_detected(0, 1, 1, 100, &String::from("VDD")).unwrap();
    // Under NumberOnly, two results with the same number share an id
    // even when the names differ.
    let (_, id2) = t.xtr_detected(0, 1, 1, 100, &String::from("IDD")).unwrap();
    assert_eq!(id1, id2);
    let (_, id3) = t.xtr_detected(0, 1, 1, 101, &String::from("VDD")).unwrap();
    assert_ne!(id1, id3);
}

#[test]
fn test_ids_scoped_per_group() {
    let mut t = RecordTracker::new(TestIDType::TestNumberAndName);
    t.pir_detected(0, 1, 1);
    t.pir_detected(1, 1, 1);
    let (_, id0) = t.xtr_detected(0, 1, 1, 100, &String::from("VDD")).unwrap();
    let (_, id1) = t.xtr_detected(1, 1, 1, 100, &String::from("VDD")).unwrap();
    // Same key in another group is a distinct test.
    assert_ne!(id0, id1);
}

#[test]
fn xtr_before_pir_is_ordering_error() {
    let mut t = RecordTracker::new(TestIDType::TestNumberAndName);
    let r = t.xtr_detected(0, 2, 1, 100, &String::from("VDD"));
    assert!(r.is_err());
    let msg = r.unwrap_err().message();
    assert_eq!(
        msg,
        "STDF file structure error in File[0]: TestNumber[100] Head[2] Site[1] showed up before PIR"
    );
}

#[test]
fn default_limits_frozen_at_first_record() {
    let mut t = RecordTracker::new(TestIDType::TestNumberAndName);
    t.pir_detected(0, 1, 1);
    let (_, id) = t.xtr_detected(0, 1, 1, 100, &String::from("VDD")).unwrap();
    let lo = 1.5f32.to_bits();
    let hi = 8.5f32.to_bits();
    assert!(!t.update_default_limits(id, lo, hi));
    assert_eq!(t.default_limits(id).unwrap(), (lo, hi));
    // A second capture — with any values — changes nothing.
    let other_lo = 2.5f32.to_bits();
    let other_hi = 9.5f32.to_bits();
    assert!(t.update_default_limits(id, other_lo, other_hi));
    assert_eq!(t.default_limits(id).unwrap(), (lo, hi));
    // And a third, for good measure.
    assert!(t.update_default_limits(id, 0, 0));
    assert_eq!(t.default_limits(id).unwrap(), (lo, hi));
}

#[test]
fn default_limits_missing_before_capture() {
    let mut t = RecordTracker::new(TestIDType::TestNumberAndName);
    t.pir_detected(0, 1, 1);
    let (_, id) = t.xtr_detected(0, 1, 1, 100, &String::from("VDD")).unwrap();
    assert!(t.default_limits(id).is_err());
}

#[test]
fn scale_frozen_at_first_sighting() {
    let mut t = RecordTracker::new(TestIDType::TestNumberAndName);
    t.pir_detected(0, 1, 1);
    let (_, id) = t.xtr_detected(0, 1, 1, 100, &String::from("VDD")).unwrap();
    let (existed, sc) = t.update_scale(id, &Some(3));
    assert!(!existed);
    assert_eq!(sc, 3);
    // A later record with a different scale still sees the frozen one.
    let (existed, sc) = t.update_scale(id, &Some(-6));
    assert!(existed);
    assert_eq!(sc, 3);
}

#[test]
fn absent_scale_defaults_to_zero() {
    let mut t = RecordTracker::new(TestIDType::TestNumberAndName);
    t.pir_detected(0, 1, 1);
    let (_, id) = t.xtr_detected(0, 1, 1, 7, &String::from("F")).unwrap();
    let (existed, sc) = t.update_scale(id, &None);
    assert!(!existed);
    assert_eq!(sc, 0);
}

#[test]
fn wafer_indices_and_lookup() {
    let mut t = RecordTracker::new(TestIDType::TestNumberAndName);
    assert!(t.get_wafer_index(0, 1).is_err());
    assert_eq!(t.wir_detected(0, 1), 1);
    assert_eq!(t.wir_detected(0, 2), 2);
    assert_eq!(t.get_wafer_index(0, 1).unwrap(), 1);
    assert_eq!(t.get_wafer_index(0, 2).unwrap(), 2);
    let msg = t.get_wafer_index(0, 3).unwrap_err().message();
    assert_eq!(
        msg,
        "STDF file structure error in File[0]: WRR Head[3] showed up before WIR"
    );
}

#[test]
fn datalog_position_tracks_device_boundaries() {
    let mut t = RecordTracker::new(TestIDType::TestNumberAndName);
    // Before any device: index 0, before the device end.
    assert_eq!(t.get_datalog_relative_pos(0), (0, true));
    t.pir_detected(0, 1, 1);
    assert_eq!(t.get_datalog_relative_pos(0), (1, true));
}

#[test]
fn program_sections_nest_and_clear() {
    let mut t = RecordTracker::new(TestIDType::TestNumberAndName);
    // No section record yet: no SEQ_NAME at all.
    assert!(t.get_program_section(0).is_none());
    t.bps_detected(0, &stdf_ingest::records::BPS { seq_name: String::from("main") }).unwrap();
    t.bps_detected(0, &stdf_ingest::records::BPS { seq_name: String::from("sub") }).unwrap();
    assert_eq!(t.get_program_section(0).unwrap(), "main;sub");
    t.eps_detected(0).unwrap();
    assert_eq!(t.get_program_section(0).unwrap(), "main");
    // Popping an empty stack is harmless.
    t.eps_detected(0).unwrap();
    t.eps_detected(0).unwrap();
    assert_eq!(t.get_program_section(0).unwrap(), "");
}

#[test]
fn summary_record_accumulates_fail_counts() {
    let mut t = RecordTracker::new(TestIDType::TestNumberAndName);
    t.pir_detected(0, 1, 1);
    t.xtr_detected(0, 1, 1, 100, &String::from("VDD")).unwrap();
    let tsr = TSR { test_num: 100, test_nam: String::from("VDD"), fail_cnt: 3 };
    // An exact-key match carries no reconciliation note.
    assert_eq!(t.tsr_detected(0, &tsr).unwrap(), None);
    assert_eq!(t.tsr_detected(0, &tsr).unwrap(), None);
    // An all-ones count is "not valid" and is ignored.
    let invalid = TSR { test_num: 100, test_nam: String::from("VDD"), fail_cnt: u32::MAX };
    assert_eq!(t.tsr_detected(0, &invalid).unwrap(), None);
    assert_eq!(t.tests[0].fail_count, Some(6));
}

#[test]
fn summary_record_falls_back_to_test_number() {
    let mut t = RecordTracker::new(TestIDType::TestNumberAndName);
    t.pir_detected(0, 1, 1);
    t.xtr_detected(0, 1, 1, 100, &String::from("VDD")).unwrap();
    // The summary carries a different name: the same-number fallback
    // still reaches the test, and the name actually used comes back so
    // the reconciliation can be logged.
    let tsr = TSR { test_num: 100, test_nam: String::from("other name"), fail_cnt: 2 };
    assert_eq!(t.tsr_detected(0, &tsr).unwrap(), Some(String::from("VDD")));
    assert_eq!(t.tests[0].fail_count, Some(2));
}

#[test]
fn summary_record_mismatch_is_reported() {
    let mut t = RecordTracker::new(TestIDType::TestNumberAndName);
    let tsr = TSR { test_num: 999, test_nam: String::from("nope"), fail_cnt: 2 };
    let e = t.tsr_detected(0, &tsr).unwrap_err();
    assert!(!e.is_fatal());
    assert_eq!(
        e.message(),
        "Test number [999] in TSR matches no records in File[0]"
    );
}

#[test]
fn bins_inferred_then_overwritten() {
    let mut t = RecordTracker::new(TestIDType::TestNumberAndName);
    t.pir_detected(0, 1, 1);
    let prr = stdf_ingest::records::PRR {
        head_num: 1,
        site_num: 1,
        part_flg: 0,
        num_test: 1,
        test_t: 10,
        hard_bin: 1,
        soft_bin: 11,
        x_coord: -32768,
        y_coord: -32768,
        part_id: String::from("P1"),
    };
    t.prr_detected(0, &prr).unwrap();
    // Inferred from the part flags: a passing bin with no name yet.
    assert_eq!(t.hbins[0].pf, "P");
    assert_eq!(t.hbins[0].name, "");
    // The authoritative summary overwrites name and classification.
    t.hbr_detected(0, &stdf_ingest::records::HBR {
        hbin_num: 1,
        hbin_pf: String::from("F"),
        hbin_nam: String::from("fail bin"),
    });
    assert_eq!(t.hbins[0].pf, "F");
    assert_eq!(t.hbins[0].name, "fail bin");
    // An unknown code is normalized to U; an empty name keeps the old.
    t.hbr_detected(0, &stdf_ingest::records::HBR {
        hbin_num: 1,
        hbin_pf: String::from("x"),
        hbin_nam: String::from(""),
    });
    assert_eq!(t.hbins[0].pf, "U");
    assert_eq!(t.hbins[0].name, "fail bin");
}

#[test]
fn prr_before_pir_is_ordering_error() {
    let mut t = RecordTracker::new(TestIDType::TestNumberAndName);
    let prr = stdf_ingest::records::PRR {
        head_num: 4,
        site_num: 2,
        part_flg: 0,
        num_test: 0,
        test_t: 0,
        hard_bin: 0,
        soft_bin: 0,
        x_coord: -32768,
        y_coord: -32768,
        part_id: String::new(),
    };
    let e = t.prr_detected(0, &prr).unwrap_err();
    assert_eq!(
        e.message(),
        "STDF file structure error in File[0]: PRR Head[4] Site[2] showed up before PIR"
    );
}
