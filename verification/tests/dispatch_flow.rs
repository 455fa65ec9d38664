use stdf_ingest::actions::{DatalogKind, RealField, SinkAction};
use stdf_ingest::dispatch::{process_incoming_record, process_summary_data};
use stdf_ingest::records::{ByteOrder, Record, GDR, PIR, PRR, PTR, V1};
use stdf_ingest::tracker::{RecordTracker, TestIDType};

fn ptr(head: u8, site: u8, num: u32, name: &str, result: f32) -> Record {
    Record::PTR(PTR {
        test_num: num,
        head_num: head,
        site_num: site,
        test_flg: 0,
        result_bits: result.to_bits(),
        test_txt: String::from(name),
        opt_flag: Some(0),
        res_scal: Some(0),
        lo_limit_bits: Some(0.0f32.to_bits()),
        hi_limit_bits: Some(10.0f32.to_bits()),
        units: Some(String::from("V")),
        lo_spec_bits: None,
        hi_spec_bits: None,
    })
}

fn prr(head: u8, site: u8, part: &str, flags: u8) -> Record {
    Record::PRR(PRR {
        head_num: head,
        site_num: site,
        part_flg: flags,
        num_test: 1,
        test_t: 100,
        hard_bin: 1,
        soft_bin: 1,
        x_coord: -32768,
        y_coord: -32768,
        part_id: String::from(part),
    })
}

fn feed(t: &mut RecordTracker, fid: u64, rec: Record) -> Vec<SinkAction> {
    process_incoming_record(t, fid, 0, &ByteOrder::LittleEndian, &rec)
        .unwrap()
        .actions
}

#[test]
fn result_before_device_start_aborts_without_actions() {
    let mut t = RecordTracker::new(TestIDType::TestNumberAndName);
    let r = process_incoming_record(
        &mut t,
        0,
        0,
        &ByteOrder::LittleEndian,
        &ptr(2, 1, 100, "VDD", 5.0),
    );
    let e = r.unwrap_err();
    assert!(e.is_fatal());
    assert_eq!(
        e.message(),
        "STDF file structure error in File[0]: TestNumber[100] Head[2] Site[1] showed up before PIR"
    );
    // Nothing was emitted for the offending record and no test id was
    // handed out.
    assert_eq!(t.tests.len(), 0);
}

#[test]
fn device_start_emits_identity_row() {
    let mut t = RecordTracker::new(TestIDType::TestNumberAndName);
    let acts = feed(&mut t, 0, Record::PIR(PIR { head_num: 1, site_num: 2 }));
    assert_eq!(
        acts,
        vec![SinkAction::InsertDut { group: 0, head: 1, site: 2, dut_index: 1 }]
    );
}

#[test]
fn first_scalar_result_emits_definition_and_freezes_limits() {
    let mut t = RecordTracker::new(TestIDType::TestNumberAndName);
    feed(&mut t, 0, Record::PIR(PIR { head_num: 1, site_num: 1 }));
    let acts = feed(&mut t, 0, ptr(1, 1, 100, "VDD", 5.0));
    assert_eq!(acts.len(), 2);
    assert_eq!(
        acts[0],
        SinkAction::InsertPtrData {
            dut_index: 1,
            test_id: 0,
            result: RealField::Value { bits: 5.0f32.to_bits(), scale: 0 },
            test_flg: 0,
        }
    );
    match &acts[1] {
        SinkAction::InsertTestInfo {
            group,
            test_id,
            test_num,
            rec_header,
            test_name,
            lo_limit,
            hi_limit,
            unit,
            seq_name,
            ..
        } => {
            assert_eq!((*group, *test_id, *test_num, *rec_header), (0, 0, 100, 10));
            assert_eq!(test_name, "VDD");
            assert_eq!(*lo_limit, RealField::Value { bits: 0.0f32.to_bits(), scale: 0 });
            assert_eq!(*hi_limit, RealField::Value { bits: 10.0f32.to_bits(), scale: 0 });
            assert_eq!(unit, "V");
            assert!(seq_name.is_none());
        },
        other => panic!("expected a test definition row, got {:?}", other),
    }
    // A second identical result emits no new definition and no
    // dynamic-limit check beyond the unchanged limits handed to the
    // host.
    let acts = feed(&mut t, 0, ptr(1, 1, 100, "VDD", 6.0));
    assert_eq!(acts.len(), 2);
    match &acts[1] {
        SinkAction::CheckDynamicLimit { lo_raw, hi_raw, default_lo, default_hi, .. } => {
            assert_eq!(*lo_raw, 0.0f32.to_bits());
            assert_eq!(*hi_raw, 10.0f32.to_bits());
            assert_eq!(*default_lo, 0.0f32.to_bits());
            assert_eq!(*default_hi, 10.0f32.to_bits());
        },
        other => panic!("expected a dynamic-limit check, got {:?}", other),
    }
}

#[test]
fn unit_text_carries_scale_prefix() {
    let mut t = RecordTracker::new(TestIDType::TestNumberAndName);
    feed(&mut t, 0, Record::PIR(PIR { head_num: 1, site_num: 1 }));
    let mut rec = match ptr(1, 1, 100, "IDD", 5.0) {
        Record::PTR(p) => p,
        _ => unreachable!(),
    };
    rec.res_scal = Some(3);
    rec.units = Some(String::from("A"));
    let acts = feed(&mut t, 0, Record::PTR(rec));
    match &acts[1] {
        SinkAction::InsertTestInfo { unit, .. } => assert_eq!(unit, "mA"),
        other => panic!("expected a test definition row, got {:?}", other),
    }
}

#[test]
fn superseding_marks_before_writing_own_row() {
    let mut t = RecordTracker::new(TestIDType::TestNumberAndName);
    // Device A.
    feed(&mut t, 0, Record::PIR(PIR { head_num: 1, site_num: 1 }));
    let acts_a = feed(&mut t, 0, prr(1, 1, "P1", 0));
    assert_eq!(acts_a.len(), 1);
    assert!(matches!(acts_a[0], SinkAction::UpdateDut { dut_index: 1, .. }));
    // Device B declares "supersedes same part".
    feed(&mut t, 0, Record::PIR(PIR { head_num: 1, site_num: 1 }));
    let acts_b = feed(&mut t, 0, prr(1, 1, "P1", 1));
    assert_eq!(acts_b.len(), 2);
    // The superseding mark runs strictly before B's own row update,
    // so B's row is never caught by its own superseding.
    assert_eq!(
        acts_b[0],
        SinkAction::SupersedeDut { group: 0, head: 1, site: 1, part_id: String::from("P1") }
    );
    match &acts_b[1] {
        SinkAction::UpdateDut { dut_index, part_id, .. } => {
            assert_eq!(*dut_index, 2);
            assert_eq!(part_id, "P1");
        },
        other => panic!("expected the device row update, got {:?}", other),
    }
}

#[test]
fn generic_data_flattens_to_numbered_lines() {
    let mut t = RecordTracker::new(TestIDType::TestNumberAndName);
    let gdr = GDR {
        gen_data: vec![
            V1::U1(7),
            V1::I2(-5),
            V1::Cn(String::from("note")),
            V1::Bn(vec![0xAB, 0xCD]),
            V1::N1(0xF),
            V1::B0,
        ],
    };
    let acts = feed(&mut t, 0, Record::GDR(gdr));
    match &acts[0] {
        SinkAction::InsertDatalog { kind, value, after_dut_index, is_before_prr, .. } => {
            assert_eq!(*kind, DatalogKind::Gdr);
            assert_eq!(
                value,
                "0 U1: 7\n1 I2: -5\n2 Cn: note\n3 Bn: (HEX)ABCD\n4 N1: F\n5 B0: NULL\n"
            );
            assert_eq!(*after_dut_index, 0);
            assert!(*is_before_prr);
        },
        other => panic!("expected a datalog row, got {:?}", other),
    }
    // An empty generic record stores the NULL placeholder.
    let acts = feed(&mut t, 0, Record::GDR(GDR { gen_data: vec![] }));
    match &acts[0] {
        SinkAction::InsertDatalog { value, .. } => assert_eq!(value, "NULL"),
        other => panic!("expected a datalog row, got {:?}", other),
    }
}

#[test]
fn file_attributes_record_both_fields() {
    let mut t = RecordTracker::new(TestIDType::TestNumberAndName);
    let acts = feed(
        &mut t,
        0,
        Record::FAR(stdf_ingest::records::FAR { stdf_ver: 4 }),
    );
    assert_eq!(
        acts,
        vec![
            SinkAction::InsertFileInfo {
                group: 0,
                sub: 0,
                field: String::from("STDF Version"),
                value: String::from("4"),
            },
            SinkAction::InsertFileInfo {
                group: 0,
                sub: 0,
                field: String::from("BYTE_ORD"),
                value: String::from("Little endian"),
            },
        ]
    );
}

#[test]
fn summary_mismatch_degrades_to_warning() {
    let mut t = RecordTracker::new(TestIDType::TestNumberAndName);
    let d = process_incoming_record(
        &mut t,
        0,
        0,
        &ByteOrder::LittleEndian,
        &Record::TSR(stdf_ingest::records::TSR {
            test_num: 42,
            test_nam: String::from("missing"),
            fail_cnt: 1,
        }),
    )
    .unwrap();
    assert_eq!(d.actions.len(), 0);
    assert_eq!(d.warnings.len(), 1);
    assert_eq!(d.warnings[0], "Test number [42] in TSR matches no records in File[0]");
}

#[test]
fn invalid_record_is_fatal() {
    let mut t = RecordTracker::new(TestIDType::TestNumberAndName);
    let e = process_incoming_record(
        &mut t,
        0,
        0,
        &ByteOrder::LittleEndian,
        &Record::InvalidRec { typ: 9, sub: 9, len: 3 },
    )
    .unwrap_err();
    assert_eq!(e.message(), "Invalid record detected, typ: 9, sub: 9, len: 3");
}

#[test]
fn summary_data_emits_bins_and_fail_counts() {
    let mut t = RecordTracker::new(TestIDType::TestNumberAndName);
    feed(&mut t, 0, Record::PIR(PIR { head_num: 1, site_num: 1 }));
    feed(&mut t, 0, ptr(1, 1, 100, "VDD", 5.0));
    feed(&mut t, 0, prr(1, 1, "P1", 0));
    feed(
        &mut t,
        0,
        Record::TSR(stdf_ingest::records::TSR {
            test_num: 100,
            test_nam: String::from("VDD"),
            fail_cnt: 2,
        }),
    );
    let acts = process_summary_data(&t);
    assert_eq!(
        acts,
        vec![
            SinkAction::InsertHbin {
                group: 0,
                bin_num: 1,
                bin_name: String::new(),
                bin_pf: String::from("P"),
            },
            SinkAction::InsertSbin {
                group: 0,
                bin_num: 1,
                bin_name: String::new(),
                bin_pf: String::from("P"),
            },
            SinkAction::UpdateFailCount { test_id: 0, count: 2 },
        ]
    );
}

#[test]
fn number_only_policy_shares_definitions_across_names() {
    let mut t = RecordTracker::new(TestIDType::TestNumberOnly);
    feed(&mut t, 0, Record::PIR(PIR { head_num: 1, site_num: 1 }));
    let first = feed(&mut t, 0, ptr(1, 1, 100, "VDD", 1.0));
    assert_eq!(first.len(), 2);
    // A result with the same number but another name resolves to the
    // same test: no second definition row is written.
    let second = feed(&mut t, 0, ptr(1, 1, 100, "IDD", 2.0));
    match &second[0] {
        SinkAction::InsertPtrData { test_id, .. } => assert_eq!(*test_id, 0),
        other => panic!("expected a result row, got {:?}", other),
    }
    assert!(matches!(second[1], SinkAction::CheckDynamicLimit { test_id: 0, .. }));
}

#[test]
fn scalar_limits_missing_for_functional_id_is_fatal() {
    let mut t = RecordTracker::new(TestIDType::TestNumberOnly);
    feed(&mut t, 0, Record::PIR(PIR { head_num: 1, site_num: 1 }));
    // A functional test claims the id first: no default limits exist.
    let ftr = stdf_ingest::records::FTR {
        test_num: 100,
        head_num: 1,
        site_num: 1,
        test_flg: 0,
        opt_flag: 0,
        rtn_icnt: 0,
        pgm_icnt: 0,
        rtn_indx: vec![],
        pgm_indx: vec![],
        vect_nam: String::new(),
        test_txt: String::from("FUNC"),
    };
    feed(&mut t, 0, Record::FTR(ftr));
    // A later scalar result for the same id carries an option flag and
    // asks for the frozen defaults, which were never recorded: the
    // stream is inconsistent and the run aborts.
    let e = process_incoming_record(
        &mut t,
        0,
        0,
        &ByteOrder::LittleEndian,
        &ptr(1, 1, 100, "FUNC", 5.0),
    )
    .unwrap_err();
    assert!(e.is_fatal());
    assert_eq!(
        e.message(),
        "Default limits can not be read for test id 0...this should never happen"
    );
}

#[test]
fn summary_fallback_logs_reconciliation() {
    let mut t = RecordTracker::new(TestIDType::TestNumberAndName);
    feed(&mut t, 0, Record::PIR(PIR { head_num: 1, site_num: 1 }));
    feed(&mut t, 0, ptr(1, 1, 100, "VDD", 5.0));
    // The summary's name does not match; the same-number fallback is
    // used and the reconciliation is logged, ingestion continues.
    let d = process_incoming_record(
        &mut t,
        0,
        0,
        &ByteOrder::LittleEndian,
        &Record::TSR(stdf_ingest::records::TSR {
            test_num: 100,
            test_nam: String::from("VDD_ALT"),
            fail_cnt: 1,
        }),
    )
    .unwrap();
    assert_eq!(d.actions.len(), 0);
    assert_eq!(d.warnings.len(), 1);
    assert_eq!(
        d.warnings[0],
        "TSR: [100\tVDD_ALT] matches no records in File[0], use test name [VDD] instead"
    );
}

#[test]
fn unhandled_record_kind_is_rejected_with_a_log() {
    let mut t = RecordTracker::new(TestIDType::TestNumberAndName);
    let d = process_incoming_record(
        &mut t,
        0,
        0,
        &ByteOrder::LittleEndian,
        &Record::Unhandled { type_code: 1024 },
    )
    .unwrap();
    assert_eq!(d.actions.len(), 0);
    assert_eq!(d.warnings.len(), 1);
    assert_eq!(d.warnings[0], "Record type [1024] is not ingested and was skipped");
}
