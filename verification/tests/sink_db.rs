use stdf_ingest::actions::{RealField, SinkAction};
use stdf_ingest::dispatch::{process_incoming_record, process_summary_data, Dispatched};
use stdf_ingest::fbits::{replace_inf, storable_result};
use stdf_ingest::hexblob::result_blob_hex;
use stdf_ingest::records::{ByteOrder, Record, PIR, PRR, PTR};
use stdf_ingest::sink::{dynamic_limit_update, DataBaseCtx};
use stdf_ingest::tracker::{RecordTracker, TestIDType};

/// What the host does with a numeric payload: scale, then render the
/// library-decided storable image (`None` stands for NaN, stored as
/// NULL).
fn render_scaled(bits: u32, scale: i32) -> Option<String> {
    let v = f32::from_bits(bits) * 10f32.powi(scale);
    storable_result(v.to_bits()).map(|b| format!("{}", f32::from_bits(b) as f64))
}

fn render_real(r: &RealField) -> Option<String> {
    match r {
        RealField::Missing => None,
        RealField::Value { bits, scale } => render_scaled(*bits, *scale),
    }
}

/// Whether a scaled limit drifted beyond float epsilon from the scaled
/// default.
fn limit_changed(raw: u32, default_raw: u32, scale: i32) -> bool {
    let a = f32::from_bits(raw) * 10f32.powi(scale);
    let b = f32::from_bits(default_raw) * 10f32.powi(scale);
    (a - b).abs() > f32::EPSILON
}

/// Runs emitted actions against the sink the way the host writer does:
/// actions with floating-point payloads are resolved first, the rest
/// go straight through.
fn run_actions(db: &mut DataBaseCtx, acts: &Vec<SinkAction>) {
    for act in acts {
        if act.needs_host() {
            match act {
                SinkAction::InsertPtrData { dut_index, test_id, result, test_flg } => {
                    db.insert_ptr_data(*dut_index, *test_id, render_real(result), *test_flg)
                        .unwrap();
                },
                SinkAction::InsertMprData {
                    dut_index,
                    test_id,
                    rtn_rslt_bits,
                    scale,
                    rtn_stat_hex,
                    test_flg,
                } => {
                    let scaled: Vec<u32> = rtn_rslt_bits
                        .iter()
                        .map(|b| replace_inf((f32::from_bits(*b) * 10f32.powi(*scale)).to_bits()))
                        .collect();
                    let rslt_hex = result_blob_hex(&scaled);
                    db.insert_mpr_data(*dut_index, *test_id, &rslt_hex, rtn_stat_hex, *test_flg)
                        .unwrap();
                },
                SinkAction::InsertTestInfo {
                    group,
                    test_id,
                    test_num,
                    rec_header,
                    test_name,
                    res_scal,
                    lo_limit,
                    hi_limit,
                    unit,
                    opt_flag,
                    rtn_icnt,
                    rslt_pgm_cnt,
                    lo_spec,
                    hi_spec,
                    vect_nam,
                    seq_name,
                } => {
                    db.insert_test_info(
                        *group,
                        *test_id,
                        *test_num,
                        *rec_header,
                        test_name,
                        *res_scal,
                        render_real(lo_limit),
                        render_real(hi_limit),
                        unit,
                        *opt_flag,
                        *rtn_icnt,
                        *rslt_pgm_cnt,
                        render_real(lo_spec),
                        render_real(hi_spec),
                        vect_nam,
                        seq_name,
                    )
                    .unwrap();
                },
                SinkAction::CheckDynamicLimit {
                    dut_index,
                    test_id,
                    lo_raw,
                    hi_raw,
                    default_lo,
                    default_hi,
                    scale,
                    opt_flag,
                } => {
                    let lo_changed = limit_changed(*lo_raw, *default_lo, *scale);
                    let hi_changed = limit_changed(*hi_raw, *default_hi, *scale);
                    let (ul, uh) = dynamic_limit_update(*opt_flag, lo_changed, hi_changed);
                    if ul || uh {
                        db.insert_dynamic_limit(
                            *dut_index,
                            *test_id,
                            if ul { render_scaled(*lo_raw, *scale) } else { None },
                            if uh { render_scaled(*hi_raw, *scale) } else { None },
                        )
                        .unwrap();
                    }
                },
                _ => unreachable!(),
            }
        } else {
            db.execute(act).unwrap();
        }
    }
}

fn feed(db: &mut DataBaseCtx, t: &mut RecordTracker, fid: u64, rec: Record) -> Dispatched {
    let d = process_incoming_record(t, fid, 0, &ByteOrder::LittleEndian, &rec).unwrap();
    run_actions(db, &d.actions);
    d
}

fn ptr_rec(num: u32, name: &str, result: f32, scale: i8, lo: f32, hi: f32) -> Record {
    Record::PTR(PTR {
        test_num: num,
        head_num: 1,
        site_num: 1,
        test_flg: 0,
        result_bits: result.to_bits(),
        test_txt: String::from(name),
        opt_flag: Some(0),
        res_scal: Some(scale),
        lo_limit_bits: Some(lo.to_bits()),
        hi_limit_bits: Some(hi.to_bits()),
        units: Some(String::from("V")),
        lo_spec_bits: None,
        hi_spec_bits: None,
    })
}

fn prr_rec(part: &str, flags: u8) -> Record {
    Record::PRR(PRR {
        head_num: 1,
        site_num: 1,
        part_flg: flags,
        num_test: 1,
        test_t: 100,
        hard_bin: 1,
        soft_bin: 1,
        x_coord: -32768,
        y_coord: -32768,
        part_id: String::from(part),
    })
}

#[test]
fn two_groups_end_to_end() {
    let conn = rusqlite::Connection::open_in_memory().unwrap();
    let mut db = DataBaseCtx::new(conn).unwrap();
    let mut t = RecordTracker::new(TestIDType::TestNumberAndName);
    for fid in 0u64..2 {
        feed(&mut db, &mut t, fid, Record::PIR(PIR { head_num: 1, site_num: 1 }));
        feed(&mut db, &mut t, fid, ptr_rec(100, "VDD", 5.0, 0, 0.0, 10.0));
        feed(&mut db, &mut t, fid, prr_rec("P1", 0));
    }
    run_actions(&mut db, &process_summary_data(&t));
    let conn = db.finalize(true).unwrap();
    let count = |sql: &str| -> i64 { conn.query_row(sql, [], |r| r.get(0)).unwrap() };
    // Exactly two device rows, two test definitions (one TestId per
    // group under NumberAndName), two result rows, and no dynamic
    // limits: nothing drifted.
    assert_eq!(count("SELECT COUNT(*) FROM Dut_Info"), 2);
    assert_eq!(count("SELECT COUNT(*) FROM Test_Info"), 2);
    assert_eq!(count("SELECT COUNT(*) FROM PTR_Data"), 2);
    assert_eq!(count("SELECT COUNT(*) FROM Dynamic_Limits"), 0);
    let result: f64 = conn
        .query_row("SELECT RESULT FROM PTR_Data WHERE DUTIndex=1 AND TEST_ID=0", [], |r| r.get(0))
        .unwrap();
    assert_eq!(result, 5.0);
    let (lo, hi): (f64, f64) = conn
        .query_row("SELECT LLimit, HLimit FROM Test_Info WHERE Fid=0", [], |r| {
            Ok((r.get(0)?, r.get(1)?))
        })
        .unwrap();
    assert_eq!((lo, hi), (0.0, 10.0));
    conn.close().unwrap();
}

#[test]
fn superseded_rows_marked_in_store() {
    let conn = rusqlite::Connection::open_in_memory().unwrap();
    let mut db = DataBaseCtx::new(conn).unwrap();
    let mut t = RecordTracker::new(TestIDType::TestNumberAndName);
    // Device A (head=1, site=1, part "P1").
    feed(&mut db, &mut t, 0, Record::PIR(PIR { head_num: 1, site_num: 1 }));
    feed(&mut db, &mut t, 0, prr_rec("P1", 0));
    // Device B, same key, declares "supersedes same part".
    feed(&mut db, &mut t, 0, Record::PIR(PIR { head_num: 1, site_num: 1 }));
    feed(&mut db, &mut t, 0, prr_rec("P1", 1));
    let conn = db.finalize(false).unwrap();
    let sup = |dut: i64| -> i64 {
        conn.query_row("SELECT Supersede FROM Dut_Info WHERE DUTIndex=?", [dut], |r| r.get(0))
            .unwrap()
    };
    // A's stored row is superseded; B's own row is not.
    assert_eq!(sup(1), 1);
    assert_eq!(sup(2), 0);
    conn.close().unwrap();
}

#[test]
fn scaled_results_are_clamped_and_nan_is_null() {
    let conn = rusqlite::Connection::open_in_memory().unwrap();
    let mut db = DataBaseCtx::new(conn).unwrap();
    let mut t = RecordTracker::new(TestIDType::TestNumberAndName);
    feed(&mut db, &mut t, 0, Record::PIR(PIR { head_num: 1, site_num: 1 }));
    // Scale 1 drives the huge raw value over the representable range:
    // stored as the largest finite value, not infinity.
    feed(&mut db, &mut t, 0, ptr_rec(1, "OVER", f32::MAX, 1, 0.0, 1.0));
    // A negative overflow clamps to the smallest finite value.
    feed(&mut db, &mut t, 0, ptr_rec(2, "UNDER", f32::MIN, 1, 0.0, 1.0));
    // NaN means "no valid result" and stays absent.
    feed(&mut db, &mut t, 0, ptr_rec(3, "NONE", f32::NAN, 0, 0.0, 1.0));
    // A finite value is stored exactly.
    feed(&mut db, &mut t, 0, ptr_rec(4, "FINE", 2.5, 3, 0.0, 1.0));
    let conn = db.finalize(false).unwrap();
    let get = |tid: i64| -> Option<f64> {
        conn.query_row("SELECT RESULT FROM PTR_Data WHERE TEST_ID=?", [tid], |r| r.get(0))
            .unwrap()
    };
    let rel = |a: f64, b: f64| ((a - b) / b).abs() < 1e-9;
    assert!(rel(get(0).unwrap(), f32::MAX as f64));
    assert!(rel(get(1).unwrap(), f32::MIN as f64));
    assert_eq!(get(2), None);
    assert!(rel(get(3).unwrap(), 2500.0));
    conn.close().unwrap();
}

#[test]
fn drifted_limits_write_dynamic_rows() {
    let conn = rusqlite::Connection::open_in_memory().unwrap();
    let mut db = DataBaseCtx::new(conn).unwrap();
    let mut t = RecordTracker::new(TestIDType::TestNumberAndName);
    feed(&mut db, &mut t, 0, Record::PIR(PIR { head_num: 1, site_num: 1 }));
    // First sighting freezes (0.0, 10.0).
    feed(&mut db, &mut t, 0, ptr_rec(100, "VDD", 5.0, 0, 0.0, 10.0));
    // The high limit drifts; the low limit does not.
    feed(&mut db, &mut t, 0, ptr_rec(100, "VDD", 5.0, 0, 0.0, 12.0));
    let conn = db.finalize(false).unwrap();
    let (lo, hi): (Option<f64>, Option<f64>) = conn
        .query_row("SELECT LLimit, HLimit FROM Dynamic_Limits WHERE TEST_ID=0", [], |r| {
            Ok((r.get(0)?, r.get(1)?))
        })
        .unwrap();
    assert_eq!(lo, None);
    assert_eq!(hi, Some(12.0));
    conn.close().unwrap();
}

#[test]
fn pin_tables_round_trip() {
    let conn = rusqlite::Connection::open_in_memory().unwrap();
    let mut db = DataBaseCtx::new(conn).unwrap();
    let mut t = RecordTracker::new(TestIDType::TestNumberAndName);
    feed(&mut db, &mut t, 0, Record::PMR(stdf_ingest::records::PMR {
        head_num: 1,
        site_num: 1,
        pmr_indx: 10,
        chan_typ: 0,
        chan_nam: String::from("ch0"),
        phy_nam: String::new(),
        log_nam: String::new(),
    }));
    feed(&mut db, &mut t, 0, Record::PGR(stdf_ingest::records::PGR {
        grp_indx: 100,
        grp_nam: String::from("bus"),
        pmr_indx: vec![10],
    }));
    feed(&mut db, &mut t, 0, Record::PLR(stdf_ingest::records::PLR {
        grp_cnt: 1,
        grp_indx: vec![100],
        grp_mode: vec![20],
        grp_radx: vec![8],
        pgm_char: vec![String::from("H")],
        pgm_chal: vec![String::new()],
        rtn_char: vec![String::from("L")],
        rtn_chal: vec![String::new()],
    }));
    let conn = db.finalize(false).unwrap();
    // The pin's group membership was back-filled by the group record.
    let from_grp: i64 = conn
        .query_row("SELECT From_GRP FROM Pin_Map WHERE PMR_INDX=10", [], |r| r.get(0))
        .unwrap();
    assert_eq!(from_grp, 100);
    // The pin-list upsert kept the group name recorded earlier.
    let (nam, mode): (String, i64) = conn
        .query_row("SELECT GRP_NAM, GRP_MODE FROM Pin_Info WHERE P_PG_INDX=100", [], |r| {
            Ok((r.get(0)?, r.get(1)?))
        })
        .unwrap();
    assert_eq!(nam, "bus");
    assert_eq!(mode, 20);
    conn.close().unwrap();
}

#[test]
fn multi_result_blob_stored_hex_encoded() {
    let conn = rusqlite::Connection::open_in_memory().unwrap();
    let mut db = DataBaseCtx::new(conn).unwrap();
    let mut t = RecordTracker::new(TestIDType::TestNumberAndName);
    feed(&mut db, &mut t, 0, Record::PIR(PIR { head_num: 1, site_num: 1 }));
    let mpr = stdf_ingest::records::MPR {
        test_num: 7,
        head_num: 1,
        site_num: 1,
        test_flg: 0,
        rtn_icnt: 2,
        rslt_cnt: 2,
        rtn_stat: vec![1, 2],
        rtn_rslt_bits: vec![1.0f32.to_bits(), 2.0f32.to_bits()],
        test_txt: String::from("PINS"),
        opt_flag: Some(0),
        res_scal: Some(0),
        lo_limit_bits: None,
        hi_limit_bits: None,
        rtn_indx: Some(vec![10, 11]),
        units: None,
        lo_spec_bits: None,
        hi_spec_bits: None,
    };
    feed(&mut db, &mut t, 0, Record::MPR(mpr));
    let conn = db.finalize(false).unwrap();
    let (rslt, stat): (String, String) = conn
        .query_row("SELECT RTN_RSLT, RTN_STAT FROM MPR_Data WHERE TEST_ID=0", [], |r| {
            Ok((r.get(0)?, r.get(1)?))
        })
        .unwrap();
    assert_eq!(
        rslt,
        format!(
            "{}{}",
            hex::encode_upper(1.0f32.to_le_bytes()),
            hex::encode_upper(2.0f32.to_le_bytes())
        )
    );
    assert_eq!(stat, "0102");
    let pins: i64 = conn
        .query_row("SELECT COUNT(*) FROM TestPin_Map WHERE TEST_ID=0", [], |r| r.get(0))
        .unwrap();
    assert_eq!(pins, 2);
    conn.close().unwrap();
}
