use stdf_ingest::actions::{PinType, SinkAction};
use stdf_ingest::dispatch::process_incoming_record;
use stdf_ingest::records::{
    ByteOrder, Record, BPS, FTR, MIR, PGR, PIR, PLR, PMR, RDR, SDR, WCR, WIR, WRR,
};
use stdf_ingest::tracker::{RecordTracker, TestIDType};

fn feed(t: &mut RecordTracker, fid: u64, rec: Record) -> Vec<SinkAction> {
    process_incoming_record(t, fid, 0, &ByteOrder::LittleEndian, &rec)
        .unwrap()
        .actions
}

fn blank_mir() -> MIR {
    MIR {
        setup_t: 100,
        start_t: 200,
        stat_num: 1,
        mode_cod: String::from(" "),
        rtst_cod: String::from(" "),
        prot_cod: String::from(" "),
        burn_tim: 65535,
        cmod_cod: String::from(" "),
        lot_id: String::new(),
        part_typ: String::new(),
        node_nam: String::new(),
        tstr_typ: String::new(),
        job_nam: String::new(),
        job_rev: String::new(),
        sblot_id: String::new(),
        oper_nam: String::new(),
        exec_typ: String::new(),
        exec_ver: String::new(),
        test_cod: String::new(),
        tst_temp: String::new(),
        user_txt: String::new(),
        aux_file: String::new(),
        pkg_typ: String::new(),
        famly_id: String::new(),
        date_cod: String::new(),
        facil_id: String::new(),
        floor_id: String::new(),
        proc_id: String::new(),
        oper_frq: String::new(),
        spec_nam: String::new(),
        spec_ver: String::new(),
        flow_id: String::new(),
        setup_id: String::new(),
        dsgn_rev: String::new(),
        eng_id: String::new(),
        rom_cod: String::new(),
        serl_num: String::new(),
        supr_nam: String::new(),
    }
}

fn info_fields(acts: &[SinkAction]) -> Vec<(String, String)> {
    acts.iter()
        .filter_map(|a| match a {
            SinkAction::InsertFileInfo { field, value, .. } => {
                Some((field.clone(), value.clone()))
            },
            _ => None,
        })
        .collect()
}

#[test]
fn mir_emits_identity_and_present_fields_only() {
    let mut t = RecordTracker::new(TestIDType::TestNumberAndName);
    let mut mir = blank_mir();
    mir.lot_id = String::from("LOT42");
    mir.mode_cod = String::from("P");
    let acts = feed(&mut t, 0, Record::MIR(mir));
    match &acts[0] {
        SinkAction::UpdateFileList { group, sub, lot_id, sublot_id, product_id, flow_id } => {
            assert_eq!((*group, *sub), (0, 0));
            assert_eq!(lot_id, "LOT42");
            assert_eq!(sublot_id, "");
            assert_eq!(product_id, "");
            assert_eq!(flow_id, "");
        },
        other => panic!("expected the group identity update, got {:?}", other),
    }
    let infos = info_fields(&acts[1..]);
    let names: Vec<&str> = infos.iter().map(|(n, _)| n.as_str()).collect();
    // The three unconditional rows, plus exactly the two present
    // fields; single-space codes, the 65535 burn time and empty
    // strings are all skipped.
    assert_eq!(names, vec!["SETUP_T", "START_T", "STAT_NUM", "MODE_COD", "LOT_ID"]);
    assert_eq!(infos[2].1, "1");
    assert_eq!(infos[3].1, "P");
    assert_eq!(infos[4].1, "LOT42");
    // The time rows render as local "YYYY-MM-DD HH:MM:SS" text.
    assert_eq!(infos[0].1.len(), 19);
}

#[test]
fn wcr_renders_geometry_and_units() {
    let mut t = RecordTracker::new(TestIDType::TestNumberAndName);
    let wcr = WCR {
        wafr_siz: Some(String::from("200")),
        die_ht: None,
        die_wid: None,
        wf_units: 3,
        wf_flat: String::from("D"),
        center_x: 5,
        center_y: -32768,
        pos_x: String::from("L"),
        pos_y: String::from("U"),
    };
    let infos = info_fields(&feed(&mut t, 0, Record::WCR(wcr)));
    assert_eq!(
        infos,
        vec![
            (String::from("WAFR_SIZ"), String::from("200")),
            (String::from("WF_UNITS"), String::from("mm")),
            (String::from("WF_FLAT"), String::from("D")),
            (String::from("CENTER_X"), String::from("5")),
            (String::from("POS_X"), String::from("L")),
            (String::from("POS_Y"), String::from("U")),
        ]
    );
}

#[test]
fn sdr_names_fields_by_site_group() {
    let mut t = RecordTracker::new(TestIDType::TestNumberAndName);
    let mut sdr = SDR {
        site_grp: 7,
        hand_typ: String::from("gravity"),
        hand_id: String::new(),
        card_typ: String::new(),
        card_id: String::new(),
        load_typ: String::new(),
        load_id: String::new(),
        dib_typ: String::new(),
        dib_id: String::new(),
        cabl_typ: String::new(),
        cabl_id: String::new(),
        cont_typ: String::new(),
        cont_id: String::new(),
        lasr_typ: String::new(),
        lasr_id: String::new(),
        extr_typ: String::new(),
        extr_id: String::new(),
    };
    sdr.extr_id = String::from("X9");
    let infos = info_fields(&feed(&mut t, 0, Record::SDR(sdr)));
    assert_eq!(
        infos,
        vec![
            (String::from("Handler Type (Group 7)"), String::from("gravity")),
            (String::from("Extra Equipment ID (Group 7)"), String::from("X9")),
        ]
    );
}

#[test]
fn rdr_lists_retested_bins() {
    let mut t = RecordTracker::new(TestIDType::TestNumberAndName);
    let infos = info_fields(&feed(
        &mut t,
        0,
        Record::RDR(RDR { num_bins: 3, rtst_bin: vec![1, 5, 9] }),
    ));
    assert_eq!(infos[0], (String::from("Retest Hardware Bins"), String::from("1, 5, 9")));
    let infos = info_fields(&feed(&mut t, 0, Record::RDR(RDR { num_bins: 0, rtst_bin: vec![] })));
    assert_eq!(
        infos[0],
        (
            String::from("Retest Hardware Bins"),
            String::from("All hardware bins are retested"),
        )
    );
}

#[test]
fn pin_records_flow_to_pin_tables() {
    let mut t = RecordTracker::new(TestIDType::TestNumberAndName);
    let pmr = PMR {
        head_num: 1,
        site_num: 1,
        pmr_indx: 10,
        chan_typ: 0,
        chan_nam: String::from("ch0"),
        phy_nam: String::new(),
        log_nam: String::from("d0"),
    };
    let acts = feed(&mut t, 0, Record::PMR(pmr));
    assert_eq!(
        acts,
        vec![SinkAction::InsertPinMap {
            group: 0,
            head: 1,
            site: 1,
            pmr_indx: 10,
            chan_typ: 0,
            chan_nam: Some(String::from("ch0")),
            phy_nam: None,
            log_nam: Some(String::from("d0")),
        }]
    );
    let pgr = PGR { grp_indx: 100, grp_nam: String::from("bus"), pmr_indx: vec![10, 11] };
    let acts = feed(&mut t, 0, Record::PGR(pgr));
    assert_eq!(
        acts,
        vec![
            SinkAction::InsertGrpName { group: 0, grp_indx: 100, grp_nam: String::from("bus") },
            SinkAction::UpdateFromGrp { group: 0, grp_indx: 100, pmr_indx: 10 },
            SinkAction::UpdateFromGrp { group: 0, grp_indx: 100, pmr_indx: 11 },
        ]
    );
    let plr = PLR {
        grp_cnt: 1,
        grp_indx: vec![100],
        grp_mode: vec![20],
        grp_radx: vec![8],
        pgm_char: vec![String::from("H")],
        pgm_chal: vec![String::new()],
        rtn_char: vec![String::from("L")],
        rtn_chal: vec![String::new()],
    };
    let acts = feed(&mut t, 0, Record::PLR(plr));
    assert_eq!(
        acts,
        vec![SinkAction::InsertPinInfo {
            group: 0,
            p_pg_indx: 100,
            grp_mode: 20,
            grp_radx: 8,
            pgm_char: Some(String::from("H")),
            pgm_chal: None,
            rtn_char: Some(String::from("L")),
            rtn_chal: None,
        }]
    );
}

#[test]
fn wafer_rows_on_start_and_end() {
    let mut t = RecordTracker::new(TestIDType::TestNumberAndName);
    let acts = feed(&mut t, 0, Record::WIR(WIR { head_num: 1, wafer_id: String::from("W1") }));
    match &acts[0] {
        SinkAction::InsertWafer { wafer_index, part_cnt, wafer_id, .. } => {
            assert_eq!(*wafer_index, 1);
            assert_eq!(*part_cnt, None);
            assert_eq!(wafer_id, "W1");
        },
        other => panic!("expected a wafer row, got {:?}", other),
    }
    let wrr = WRR {
        head_num: 1,
        part_cnt: 50,
        rtst_cnt: 1,
        abrt_cnt: 0,
        good_cnt: 49,
        func_cnt: 49,
        wafer_id: String::from("W1"),
        fabwf_id: String::new(),
        frame_id: String::new(),
        mask_id: String::new(),
        usr_desc: String::new(),
        exc_desc: String::new(),
    };
    let acts = feed(&mut t, 0, Record::WRR(wrr));
    match &acts[0] {
        SinkAction::InsertWafer { wafer_index, part_cnt, good_cnt, .. } => {
            assert_eq!(*wafer_index, 1);
            assert_eq!(*part_cnt, Some(50));
            assert_eq!(*good_cnt, Some(49));
        },
        other => panic!("expected a wafer row, got {:?}", other),
    }
    // A wafer end with no matching start is an ordering error.
    let mut t2 = RecordTracker::new(TestIDType::TestNumberAndName);
    let wrr = WRR {
        head_num: 9,
        part_cnt: 0,
        rtst_cnt: 0,
        abrt_cnt: 0,
        good_cnt: 0,
        func_cnt: 0,
        wafer_id: String::new(),
        fabwf_id: String::new(),
        frame_id: String::new(),
        mask_id: String::new(),
        usr_desc: String::new(),
        exc_desc: String::new(),
    };
    let e = process_incoming_record(&mut t2, 0, 0, &ByteOrder::LittleEndian, &Record::WRR(wrr))
        .unwrap_err();
    assert_eq!(
        e.message(),
        "STDF file structure error in File[0]: WRR Head[9] showed up before WIR"
    );
}

#[test]
fn open_sections_become_seq_name_and_close_at_device_end() {
    let mut t = RecordTracker::new(TestIDType::TestNumberAndName);
    feed(&mut t, 0, Record::BPS(BPS { seq_name: String::from("dc") }));
    feed(&mut t, 0, Record::BPS(BPS { seq_name: String::from("leak") }));
    feed(&mut t, 0, Record::PIR(PIR { head_num: 1, site_num: 1 }));
    // A functional test sighted inside the open sections carries their
    // joined path as its SEQ_NAME.
    let ftr = FTR {
        test_num: 9,
        head_num: 1,
        site_num: 1,
        test_flg: 0,
        opt_flag: 0,
        rtn_icnt: 1,
        pgm_icnt: 1,
        rtn_indx: vec![3],
        pgm_indx: vec![4],
        vect_nam: String::from("vec1"),
        test_txt: String::from("FUNC"),
    };
    let acts = feed(&mut t, 0, Record::FTR(ftr));
    assert_eq!(acts.len(), 4);
    assert!(matches!(acts[0], SinkAction::InsertFtrData { dut_index: 1, test_id: 0, .. }));
    match &acts[1] {
        SinkAction::InsertTestInfo { rec_header, vect_nam, seq_name, rtn_icnt, rslt_pgm_cnt, .. } => {
            assert_eq!(*rec_header, 20);
            assert_eq!(vect_nam.as_deref(), Some("vec1"));
            assert_eq!(seq_name.as_deref(), Some("dc;leak"));
            assert_eq!(*rtn_icnt, Some(1));
            assert_eq!(*rslt_pgm_cnt, Some(1));
        },
        other => panic!("expected a test definition row, got {:?}", other),
    }
    assert_eq!(
        acts[2],
        SinkAction::InsertTestPin { test_id: 0, pmr_indx: 3, pin_type: PinType::Rtn }
    );
    assert_eq!(
        acts[3],
        SinkAction::InsertTestPin { test_id: 0, pmr_indx: 4, pin_type: PinType::Pgm }
    );
    // The device end closes every open section.
    let prr = stdf_ingest::records::PRR {
        head_num: 1,
        site_num: 1,
        part_flg: 0,
        num_test: 1,
        test_t: 5,
        hard_bin: 1,
        soft_bin: 1,
        x_coord: -32768,
        y_coord: -32768,
        part_id: String::from("P1"),
    };
    feed(&mut t, 0, Record::PRR(prr));
    assert_eq!(t.get_program_section(0).unwrap(), "");
}
