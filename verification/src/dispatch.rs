//! The writer's dispatch: one incoming record becomes tracker updates
//! plus an ordered list of relational write actions.
//!
//! Each record kind has a handler whose contract states which actions
//! come out, in which order, and how the tracker state moves.  A
//! structurally invalid record is fatal; a summary record that matches
//! no known test only yields a warning and the run continues.

use vstd::prelude::*;
use crate::actions::{DatalogKind, PinType, RealField, SinkAction};
use crate::errors::StdfHelperError;
use crate::fbits::{option_value, resolved_option_value};
use crate::hexblob::stat_blob_hex;
use crate::records::{ByteOrder, Record, DTR, FAR, FTR, MPR, PCR, PIR, PRR, PTR, VUR, WIR, WRR};
use crate::strings::{dec_str, hex_upper_seq, u64_to_string};
use crate::tracker::{joined_sections, test_key, GroupView, RecordTracker};

verus! {

/// What processing one record produced: the ordered write actions and
/// any non-fatal warnings to log.
#[derive(Debug)]
pub struct Dispatched {
    pub actions: Vec<SinkAction>,
    pub warnings: Vec<String>,
}

/// The action is one (field, value) metadata row of (group, sub).
pub open spec fn is_info(a: SinkAction, g: u64, sb: u64, field: Seq<char>, value: Seq<char>) -> bool {
    &&& a matches SinkAction::InsertFileInfo { group, sub, field: f, value: v }
    &&& group == g
    &&& sub == sb
    &&& f@ == field
    &&& v@ == value
}

/// The rows of a metadata table that are marked for emission, in order.
pub open spec fn filtered_rows(rows: Seq<(Seq<char>, Seq<char>, bool)>) -> Seq<
    (Seq<char>, Seq<char>),
>
    decreases rows.len(),
{
    if rows.len() == 0 {
        Seq::empty()
    } else {
        filtered_rows(rows.drop_last()) + (if rows.last().2 {
            seq![(rows.last().0, rows.last().1)]
        } else {
            Seq::empty()
        })
    }
}

/// The actions are exactly the metadata rows of `entries`, in order.
pub open spec fn infos_match(
    acts: Seq<SinkAction>,
    g: u64,
    sb: u64,
    entries: Seq<(Seq<char>, Seq<char>)>,
) -> bool {
    &&& acts.len() == entries.len()
    &&& forall|i: int| 0 <= i < acts.len() ==> is_info(#[trigger] acts[i], g, sb, entries[i].0, entries[i].1)
}

/// One candidate metadata row: emitted only when `emit` holds.
pub struct InfoRow {
    pub name: String,
    pub value: String,
    pub emit: bool,
}

impl View for InfoRow {
    type V = (Seq<char>, Seq<char>, bool);

    open spec fn view(&self) -> (Seq<char>, Seq<char>, bool) {
        (self.name@, self.value@, self.emit)
    }
}

/// The views of a row table.
pub open spec fn rows_view(rows: Seq<InfoRow>) -> Seq<(Seq<char>, Seq<char>, bool)> {
    rows.map_values(|r: InfoRow| r@)
}

/// Emits the included rows of a metadata table, in order.
fn emit_infos(g: u64, sb: u64, rows: &Vec<InfoRow>) -> (acts: Vec<SinkAction>)
    ensures
        infos_match(acts@, g, sb, filtered_rows(rows_view(rows@))),
{
    let mut acts: Vec<SinkAction> = Vec::new();
    let mut i: usize = 0;
    while i < rows.len()
        invariant
            i <= rows@.len(),
            infos_match(acts@, g, sb, filtered_rows(rows_view(rows@).take(i as int))),
        decreases rows@.len() - i,
    {
        if rows[i].emit {
            acts.push(
                SinkAction::InsertFileInfo {
                    group: g,
                    sub: sb,
                    field: rows[i].name.clone(),
                    value: rows[i].value.clone(),
                },
            );
        }
        proof {
            let rv = rows_view(rows@);
            assert(rv.take(i as int + 1).drop_last() =~= rv.take(i as int));
            assert(rv.take(i as int + 1).last() == rv[i as int]);
            if rows@[i as int].emit {
                assert(filtered_rows(rv.take(i as int + 1)) =~= filtered_rows(rv.take(i as int))
                    + seq![(rv[i as int].0, rv[i as int].1)]);
            } else {
                assert(filtered_rows(rv.take(i as int + 1)) =~= filtered_rows(rv.take(i as int)));
            }
        }
        i = i + 1;
    }
    proof {
        assert(rows_view(rows@).take(rows@.len() as int) =~= rows_view(rows@));
    }
    acts
}

/// The SI prefix a result scale puts before the unit text.
pub open spec fn spec_unit_prefix(scale: int) -> Seq<char> {
    if scale == 15 {
        "f"@
    } else if scale == 12 {
        "p"@
    } else if scale == 9 {
        "n"@
    } else if scale == 6 {
        "u"@
    } else if scale == 3 {
        "m"@
    } else if scale == 2 {
        "%"@
    } else if scale == -3 {
        "K"@
    } else if scale == -6 {
        "M"@
    } else if scale == -9 {
        "G"@
    } else if scale == -12 {
        "T"@
    } else {
        ""@
    }
}

/// The unit text of a test: the scale's SI prefix before the base
/// unit, or empty when the record carried no unit.
pub open spec fn spec_scaled_unit(units: Option<Seq<char>>, scale: int) -> Seq<char> {
    match units {
        Some(u) => spec_unit_prefix(scale) + u,
        None => Seq::empty(),
    }
}

fn unit_prefix(scale: i32) -> (r: &'static str)
    ensures
        r@ == spec_unit_prefix(scale as int),
{
    if scale == 15 {
        "f"
    } else if scale == 12 {
        "p"
    } else if scale == 9 {
        "n"
    } else if scale == 6 {
        "u"
    } else if scale == 3 {
        "m"
    } else if scale == 2 {
        "%"
    } else if scale == -3 {
        "K"
    } else if scale == -6 {
        "M"
    } else if scale == -9 {
        "G"
    } else if scale == -12 {
        "T"
    } else {
        ""
    }
}

fn scale_unit(units: &Option<String>, scale: i32) -> (r: String)
    ensures
        r@ == spec_scaled_unit(
            match *units {
                Some(u) => Some(u@),
                None => None,
            },
            scale as int,
        ),
{
    match units {
        Some(u) => {
            let mut s = String::from_str(unit_prefix(scale));
            s.append(u.as_str());
            s
        },
        None => String::new(),
    }
}

/// The pin membership rows of a test, one per index, in order.
pub open spec fn pins_of(test_id: u64, idxs: Seq<u16>, ty: PinType) -> Seq<SinkAction> {
    Seq::new(
        idxs.len(),
        |i: int| SinkAction::InsertTestPin { test_id, pmr_indx: idxs[i], pin_type: ty },
    )
}

fn push_pins(acts: &mut Vec<SinkAction>, test_id: u64, idxs: &Vec<u16>, ty: PinType)
    ensures
        final(acts)@ == old(acts)@ + pins_of(test_id, idxs@, ty),
{
    let mut i: usize = 0;
    while i < idxs.len()
        invariant
            i <= idxs@.len(),
            acts@ == old(acts)@ + pins_of(test_id, idxs@, ty).take(i as int),
        decreases idxs@.len() - i,
    {
        acts.push(SinkAction::InsertTestPin { test_id, pmr_indx: idxs[i], pin_type: ty });
        proof {
            assert(pins_of(test_id, idxs@, ty).take(i as int + 1) =~= pins_of(
                test_id,
                idxs@,
                ty,
            ).take(i as int).push(pins_of(test_id, idxs@, ty)[i as int]));
            assert(acts@ =~= old(acts)@ + pins_of(test_id, idxs@, ty).take(i as int + 1));
        }
        i = i + 1;
    }
    proof {
        assert(pins_of(test_id, idxs@, ty).take(idxs@.len() as int) =~= pins_of(
            test_id,
            idxs@,
            ty,
        ));
    }
}

/// Whether this is the first result record sighted for the test key:
/// either the key is unknown, or it was created without a result scale.
pub open spec fn first_sight(t: RecordTracker, fid: u64, num: u32, name: Seq<char>) -> bool {
    let k = test_key(t.policy, fid, num, name);
    !t.test_map().contains_key(k) || t.tests@[t.test_map()[k]].scale is None
}

/// The result scale a record resolves to: the frozen one if the test
/// was sighted, else the record's own (0 when absent), frozen now.
pub open spec fn spec_effective_scale(
    t: RecordTracker,
    fid: u64,
    num: u32,
    name: Seq<char>,
    res_scal: Option<i8>,
) -> int {
    let k = test_key(t.policy, fid, num, name);
    if t.test_map().contains_key(k) && t.tests@[t.test_map()[k]].scale is Some {
        t.tests@[t.test_map()[k]].scale->0 as int
    } else {
        match res_scal {
            Some(v) => v as int,
            None => 0,
        }
    }
}

/// The test id a record resolves to: the known one, or the next free
/// dense id.
pub open spec fn spec_resolved_id(t: RecordTracker, fid: u64, num: u32, name: Seq<char>) -> int {
    let k = test_key(t.policy, fid, num, name);
    if t.test_map().contains_key(k) {
        t.test_map()[k]
    } else {
        t.tests@.len() as int
    }
}

/// A device start's actions: exactly the identity row of the new
/// device.
pub open spec fn pir_actions(fid: u64, rec: PIR, dut_index: u64) -> Seq<SinkAction> {
    seq![
        SinkAction::InsertDut {
            group: fid,
            head: rec.head_num,
            site: rec.site_num,
            dut_index,
        },
    ]
}

fn on_pir_rec(tracker: &mut RecordTracker, fid: u64, rec: &PIR) -> (acts: Vec<SinkAction>)
    requires
        old(tracker).wf(),
        old(tracker).spec_counters_ok(),
    ensures
        final(tracker).wf(),
        final(tracker).policy == old(tracker).policy,
        acts@ == pir_actions(fid, *rec, (old(tracker).spec_dut_total(fid) + 1) as u64),
        final(tracker).dut_map() == old(tracker).dut_map().insert(
            (fid, rec.head_num, rec.site_num),
            (old(tracker).spec_dut_total(fid) + 1) as u64,
        ),
        final(tracker).group_map() == old(tracker).group_map().insert(
            fid,
            GroupView {
                dut_total: (old(tracker).spec_dut_total(fid) + 1) as u64,
                wafer_total: old(tracker).spec_wafer_total(fid),
                before_prr: true,
                sections: old(tracker).spec_sections(fid),
            },
        ),
        final(tracker).tests == old(tracker).tests,
        final(tracker).wafers == old(tracker).wafers,
        final(tracker).hbins == old(tracker).hbins,
        final(tracker).sbins == old(tracker).sbins,
        forall|k: (u64, u8, u8)|
            #[trigger] old(tracker).dut_map().contains_key(k) && k.0 == fid ==> old(
                tracker,
            ).dut_map()[k] < old(tracker).spec_dut_total(fid) + 1,
{
    let dut_index = tracker.pir_detected(fid, rec.head_num, rec.site_num);
    let mut acts: Vec<SinkAction> = Vec::new();
    acts.push(
        SinkAction::InsertDut { group: fid, head: rec.head_num, site: rec.site_num, dut_index },
    );
    proof {
        assert(acts@ =~= pir_actions(fid, *rec, dut_index));
    }
    acts
}

/// A part-count record's actions: exactly its counts row.
pub open spec fn pcr_actions(fid: u64, rec: PCR) -> Seq<SinkAction> {
    seq![
        SinkAction::InsertDutCnt {
            group: fid,
            head: rec.head_num,
            site: rec.site_num,
            part_cnt: rec.part_cnt,
            rtst_cnt: rec.rtst_cnt,
            abrt_cnt: rec.abrt_cnt,
            good_cnt: rec.good_cnt,
            func_cnt: rec.func_cnt,
        },
    ]
}

fn on_pcr_rec(fid: u64, rec: &PCR) -> (acts: Vec<SinkAction>)
    ensures
        acts@ == pcr_actions(fid, *rec),
{
    let mut acts: Vec<SinkAction> = Vec::new();
    acts.push(
        SinkAction::InsertDutCnt {
            group: fid,
            head: rec.head_num,
            site: rec.site_num,
            part_cnt: rec.part_cnt,
            rtst_cnt: rec.rtst_cnt,
            abrt_cnt: rec.abrt_cnt,
            good_cnt: rec.good_cnt,
            func_cnt: rec.func_cnt,
        },
    );
    proof {
        assert(acts@ =~= pcr_actions(fid, *rec));
    }
    acts
}

fn on_dtr_rec(tracker: &RecordTracker, fid: u64, rec: &DTR) -> (acts: Vec<SinkAction>)
    requires
        tracker.wf(),
    ensures
        acts@.len() == 1,
        acts@[0] matches SinkAction::InsertDatalog {
            group,
            kind,
            value,
            after_dut_index,
            is_before_prr,
        } && group == fid && kind == DatalogKind::Dtr && value@ == rec.text_dat@ && after_dut_index
            == tracker.spec_dut_total(fid) && is_before_prr == tracker.spec_before_prr(fid),
{
    let (dut_index, before) = tracker.get_datalog_relative_pos(fid);
    let mut acts: Vec<SinkAction> = Vec::new();
    acts.push(
        SinkAction::InsertDatalog {
            group: fid,
            kind: DatalogKind::Dtr,
            value: rec.text_dat.clone(),
            after_dut_index: dut_index,
            is_before_prr: before,
        },
    );
    acts
}

fn on_vur_rec(fid: u64, sb: u64, rec: &VUR) -> (acts: Vec<SinkAction>)
    ensures
        acts@.len() == 1,
        is_info(acts@[0], fid, sb, "STDF Version"@, rec.upd_nam@),
{
    let mut acts: Vec<SinkAction> = Vec::new();
    acts.push(
        SinkAction::InsertFileInfo {
            group: fid,
            sub: sb,
            field: String::from_str("STDF Version"),
            value: rec.upd_nam.clone(),
        },
    );
    acts
}

fn on_far_rec(fid: u64, sb: u64, order: &ByteOrder, rec: &FAR) -> (acts: Vec<SinkAction>)
    ensures
        acts@.len() == 2,
        is_info(acts@[0], fid, sb, "STDF Version"@, dec_str(rec.stdf_ver as nat)),
        is_info(
            acts@[1],
            fid,
            sb,
            "BYTE_ORD"@,
            if order is LittleEndian {
                "Little endian"@
            } else {
                "Big endian"@
            },
        ),
{
    let mut acts: Vec<SinkAction> = Vec::new();
    acts.push(
        SinkAction::InsertFileInfo {
            group: fid,
            sub: sb,
            field: String::from_str("STDF Version"),
            value: u64_to_string(rec.stdf_ver as u64),
        },
    );
    let ord = match order {
        ByteOrder::LittleEndian => String::from_str("Little endian"),
        ByteOrder::BigEndian => String::from_str("Big endian"),
    };
    acts.push(
        SinkAction::InsertFileInfo {
            group: fid,
            sub: sb,
            field: String::from_str("BYTE_ORD"),
            value: ord,
        },
    );
    acts
}

/// A wafer start's actions: the wafer row with its id, counts still
/// unknown.
pub open spec fn wir_actions(fid: u64, rec: WIR, wafer_index: u64) -> Seq<SinkAction> {
    seq![
        SinkAction::InsertWafer {
            group: fid,
            head: rec.head_num,
            wafer_index,
            part_cnt: None,
            rtst_cnt: None,
            abrt_cnt: None,
            good_cnt: None,
            func_cnt: None,
            wafer_id: rec.wafer_id,
            fabwf_id: None,
            frame_id: None,
            mask_id: None,
            usr_desc: None,
            exc_desc: None,
        },
    ]
}

fn on_wir_rec(tracker: &mut RecordTracker, fid: u64, rec: &WIR) -> (acts: Vec<SinkAction>)
    requires
        old(tracker).wf(),
        old(tracker).spec_counters_ok(),
    ensures
        final(tracker).wf(),
        final(tracker).policy == old(tracker).policy,
        acts@ == wir_actions(fid, *rec, (old(tracker).spec_wafer_total(fid) + 1) as u64),
        final(tracker).wafer_map() == old(tracker).wafer_map().insert(
            (fid, rec.head_num),
            (old(tracker).spec_wafer_total(fid) + 1) as u64,
        ),
        final(tracker).group_map() == old(tracker).group_map().insert(
            fid,
            GroupView {
                dut_total: old(tracker).spec_dut_total(fid),
                wafer_total: (old(tracker).spec_wafer_total(fid) + 1) as u64,
                before_prr: old(tracker).spec_before_prr(fid),
                sections: old(tracker).spec_sections(fid),
            },
        ),
        final(tracker).tests == old(tracker).tests,
        final(tracker).duts == old(tracker).duts,
        final(tracker).hbins == old(tracker).hbins,
        final(tracker).sbins == old(tracker).sbins,
{
    let wafer_index = tracker.wir_detected(fid, rec.head_num);
    let mut acts: Vec<SinkAction> = Vec::new();
    acts.push(
        SinkAction::InsertWafer {
            group: fid,
            head: rec.head_num,
            wafer_index,
            part_cnt: None,
            rtst_cnt: None,
            abrt_cnt: None,
            good_cnt: None,
            func_cnt: None,
            wafer_id: rec.wafer_id.clone(),
            fabwf_id: None,
            frame_id: None,
            mask_id: None,
            usr_desc: None,
            exc_desc: None,
        },
    );
    proof {
        assert(acts@ =~= wir_actions(fid, *rec, wafer_index));
    }
    acts
}

/// A wafer end's actions: the full wafer row with final counts.
pub open spec fn wrr_actions(fid: u64, rec: WRR, wafer_index: u64) -> Seq<SinkAction> {
    seq![
        SinkAction::InsertWafer {
            group: fid,
            head: rec.head_num,
            wafer_index,
            part_cnt: Some(rec.part_cnt),
            rtst_cnt: Some(rec.rtst_cnt),
            abrt_cnt: Some(rec.abrt_cnt),
            good_cnt: Some(rec.good_cnt),
            func_cnt: Some(rec.func_cnt),
            wafer_id: rec.wafer_id,
            fabwf_id: Some(rec.fabwf_id),
            frame_id: Some(rec.frame_id),
            mask_id: Some(rec.mask_id),
            usr_desc: Some(rec.usr_desc),
            exc_desc: Some(rec.exc_desc),
        },
    ]
}

fn on_wrr_rec(tracker: &RecordTracker, fid: u64, rec: &WRR) -> (r: Result<
    Vec<SinkAction>,
    StdfHelperError,
>)
    requires
        tracker.wf(),
    ensures
        match r {
            Ok(acts) => tracker.wafer_map().contains_key((fid, rec.head_num)) && acts@
                == wrr_actions(fid, *rec, tracker.wafer_map()[(fid, rec.head_num)]),
            Err(e) => !tracker.wafer_map().contains_key((fid, rec.head_num)) && e
                == (StdfHelperError::WaferOrdering { group: fid, head: rec.head_num }),
        },
{
    let wafer_index = tracker.get_wafer_index(fid, rec.head_num)?;
    let mut acts: Vec<SinkAction> = Vec::new();
    acts.push(
        SinkAction::InsertWafer {
            group: fid,
            head: rec.head_num,
            wafer_index,
            part_cnt: Some(rec.part_cnt),
            rtst_cnt: Some(rec.rtst_cnt),
            abrt_cnt: Some(rec.abrt_cnt),
            good_cnt: Some(rec.good_cnt),
            func_cnt: Some(rec.func_cnt),
            wafer_id: rec.wafer_id.clone(),
            fabwf_id: Some(rec.fabwf_id.clone()),
            frame_id: Some(rec.frame_id.clone()),
            mask_id: Some(rec.mask_id.clone()),
            usr_desc: Some(rec.usr_desc.clone()),
            exc_desc: Some(rec.exc_desc.clone()),
        },
    );
    proof {
        assert(acts@ =~= wrr_actions(fid, *rec, wafer_index));
    }
    Ok(acts)
}

/// The action is the definition row of a test, with every field
/// pinned.
pub open spec fn is_test_info(
    a: SinkAction,
    fid: u64,
    tid: int,
    num: u32,
    header: u8,
    name: Seq<char>,
    res_scal: Option<i8>,
    lo: RealField,
    hi: RealField,
    unit: Seq<char>,
    opt: Option<u8>,
    icnt: Option<u16>,
    pgm: Option<u16>,
    lo_sp: RealField,
    hi_sp: RealField,
    vect: Option<Seq<char>>,
    sections: Option<Seq<Seq<char>>>,
) -> bool {
    &&& a matches SinkAction::InsertTestInfo {
        group,
        test_id,
        test_num,
        rec_header,
        test_name,
        res_scal: rs,
        lo_limit,
        hi_limit,
        unit: u,
        opt_flag,
        rtn_icnt,
        rslt_pgm_cnt,
        lo_spec,
        hi_spec,
        vect_nam,
        seq_name,
    }
    &&& group == fid
    &&& test_id == tid
    &&& test_num == num
    &&& rec_header == header
    &&& test_name@ == name
    &&& rs == res_scal
    &&& lo_limit == lo
    &&& hi_limit == hi
    &&& u@ == unit
    &&& opt_flag == opt
    &&& rtn_icnt == icnt
    &&& rslt_pgm_cnt == pgm
    &&& lo_spec == lo_sp
    &&& hi_spec == hi_sp
    &&& (match (vect_nam, vect) {
        (Some(v), Some(w)) => v@ == w,
        (None, None) => true,
        _ => false,
    })
    &&& (match (seq_name, sections) {
        (Some(s), Some(ss)) => s@ == joined_sections(ss),
        (None, None) => true,
        _ => false,
    })
}

/// After a result record, the tracker's test table: unchanged but for
/// the resolved entry, which now carries the frozen scale (and, for a
/// scalar first sighting, the frozen default limits).
pub open spec fn tests_after_result(
    t0: RecordTracker,
    t1: RecordTracker,
    fid: u64,
    num: u32,
    name: Seq<char>,
    sc: int,
    defaults: Option<(u32, u32)>,
) -> bool {
    let tid = spec_resolved_id(t0, fid, num, name);
    let k = test_key(t0.policy, fid, num, name);
    &&& t1.tests@.len() == (if t0.test_map().contains_key(k) {
        t0.tests@.len() as int
    } else {
        t0.tests@.len() as int + 1
    })
    &&& forall|j: int| 0 <= j < t0.tests@.len() && j != tid ==> t1.tests@[j] == t0.tests@[j]
    &&& t1.test_map() == t0.test_map().insert(k, tid)
    &&& t1.tests@[tid].group == fid
    &&& t1.tests@[tid].test_num == num
    &&& t1.tests@[tid].test_name@ == (if t0.test_map().contains_key(k) {
        t0.tests@[tid].test_name@
    } else {
        name
    })
    &&& t1.tests@[tid].scale == Some(sc as i32)
    &&& (match defaults {
        Some((lo, hi)) => {
            &&& t1.tests@[tid].default_lo == (if t0.test_map().contains_key(k)
                && t0.tests@[tid].default_lo is Some {
                t0.tests@[tid].default_lo
            } else {
                Some(lo)
            })
            &&& t1.tests@[tid].default_hi == (if t0.test_map().contains_key(k)
                && t0.tests@[tid].default_hi is Some {
                t0.tests@[tid].default_hi
            } else {
                Some(hi)
            })
        },
        None => t1.tests@[tid].default_lo == (if t0.test_map().contains_key(k) {
            t0.tests@[tid].default_lo
        } else {
            None::<u32>
        }) && t1.tests@[tid].default_hi == (if t0.test_map().contains_key(k) {
            t0.tests@[tid].default_hi
        } else {
            None::<u32>
        }),
    })
}

/// The full outcome relation of the handler: tracker movement,
/// emitted actions and error conditions.
pub open spec fn ptr_outcome(
    t0: RecordTracker,
    t1: RecordTracker,
    fid: u64,
    rec: PTR,
    r: Result<Vec<SinkAction>, StdfHelperError>,
) -> bool {
            let name = rec.test_txt@;
            let dk = (fid, rec.head_num, rec.site_num);
            let tid = spec_resolved_id(t0, fid, rec.test_num, name);
            let sc = spec_effective_scale(t0, fid, rec.test_num, name, rec.res_scal);
            let lo = resolved_option_value(rec.lo_limit_bits, rec.opt_flag, 0x50);
            let hi = resolved_option_value(rec.hi_limit_bits, rec.opt_flag, 0xA0);
            match r {
                Err(e) => {
                    ||| {
                        &&& !t0.dut_map().contains_key(dk)
                        &&& e == (StdfHelperError::DeviceOrdering {
                            group: fid,
                            head: rec.head_num,
                            site: rec.site_num,
                            test_num: Some(rec.test_num),
                        })
                        &&& t1.tests == t0.tests
                    }
                    ||| {
                        &&& t0.dut_map().contains_key(dk)
                        &&& !first_sight(t0, fid, rec.test_num, name)
                        &&& rec.opt_flag is Some
                        &&& (t0.tests@[tid].default_lo is None || t0.tests@[tid].default_hi is None)
                        &&& e == (StdfHelperError::MissingDefaultLimits { test_id: tid as u64 })
                        &&& t1.tests == t0.tests
                    }
                },
                Ok(acts) => {
                    &&& t0.dut_map().contains_key(dk)
                    &&& acts@.len() >= 1
                    &&& acts@[0] == (SinkAction::InsertPtrData {
                        dut_index: t0.dut_map()[dk],
                        test_id: tid as u64,
                        result: RealField::Value { bits: rec.result_bits, scale: sc as i32 },
                        test_flg: rec.test_flg,
                    })
                    &&& (if first_sight(t0, fid, rec.test_num, name) {
                        &&& acts@.len() == 2
                        &&& is_test_info(
                            acts@[1],
                            fid,
                            tid,
                            rec.test_num,
                            10,
                            name,
                            rec.res_scal,
                            RealField::Value { bits: lo, scale: sc as i32 },
                            RealField::Value { bits: hi, scale: sc as i32 },
                            spec_scaled_unit(
                                match rec.units {
                                    Some(u) => Some(u@),
                                    None => None,
                                },
                                sc,
                            ),
                            rec.opt_flag,
                            None,
                            None,
                            RealField::Value {
                                bits: resolved_option_value(rec.lo_spec_bits, rec.opt_flag, 0x04),
                                scale: sc as i32,
                            },
                            RealField::Value {
                                bits: resolved_option_value(rec.hi_spec_bits, rec.opt_flag, 0x08),
                                scale: sc as i32,
                            },
                            None,
                            t0.spec_sections(fid),
                        )
                        &&& tests_after_result(
                            t0,
                            t1,
                            fid,
                            rec.test_num,
                            name,
                            sc,
                            Some((lo, hi)),
                        )
                    } else {
                        &&& t1.tests == t0.tests
                        &&& (match rec.opt_flag {
                            Some(opt) => acts@.len() == 2 && acts@[1] == (
                            SinkAction::CheckDynamicLimit {
                                dut_index: t0.dut_map()[dk],
                                test_id: tid as u64,
                                lo_raw: lo,
                                hi_raw: hi,
                                default_lo: t0.tests@[tid].default_lo->0,
                                default_hi: t0.tests@[tid].default_hi->0,
                                scale: sc as i32,
                                opt_flag: opt,
                            }),
                            None => acts@.len() == 1,
                        })
                    })
                },
            }
        }

/// A scalar test result.  On the first sighting of the test the
/// record's scale and limits are frozen and the test-definition row is
/// emitted; on later sightings that carry an option flag, the limits
/// are handed to the host to compare against the frozen defaults.  A
/// result for a device that never started is a fatal ordering error
/// and emits nothing.
fn on_ptr_rec(tracker: &mut RecordTracker, fid: u64, rec: &PTR) -> (r: Result<
    Vec<SinkAction>,
    StdfHelperError,
>)
    requires
        old(tracker).wf(),
    ensures
        final(tracker).wf(),
        final(tracker).policy == old(tracker).policy,
        final(tracker).duts == old(tracker).duts,
        final(tracker).wafers == old(tracker).wafers,
        final(tracker).groups == old(tracker).groups,
        final(tracker).hbins == old(tracker).hbins,
        final(tracker).sbins == old(tracker).sbins,
        ptr_outcome(*old(tracker), *final(tracker), fid, *rec, r),
{
    let (dut_index, test_id) = tracker.xtr_detected(
        fid,
        rec.head_num,
        rec.site_num,
        rec.test_num,
        &rec.test_txt,
    )?;
    let (exist, scale) = tracker.update_scale(test_id, &rec.res_scal);
    let mut acts: Vec<SinkAction> = Vec::new();
    acts.push(
        SinkAction::InsertPtrData {
            dut_index,
            test_id: test_id as u64,
            result: RealField::Value { bits: rec.result_bits, scale },
            test_flg: rec.test_flg,
        },
    );
    if !exist {
        let lo_limit = option_value(&rec.lo_limit_bits, &rec.opt_flag, 0x50);
        let hi_limit = option_value(&rec.hi_limit_bits, &rec.opt_flag, 0xA0);
        let lo_spec = option_value(&rec.lo_spec_bits, &rec.opt_flag, 0x04);
        let hi_spec = option_value(&rec.hi_spec_bits, &rec.opt_flag, 0x08);
        let unit = scale_unit(&rec.units, scale);
        tracker.update_default_limits(test_id, lo_limit, hi_limit);
        let seq_name = tracker.get_program_section(fid);
        acts.push(
            SinkAction::InsertTestInfo {
                group: fid,
                test_id: test_id as u64,
                test_num: rec.test_num,
                rec_header: 10,
                test_name: rec.test_txt.clone(),
                res_scal: rec.res_scal,
                lo_limit: RealField::Value { bits: lo_limit, scale },
                hi_limit: RealField::Value { bits: hi_limit, scale },
                unit,
                opt_flag: rec.opt_flag,
                rtn_icnt: None,
                rslt_pgm_cnt: None,
                lo_spec: RealField::Value { bits: lo_spec, scale },
                hi_spec: RealField::Value { bits: hi_spec, scale },
                vect_nam: None,
                seq_name,
            },
        );
        proof {
            let t0 = *old(tracker);
            let name = rec.test_txt@;
            let k = test_key(t0.policy, fid, rec.test_num, name);
            let tid = spec_resolved_id(t0, fid, rec.test_num, name);
            assert(final(tracker).test_map() =~= t0.test_map().insert(k, tid));
            assert(tid == test_id as int);
            if t0.test_map().contains_key(k) {
                crate::tracker::lemma_tests_map_index(t0.policy, t0.tests@, k);
            }
        }
    } else {
        match rec.opt_flag {
            Some(opt) => {
                let lo_limit = option_value(&rec.lo_limit_bits, &rec.opt_flag, 0x50);
                let hi_limit = option_value(&rec.hi_limit_bits, &rec.opt_flag, 0xA0);
                let (default_lo, default_hi) = tracker.default_limits(test_id)?;
                acts.push(
                    SinkAction::CheckDynamicLimit {
                        dut_index,
                        test_id: test_id as u64,
                        lo_raw: lo_limit,
                        hi_raw: hi_limit,
                        default_lo,
                        default_hi,
                        scale,
                        opt_flag: opt,
                    },
                );
            },
            None => {},
        }
        proof {
            assert(final(tracker).test_map() =~= old(tracker).test_map().insert(
                test_key(old(tracker).policy, fid, rec.test_num, rec.test_txt@),
                test_id as int,
            ));
        }
    }
    Ok(acts)
}

/// The full outcome relation of the handler: tracker movement,
/// emitted actions and error conditions.
pub open spec fn mpr_outcome(
    t0: RecordTracker,
    t1: RecordTracker,
    fid: u64,
    rec: MPR,
    r: Result<Vec<SinkAction>, StdfHelperError>,
) -> bool {
            let name = rec.test_txt@;
            let dk = (fid, rec.head_num, rec.site_num);
            let tid = spec_resolved_id(t0, fid, rec.test_num, name);
            let sc = spec_effective_scale(t0, fid, rec.test_num, name, rec.res_scal);
            match r {
                Err(e) => {
                    &&& !t0.dut_map().contains_key(dk)
                    &&& e == (StdfHelperError::DeviceOrdering {
                        group: fid,
                        head: rec.head_num,
                        site: rec.site_num,
                        test_num: Some(rec.test_num),
                    })
                    &&& t1.tests == t0.tests
                },
                Ok(acts) => {
                    &&& t0.dut_map().contains_key(dk)
                    &&& acts@.len() >= 1
                    &&& acts@[0] matches SinkAction::InsertMprData {
                        dut_index,
                        test_id,
                        rtn_rslt_bits,
                        scale,
                        rtn_stat_hex,
                        test_flg,
                    } && dut_index == t0.dut_map()[dk] && test_id == tid && rtn_rslt_bits@
                        == rec.rtn_rslt_bits@ && scale == sc && rtn_stat_hex@ == hex_upper_seq(
                        rec.rtn_stat@,
                    ) && test_flg == rec.test_flg
                    &&& (if first_sight(t0, fid, rec.test_num, name) {
                        &&& acts@.len() == 2 + (if rec.rtn_icnt > 0 && rec.rtn_indx is Some {
                            rec.rtn_indx->0@.len() as int
                        } else {
                            0
                        })
                        &&& is_test_info(
                            acts@[1],
                            fid,
                            tid,
                            rec.test_num,
                            15,
                            name,
                            rec.res_scal,
                            RealField::Value {
                                bits: resolved_option_value(rec.lo_limit_bits, rec.opt_flag, 0x50),
                                scale: sc as i32,
                            },
                            RealField::Value {
                                bits: resolved_option_value(rec.hi_limit_bits, rec.opt_flag, 0xA0),
                                scale: sc as i32,
                            },
                            spec_scaled_unit(
                                match rec.units {
                                    Some(u) => Some(u@),
                                    None => None,
                                },
                                sc,
                            ),
                            rec.opt_flag,
                            Some(rec.rtn_icnt),
                            Some(rec.rslt_cnt),
                            RealField::Value {
                                bits: resolved_option_value(rec.lo_spec_bits, rec.opt_flag, 0x04),
                                scale: sc as i32,
                            },
                            RealField::Value {
                                bits: resolved_option_value(rec.hi_spec_bits, rec.opt_flag, 0x08),
                                scale: sc as i32,
                            },
                            None,
                            t0.spec_sections(fid),
                        )
                        &&& (rec.rtn_icnt > 0 && rec.rtn_indx is Some ==> acts@.skip(2) == pins_of(
                            tid as u64,
                            rec.rtn_indx->0@,
                            PinType::Rtn,
                        ))
                        &&& tests_after_result(
                            t0,
                            t1,
                            fid,
                            rec.test_num,
                            name,
                            sc,
                            None,
                        )
                    } else {
                        t1.tests == t0.tests && acts@.len() == 1
                    })
                },
            }
        }

/// Wraps a text field for storage: an empty field becomes NULL.
pub open spec fn spec_opt_text(s: String) -> Option<String> {
    if s@.len() == 0 {
        None
    } else {
        Some(s)
    }
}

fn opt_text(s: &String) -> (r: Option<String>)
    ensures
        r == spec_opt_text(*s),
        r matches Some(v) ==> v@ == s@,
{
    if s.as_str().is_empty() {
        None
    } else {
        Some(s.clone())
    }
}

/// The first metadata rows of a master information record: times,
/// station, and the single-character codes.  A single-space code or an
/// all-ones burn time means "absent".
pub open spec fn mir_rows_a(rec: crate::records::MIR, t1: Seq<char>, t2: Seq<char>) -> Seq<
    (Seq<char>, Seq<char>, bool),
> {
    seq![
        ("SETUP_T"@, t1, true),
        ("START_T"@, t2, true),
        ("STAT_NUM"@, dec_str(rec.stat_num as nat), true),
        ("MODE_COD"@, rec.mode_cod@, rec.mode_cod@ != " "@),
        ("RTST_COD"@, rec.rtst_cod@, rec.rtst_cod@ != " "@),
        ("PROT_COD"@, rec.prot_cod@, rec.prot_cod@ != " "@),
        ("BURN_TIM"@, dec_str(rec.burn_tim as nat), rec.burn_tim != 65535),
        ("CMOD_COD"@, rec.cmod_cod@, rec.cmod_cod@ != " "@),
    ]
}

/// Lot and program identity rows; empty strings are skipped.
pub open spec fn mir_rows_b(rec: crate::records::MIR) -> Seq<(Seq<char>, Seq<char>, bool)> {
    seq![
        ("LOT_ID"@, rec.lot_id@, rec.lot_id@.len() != 0),
        ("PART_TYP"@, rec.part_typ@, rec.part_typ@.len() != 0),
        ("NODE_NAM"@, rec.node_nam@, rec.node_nam@.len() != 0),
        ("TSTR_TYP"@, rec.tstr_typ@, rec.tstr_typ@.len() != 0),
        ("JOB_NAM"@, rec.job_nam@, rec.job_nam@.len() != 0),
        ("JOB_REV"@, rec.job_rev@, rec.job_rev@.len() != 0),
        ("SBLOT_ID"@, rec.sblot_id@, rec.sblot_id@.len() != 0),
        ("OPER_NAM"@, rec.oper_nam@, rec.oper_nam@.len() != 0),
        ("EXEC_TYP"@, rec.exec_typ@, rec.exec_typ@.len() != 0),
        ("EXEC_VER"@, rec.exec_ver@, rec.exec_ver@.len() != 0),
    ]
}

/// Test condition and site rows; empty strings are skipped.
pub open spec fn mir_rows_c(rec: crate::records::MIR) -> Seq<(Seq<char>, Seq<char>, bool)> {
    seq![
        ("TEST_COD"@, rec.test_cod@, rec.test_cod@.len() != 0),
        ("TST_TEMP"@, rec.tst_temp@, rec.tst_temp@.len() != 0),
        ("USER_TXT"@, rec.user_txt@, rec.user_txt@.len() != 0),
        ("AUX_FILE"@, rec.aux_file@, rec.aux_file@.len() != 0),
        ("PKG_TYP"@, rec.pkg_typ@, rec.pkg_typ@.len() != 0),
        ("FAMLY_ID"@, rec.famly_id@, rec.famly_id@.len() != 0),
        ("DATE_COD"@, rec.date_cod@, rec.date_cod@.len() != 0),
        ("FACIL_ID"@, rec.facil_id@, rec.facil_id@.len() != 0),
        ("FLOOR_ID"@, rec.floor_id@, rec.floor_id@.len() != 0),
        ("PROC_ID"@, rec.proc_id@, rec.proc_id@.len() != 0),
    ]
}

/// Specification and equipment identity rows; empty strings are
/// skipped.
pub open spec fn mir_rows_d(rec: crate::records::MIR) -> Seq<(Seq<char>, Seq<char>, bool)> {
    seq![
        ("OPER_FRQ"@, rec.oper_frq@, rec.oper_frq@.len() != 0),
        ("SPEC_NAM"@, rec.spec_nam@, rec.spec_nam@.len() != 0),
        ("SPEC_VER"@, rec.spec_ver@, rec.spec_ver@.len() != 0),
        ("FLOW_ID"@, rec.flow_id@, rec.flow_id@.len() != 0),
        ("SETUP_ID"@, rec.setup_id@, rec.setup_id@.len() != 0),
        ("DSGN_REV"@, rec.dsgn_rev@, rec.dsgn_rev@.len() != 0),
        ("ENG_ID"@, rec.eng_id@, rec.eng_id@.len() != 0),
        ("ROM_COD"@, rec.rom_cod@, rec.rom_cod@.len() != 0),
        ("SERL_NUM"@, rec.serl_num@, rec.serl_num@.len() != 0),
        ("SUPR_NAM"@, rec.supr_nam@, rec.supr_nam@.len() != 0),
    ]
}

/// All metadata rows of a master information record, in emission
/// order.
pub open spec fn mir_rows(rec: crate::records::MIR, t1: Seq<char>, t2: Seq<char>) -> Seq<
    (Seq<char>, Seq<char>, bool),
> {
    mir_rows_a(rec, t1, t2) + mir_rows_b(rec) + mir_rows_c(rec) + mir_rows_d(rec)
}

/// A master information record's actions: the group identity update,
/// then its metadata rows with the given rendered times.
pub open spec fn mir_match(
    acts: Seq<SinkAction>,
    fid: u64,
    sb: u64,
    rec: crate::records::MIR,
    t1: Seq<char>,
    t2: Seq<char>,
) -> bool {
    &&& acts.len() >= 1
    &&& acts[0] matches SinkAction::UpdateFileList {
        group,
        sub,
        lot_id,
        sublot_id,
        product_id,
        flow_id,
    } && group == fid && sub == sb && lot_id@ == rec.lot_id@ && sublot_id@ == rec.sblot_id@
        && product_id@ == rec.proc_id@ && flow_id@ == rec.flow_id@
    &&& infos_match(acts.skip(1), fid, sb, filtered_rows(mir_rows(rec, t1, t2)))
}

fn push_row(rows: &mut Vec<InfoRow>, name: &'static str, value: String, emit: bool)
    ensures
        rows_view(final(rows)@) == rows_view(old(rows)@).push((name@, value@, emit)),
{
    rows.push(InfoRow { name: String::from_str(name), value, emit });
    proof {
        assert(rows_view(rows@) =~= rows_view(old(rows)@).push((name@, value@, emit)));
    }
}

#[verifier::rlimit(50)]
fn mir_push_a(rows: &mut Vec<InfoRow>, rec: &crate::records::MIR, setup_s: String, start_s: String)
    ensures
        rows_view(final(rows)@) == rows_view(old(rows)@) + mir_rows_a(*rec, setup_s@, start_s@),
{
    let ghost t1 = setup_s@;
    let ghost t2 = start_s@;
    let space = String::from_str(" ");
    push_row(rows, "SETUP_T", setup_s, true);
    push_row(rows, "START_T", start_s, true);
    push_row(rows, "STAT_NUM", u64_to_string(rec.stat_num as u64), true);
    push_row(rows, "MODE_COD", rec.mode_cod.clone(), rec.mode_cod != space);
    push_row(rows, "RTST_COD", rec.rtst_cod.clone(), rec.rtst_cod != space);
    push_row(rows, "PROT_COD", rec.prot_cod.clone(), rec.prot_cod != space);
    push_row(rows, "BURN_TIM", u64_to_string(rec.burn_tim as u64), rec.burn_tim != 65535);
    push_row(rows, "CMOD_COD", rec.cmod_cod.clone(), rec.cmod_cod != space);
    proof {
        reveal_strlit(" ");
        assert(rows_view(rows@) =~= rows_view(old(rows)@) + mir_rows_a(*rec, t1, t2));
    }
}

#[verifier::rlimit(50)]
fn mir_push_b(rows: &mut Vec<InfoRow>, rec: &crate::records::MIR)
    ensures
        rows_view(final(rows)@) == rows_view(old(rows)@) + mir_rows_b(*rec),
{
    push_row(rows, "LOT_ID", rec.lot_id.clone(), !rec.lot_id.as_str().is_empty());
    push_row(rows, "PART_TYP", rec.part_typ.clone(), !rec.part_typ.as_str().is_empty());
    push_row(rows, "NODE_NAM", rec.node_nam.clone(), !rec.node_nam.as_str().is_empty());
    push_row(rows, "TSTR_TYP", rec.tstr_typ.clone(), !rec.tstr_typ.as_str().is_empty());
    push_row(rows, "JOB_NAM", rec.job_nam.clone(), !rec.job_nam.as_str().is_empty());
    push_row(rows, "JOB_REV", rec.job_rev.clone(), !rec.job_rev.as_str().is_empty());
    push_row(rows, "SBLOT_ID", rec.sblot_id.clone(), !rec.sblot_id.as_str().is_empty());
    push_row(rows, "OPER_NAM", rec.oper_nam.clone(), !rec.oper_nam.as_str().is_empty());
    push_row(rows, "EXEC_TYP", rec.exec_typ.clone(), !rec.exec_typ.as_str().is_empty());
    push_row(rows, "EXEC_VER", rec.exec_ver.clone(), !rec.exec_ver.as_str().is_empty());
    proof {
        assert(rows_view(rows@) =~= rows_view(old(rows)@) + mir_rows_b(*rec));
    }
}

#[verifier::rlimit(50)]
fn mir_push_c(rows: &mut Vec<InfoRow>, rec: &crate::records::MIR)
    ensures
        rows_view(final(rows)@) == rows_view(old(rows)@) + mir_rows_c(*rec),
{
    push_row(rows, "TEST_COD", rec.test_cod.clone(), !rec.test_cod.as_str().is_empty());
    push_row(rows, "TST_TEMP", rec.tst_temp.clone(), !rec.tst_temp.as_str().is_empty());
    push_row(rows, "USER_TXT", rec.user_txt.clone(), !rec.user_txt.as_str().is_empty());
    push_row(rows, "AUX_FILE", rec.aux_file.clone(), !rec.aux_file.as_str().is_empty());
    push_row(rows, "PKG_TYP", rec.pkg_typ.clone(), !rec.pkg_typ.as_str().is_empty());
    push_row(rows, "FAMLY_ID", rec.famly_id.clone(), !rec.famly_id.as_str().is_empty());
    push_row(rows, "DATE_COD", rec.date_cod.clone(), !rec.date_cod.as_str().is_empty());
    push_row(rows, "FACIL_ID", rec.facil_id.clone(), !rec.facil_id.as_str().is_empty());
    push_row(rows, "FLOOR_ID", rec.floor_id.clone(), !rec.floor_id.as_str().is_empty());
    push_row(rows, "PROC_ID", rec.proc_id.clone(), !rec.proc_id.as_str().is_empty());
    proof {
        assert(rows_view(rows@) =~= rows_view(old(rows)@) + mir_rows_c(*rec));
    }
}

#[verifier::rlimit(50)]
fn mir_push_d(rows: &mut Vec<InfoRow>, rec: &crate::records::MIR)
    ensures
        rows_view(final(rows)@) == rows_view(old(rows)@) + mir_rows_d(*rec),
{
    push_row(rows, "OPER_FRQ", rec.oper_frq.clone(), !rec.oper_frq.as_str().is_empty());
    push_row(rows, "SPEC_NAM", rec.spec_nam.clone(), !rec.spec_nam.as_str().is_empty());
    push_row(rows, "SPEC_VER", rec.spec_ver.clone(), !rec.spec_ver.as_str().is_empty());
    push_row(rows, "FLOW_ID", rec.flow_id.clone(), !rec.flow_id.as_str().is_empty());
    push_row(rows, "SETUP_ID", rec.setup_id.clone(), !rec.setup_id.as_str().is_empty());
    push_row(rows, "DSGN_REV", rec.dsgn_rev.clone(), !rec.dsgn_rev.as_str().is_empty());
    push_row(rows, "ENG_ID", rec.eng_id.clone(), !rec.eng_id.as_str().is_empty());
    push_row(rows, "ROM_COD", rec.rom_cod.clone(), !rec.rom_cod.as_str().is_empty());
    push_row(rows, "SERL_NUM", rec.serl_num.clone(), !rec.serl_num.as_str().is_empty());
    push_row(rows, "SUPR_NAM", rec.supr_nam.clone(), !rec.supr_nam.as_str().is_empty());
    proof {
        assert(rows_view(rows@) =~= rows_view(old(rows)@) + mir_rows_d(*rec));
    }
}

fn on_mir_rec(fid: u64, sb: u64, rec: &crate::records::MIR) -> (acts: Vec<SinkAction>)
    ensures
        exists|t1: Seq<char>, t2: Seq<char>| #[trigger] mir_match(acts@, fid, sb, *rec, t1, t2),
{
    let setup_s = crate::timefmt::u32_to_localtime(rec.setup_t);
    let start_s = crate::timefmt::u32_to_localtime(rec.start_t);
    let ghost t1 = setup_s@;
    let ghost t2 = start_s@;
    let mut rows: Vec<InfoRow> = Vec::new();
    mir_push_a(&mut rows, rec, setup_s, start_s);
    mir_push_b(&mut rows, rec);
    mir_push_c(&mut rows, rec);
    mir_push_d(&mut rows, rec);
    proof {
        assert(rows_view(rows@) =~= mir_rows(*rec, t1, t2));
    }
    let mut acts: Vec<SinkAction> = Vec::new();
    acts.push(
        SinkAction::UpdateFileList {
            group: fid,
            sub: sb,
            lot_id: rec.lot_id.clone(),
            sublot_id: rec.sblot_id.clone(),
            product_id: rec.proc_id.clone(),
            flow_id: rec.flow_id.clone(),
        },
    );
    let mut infos = emit_infos(fid, sb, &rows);
    let ghost infos0 = infos@;
    acts.append(&mut infos);
    proof {
        assert(acts@.skip(1) =~= infos0);
        assert(mir_match(acts@, fid, sb, *rec, t1, t2));
    }
    acts
}

/// The site-description rows: each a labelled equipment field named
/// with the record's site group, skipped when empty.
pub open spec fn sdr_rows(rec: crate::records::SDR) -> Seq<(Seq<char>, Seq<char>, bool)> {
    let g = dec_str(rec.site_grp as nat);
    seq![
        ("Handler Type (Group "@ + g + ")"@, rec.hand_typ@, rec.hand_typ@.len() != 0),
        ("Handler ID (Group "@ + g + ")"@, rec.hand_id@, rec.hand_id@.len() != 0),
        ("Probe Card Type (Group "@ + g + ")"@, rec.card_typ@, rec.card_typ@.len() != 0),
        ("Probe Card ID (Group "@ + g + ")"@, rec.card_id@, rec.card_id@.len() != 0),
        ("Load Board Type (Group "@ + g + ")"@, rec.load_typ@, rec.load_typ@.len() != 0),
        ("Load Board ID (Group "@ + g + ")"@, rec.load_id@, rec.load_id@.len() != 0),
        ("DIB Board Type (Group "@ + g + ")"@, rec.dib_typ@, rec.dib_typ@.len() != 0),
        ("DIB Board ID (Group "@ + g + ")"@, rec.dib_id@, rec.dib_id@.len() != 0),
        ("Interface Cable Type (Group "@ + g + ")"@, rec.cabl_typ@, rec.cabl_typ@.len() != 0),
        ("Interface Cable ID (Group "@ + g + ")"@, rec.cabl_id@, rec.cabl_id@.len() != 0),
        ("Handler Contactor Type (Group "@ + g + ")"@, rec.cont_typ@, rec.cont_typ@.len() != 0),
        ("Handler Contactor ID (Group "@ + g + ")"@, rec.cont_id@, rec.cont_id@.len() != 0),
        ("Laser Type (Group "@ + g + ")"@, rec.lasr_typ@, rec.lasr_typ@.len() != 0),
        ("Laser ID (Group "@ + g + ")"@, rec.lasr_id@, rec.lasr_id@.len() != 0),
        ("Extra Equipment Type (Group "@ + g + ")"@, rec.extr_typ@, rec.extr_typ@.len() != 0),
        ("Extra Equipment ID (Group "@ + g + ")"@, rec.extr_id@, rec.extr_id@.len() != 0),
    ]
}

fn grouped_name(prefix: &'static str, site_grp: u8) -> (r: String)
    ensures
        r@ == prefix@ + dec_str(site_grp as nat) + ")"@,
{
    let mut s = String::from_str(prefix);
    s.append(u64_to_string(site_grp as u64).as_str());
    s.append(")");
    proof {
        assert(s@ =~= prefix@ + dec_str(site_grp as nat) + ")"@);
    }
    s
}

fn sdr_push_row(
    rows: &mut Vec<InfoRow>,
    prefix: &'static str,
    site_grp: u8,
    value: &String,
)
    ensures
        rows_view(final(rows)@) == rows_view(old(rows)@).push(
            (prefix@ + dec_str(site_grp as nat) + ")"@, value@, value@.len() != 0),
        ),
{
    let name = grouped_name(prefix, site_grp);
    let emit = !value.as_str().is_empty();
    rows.push(InfoRow { name, value: value.clone(), emit });
    proof {
        assert(rows_view(rows@) =~= rows_view(old(rows)@).push(
            (prefix@ + dec_str(site_grp as nat) + ")"@, value@, value@.len() != 0),
        ));
    }
}

fn sdr_push_half_a(rows: &mut Vec<InfoRow>, rec: &crate::records::SDR)
    ensures
        rows_view(final(rows)@) == rows_view(old(rows)@) + sdr_rows(*rec).take(8),
{
    sdr_push_row(rows, "Handler Type (Group ", rec.site_grp, &rec.hand_typ);
    sdr_push_row(rows, "Handler ID (Group ", rec.site_grp, &rec.hand_id);
    sdr_push_row(rows, "Probe Card Type (Group ", rec.site_grp, &rec.card_typ);
    sdr_push_row(rows, "Probe Card ID (Group ", rec.site_grp, &rec.card_id);
    sdr_push_row(rows, "Load Board Type (Group ", rec.site_grp, &rec.load_typ);
    sdr_push_row(rows, "Load Board ID (Group ", rec.site_grp, &rec.load_id);
    sdr_push_row(rows, "DIB Board Type (Group ", rec.site_grp, &rec.dib_typ);
    sdr_push_row(rows, "DIB Board ID (Group ", rec.site_grp, &rec.dib_id);
    proof {
        assert(rows_view(rows@) =~= rows_view(old(rows)@) + sdr_rows(*rec).take(8));
    }
}

fn sdr_push_half_b(rows: &mut Vec<InfoRow>, rec: &crate::records::SDR)
    ensures
        rows_view(final(rows)@) == rows_view(old(rows)@) + sdr_rows(*rec).skip(8),
{
    sdr_push_row(rows, "Interface Cable Type (Group ", rec.site_grp, &rec.cabl_typ);
    sdr_push_row(rows, "Interface Cable ID (Group ", rec.site_grp, &rec.cabl_id);
    sdr_push_row(rows, "Handler Contactor Type (Group ", rec.site_grp, &rec.cont_typ);
    sdr_push_row(rows, "Handler Contactor ID (Group ", rec.site_grp, &rec.cont_id);
    sdr_push_row(rows, "Laser Type (Group ", rec.site_grp, &rec.lasr_typ);
    sdr_push_row(rows, "Laser ID (Group ", rec.site_grp, &rec.lasr_id);
    sdr_push_row(rows, "Extra Equipment Type (Group ", rec.site_grp, &rec.extr_typ);
    sdr_push_row(rows, "Extra Equipment ID (Group ", rec.site_grp, &rec.extr_id);
    proof {
        assert(rows_view(rows@) =~= rows_view(old(rows)@) + sdr_rows(*rec).skip(8));
    }
}

fn on_sdr_rec(fid: u64, sb: u64, rec: &crate::records::SDR) -> (acts: Vec<SinkAction>)
    ensures
        infos_match(acts@, fid, sb, filtered_rows(sdr_rows(*rec))),
{
    let mut rows: Vec<InfoRow> = Vec::new();
    sdr_push_half_a(&mut rows, rec);
    sdr_push_half_b(&mut rows, rec);
    proof {
        assert(rows_view(rows@) =~= sdr_rows(*rec));
    }
    emit_infos(fid, sb, &rows)
}

/// The wafer-configuration rows: geometry text (absent when zero),
/// units, flat orientation, and center coordinates.
pub open spec fn wcr_rows(rec: crate::records::WCR) -> Seq<(Seq<char>, Seq<char>, bool)> {
    seq![
        (
            "WAFR_SIZ"@,
            match rec.wafr_siz {
                Some(s) => s@,
                None => Seq::empty(),
            },
            rec.wafr_siz is Some,
        ),
        (
            "DIE_HT"@,
            match rec.die_ht {
                Some(s) => s@,
                None => Seq::empty(),
            },
            rec.die_ht is Some,
        ),
        (
            "DIE_WID"@,
            match rec.die_wid {
                Some(s) => s@,
                None => Seq::empty(),
            },
            rec.die_wid is Some,
        ),
        (
            "WF_UNITS"@,
            if rec.wf_units == 1 {
                "inch"@
            } else if rec.wf_units == 2 {
                "cm"@
            } else if rec.wf_units == 3 {
                "mm"@
            } else {
                "mil"@
            },
            rec.wf_units != 0,
        ),
        ("WF_FLAT"@, rec.wf_flat@, true),
        (
            "CENTER_X"@,
            crate::strings::int_str(rec.center_x as int),
            rec.center_x != -32768,
        ),
        (
            "CENTER_Y"@,
            crate::strings::int_str(rec.center_y as int),
            rec.center_y != -32768,
        ),
        ("POS_X"@, rec.pos_x@, true),
        ("POS_Y"@, rec.pos_y@, true),
    ]
}

fn on_wcr_rec(fid: u64, sb: u64, rec: &crate::records::WCR) -> (acts: Vec<SinkAction>)
    ensures
        infos_match(acts@, fid, sb, filtered_rows(wcr_rows(*rec))),
{
    let mut rows: Vec<InfoRow> = Vec::new();
    match &rec.wafr_siz {
        Some(s) => push_row(&mut rows, "WAFR_SIZ", s.clone(), true),
        None => push_row(&mut rows, "WAFR_SIZ", String::new(), false),
    }
    match &rec.die_ht {
        Some(s) => push_row(&mut rows, "DIE_HT", s.clone(), true),
        None => push_row(&mut rows, "DIE_HT", String::new(), false),
    }
    match &rec.die_wid {
        Some(s) => push_row(&mut rows, "DIE_WID", s.clone(), true),
        None => push_row(&mut rows, "DIE_WID", String::new(), false),
    }
    let units = if rec.wf_units == 1 {
        String::from_str("inch")
    } else if rec.wf_units == 2 {
        String::from_str("cm")
    } else if rec.wf_units == 3 {
        String::from_str("mm")
    } else {
        String::from_str("mil")
    };
    push_row(&mut rows, "WF_UNITS", units, rec.wf_units != 0);
    push_row(&mut rows, "WF_FLAT", rec.wf_flat.clone(), true);
    push_row(&mut rows, "CENTER_X", crate::strings::i64_to_string(rec.center_x as i64), rec.center_x
        != -32768);
    push_row(&mut rows, "CENTER_Y", crate::strings::i64_to_string(rec.center_y as i64), rec.center_y
        != -32768);
    push_row(&mut rows, "POS_X", rec.pos_x.clone(), true);
    push_row(&mut rows, "POS_Y", rec.pos_y.clone(), true);
    proof {
        assert(rows_view(rows@) =~= wcr_rows(*rec));
    }
    emit_infos(fid, sb, &rows)
}

/// The master-results rows: finish time (with the given rendered
/// text), disposition code and descriptions when present.
pub open spec fn mrr_rows(rec: crate::records::MRR, t: Seq<char>) -> Seq<
    (Seq<char>, Seq<char>, bool),
> {
    seq![
        ("FINISH_T"@, t, true),
        ("DISP_COD"@, rec.disp_cod@, rec.disp_cod@ != " "@),
        ("USR_DESC"@, rec.usr_desc@, rec.usr_desc@.len() != 0),
        ("EXC_DESC"@, rec.exc_desc@, rec.exc_desc@.len() != 0),
    ]
}

/// See `mrr_rows`: the actions are its emitted rows.
pub open spec fn mrr_match(
    acts: Seq<SinkAction>,
    fid: u64,
    sb: u64,
    rec: crate::records::MRR,
    t: Seq<char>,
) -> bool {
    infos_match(acts, fid, sb, filtered_rows(mrr_rows(rec, t)))
}

fn on_mrr_rec(fid: u64, sb: u64, rec: &crate::records::MRR) -> (acts: Vec<SinkAction>)
    ensures
        exists|t: Seq<char>| #[trigger] mrr_match(acts@, fid, sb, *rec, t),
{
    let finish_s = crate::timefmt::u32_to_localtime(rec.finish_t);
    let ghost t = finish_s@;
    let space = String::from_str(" ");
    let mut rows: Vec<InfoRow> = Vec::new();
    push_row(&mut rows, "FINISH_T", finish_s, true);
    push_row(&mut rows, "DISP_COD", rec.disp_cod.clone(), rec.disp_cod != space);
    push_row(&mut rows, "USR_DESC", rec.usr_desc.clone(), !rec.usr_desc.as_str().is_empty());
    push_row(&mut rows, "EXC_DESC", rec.exc_desc.clone(), !rec.exc_desc.as_str().is_empty());
    proof {
        assert(rows_view(rows@) =~= mrr_rows(*rec, t));
    }
    let acts = emit_infos(fid, sb, &rows);
    proof {
        assert(mrr_match(acts@, fid, sb, *rec, t));
    }
    acts
}

/// The comma-separated decimal rendering of a bin list.
pub open spec fn u16_list_str(s: Seq<u16>) -> Seq<char>
    decreases s.len(),
{
    if s.len() == 0 {
        Seq::empty()
    } else if s.len() == 1 {
        dec_str(s[0] as nat)
    } else {
        u16_list_str(s.drop_last()) + ", "@ + dec_str(s.last() as nat)
    }
}

/// The retest-data row's value: the retested bins, or a note that all
/// bins are retested.
pub open spec fn rdr_value(rec: crate::records::RDR) -> Seq<char> {
    if rec.num_bins > 0 {
        u16_list_str(rec.rtst_bin@)
    } else {
        "All hardware bins are retested"@
    }
}

fn u16_list_string(list: &Vec<u16>) -> (r: String)
    ensures
        r@ == u16_list_str(list@),
{
    let mut out = String::new();
    let mut i: usize = 0;
    while i < list.len()
        invariant
            i <= list@.len(),
            out@ == u16_list_str(list@.take(i as int)),
        decreases list@.len() - i,
    {
        if i > 0 {
            out.append(", ");
        }
        out.append(u64_to_string(list[i] as u64).as_str());
        proof {
            assert(list@.take(i as int + 1).drop_last() =~= list@.take(i as int));
            assert(list@.take(i as int + 1).last() == list@[i as int]);
        }
        i = i + 1;
    }
    proof {
        assert(list@.take(list@.len() as int) =~= list@);
    }
    out
}

fn on_rdr_rec(fid: u64, sb: u64, rec: &crate::records::RDR) -> (acts: Vec<SinkAction>)
    ensures
        acts@.len() == 1,
        is_info(acts@[0], fid, sb, "Retest Hardware Bins"@, rdr_value(*rec)),
{
    let value = if rec.num_bins > 0 {
        u16_list_string(&rec.rtst_bin)
    } else {
        String::from_str("All hardware bins are retested")
    };
    let mut acts: Vec<SinkAction> = Vec::new();
    acts.push(
        SinkAction::InsertFileInfo {
            group: fid,
            sub: sb,
            field: String::from_str("Retest Hardware Bins"),
            value,
        },
    );
    acts
}

/// The audit-trail row matches when its value is the rendered
/// modification time followed by the command line.
pub open spec fn atr_match(
    acts: Seq<SinkAction>,
    fid: u64,
    sb: u64,
    rec: crate::records::ATR,
    t: Seq<char>,
) -> bool {
    &&& acts.len() == 1
    &&& is_info(
        acts[0],
        fid,
        sb,
        "File Modification"@,
        "Time: "@ + t + "\nCMD: "@ + rec.cmd_line@,
    )
}

fn on_atr_rec(fid: u64, sb: u64, rec: &crate::records::ATR) -> (acts: Vec<SinkAction>)
    ensures
        exists|t: Seq<char>| #[trigger] atr_match(acts@, fid, sb, *rec, t),
{
    let time_s = crate::timefmt::u32_to_localtime(rec.mod_tim);
    let ghost t = time_s@;
    let mut value = String::from_str("Time: ");
    value.append(time_s.as_str());
    value.append("\nCMD: ");
    value.append(rec.cmd_line.as_str());
    let mut acts: Vec<SinkAction> = Vec::new();
    acts.push(
        SinkAction::InsertFileInfo {
            group: fid,
            sub: sb,
            field: String::from_str("File Modification"),
            value,
        },
    );
    proof {
        assert(acts@[0]->InsertFileInfo_value@ =~= "Time: "@ + t + "\nCMD: "@ + rec.cmd_line@);
        assert(atr_match(acts@, fid, sb, *rec, t));
    }
    acts
}

/// A pin-map record's action: the pin row, with empty names stored as
/// NULL and the group membership left open for a later group record.
pub open spec fn pmr_actions(fid: u64, rec: crate::records::PMR) -> Seq<SinkAction> {
    seq![
        SinkAction::InsertPinMap {
            group: fid,
            head: rec.head_num,
            site: rec.site_num,
            pmr_indx: rec.pmr_indx,
            chan_typ: rec.chan_typ,
            chan_nam: spec_opt_text(rec.chan_nam),
            phy_nam: spec_opt_text(rec.phy_nam),
            log_nam: spec_opt_text(rec.log_nam),
        },
    ]
}

fn on_pmr_rec(fid: u64, rec: &crate::records::PMR) -> (acts: Vec<SinkAction>)
    ensures
        acts@ == pmr_actions(fid, *rec),
{
    let mut acts: Vec<SinkAction> = Vec::new();
    acts.push(
        SinkAction::InsertPinMap {
            group: fid,
            head: rec.head_num,
            site: rec.site_num,
            pmr_indx: rec.pmr_indx,
            chan_typ: rec.chan_typ,
            chan_nam: opt_text(&rec.chan_nam),
            phy_nam: opt_text(&rec.phy_nam),
            log_nam: opt_text(&rec.log_nam),
        },
    );
    proof {
        assert(acts@ =~= pmr_actions(fid, *rec));
    }
    acts
}

/// The membership back-fill rows of a pin-group record.
pub open spec fn pgr_updates(fid: u64, rec: crate::records::PGR) -> Seq<SinkAction> {
    Seq::new(
        rec.pmr_indx@.len(),
        |i: int| SinkAction::UpdateFromGrp {
            group: fid,
            grp_indx: rec.grp_indx,
            pmr_indx: rec.pmr_indx@[i],
        },
    )
}

/// A pin-group record's actions: the group name row (when the record
/// names the group), then the membership back-fill of each pin.
pub open spec fn pgr_actions(fid: u64, rec: crate::records::PGR) -> Seq<SinkAction> {
    (if rec.grp_nam@.len() != 0 {
        seq![
            SinkAction::InsertGrpName { group: fid, grp_indx: rec.grp_indx, grp_nam: rec.grp_nam },
        ]
    } else {
        Seq::empty()
    }) + pgr_updates(fid, rec)
}

fn on_pgr_rec(fid: u64, rec: &crate::records::PGR) -> (acts: Vec<SinkAction>)
    ensures
        acts@ == pgr_actions(fid, *rec),
{
    let mut acts: Vec<SinkAction> = Vec::new();
    if !rec.grp_nam.as_str().is_empty() {
        acts.push(
            SinkAction::InsertGrpName {
                group: fid,
                grp_indx: rec.grp_indx,
                grp_nam: rec.grp_nam.clone(),
            },
        );
    }
    let ghost head = acts@;
    let mut i: usize = 0;
    while i < rec.pmr_indx.len()
        invariant
            i <= rec.pmr_indx@.len(),
            acts@ == head + pgr_updates(fid, *rec).take(i as int),
        decreases rec.pmr_indx@.len() - i,
    {
        acts.push(
            SinkAction::UpdateFromGrp {
                group: fid,
                grp_indx: rec.grp_indx,
                pmr_indx: rec.pmr_indx[i],
            },
        );
        proof {
            assert(pgr_updates(fid, *rec).take(i as int + 1) =~= pgr_updates(fid, *rec).take(
                i as int,
            ).push(pgr_updates(fid, *rec)[i as int]));
            assert(acts@ =~= head + pgr_updates(fid, *rec).take(i as int + 1));
        }
        i = i + 1;
    }
    proof {
        assert(pgr_updates(fid, *rec).take(rec.pmr_indx@.len() as int) =~= pgr_updates(fid, *rec));
        assert(acts@ =~= pgr_actions(fid, *rec));
    }
    acts
}

/// How many pins a pin-list record soundly describes: its declared
/// count, capped by every parallel array it indexes.
pub open spec fn plr_count(rec: crate::records::PLR) -> int {
    vstd::math::min(
        rec.grp_cnt as int,
        vstd::math::min(
            rec.grp_indx@.len() as int,
            vstd::math::min(
                rec.grp_mode@.len() as int,
                vstd::math::min(
                    rec.grp_radx@.len() as int,
                    vstd::math::min(
                        rec.pgm_char@.len() as int,
                        vstd::math::min(
                            rec.pgm_chal@.len() as int,
                            vstd::math::min(
                                rec.rtn_char@.len() as int,
                                rec.rtn_chal@.len() as int,
                            ),
                        ),
                    ),
                ),
            ),
        ),
    )
}

/// A pin-list record's actions: one pin-group description row per
/// described pin, empty texts stored as NULL.
pub open spec fn plr_actions(fid: u64, rec: crate::records::PLR) -> Seq<SinkAction> {
    Seq::new(
        plr_count(rec) as nat,
        |i: int| SinkAction::InsertPinInfo {
            group: fid,
            p_pg_indx: rec.grp_indx@[i],
            grp_mode: rec.grp_mode@[i],
            grp_radx: rec.grp_radx@[i],
            pgm_char: spec_opt_text(rec.pgm_char@[i]),
            pgm_chal: spec_opt_text(rec.pgm_chal@[i]),
            rtn_char: spec_opt_text(rec.rtn_char@[i]),
            rtn_chal: spec_opt_text(rec.rtn_chal@[i]),
        },
    )
}

fn on_plr_rec(fid: u64, rec: &crate::records::PLR) -> (acts: Vec<SinkAction>)
    ensures
        acts@ == plr_actions(fid, *rec),
{
    let mut n: usize = rec.grp_cnt as usize;
    if rec.grp_indx.len() < n {
        n = rec.grp_indx.len();
    }
    if rec.grp_mode.len() < n {
        n = rec.grp_mode.len();
    }
    if rec.grp_radx.len() < n {
        n = rec.grp_radx.len();
    }
    if rec.pgm_char.len() < n {
        n = rec.pgm_char.len();
    }
    if rec.pgm_chal.len() < n {
        n = rec.pgm_chal.len();
    }
    if rec.rtn_char.len() < n {
        n = rec.rtn_char.len();
    }
    if rec.rtn_chal.len() < n {
        n = rec.rtn_chal.len();
    }
    proof {
        assert(n as int == plr_count(*rec));
    }
    let mut acts: Vec<SinkAction> = Vec::new();
    let mut i: usize = 0;
    while i < n
        invariant
            i <= n,
            n as int == plr_count(*rec),
            acts@ == plr_actions(fid, *rec).take(i as int),
        decreases n - i,
    {
        acts.push(
            SinkAction::InsertPinInfo {
                group: fid,
                p_pg_indx: rec.grp_indx[i],
                grp_mode: rec.grp_mode[i],
                grp_radx: rec.grp_radx[i],
                pgm_char: opt_text(&rec.pgm_char[i]),
                pgm_chal: opt_text(&rec.pgm_chal[i]),
                rtn_char: opt_text(&rec.rtn_char[i]),
                rtn_chal: opt_text(&rec.rtn_chal[i]),
            },
        );
        proof {
            assert(plr_actions(fid, *rec).take(i as int + 1) =~= plr_actions(fid, *rec).take(
                i as int,
            ).push(plr_actions(fid, *rec)[i as int]));
            assert(acts@ =~= plr_actions(fid, *rec).take(i as int + 1));
        }
        i = i + 1;
    }
    proof {
        assert(plr_actions(fid, *rec).take(plr_count(*rec)) =~= plr_actions(fid, *rec));
    }
    acts
}

/// An optional wafer coordinate: `-32768` stands for "absent".
pub open spec fn spec_coord(c: i16) -> Option<i16> {
    if c == -32768 {
        None
    } else {
        Some(c)
    }
}

/// A device end's actions, in the order that makes superseding sound:
/// first mark any prior rows this execution supersedes — by part id,
/// by die, or both — and only then write the device's own row, which
/// always clears its own superseded mark.
pub open spec fn prr_actions(fid: u64, rec: PRR, dut_index: u64, wafer_index: Option<u64>) -> Seq<
    SinkAction,
> {
    (if rec.part_flg & 1 == 1 {
        seq![
            SinkAction::SupersedeDut {
                group: fid,
                head: rec.head_num,
                site: rec.site_num,
                part_id: rec.part_id,
            },
        ]
    } else {
        Seq::empty()
    }) + (if rec.part_flg & 2 == 2 {
        seq![
            SinkAction::SupersedeDie {
                group: fid,
                head: rec.head_num,
                site: rec.site_num,
                wafer_index,
                x_coord: spec_coord(rec.x_coord),
                y_coord: spec_coord(rec.y_coord),
            },
        ]
    } else {
        Seq::empty()
    }) + seq![
        SinkAction::UpdateDut {
            group: fid,
            dut_index,
            num_test: rec.num_test,
            test_t: rec.test_t,
            part_id: rec.part_id,
            hard_bin: rec.hard_bin,
            soft_bin: rec.soft_bin,
            part_flg: rec.part_flg,
            wafer_index,
            x_coord: spec_coord(rec.x_coord),
            y_coord: spec_coord(rec.y_coord),
        },
    ]
}

/// The full outcome relation of the device-end handler.
pub open spec fn prr_outcome(
    t0: RecordTracker,
    t1: RecordTracker,
    fid: u64,
    rec: PRR,
    r: Result<Vec<SinkAction>, StdfHelperError>,
) -> bool {
    let dk = (fid, rec.head_num, rec.site_num);
    &&& t1.group_map() == t0.group_map().insert(
        fid,
        GroupView {
            dut_total: t0.spec_dut_total(fid),
            wafer_total: t0.spec_wafer_total(fid),
            before_prr: false,
            sections: match t0.spec_sections(fid) {
                Some(ss) => Some(Seq::empty()),
                None => None,
            },
        },
    )
    &&& t1.hbin_map() == crate::tracker::inferred_bin(
        t0.hbin_map(),
        fid,
        rec.hard_bin,
        crate::tracker::spec_inferred_pf(rec.part_flg),
    )
    &&& t1.sbin_map() == crate::tracker::inferred_bin(
        t0.sbin_map(),
        fid,
        rec.soft_bin,
        crate::tracker::spec_inferred_pf(rec.part_flg),
    )
    &&& (match r {
        Ok(acts) => {
            &&& t0.dut_map().contains_key(dk)
            &&& acts@ == prr_actions(
                fid,
                rec,
                t0.dut_map()[dk],
                if t0.wafer_map().contains_key((fid, rec.head_num)) {
                    Some(t0.wafer_map()[(fid, rec.head_num)])
                } else {
                    None
                },
            )
        },
        Err(e) => {
            &&& !t0.dut_map().contains_key(dk)
            &&& e == (StdfHelperError::DeviceOrdering {
                group: fid,
                head: rec.head_num,
                site: rec.site_num,
                test_num: None,
            })
        },
    })
}

/// A device end: applies the tracker's device-end bookkeeping and
/// emits the superseding updates (if the record declares them) before
/// the device's own row update — never after, so the device's own row
/// is never marked by its own superseding.
fn on_prr_rec(tracker: &mut RecordTracker, fid: u64, rec: &PRR) -> (r: Result<
    Vec<SinkAction>,
    StdfHelperError,
>)
    requires
        old(tracker).wf(),
    ensures
        final(tracker).wf(),
        final(tracker).policy == old(tracker).policy,
        final(tracker).tests == old(tracker).tests,
        final(tracker).duts == old(tracker).duts,
        final(tracker).wafers == old(tracker).wafers,
        prr_outcome(*old(tracker), *final(tracker), fid, *rec, r),
{
    let (dut_index, wafer_index) = match tracker.prr_detected(fid, rec) {
        Ok(v) => v,
        Err(e) => {
            return Err(e);
        },
    };
    let x_coord: Option<i16> = if rec.x_coord != -32768 {
        Some(rec.x_coord)
    } else {
        None
    };
    let y_coord: Option<i16> = if rec.y_coord != -32768 {
        Some(rec.y_coord)
    } else {
        None
    };
    let mut acts: Vec<SinkAction> = Vec::new();
    let supersede_dut = rec.part_flg & 1 == 1;
    let supersede_die = rec.part_flg & 2 == 2;
    if supersede_dut {
        acts.push(
            SinkAction::SupersedeDut {
                group: fid,
                head: rec.head_num,
                site: rec.site_num,
                part_id: rec.part_id.clone(),
            },
        );
    }
    if supersede_die {
        acts.push(
            SinkAction::SupersedeDie {
                group: fid,
                head: rec.head_num,
                site: rec.site_num,
                wafer_index,
                x_coord,
                y_coord,
            },
        );
    }
    acts.push(
        SinkAction::UpdateDut {
            group: fid,
            dut_index,
            num_test: rec.num_test,
            test_t: rec.test_t,
            part_id: rec.part_id.clone(),
            hard_bin: rec.hard_bin,
            soft_bin: rec.soft_bin,
            part_flg: rec.part_flg,
            wafer_index,
            x_coord,
            y_coord,
        },
    );
    proof {
        assert(acts@ =~= prr_actions(fid, *rec, dut_index, wafer_index));
    }
    Ok(acts)
}

/// The datalog line of one generic-data value at its position.
pub open spec fn v1_line(i: int, item: crate::records::V1) -> Seq<char> {
    match item {
        crate::records::V1::B0 => dec_str(i as nat) + " B0: NULL\n"@,
        crate::records::V1::U1(v) => dec_str(i as nat) + " U1: "@ + dec_str(v as nat) + "\n"@,
        crate::records::V1::U2(v) => dec_str(i as nat) + " U2: "@ + dec_str(v as nat) + "\n"@,
        crate::records::V1::U4(v) => dec_str(i as nat) + " U4: "@ + dec_str(v as nat) + "\n"@,
        crate::records::V1::I1(v) => dec_str(i as nat) + " I1: "@ + crate::strings::int_str(
            v as int,
        ) + "\n"@,
        crate::records::V1::I2(v) => dec_str(i as nat) + " I2: "@ + crate::strings::int_str(
            v as int,
        ) + "\n"@,
        crate::records::V1::I4(v) => dec_str(i as nat) + " I4: "@ + crate::strings::int_str(
            v as int,
        ) + "\n"@,
        crate::records::V1::R4(s) => dec_str(i as nat) + " R4: "@ + s@ + "\n"@,
        crate::records::V1::R8(s) => dec_str(i as nat) + " R8: "@ + s@ + "\n"@,
        crate::records::V1::Cn(s) => dec_str(i as nat) + " Cn: "@ + s@ + "\n"@,
        crate::records::V1::Bn(v) => dec_str(i as nat) + (if v@.len() == 0 {
            " Bn: NULL\n"@
        } else {
            " Bn: (HEX)"@ + hex_upper_seq(v@) + "\n"@
        }),
        crate::records::V1::Dn(v) => dec_str(i as nat) + (if v@.len() == 0 {
            " Dn: NULL\n"@
        } else {
            " Dn: (HEX)"@ + hex_upper_seq(v@) + "\n"@
        }),
        crate::records::V1::N1(v) => dec_str(i as nat) + " N1: "@ + crate::strings::hex_str(
            v as nat,
        ) + "\n"@,
        crate::records::V1::Invalid => Seq::empty(),
    }
}

/// The lines of the first `n` generic-data values, concatenated.
pub open spec fn flatten_upto(items: Seq<crate::records::V1>, n: int) -> Seq<char>
    decreases n,
{
    if n <= 0 {
        Seq::empty()
    } else {
        flatten_upto(items, n - 1) + v1_line(n - 1, items[n - 1])
    }
}

/// The datalog text of a generic data record: one line per value, or
/// `NULL` when there are no values.
pub open spec fn spec_gdr_text(items: Seq<crate::records::V1>) -> Seq<char> {
    if flatten_upto(items, items.len() as int).len() == 0 {
        "NULL"@
    } else {
        flatten_upto(items, items.len() as int)
    }
}

fn v1_line_string(i: usize, item: &crate::records::V1) -> (r: String)
    ensures
        r@ == v1_line(i as int, *item),
{
    let mut s = u64_to_string(i as u64);
    match item {
        crate::records::V1::B0 => {
            s.append(" B0: NULL\n");
        },
        crate::records::V1::U1(v) => {
            s.append(" U1: ");
            s.append(u64_to_string(*v as u64).as_str());
            s.append("\n");
        },
        crate::records::V1::U2(v) => {
            s.append(" U2: ");
            s.append(u64_to_string(*v as u64).as_str());
            s.append("\n");
        },
        crate::records::V1::U4(v) => {
            s.append(" U4: ");
            s.append(u64_to_string(*v as u64).as_str());
            s.append("\n");
        },
        crate::records::V1::I1(v) => {
            s.append(" I1: ");
            s.append(crate::strings::i64_to_string(*v as i64).as_str());
            s.append("\n");
        },
        crate::records::V1::I2(v) => {
            s.append(" I2: ");
            s.append(crate::strings::i64_to_string(*v as i64).as_str());
            s.append("\n");
        },
        crate::records::V1::I4(v) => {
            s.append(" I4: ");
            s.append(crate::strings::i64_to_string(*v as i64).as_str());
            s.append("\n");
        },
        crate::records::V1::R4(t) => {
            s.append(" R4: ");
            s.append(t.as_str());
            s.append("\n");
        },
        crate::records::V1::R8(t) => {
            s.append(" R8: ");
            s.append(t.as_str());
            s.append("\n");
        },
        crate::records::V1::Cn(t) => {
            s.append(" Cn: ");
            s.append(t.as_str());
            s.append("\n");
        },
        crate::records::V1::Bn(v) => {
            if v.len() == 0 {
                s.append(" Bn: NULL\n");
            } else {
                s.append(" Bn: (HEX)");
                s.append(stat_blob_hex(v).as_str());
                s.append("\n");
            }
        },
        crate::records::V1::Dn(v) => {
            if v.len() == 0 {
                s.append(" Dn: NULL\n");
            } else {
                s.append(" Dn: (HEX)");
                s.append(stat_blob_hex(v).as_str());
                s.append("\n");
            }
        },
        crate::records::V1::N1(v) => {
            s.append(" N1: ");
            s.append(crate::strings::u64_to_hex_string(*v as u64).as_str());
            s.append("\n");
        },
        crate::records::V1::Invalid => {
            return String::new();
        },
    }
    s
}

/// Flattens a generic data record into its datalog text: one numbered
/// line per value, hex for binary payloads, `NULL` when empty.
pub fn flatten_generic_data(items: &Vec<crate::records::V1>) -> (r: String)
    ensures
        r@ == spec_gdr_text(items@),
{
    let mut out = String::new();
    let mut i: usize = 0;
    while i < items.len()
        invariant
            i <= items@.len(),
            out@ == flatten_upto(items@, i as int),
        decreases items@.len() - i,
    {
        let line = v1_line_string(i, &items[i]);
        out.append(line.as_str());
        i = i + 1;
    }
    if out.as_str().is_empty() {
        String::from_str("NULL")
    } else {
        out
    }
}

fn on_gdr_rec(tracker: &RecordTracker, fid: u64, rec: &crate::records::GDR) -> (acts: Vec<
    SinkAction,
>)
    requires
        tracker.wf(),
    ensures
        acts@.len() == 1,
        acts@[0] matches SinkAction::InsertDatalog {
            group,
            kind,
            value,
            after_dut_index,
            is_before_prr,
        } && group == fid && kind == DatalogKind::Gdr && value@ == spec_gdr_text(rec.gen_data@)
            && after_dut_index == tracker.spec_dut_total(fid) && is_before_prr
            == tracker.spec_before_prr(fid),
{
    let (dut_index, before) = tracker.get_datalog_relative_pos(fid);
    let value = flatten_generic_data(&rec.gen_data);
    let mut acts: Vec<SinkAction> = Vec::new();
    acts.push(
        SinkAction::InsertDatalog {
            group: fid,
            kind: DatalogKind::Gdr,
            value,
            after_dut_index: dut_index,
            is_before_prr: before,
        },
    );
    acts
}

/// A multi-result test record.  The state array is hex-encoded here;
/// the result array still needs the host's scaling, so it crosses as
/// raw bit patterns with the frozen scale.  The first sighting emits
/// the test-definition row and the pin membership rows; default limits
/// are not frozen for multi-result tests.
fn on_mpr_rec(tracker: &mut RecordTracker, fid: u64, rec: &MPR) -> (r: Result<
    Vec<SinkAction>,
    StdfHelperError,
>)
    requires
        old(tracker).wf(),
    ensures
        final(tracker).wf(),
        final(tracker).policy == old(tracker).policy,
        final(tracker).duts == old(tracker).duts,
        final(tracker).wafers == old(tracker).wafers,
        final(tracker).groups == old(tracker).groups,
        final(tracker).hbins == old(tracker).hbins,
        final(tracker).sbins == old(tracker).sbins,
        mpr_outcome(*old(tracker), *final(tracker), fid, *rec, r),
{
    let (dut_index, test_id) = tracker.xtr_detected(
        fid,
        rec.head_num,
        rec.site_num,
        rec.test_num,
        &rec.test_txt,
    )?;
    let (exist, scale) = tracker.update_scale(test_id, &rec.res_scal);
    let mut acts: Vec<SinkAction> = Vec::new();
    acts.push(
        SinkAction::InsertMprData {
            dut_index,
            test_id: test_id as u64,
            rtn_rslt_bits: rec.rtn_rslt_bits.clone(),
            scale,
            rtn_stat_hex: stat_blob_hex(&rec.rtn_stat),
            test_flg: rec.test_flg,
        },
    );
    proof {
        assert(acts@[0]->InsertMprData_rtn_rslt_bits@ =~= rec.rtn_rslt_bits@);
    }
    if !exist {
        let lo_limit = option_value(&rec.lo_limit_bits, &rec.opt_flag, 0x50);
        let hi_limit = option_value(&rec.hi_limit_bits, &rec.opt_flag, 0xA0);
        let lo_spec = option_value(&rec.lo_spec_bits, &rec.opt_flag, 0x04);
        let hi_spec = option_value(&rec.hi_spec_bits, &rec.opt_flag, 0x08);
        let unit = scale_unit(&rec.units, scale);
        let seq_name = tracker.get_program_section(fid);
        acts.push(
            SinkAction::InsertTestInfo {
                group: fid,
                test_id: test_id as u64,
                test_num: rec.test_num,
                rec_header: 15,
                test_name: rec.test_txt.clone(),
                res_scal: rec.res_scal,
                lo_limit: RealField::Value { bits: lo_limit, scale },
                hi_limit: RealField::Value { bits: hi_limit, scale },
                unit,
                opt_flag: rec.opt_flag,
                rtn_icnt: Some(rec.rtn_icnt),
                rslt_pgm_cnt: Some(rec.rslt_cnt),
                lo_spec: RealField::Value { bits: lo_spec, scale },
                hi_spec: RealField::Value { bits: hi_spec, scale },
                vect_nam: None,
                seq_name,
            },
        );
        if rec.rtn_icnt > 0 {
            match &rec.rtn_indx {
                Some(idxs) => {
                    push_pins(&mut acts, test_id as u64, idxs, PinType::Rtn);
                    proof {
                        assert(acts@.skip(2) =~= pins_of(
                            test_id as u64,
                            rec.rtn_indx->0@,
                            PinType::Rtn,
                        ));
                    }
                },
                None => {},
            }
        }
        proof {
            let t0 = *old(tracker);
            let name = rec.test_txt@;
            let k = test_key(t0.policy, fid, rec.test_num, name);
            let tid = spec_resolved_id(t0, fid, rec.test_num, name);
            assert(final(tracker).test_map() =~= t0.test_map().insert(k, tid));
            if t0.test_map().contains_key(k) {
                crate::tracker::lemma_tests_map_index(t0.policy, t0.tests@, k);
            }
        }
    } else {
        proof {
            assert(final(tracker).test_map() =~= old(tracker).test_map().insert(
                test_key(old(tracker).policy, fid, rec.test_num, rec.test_txt@),
                test_id as int,
            ));
        }
    }
    Ok(acts)
}

/// The full outcome relation of the handler: tracker movement,
/// emitted actions and error conditions.
pub open spec fn ftr_outcome(
    t0: RecordTracker,
    t1: RecordTracker,
    fid: u64,
    rec: FTR,
    r: Result<Vec<SinkAction>, StdfHelperError>,
) -> bool {
            let name = rec.test_txt@;
            let dk = (fid, rec.head_num, rec.site_num);
            let tid = spec_resolved_id(t0, fid, rec.test_num, name);
            match r {
                Err(e) => {
                    &&& !t0.dut_map().contains_key(dk)
                    &&& e == (StdfHelperError::DeviceOrdering {
                        group: fid,
                        head: rec.head_num,
                        site: rec.site_num,
                        test_num: Some(rec.test_num),
                    })
                    &&& t1.tests == t0.tests
                },
                Ok(acts) => {
                    &&& t0.dut_map().contains_key(dk)
                    &&& acts@.len() >= 1
                    &&& acts@[0] == (SinkAction::InsertFtrData {
                        dut_index: t0.dut_map()[dk],
                        test_id: tid as u64,
                        test_flg: rec.test_flg,
                    })
                    &&& (if first_sight(t0, fid, rec.test_num, name) {
                        let rtn_pins = (if rec.rtn_icnt > 0 {
                            rec.rtn_indx@.len() as int
                        } else {
                            0
                        });
                        let pgm_pins = (if rec.pgm_icnt > 0 {
                            rec.pgm_indx@.len() as int
                        } else {
                            0
                        });
                        &&& acts@.len() == 2 + rtn_pins + pgm_pins
                        &&& is_test_info(
                            acts@[1],
                            fid,
                            tid,
                            rec.test_num,
                            20,
                            name,
                            None,
                            RealField::Missing,
                            RealField::Missing,
                            Seq::empty(),
                            Some(rec.opt_flag),
                            Some(rec.rtn_icnt),
                            Some(rec.pgm_icnt),
                            RealField::Missing,
                            RealField::Missing,
                            Some(rec.vect_nam@),
                            t0.spec_sections(fid),
                        )
                        &&& (rec.rtn_icnt > 0 ==> acts@.subrange(2, 2 + rtn_pins) == pins_of(
                            tid as u64,
                            rec.rtn_indx@,
                            PinType::Rtn,
                        ))
                        &&& (rec.pgm_icnt > 0 ==> acts@.subrange(
                            2 + rtn_pins,
                            2 + rtn_pins + pgm_pins,
                        ) == pins_of(tid as u64, rec.pgm_indx@, PinType::Pgm))
                        &&& tests_after_result(
                            t0,
                            t1,
                            fid,
                            rec.test_num,
                            name,
                            0,
                            None,
                        )
                    } else {
                        t1.tests == t0.tests && acts@.len() == 1
                    })
                },
            }
        }

/// A functional test result.  The result row is only the test flag;
/// the first sighting emits the test-definition row (no limits, no
/// scale) and the return/programmed pin membership rows.
fn on_ftr_rec(tracker: &mut RecordTracker, fid: u64, rec: &FTR) -> (r: Result<
    Vec<SinkAction>,
    StdfHelperError,
>)
    requires
        old(tracker).wf(),
    ensures
        final(tracker).wf(),
        final(tracker).policy == old(tracker).policy,
        final(tracker).duts == old(tracker).duts,
        final(tracker).wafers == old(tracker).wafers,
        final(tracker).groups == old(tracker).groups,
        final(tracker).hbins == old(tracker).hbins,
        final(tracker).sbins == old(tracker).sbins,
        ftr_outcome(*old(tracker), *final(tracker), fid, *rec, r),
{
    let (dut_index, test_id) = tracker.xtr_detected(
        fid,
        rec.head_num,
        rec.site_num,
        rec.test_num,
        &rec.test_txt,
    )?;
    let mut acts: Vec<SinkAction> = Vec::new();
    acts.push(
        SinkAction::InsertFtrData {
            dut_index,
            test_id: test_id as u64,
            test_flg: rec.test_flg,
        },
    );
    let zero: Option<i8> = Some(0);
    let (exist, _scale) = tracker.update_scale(test_id, &zero);
    if !exist {
        let seq_name = tracker.get_program_section(fid);
        acts.push(
            SinkAction::InsertTestInfo {
                group: fid,
                test_id: test_id as u64,
                test_num: rec.test_num,
                rec_header: 20,
                test_name: rec.test_txt.clone(),
                res_scal: None,
                lo_limit: RealField::Missing,
                hi_limit: RealField::Missing,
                unit: String::new(),
                opt_flag: Some(rec.opt_flag),
                rtn_icnt: Some(rec.rtn_icnt),
                rslt_pgm_cnt: Some(rec.pgm_icnt),
                lo_spec: RealField::Missing,
                hi_spec: RealField::Missing,
                vect_nam: Some(rec.vect_nam.clone()),
                seq_name,
            },
        );
        let ghost rtn_pins: int = if rec.rtn_icnt > 0 {
            rec.rtn_indx@.len() as int
        } else {
            0
        };
        if rec.rtn_icnt > 0 {
            push_pins(&mut acts, test_id as u64, &rec.rtn_indx, PinType::Rtn);
            proof {
                assert(acts@.subrange(2, 2 + rtn_pins) =~= pins_of(
                    test_id as u64,
                    rec.rtn_indx@,
                    PinType::Rtn,
                ));
            }
        }
        let ghost before_pgm = acts@;
        if rec.pgm_icnt > 0 {
            push_pins(&mut acts, test_id as u64, &rec.pgm_indx, PinType::Pgm);
            proof {
                assert(acts@.subrange(2 + rtn_pins, acts@.len() as int) =~= pins_of(
                    test_id as u64,
                    rec.pgm_indx@,
                    PinType::Pgm,
                ));
                assert(acts@.subrange(2, 2 + rtn_pins) =~= before_pgm.subrange(2, 2 + rtn_pins));
            }
        }
        proof {
            let t0 = *old(tracker);
            let name = rec.test_txt@;
            let k = test_key(t0.policy, fid, rec.test_num, name);
            let tid = spec_resolved_id(t0, fid, rec.test_num, name);
            assert(final(tracker).test_map() =~= t0.test_map().insert(k, tid));
            if t0.test_map().contains_key(k) {
                crate::tracker::lemma_tests_map_index(t0.policy, t0.tests@, k);
            }
        }
    } else {
        proof {
            assert(final(tracker).test_map() =~= old(tracker).test_map().insert(
                test_key(old(tracker).policy, fid, rec.test_num, rec.test_txt@),
                test_id as int,
            ));
        }
    }
    Ok(acts)
}

/// The hardware- or software-bin rows of a bin table, in insertion
/// order.
pub open spec fn bin_actions(s: Seq<crate::tracker::BinEntry>, hard: bool) -> Seq<SinkAction> {
    Seq::new(
        s.len(),
        |i: int|
            if hard {
                SinkAction::InsertHbin {
                    group: s[i].group,
                    bin_num: s[i].bin_num,
                    bin_name: s[i].name,
                    bin_pf: s[i].pf,
                }
            } else {
                SinkAction::InsertSbin {
                    group: s[i].group,
                    bin_num: s[i].bin_num,
                    bin_name: s[i].name,
                    bin_pf: s[i].pf,
                }
            },
    )
}

/// The fail-count updates of the first `n` tests: one per test that
/// accumulated a valid count, keyed by its dense id.
pub open spec fn fail_actions_upto(s: Seq<crate::tracker::TestEntry>, n: int) -> Seq<SinkAction>
    decreases n,
{
    if n <= 0 {
        Seq::empty()
    } else {
        fail_actions_upto(s, n - 1) + (match s[n - 1].fail_count {
            Some(c) => seq![
                SinkAction::UpdateFailCount { test_id: (n - 1) as u64, count: c },
            ],
            None => Seq::empty(),
        })
    }
}

fn push_bin_actions(acts: &mut Vec<SinkAction>, bins: &Vec<crate::tracker::BinEntry>, hard: bool)
    ensures
        final(acts)@ == old(acts)@ + bin_actions(bins@, hard),
{
    let mut i: usize = 0;
    while i < bins.len()
        invariant
            i <= bins@.len(),
            acts@ == old(acts)@ + bin_actions(bins@, hard).take(i as int),
        decreases bins@.len() - i,
    {
        if hard {
            acts.push(
                SinkAction::InsertHbin {
                    group: bins[i].group,
                    bin_num: bins[i].bin_num,
                    bin_name: bins[i].name.clone(),
                    bin_pf: bins[i].pf.clone(),
                },
            );
        } else {
            acts.push(
                SinkAction::InsertSbin {
                    group: bins[i].group,
                    bin_num: bins[i].bin_num,
                    bin_name: bins[i].name.clone(),
                    bin_pf: bins[i].pf.clone(),
                },
            );
        }
        proof {
            assert(bin_actions(bins@, hard).take(i as int + 1) =~= bin_actions(
                bins@,
                hard,
            ).take(i as int).push(bin_actions(bins@, hard)[i as int]));
            assert(acts@ =~= old(acts)@ + bin_actions(bins@, hard).take(i as int + 1));
        }
        i = i + 1;
    }
    proof {
        assert(bin_actions(bins@, hard).take(bins@.len() as int) =~= bin_actions(bins@, hard));
    }
}

/// The finalization actions of a run: every collected bin definition
/// — authoritative or inferred — and the accumulated fail count of
/// every test that reported one.
pub fn process_summary_data(rec_tracker: &RecordTracker) -> (acts: Vec<SinkAction>)
    requires
        rec_tracker.wf(),
    ensures
        acts@ == bin_actions(rec_tracker.hbins@, true) + bin_actions(rec_tracker.sbins@, false)
            + fail_actions_upto(rec_tracker.tests@, rec_tracker.tests@.len() as int),
{
    let mut acts: Vec<SinkAction> = Vec::new();
    push_bin_actions(&mut acts, &rec_tracker.hbins, true);
    push_bin_actions(&mut acts, &rec_tracker.sbins, false);
    let ghost head = acts@;
    let mut i: usize = 0;
    while i < rec_tracker.tests.len()
        invariant
            i <= rec_tracker.tests@.len(),
            acts@ == head + fail_actions_upto(rec_tracker.tests@, i as int),
        decreases rec_tracker.tests@.len() - i,
    {
        match rec_tracker.tests[i].fail_count {
            Some(c) => {
                acts.push(SinkAction::UpdateFailCount { test_id: i as u64, count: c });
            },
            None => {},
        }
        proof {
            assert(acts@ =~= head + fail_actions_upto(rec_tracker.tests@, i as int + 1));
        }
        i = i + 1;
    }
    acts
}

/// The reconciliation warning logged when a summary record's exact
/// key missed and the same-number fallback was used.
pub open spec fn spec_tsr_fallback_warning(
    fid: u64,
    num: u32,
    nam: Seq<char>,
    used: Seq<char>,
) -> Seq<char> {
    "TSR: ["@ + dec_str(num as nat) + "\t"@ + nam + "] matches no records in File["@ + dec_str(
        fid as nat,
    ) + "], use test name ["@ + used + "] instead"@
}

fn tsr_fallback_warning(fid: u64, num: u32, nam: &String, used: &String) -> (r: String)
    ensures
        r@ == spec_tsr_fallback_warning(fid, num, nam@, used@),
{
    let mut s = String::from_str("TSR: [");
    s.append(u64_to_string(num as u64).as_str());
    s.append("\t");
    s.append(nam.as_str());
    s.append("] matches no records in File[");
    s.append(u64_to_string(fid).as_str());
    s.append("], use test name [");
    s.append(used.as_str());
    s.append("] instead");
    proof {
        assert(s@ =~= spec_tsr_fallback_warning(fid, num, nam@, used@));
    }
    s
}

/// The warning logged for a record kind outside the ingested set: the
/// kind is rejected explicitly rather than silently ignored, so format
/// drift is never masked.
pub open spec fn spec_unhandled_warning(type_code: u64) -> Seq<char> {
    "Record type ["@ + dec_str(type_code as nat) + "] is not ingested and was skipped"@
}

fn unhandled_warning(type_code: u64) -> (r: String)
    ensures
        r@ == spec_unhandled_warning(type_code),
{
    let mut s = String::from_str("Record type [");
    s.append(u64_to_string(type_code).as_str());
    s.append("] is not ingested and was skipped");
    proof {
        assert(s@ =~= spec_unhandled_warning(type_code));
    }
    s
}

/// The outcome of a test-synopsis record: one reconciliation warning
/// when the exact key missed and the same-number fallback was used,
/// one mismatch warning (never a fatal error) when even the fallback
/// matches nothing, and none on an exact match.
pub open spec fn tsr_outcome(
    t0: RecordTracker,
    t1: RecordTracker,
    fid: u64,
    rec: crate::records::TSR,
    d: Dispatched,
) -> bool {
    let resolved = crate::tracker::tsr_resolved(t0.policy, t0.tests@, fid, rec.test_num, rec.test_nam@);
    let exact = t0.test_map().contains_key(
        crate::tracker::test_key(t0.policy, fid, rec.test_num, rec.test_nam@),
    );
    &&& d.actions@.len() == 0
    &&& (match resolved {
        Some(tid) => {
            &&& (if exact {
                d.warnings@.len() == 0
            } else {
                d.warnings@.len() == 1 && d.warnings@[0]@ == spec_tsr_fallback_warning(
                    fid,
                    rec.test_num,
                    rec.test_nam@,
                    t0.tests@[tid].test_name@,
                )
            })
            &&& (if rec.fail_cnt == u32::MAX {
                t1.tests == t0.tests
            } else {
                t1.tests@ == t0.tests@.update(
                    tid,
                    crate::tracker::TestEntry {
                        fail_count: Some(
                            crate::tracker::add_saturating(
                                match t0.tests@[tid].fail_count {
                                    Some(c) => c,
                                    None => 0,
                                },
                                rec.fail_cnt as u64,
                            ),
                        ),
                        ..t0.tests@[tid]
                    },
                )
            })
        },
        None => d.warnings@.len() == 1 && d.warnings@[0]@ == (StdfHelperError::SummaryMismatch {
            group: fid,
            test_num: rec.test_num,
        }).spec_message() && t1.tests == t0.tests,
    })
}

/// Decodes one streamed record into tracker updates and ordered write
/// actions.  A structurally invalid record or an ordering violation is
/// a fatal error and emits nothing new; a summary mismatch degrades to
/// a warning; record kinds outside the ingested set are skipped.
pub fn process_incoming_record(
    rec_tracker: &mut RecordTracker,
    file_id: u64,
    subfile_id: u64,
    order: &ByteOrder,
    rec: &Record,
) -> (r: Result<Dispatched, StdfHelperError>)
    requires
        old(rec_tracker).wf(),
        old(rec_tracker).spec_counters_ok(),
    ensures
        final(rec_tracker).wf(),
        final(rec_tracker).policy == old(rec_tracker).policy,
        match *rec {
            Record::PIR(pr) => r matches Ok(d) && d.warnings@.len() == 0 && d.actions@
                == pir_actions(
                file_id,
                pr,
                (old(rec_tracker).spec_dut_total(file_id) + 1) as u64,
            ) && final(rec_tracker).dut_map() == old(rec_tracker).dut_map().insert(
                (file_id, pr.head_num, pr.site_num),
                (old(rec_tracker).spec_dut_total(file_id) + 1) as u64,
            ) && final(rec_tracker).group_map() == old(rec_tracker).group_map().insert(
                file_id,
                GroupView {
                    dut_total: (old(rec_tracker).spec_dut_total(file_id) + 1) as u64,
                    wafer_total: old(rec_tracker).spec_wafer_total(file_id),
                    before_prr: true,
                    sections: old(rec_tracker).spec_sections(file_id),
                },
            ) && (forall|k: (u64, u8, u8)|
                #[trigger] old(rec_tracker).dut_map().contains_key(k) && k.0 == file_id ==> old(rec_tracker).dut_map()[k] < old(rec_tracker).spec_dut_total(file_id) + 1)
                && final(rec_tracker).tests == old(rec_tracker).tests && final(rec_tracker).wafers == old(rec_tracker).wafers && final(rec_tracker).hbins == old(rec_tracker).hbins && final(rec_tracker).sbins == old(rec_tracker).sbins,
            Record::PRR(pr) => ((match r {
                Ok(d) => d.warnings@.len() == 0 && prr_outcome(
                    *old(rec_tracker),
                    *final(rec_tracker),
                    file_id,
                    pr,
                    Ok(d.actions),
                ),
                Err(e) => prr_outcome(
                    *old(rec_tracker),
                    *final(rec_tracker),
                    file_id,
                    pr,
                    Err(e),
                ),
            }) && final(rec_tracker).tests == old(rec_tracker).tests && final(rec_tracker).duts == old(rec_tracker).duts && final(rec_tracker).wafers == old(rec_tracker).wafers),
            Record::PTR(pr) => ((match r {
                Ok(d) => d.warnings@.len() == 0 && ptr_outcome(
                    *old(rec_tracker),
                    *final(rec_tracker),
                    file_id,
                    pr,
                    Ok(d.actions),
                ),
                Err(e) => ptr_outcome(
                    *old(rec_tracker),
                    *final(rec_tracker),
                    file_id,
                    pr,
                    Err(e),
                ),
            }) && final(rec_tracker).duts == old(rec_tracker).duts && final(rec_tracker).wafers == old(rec_tracker).wafers && final(rec_tracker).groups == old(rec_tracker).groups && final(rec_tracker).hbins == old(rec_tracker).hbins && final(rec_tracker).sbins == old(rec_tracker).sbins),
            Record::MPR(pr) => ((match r {
                Ok(d) => d.warnings@.len() == 0 && mpr_outcome(
                    *old(rec_tracker),
                    *final(rec_tracker),
                    file_id,
                    pr,
                    Ok(d.actions),
                ),
                Err(e) => mpr_outcome(
                    *old(rec_tracker),
                    *final(rec_tracker),
                    file_id,
                    pr,
                    Err(e),
                ),
            }) && final(rec_tracker).duts == old(rec_tracker).duts && final(rec_tracker).wafers == old(rec_tracker).wafers && final(rec_tracker).groups == old(rec_tracker).groups && final(rec_tracker).hbins == old(rec_tracker).hbins && final(rec_tracker).sbins == old(rec_tracker).sbins),
            Record::FTR(pr) => ((match r {
                Ok(d) => d.warnings@.len() == 0 && ftr_outcome(
                    *old(rec_tracker),
                    *final(rec_tracker),
                    file_id,
                    pr,
                    Ok(d.actions),
                ),
                Err(e) => ftr_outcome(
                    *old(rec_tracker),
                    *final(rec_tracker),
                    file_id,
                    pr,
                    Err(e),
                ),
            }) && final(rec_tracker).duts == old(rec_tracker).duts && final(rec_tracker).wafers == old(rec_tracker).wafers && final(rec_tracker).groups == old(rec_tracker).groups && final(rec_tracker).hbins == old(rec_tracker).hbins && final(rec_tracker).sbins == old(rec_tracker).sbins),
            Record::WIR(pr) => r matches Ok(d) && d.warnings@.len() == 0 && d.actions@
                == wir_actions(
                file_id,
                pr,
                (old(rec_tracker).spec_wafer_total(file_id) + 1) as u64,
            ) && final(rec_tracker).wafer_map() == old(rec_tracker).wafer_map().insert(
                (file_id, pr.head_num),
                (old(rec_tracker).spec_wafer_total(file_id) + 1) as u64,
            ) && final(rec_tracker).group_map() == old(rec_tracker).group_map().insert(
                file_id,
                GroupView {
                    dut_total: old(rec_tracker).spec_dut_total(file_id),
                    wafer_total: (old(rec_tracker).spec_wafer_total(file_id) + 1) as u64,
                    before_prr: old(rec_tracker).spec_before_prr(file_id),
                    sections: old(rec_tracker).spec_sections(file_id),
                },
            ) && final(rec_tracker).tests == old(rec_tracker).tests && final(rec_tracker).duts == old(rec_tracker).duts && final(rec_tracker).hbins == old(rec_tracker).hbins && final(rec_tracker).sbins == old(rec_tracker).sbins,
            Record::WRR(pr) => (match r {
                Ok(d) => d.warnings@.len() == 0 && old(rec_tracker).wafer_map().contains_key(
                    (file_id, pr.head_num),
                ) && d.actions@ == wrr_actions(
                    file_id,
                    pr,
                    old(rec_tracker).wafer_map()[(file_id, pr.head_num)],
                ) && *final(rec_tracker) == *old(rec_tracker),
                Err(e) => !old(rec_tracker).wafer_map().contains_key((file_id, pr.head_num)) && e
                    == (StdfHelperError::WaferOrdering { group: file_id, head: pr.head_num }),
            }),
            Record::WCR(pr) => r matches Ok(d) && d.warnings@.len() == 0 && infos_match(
                d.actions@,
                file_id,
                subfile_id,
                filtered_rows(wcr_rows(pr)),
            ) && *final(rec_tracker) == *old(rec_tracker),
            Record::MIR(pr) => r matches Ok(d) && d.warnings@.len() == 0 && (exists|
                t1: Seq<char>,
                t2: Seq<char>,
            | #[trigger] mir_match(d.actions@, file_id, subfile_id, pr, t1, t2)) && *final(rec_tracker) == *old(rec_tracker),
            Record::MRR(pr) => r matches Ok(d) && d.warnings@.len() == 0 && (exists|t: Seq<char>|
                #[trigger] mrr_match(d.actions@, file_id, subfile_id, pr, t)) && *final(rec_tracker)
                == *old(rec_tracker),
            Record::PCR(pr) => r matches Ok(d) && d.warnings@.len() == 0 && d.actions@
                == pcr_actions(file_id, pr) && *final(rec_tracker) == *old(rec_tracker),
            Record::HBR(pr) => r matches Ok(d) && d.warnings@.len() == 0 && d.actions@.len() == 0
                && final(rec_tracker).hbin_map() == crate::tracker::noted_bin(
                old(rec_tracker).hbin_map(),
                file_id,
                pr.hbin_num,
                pr.hbin_nam@,
                crate::tracker::normalized_pf(pr.hbin_pf@),
            ) && final(rec_tracker).sbins == old(rec_tracker).sbins && final(rec_tracker).tests
                == old(rec_tracker).tests && final(rec_tracker).duts == old(rec_tracker).duts
                && final(rec_tracker).groups == old(rec_tracker).groups
                && final(rec_tracker).wafers == old(rec_tracker).wafers,
            Record::SBR(pr) => r matches Ok(d) && d.warnings@.len() == 0 && d.actions@.len() == 0
                && final(rec_tracker).sbin_map() == crate::tracker::noted_bin(
                old(rec_tracker).sbin_map(),
                file_id,
                pr.sbin_num,
                pr.sbin_nam@,
                crate::tracker::normalized_pf(pr.sbin_pf@),
            ) && final(rec_tracker).hbins == old(rec_tracker).hbins && final(rec_tracker).tests
                == old(rec_tracker).tests && final(rec_tracker).duts == old(rec_tracker).duts
                && final(rec_tracker).groups == old(rec_tracker).groups
                && final(rec_tracker).wafers == old(rec_tracker).wafers,
            Record::PMR(pr) => r matches Ok(d) && d.warnings@.len() == 0 && d.actions@
                == pmr_actions(file_id, pr) && *final(rec_tracker) == *old(rec_tracker),
            Record::PGR(pr) => r matches Ok(d) && d.warnings@.len() == 0 && d.actions@
                == pgr_actions(file_id, pr) && *final(rec_tracker) == *old(rec_tracker),
            Record::PLR(pr) => r matches Ok(d) && d.warnings@.len() == 0 && d.actions@
                == plr_actions(file_id, pr) && *final(rec_tracker) == *old(rec_tracker),
            Record::RDR(pr) => r matches Ok(d) && d.warnings@.len() == 0 && d.actions@.len() == 1
                && is_info(
                d.actions@[0],
                file_id,
                subfile_id,
                "Retest Hardware Bins"@,
                rdr_value(pr),
            ) && *final(rec_tracker) == *old(rec_tracker),
            Record::SDR(pr) => r matches Ok(d) && d.warnings@.len() == 0 && infos_match(
                d.actions@,
                file_id,
                subfile_id,
                filtered_rows(sdr_rows(pr)),
            ) && *final(rec_tracker) == *old(rec_tracker),
            Record::GDR(ref pr) => r matches Ok(d) && d.warnings@.len() == 0 && d.actions@.len()
                == 1 && (d.actions@[0] matches SinkAction::InsertDatalog {
                group,
                kind,
                value,
                after_dut_index,
                is_before_prr,
            } && group == file_id && kind == DatalogKind::Gdr && value@ == spec_gdr_text(
                pr.gen_data@,
            ) && after_dut_index == old(rec_tracker).spec_dut_total(file_id) && is_before_prr == old(rec_tracker).spec_before_prr(file_id)) && *final(rec_tracker) == *old(rec_tracker),
            Record::DTR(ref pr) => r matches Ok(d) && d.warnings@.len() == 0 && d.actions@.len()
                == 1 && (d.actions@[0] matches SinkAction::InsertDatalog {
                group,
                kind,
                value,
                after_dut_index,
                is_before_prr,
            } && group == file_id && kind == DatalogKind::Dtr && value@ == pr.text_dat@
                && after_dut_index == old(rec_tracker).spec_dut_total(file_id) && is_before_prr
                == old(rec_tracker).spec_before_prr(file_id)) && *final(rec_tracker) == *old(rec_tracker),
            Record::TSR(pr) => r matches Ok(d) && tsr_outcome(
                *old(rec_tracker),
                *final(rec_tracker),
                file_id,
                pr,
                d,
            ) && final(rec_tracker).duts == old(rec_tracker).duts && final(rec_tracker).groups
                == old(rec_tracker).groups && final(rec_tracker).wafers == old(rec_tracker).wafers
                && final(rec_tracker).hbins == old(rec_tracker).hbins
                && final(rec_tracker).sbins == old(rec_tracker).sbins,
            Record::FAR(pr) => r matches Ok(d) && d.warnings@.len() == 0 && d.actions@.len() == 2
                && is_info(
                d.actions@[0],
                file_id,
                subfile_id,
                "STDF Version"@,
                dec_str(pr.stdf_ver as nat),
            ) && is_info(
                d.actions@[1],
                file_id,
                subfile_id,
                "BYTE_ORD"@,
                if *order is LittleEndian {
                    "Little endian"@
                } else {
                    "Big endian"@
                },
            ) && *final(rec_tracker) == *old(rec_tracker),
            Record::ATR(pr) => r matches Ok(d) && d.warnings@.len() == 0 && (exists|t: Seq<char>|
                #[trigger] atr_match(d.actions@, file_id, subfile_id, pr, t)) && *final(rec_tracker)
                == *old(rec_tracker),
            Record::VUR(pr) => r matches Ok(d) && d.warnings@.len() == 0 && d.actions@.len() == 1
                && is_info(d.actions@[0], file_id, subfile_id, "STDF Version"@, pr.upd_nam@)
                && *final(rec_tracker) == *old(rec_tracker),
            Record::BPS(pr) => r matches Ok(d) && d.warnings@.len() == 0 && d.actions@.len() == 0
                && final(rec_tracker).group_map() == old(rec_tracker).group_map().insert(
                file_id,
                GroupView {
                    dut_total: old(rec_tracker).spec_dut_total(file_id),
                    wafer_total: old(rec_tracker).spec_wafer_total(file_id),
                    before_prr: old(rec_tracker).spec_before_prr(file_id),
                    sections: Some(
                        match old(rec_tracker).spec_sections(file_id) {
                            Some(ss) => ss.push(pr.seq_name@),
                            None => seq![pr.seq_name@],
                        },
                    ),
                },
            ) && final(rec_tracker).tests == old(rec_tracker).tests && final(rec_tracker).duts
                == old(rec_tracker).duts && final(rec_tracker).wafers == old(rec_tracker).wafers
                && final(rec_tracker).hbins == old(rec_tracker).hbins
                && final(rec_tracker).sbins == old(rec_tracker).sbins,
            Record::EPS => r matches Ok(d) && d.warnings@.len() == 0 && d.actions@.len() == 0 && (
            match old(rec_tracker).spec_sections(file_id) {
                Some(ss) => final(rec_tracker).group_map() == old(rec_tracker).group_map().insert(
                    file_id,
                    GroupView {
                        dut_total: old(rec_tracker).spec_dut_total(file_id),
                        wafer_total: old(rec_tracker).spec_wafer_total(file_id),
                        before_prr: old(rec_tracker).spec_before_prr(file_id),
                        sections: Some(if ss.len() > 0 { ss.drop_last() } else { ss }),
                    },
                ),
                None => final(rec_tracker).group_map() == old(rec_tracker).group_map(),
            }) && final(rec_tracker).tests == old(rec_tracker).tests && final(rec_tracker).duts
                == old(rec_tracker).duts && final(rec_tracker).wafers == old(rec_tracker).wafers
                && final(rec_tracker).hbins == old(rec_tracker).hbins
                && final(rec_tracker).sbins == old(rec_tracker).sbins,
            Record::InvalidRec { typ, sub, len } => r matches Err(e) && e
                == (StdfHelperError::InvalidRecord { typ, sub, len }) && *final(rec_tracker) == *old(rec_tracker),
            Record::Unhandled { type_code } => r matches Ok(d) && d.warnings@.len() == 1
                && d.warnings@[0]@ == spec_unhandled_warning(type_code) && d.actions@.len() == 0
                && *final(rec_tracker) == *old(rec_tracker),
        },
{
    let mut warnings: Vec<String> = Vec::new();
    let actions: Vec<SinkAction> = match rec {
        Record::PTR(pr) => on_ptr_rec(rec_tracker, file_id, pr)?,
        Record::MPR(pr) => on_mpr_rec(rec_tracker, file_id, pr)?,
        Record::FTR(pr) => on_ftr_rec(rec_tracker, file_id, pr)?,
        Record::PIR(pr) => on_pir_rec(rec_tracker, file_id, pr),
        Record::PRR(pr) => on_prr_rec(rec_tracker, file_id, pr)?,
        Record::WIR(pr) => on_wir_rec(rec_tracker, file_id, pr),
        Record::WRR(pr) => on_wrr_rec(rec_tracker, file_id, pr)?,
        Record::WCR(pr) => on_wcr_rec(file_id, subfile_id, pr),
        Record::GDR(pr) => on_gdr_rec(rec_tracker, file_id, pr),
        Record::DTR(pr) => on_dtr_rec(rec_tracker, file_id, pr),
        Record::TSR(pr) => {
            match rec_tracker.tsr_detected(file_id, pr) {
                Ok(None) => Vec::new(),
                Ok(Some(used)) => {
                    warnings.push(tsr_fallback_warning(file_id, pr.test_num, &pr.test_nam, &used));
                    Vec::new()
                },
                Err(e) => {
                    warnings.push(e.message());
                    Vec::new()
                },
            }
        },
        Record::MIR(pr) => on_mir_rec(file_id, subfile_id, pr),
        Record::MRR(pr) => on_mrr_rec(file_id, subfile_id, pr),
        Record::PCR(pr) => on_pcr_rec(file_id, pr),
        Record::HBR(pr) => {
            rec_tracker.hbr_detected(file_id, pr);
            Vec::new()
        },
        Record::SBR(pr) => {
            rec_tracker.sbr_detected(file_id, pr);
            Vec::new()
        },
        Record::PMR(pr) => on_pmr_rec(file_id, pr),
        Record::PGR(pr) => on_pgr_rec(file_id, pr),
        Record::PLR(pr) => on_plr_rec(file_id, pr),
        Record::RDR(pr) => on_rdr_rec(file_id, subfile_id, pr),
        Record::SDR(pr) => on_sdr_rec(file_id, subfile_id, pr),
        Record::FAR(pr) => on_far_rec(file_id, subfile_id, order, pr),
        Record::ATR(pr) => on_atr_rec(file_id, subfile_id, pr),
        Record::VUR(pr) => on_vur_rec(file_id, subfile_id, pr),
        Record::BPS(pr) => {
            let _ = rec_tracker.bps_detected(file_id, pr);
            Vec::new()
        },
        Record::EPS => {
            let _ = rec_tracker.eps_detected(file_id);
            Vec::new()
        },
        Record::InvalidRec { typ, sub, len } => {
            return Err(StdfHelperError::InvalidRecord { typ: *typ, sub: *sub, len: *len });
        },
        Record::Unhandled { type_code } => {
            warnings.push(unhandled_warning(*type_code));
            Vec::new()
        },
    };
    Ok(Dispatched { actions, warnings })
}

} // verus!
