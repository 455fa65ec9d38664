//! The write operations the ingestion core emits toward the relational
//! sink.
//!
//! Processing one record yields an ordered list of these actions; the
//! order matters (a superseding update must precede the device's own
//! row update) and is part of the dispatcher's contract.  A numeric
//! value that still needs the host's floating-point scaling crosses as
//! a `RealField`: the raw bit pattern plus the frozen power-of-ten
//! exponent.

use vstd::prelude::*;

verus! {

/// A numeric column value: absent (stored as NULL), or the raw IEEE-754
/// bit pattern of an `f32` together with the power-of-ten exponent the
/// host must apply before storage.
#[derive(Debug, PartialEq, Eq)]
pub enum RealField {
    Missing,
    Value { bits: u32, scale: i32 },
}

/// Which datalog record kind produced an entry.
#[derive(Debug, Clone, Copy, PartialEq, Eq, Structural)]
pub enum DatalogKind {
    Dtr,
    Gdr,
}

/// Which pin list a test-pin row belongs to.
#[derive(Debug, Clone, Copy, PartialEq, Eq, Structural)]
pub enum PinType {
    Rtn,
    Pgm,
}

/// One write operation toward the relational store, in the vocabulary
/// of its tables.
#[derive(Debug, PartialEq)]
#[allow(inconsistent_fields)]
pub enum SinkAction {
    /// A physical file path of a group, recorded before streaming.
    InsertFileName { group: u64, sub: u64, path: String },
    /// Group identity fields, filled from the first record carrying
    /// them.
    UpdateFileList {
        group: u64,
        sub: u64,
        lot_id: String,
        sublot_id: String,
        product_id: String,
        flow_id: String,
    },
    /// One (field, value) metadata row of a physical file.
    InsertFileInfo { group: u64, sub: u64, field: String, value: String },
    /// The row created at device start; identity only, results come at
    /// device end.
    InsertDut { group: u64, head: u8, site: u8, dut_index: u64 },
    /// The device-end update; always resets the superseded mark of its
    /// own row.
    UpdateDut {
        group: u64,
        dut_index: u64,
        num_test: u16,
        test_t: u32,
        part_id: String,
        hard_bin: u16,
        soft_bin: u16,
        part_flg: u8,
        wafer_index: Option<u64>,
        x_coord: Option<i16>,
        y_coord: Option<i16>,
    },
    /// Marks every stored device row of (group, head, site, part id)
    /// as superseded.
    SupersedeDut { group: u64, head: u8, site: u8, part_id: String },
    /// Marks every stored device row of (group, head, site, wafer,
    /// x, y) as superseded.
    SupersedeDie {
        group: u64,
        head: u8,
        site: u8,
        wafer_index: Option<u64>,
        x_coord: Option<i16>,
        y_coord: Option<i16>,
    },
    /// A scalar test result row.
    InsertPtrData { dut_index: u64, test_id: u64, result: RealField, test_flg: u8 },
    /// A multi-result row: the result array still needs scaling, the
    /// state array is already hex-encoded.
    InsertMprData {
        dut_index: u64,
        test_id: u64,
        rtn_rslt_bits: Vec<u32>,
        scale: i32,
        rtn_stat_hex: String,
        test_flg: u8,
    },
    /// A functional test result row.
    InsertFtrData { dut_index: u64, test_id: u64, test_flg: u8 },
    /// The definition row of a test, written once at its first
    /// sighting.
    InsertTestInfo {
        group: u64,
        test_id: u64,
        test_num: u32,
        rec_header: u8,
        test_name: String,
        res_scal: Option<i8>,
        lo_limit: RealField,
        hi_limit: RealField,
        unit: String,
        opt_flag: Option<u8>,
        rtn_icnt: Option<u16>,
        rslt_pgm_cnt: Option<u16>,
        lo_spec: RealField,
        hi_spec: RealField,
        vect_nam: Option<String>,
        seq_name: Option<String>,
    },
    /// A later scalar result carried limits: the host compares them —
    /// scaled — against the frozen defaults and writes a dynamic-limit
    /// row when a valid side drifted beyond float epsilon.
    CheckDynamicLimit {
        dut_index: u64,
        test_id: u64,
        lo_raw: u32,
        hi_raw: u32,
        default_lo: u32,
        default_hi: u32,
        scale: i32,
        opt_flag: u8,
    },
    /// A pin membership row of a test.
    InsertTestPin { test_id: u64, pmr_indx: u16, pin_type: PinType },
    /// A wafer row; device-start fields only until the wafer ends.
    InsertWafer {
        group: u64,
        head: u8,
        wafer_index: u64,
        part_cnt: Option<u32>,
        rtst_cnt: Option<u32>,
        abrt_cnt: Option<u32>,
        good_cnt: Option<u32>,
        func_cnt: Option<u32>,
        wafer_id: String,
        fabwf_id: Option<String>,
        frame_id: Option<String>,
        mask_id: Option<String>,
        usr_desc: Option<String>,
        exc_desc: Option<String>,
    },
    /// A per-(head, site) device count row.
    InsertDutCnt {
        group: u64,
        head: u8,
        site: u8,
        part_cnt: u32,
        rtst_cnt: u32,
        abrt_cnt: u32,
        good_cnt: u32,
        func_cnt: u32,
    },
    /// A datalog entry, placed relative to the current device.
    InsertDatalog {
        group: u64,
        kind: DatalogKind,
        value: String,
        after_dut_index: u64,
        is_before_prr: bool,
    },
    /// A hardware-bin definition row (upsert).
    InsertHbin { group: u64, bin_num: u16, bin_name: String, bin_pf: String },
    /// A software-bin definition row (upsert).
    InsertSbin { group: u64, bin_num: u16, bin_name: String, bin_pf: String },
    /// The accumulated fail count of a test, written at finalization.
    UpdateFailCount { test_id: u64, count: u64 },
    /// A pin map row.
    InsertPinMap {
        group: u64,
        head: u8,
        site: u8,
        pmr_indx: u16,
        chan_typ: u16,
        chan_nam: Option<String>,
        phy_nam: Option<String>,
        log_nam: Option<String>,
    },
    /// The name row of a pin group.
    InsertGrpName { group: u64, grp_indx: u16, grp_nam: String },
    /// Back-fills the group membership of a pin.
    UpdateFromGrp { group: u64, grp_indx: u16, pmr_indx: u16 },
    /// A pin-group description row, keeping any recorded group name.
    InsertPinInfo {
        group: u64,
        p_pg_indx: u16,
        grp_mode: u16,
        grp_radx: u8,
        pgm_char: Option<String>,
        pgm_chal: Option<String>,
        rtn_char: Option<String>,
        rtn_chal: Option<String>,
    },
}

impl SinkAction {
    /// Whether the host must resolve floating-point payloads before
    /// this action can reach the store.
    pub open spec fn spec_needs_host(&self) -> bool {
        match self {
            SinkAction::InsertPtrData { .. } => true,
            SinkAction::InsertMprData { .. } => true,
            SinkAction::InsertTestInfo { .. } => true,
            SinkAction::CheckDynamicLimit { .. } => true,
            _ => false,
        }
    }

    /// Tests whether the host must resolve floating-point payloads
    /// before this action can reach the store.
    pub fn needs_host(&self) -> (r: bool)
        ensures
            r == self.spec_needs_host(),
    {
        match self {
            SinkAction::InsertPtrData { .. } => true,
            SinkAction::InsertMprData { .. } => true,
            SinkAction::InsertTestInfo { .. } => true,
            SinkAction::CheckDynamicLimit { .. } => true,
            _ => false,
        }
    }
}

} // verus!
