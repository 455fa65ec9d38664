//! The library's own model of the STDF record kinds the ingestion core
//! consumes.
//!
//! The byte-level decoder is an external collaborator; the host converts
//! its decoded records into these plain-value structs.  Numeric fields
//! that the host holds as `f32` arrive as raw IEEE-754 bit patterns when
//! the core must reason about them (results, limits), and as pre-rendered
//! text when they are only ever displayed (wafer geometry, generic data).
//! Single-character codes arrive as one-character strings.

use vstd::prelude::*;

verus! {

/// Byte order of the file a record came from.
pub enum ByteOrder {
    LittleEndian,
    BigEndian,
}

/// Device start (part information record).
pub struct PIR {
    pub head_num: u8,
    pub site_num: u8,
}

/// Device end (part results record).
pub struct PRR {
    pub head_num: u8,
    pub site_num: u8,
    /// Part flags: bit 0 = supersedes same part id, bit 1 = supersedes
    /// same die, bits 3/4 = pass/fail classification.
    pub part_flg: u8,
    pub num_test: u16,
    pub test_t: u32,
    pub hard_bin: u16,
    pub soft_bin: u16,
    /// `-32768` means "no coordinate".
    pub x_coord: i16,
    pub y_coord: i16,
    pub part_id: String,
}

/// Scalar test result (parametric test record).
pub struct PTR {
    pub test_num: u32,
    pub head_num: u8,
    pub site_num: u8,
    pub test_flg: u8,
    /// Bit pattern of the raw (unscaled) result.
    pub result_bits: u32,
    pub test_txt: String,
    pub opt_flag: Option<u8>,
    pub res_scal: Option<i8>,
    /// Bit patterns of the raw (unscaled) limits, when present.
    pub lo_limit_bits: Option<u32>,
    pub hi_limit_bits: Option<u32>,
    pub units: Option<String>,
    pub lo_spec_bits: Option<u32>,
    pub hi_spec_bits: Option<u32>,
}

/// Multi-result test (multiple-result parametric record).
pub struct MPR {
    pub test_num: u32,
    pub head_num: u8,
    pub site_num: u8,
    pub test_flg: u8,
    pub rtn_icnt: u16,
    pub rslt_cnt: u16,
    pub rtn_stat: Vec<u8>,
    /// Bit patterns of the raw (unscaled) returned results.
    pub rtn_rslt_bits: Vec<u32>,
    pub test_txt: String,
    pub opt_flag: Option<u8>,
    pub res_scal: Option<i8>,
    pub lo_limit_bits: Option<u32>,
    pub hi_limit_bits: Option<u32>,
    pub rtn_indx: Option<Vec<u16>>,
    pub units: Option<String>,
    pub lo_spec_bits: Option<u32>,
    pub hi_spec_bits: Option<u32>,
}

/// Functional test result record.
pub struct FTR {
    pub test_num: u32,
    pub head_num: u8,
    pub site_num: u8,
    pub test_flg: u8,
    pub opt_flag: u8,
    pub rtn_icnt: u16,
    pub pgm_icnt: u16,
    pub rtn_indx: Vec<u16>,
    pub pgm_indx: Vec<u16>,
    pub vect_nam: String,
    pub test_txt: String,
}

/// Wafer start record.
pub struct WIR {
    pub head_num: u8,
    pub wafer_id: String,
}

/// Wafer end record with final counts.
pub struct WRR {
    pub head_num: u8,
    pub part_cnt: u32,
    pub rtst_cnt: u32,
    pub abrt_cnt: u32,
    pub good_cnt: u32,
    pub func_cnt: u32,
    pub wafer_id: String,
    pub fabwf_id: String,
    pub frame_id: String,
    pub mask_id: String,
    pub usr_desc: String,
    pub exc_desc: String,
}

/// Wafer configuration record.  The geometry values are pre-rendered
/// text; `None` stands for an absent (zero) dimension.
pub struct WCR {
    pub wafr_siz: Option<String>,
    pub die_ht: Option<String>,
    pub die_wid: Option<String>,
    pub wf_units: u8,
    pub wf_flat: String,
    /// `-32768` means "no center coordinate".
    pub center_x: i16,
    pub center_y: i16,
    pub pos_x: String,
    pub pos_y: String,
}

/// Master information record: lot-level metadata.  Single-character
/// codes are one-character strings; a space means "absent".
pub struct MIR {
    pub setup_t: u32,
    pub start_t: u32,
    pub stat_num: u8,
    pub mode_cod: String,
    pub rtst_cod: String,
    pub prot_cod: String,
    /// `65535` means "absent".
    pub burn_tim: u16,
    pub cmod_cod: String,
    pub lot_id: String,
    pub part_typ: String,
    pub node_nam: String,
    pub tstr_typ: String,
    pub job_nam: String,
    pub job_rev: String,
    pub sblot_id: String,
    pub oper_nam: String,
    pub exec_typ: String,
    pub exec_ver: String,
    pub test_cod: String,
    pub tst_temp: String,
    pub user_txt: String,
    pub aux_file: String,
    pub pkg_typ: String,
    pub famly_id: String,
    pub date_cod: String,
    pub facil_id: String,
    pub floor_id: String,
    pub proc_id: String,
    pub oper_frq: String,
    pub spec_nam: String,
    pub spec_ver: String,
    pub flow_id: String,
    pub setup_id: String,
    pub dsgn_rev: String,
    pub eng_id: String,
    pub rom_cod: String,
    pub serl_num: String,
    pub supr_nam: String,
}

/// Master results record.
pub struct MRR {
    pub finish_t: u32,
    pub disp_cod: String,
    pub usr_desc: String,
    pub exc_desc: String,
}

/// Part count record.
pub struct PCR {
    pub head_num: u8,
    pub site_num: u8,
    pub part_cnt: u32,
    pub rtst_cnt: u32,
    pub abrt_cnt: u32,
    pub good_cnt: u32,
    pub func_cnt: u32,
}

/// Hardware bin summary record.
pub struct HBR {
    pub hbin_num: u16,
    pub hbin_pf: String,
    pub hbin_nam: String,
}

/// Software bin summary record.
pub struct SBR {
    pub sbin_num: u16,
    pub sbin_pf: String,
    pub sbin_nam: String,
}

/// Pin map record.
pub struct PMR {
    pub head_num: u8,
    pub site_num: u8,
    pub pmr_indx: u16,
    pub chan_typ: u16,
    pub chan_nam: String,
    pub phy_nam: String,
    pub log_nam: String,
}

/// Pin group record.
pub struct PGR {
    pub grp_indx: u16,
    pub grp_nam: String,
    pub pmr_indx: Vec<u16>,
}

/// Pin list record.
pub struct PLR {
    pub grp_cnt: u16,
    pub grp_indx: Vec<u16>,
    pub grp_mode: Vec<u16>,
    pub grp_radx: Vec<u8>,
    pub pgm_char: Vec<String>,
    pub pgm_chal: Vec<String>,
    pub rtn_char: Vec<String>,
    pub rtn_chal: Vec<String>,
}

/// Retest data record.
pub struct RDR {
    pub num_bins: u16,
    pub rtst_bin: Vec<u16>,
}

/// Site description record.
pub struct SDR {
    pub site_grp: u8,
    pub hand_typ: String,
    pub hand_id: String,
    pub card_typ: String,
    pub card_id: String,
    pub load_typ: String,
    pub load_id: String,
    pub dib_typ: String,
    pub dib_id: String,
    pub cabl_typ: String,
    pub cabl_id: String,
    pub cont_typ: String,
    pub cont_id: String,
    pub lasr_typ: String,
    pub lasr_id: String,
    pub extr_typ: String,
    pub extr_id: String,
}

/// One value of a generic data record.  Real values are pre-rendered
/// text, since the core only displays them.
pub enum V1 {
    B0,
    U1(u8),
    U2(u16),
    U4(u32),
    I1(i8),
    I2(i16),
    I4(i32),
    R4(String),
    R8(String),
    Cn(String),
    Bn(Vec<u8>),
    Dn(Vec<u8>),
    N1(u8),
    Invalid,
}

/// Generic data record.
pub struct GDR {
    pub gen_data: Vec<V1>,
}

/// Datalog text record.
pub struct DTR {
    pub text_dat: String,
}

/// Test synopsis record: aggregated per-test counts.
pub struct TSR {
    pub test_num: u32,
    pub test_nam: String,
    /// `u32::MAX` means "count not valid".
    pub fail_cnt: u32,
}

/// File attributes record.
pub struct FAR {
    pub stdf_ver: u8,
}

/// Audit trail record.
pub struct ATR {
    pub mod_tim: u32,
    pub cmd_line: String,
}

/// Version update record.
pub struct VUR {
    pub upd_nam: String,
}

/// Program section start record.
pub struct BPS {
    pub seq_name: String,
}

/// A decoded record, as the closed set of kinds the core dispatches on.
pub enum Record {
    PIR(PIR),
    PRR(PRR),
    PTR(PTR),
    MPR(MPR),
    FTR(FTR),
    WIR(WIR),
    WRR(WRR),
    WCR(WCR),
    MIR(MIR),
    MRR(MRR),
    PCR(PCR),
    HBR(HBR),
    SBR(SBR),
    PMR(PMR),
    PGR(PGR),
    PLR(PLR),
    RDR(RDR),
    SDR(SDR),
    GDR(GDR),
    DTR(DTR),
    TSR(TSR),
    FAR(FAR),
    ATR(ATR),
    VUR(VUR),
    /// Program section start.
    BPS(BPS),
    /// Program section end.
    EPS,
    /// A structurally invalid record header: fatal.
    InvalidRec { typ: u8, sub: u8, len: u16 },
    /// A record kind the core does not ingest: skipped, but reported,
    /// so that format drift is never masked.  Carries the decoder's
    /// record type code.
    Unhandled { type_code: u64 },
}

} // verus!
