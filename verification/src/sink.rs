//! The relational sink: schema, prepared writes and transaction policy
//! over a SQLite store.
//!
//! Every statement is a fixed SQL text run through rusqlite's prepared
//! statement cache, so no SQL is assembled per row.  Schema creation is
//! idempotent (drop, then create) and runs once, in its own
//! transaction, with durability pragmas relaxed for the bulk phase;
//! `finalize` restores them and optionally builds the deferred device
//! lookup index.  Each write wrapper is trusted only to bind the given
//! values to its statement; storage errors are propagated unmodified.
//! The verified `execute` maps every emitted action that carries no
//! floating-point payload onto its wrapper; the four action kinds that
//! do are bound by the host through the dedicated public methods, with
//! numeric text cast to REAL by the statement itself.

use vstd::prelude::*;
use crate::actions::{DatalogKind, PinType, SinkAction};
use crate::errors::StdfHelperError;

verus! {

#[verifier::external_type_specification]
#[verifier::external_body]
pub struct ExConnection(rusqlite::Connection);

/// The view of an optional text value.
pub open spec fn opt_view(s: Option<String>) -> Option<Seq<char>> {
    match s {
        Some(v) => Some(v@),
        None => None,
    }
}

/// One row as the sink binds it: the ghost image of what a write
/// wrapper hands to its prepared statement.  `DataBaseCtx` keeps the
/// sequence of these in its write log, so callers can reason about
/// exactly what was sent to the store, in order.
#[allow(inconsistent_fields)]
pub enum SinkRow {
    FileName { group: u64, sub: u64, path: Seq<char> },
    FileList {
        group: u64,
        sub: u64,
        lot_id: Seq<char>,
        sublot_id: Seq<char>,
        product_id: Seq<char>,
        flow_id: Seq<char>,
    },
    FileInfo { group: u64, sub: u64, field: Seq<char>, value: Seq<char> },
    DutStart { group: u64, head: u8, site: u8, dut_index: u64 },
    DutEnd {
        group: u64,
        dut_index: u64,
        num_test: u16,
        test_t: u32,
        part_id: Seq<char>,
        hard_bin: u16,
        soft_bin: u16,
        part_flg: u8,
        wafer_index: Option<u64>,
        x_coord: Option<i16>,
        y_coord: Option<i16>,
    },
    SupersededPart { group: u64, head: u8, site: u8, part_id: Seq<char> },
    SupersededDie {
        group: u64,
        head: u8,
        site: u8,
        wafer_index: Option<u64>,
        x_coord: Option<i16>,
        y_coord: Option<i16>,
    },
    PtrData { dut_index: u64, test_id: u64, result: Option<Seq<char>>, test_flg: u8 },
    MprData {
        dut_index: u64,
        test_id: u64,
        rslt_hex: Seq<char>,
        stat_hex: Seq<char>,
        test_flg: u8,
    },
    FtrData { dut_index: u64, test_id: u64, test_flg: u8 },
    TestInfo {
        group: u64,
        test_id: u64,
        test_num: u32,
        rec_header: u8,
        test_name: Seq<char>,
        res_scal: Option<i8>,
        lo_limit: Option<Seq<char>>,
        hi_limit: Option<Seq<char>>,
        unit: Seq<char>,
        opt_flag: Option<u8>,
        rtn_icnt: Option<u16>,
        rslt_pgm_cnt: Option<u16>,
        lo_spec: Option<Seq<char>>,
        hi_spec: Option<Seq<char>>,
        vect_nam: Option<Seq<char>>,
        seq_name: Option<Seq<char>>,
    },
    DynamicLimit {
        dut_index: u64,
        test_id: u64,
        lo_limit: Option<Seq<char>>,
        hi_limit: Option<Seq<char>>,
    },
    TestPin { test_id: u64, pmr_indx: u16, pin_type: Seq<char> },
    Wafer {
        group: u64,
        head: u8,
        wafer_index: u64,
        part_cnt: Option<u32>,
        rtst_cnt: Option<u32>,
        abrt_cnt: Option<u32>,
        good_cnt: Option<u32>,
        func_cnt: Option<u32>,
        wafer_id: Seq<char>,
        fabwf_id: Option<Seq<char>>,
        frame_id: Option<Seq<char>>,
        mask_id: Option<Seq<char>>,
        usr_desc: Option<Seq<char>>,
        exc_desc: Option<Seq<char>>,
    },
    DutCnt {
        group: u64,
        head: u8,
        site: u8,
        part_cnt: u32,
        rtst_cnt: u32,
        abrt_cnt: u32,
        good_cnt: u32,
        func_cnt: u32,
    },
    Datalog {
        group: u64,
        rec_typ: Seq<char>,
        value: Seq<char>,
        after_dut_index: u64,
        is_before_prr: bool,
    },
    Hbin { group: u64, bin_num: u16, bin_name: Seq<char>, bin_pf: Seq<char> },
    Sbin { group: u64, bin_num: u16, bin_name: Seq<char>, bin_pf: Seq<char> },
    FailCount { test_id: u64, count: u64 },
    PinMap {
        group: u64,
        head: u8,
        site: u8,
        pmr_indx: u16,
        chan_typ: u16,
        chan_nam: Option<Seq<char>>,
        phy_nam: Option<Seq<char>>,
        log_nam: Option<Seq<char>>,
    },
    GrpName { group: u64, grp_indx: u16, grp_nam: Seq<char> },
    FromGrp { group: u64, grp_indx: u16, pmr_indx: u16 },
    PinInfo {
        group: u64,
        p_pg_indx: u16,
        grp_mode: u16,
        grp_radx: u8,
        pgm_char: Option<Seq<char>>,
        pgm_chal: Option<Seq<char>>,
        rtn_char: Option<Seq<char>>,
        rtn_chal: Option<Seq<char>>,
    },
}

pub const CREATE_TABLE_SQL: &'static str = "DROP TABLE IF EXISTS File_List;
    DROP TABLE IF EXISTS File_Info;
    DROP TABLE IF EXISTS Dut_Info;
    DROP TABLE IF EXISTS Dut_Counts;
    DROP TABLE IF EXISTS Test_Info;
    DROP TABLE IF EXISTS PTR_Data;
    DROP TABLE IF EXISTS MPR_Data;
    DROP TABLE IF EXISTS FTR_Data;
    DROP TABLE IF EXISTS Bin_Info;
    DROP TABLE IF EXISTS Wafer_Info;
    DROP TABLE IF EXISTS Pin_Map;
    DROP TABLE IF EXISTS Pin_Info;
    DROP TABLE IF EXISTS TestPin_Map;
    DROP TABLE IF EXISTS Dynamic_Limits;
    DROP TABLE IF EXISTS Datalog;
    DROP INDEX IF EXISTS dutKey;
    VACUUM;
    BEGIN;
    CREATE TABLE IF NOT EXISTS File_List (
        Fid INTEGER, SubFid INTEGER, Filename TEXT, Lot_ID TEXT,
        Sublot_ID TEXT, Product_ID TEXT, Flow_ID TEXT,
        PRIMARY KEY (Fid, SubFid));
    CREATE TABLE IF NOT EXISTS File_Info (
        Fid INTEGER, SubFid INTEGER, Field TEXT, Value TEXT,
        PRIMARY KEY (Fid, SubFid, Field));
    CREATE TABLE IF NOT EXISTS Wafer_Info (
        Fid INTEGER, HEAD_NUM INTEGER, WaferIndex INTEGER,
        PART_CNT INTEGER, RTST_CNT INTEGER, ABRT_CNT INTEGER,
        GOOD_CNT INTEGER, FUNC_CNT INTEGER, WAFER_ID TEXT, FABWF_ID TEXT,
        FRAME_ID TEXT, MASK_ID TEXT, USR_DESC TEXT, EXC_DESC TEXT,
        PRIMARY KEY (Fid, WaferIndex)) WITHOUT ROWID;
    CREATE TABLE IF NOT EXISTS Dut_Info (
        Fid INTEGER, HEAD_NUM INTEGER, SITE_NUM INTEGER, DUTIndex INTEGER,
        TestCount INTEGER, TestTime INTEGER, PartID TEXT, HBIN INTEGER,
        SBIN INTEGER, Flag INTEGER, WaferIndex INTEGER, XCOORD INTEGER,
        YCOORD INTEGER, Supersede INTEGER,
        PRIMARY KEY (Fid, DUTIndex)) WITHOUT ROWID;
    CREATE TABLE IF NOT EXISTS Dut_Counts (
        Fid INTEGER, HEAD_NUM INTEGER, SITE_NUM INTEGER, PART_CNT INTEGER,
        RTST_CNT INTEGER, ABRT_CNT INTEGER, GOOD_CNT INTEGER,
        FUNC_CNT INTEGER);
    CREATE TABLE IF NOT EXISTS Test_Info (
        Fid INTEGER, TEST_ID INTEGER, TEST_NUM INTEGER, recHeader INTEGER,
        TEST_NAME TEXT, RES_SCAL INTEGER, LLimit REAL, HLimit REAL,
        Unit TEXT, OPT_FLAG INTEGER, FailCount INTEGER, RTN_ICNT INTEGER,
        RSLT_PGM_CNT INTEGER, LSpec REAL, HSpec REAL, VECT_NAM TEXT,
        SEQ_NAME TEXT,
        PRIMARY KEY (Fid, TEST_NUM, TEST_NAME)) WITHOUT ROWID;
    CREATE TABLE IF NOT EXISTS PTR_Data (
        DUTIndex INTEGER, TEST_ID INTEGER, RESULT REAL, TEST_FLAG INTEGER,
        PRIMARY KEY (DUTIndex, TEST_ID)) WITHOUT ROWID;
    CREATE TABLE IF NOT EXISTS MPR_Data (
        DUTIndex INTEGER, TEST_ID INTEGER, RTN_RSLT TEXT, RTN_STAT TEXT,
        TEST_FLAG INTEGER,
        PRIMARY KEY (DUTIndex, TEST_ID)) WITHOUT ROWID;
    CREATE TABLE IF NOT EXISTS FTR_Data (
        DUTIndex INTEGER, TEST_ID INTEGER, TEST_FLAG INTEGER,
        PRIMARY KEY (DUTIndex, TEST_ID)) WITHOUT ROWID;
    CREATE TABLE IF NOT EXISTS Bin_Info (
        Fid INTEGER, BIN_TYPE TEXT, BIN_NUM INTEGER, BIN_NAME TEXT,
        BIN_PF TEXT,
        PRIMARY KEY (Fid, BIN_TYPE, BIN_NUM));
    CREATE TABLE IF NOT EXISTS Pin_Map (
        Fid INTEGER, HEAD_NUM INTEGER, SITE_NUM INTEGER, PMR_INDX INTEGER,
        CHAN_TYP INTEGER, CHAN_NAM TEXT, PHY_NAM TEXT, LOG_NAM TEXT,
        From_GRP INTEGER);
    CREATE TABLE IF NOT EXISTS Pin_Info (
        Fid INTEGER, P_PG_INDX INTEGER, GRP_NAM TEXT, GRP_MODE INTEGER,
        GRP_RADX INTEGER, PGM_CHAR TEXT, PGM_CHAL TEXT, RTN_CHAR TEXT,
        RTN_CHAL TEXT,
        PRIMARY KEY (Fid, P_PG_INDX));
    CREATE TABLE IF NOT EXISTS TestPin_Map (
        TEST_ID INTEGER, PMR_INDX INTEGER, PIN_TYPE TEXT,
        PRIMARY KEY (TEST_ID, PMR_INDX, PIN_TYPE));
    CREATE TABLE IF NOT EXISTS Dynamic_Limits (
        DUTIndex INTEGER, TEST_ID INTEGER, LLimit REAL, HLimit REAL,
        PRIMARY KEY (DUTIndex, TEST_ID)) WITHOUT ROWID;
    CREATE TABLE IF NOT EXISTS Datalog (
        Fid INTEGER, RecordType TEXT, Value TEXT, AfterDUTIndex INTEGER,
        isBeforePRR INTEGER);
    COMMIT;
    PRAGMA synchronous = OFF;
    PRAGMA journal_mode = OFF;
    PRAGMA locking_mode = EXCLUSIVE;
    BEGIN;";

pub const CREATE_INDEX_SQL: &'static str = "CREATE INDEX
        dutKey
    ON
        Dut_Info (Fid ASC, HEAD_NUM ASC, SITE_NUM ASC);";

pub const COMMIT_AND_SET_LOCKING: &'static str = "COMMIT; PRAGMA locking_mode = NORMAL";

pub const START_NEW_TRANSACTION: &'static str = "COMMIT; BEGIN;";

const INSERT_FILE_NAME: &'static str =
    "INSERT INTO File_List (Fid, SubFid, Filename) VALUES (?,?,?)";

const UPDATE_FILE_LIST: &'static str = "UPDATE File_List SET
        Lot_ID=?, Sublot_ID=?, Product_ID=?, Flow_ID=?
    WHERE Fid=? AND SubFid=?";

const INSERT_FILE_INFO: &'static str = "INSERT OR REPLACE INTO File_Info VALUES (?,?,?,?)";

const INSERT_DUT: &'static str =
    "INSERT INTO Dut_Info (Fid, HEAD_NUM, SITE_NUM, DUTIndex) VALUES (?,?,?,?);";

const UPDATE_DUT: &'static str = "UPDATE Dut_Info SET
        TestCount=?, TestTime=?, PartID=?, HBIN=?, SBIN=?, Flag=?,
        WaferIndex=?, XCOORD=?, YCOORD=?, Supersede=0
    WHERE Fid=? AND DUTIndex=?;";

const UPDATE_SUPERSEDE_DUT: &'static str = "UPDATE Dut_Info SET Supersede=1
    WHERE Fid=? AND HEAD_NUM=? AND SITE_NUM=? AND PartID=?;";

const UPDATE_SUPERSEDE_DIE: &'static str = "UPDATE Dut_Info SET Supersede=1
    WHERE Fid=? AND HEAD_NUM=? AND SITE_NUM=? AND WaferIndex=? AND XCOORD=? AND YCOORD=?;";

const INSERT_PTR_DATA: &'static str =
    "INSERT OR REPLACE INTO PTR_Data VALUES (?, ?, CAST(? AS REAL), ?);";

const INSERT_MPR_DATA: &'static str = "INSERT OR REPLACE INTO MPR_Data VALUES (?, ?, ?, ?, ?);";

const INSERT_FTR_DATA: &'static str = "INSERT OR REPLACE INTO FTR_Data VALUES (?, ?, ?);";

const INSERT_TEST_INFO: &'static str = "INSERT INTO Test_Info VALUES
    (?, ?, ?, ?, ?, ?, CAST(? AS REAL), CAST(? AS REAL), ?, ?, -1, ?, ?,
     CAST(? AS REAL), CAST(? AS REAL), ?, ?);";

const UPDATE_FAIL_COUNT: &'static str = "UPDATE Test_Info SET FailCount=? WHERE TEST_ID=?";

const INSERT_HBIN: &'static str = "INSERT OR REPLACE INTO Bin_Info VALUES (?, 'H', ?, ?, ?);";

const INSERT_SBIN: &'static str = "INSERT OR REPLACE INTO Bin_Info VALUES (?, 'S', ?, ?, ?);";

const INSERT_DUT_COUNT: &'static str = "INSERT INTO Dut_Counts VALUES (?,?,?,?,?,?,?,?);";

const INSERT_WAFER: &'static str =
    "INSERT OR REPLACE INTO Wafer_Info VALUES (?,?,?,?,?,?,?,?,?,?,?,?,?,?);";

const INSERT_PIN_MAP: &'static str = "INSERT INTO Pin_Map VALUES (?,?,?,?,?,?,?,?,?);";

const UPDATE_FROM_GRP: &'static str =
    "UPDATE Pin_Map SET From_GRP=? WHERE Fid=? AND PMR_INDX=?;";

const INSERT_GRP_NAM: &'static str =
    "INSERT OR IGNORE INTO Pin_Info (Fid, P_PG_INDX, GRP_NAM) VALUES (?, ?, ?);";

const INSERT_PIN_INFO: &'static str = "INSERT OR REPLACE INTO Pin_Info VALUES
    (?, ?,
     (SELECT GRP_NAM FROM Pin_Info WHERE Fid=?1 AND P_PG_INDX=?2),
     ?, ?, ?, ?, ?, ?);";

const INSERT_TEST_PIN: &'static str = "INSERT OR IGNORE INTO TestPin_Map VALUES (?, ?, ?);";

const INSERT_DYNAMIC_LIMIT: &'static str =
    "INSERT OR REPLACE INTO Dynamic_Limits VALUES (?, ?, CAST(? AS REAL), CAST(? AS REAL));";

const INSERT_DATALOG: &'static str = "INSERT INTO Datalog VALUES (?, ?, ?, ?, ?);";

/// The relational sink: owns the connection and all persisted state.
/// The ghost write log records every row the wrappers bound, in
/// order; the verified router's contract is stated over it.
pub struct DataBaseCtx {
    conn: rusqlite::Connection,
    log: Ghost<Seq<SinkRow>>,
}

impl DataBaseCtx {
    /// The rows the sink has bound so far, in order.
    pub closed spec fn write_log(&self) -> Seq<SinkRow> {
        self.log@
    }
}

impl DataBaseCtx {
    /// Relies on rusqlite (`Connection::execute_batch`): drops and
    /// recreates the schema inside one transaction, relaxes the
    /// durability pragmas for the bulk phase, and leaves a transaction
    /// open.
    #[verifier::external_body]
    fn init_schema(conn: &rusqlite::Connection) -> (r: Result<(), StdfHelperError>) {
        match conn.execute_batch(CREATE_TABLE_SQL) {
            Ok(_) => {
                conn.set_prepared_statement_cache_capacity(64);
                Ok(())
            },
            Err(e) => Err(StdfHelperError::Storage { msg: e.to_string() }),
        }
    }

    /// Builds the sink over a fresh connection: idempotent schema
    /// creation, bulk-write pragmas, and an empty write log.
    pub fn new(conn: rusqlite::Connection) -> (r: Result<DataBaseCtx, StdfHelperError>)
        ensures
            r matches Ok(db) ==> db.write_log() == Seq::<SinkRow>::empty(),
    {
        DataBaseCtx::init_schema(&conn)?;
        Ok(DataBaseCtx { conn, log: Ghost(Seq::empty()) })
    }

    /// Relies on rusqlite (`Connection::execute_batch`): commits the
    /// open transaction and begins a new one (the record-count
    /// checkpoint).
    #[verifier::external_body]
    pub fn start_new_transaction(&mut self) -> (r: Result<(), StdfHelperError>)
        ensures
            final(self).write_log() == old(self).write_log(),
    {
        self.conn.execute_batch(START_NEW_TRANSACTION).map_err(
            |e| StdfHelperError::Storage { msg: e.to_string() },
        )
    }

    /// Relies on rusqlite (`Connection::execute_batch`): optionally
    /// builds the deferred (group, head, site) device index, commits,
    /// and restores normal locking; returns the connection for the
    /// host to close.
    #[verifier::external_body]
    pub fn finalize(self, build_db_index: bool) -> (r: Result<
        rusqlite::Connection,
        StdfHelperError,
    >) {
        if build_db_index {
            if let Err(e) = self.conn.execute_batch(CREATE_INDEX_SQL) {
                return Err(StdfHelperError::Storage { msg: e.to_string() });
            }
        }
        match self.conn.execute_batch(COMMIT_AND_SET_LOCKING) {
            Ok(_) => Ok(self.conn),
            Err(e) => Err(StdfHelperError::Storage { msg: e.to_string() }),
        }
    }

    /// Relies on rusqlite (`prepare_cached`, `Statement::execute`):
    /// binds and runs the file-name insert.
    #[verifier::external_body]
    pub fn insert_file_name(&mut self, group: u64, sub: u64, path: &String) -> (r: Result<
        (),
        StdfHelperError,
    >)
        ensures
            r is Ok ==> final(self).write_log() == old(self).write_log().push(
                SinkRow::FileName { group, sub, path: path@ },
            ),
            r is Err ==> final(self).write_log() == old(self).write_log(),
    {
        let g = group as i64;
        let s = sub as i64;
        let p: [&dyn rusqlite::ToSql; 3] = [&g, &s, path];
        self.conn.prepare_cached(INSERT_FILE_NAME)
            .and_then(|mut s| s.execute(&p[..]))
            .map(|_| ())
            .map_err(|e| StdfHelperError::Storage { msg: e.to_string() })
    }

    /// Relies on rusqlite (`prepare_cached`, `Statement::execute`):
    /// binds and runs the group-identity update.
    #[verifier::external_body]
    pub fn update_file_list(
        &mut self,
        group: u64,
        sub: u64,
        lot_id: &String,
        sublot_id: &String,
        product_id: &String,
        flow_id: &String,
    ) -> (r: Result<(), StdfHelperError>)
        ensures
            r is Ok ==> final(self).write_log() == old(self).write_log().push(
                SinkRow::FileList { group, sub, lot_id: lot_id@, sublot_id: sublot_id@, product_id: product_id@, flow_id: flow_id@ },
            ),
            r is Err ==> final(self).write_log() == old(self).write_log(),
    {
        let g = group as i64;
        let s = sub as i64;
        let p: [&dyn rusqlite::ToSql; 6] = [lot_id, sublot_id, product_id, flow_id, &g, &s];
        self.conn.prepare_cached(UPDATE_FILE_LIST)
            .and_then(|mut s| s.execute(&p[..]))
            .map(|_| ())
            .map_err(|e| StdfHelperError::Storage { msg: e.to_string() })
    }

    /// Relies on rusqlite (`prepare_cached`, `Statement::execute`):
    /// binds and runs the metadata upsert.
    #[verifier::external_body]
    pub fn insert_file_info(&mut self, group: u64, sub: u64, field: &String, value: &String) -> (r:
        Result<(), StdfHelperError>)
        ensures
            r is Ok ==> final(self).write_log() == old(self).write_log().push(
                SinkRow::FileInfo { group, sub, field: field@, value: value@ },
            ),
            r is Err ==> final(self).write_log() == old(self).write_log(),
    {
        let g = group as i64;
        let s = sub as i64;
        let p: [&dyn rusqlite::ToSql; 4] = [&g, &s, field, value];
        self.conn.prepare_cached(INSERT_FILE_INFO)
            .and_then(|mut s| s.execute(&p[..]))
            .map(|_| ())
            .map_err(|e| StdfHelperError::Storage { msg: e.to_string() })
    }

    /// Relies on rusqlite (`prepare_cached`, `Statement::execute`):
    /// binds and runs the device-start insert.
    #[verifier::external_body]
    pub fn insert_dut(&mut self, group: u64, head: u8, site: u8, dut_index: u64) -> (r: Result<
        (),
        StdfHelperError,
    >)
        ensures
            r is Ok ==> final(self).write_log() == old(self).write_log().push(
                SinkRow::DutStart { group, head, site, dut_index },
            ),
            r is Err ==> final(self).write_log() == old(self).write_log(),
    {
        let g = group as i64;
        let d = dut_index as i64;
        let p: [&dyn rusqlite::ToSql; 4] = [&g, &head, &site, &d];
        self.conn.prepare_cached(INSERT_DUT)
            .and_then(|mut s| s.execute(&p[..]))
            .map(|_| ())
            .map_err(|e| StdfHelperError::Storage { msg: e.to_string() })
    }

    /// Relies on rusqlite (`prepare_cached`, `Statement::execute`):
    /// binds and runs the device-end update, which also clears the
    /// row's superseded mark.
    #[verifier::external_body]
    pub fn update_dut(
        &mut self,
        group: u64,
        dut_index: u64,
        num_test: u16,
        test_t: u32,
        part_id: &String,
        hard_bin: u16,
        soft_bin: u16,
        part_flg: u8,
        wafer_index: Option<u64>,
        x_coord: Option<i16>,
        y_coord: Option<i16>,
    ) -> (r: Result<(), StdfHelperError>)
        ensures
            r is Ok ==> final(self).write_log() == old(self).write_log().push(
                SinkRow::DutEnd { group, dut_index, num_test, test_t, part_id: part_id@, hard_bin, soft_bin, part_flg, wafer_index, x_coord, y_coord },
            ),
            r is Err ==> final(self).write_log() == old(self).write_log(),
    {
        let g = group as i64;
        let d = dut_index as i64;
        let w = wafer_index.map(|v| v as i64);
        let p: [&dyn rusqlite::ToSql; 11] = [
            &num_test, &test_t, part_id, &hard_bin, &soft_bin, &part_flg, &w, &x_coord,
            &y_coord, &g, &d,
        ];
        self.conn.prepare_cached(UPDATE_DUT)
            .and_then(|mut s| s.execute(&p[..]))
            .map(|_| ())
            .map_err(|e| StdfHelperError::Storage { msg: e.to_string() })
    }

    /// Relies on rusqlite (`prepare_cached`, `Statement::execute`):
    /// marks every stored row of (group, head, site, part id) as
    /// superseded.
    #[verifier::external_body]
    pub fn update_supersede_dut(&mut self, group: u64, head: u8, site: u8, part_id: &String) -> (r:
        Result<(), StdfHelperError>)
        ensures
            r is Ok ==> final(self).write_log() == old(self).write_log().push(
                SinkRow::SupersededPart { group, head, site, part_id: part_id@ },
            ),
            r is Err ==> final(self).write_log() == old(self).write_log(),
    {
        let g = group as i64;
        let p: [&dyn rusqlite::ToSql; 4] = [&g, &head, &site, part_id];
        self.conn.prepare_cached(UPDATE_SUPERSEDE_DUT)
            .and_then(|mut s| s.execute(&p[..]))
            .map(|_| ())
            .map_err(|e| StdfHelperError::Storage { msg: e.to_string() })
    }

    /// Relies on rusqlite (`prepare_cached`, `Statement::execute`):
    /// marks every stored row of (group, head, site, wafer, x, y) as
    /// superseded; a NULL coordinate matches no row.
    #[verifier::external_body]
    pub fn update_supersede_die(
        &mut self,
        group: u64,
        head: u8,
        site: u8,
        wafer_index: Option<u64>,
        x_coord: Option<i16>,
        y_coord: Option<i16>,
    ) -> (r: Result<(), StdfHelperError>)
        ensures
            r is Ok ==> final(self).write_log() == old(self).write_log().push(
                SinkRow::SupersededDie { group, head, site, wafer_index, x_coord, y_coord },
            ),
            r is Err ==> final(self).write_log() == old(self).write_log(),
    {
        let g = group as i64;
        let w = wafer_index.map(|v| v as i64);
        let p: [&dyn rusqlite::ToSql; 6] = [&g, &head, &site, &w, &x_coord, &y_coord];
        self.conn.prepare_cached(UPDATE_SUPERSEDE_DIE)
            .and_then(|mut s| s.execute(&p[..]))
            .map(|_| ())
            .map_err(|e| StdfHelperError::Storage { msg: e.to_string() })
    }

    /// Relies on rusqlite (`prepare_cached`, `Statement::execute`):
    /// binds and runs the scalar-result upsert; the numeric text is
    /// cast to REAL by the statement, `None` stores NULL.
    #[verifier::external_body]
    pub fn insert_ptr_data(
        &mut self,
        dut_index: u64,
        test_id: u64,
        result: Option<String>,
        test_flg: u8,
    ) -> (r: Result<(), StdfHelperError>)
        ensures
            r is Ok ==> final(self).write_log() == old(self).write_log().push(
                SinkRow::PtrData { dut_index, test_id, result: opt_view(result), test_flg },
            ),
            r is Err ==> final(self).write_log() == old(self).write_log(),
    {
        let d = dut_index as i64;
        let t = test_id as i64;
        let p: [&dyn rusqlite::ToSql; 4] = [&d, &t, &result, &test_flg];
        self.conn.prepare_cached(INSERT_PTR_DATA)
            .and_then(|mut s| s.execute(&p[..]))
            .map(|_| ())
            .map_err(|e| StdfHelperError::Storage { msg: e.to_string() })
    }

    /// Relies on rusqlite (`prepare_cached`, `Statement::execute`):
    /// binds and runs the multi-result upsert with the hex-encoded
    /// arrays.
    #[verifier::external_body]
    pub fn insert_mpr_data(
        &mut self,
        dut_index: u64,
        test_id: u64,
        rslt_hex: &String,
        stat_hex: &String,
        test_flg: u8,
    ) -> (r: Result<(), StdfHelperError>)
        ensures
            r is Ok ==> final(self).write_log() == old(self).write_log().push(
                SinkRow::MprData { dut_index, test_id, rslt_hex: rslt_hex@, stat_hex: stat_hex@, test_flg },
            ),
            r is Err ==> final(self).write_log() == old(self).write_log(),
    {
        let d = dut_index as i64;
        let t = test_id as i64;
        let p: [&dyn rusqlite::ToSql; 5] = [&d, &t, rslt_hex, stat_hex, &test_flg];
        self.conn.prepare_cached(INSERT_MPR_DATA)
            .and_then(|mut s| s.execute(&p[..]))
            .map(|_| ())
            .map_err(|e| StdfHelperError::Storage { msg: e.to_string() })
    }

    /// Relies on rusqlite (`prepare_cached`, `Statement::execute`):
    /// binds and runs the functional-result upsert.
    #[verifier::external_body]
    pub fn insert_ftr_data(&mut self, dut_index: u64, test_id: u64, test_flg: u8) -> (r: Result<
        (),
        StdfHelperError,
    >)
        ensures
            r is Ok ==> final(self).write_log() == old(self).write_log().push(
                SinkRow::FtrData { dut_index, test_id, test_flg },
            ),
            r is Err ==> final(self).write_log() == old(self).write_log(),
    {
        let d = dut_index as i64;
        let t = test_id as i64;
        let p: [&dyn rusqlite::ToSql; 3] = [&d, &t, &test_flg];
        self.conn.prepare_cached(INSERT_FTR_DATA)
            .and_then(|mut s| s.execute(&p[..]))
            .map(|_| ())
            .map_err(|e| StdfHelperError::Storage { msg: e.to_string() })
    }

    /// Relies on rusqlite (`prepare_cached`, `Statement::execute`):
    /// binds and runs the test-definition insert; limit text is cast
    /// to REAL, the fail count starts at the statement's fixed -1.
    #[verifier::external_body]
    pub fn insert_test_info(
        &mut self,
        group: u64,
        test_id: u64,
        test_num: u32,
        rec_header: u8,
        test_name: &String,
        res_scal: Option<i8>,
        lo_limit: Option<String>,
        hi_limit: Option<String>,
        unit: &String,
        opt_flag: Option<u8>,
        rtn_icnt: Option<u16>,
        rslt_pgm_cnt: Option<u16>,
        lo_spec: Option<String>,
        hi_spec: Option<String>,
        vect_nam: &Option<String>,
        seq_name: &Option<String>,
    ) -> (r: Result<(), StdfHelperError>)
        ensures
            r is Ok ==> final(self).write_log() == old(self).write_log().push(
                SinkRow::TestInfo { group, test_id, test_num, rec_header, test_name: test_name@, res_scal, lo_limit: opt_view(lo_limit), hi_limit: opt_view(hi_limit), unit: unit@, opt_flag, rtn_icnt, rslt_pgm_cnt, lo_spec: opt_view(lo_spec), hi_spec: opt_view(hi_spec), vect_nam: opt_view(*vect_nam), seq_name: opt_view(*seq_name) },
            ),
            r is Err ==> final(self).write_log() == old(self).write_log(),
    {
        let g = group as i64;
        let t = test_id as i64;
        let p: [&dyn rusqlite::ToSql; 16] = [
            &g, &t, &test_num, &rec_header, test_name, &res_scal, &lo_limit, &hi_limit, unit,
            &opt_flag, &rtn_icnt, &rslt_pgm_cnt, &lo_spec, &hi_spec, vect_nam, seq_name,
        ];
        self.conn.prepare_cached(INSERT_TEST_INFO)
            .and_then(|mut s| s.execute(&p[..]))
            .map(|_| ())
            .map_err(|e| StdfHelperError::Storage { msg: e.to_string() })
    }

    /// Relies on rusqlite (`prepare_cached`, `Statement::execute`):
    /// binds and runs the dynamic-limit upsert; each side is NULL when
    /// it did not drift.
    #[verifier::external_body]
    pub fn insert_dynamic_limit(
        &mut self,
        dut_index: u64,
        test_id: u64,
        lo_limit: Option<String>,
        hi_limit: Option<String>,
    ) -> (r: Result<(), StdfHelperError>)
        ensures
            r is Ok ==> final(self).write_log() == old(self).write_log().push(
                SinkRow::DynamicLimit { dut_index, test_id, lo_limit: opt_view(lo_limit), hi_limit: opt_view(hi_limit) },
            ),
            r is Err ==> final(self).write_log() == old(self).write_log(),
    {
        let d = dut_index as i64;
        let t = test_id as i64;
        let p: [&dyn rusqlite::ToSql; 4] = [&d, &t, &lo_limit, &hi_limit];
        self.conn.prepare_cached(INSERT_DYNAMIC_LIMIT)
            .and_then(|mut s| s.execute(&p[..]))
            .map(|_| ())
            .map_err(|e| StdfHelperError::Storage { msg: e.to_string() })
    }

    /// Relies on rusqlite (`prepare_cached`, `Statement::execute`):
    /// binds and runs the test-pin insert.
    #[verifier::external_body]
    pub fn insert_test_pin(&mut self, test_id: u64, pmr_indx: u16, pin_type: &str) -> (r: Result<
        (),
        StdfHelperError,
    >)
        ensures
            r is Ok ==> final(self).write_log() == old(self).write_log().push(
                SinkRow::TestPin { test_id, pmr_indx, pin_type: pin_type@ },
            ),
            r is Err ==> final(self).write_log() == old(self).write_log(),
    {
        let t = test_id as i64;
        let p: [&dyn rusqlite::ToSql; 3] = [&t, &pmr_indx, &pin_type];
        self.conn.prepare_cached(INSERT_TEST_PIN)
            .and_then(|mut s| s.execute(&p[..]))
            .map(|_| ())
            .map_err(|e| StdfHelperError::Storage { msg: e.to_string() })
    }

    /// Relies on rusqlite (`prepare_cached`, `Statement::execute`):
    /// binds and runs the wafer upsert.
    #[verifier::external_body]
    pub fn insert_wafer(
        &mut self,
        group: u64,
        head: u8,
        wafer_index: u64,
        part_cnt: Option<u32>,
        rtst_cnt: Option<u32>,
        abrt_cnt: Option<u32>,
        good_cnt: Option<u32>,
        func_cnt: Option<u32>,
        wafer_id: &String,
        fabwf_id: &Option<String>,
        frame_id: &Option<String>,
        mask_id: &Option<String>,
        usr_desc: &Option<String>,
        exc_desc: &Option<String>,
    ) -> (r: Result<(), StdfHelperError>)
        ensures
            r is Ok ==> final(self).write_log() == old(self).write_log().push(
                SinkRow::Wafer { group, head, wafer_index, part_cnt, rtst_cnt, abrt_cnt, good_cnt, func_cnt, wafer_id: wafer_id@, fabwf_id: opt_view(*fabwf_id), frame_id: opt_view(*frame_id), mask_id: opt_view(*mask_id), usr_desc: opt_view(*usr_desc), exc_desc: opt_view(*exc_desc) },
            ),
            r is Err ==> final(self).write_log() == old(self).write_log(),
    {
        let g = group as i64;
        let w = wafer_index as i64;
        let p: [&dyn rusqlite::ToSql; 14] = [
            &g, &head, &w, &part_cnt, &rtst_cnt, &abrt_cnt, &good_cnt, &func_cnt, wafer_id,
            fabwf_id, frame_id, mask_id, usr_desc, exc_desc,
        ];
        self.conn.prepare_cached(INSERT_WAFER)
            .and_then(|mut s| s.execute(&p[..]))
            .map(|_| ())
            .map_err(|e| StdfHelperError::Storage { msg: e.to_string() })
    }

    /// Relies on rusqlite (`prepare_cached`, `Statement::execute`):
    /// binds and runs the per-(head, site) device-count insert.
    #[verifier::external_body]
    pub fn insert_dut_cnt(
        &mut self,
        group: u64,
        head: u8,
        site: u8,
        part_cnt: u32,
        rtst_cnt: u32,
        abrt_cnt: u32,
        good_cnt: u32,
        func_cnt: u32,
    ) -> (r: Result<(), StdfHelperError>)
        ensures
            r is Ok ==> final(self).write_log() == old(self).write_log().push(
                SinkRow::DutCnt { group, head, site, part_cnt, rtst_cnt, abrt_cnt, good_cnt, func_cnt },
            ),
            r is Err ==> final(self).write_log() == old(self).write_log(),
    {
        let g = group as i64;
        let p: [&dyn rusqlite::ToSql; 8] = [
            &g, &head, &site, &part_cnt, &rtst_cnt, &abrt_cnt, &good_cnt, &func_cnt,
        ];
        self.conn.prepare_cached(INSERT_DUT_COUNT)
            .and_then(|mut s| s.execute(&p[..]))
            .map(|_| ())
            .map_err(|e| StdfHelperError::Storage { msg: e.to_string() })
    }

    /// Relies on rusqlite (`prepare_cached`, `Statement::execute`):
    /// binds and runs the datalog insert.
    #[verifier::external_body]
    pub fn insert_datalog_rec(
        &mut self,
        group: u64,
        rec_typ: &str,
        value: &String,
        after_dut_index: u64,
        is_before_prr: bool,
    ) -> (r: Result<(), StdfHelperError>)
        ensures
            r is Ok ==> final(self).write_log() == old(self).write_log().push(
                SinkRow::Datalog { group, rec_typ: rec_typ@, value: value@, after_dut_index, is_before_prr },
            ),
            r is Err ==> final(self).write_log() == old(self).write_log(),
    {
        let g = group as i64;
        let d = after_dut_index as i64;
        let p: [&dyn rusqlite::ToSql; 5] = [&g, &rec_typ, value, &d, &is_before_prr];
        self.conn.prepare_cached(INSERT_DATALOG)
            .and_then(|mut s| s.execute(&p[..]))
            .map(|_| ())
            .map_err(|e| StdfHelperError::Storage { msg: e.to_string() })
    }

    /// Relies on rusqlite (`prepare_cached`, `Statement::execute`):
    /// binds and runs the hardware-bin upsert.
    #[verifier::external_body]
    pub fn insert_hbin(&mut self, group: u64, bin_num: u16, bin_name: &String, bin_pf: &String) -> (
        r: Result<(), StdfHelperError>)
        ensures
            r is Ok ==> final(self).write_log() == old(self).write_log().push(
                SinkRow::Hbin { group, bin_num, bin_name: bin_name@, bin_pf: bin_pf@ },
            ),
            r is Err ==> final(self).write_log() == old(self).write_log(),
    {
        let g = group as i64;
        let p: [&dyn rusqlite::ToSql; 4] = [&g, &bin_num, bin_name, bin_pf];
        self.conn.prepare_cached(INSERT_HBIN)
            .and_then(|mut s| s.execute(&p[..]))
            .map(|_| ())
            .map_err(|e| StdfHelperError::Storage { msg: e.to_string() })
    }

    /// Relies on rusqlite (`prepare_cached`, `Statement::execute`):
    /// binds and runs the software-bin upsert.
    #[verifier::external_body]
    pub fn insert_sbin(&mut self, group: u64, bin_num: u16, bin_name: &String, bin_pf: &String) -> (
        r: Result<(), StdfHelperError>)
        ensures
            r is Ok ==> final(self).write_log() == old(self).write_log().push(
                SinkRow::Sbin { group, bin_num, bin_name: bin_name@, bin_pf: bin_pf@ },
            ),
            r is Err ==> final(self).write_log() == old(self).write_log(),
    {
        let g = group as i64;
        let p: [&dyn rusqlite::ToSql; 4] = [&g, &bin_num, bin_name, bin_pf];
        self.conn.prepare_cached(INSERT_SBIN)
            .and_then(|mut s| s.execute(&p[..]))
            .map(|_| ())
            .map_err(|e| StdfHelperError::Storage { msg: e.to_string() })
    }

    /// Relies on rusqlite (`prepare_cached`, `Statement::execute`):
    /// binds and runs the fail-count update.
    #[verifier::external_body]
    pub fn update_fail_count(&mut self, test_id: u64, count: u64) -> (r: Result<
        (),
        StdfHelperError,
    >)
        ensures
            r is Ok ==> final(self).write_log() == old(self).write_log().push(
                SinkRow::FailCount { test_id, count },
            ),
            r is Err ==> final(self).write_log() == old(self).write_log(),
    {
        let t = test_id as i64;
        let c = count as i64;
        let p: [&dyn rusqlite::ToSql; 2] = [&c, &t];
        self.conn.prepare_cached(UPDATE_FAIL_COUNT)
            .and_then(|mut s| s.execute(&p[..]))
            .map(|_| ())
            .map_err(|e| StdfHelperError::Storage { msg: e.to_string() })
    }

    /// Relies on rusqlite (`prepare_cached`, `Statement::execute`):
    /// binds and runs the pin-map insert; the group membership starts
    /// NULL.
    #[verifier::external_body]
    pub fn insert_pin_map(
        &mut self,
        group: u64,
        head: u8,
        site: u8,
        pmr_indx: u16,
        chan_typ: u16,
        chan_nam: &Option<String>,
        phy_nam: &Option<String>,
        log_nam: &Option<String>,
    ) -> (r: Result<(), StdfHelperError>)
        ensures
            r is Ok ==> final(self).write_log() == old(self).write_log().push(
                SinkRow::PinMap { group, head, site, pmr_indx, chan_typ, chan_nam: opt_view(*chan_nam), phy_nam: opt_view(*phy_nam), log_nam: opt_view(*log_nam) },
            ),
            r is Err ==> final(self).write_log() == old(self).write_log(),
    {
        let g = group as i64;
        let none: Option<i64> = None;
        let p: [&dyn rusqlite::ToSql; 9] = [
            &g, &head, &site, &pmr_indx, &chan_typ, chan_nam, phy_nam, log_nam, &none,
        ];
        self.conn.prepare_cached(INSERT_PIN_MAP)
            .and_then(|mut s| s.execute(&p[..]))
            .map(|_| ())
            .map_err(|e| StdfHelperError::Storage { msg: e.to_string() })
    }

    /// Relies on rusqlite (`prepare_cached`, `Statement::execute`):
    /// binds and runs the pin-group name insert (kept if already
    /// present).
    #[verifier::external_body]
    pub fn insert_grp_name(&mut self, group: u64, grp_indx: u16, grp_nam: &String) -> (r: Result<
        (),
        StdfHelperError,
    >)
        ensures
            r is Ok ==> final(self).write_log() == old(self).write_log().push(
                SinkRow::GrpName { group, grp_indx, grp_nam: grp_nam@ },
            ),
            r is Err ==> final(self).write_log() == old(self).write_log(),
    {
        let g = group as i64;
        let p: [&dyn rusqlite::ToSql; 3] = [&g, &grp_indx, grp_nam];
        self.conn.prepare_cached(INSERT_GRP_NAM)
            .and_then(|mut s| s.execute(&p[..]))
            .map(|_| ())
            .map_err(|e| StdfHelperError::Storage { msg: e.to_string() })
    }

    /// Relies on rusqlite (`prepare_cached`, `Statement::execute`):
    /// binds and runs the pin-membership back-fill.
    #[verifier::external_body]
    pub fn update_from_grp(&mut self, group: u64, grp_indx: u16, pmr_indx: u16) -> (r: Result<
        (),
        StdfHelperError,
    >)
        ensures
            r is Ok ==> final(self).write_log() == old(self).write_log().push(
                SinkRow::FromGrp { group, grp_indx, pmr_indx },
            ),
            r is Err ==> final(self).write_log() == old(self).write_log(),
    {
        let g = group as i64;
        let p: [&dyn rusqlite::ToSql; 3] = [&grp_indx, &g, &pmr_indx];
        self.conn.prepare_cached(UPDATE_FROM_GRP)
            .and_then(|mut s| s.execute(&p[..]))
            .map(|_| ())
            .map_err(|e| StdfHelperError::Storage { msg: e.to_string() })
    }

    /// Relies on rusqlite (`prepare_cached`, `Statement::execute`):
    /// binds and runs the pin-group description upsert, keeping any
    /// recorded group name.
    #[verifier::external_body]
    pub fn insert_pin_info(
        &mut self,
        group: u64,
        p_pg_indx: u16,
        grp_mode: u16,
        grp_radx: u8,
        pgm_char: &Option<String>,
        pgm_chal: &Option<String>,
        rtn_char: &Option<String>,
        rtn_chal: &Option<String>,
    ) -> (r: Result<(), StdfHelperError>)
        ensures
            r is Ok ==> final(self).write_log() == old(self).write_log().push(
                SinkRow::PinInfo { group, p_pg_indx, grp_mode, grp_radx, pgm_char: opt_view(*pgm_char), pgm_chal: opt_view(*pgm_chal), rtn_char: opt_view(*rtn_char), rtn_chal: opt_view(*rtn_chal) },
            ),
            r is Err ==> final(self).write_log() == old(self).write_log(),
    {
        let g = group as i64;
        let p: [&dyn rusqlite::ToSql; 8] = [
            &g, &p_pg_indx, &grp_mode, &grp_radx, pgm_char, pgm_chal, rtn_char, rtn_chal,
        ];
        self.conn.prepare_cached(INSERT_PIN_INFO)
            .and_then(|mut s| s.execute(&p[..]))
            .map(|_| ())
            .map_err(|e| StdfHelperError::Storage { msg: e.to_string() })
    }

    /// The row the router binds for an action that carries no
    /// floating-point payload.
    pub open spec fn spec_row_of(act: SinkAction) -> SinkRow
        recommends
            !act.spec_needs_host(),
    {
        match act {
            SinkAction::InsertFileName { group, sub, path } => SinkRow::FileName {
                group,
                sub,
                path: path@,
            },
            SinkAction::UpdateFileList { group, sub, lot_id, sublot_id, product_id, flow_id } => SinkRow::FileList {
                group,
                sub,
                lot_id: lot_id@,
                sublot_id: sublot_id@,
                product_id: product_id@,
                flow_id: flow_id@,
            },
            SinkAction::InsertFileInfo { group, sub, field, value } => SinkRow::FileInfo {
                group,
                sub,
                field: field@,
                value: value@,
            },
            SinkAction::InsertDut { group, head, site, dut_index } => SinkRow::DutStart {
                group,
                head,
                site,
                dut_index,
            },
            SinkAction::UpdateDut {
                group,
                dut_index,
                num_test,
                test_t,
                part_id,
                hard_bin,
                soft_bin,
                part_flg,
                wafer_index,
                x_coord,
                y_coord,
            } => SinkRow::DutEnd {
                group,
                dut_index,
                num_test,
                test_t,
                part_id: part_id@,
                hard_bin,
                soft_bin,
                part_flg,
                wafer_index,
                x_coord,
                y_coord,
            },
            SinkAction::SupersedeDut { group, head, site, part_id } => SinkRow::SupersededPart {
                group,
                head,
                site,
                part_id: part_id@,
            },
            SinkAction::SupersedeDie { group, head, site, wafer_index, x_coord, y_coord } => SinkRow::SupersededDie {
                group,
                head,
                site,
                wafer_index,
                x_coord,
                y_coord,
            },
            SinkAction::InsertFtrData { dut_index, test_id, test_flg } => SinkRow::FtrData {
                dut_index,
                test_id,
                test_flg,
            },
            SinkAction::InsertTestPin { test_id, pmr_indx, pin_type } => SinkRow::TestPin {
                test_id,
                pmr_indx,
                pin_type: match pin_type {
                    PinType::Rtn => "RTN"@,
                    PinType::Pgm => "PGM"@,
                },
            },
            SinkAction::InsertWafer {
                group,
                head,
                wafer_index,
                part_cnt,
                rtst_cnt,
                abrt_cnt,
                good_cnt,
                func_cnt,
                wafer_id,
                fabwf_id,
                frame_id,
                mask_id,
                usr_desc,
                exc_desc,
            } => SinkRow::Wafer {
                group,
                head,
                wafer_index,
                part_cnt,
                rtst_cnt,
                abrt_cnt,
                good_cnt,
                func_cnt,
                wafer_id: wafer_id@,
                fabwf_id: opt_view(fabwf_id),
                frame_id: opt_view(frame_id),
                mask_id: opt_view(mask_id),
                usr_desc: opt_view(usr_desc),
                exc_desc: opt_view(exc_desc),
            },
            SinkAction::InsertDutCnt {
                group,
                head,
                site,
                part_cnt,
                rtst_cnt,
                abrt_cnt,
                good_cnt,
                func_cnt,
            } => SinkRow::DutCnt {
                group,
                head,
                site,
                part_cnt,
                rtst_cnt,
                abrt_cnt,
                good_cnt,
                func_cnt,
            },
            SinkAction::InsertDatalog { group, kind, value, after_dut_index, is_before_prr } => SinkRow::Datalog {
                group,
                rec_typ: match kind {
                    DatalogKind::Dtr => "DTR"@,
                    DatalogKind::Gdr => "GDR"@,
                },
                value: value@,
                after_dut_index,
                is_before_prr,
            },
            SinkAction::InsertHbin { group, bin_num, bin_name, bin_pf } => SinkRow::Hbin {
                group,
                bin_num,
                bin_name: bin_name@,
                bin_pf: bin_pf@,
            },
            SinkAction::InsertSbin { group, bin_num, bin_name, bin_pf } => SinkRow::Sbin {
                group,
                bin_num,
                bin_name: bin_name@,
                bin_pf: bin_pf@,
            },
            SinkAction::UpdateFailCount { test_id, count } => SinkRow::FailCount {
                test_id,
                count,
            },
            SinkAction::InsertPinMap {
                group,
                head,
                site,
                pmr_indx,
                chan_typ,
                chan_nam,
                phy_nam,
                log_nam,
            } => SinkRow::PinMap {
                group,
                head,
                site,
                pmr_indx,
                chan_typ,
                chan_nam: opt_view(chan_nam),
                phy_nam: opt_view(phy_nam),
                log_nam: opt_view(log_nam),
            },
            SinkAction::InsertGrpName { group, grp_indx, grp_nam } => SinkRow::GrpName {
                group,
                grp_indx,
                grp_nam: grp_nam@,
            },
            SinkAction::UpdateFromGrp { group, grp_indx, pmr_indx } => SinkRow::FromGrp {
                group,
                grp_indx,
                pmr_indx,
            },
            SinkAction::InsertPinInfo {
                group,
                p_pg_indx,
                grp_mode,
                grp_radx,
                pgm_char,
                pgm_chal,
                rtn_char,
                rtn_chal,
            } => SinkRow::PinInfo {
                group,
                p_pg_indx,
                grp_mode,
                grp_radx,
                pgm_char: opt_view(pgm_char),
                pgm_chal: opt_view(pgm_chal),
                rtn_char: opt_view(rtn_char),
                rtn_chal: opt_view(rtn_chal),
            },
            // The four host-resolved kinds never reach the router;
            // their image here is immaterial.
            _ => (SinkRow::FailCount { test_id: 0, count: 0 }),
        }
    }

    /// Routes one emitted action to its prepared statement and logs
    /// the bound row.  The four action kinds that carry floating-point
    /// payloads are excluded: the host resolves those and calls the
    /// dedicated methods.
    pub fn execute(&mut self, act: &SinkAction) -> (r: Result<(), StdfHelperError>)
        requires
            !act.spec_needs_host(),
        ensures
            r is Ok ==> final(self).write_log() == old(self).write_log().push(DataBaseCtx::spec_row_of(*act)),
            r is Err ==> final(self).write_log() == old(self).write_log(),
    {
        match act {
            SinkAction::InsertFileName { group, sub, path } => self.insert_file_name(
                *group,
                *sub,
                path,
            ),
            SinkAction::UpdateFileList { group, sub, lot_id, sublot_id, product_id, flow_id } => self
                .update_file_list(*group, *sub, lot_id, sublot_id, product_id, flow_id),
            SinkAction::InsertFileInfo { group, sub, field, value } => self.insert_file_info(
                *group,
                *sub,
                field,
                value,
            ),
            SinkAction::InsertDut { group, head, site, dut_index } => self.insert_dut(
                *group,
                *head,
                *site,
                *dut_index,
            ),
            SinkAction::UpdateDut {
                group,
                dut_index,
                num_test,
                test_t,
                part_id,
                hard_bin,
                soft_bin,
                part_flg,
                wafer_index,
                x_coord,
                y_coord,
            } => self.update_dut(
                *group,
                *dut_index,
                *num_test,
                *test_t,
                part_id,
                *hard_bin,
                *soft_bin,
                *part_flg,
                *wafer_index,
                *x_coord,
                *y_coord,
            ),
            SinkAction::SupersedeDut { group, head, site, part_id } => self.update_supersede_dut(
                *group,
                *head,
                *site,
                part_id,
            ),
            SinkAction::SupersedeDie { group, head, site, wafer_index, x_coord, y_coord } => self
                .update_supersede_die(*group, *head, *site, *wafer_index, *x_coord, *y_coord),
            SinkAction::InsertFtrData { dut_index, test_id, test_flg } => self.insert_ftr_data(
                *dut_index,
                *test_id,
                *test_flg,
            ),
            SinkAction::InsertTestPin { test_id, pmr_indx, pin_type } => self.insert_test_pin(
                *test_id,
                *pmr_indx,
                match pin_type {
                    PinType::Rtn => "RTN",
                    PinType::Pgm => "PGM",
                },
            ),
            SinkAction::InsertWafer {
                group,
                head,
                wafer_index,
                part_cnt,
                rtst_cnt,
                abrt_cnt,
                good_cnt,
                func_cnt,
                wafer_id,
                fabwf_id,
                frame_id,
                mask_id,
                usr_desc,
                exc_desc,
            } => self.insert_wafer(
                *group,
                *head,
                *wafer_index,
                *part_cnt,
                *rtst_cnt,
                *abrt_cnt,
                *good_cnt,
                *func_cnt,
                wafer_id,
                fabwf_id,
                frame_id,
                mask_id,
                usr_desc,
                exc_desc,
            ),
            SinkAction::InsertDutCnt {
                group,
                head,
                site,
                part_cnt,
                rtst_cnt,
                abrt_cnt,
                good_cnt,
                func_cnt,
            } => self.insert_dut_cnt(
                *group,
                *head,
                *site,
                *part_cnt,
                *rtst_cnt,
                *abrt_cnt,
                *good_cnt,
                *func_cnt,
            ),
            SinkAction::InsertDatalog { group, kind, value, after_dut_index, is_before_prr } => self
                .insert_datalog_rec(
                *group,
                match kind {
                    DatalogKind::Dtr => "DTR",
                    DatalogKind::Gdr => "GDR",
                },
                value,
                *after_dut_index,
                *is_before_prr,
            ),
            SinkAction::InsertHbin { group, bin_num, bin_name, bin_pf } => self.insert_hbin(
                *group,
                *bin_num,
                bin_name,
                bin_pf,
            ),
            SinkAction::InsertSbin { group, bin_num, bin_name, bin_pf } => self.insert_sbin(
                *group,
                *bin_num,
                bin_name,
                bin_pf,
            ),
            SinkAction::UpdateFailCount { test_id, count } => self.update_fail_count(
                *test_id,
                *count,
            ),
            SinkAction::InsertPinMap {
                group,
                head,
                site,
                pmr_indx,
                chan_typ,
                chan_nam,
                phy_nam,
                log_nam,
            } => self.insert_pin_map(
                *group,
                *head,
                *site,
                *pmr_indx,
                *chan_typ,
                chan_nam,
                phy_nam,
                log_nam,
            ),
            SinkAction::InsertGrpName { group, grp_indx, grp_nam } => self.insert_grp_name(
                *group,
                *grp_indx,
                grp_nam,
            ),
            SinkAction::UpdateFromGrp { group, grp_indx, pmr_indx } => self.update_from_grp(
                *group,
                *grp_indx,
                *pmr_indx,
            ),
            SinkAction::InsertPinInfo {
                group,
                p_pg_indx,
                grp_mode,
                grp_radx,
                pgm_char,
                pgm_chal,
                rtn_char,
                rtn_chal,
            } => self.insert_pin_info(
                *group,
                *p_pg_indx,
                *grp_mode,
                *grp_radx,
                pgm_char,
                pgm_chal,
                rtn_char,
                rtn_chal,
            ),
            SinkAction::InsertPtrData { .. } => Ok(()),
            SinkAction::InsertMprData { .. } => Ok(()),
            SinkAction::InsertTestInfo { .. } => Ok(()),
            SinkAction::CheckDynamicLimit { .. } => Ok(()),
        }
    }
}

/// The bit-mask side of the dynamic-limit decision: a drifted side is
/// written only while its "limit invalid" bit is clear.
pub fn dynamic_limit_update(opt_flag: u8, lo_changed: bool, hi_changed: bool) -> (r: (bool, bool))
    ensures
        r.0 == (lo_changed && opt_flag & 0x50 == 0),
        r.1 == (hi_changed && opt_flag & 0xA0 == 0),
{
    (lo_changed && opt_flag & 0x50 == 0, hi_changed && opt_flag & 0xA0 == 0)
}

} // verus!
