//! The stateful consistency tracker: all cross-record bookkeeping of one
//! ingestion run.
//!
//! The STDF stream only implies its cross-record relationships; this
//! state machine reconstructs them.  It assigns per-group device and
//! wafer indices, resolves dense test identifiers under the configured
//! identity policy, freezes first-seen result scales and default limits,
//! collects bin classifications, tracks the open program sections of a
//! device execution, and places datalog entries relative to the current
//! device.  It performs no I/O and is owned exclusively by the writer.
//!
//! Each association is stored as a vector of entries with pairwise
//! distinct keys; its specification is the finite map those entries
//! spell out, so every operation's contract is a plain statement about
//! map lookups and inserts.

use vstd::prelude::*;
use crate::errors::StdfHelperError;
use crate::records::{BPS, HBR, PRR, SBR, TSR};

verus! {

/// The test identity policy: what makes two result records belong to
/// the same test.
#[derive(Clone, Copy, PartialEq, Eq, Structural)]
pub enum TestIDType {
    /// Key is the test number together with the test name.
    TestNumberAndName,
    /// Key is the test number alone, even if names differ.
    TestNumberOnly,
}

/// One tracked test: its identity key and the values frozen at its
/// first sighting.
pub struct TestEntry {
    pub group: u64,
    pub test_num: u32,
    pub test_name: String,
    /// Result scale of the first sighting; `None` until a result record
    /// for this test has been seen by `update_scale`.
    pub scale: Option<i32>,
    /// Bit patterns of the first-seen (raw) limits.
    pub default_lo: Option<u32>,
    pub default_hi: Option<u32>,
    /// Accumulated fail count from summary records; `None` until one
    /// carried a valid count.
    pub fail_count: Option<u64>,
}

/// The device index last assigned to a (group, head, site).
pub struct DutKey {
    pub group: u64,
    pub head: u8,
    pub site: u8,
    pub dut_index: u64,
}

/// The wafer index last assigned to a (group, head).
pub struct WaferKey {
    pub group: u64,
    pub head: u8,
    pub wafer_index: u64,
}

/// Per-group counters and device-scoped state.
pub struct GroupState {
    pub group: u64,
    /// Devices started so far; the next device gets this plus one.
    pub dut_total: u64,
    /// Wafers started so far.
    pub wafer_total: u64,
    /// Whether a datalog entry arriving now falls before the current
    /// device's end record.
    pub before_prr: bool,
    /// Open program sections; `None` until the first section record.
    pub sections: Option<Vec<String>>,
}

/// A bin classification: name and pass/fail code of a bin number.
pub struct BinEntry {
    pub group: u64,
    pub bin_num: u16,
    pub name: String,
    pub pf: String,
}

/// The spec-level image of one group's state.
pub struct GroupView {
    pub dut_total: u64,
    pub wafer_total: u64,
    pub before_prr: bool,
    pub sections: Option<Seq<Seq<char>>>,
}

/// The spec-level image of one bin definition.
pub struct BinView {
    pub name: Seq<char>,
    pub pf: Seq<char>,
}

/// The spec-level image of one tracked test.
pub struct TestView {
    pub group: u64,
    pub test_num: u32,
    pub test_name: Seq<char>,
    pub scale: Option<i32>,
    pub default_lo: Option<u32>,
    pub default_hi: Option<u32>,
    pub fail_count: Option<u64>,
}

impl View for GroupState {
    type V = GroupView;

    open spec fn view(&self) -> GroupView {
        GroupView {
            dut_total: self.dut_total,
            wafer_total: self.wafer_total,
            before_prr: self.before_prr,
            sections: match self.sections {
                Some(v) => Some(v@.map_values(|s: String| s@)),
                None => None,
            },
        }
    }
}

impl View for TestEntry {
    type V = TestView;

    open spec fn view(&self) -> TestView {
        TestView {
            group: self.group,
            test_num: self.test_num,
            test_name: self.test_name@,
            scale: self.scale,
            default_lo: self.default_lo,
            default_hi: self.default_hi,
            fail_count: self.fail_count,
        }
    }
}

/// The finite map spelled out by a vector of device-index entries.
pub open spec fn duts_map_of(s: Seq<DutKey>) -> Map<(u64, u8, u8), u64>
    decreases s.len(),
{
    if s.len() == 0 {
        Map::empty()
    } else {
        duts_map_of(s.drop_last()).insert(
            (s.last().group, s.last().head, s.last().site),
            s.last().dut_index,
        )
    }
}

/// The finite map spelled out by a vector of wafer-index entries.
pub open spec fn wafers_map_of(s: Seq<WaferKey>) -> Map<(u64, u8), u64>
    decreases s.len(),
{
    if s.len() == 0 {
        Map::empty()
    } else {
        wafers_map_of(s.drop_last()).insert(
            (s.last().group, s.last().head),
            s.last().wafer_index,
        )
    }
}

/// The finite map spelled out by a vector of group states.
pub open spec fn groups_map_of(s: Seq<GroupState>) -> Map<u64, GroupView>
    decreases s.len(),
{
    if s.len() == 0 {
        Map::empty()
    } else {
        groups_map_of(s.drop_last()).insert(s.last().group, s.last()@)
    }
}

/// The finite map spelled out by a vector of bin definitions.
pub open spec fn bins_map_of(s: Seq<BinEntry>) -> Map<(u64, u16), BinView>
    decreases s.len(),
{
    if s.len() == 0 {
        Map::empty()
    } else {
        bins_map_of(s.drop_last()).insert(
            (s.last().group, s.last().bin_num),
            BinView { name: s.last().name@, pf: s.last().pf@ },
        )
    }
}

/// The identity key of a test under a policy: the name takes part only
/// under `TestNumberAndName`.
pub open spec fn test_key(policy: TestIDType, group: u64, num: u32, name: Seq<char>) -> (
    u64,
    u32,
    Seq<char>,
) {
    (
        group,
        num,
        if policy is TestNumberOnly {
            Seq::empty()
        } else {
            name
        },
    )
}

/// The test-id map spelled out by a vector of test entries, where the
/// id of a test is its position.
pub open spec fn tests_map_of(policy: TestIDType, s: Seq<TestEntry>) -> Map<
    (u64, u32, Seq<char>),
    int,
>
    decreases s.len(),
{
    if s.len() == 0 {
        Map::empty()
    } else {
        tests_map_of(policy, s.drop_last()).insert(
            test_key(policy, s.last().group, s.last().test_num, s.last().test_name@),
            s.len() - 1,
        )
    }
}

// Pairwise-distinct keys, per collection.

pub open spec fn duts_unique(s: Seq<DutKey>) -> bool {
    forall|i: int, j: int|
        0 <= i < j < s.len() ==> !(s[i].group == s[j].group && s[i].head == s[j].head && s[i].site
            == s[j].site)
}

pub open spec fn wafers_unique(s: Seq<WaferKey>) -> bool {
    forall|i: int, j: int|
        0 <= i < j < s.len() ==> !(s[i].group == s[j].group && s[i].head == s[j].head)
}

pub open spec fn groups_unique(s: Seq<GroupState>) -> bool {
    forall|i: int, j: int| 0 <= i < j < s.len() ==> s[i].group != s[j].group
}

pub open spec fn bins_unique(s: Seq<BinEntry>) -> bool {
    forall|i: int, j: int|
        0 <= i < j < s.len() ==> !(s[i].group == s[j].group && s[i].bin_num == s[j].bin_num)
}

pub open spec fn tests_unique(policy: TestIDType, s: Seq<TestEntry>) -> bool {
    forall|i: int, j: int|
        0 <= i < j < s.len() ==> test_key(policy, s[i].group, s[i].test_num, s[i].test_name@)
            != test_key(policy, s[j].group, s[j].test_num, s[j].test_name@)
}

// Each map agrees with the entry found at any matching position; with
// unique keys the first match is the only one.

proof fn lemma_duts_map_at(s: Seq<DutKey>, i: int)
    requires
        duts_unique(s),
        0 <= i < s.len(),
    ensures
        duts_map_of(s).contains_key((s[i].group, s[i].head, s[i].site)),
        duts_map_of(s)[(s[i].group, s[i].head, s[i].site)] == s[i].dut_index,
    decreases s.len(),
{
    if i == s.len() - 1 {
    } else {
        assert(s.drop_last()[i] == s[i]);
        lemma_duts_map_at(s.drop_last(), i);
    }
}

proof fn lemma_duts_map_none(s: Seq<DutKey>, g: u64, h: u8, st: u8)
    requires
        forall|i: int| 0 <= i < s.len() ==> !(s[i].group == g && s[i].head == h && s[i].site == st),
    ensures
        !duts_map_of(s).contains_key((g, h, st)),
    decreases s.len(),
{
    if s.len() > 0 {
        assert(forall|i: int| 0 <= i < s.len() - 1 ==> s.drop_last()[i] == s[i]);
        lemma_duts_map_none(s.drop_last(), g, h, st);
    }
}

/// Every value in the device map is the index stored by some entry.
proof fn lemma_duts_map_values(s: Seq<DutKey>)
    ensures
        forall|k: (u64, u8, u8)| #[trigger] duts_map_of(s).contains_key(k) ==> exists|i: int|
            0 <= i < s.len() && s[i].group == k.0 && s[i].head == k.1 && s[i].site == k.2
                && s[i].dut_index == duts_map_of(s)[k],
    decreases s.len(),
{
    if s.len() > 0 {
        lemma_duts_map_values(s.drop_last());
        let last = s.last();
        let lk = (last.group, last.head, last.site);
        assert forall|k: (u64, u8, u8)| #[trigger] duts_map_of(s).contains_key(k) implies exists|
            i: int,
        |
            0 <= i < s.len() && s[i].group == k.0 && s[i].head == k.1 && s[i].site == k.2
                && s[i].dut_index == duts_map_of(s)[k] by {
            if k == lk {
                assert(s[s.len() - 1].group == k.0 && s[s.len() - 1].head == k.1 && s[s.len()
                    - 1].site == k.2 && s[s.len() - 1].dut_index == duts_map_of(s)[k]);
            } else {
                assert(duts_map_of(s.drop_last()).contains_key(k));
                let i = choose|i: int|
                    0 <= i < s.drop_last().len() && s.drop_last()[i].group == k.0
                        && s.drop_last()[i].head == k.1 && s.drop_last()[i].site == k.2
                        && s.drop_last()[i].dut_index == duts_map_of(s.drop_last())[k];
                assert(s[i].group == k.0 && s[i].head == k.1 && s[i].site == k.2 && s[i].dut_index
                    == duts_map_of(s)[k]);
            }
        }
    }
}

proof fn lemma_duts_map_update(s: Seq<DutKey>, i: int, e: DutKey)
    requires
        duts_unique(s),
        0 <= i < s.len(),
        s[i].group == e.group,
        s[i].head == e.head,
        s[i].site == e.site,
    ensures
        duts_map_of(s.update(i, e)) =~= duts_map_of(s).insert((e.group, e.head, e.site), e.dut_index),
        duts_unique(s.update(i, e)),
    decreases s.len(),
{
    let t = s.update(i, e);
    assert(forall|j: int| 0 <= j < s.len() && j != i ==> t[j] == s[j]);
    if i == s.len() - 1 {
        assert(t.drop_last() =~= s.drop_last());
    } else {
        assert(t.drop_last() =~= s.drop_last().update(i, e));
        lemma_duts_map_update(s.drop_last(), i, e);
        assert(s.last().group != e.group || s.last().head != e.head || s.last().site != e.site);
    }
}

proof fn lemma_wafers_map_at(s: Seq<WaferKey>, i: int)
    requires
        wafers_unique(s),
        0 <= i < s.len(),
    ensures
        wafers_map_of(s).contains_key((s[i].group, s[i].head)),
        wafers_map_of(s)[(s[i].group, s[i].head)] == s[i].wafer_index,
    decreases s.len(),
{
    if i == s.len() - 1 {
    } else {
        assert(s.drop_last()[i] == s[i]);
        lemma_wafers_map_at(s.drop_last(), i);
    }
}

proof fn lemma_wafers_map_none(s: Seq<WaferKey>, g: u64, h: u8)
    requires
        forall|i: int| 0 <= i < s.len() ==> !(s[i].group == g && s[i].head == h),
    ensures
        !wafers_map_of(s).contains_key((g, h)),
    decreases s.len(),
{
    if s.len() > 0 {
        assert(forall|i: int| 0 <= i < s.len() - 1 ==> s.drop_last()[i] == s[i]);
        lemma_wafers_map_none(s.drop_last(), g, h);
    }
}

proof fn lemma_wafers_map_update(s: Seq<WaferKey>, i: int, e: WaferKey)
    requires
        wafers_unique(s),
        0 <= i < s.len(),
        s[i].group == e.group,
        s[i].head == e.head,
    ensures
        wafers_map_of(s.update(i, e)) =~= wafers_map_of(s).insert((e.group, e.head), e.wafer_index),
        wafers_unique(s.update(i, e)),
    decreases s.len(),
{
    let t = s.update(i, e);
    assert(forall|j: int| 0 <= j < s.len() && j != i ==> t[j] == s[j]);
    if i == s.len() - 1 {
        assert(t.drop_last() =~= s.drop_last());
    } else {
        assert(t.drop_last() =~= s.drop_last().update(i, e));
        lemma_wafers_map_update(s.drop_last(), i, e);
        assert(s.last().group != e.group || s.last().head != e.head);
    }
}

proof fn lemma_groups_map_at(s: Seq<GroupState>, i: int)
    requires
        groups_unique(s),
        0 <= i < s.len(),
    ensures
        groups_map_of(s).contains_key(s[i].group),
        groups_map_of(s)[s[i].group] == s[i]@,
    decreases s.len(),
{
    if i == s.len() - 1 {
    } else {
        assert(s.drop_last()[i] == s[i]);
        lemma_groups_map_at(s.drop_last(), i);
    }
}

proof fn lemma_groups_map_none(s: Seq<GroupState>, g: u64)
    requires
        forall|i: int| 0 <= i < s.len() ==> s[i].group != g,
    ensures
        !groups_map_of(s).contains_key(g),
    decreases s.len(),
{
    if s.len() > 0 {
        assert(forall|i: int| 0 <= i < s.len() - 1 ==> s.drop_last()[i] == s[i]);
        lemma_groups_map_none(s.drop_last(), g);
    }
}

proof fn lemma_groups_map_update(s: Seq<GroupState>, i: int, e: GroupState)
    requires
        groups_unique(s),
        0 <= i < s.len(),
        s[i].group == e.group,
    ensures
        groups_map_of(s.update(i, e)) =~= groups_map_of(s).insert(e.group, e@),
        groups_unique(s.update(i, e)),
    decreases s.len(),
{
    let t = s.update(i, e);
    assert(forall|j: int| 0 <= j < s.len() && j != i ==> t[j] == s[j]);
    if i == s.len() - 1 {
        assert(t.drop_last() =~= s.drop_last());
    } else {
        assert(t.drop_last() =~= s.drop_last().update(i, e));
        lemma_groups_map_update(s.drop_last(), i, e);
        assert(s.last().group != e.group);
    }
}

proof fn lemma_bins_map_at(s: Seq<BinEntry>, i: int)
    requires
        bins_unique(s),
        0 <= i < s.len(),
    ensures
        bins_map_of(s).contains_key((s[i].group, s[i].bin_num)),
        bins_map_of(s)[(s[i].group, s[i].bin_num)] == (BinView { name: s[i].name@, pf: s[i].pf@ }),
    decreases s.len(),
{
    if i == s.len() - 1 {
    } else {
        assert(s.drop_last()[i] == s[i]);
        lemma_bins_map_at(s.drop_last(), i);
    }
}

proof fn lemma_bins_map_none(s: Seq<BinEntry>, g: u64, num: u16)
    requires
        forall|i: int| 0 <= i < s.len() ==> !(s[i].group == g && s[i].bin_num == num),
    ensures
        !bins_map_of(s).contains_key((g, num)),
    decreases s.len(),
{
    if s.len() > 0 {
        assert(forall|i: int| 0 <= i < s.len() - 1 ==> s.drop_last()[i] == s[i]);
        lemma_bins_map_none(s.drop_last(), g, num);
    }
}

proof fn lemma_bins_map_update(s: Seq<BinEntry>, i: int, e: BinEntry)
    requires
        bins_unique(s),
        0 <= i < s.len(),
        s[i].group == e.group,
        s[i].bin_num == e.bin_num,
    ensures
        bins_map_of(s.update(i, e)) =~= (bins_map_of(s).insert(
            (e.group, e.bin_num),
            BinView { name: e.name@, pf: e.pf@ },
        )),
        bins_unique(s.update(i, e)),
    decreases s.len(),
{
    let t = s.update(i, e);
    assert(forall|j: int| 0 <= j < s.len() && j != i ==> t[j] == s[j]);
    if i == s.len() - 1 {
        assert(t.drop_last() =~= s.drop_last());
    } else {
        assert(t.drop_last() =~= s.drop_last().update(i, e));
        lemma_bins_map_update(s.drop_last(), i, e);
        assert(s.last().group != e.group || s.last().bin_num != e.bin_num);
    }
}

proof fn lemma_tests_map_at(policy: TestIDType, s: Seq<TestEntry>, i: int)
    requires
        tests_unique(policy, s),
        0 <= i < s.len(),
    ensures
        tests_map_of(policy, s).contains_key(
            test_key(policy, s[i].group, s[i].test_num, s[i].test_name@),
        ),
        tests_map_of(policy, s)[test_key(policy, s[i].group, s[i].test_num, s[i].test_name@)] == i,
    decreases s.len(),
{
    if i == s.len() - 1 {
    } else {
        assert(s.drop_last()[i] == s[i]);
        lemma_tests_map_at(policy, s.drop_last(), i);
    }
}

proof fn lemma_tests_map_none(policy: TestIDType, s: Seq<TestEntry>, k: (u64, u32, Seq<char>))
    requires
        forall|i: int|
            0 <= i < s.len() ==> test_key(policy, s[i].group, s[i].test_num, s[i].test_name@) != k,
    ensures
        !tests_map_of(policy, s).contains_key(k),
    decreases s.len(),
{
    if s.len() > 0 {
        assert(forall|i: int| 0 <= i < s.len() - 1 ==> s.drop_last()[i] == s[i]);
        lemma_tests_map_none(policy, s.drop_last(), k);
    }
}

/// The entry a test id points back to carries the key that mapped to
/// it.
pub proof fn lemma_tests_map_index(policy: TestIDType, s: Seq<TestEntry>, k: (u64, u32, Seq<char>))
    requires
        tests_unique(policy, s),
        tests_map_of(policy, s).contains_key(k),
    ensures
        0 <= tests_map_of(policy, s)[k] < s.len(),
        test_key(
            policy,
            s[tests_map_of(policy, s)[k]].group,
            s[tests_map_of(policy, s)[k]].test_num,
            s[tests_map_of(policy, s)[k]].test_name@,
        ) == k,
    decreases s.len(),
{
    let last_key = test_key(policy, s.last().group, s.last().test_num, s.last().test_name@);
    if k == last_key {
    } else {
        assert(forall|i: int| 0 <= i < s.len() - 1 ==> s.drop_last()[i] == s[i]);
        lemma_tests_map_index(policy, s.drop_last(), k);
    }
}

/// Updating an entry in place without touching its key leaves the
/// test-id map unchanged.
proof fn lemma_tests_map_update(policy: TestIDType, s: Seq<TestEntry>, i: int, e: TestEntry)
    requires
        tests_unique(policy, s),
        0 <= i < s.len(),
        e.group == s[i].group,
        e.test_num == s[i].test_num,
        e.test_name@ == s[i].test_name@,
    ensures
        tests_map_of(policy, s.update(i, e)) =~= tests_map_of(policy, s),
        tests_unique(policy, s.update(i, e)),
    decreases s.len(),
{
    let t = s.update(i, e);
    assert(forall|j: int| 0 <= j < s.len() && j != i ==> t[j] == s[j]);
    if i == s.len() - 1 {
        assert(t.drop_last() =~= s.drop_last());
    } else {
        assert(t.drop_last() =~= s.drop_last().update(i, e));
        lemma_tests_map_update(policy, s.drop_last(), i, e);
    }
}

/// The in-memory state machine that reconstructs cross-record
/// relationships for one ingestion run.
pub struct RecordTracker {
    pub policy: TestIDType,
    pub tests: Vec<TestEntry>,
    pub duts: Vec<DutKey>,
    pub wafers: Vec<WaferKey>,
    pub groups: Vec<GroupState>,
    pub hbins: Vec<BinEntry>,
    pub sbins: Vec<BinEntry>,
}

impl RecordTracker {
    /// Every stored association has pairwise distinct keys, every
    /// assigned device or wafer index is positive and no larger than
    /// its group's counter, counted groups are on record, and default
    /// limits are frozen together: both sides or neither.
    pub open spec fn wf(&self) -> bool {
        &&& duts_unique(self.duts@)
        &&& wafers_unique(self.wafers@)
        &&& groups_unique(self.groups@)
        &&& bins_unique(self.hbins@)
        &&& bins_unique(self.sbins@)
        &&& tests_unique(self.policy, self.tests@)
        &&& forall|i: int|
            0 <= i < self.tests@.len() ==> ((#[trigger] self.tests@[i].default_lo) is Some
                <==> self.tests@[i].default_hi is Some)
        &&& forall|i: int|
            0 <= i < self.duts@.len() ==> 1 <= #[trigger] self.duts@[i].dut_index
                <= self.spec_dut_total(self.duts@[i].group)
        &&& forall|i: int|
            0 <= i < self.wafers@.len() ==> 1 <= #[trigger] self.wafers@[i].wafer_index
                <= self.spec_wafer_total(self.wafers@[i].group)
    }

    /// The device-index map: (group, head, site) to last assigned index.
    pub open spec fn dut_map(&self) -> Map<(u64, u8, u8), u64> {
        duts_map_of(self.duts@)
    }

    /// The wafer-index map: (group, head) to last assigned index.
    pub open spec fn wafer_map(&self) -> Map<(u64, u8), u64> {
        wafers_map_of(self.wafers@)
    }

    /// The per-group state map.
    pub open spec fn group_map(&self) -> Map<u64, GroupView> {
        groups_map_of(self.groups@)
    }

    /// The hardware-bin map: (group, bin number) to definition.
    pub open spec fn hbin_map(&self) -> Map<(u64, u16), BinView> {
        bins_map_of(self.hbins@)
    }

    /// The software-bin map.
    pub open spec fn sbin_map(&self) -> Map<(u64, u16), BinView> {
        bins_map_of(self.sbins@)
    }

    /// The test-id map under the configured policy.
    pub open spec fn test_map(&self) -> Map<(u64, u32, Seq<char>), int> {
        tests_map_of(self.policy, self.tests@)
    }

    /// Devices started so far in a group; zero for an unseen group.
    pub open spec fn spec_dut_total(&self, group: u64) -> u64 {
        if self.group_map().contains_key(group) {
            self.group_map()[group].dut_total
        } else {
            0
        }
    }

    /// Wafers started so far in a group; zero for an unseen group.
    pub open spec fn spec_wafer_total(&self, group: u64) -> u64 {
        if self.group_map().contains_key(group) {
            self.group_map()[group].wafer_total
        } else {
            0
        }
    }

    /// Whether a datalog entry in this group would fall before the
    /// current device's end record; true for an unseen group.
    pub open spec fn spec_before_prr(&self, group: u64) -> bool {
        if self.group_map().contains_key(group) {
            self.group_map()[group].before_prr
        } else {
            true
        }
    }

    /// The open program sections of a group; `None` before the first
    /// section record.
    pub open spec fn spec_sections(&self, group: u64) -> Option<Seq<Seq<char>>> {
        if self.group_map().contains_key(group) {
            self.group_map()[group].sections
        } else {
            None
        }
    }

    /// An empty tracker with the given identity policy.
    pub fn new(policy: TestIDType) -> (r: RecordTracker)
        ensures
            r.wf(),
            r.policy == policy,
            r.dut_map() =~= Map::<(u64, u8, u8), u64>::empty(),
            r.wafer_map() =~= Map::<(u64, u8), u64>::empty(),
            r.group_map() =~= Map::<u64, GroupView>::empty(),
            r.hbin_map() =~= Map::<(u64, u16), BinView>::empty(),
            r.sbin_map() =~= Map::<(u64, u16), BinView>::empty(),
            r.test_map() =~= Map::<(u64, u32, Seq<char>), int>::empty(),
            r.tests@.len() == 0,
    {
        RecordTracker {
            policy,
            tests: Vec::new(),
            duts: Vec::new(),
            wafers: Vec::new(),
            groups: Vec::new(),
            hbins: Vec::new(),
            sbins: Vec::new(),
        }
    }

    fn find_group_pos(&self, group: u64) -> (r: Option<usize>)
        ensures
            match r {
                Some(i) => i < self.groups@.len() && self.groups@[i as int].group == group,
                None => forall|i: int| 0 <= i < self.groups@.len() ==> self.groups@[i].group != group,
            },
    {
        let mut i: usize = 0;
        while i < self.groups.len()
            invariant
                i <= self.groups@.len(),
                forall|j: int| 0 <= j < i ==> self.groups@[j].group != group,
            decreases self.groups@.len() - i,
        {
            if self.groups[i].group == group {
                return Some(i);
            }
            i = i + 1;
        }
        None
    }

    fn find_dut_pos(&self, group: u64, head: u8, site: u8) -> (r: Option<usize>)
        ensures
            match r {
                Some(i) => i < self.duts@.len() && self.duts@[i as int].group == group
                    && self.duts@[i as int].head == head && self.duts@[i as int].site == site,
                None => forall|i: int|
                    0 <= i < self.duts@.len() ==> !(self.duts@[i].group == group
                        && self.duts@[i].head == head && self.duts@[i].site == site),
            },
    {
        let mut i: usize = 0;
        while i < self.duts.len()
            invariant
                i <= self.duts@.len(),
                forall|j: int|
                    0 <= j < i ==> !(self.duts@[j].group == group && self.duts@[j].head == head
                        && self.duts@[j].site == site),
            decreases self.duts@.len() - i,
        {
            if self.duts[i].group == group && self.duts[i].head == head && self.duts[i].site == site {
                return Some(i);
            }
            i = i + 1;
        }
        None
    }

    /// Finds the group's state, creating a fresh zeroed one the first
    /// time the group is seen.
    fn ensure_group(&mut self, group: u64) -> (gi: usize)
        requires
            old(self).wf(),
        ensures
            final(self).wf(),
            gi < final(self).groups@.len(),
            final(self).groups@[gi as int].group == group,
            old(self).group_map().contains_key(group) ==> final(self).groups@ == old(self).groups@
                && final(self).group_map() == old(self).group_map(),
            !old(self).group_map().contains_key(group) ==> final(self).group_map() == (old(
                self,
            ).group_map().insert(
                group,
                GroupView { dut_total: 0, wafer_total: 0, before_prr: true, sections: None },
            )),
            final(self).group_map()[group] == (GroupView {
                dut_total: old(self).spec_dut_total(group),
                wafer_total: old(self).spec_wafer_total(group),
                before_prr: old(self).spec_before_prr(group),
                sections: old(self).spec_sections(group),
            }),
            final(self).group_map().contains_key(group),
            final(self).policy == old(self).policy,
            final(self).tests == old(self).tests,
            final(self).duts == old(self).duts,
            final(self).wafers == old(self).wafers,
            final(self).hbins == old(self).hbins,
            final(self).sbins == old(self).sbins,
    {
        match self.find_group_pos(group) {
            Some(gi) => {
                proof {
                    lemma_groups_map_at(self.groups@, gi as int);
                }
                gi
            },
            None => {
                let gi = self.groups.len();
                proof {
                    lemma_groups_map_none(old(self).groups@, group);
                }
                self.groups.push(
                    GroupState {
                        group,
                        dut_total: 0,
                        wafer_total: 0,
                        before_prr: true,
                        sections: None,
                    },
                );
                proof {
                    assert(self.groups@.drop_last() =~= old(self).groups@);
                    assert(groups_unique(self.groups@));
                    lemma_groups_map_at(self.groups@, gi as int);
                    assert forall|i: int| 0 <= i < self.duts@.len() implies 1
                        <= #[trigger] self.duts@[i].dut_index <= self.spec_dut_total(
                        self.duts@[i].group,
                    ) by {
                        assert(old(self).spec_dut_total(self.duts@[i].group) == self.spec_dut_total(
                            self.duts@[i].group,
                        ));
                    }
                    assert forall|i: int| 0 <= i < self.wafers@.len() implies 1
                        <= #[trigger] self.wafers@[i].wafer_index <= self.spec_wafer_total(
                        self.wafers@[i].group,
                    ) by {
                        assert(old(self).spec_wafer_total(self.wafers@[i].group)
                            == self.spec_wafer_total(self.wafers@[i].group));
                    }
                }
                gi
            },
        }
    }

    fn find_wafer_pos(&self, group: u64, head: u8) -> (r: Option<usize>)
        ensures
            match r {
                Some(i) => i < self.wafers@.len() && self.wafers@[i as int].group == group
                    && self.wafers@[i as int].head == head,
                None => forall|i: int|
                    0 <= i < self.wafers@.len() ==> !(self.wafers@[i].group == group
                        && self.wafers@[i].head == head),
            },
    {
        let mut i: usize = 0;
        while i < self.wafers.len()
            invariant
                i <= self.wafers@.len(),
                forall|j: int|
                    0 <= j < i ==> !(self.wafers@[j].group == group && self.wafers@[j].head == head),
            decreases self.wafers@.len() - i,
        {
            if self.wafers[i].group == group && self.wafers[i].head == head {
                return Some(i);
            }
            i = i + 1;
        }
        None
    }

    /// A device start: assigns the group's next device index to this
    /// (head, site) and notes that datalog entries now precede the
    /// device's end record.  Indices are strictly increasing from 1
    /// within a group, so the one assigned here is larger than every
    /// index the group has handed out before.
    pub fn pir_detected(&mut self, file_id: u64, head_num: u8, site_num: u8) -> (dut_index: u64)
        requires
            old(self).wf(),
            old(self).spec_counters_ok(),
        ensures
            final(self).wf(),
            dut_index == old(self).spec_dut_total(file_id) + 1,
            final(self).dut_map() == old(self).dut_map().insert(
                (file_id, head_num, site_num),
                dut_index,
            ),
            final(self).group_map() == old(self).group_map().insert(
                file_id,
                GroupView {
                    dut_total: dut_index,
                    wafer_total: old(self).spec_wafer_total(file_id),
                    before_prr: true,
                    sections: old(self).spec_sections(file_id),
                },
            ),
            forall|k: (u64, u8, u8)|
                #[trigger] old(self).dut_map().contains_key(k) && k.0 == file_id ==> old(
                    self,
                ).dut_map()[k] < dut_index,
            final(self).policy == old(self).policy,
            final(self).tests == old(self).tests,
            final(self).wafers == old(self).wafers,
            final(self).hbins == old(self).hbins,
            final(self).sbins == old(self).sbins,
    {
        proof {
            lemma_groups_map_values(self.groups@);
        }
        let gi = self.ensure_group(file_id);
        proof {
            lemma_groups_map_at(self.groups@, gi as int);
        }
        let new_total = self.groups[gi].dut_total + 1;
        let ghost mid = *self;
        self.groups[gi].dut_total = new_total;
        self.groups[gi].before_prr = true;
        proof {
            let s0 = mid.groups@;
            let e1 = GroupState { dut_total: new_total, ..s0[gi as int] };
            let e2 = GroupState { before_prr: true, ..e1 };
            assert(self.groups@ =~= s0.update(gi as int, e1).update(gi as int, e2));
            assert(s0.update(gi as int, e1).update(gi as int, e2) =~= s0.update(gi as int, e2));
            lemma_groups_map_update(s0, gi as int, e2);
        }
        let ghost pre_duts = *self;
        proof {
            lemma_duts_map_values(old(self).duts@);
        }
        match self.find_dut_pos(file_id, head_num, site_num) {
            Some(di) => {
                let ghost olde = self.duts@[di as int];
                self.duts[di].dut_index = new_total;
                proof {
                    let e = DutKey { dut_index: new_total, ..olde };
                    assert(self.duts@ =~= pre_duts.duts@.update(di as int, e));
                    lemma_duts_map_update(pre_duts.duts@, di as int, e);
                    assert(final_wf_duts(*self));
                }
            },
            None => {
                proof {
                    lemma_duts_map_none(pre_duts.duts@, file_id, head_num, site_num);
                }
                self.duts.push(
                    DutKey { group: file_id, head: head_num, site: site_num, dut_index: new_total },
                );
                proof {
                    assert(self.duts@.drop_last() =~= pre_duts.duts@);
                    assert(duts_unique(self.duts@));
                    assert(final_wf_duts(*self));
                }
            },
        }
        proof {
            assert(final(self).dut_map() =~= old(self).dut_map().insert(
                (file_id, head_num, site_num),
                new_total,
            ));
            assert(final(self).group_map() =~= old(self).group_map().insert(
                file_id,
                GroupView {
                    dut_total: new_total,
                    wafer_total: old(self).spec_wafer_total(file_id),
                    before_prr: true,
                    sections: old(self).spec_sections(file_id),
                },
            ));
            assert forall|i: int| 0 <= i < self.wafers@.len() implies 1
                <= #[trigger] self.wafers@[i].wafer_index <= self.spec_wafer_total(
                self.wafers@[i].group,
            ) by {
                assert(old(self).spec_wafer_total(self.wafers@[i].group) == self.spec_wafer_total(
                    self.wafers@[i].group,
                ));
            }
        }
        new_total
    }

    /// A wafer start: assigns the group's next wafer index to this head.
    pub fn wir_detected(&mut self, file_id: u64, head_num: u8) -> (wafer_index: u64)
        requires
            old(self).wf(),
            old(self).spec_counters_ok(),
        ensures
            final(self).wf(),
            wafer_index == old(self).spec_wafer_total(file_id) + 1,
            final(self).wafer_map() == old(self).wafer_map().insert(
                (file_id, head_num),
                wafer_index,
            ),
            final(self).group_map() == old(self).group_map().insert(
                file_id,
                GroupView {
                    dut_total: old(self).spec_dut_total(file_id),
                    wafer_total: wafer_index,
                    before_prr: old(self).spec_before_prr(file_id),
                    sections: old(self).spec_sections(file_id),
                },
            ),
            final(self).policy == old(self).policy,
            final(self).tests == old(self).tests,
            final(self).duts == old(self).duts,
            final(self).hbins == old(self).hbins,
            final(self).sbins == old(self).sbins,
    {
        proof {
            lemma_groups_map_values(self.groups@);
        }
        let gi = self.ensure_group(file_id);
        proof {
            lemma_groups_map_at(self.groups@, gi as int);
        }
        let new_total = self.groups[gi].wafer_total + 1;
        let ghost mid = *self;
        self.groups[gi].wafer_total = new_total;
        proof {
            let s0 = mid.groups@;
            let e1 = GroupState { wafer_total: new_total, ..s0[gi as int] };
            assert(self.groups@ =~= s0.update(gi as int, e1));
            lemma_groups_map_update(s0, gi as int, e1);
        }
        let ghost pre = *self;
        match self.find_wafer_pos(file_id, head_num) {
            Some(wi) => {
                let ghost olde = self.wafers@[wi as int];
                self.wafers[wi].wafer_index = new_total;
                proof {
                    let e = WaferKey { wafer_index: new_total, ..olde };
                    assert(self.wafers@ =~= pre.wafers@.update(wi as int, e));
                    lemma_wafers_map_update(pre.wafers@, wi as int, e);
                    assert(final_wf_wafers(*self));
                }
            },
            None => {
                proof {
                    lemma_wafers_map_none(pre.wafers@, file_id, head_num);
                }
                self.wafers.push(
                    WaferKey { group: file_id, head: head_num, wafer_index: new_total },
                );
                proof {
                    assert(self.wafers@.drop_last() =~= pre.wafers@);
                    assert(wafers_unique(self.wafers@));
                    assert(final_wf_wafers(*self));
                }
            },
        }
        proof {
            assert(final(self).wafer_map() =~= old(self).wafer_map().insert(
                (file_id, head_num),
                new_total,
            ));
            assert(final(self).group_map() =~= old(self).group_map().insert(
                file_id,
                GroupView {
                    dut_total: old(self).spec_dut_total(file_id),
                    wafer_total: new_total,
                    before_prr: old(self).spec_before_prr(file_id),
                    sections: old(self).spec_sections(file_id),
                },
            ));
            assert forall|i: int| 0 <= i < self.duts@.len() implies 1
                <= #[trigger] self.duts@[i].dut_index <= self.spec_dut_total(
                self.duts@[i].group,
            ) by {
                assert(old(self).spec_dut_total(self.duts@[i].group) == self.spec_dut_total(
                    self.duts@[i].group,
                ));
            }
        }
        new_total
    }

    /// The wafer index currently open for (group, head), or a wafer
    /// ordering error if no wafer was started there.
    pub fn get_wafer_index(&self, file_id: u64, head_num: u8) -> (r: Result<u64, StdfHelperError>)
        requires
            self.wf(),
        ensures
            match r {
                Ok(w) => self.wafer_map().contains_key((file_id, head_num)) && w
                    == self.wafer_map()[(file_id, head_num)],
                Err(e) => !self.wafer_map().contains_key((file_id, head_num)) && e
                    == (StdfHelperError::WaferOrdering { group: file_id, head: head_num }),
            },
    {
        match self.find_wafer_pos(file_id, head_num) {
            Some(wi) => {
                proof {
                    lemma_wafers_map_at(self.wafers@, wi as int);
                }
                Ok(self.wafers[wi].wafer_index)
            },
            None => {
                proof {
                    lemma_wafers_map_none(self.wafers@, file_id, head_num);
                }
                Err(StdfHelperError::WaferOrdering { group: file_id, head: head_num })
            },
        }
    }

    /// Where a datalog entry belongs: the index of the group's current
    /// device (0 before the first device) and whether the entry falls
    /// before that device's end record.
    pub fn get_datalog_relative_pos(&self, file_id: u64) -> (r: (u64, bool))
        requires
            self.wf(),
        ensures
            r.0 == self.spec_dut_total(file_id),
            r.1 == self.spec_before_prr(file_id),
    {
        match self.find_group_pos(file_id) {
            Some(gi) => {
                proof {
                    lemma_groups_map_at(self.groups@, gi as int);
                }
                (self.groups[gi].dut_total, self.groups[gi].before_prr)
            },
            None => {
                proof {
                    lemma_groups_map_none(self.groups@, file_id);
                }
                (0, true)
            },
        }
    }
}

/// The SEQ_NAME text of a stack of open sections: the names joined
/// with `;`.
pub open spec fn joined_sections(ss: Seq<Seq<char>>) -> Seq<char>
    decreases ss.len(),
{
    if ss.len() == 0 {
        Seq::empty()
    } else if ss.len() == 1 {
        ss[0]
    } else {
        joined_sections(ss.drop_last()) + ";"@ + ss.last()
    }
}

impl RecordTracker {
    /// A program-section start: pushes the section name onto the
    /// group's stack.
    pub fn bps_detected(&mut self, file_id: u64, bps_rec: &BPS) -> (r: Result<
        (),
        StdfHelperError,
    >)
        requires
            old(self).wf(),
        ensures
            final(self).wf(),
            r is Ok,
            final(self).group_map() == old(self).group_map().insert(
                file_id,
                GroupView {
                    dut_total: old(self).spec_dut_total(file_id),
                    wafer_total: old(self).spec_wafer_total(file_id),
                    before_prr: old(self).spec_before_prr(file_id),
                    sections: Some(
                        match old(self).spec_sections(file_id) {
                            Some(ss) => ss.push(bps_rec.seq_name@),
                            None => seq![bps_rec.seq_name@],
                        },
                    ),
                },
            ),
            final(self).policy == old(self).policy,
            final(self).tests == old(self).tests,
            final(self).duts == old(self).duts,
            final(self).wafers == old(self).wafers,
            final(self).hbins == old(self).hbins,
            final(self).sbins == old(self).sbins,
    {
        let gi = self.ensure_group(file_id);
        proof {
            lemma_groups_map_at(self.groups@, gi as int);
        }
        let ghost mid = *self;
        match &mut self.groups[gi].sections {
            Some(v) => {
                v.push(bps_rec.seq_name.clone());
            },
            None => {
                let mut v: Vec<String> = Vec::new();
                v.push(bps_rec.seq_name.clone());
                self.groups[gi].sections = Some(v);
            },
        }
        proof {
            let s0 = mid.groups@;
            let e = self.groups@[gi as int];
            assert(self.groups@ =~= s0.update(gi as int, e));
            lemma_groups_map_update(s0, gi as int, e);
            match mid.spec_sections(file_id) {
                Some(ss) => {
                    assert(e@.sections == Some(ss.push(bps_rec.seq_name@)));
                },
                None => {
                    assert(e@.sections == Some(seq![bps_rec.seq_name@]));
                },
            }
            assert(final(self).group_map() =~= old(self).group_map().insert(
                file_id,
                GroupView {
                    dut_total: old(self).spec_dut_total(file_id),
                    wafer_total: old(self).spec_wafer_total(file_id),
                    before_prr: old(self).spec_before_prr(file_id),
                    sections: Some(
                        match old(self).spec_sections(file_id) {
                            Some(ss) => ss.push(bps_rec.seq_name@),
                            None => seq![bps_rec.seq_name@],
                        },
                    ),
                },
            ));
            assert(tracker_counts_wf(*self));
        }
        Ok(())
    }

    /// A program-section end: pops the innermost open section, if any.
    pub fn eps_detected(&mut self, file_id: u64) -> (r: Result<(), StdfHelperError>)
        requires
            old(self).wf(),
        ensures
            final(self).wf(),
            r is Ok,
            old(self).spec_sections(file_id) matches Some(ss) ==> final(self).group_map() == (old(
                self,
            ).group_map().insert(
                file_id,
                GroupView {
                    dut_total: old(self).spec_dut_total(file_id),
                    wafer_total: old(self).spec_wafer_total(file_id),
                    before_prr: old(self).spec_before_prr(file_id),
                    sections: Some(if ss.len() > 0 { ss.drop_last() } else { ss }),
                },
            )),
            old(self).spec_sections(file_id) is None ==> final(self).group_map() == old(
                self,
            ).group_map(),
            final(self).policy == old(self).policy,
            final(self).tests == old(self).tests,
            final(self).duts == old(self).duts,
            final(self).wafers == old(self).wafers,
            final(self).hbins == old(self).hbins,
            final(self).sbins == old(self).sbins,
    {
        let ghost pre = *self;
        match self.find_group_pos(file_id) {
            Some(gi) => {
                proof {
                    lemma_groups_map_at(self.groups@, gi as int);
                }
                match &mut self.groups[gi].sections {
                    Some(v) => {
                        let ghost vv = v@;
                        let _popped = v.pop();
                        proof {
                            assert(v@ =~= (if vv.len() > 0 { vv.drop_last() } else { vv }));
                        }
                    },
                    None => {},
                }
                proof {
                    let s0 = pre.groups@;
                    let e = self.groups@[gi as int];
                    assert(self.groups@ =~= s0.update(gi as int, e));
                    lemma_groups_map_update(s0, gi as int, e);
                    if pre.spec_sections(file_id) is Some {
                        let ss = pre.spec_sections(file_id)->0;
                        assert(e@.sections == Some(if ss.len() > 0 { ss.drop_last() } else { ss }));
                        assert(final(self).group_map() =~= old(self).group_map().insert(
                            file_id,
                            GroupView {
                                dut_total: old(self).spec_dut_total(file_id),
                                wafer_total: old(self).spec_wafer_total(file_id),
                                before_prr: old(self).spec_before_prr(file_id),
                                sections: Some(
                                    if ss.len() > 0 {
                                        ss.drop_last()
                                    } else {
                                        ss
                                    },
                                ),
                            },
                        ));
                    } else {
                        assert(e == s0[gi as int]);
                        assert(final(self).group_map() =~= old(self).group_map());
                    }
                    assert(tracker_counts_wf(*self));
                }
            },
            None => {
                proof {
                    lemma_groups_map_none(self.groups@, file_id);
                }
            },
        }
        Ok(())
    }

    /// The SEQ_NAME of the group's open sections, joined with `;`, or
    /// `None` if the group never carried a section record.
    pub fn get_program_section(&self, file_id: u64) -> (r: Option<String>)
        requires
            self.wf(),
        ensures
            match r {
                Some(s) => self.spec_sections(file_id) matches Some(ss) && s@
                    == joined_sections(ss),
                None => self.spec_sections(file_id) is None,
            },
    {
        match self.find_group_pos(file_id) {
            Some(gi) => {
                proof {
                    lemma_groups_map_at(self.groups@, gi as int);
                }
                match &self.groups[gi].sections {
                    Some(v) => {
                        let ghost ss = v@.map_values(|s: String| s@);
                        let mut out = String::new();
                        let mut i: usize = 0;
                        while i < v.len()
                            invariant
                                i <= v@.len(),
                                ss == v@.map_values(|s: String| s@),
                                ss.len() == v@.len(),
                                out@ == joined_sections(ss.take(i as int)),
                            decreases v@.len() - i,
                        {
                            if i > 0 {
                                out.append(";");
                            }
                            out.append(v[i].as_str());
                            proof {
                                assert(ss.take(i as int + 1).drop_last() =~= ss.take(i as int));
                                assert(ss.take(i as int + 1).last() == ss[i as int]);
                                assert(ss[i as int] == v@[i as int]@);
                            }
                            i = i + 1;
                        }
                        proof {
                            assert(ss.take(v@.len() as int) =~= ss);
                        }
                        Some(out)
                    },
                    None => None,
                }
            },
            None => {
                proof {
                    lemma_groups_map_none(self.groups@, file_id);
                }
                None
            },
        }
    }
}

/// A test entry after the default limits are captured: each side is
/// frozen at its first recorded value and never changes again.
pub open spec fn with_defaults(e: TestEntry, lo: u32, hi: u32) -> TestEntry {
    TestEntry {
        default_lo: match e.default_lo {
            Some(v) => Some(v),
            None => Some(lo),
        },
        default_hi: match e.default_hi {
            Some(v) => Some(v),
            None => Some(hi),
        },
        ..e
    }
}

/// Capturing default limits is idempotent: once both sides are frozen,
/// recording again — with any values — changes nothing.
pub proof fn lemma_defaults_idempotent(e: TestEntry, lo1: u32, hi1: u32, lo2: u32, hi2: u32)
    ensures
        with_defaults(with_defaults(e, lo1, hi1), lo2, hi2) == with_defaults(e, lo1, hi1),
{
}

/// The first entry of the group that carries the test number,
/// regardless of name: the fallback key of summary records.
pub open spec fn first_test_by_num_from(s: Seq<TestEntry>, g: u64, num: u32, i: int) -> Option<int>
    decreases s.len() - i,
{
    if i < 0 || i >= s.len() {
        None
    } else if s[i].group == g && s[i].test_num == num {
        Some(i)
    } else {
        first_test_by_num_from(s, g, num, i + 1)
    }
}

/// See `first_test_by_num_from`.
pub open spec fn first_test_by_num(s: Seq<TestEntry>, g: u64, num: u32) -> Option<int> {
    first_test_by_num_from(s, g, num, 0)
}

/// The test a summary record resolves to: the exact policy key if it is
/// known, else the first same-group entry with the same test number.
pub open spec fn tsr_resolved(
    policy: TestIDType,
    s: Seq<TestEntry>,
    g: u64,
    num: u32,
    name: Seq<char>,
) -> Option<int> {
    let k = test_key(policy, g, num, name);
    if tests_map_of(policy, s).contains_key(k) {
        Some(tests_map_of(policy, s)[k])
    } else {
        first_test_by_num(s, g, num)
    }
}

impl RecordTracker {
    fn find_test_pos(&self, group: u64, test_num: u32, test_txt: &String) -> (r: Option<usize>)
        requires
            self.wf(),
        ensures
            match r {
                Some(i) => self.test_map().contains_key(
                    test_key(self.policy, group, test_num, test_txt@),
                ) && self.test_map()[test_key(self.policy, group, test_num, test_txt@)] == i && i
                    < self.tests@.len(),
                None => !self.test_map().contains_key(
                    test_key(self.policy, group, test_num, test_txt@),
                ),
            },
    {
        let ghost k = test_key(self.policy, group, test_num, test_txt@);
        let number_only = matches!(self.policy, TestIDType::TestNumberOnly);
        let mut i: usize = 0;
        while i < self.tests.len()
            invariant
                self.wf(),
                i <= self.tests@.len(),
                k == test_key(self.policy, group, test_num, test_txt@),
                number_only == (self.policy is TestNumberOnly),
                forall|j: int|
                    0 <= j < i ==> test_key(
                        self.policy,
                        self.tests@[j].group,
                        self.tests@[j].test_num,
                        self.tests@[j].test_name@,
                    ) != k,
            decreases self.tests@.len() - i,
        {
            if self.tests[i].group == group && self.tests[i].test_num == test_num && (number_only
                || self.tests[i].test_name == *test_txt) {
                proof {
                    lemma_tests_map_at(self.policy, self.tests@, i as int);
                }
                return Some(i);
            }
            i = i + 1;
        }
        proof {
            lemma_tests_map_none(self.policy, self.tests@, k);
        }
        None
    }

    /// Resolves a result record to its device index and dense test id:
    /// fails with an ordering error if no device was started for
    /// (head, site); assigns the next free id on the first sighting of
    /// the test key.  Under `TestNumberAndName` the key is the test
    /// number with the name; under `TestNumberOnly` it is the number
    /// alone, so records with different names share an id.
    pub fn xtr_detected(
        &mut self,
        file_id: u64,
        head_num: u8,
        site_num: u8,
        test_num: u32,
        test_txt: &String,
    ) -> (r: Result<(u64, usize), StdfHelperError>)
        requires
            old(self).wf(),
        ensures
            final(self).wf(),
            final(self).policy == old(self).policy,
            final(self).duts == old(self).duts,
            final(self).wafers == old(self).wafers,
            final(self).groups == old(self).groups,
            final(self).hbins == old(self).hbins,
            final(self).sbins == old(self).sbins,
            match r {
                Ok((dut_index, test_id)) => {
                    let k = test_key(old(self).policy, file_id, test_num, test_txt@);
                    &&& old(self).dut_map().contains_key((file_id, head_num, site_num))
                    &&& dut_index == old(self).dut_map()[(file_id, head_num, site_num)]
                    &&& test_id < final(self).tests@.len()
                    &&& final(self).test_map().contains_key(k)
                    &&& final(self).test_map()[k] == test_id
                    &&& (if old(self).test_map().contains_key(k) {
                        final(self).tests == old(self).tests && test_id == old(self).test_map()[k]
                    } else {
                        test_id == old(self).tests@.len() && final(self).tests@ == old(
                            self,
                        ).tests@.push(
                            TestEntry {
                                group: file_id,
                                test_num,
                                test_name: final(self).tests@[test_id as int].test_name,
                                scale: None,
                                default_lo: None,
                                default_hi: None,
                                fail_count: None,
                            },
                        ) && final(self).tests@[test_id as int].test_name@ == test_txt@
                            && final(self).test_map() == old(self).test_map().insert(k, test_id as int)
                    })
                },
                Err(e) => {
                    &&& !old(self).dut_map().contains_key((file_id, head_num, site_num))
                    &&& e == (StdfHelperError::DeviceOrdering {
                        group: file_id,
                        head: head_num,
                        site: site_num,
                        test_num: Some(test_num),
                    })
                    &&& final(self).tests == old(self).tests
                },
            },
    {
        let dut_index = match self.find_dut_pos(file_id, head_num, site_num) {
            Some(di) => {
                proof {
                    lemma_duts_map_at(self.duts@, di as int);
                }
                self.duts[di].dut_index
            },
            None => {
                proof {
                    lemma_duts_map_none(self.duts@, file_id, head_num, site_num);
                }
                return Err(
                    StdfHelperError::DeviceOrdering {
                        group: file_id,
                        head: head_num,
                        site: site_num,
                        test_num: Some(test_num),
                    },
                );
            },
        };
        let test_id = match self.find_test_pos(file_id, test_num, test_txt) {
            Some(i) => i,
            None => {
                let i = self.tests.len();
                let ghost pre = *self;
                self.tests.push(
                    TestEntry {
                        group: file_id,
                        test_num,
                        test_name: test_txt.clone(),
                        scale: None,
                        default_lo: None,
                        default_hi: None,
                        fail_count: None,
                    },
                );
                proof {
                    assert(self.tests@.drop_last() =~= pre.tests@);
                    let k = test_key(pre.policy, file_id, test_num, test_txt@);
                    assert forall|j: int| 0 <= j < pre.tests@.len() implies test_key(
                        pre.policy,
                        pre.tests@[j].group,
                        pre.tests@[j].test_num,
                        pre.tests@[j].test_name@,
                    ) != k by {
                        if test_key(
                            pre.policy,
                            pre.tests@[j].group,
                            pre.tests@[j].test_num,
                            pre.tests@[j].test_name@,
                        ) == k {
                            lemma_tests_map_at(pre.policy, pre.tests@, j);
                        }
                    }
                    assert(tests_unique(self.policy, self.tests@));
                    lemma_tests_map_at(self.policy, self.tests@, i as int);
                    assert(tracker_counts_wf(*self));
                }
                i
            },
        };
        Ok((dut_index, test_id))
    }

    /// Returns whether the test was already sighted and its effective
    /// result scale; on the first sighting the record's own scale (0
    /// when absent) is frozen for the whole run.
    pub fn update_scale(&mut self, test_id: usize, scale: &Option<i8>) -> (r: (bool, i32))
        requires
            old(self).wf(),
            test_id < old(self).tests@.len(),
        ensures
            final(self).wf(),
            final(self).policy == old(self).policy,
            final(self).duts == old(self).duts,
            final(self).wafers == old(self).wafers,
            final(self).groups == old(self).groups,
            final(self).hbins == old(self).hbins,
            final(self).sbins == old(self).sbins,
            final(self).test_map() == old(self).test_map(),
            final(self).tests@.len() == old(self).tests@.len(),
            match old(self).tests@[test_id as int].scale {
                Some(s) => r == (true, s) && final(self).tests == old(self).tests,
                None => {
                    let s = match *scale {
                        Some(v) => v as i32,
                        None => 0,
                    };
                    r == (false, s) && final(self).tests@ == old(self).tests@.update(
                        test_id as int,
                        TestEntry { scale: Some(s), ..old(self).tests@[test_id as int] },
                    )
                },
            },
    {
        match self.tests[test_id].scale {
            Some(s) => (true, s),
            None => {
                let s: i32 = match scale {
                    Some(v) => *v as i32,
                    None => 0,
                };
                let ghost pre = *self;
                self.tests[test_id].scale = Some(s);
                proof {
                    let e = TestEntry { scale: Some(s), ..pre.tests@[test_id as int] };
                    assert(self.tests@ =~= pre.tests@.update(test_id as int, e));
                    lemma_tests_map_update(self.policy, pre.tests@, test_id as int, e);
                    assert(tracker_counts_wf(*self));
                }
                (false, s)
            },
        }
    }

    /// Freezes the first-seen default limits of a test: a side that is
    /// already recorded keeps its value whatever is passed now.
    /// Returns whether both sides were already frozen.
    pub fn update_default_limits(&mut self, test_id: usize, llimit: u32, hlimit: u32) -> (r: bool)
        requires
            old(self).wf(),
            test_id < old(self).tests@.len(),
        ensures
            final(self).wf(),
            final(self).policy == old(self).policy,
            final(self).duts == old(self).duts,
            final(self).wafers == old(self).wafers,
            final(self).groups == old(self).groups,
            final(self).hbins == old(self).hbins,
            final(self).sbins == old(self).sbins,
            final(self).test_map() == old(self).test_map(),
            final(self).tests@ == old(self).tests@.update(
                test_id as int,
                with_defaults(old(self).tests@[test_id as int], llimit, hlimit),
            ),
            r == (old(self).tests@[test_id as int].default_lo is Some && old(
                self,
            ).tests@[test_id as int].default_hi is Some),
            r ==> final(self).tests == old(self).tests,
    {
        let ghost pre = *self;
        let lo_exist = self.tests[test_id].default_lo.is_some();
        let hi_exist = self.tests[test_id].default_hi.is_some();
        if !lo_exist {
            self.tests[test_id].default_lo = Some(llimit);
        }
        if !hi_exist {
            self.tests[test_id].default_hi = Some(hlimit);
        }
        proof {
            let e = with_defaults(pre.tests@[test_id as int], llimit, hlimit);
            assert(self.tests@ =~= pre.tests@.update(test_id as int, e));
            lemma_tests_map_update(self.policy, pre.tests@, test_id as int, e);
            assert(tracker_counts_wf(*self));
            if lo_exist && hi_exist {
                assert(self.tests@ =~= pre.tests@);
            }
        }
        lo_exist && hi_exist
    }

    /// The frozen default limits of a test, or an internal-invariant
    /// error exactly when none were ever recorded (the two sides are
    /// always frozen together).
    pub fn default_limits(&self, test_id: usize) -> (r: Result<(u32, u32), StdfHelperError>)
        requires
            self.wf(),
            test_id < self.tests@.len(),
        ensures
            match r {
                Ok((lo, hi)) => self.tests@[test_id as int].default_lo == Some(lo)
                    && self.tests@[test_id as int].default_hi == Some(hi),
                Err(e) => self.tests@[test_id as int].default_lo is None
                    && self.tests@[test_id as int].default_hi is None && e
                    == (StdfHelperError::MissingDefaultLimits { test_id: test_id as u64 }),
            },
    {
        match (self.tests[test_id].default_lo, self.tests[test_id].default_hi) {
            (Some(lo), Some(hi)) => Ok((lo, hi)),
            _ => Err(StdfHelperError::MissingDefaultLimits { test_id: test_id as u64 }),
        }
    }

    fn find_test_by_num_pos(&self, group: u64, test_num: u32) -> (r: Option<usize>)
        ensures
            match r {
                Some(i) => first_test_by_num(self.tests@, group, test_num) == Some(i as int),
                None => first_test_by_num(self.tests@, group, test_num) is None,
            },
    {
        let mut i: usize = 0;
        while i < self.tests.len()
            invariant
                i <= self.tests@.len(),
                first_test_by_num(self.tests@, group, test_num) == first_test_by_num_from(
                    self.tests@,
                    group,
                    test_num,
                    i as int,
                ),
            decreases self.tests@.len() - i,
        {
            if self.tests[i].group == group && self.tests[i].test_num == test_num {
                return Some(i);
            }
            i = i + 1;
        }
        None
    }

    /// A test synopsis: adds the record's fail count (when valid) to
    /// the resolved test's tally.  The test is resolved by its exact
    /// key; on a miss, the first same-group entry with the same test
    /// number is taken as a best-effort fallback, and the name of the
    /// test actually used comes back so the caller can log the
    /// reconciliation.  Only when even the fallback fails is a
    /// (non-fatal) mismatch reported.
    pub fn tsr_detected(&mut self, file_id: u64, tsr_rec: &TSR) -> (r: Result<
        Option<String>,
        StdfHelperError,
    >)
        requires
            old(self).wf(),
        ensures
            final(self).wf(),
            final(self).policy == old(self).policy,
            final(self).duts == old(self).duts,
            final(self).wafers == old(self).wafers,
            final(self).groups == old(self).groups,
            final(self).hbins == old(self).hbins,
            final(self).sbins == old(self).sbins,
            final(self).test_map() == old(self).test_map(),
            match r {
                Ok(note) => {
                    let resolved = tsr_resolved(
                        old(self).policy,
                        old(self).tests@,
                        file_id,
                        tsr_rec.test_num,
                        tsr_rec.test_nam@,
                    );
                    &&& resolved is Some
                    &&& (note is None <==> old(self).test_map().contains_key(
                        test_key(old(self).policy, file_id, tsr_rec.test_num, tsr_rec.test_nam@),
                    ))
                    &&& (note matches Some(used) ==> used@ == old(
                        self,
                    ).tests@[resolved->0].test_name@)
                    &&& (if tsr_rec.fail_cnt == u32::MAX {
                        final(self).tests == old(self).tests
                    } else {
                        final(self).tests@ == old(self).tests@.update(
                            resolved->0,
                            TestEntry {
                                fail_count: Some(
                                    add_saturating(
                                        match old(self).tests@[resolved->0].fail_count {
                                            Some(c) => c,
                                            None => 0,
                                        },
                                        tsr_rec.fail_cnt as u64,
                                    ),
                                ),
                                ..old(self).tests@[resolved->0]
                            },
                        )
                    })
                },
                Err(e) => {
                    &&& tsr_resolved(
                        old(self).policy,
                        old(self).tests@,
                        file_id,
                        tsr_rec.test_num,
                        tsr_rec.test_nam@,
                    ) is None
                    &&& e == (StdfHelperError::SummaryMismatch {
                        group: file_id,
                        test_num: tsr_rec.test_num,
                    })
                    &&& final(self).tests == old(self).tests
                },
            },
    {
        let (pos, note): (usize, Option<String>) = match self.find_test_pos(
            file_id,
            tsr_rec.test_num,
            &tsr_rec.test_nam,
        ) {
            Some(i) => (i, None),
            None => {
                match self.find_test_by_num_pos(file_id, tsr_rec.test_num) {
                    Some(i) => {
                        proof {
                            lemma_first_by_num_in_range(self.tests@, file_id, tsr_rec.test_num);
                        }
                        (i, Some(self.tests[i].test_name.clone()))
                    },
                    None => {
                        return Err(
                            StdfHelperError::SummaryMismatch {
                                group: file_id,
                                test_num: tsr_rec.test_num,
                            },
                        );
                    },
                }
            },
        };
        proof {
            lemma_first_by_num_in_range(self.tests@, file_id, tsr_rec.test_num);
        }
        if tsr_rec.fail_cnt != u32::MAX {
            let ghost pre = *self;
            let prior: u64 = match self.tests[pos].fail_count {
                Some(c) => c,
                None => 0,
            };
            let cnt = tsr_rec.fail_cnt as u64;
            let new_count: u64 = if prior <= u64::MAX - cnt {
                prior + cnt
            } else {
                u64::MAX
            };
            self.tests[pos].fail_count = Some(new_count);
            proof {
                let e = TestEntry {
                    fail_count: Some(add_saturating(prior, cnt)),
                    ..pre.tests@[pos as int]
                };
                assert(self.tests@ =~= pre.tests@.update(pos as int, e));
                lemma_tests_map_update(self.policy, pre.tests@, pos as int, e);
                assert(tracker_counts_wf(*self));
            }
        }
        Ok(note)
    }
}

/// A bin map after an authoritative summary record: the pass/fail code
/// is always overwritten, the name only when the record carries one.
pub open spec fn noted_bin(
    m: Map<(u64, u16), BinView>,
    g: u64,
    num: u16,
    name: Seq<char>,
    pf: Seq<char>,
) -> Map<(u64, u16), BinView> {
    m.insert(
        (g, num),
        BinView {
            name: if m.contains_key((g, num)) && name.len() == 0 {
                m[(g, num)].name
            } else {
                name
            },
            pf,
        },
    )
}

/// A bin map after an inference from a device-end record: only a bin
/// number never seen before gets an entry, with an empty name.
pub open spec fn inferred_bin(m: Map<(u64, u16), BinView>, g: u64, num: u16, pf: Seq<char>) -> Map<
    (u64, u16),
    BinView,
> {
    if m.contains_key((g, num)) {
        m
    } else {
        m.insert((g, num), BinView { name: Seq::empty(), pf })
    }
}

/// The pass/fail code a device-end record implies for its bins.
pub open spec fn spec_inferred_pf(part_flg: u8) -> Seq<char> {
    if part_flg & 0x18 == 0 {
        "P"@
    } else if part_flg & 0x10 == 0 {
        "F"@
    } else {
        "U"@
    }
}

/// A summary record's pass/fail code, normalized to P, F or U.
pub open spec fn normalized_pf(pf: Seq<char>) -> Seq<char> {
    if pf == "P"@ || pf == "F"@ {
        pf
    } else {
        "U"@
    }
}

fn find_bin_pos(bins: &Vec<BinEntry>, group: u64, num: u16) -> (r: Option<usize>)
    ensures
        match r {
            Some(i) => i < bins@.len() && bins@[i as int].group == group && bins@[i as int].bin_num
                == num,
            None => forall|i: int|
                0 <= i < bins@.len() ==> !(bins@[i].group == group && bins@[i].bin_num == num),
        },
{
    let mut i: usize = 0;
    while i < bins.len()
        invariant
            i <= bins@.len(),
            forall|j: int| 0 <= j < i ==> !(bins@[j].group == group && bins@[j].bin_num == num),
        decreases bins@.len() - i,
    {
        if bins[i].group == group && bins[i].bin_num == num {
            return Some(i);
        }
        i = i + 1;
    }
    None
}

/// Applies an authoritative bin summary to a bin table.
fn bin_note(bins: &mut Vec<BinEntry>, group: u64, num: u16, name: &String, pf: String)
    requires
        bins_unique(old(bins)@),
    ensures
        bins_unique(final(bins)@),
        bins_map_of(final(bins)@) == noted_bin(bins_map_of(old(bins)@), group, num, name@, pf@),
{
    let ghost pre = bins@;
    match find_bin_pos(bins, group, num) {
        Some(i) => {
            proof {
                lemma_bins_map_at(bins@, i as int);
            }
            if !name.as_str().is_empty() {
                bins[i].name = name.clone();
            }
            bins[i].pf = pf;
            proof {
                let e = bins@[i as int];
                assert(bins@ =~= pre.update(i as int, e));
                lemma_bins_map_update(pre, i as int, e);
            }
        },
        None => {
            proof {
                lemma_bins_map_none(bins@, group, num);
            }
            bins.push(BinEntry { group, bin_num: num, name: name.clone(), pf });
            proof {
                assert(bins@.drop_last() =~= pre);
                assert(bins_unique(bins@));
            }
        },
    }
}

/// Applies a device-end bin inference to a bin table: first sighting
/// only.
fn bin_infer(bins: &mut Vec<BinEntry>, group: u64, num: u16, pf: String)
    requires
        bins_unique(old(bins)@),
    ensures
        bins_unique(final(bins)@),
        bins_map_of(final(bins)@) == inferred_bin(bins_map_of(old(bins)@), group, num, pf@),
{
    let ghost pre = bins@;
    match find_bin_pos(bins, group, num) {
        Some(i) => {
            proof {
                lemma_bins_map_at(bins@, i as int);
                assert(bins_map_of(bins@).contains_key((group, num)));
            }
        },
        None => {
            proof {
                lemma_bins_map_none(bins@, group, num);
            }
            bins.push(BinEntry { group, bin_num: num, name: String::new(), pf });
            proof {
                assert(bins@.drop_last() =~= pre);
                assert(bins_unique(bins@));
            }
        },
    }
}

fn inferred_pf_string(part_flg: u8) -> (r: String)
    ensures
        r@ == spec_inferred_pf(part_flg),
{
    if part_flg & 0x18 == 0 {
        String::from_str("P")
    } else if part_flg & 0x10 == 0 {
        String::from_str("F")
    } else {
        String::from_str("U")
    }
}

impl RecordTracker {
    /// An authoritative hardware-bin summary: overwrites whatever was
    /// inferred for this bin number.
    pub fn hbr_detected(&mut self, file_id: u64, hbr_rec: &HBR)
        requires
            old(self).wf(),
        ensures
            final(self).wf(),
            final(self).hbin_map() == noted_bin(
                old(self).hbin_map(),
                file_id,
                hbr_rec.hbin_num,
                hbr_rec.hbin_nam@,
                normalized_pf(hbr_rec.hbin_pf@),
            ),
            final(self).policy == old(self).policy,
            final(self).tests == old(self).tests,
            final(self).duts == old(self).duts,
            final(self).wafers == old(self).wafers,
            final(self).groups == old(self).groups,
            final(self).sbins == old(self).sbins,
    {
        let p = String::from_str("P");
        let f = String::from_str("F");
        let pf = if hbr_rec.hbin_pf == p || hbr_rec.hbin_pf == f {
            hbr_rec.hbin_pf.clone()
        } else {
            String::from_str("U")
        };
        bin_note(&mut self.hbins, file_id, hbr_rec.hbin_num, &hbr_rec.hbin_nam, pf);
    }

    /// An authoritative software-bin summary.
    pub fn sbr_detected(&mut self, file_id: u64, sbr_rec: &SBR)
        requires
            old(self).wf(),
        ensures
            final(self).wf(),
            final(self).sbin_map() == noted_bin(
                old(self).sbin_map(),
                file_id,
                sbr_rec.sbin_num,
                sbr_rec.sbin_nam@,
                normalized_pf(sbr_rec.sbin_pf@),
            ),
            final(self).policy == old(self).policy,
            final(self).tests == old(self).tests,
            final(self).duts == old(self).duts,
            final(self).wafers == old(self).wafers,
            final(self).groups == old(self).groups,
            final(self).hbins == old(self).hbins,
    {
        let p = String::from_str("P");
        let f = String::from_str("F");
        let pf = if sbr_rec.sbin_pf == p || sbr_rec.sbin_pf == f {
            sbr_rec.sbin_pf.clone()
        } else {
            String::from_str("U")
        };
        bin_note(&mut self.sbins, file_id, sbr_rec.sbin_num, &sbr_rec.sbin_nam, pf);
    }

    /// A device end: closes all open program sections, notes that
    /// datalog entries now follow the device's end record, infers bin
    /// classifications for bin numbers never summarized, and returns
    /// the device's index and the open wafer index of its head.  Fails
    /// with an ordering error — after those side effects, as the stream
    /// is already past them — when no device was started for
    /// (head, site).
    pub fn prr_detected(&mut self, file_id: u64, prr_rec: &PRR) -> (r: Result<
        (u64, Option<u64>),
        StdfHelperError,
    >)
        requires
            old(self).wf(),
        ensures
            final(self).wf(),
            final(self).policy == old(self).policy,
            final(self).tests == old(self).tests,
            final(self).duts == old(self).duts,
            final(self).wafers == old(self).wafers,
            final(self).group_map() == old(self).group_map().insert(
                file_id,
                GroupView {
                    dut_total: old(self).spec_dut_total(file_id),
                    wafer_total: old(self).spec_wafer_total(file_id),
                    before_prr: false,
                    sections: match old(self).spec_sections(file_id) {
                        Some(ss) => Some(Seq::empty()),
                        None => None,
                    },
                },
            ),
            final(self).hbin_map() == inferred_bin(
                old(self).hbin_map(),
                file_id,
                prr_rec.hard_bin,
                spec_inferred_pf(prr_rec.part_flg),
            ),
            final(self).sbin_map() == inferred_bin(
                old(self).sbin_map(),
                file_id,
                prr_rec.soft_bin,
                spec_inferred_pf(prr_rec.part_flg),
            ),
            match r {
                Ok((dut_index, wafer_index)) => {
                    &&& old(self).dut_map().contains_key(
                        (file_id, prr_rec.head_num, prr_rec.site_num),
                    )
                    &&& dut_index == old(self).dut_map()[(
                        file_id,
                        prr_rec.head_num,
                        prr_rec.site_num,
                    )]
                    &&& wafer_index == (if old(self).wafer_map().contains_key(
                        (file_id, prr_rec.head_num),
                    ) {
                        Some(old(self).wafer_map()[(file_id, prr_rec.head_num)])
                    } else {
                        None::<u64>
                    })
                },
                Err(e) => {
                    &&& !old(self).dut_map().contains_key(
                        (file_id, prr_rec.head_num, prr_rec.site_num),
                    )
                    &&& e == (StdfHelperError::DeviceOrdering {
                        group: file_id,
                        head: prr_rec.head_num,
                        site: prr_rec.site_num,
                        test_num: None,
                    })
                },
            },
    {
        // Close the open sections and mark datalog entries as following
        // this device's end record.
        let gi = self.ensure_group(file_id);
        proof {
            lemma_groups_map_at(self.groups@, gi as int);
        }
        let ghost mid = *self;
        self.groups[gi].before_prr = false;
        match &mut self.groups[gi].sections {
            Some(v) => {
                v.clear();
            },
            None => {},
        }
        proof {
            let s0 = mid.groups@;
            let e = self.groups@[gi as int];
            assert(self.groups@ =~= s0.update(gi as int, e));
            lemma_groups_map_update(s0, gi as int, e);
            if mid.spec_sections(file_id) is Some {
                match e.sections {
                    Some(v) => {
                        assert(v@.map_values(|s: String| s@) =~= Seq::<Seq<char>>::empty());
                    },
                    None => {},
                }
                assert(e@.sections == Some(Seq::<Seq<char>>::empty()));
            }
            assert(self.group_map() =~= old(self).group_map().insert(
                file_id,
                GroupView {
                    dut_total: old(self).spec_dut_total(file_id),
                    wafer_total: old(self).spec_wafer_total(file_id),
                    before_prr: false,
                    sections: match old(self).spec_sections(file_id) {
                        Some(ss) => Some(Seq::empty()),
                        None => None,
                    },
                },
            ));
            assert(tracker_counts_wf(*self));
        }
        // Infer bin classifications for bin numbers with no summary yet.
        let pf = inferred_pf_string(prr_rec.part_flg);
        bin_infer(&mut self.hbins, file_id, prr_rec.hard_bin, pf.clone());
        bin_infer(&mut self.sbins, file_id, prr_rec.soft_bin, pf);
        // Resolve the device and the open wafer of its head.
        let dut_index = match self.find_dut_pos(file_id, prr_rec.head_num, prr_rec.site_num) {
            Some(di) => {
                proof {
                    lemma_duts_map_at(self.duts@, di as int);
                }
                self.duts[di].dut_index
            },
            None => {
                proof {
                    lemma_duts_map_none(self.duts@, file_id, prr_rec.head_num, prr_rec.site_num);
                }
                return Err(
                    StdfHelperError::DeviceOrdering {
                        group: file_id,
                        head: prr_rec.head_num,
                        site: prr_rec.site_num,
                        test_num: None,
                    },
                );
            },
        };
        let wafer_index = match self.find_wafer_pos(file_id, prr_rec.head_num) {
            Some(wi) => {
                proof {
                    lemma_wafers_map_at(self.wafers@, wi as int);
                }
                Some(self.wafers[wi].wafer_index)
            },
            None => {
                proof {
                    lemma_wafers_map_none(self.wafers@, file_id, prr_rec.head_num);
                }
                None
            },
        };
        Ok((dut_index, wafer_index))
    }
}

/// Saturating addition on `u64`.
pub open spec fn add_saturating(a: u64, b: u64) -> u64 {
    if a + b <= u64::MAX {
        (a + b) as u64
    } else {
        u64::MAX
    }
}

/// The fallback index of a summary record is always in range.
proof fn lemma_first_by_num_in_range(s: Seq<TestEntry>, g: u64, num: u32)
    ensures
        first_test_by_num(s, g, num) matches Some(i) ==> 0 <= i < s.len(),
{
    lemma_first_by_num_in_range_from(s, g, num, 0);
}

proof fn lemma_first_by_num_in_range_from(s: Seq<TestEntry>, g: u64, num: u32, i: int)
    ensures
        first_test_by_num_from(s, g, num, i) matches Some(j) ==> i <= j < s.len(),
    decreases s.len() - i,
{
    if 0 <= i < s.len() {
        lemma_first_by_num_in_range_from(s, g, num, i + 1);
    }
}

/// Every value in the group map is the view of some stored entry.
proof fn lemma_groups_map_values(s: Seq<GroupState>)
    ensures
        forall|g: u64| #[trigger] groups_map_of(s).contains_key(g) ==> exists|i: int|
            0 <= i < s.len() && s[i].group == g && s[i]@ == groups_map_of(s)[g],
    decreases s.len(),
{
    if s.len() > 0 {
        lemma_groups_map_values(s.drop_last());
        assert forall|g: u64| #[trigger] groups_map_of(s).contains_key(g) implies exists|i: int|
            0 <= i < s.len() && s[i].group == g && s[i]@ == groups_map_of(s)[g] by {
            if g == s.last().group {
                assert(s[s.len() - 1].group == g && s[s.len() - 1]@ == groups_map_of(s)[g]);
            } else {
                assert(groups_map_of(s.drop_last()).contains_key(g));
                let i = choose|i: int|
                    0 <= i < s.drop_last().len() && s.drop_last()[i].group == g && s.drop_last()[i]@
                        == groups_map_of(s.drop_last())[g];
                assert(s[i].group == g && s[i]@ == groups_map_of(s)[g]);
            }
        }
    }
}

impl RecordTracker {
    /// No group counter is saturated: the next device or wafer index
    /// still fits.  A host can test this before feeding a record; it
    /// holds for any physically possible stream.
    pub open spec fn spec_counters_ok(&self) -> bool {
        forall|i: int|
            0 <= i < self.groups@.len() ==> (#[trigger] self.groups@[i].dut_total) < u64::MAX
                && self.groups@[i].wafer_total < u64::MAX
    }

    /// Tests that no group counter is saturated.
    pub fn counters_ok(&self) -> (r: bool)
        ensures
            r == self.spec_counters_ok(),
    {
        let mut i: usize = 0;
        while i < self.groups.len()
            invariant
                i <= self.groups@.len(),
                forall|j: int|
                    0 <= j < i ==> (#[trigger] self.groups@[j].dut_total) < u64::MAX
                        && self.groups@[j].wafer_total < u64::MAX,
            decreases self.groups@.len() - i,
        {
            if !(self.groups[i].dut_total < u64::MAX && self.groups[i].wafer_total < u64::MAX) {
                return false;
            }
            i = i + 1;
        }
        true
    }
}

/// Resolution is a function of the identity key alone: within a group,
/// two resolutions with the same test number agree whenever the policy
/// is `TestNumberOnly` — even if the names differ — and two resolutions
/// with the same number and name agree under either policy.
pub proof fn lemma_test_resolution_functional(
    policy: TestIDType,
    s: Seq<TestEntry>,
    g: u64,
    num: u32,
    name1: Seq<char>,
    name2: Seq<char>,
)
    requires
        policy is TestNumberOnly || name1 == name2,
    ensures
        test_key(policy, g, num, name1) == test_key(policy, g, num, name2),
        tests_map_of(policy, s).contains_key(test_key(policy, g, num, name1))
            ==> tests_map_of(policy, s)[test_key(policy, g, num, name1)] == tests_map_of(
            policy,
            s,
        )[test_key(policy, g, num, name2)],
{
}

/// The group counters a mutation must not disturb: every stored device
/// and wafer index stays within its group's counter.
spec fn tracker_counts_wf(post: RecordTracker) -> bool {
    &&& forall|i: int|
        0 <= i < post.duts@.len() ==> 1 <= #[trigger] post.duts@[i].dut_index
            <= post.spec_dut_total(post.duts@[i].group)
    &&& forall|i: int|
        0 <= i < post.wafers@.len() ==> 1 <= #[trigger] post.wafers@[i].wafer_index
            <= post.spec_wafer_total(post.wafers@[i].group)
}

/// After a device upsert, every stored device index is still within its
/// group's counter.
spec fn final_wf_duts(post: RecordTracker) -> bool {
    forall|i: int|
        0 <= i < post.duts@.len() ==> 1 <= #[trigger] post.duts@[i].dut_index
            <= post.spec_dut_total(post.duts@[i].group)
}

/// After a wafer upsert, every stored wafer index is still within its
/// group's counter.
spec fn final_wf_wafers(post: RecordTracker) -> bool {
    forall|i: int|
        0 <= i < post.wafers@.len() ==> 1 <= #[trigger] post.wafers@[i].wafer_index
            <= post.spec_wafer_total(post.wafers@[i].group)
}

} // verus!
