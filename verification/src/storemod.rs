//! An abstract model of the device table, and the superseding law.
//!
//! The relational sink executes the emitted actions in order; this
//! module gives the device-affecting actions their meaning over a
//! mathematical table keyed by (group, device index), mirroring the
//! store's update semantics — including that a NULL never compares
//! equal, so a die-supersede with an absent coordinate matches no row.
//! On that model the retest-superseding guarantee is proved: a
//! device-end that declares "supersedes same part" marks every
//! previously stored row of that (head, site, part id) and never the
//! device's own row.

use vstd::prelude::*;
use crate::actions::SinkAction;
use crate::dispatch::prr_actions;
use crate::records::PRR;

verus! {

/// One modelled device row: the identity and superseding-relevant
/// fields of the stored record.
pub struct DeviceRow {
    pub head: u8,
    pub site: u8,
    /// `None` until the device-end update fills it (stored as NULL).
    pub part_id: Option<Seq<char>>,
    pub wafer_index: Option<u64>,
    pub x_coord: Option<i16>,
    pub y_coord: Option<i16>,
    pub superseded: bool,
}

/// The modelled device table: (group, device index) to row.
pub type DeviceTable = Map<(u64, u64), DeviceRow>;

/// Whether a row is matched by a same-part supersede: head, site and a
/// present, equal part id.
pub open spec fn matches_part(row: DeviceRow, head: u8, site: u8, part: Seq<char>) -> bool {
    row.head == head && row.site == site && row.part_id == Some(part)
}

/// Whether a row is matched by a same-die supersede: head, site and
/// present, equal wafer index and coordinates.  An absent value is a
/// NULL, and a NULL never compares equal, so it matches nothing.
pub open spec fn matches_die(
    row: DeviceRow,
    head: u8,
    site: u8,
    wafer_index: Option<u64>,
    x: Option<i16>,
    y: Option<i16>,
) -> bool {
    &&& row.head == head
    &&& row.site == site
    &&& wafer_index is Some
    &&& row.wafer_index == wafer_index
    &&& x is Some
    &&& row.x_coord == x
    &&& y is Some
    &&& row.y_coord == y
}

/// What one action does to the device table.  Actions that touch other
/// tables leave it unchanged.
pub open spec fn apply_action(t: DeviceTable, a: SinkAction) -> DeviceTable {
    match a {
        SinkAction::InsertDut { group, head, site, dut_index } => t.insert(
            (group, dut_index),
            DeviceRow {
                head,
                site,
                part_id: None,
                wafer_index: None,
                x_coord: None,
                y_coord: None,
                superseded: false,
            },
        ),
        SinkAction::UpdateDut { group, dut_index, part_id, wafer_index, x_coord, y_coord, .. } => {
            if t.contains_key((group, dut_index)) {
                t.insert(
                    (group, dut_index),
                    DeviceRow {
                        head: t[(group, dut_index)].head,
                        site: t[(group, dut_index)].site,
                        part_id: Some(part_id@),
                        wafer_index,
                        x_coord,
                        y_coord,
                        superseded: false,
                    },
                )
            } else {
                t
            }
        },
        SinkAction::SupersedeDut { group, head, site, part_id } => Map::new(
            |k: (u64, u64)| t.contains_key(k),
            |k: (u64, u64)|
                if k.0 == group && matches_part(t[k], head, site, part_id@) {
                    DeviceRow { superseded: true, ..t[k] }
                } else {
                    t[k]
                },
        ),
        SinkAction::SupersedeDie { group, head, site, wafer_index, x_coord, y_coord } => Map::new(
            |k: (u64, u64)| t.contains_key(k),
            |k: (u64, u64)|
                if k.0 == group && matches_die(t[k], head, site, wafer_index, x_coord, y_coord) {
                    DeviceRow { superseded: true, ..t[k] }
                } else {
                    t[k]
                },
        ),
        _ => t,
    }
}

/// What a list of actions does to the device table, in order.
pub open spec fn apply_actions(t: DeviceTable, acts: Seq<SinkAction>) -> DeviceTable
    decreases acts.len(),
{
    if acts.len() == 0 {
        t
    } else {
        apply_actions(apply_action(t, acts.first()), acts.drop_first())
    }
}

/// Retest superseding marks prior rows and never the new one.  Given a
/// device-end record whose flags declare "supersedes same part": after
/// its actions run on a table where the ending device's own row still
/// has no part id (it is filled only by the device-end update itself),
/// every other stored row of the same group, head, site and part id is
/// marked superseded, every row it does not match keeps its mark, and
/// the ending device's own row is not superseded.
pub proof fn lemma_supersede_same_part(
    t: DeviceTable,
    fid: u64,
    rec: PRR,
    dut_index: u64,
    wafer_index: Option<u64>,
)
    requires
        rec.part_flg & 1 == 1,
        t.contains_key((fid, dut_index)),
        t[(fid, dut_index)].part_id is None,
    ensures
        ({
            let t1 = apply_actions(t, prr_actions(fid, rec, dut_index, wafer_index));
            &&& t1.contains_key((fid, dut_index))
            &&& !t1[(fid, dut_index)].superseded
            &&& t1[(fid, dut_index)].part_id == Some(rec.part_id@)
            &&& forall|d: u64|
                #[trigger] t.contains_key((fid, d)) && d != dut_index && matches_part(
                    t[(fid, d)],
                    rec.head_num,
                    rec.site_num,
                    rec.part_id@,
                ) ==> t1.contains_key((fid, d)) && t1[(fid, d)].superseded
        }),
{
    let acts = prr_actions(fid, rec, dut_index, wafer_index);
    let a0 = acts[0];
    let t_a = apply_action(t, a0);
    if rec.part_flg & 2 == 2 {
        assert(acts.len() == 3);
        let t_b = apply_action(t_a, acts[1]);
        let t_c = apply_action(t_b, acts[2]);
        assert(acts.drop_first().first() == acts[1]);
        assert(acts.drop_first().drop_first().first() == acts[2]);
        assert(acts.drop_first().drop_first().drop_first().len() == 0);
        assert(apply_actions(t, acts) == apply_actions(t_a, acts.drop_first()));
        assert(apply_actions(t_a, acts.drop_first()) == apply_actions(
            t_b,
            acts.drop_first().drop_first(),
        ));
        assert(apply_actions(t_b, acts.drop_first().drop_first()) == apply_actions(
            t_c,
            acts.drop_first().drop_first().drop_first(),
        ));
        assert(apply_actions(t, acts) == t_c);
        assert(t_a[(fid, dut_index)].part_id is None);
        assert(t_b[(fid, dut_index)].part_id is None);
        assert(!t_c[(fid, dut_index)].superseded);
    } else {
        assert(acts.len() == 2);
        let t_c = apply_action(t_a, acts[1]);
        assert(acts.drop_first().first() == acts[1]);
        assert(acts.drop_first().drop_first().len() == 0);
        assert(apply_actions(t, acts) == apply_actions(t_a, acts.drop_first()));
        assert(apply_actions(t_a, acts.drop_first()) == apply_actions(
            t_c,
            acts.drop_first().drop_first(),
        ));
        assert(apply_actions(t, acts) == t_c);
        assert(t_a[(fid, dut_index)].part_id is None);
        assert(!t_c[(fid, dut_index)].superseded);
    }
}

} // verus!
