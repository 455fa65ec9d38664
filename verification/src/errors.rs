//! Classified errors of the ingestion core.
//!
//! Every failure carries the identifiers needed to say which group, head,
//! site or test was at fault; `message` renders them into text for the
//! host, exactly as `spec_message` states it.  Ordering violations and
//! invalid records are fatal to a run, storage failures are propagated
//! unmodified, and a summary-record mismatch is a non-fatal
//! reconciliation warning.

use vstd::prelude::*;
use crate::strings::{dec_str, u64_to_string};

verus! {

/// A classified failure raised while ingesting records.
#[allow(inconsistent_fields)]
#[derive(Debug)]
pub enum StdfHelperError {
    /// A record referenced a device that was never started: a result or
    /// device-end record for (head, site) arrived before any device-start.
    DeviceOrdering { group: u64, head: u8, site: u8, test_num: Option<u32> },
    /// A wafer-end record arrived before any wafer-start for its head.
    WaferOrdering { group: u64, head: u8 },
    /// The stream carried a structurally invalid record; indices past it
    /// are unreliable, so the whole run must stop.
    InvalidRecord { typ: u8, sub: u8, len: u16 },
    /// A default limit was queried before it was recorded; unreachable
    /// when operations are called in stream order.
    MissingDefaultLimits { test_id: u64 },
    /// A summary record matched no known test even by test number; the
    /// run continues, this is only reported.
    SummaryMismatch { group: u64, test_num: u32 },
    /// The relational store reported a failure; propagated unmodified.
    Storage { msg: String },
    /// A file could not be opened, sized or read.
    Io { msg: String },
}

impl StdfHelperError {
    /// Whether the error is fatal to the run.  Only a summary-record
    /// mismatch is survivable: it degrades to a logged warning.
    pub open spec fn spec_is_fatal(&self) -> bool {
        !(self matches StdfHelperError::SummaryMismatch { .. })
    }

    /// Tests whether the error must abort the run.
    pub fn is_fatal(&self) -> (r: bool)
        ensures
            r == self.spec_is_fatal(),
    {
        !matches!(self, StdfHelperError::SummaryMismatch { .. })
    }

    /// The exact text of the error, variant by variant.
    pub open spec fn spec_message(&self) -> Seq<char> {
        match *self {
            StdfHelperError::DeviceOrdering { group, head, site, test_num } => {
                "STDF file structure error in File["@ + dec_str(group as nat) + (match test_num {
                    Some(n) => "]: TestNumber["@ + dec_str(n as nat) + "] Head["@,
                    None => "]: PRR Head["@,
                }) + dec_str(head as nat) + "] Site["@ + dec_str(site as nat)
                    + "] showed up before PIR"@
            },
            StdfHelperError::WaferOrdering { group, head } => {
                "STDF file structure error in File["@ + dec_str(group as nat) + "]: WRR Head["@
                    + dec_str(head as nat) + "] showed up before WIR"@
            },
            StdfHelperError::InvalidRecord { typ, sub, len } => {
                "Invalid record detected, typ: "@ + dec_str(typ as nat) + ", sub: "@ + dec_str(
                    sub as nat,
                ) + ", len: "@ + dec_str(len as nat)
            },
            StdfHelperError::MissingDefaultLimits { test_id } => {
                "Default limits can not be read for test id "@ + dec_str(test_id as nat)
                    + "...this should never happen"@
            },
            StdfHelperError::SummaryMismatch { group, test_num } => {
                "Test number ["@ + dec_str(test_num as nat) + "] in TSR matches no records in File["@
                    + dec_str(group as nat) + "]"@
            },
            StdfHelperError::Storage { msg } => msg@,
            StdfHelperError::Io { msg } => msg@,
        }
    }

    /// Renders the error as one line of text naming the offending
    /// group, head, site or test.
    pub fn message(&self) -> (r: String)
        ensures
            r@ == self.spec_message(),
    {
        match self {
            StdfHelperError::DeviceOrdering { group, head, site, test_num } => {
                let mut s = String::from_str("STDF file structure error in File[");
                s.append(u64_to_string(*group).as_str());
                match test_num {
                    Some(num) => {
                        s.append("]: TestNumber[");
                        s.append(u64_to_string(*num as u64).as_str());
                        s.append("] Head[");
                    },
                    None => {
                        s.append("]: PRR Head[");
                    },
                }
                s.append(u64_to_string(*head as u64).as_str());
                s.append("] Site[");
                s.append(u64_to_string(*site as u64).as_str());
                s.append("] showed up before PIR");
                proof {
                    assert(s@ =~= self.spec_message());
                }
                s
            },
            StdfHelperError::WaferOrdering { group, head } => {
                let mut s = String::from_str("STDF file structure error in File[");
                s.append(u64_to_string(*group).as_str());
                s.append("]: WRR Head[");
                s.append(u64_to_string(*head as u64).as_str());
                s.append("] showed up before WIR");
                proof {
                    assert(s@ =~= self.spec_message());
                }
                s
            },
            StdfHelperError::InvalidRecord { typ, sub, len } => {
                let mut s = String::from_str("Invalid record detected, typ: ");
                s.append(u64_to_string(*typ as u64).as_str());
                s.append(", sub: ");
                s.append(u64_to_string(*sub as u64).as_str());
                s.append(", len: ");
                s.append(u64_to_string(*len as u64).as_str());
                proof {
                    assert(s@ =~= self.spec_message());
                }
                s
            },
            StdfHelperError::MissingDefaultLimits { test_id } => {
                let mut s = String::from_str("Default limits can not be read for test id ");
                s.append(u64_to_string(*test_id).as_str());
                s.append("...this should never happen");
                proof {
                    assert(s@ =~= self.spec_message());
                }
                s
            },
            StdfHelperError::SummaryMismatch { group, test_num } => {
                let mut s = String::from_str("Test number [");
                s.append(u64_to_string(*test_num as u64).as_str());
                s.append("] in TSR matches no records in File[");
                s.append(u64_to_string(*group).as_str());
                s.append("]");
                proof {
                    assert(s@ =~= self.spec_message());
                }
                s
            },
            StdfHelperError::Storage { msg } => msg.clone(),
            StdfHelperError::Io { msg } => msg.clone(),
        }
    }
}

} // verus!
