//! The state of one connector instance and its scan lifecycle.

use vstd::prelude::*;
use crate::cell::{
    all_supported, first_unsupported, has_coercion, row_for, Cell, Column, Record,
};
use crate::error::{FdwError, Operation, ProtocolFault};
use crate::fetch::{has_envelope, is_record_of, table_rows, is_scan_request, locate_rows, normalize_record, scan_request, strip_envelope, Request};
use crate::json::{parse_json, parsed, Json};

verus! {

/// The state of a session, as a mathematical value.
pub ghost struct ScanState {
    pub base_url: Seq<char>,
    pub records: Seq<Record>,
    pub cursor: nat,
}

/// `records` are the library's form of `rows`, one for one and in order.
pub open spec fn records_of(records: Seq<Record>, rows: Seq<Json>) -> bool {
    &&& records.len() == rows.len()
    &&& forall|i: int| 0 <= i < rows.len() ==> is_record_of(#[trigger] records[i], rows[i])
}

/// The state after one pull with columns that all have a coercion rule.
pub open spec fn advance(s: ScanState) -> ScanState {
    if s.cursor < s.records.len() {
        ScanState { cursor: s.cursor + 1, ..s }
    } else {
        s
    }
}

/// The state after `n` pulls with columns that all have a coercion rule.
pub open spec fn after_pulls(s: ScanState, n: nat) -> ScanState
    decreases n,
{
    if n == 0 {
        s
    } else {
        advance(after_pulls(s, (n - 1) as nat))
    }
}

/// Pulls from a fresh scan over `len` records: the first `len` pulls each
/// yield a row and move the cursor by one, every later pull yields `None`,
/// and after the end a pull changes nothing.
pub proof fn lemma_pulls_end_at_record_count(s: ScanState, n: nat)
    requires
        s.cursor == 0,
    ensures
        after_pulls(s, n).records == s.records,
        after_pulls(s, n).base_url == s.base_url,
        n <= s.records.len() ==> after_pulls(s, n).cursor == n,
        (after_pulls(s, n).cursor < s.records.len()) <==> n < s.records.len(),
        n >= s.records.len() ==> after_pulls(s, n) == after_pulls(s, s.records.len()),
        n >= s.records.len() ==> advance(after_pulls(s, n)) == after_pulls(s, n),
    decreases n,
{
    if n > 0 {
        lemma_pulls_end_at_record_count(s, (n - 1) as nat);
    }
}

/// Builds the target row of a record, or fails on the first requested column
/// whose type has no coercion rule, whether its source cell is present or not.
pub fn materialize(r: &Record, cols: &Vec<Column>) -> (res: Result<Vec<Option<Cell>>, FdwError>)
    ensures
        all_supported(cols@) ==> res is Ok && res->Ok_0@ == row_for(*r, cols@),
        !all_supported(cols@) ==> res is Err && match res->Err_0 {
            FdwError::UnsupportedType(name) => exists|j: int|
                first_unsupported(cols@, j) && #[trigger] cols@[j].name@ == name@,
            _ => false,
        },
{
    let mut j: usize = 0;
    while j < cols.len()
        invariant
            0 <= j <= cols@.len(),
            forall|k: int| 0 <= k < j ==> has_coercion(#[trigger] cols@[k].kind),
        decreases cols@.len() - j,
    {
        if !cols[j].kind.has_coercion() {
            let name = cols[j].name.clone();
            assert(first_unsupported(cols@, j as int) && cols@[j as int].name@ == name@);
            return Err(FdwError::UnsupportedType(name));
        }
        j += 1;
    }
    let mut row: Vec<Option<Cell>> = Vec::new();
    let mut i: usize = 0;
    while i < cols.len()
        invariant
            0 <= i <= cols@.len(),
            row@ == row_for(*r, cols@).subrange(0, i as int),
        decreases cols@.len() - i,
    {
        let cell = r.cell_for(&cols[i]);
        row.push(cell);
        i += 1;
        assert(row@ =~= row_for(*r, cols@).subrange(0, i as int));
    }
    assert(row@ =~= row_for(*r, cols@));
    Ok(row)
}

/// The range of host protocol versions this connector works with, as a
/// semantic-version requirement.
pub fn host_version_requirement() -> (r: String)
    ensures
        r@ == "^0.1.0"@,
{
    String::from_str("^0.1.0")
}

/// One connector instance: its configuration and the state of the current scan.
pub struct Session {
    base_url: String,
    records: Vec<Record>,
    cursor: usize,
}

impl View for Session {
    type V = ScanState;

    closed spec fn view(&self) -> ScanState {
        ScanState { base_url: self.base_url@, records: self.records@, cursor: self.cursor as nat }
    }
}

impl Session {
    /// The read cursor never passes the end of the buffered records.
    #[verifier::type_invariant]
    closed spec fn inv(&self) -> bool {
        self.cursor <= self.records@.len()
    }

    /// A session with the given server address, or the public spreadsheet host
    /// where none is configured; no records are buffered.
    pub fn init(base_url: Option<String>) -> (r: Session)
        ensures
            r@.base_url == match base_url {
                Some(u) => u@,
                None => "https://docs.google.com/spreadsheets/d"@,
            },
            r@.records.len() == 0,
            r@.cursor == 0,
    {
        let base_url = match base_url {
            Some(u) => u,
            None => String::from_str("https://docs.google.com/spreadsheets/d"),
        };
        Session { base_url, records: Vec::new(), cursor: 0 }
    }

    /// The configured server address.
    pub fn base_url(&self) -> (r: &String)
        ensures
            r@ == self@.base_url,
    {
        &self.base_url
    }

    /// How many records the current scan buffers.
    pub fn record_count(&self) -> (r: usize)
        ensures
            r == self@.records.len(),
    {
        self.records.len()
    }

    /// How many records of the current scan have been pulled; never more than
    /// are buffered.
    pub fn cursor(&self) -> (r: usize)
        ensures
            r == self@.cursor,
            r <= self@.records.len(),
    {
        proof {
            use_type_invariant(self);
        }
        self.cursor
    }

    /// The request that starts a scan of sheet `sheet_id` on this session's server.
    pub fn scan_request(&self, sheet_id: Option<&str>) -> (r: Result<Request, FdwError>)
        ensures
            is_scan_request(self@.base_url, sheet_id, r),
    {
        scan_request(&self.base_url, sheet_id)
    }

    /// Buffers the library's form of each element of `rows`, in order, and puts
    /// the cursor at the first.
    pub fn load_rows(&mut self, rows: &Vec<Json>)
        ensures
            records_of(final(self)@.records, rows@),
            final(self)@.cursor == 0,
            final(self)@.base_url == old(self)@.base_url,
    {
        let mut records: Vec<Record> = Vec::new();
        let mut i: usize = 0;
        while i < rows.len()
            invariant
                0 <= i <= rows@.len(),
                records_of(records@, rows@.subrange(0, i as int)),
            decreases rows@.len() - i,
        {
            records.push(normalize_record(&rows[i]));
            i += 1;
        }
        assert(rows@.subrange(0, rows@.len() as int) =~= rows@);
        self.cursor = 0;
        self.records = records;
    }

    /// Starts a scan from the body of the fetch response: strips the guard
    /// prefix, parses the rest as JSON and buffers the records at `table.rows`.
    /// On any failure the session is left as it was. Called again before
    /// `end_scan`, it replaces the buffered records and starts over from the first.
    pub fn begin_scan(&mut self, body: &str) -> (res: Result<(), FdwError>)
        ensures
            !has_envelope(body@) ==> res matches Err(FdwError::Protocol(ProtocolFault::MissingPrefix)),
            has_envelope(body@) ==> match parsed(body@.subrange(5, body@.len() as int)) {
                None => res matches Err(FdwError::Parse(_)),
                Some(d) => match table_rows(d) {
                    None => res matches Err(FdwError::Protocol(ProtocolFault::MissingRecords)),
                    Some(a) => {
                        &&& res is Ok
                        &&& records_of(final(self)@.records, a)
                        &&& final(self)@.cursor == 0
                        &&& final(self)@.base_url == old(self)@.base_url
                    },
                },
            },
            res is Err ==> final(self)@ == old(self)@,
    {
        let text = match strip_envelope(body) {
            Ok(t) => t,
            Err(e) => return Err(e),
        };
        let doc = match parse_json(text) {
            Ok(d) => d,
            Err(msg) => return Err(FdwError::Parse(msg)),
        };
        let rows = match locate_rows(&doc) {
            Ok(rows) => rows,
            Err(e) => return Err(e),
        };
        self.load_rows(rows);
        Ok(())
    }

    /// Ends the scan: releases the buffered records and keeps the configuration.
    pub fn end_scan(&mut self)
        ensures
            final(self)@ == (ScanState { records: Seq::empty(), cursor: 0, ..old(self)@ }),
    {
        self.cursor = 0;
        self.records = Vec::new();
        assert(self.records@ =~= Seq::<Record>::empty());
    }

    /// Restarting a scan without fetching again is not offered.
    pub fn re_scan(&self) -> (r: Result<(), FdwError>)
        ensures
            r matches Err(FdwError::NotSupported(Operation::ReScan)),
    {
        Err(FdwError::NotSupported(Operation::ReScan))
    }

    /// Writes are not offered: a write transaction cannot start.
    pub fn begin_modify(&self) -> (r: Result<(), FdwError>)
        ensures
            r matches Err(FdwError::NotSupported(Operation::Modify)),
    {
        Err(FdwError::NotSupported(Operation::Modify))
    }

    /// Unreachable once `begin_modify` has failed; does nothing.
    pub fn insert(&self, row: &Vec<Option<Cell>>) -> (r: Result<(), FdwError>)
        ensures
            r is Ok,
    {
        Ok(())
    }

    /// Unreachable once `begin_modify` has failed; does nothing.
    pub fn update(&self, rowid: &Cell, row: &Vec<Option<Cell>>) -> (r: Result<(), FdwError>)
        ensures
            r is Ok,
    {
        Ok(())
    }

    /// Unreachable once `begin_modify` has failed; does nothing.
    pub fn delete(&self, rowid: &Cell) -> (r: Result<(), FdwError>)
        ensures
            r is Ok,
    {
        Ok(())
    }

    /// Ends a write transaction; does nothing.
    pub fn end_modify(&self) -> (r: Result<(), FdwError>)
        ensures
            r is Ok,
    {
        Ok(())
    }

    /// Pulls the next row: `None` once every record has been read; else the row
    /// of the current record, after which the cursor moves on by one. Fails,
    /// with the state unchanged, where a requested column has no coercion rule.
    pub fn next_row(&mut self, cols: &Vec<Column>) -> (res: Result<Option<Vec<Option<Cell>>>, FdwError>)
        ensures
            old(self)@.cursor >= old(self)@.records.len() ==> res == Ok::<Option<Vec<Option<Cell>>>, FdwError>(None)
                && final(self)@ == old(self)@,
            old(self)@.cursor < old(self)@.records.len() && all_supported(cols@) ==> {
                &&& res is Ok && res->Ok_0 is Some
                &&& res->Ok_0->Some_0@ == row_for(old(self)@.records[old(self)@.cursor as int], cols@)
                &&& final(self)@ == advance(old(self)@)
            },
            old(self)@.cursor < old(self)@.records.len() && !all_supported(cols@) ==> {
                &&& final(self)@ == old(self)@
                &&& res is Err && match res->Err_0 {
                    FdwError::UnsupportedType(name) => exists|j: int|
                        first_unsupported(cols@, j) && #[trigger] cols@[j].name@ == name@,
                    _ => false,
                }
            },
    {
        proof {
            use_type_invariant(&*self);
        }
        if self.cursor >= self.records.len() {
            return Ok(None);
        }
        let row = materialize(&self.records[self.cursor], cols)?;
        self.cursor = self.cursor + 1;
        Ok(Some(row))
    }
}

} // verus!
