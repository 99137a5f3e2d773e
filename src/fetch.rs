//! Fetch & normalize: the request that a scan sends, and the unwrapping of the
//! response into source records.

use vstd::prelude::*;
use crate::cell::{find_member, Record, SourceValue};
use crate::error::{FdwError, ProtocolFault};
use crate::json::{json_member, Json};

verus! {

/// The guard that the remote service puts before the JSON body.
pub open spec fn envelope_prefix() -> Seq<char> {
    seq![')', ']', '}', '\'', '\n']
}

/// Whether a body starts with the guard prefix.
pub open spec fn has_envelope(body: Seq<char>) -> bool {
    body.len() >= envelope_prefix().len() && body.subrange(0, envelope_prefix().len() as int)
        == envelope_prefix()
}

/// Removes the guard prefix from a response body. Fails with a protocol error,
/// before any parsing, where the body does not start with it.
pub fn strip_envelope(body: &str) -> (r: Result<&str, FdwError>)
    ensures
        has_envelope(body@) ==> r is Ok && r->Ok_0@ == body@.subrange(
            envelope_prefix().len() as int,
            body@.len() as int,
        ),
        !has_envelope(body@) ==> r matches Err(FdwError::Protocol(ProtocolFault::MissingPrefix)),
{
    let n = body.unicode_len();
    if n < 5 {
        return Err(FdwError::Protocol(ProtocolFault::MissingPrefix));
    }
    let ok = body.get_char(0) == ')' && body.get_char(1) == ']' && body.get_char(2) == '}'
        && body.get_char(3) == '\'' && body.get_char(4) == '\n';
    if !ok {
        assert(body@.subrange(0, 5)[0] == body@[0]);
        assert(body@.subrange(0, 5)[1] == body@[1]);
        assert(body@.subrange(0, 5)[2] == body@[2]);
        assert(body@.subrange(0, 5)[3] == body@[3]);
        assert(body@.subrange(0, 5)[4] == body@[4]);
        return Err(FdwError::Protocol(ProtocolFault::MissingPrefix));
    }
    assert(body@.subrange(0, 5) =~= envelope_prefix());
    Ok(body.substring_char(5, n))
}

} // verus!

verus! {

/// The HTTP method of a request.
#[derive(Clone, Copy, Debug, PartialEq, Eq, Structural)]
pub enum Method {
    Get,
}

/// An outbound HTTP request, for the transport to send.
#[derive(Debug)]
pub struct Request {
    pub method: Method,
    pub url: String,
    pub headers: Vec<(String, String)>,
    pub body: String,
}

/// The address of a sheet's tabular JSON export.
pub open spec fn scan_url(base_url: Seq<char>, sheet_id: Seq<char>) -> Seq<char> {
    base_url + "/"@ + sheet_id + "/gviz/tq?tqx=out:json"@
}

/// The headers of a scan request: a client identifier, and the header that makes
/// the service answer with plain JSON.
pub open spec fn scan_headers(h: Seq<(String, String)>) -> bool {
    &&& h.len() == 2
    &&& h[0].0@ == "user-agent"@ && h[0].1@ == "Sheets FDW"@
    &&& h[1].0@ == "x-datasource-auth"@ && h[1].1@ == "true"@
}

/// `r` is the outcome owed for a scan request of `sheet_id` on server `base_url`.
pub open spec fn is_scan_request(base_url: Seq<char>, sheet_id: Option<&str>, r: Result<Request, FdwError>) -> bool {
    &&& sheet_id is None ==> (r matches Err(FdwError::Config(key)) && key@ == "sheet_id"@)
    &&& sheet_id is Some ==> (r matches Ok(req) && {
        &&& req.method == Method::Get
        &&& req.url@ == scan_url(base_url, sheet_id->Some_0@)
        &&& scan_headers(req.headers@)
        &&& req.body@.len() == 0
    })
}

/// The GET request that starts a scan of sheet `sheet_id`. Fails with a
/// configuration error where the table gives no sheet id.
pub fn scan_request(base_url: &String, sheet_id: Option<&str>) -> (r: Result<Request, FdwError>)
    ensures
        is_scan_request(base_url@, sheet_id, r),
{
    let id = match sheet_id {
        Some(id) => id,
        None => return Err(FdwError::Config(String::from_str("sheet_id"))),
    };
    let mut url = base_url.clone();
    url.append("/");
    url.append(id);
    url.append("/gviz/tq?tqx=out:json");
    let headers = vec![
        (String::from_str("user-agent"), String::from_str("Sheets FDW")),
        (String::from_str("x-datasource-auth"), String::from_str("true")),
    ];
    let body = String::new();
    proof {
        reveal_strlit("");
    }
    Ok(Request { method: Method::Get, url, headers, body })
}

/// The array of records at `table.rows` of a document, if there is one.
pub open spec fn table_rows(d: Json) -> Option<Seq<Json>> {
    match json_member(d, "table"@) {
        Some(t) => match json_member(t, "rows"@) {
            Some(Json::Array(a)) => Some(a@),
            _ => None,
        },
        None => None,
    }
}

/// What coercion reads of a JSON value: a number, a string, or neither.
pub open spec fn source_of(j: Json) -> SourceValue {
    match j {
        Json::Number(Some(i)) => SourceValue::Number(i),
        Json::Str(s) => SourceValue::Text(s),
        _ => SourceValue::Other,
    }
}

/// The value slot of a positional cell: its `"v"` member, where it has one.
pub open spec fn cell_slot(c: Json) -> Option<SourceValue> {
    match json_member(c, "v"@) {
        Some(x) => Some(source_of(x)),
        None => None,
    }
}

/// The members of an object record with their values read; none for another kind of value.
pub open spec fn keyed_members(j: Json) -> Seq<(String, SourceValue)> {
    match j {
        Json::Object(ms) => ms@.map_values(|m: (String, Json)| (m.0, source_of(m.1))),
        _ => Seq::empty(),
    }
}

/// `r` is the library's form of source record `j`: positional where `j` has a
/// `"c"` array of cells, keyed by member name otherwise.
pub open spec fn is_record_of(r: Record, j: Json) -> bool {
    match json_member(j, "c"@) {
        Some(Json::Array(cells)) => (r matches Record::Positional(v) && v@ == cells@.map_values(
            |c: Json| cell_slot(c),
        )),
        _ => (r matches Record::Keyed(ms) && ms@ == keyed_members(j)),
    }
}

/// The member named `key` of an object value.
fn member<'a>(j: &'a Json, key: &str) -> (r: Option<&'a Json>)
    ensures
        match json_member(*j, key@) {
            Some(m) => r == Some(&m),
            None => r is None,
        },
{
    match j {
        Json::Object(ms) => find_member(ms, &String::from_str(key)),
        _ => None,
    }
}

/// The array of records at `table.rows` of a parsed document. Fails with a
/// protocol error where that path is absent or is not an array.
pub fn locate_rows(doc: &Json) -> (r: Result<&Vec<Json>, FdwError>)
    ensures
        match table_rows(*doc) {
            Some(a) => r matches Ok(rows) && rows@ == a,
            None => r matches Err(FdwError::Protocol(ProtocolFault::MissingRecords)),
        },
{
    match member(doc, "table") {
        Some(t) => match member(t, "rows") {
            Some(Json::Array(a)) => Ok(a),
            _ => Err(FdwError::Protocol(ProtocolFault::MissingRecords)),
        },
        None => Err(FdwError::Protocol(ProtocolFault::MissingRecords)),
    }
}

/// What coercion reads of a JSON value.
fn source_value(j: &Json) -> (r: SourceValue)
    ensures
        r == source_of(*j),
{
    match j {
        Json::Number(Some(i)) => SourceValue::Number(*i),
        Json::Str(s) => SourceValue::Text(s.clone()),
        _ => SourceValue::Other,
    }
}

/// The members of an object record, with their values read.
fn keyed_record(row: &Json) -> (r: Record)
    ensures
        r matches Record::Keyed(ms) && ms@ == keyed_members(*row),
{
    let mut out: Vec<(String, SourceValue)> = Vec::new();
    if let Json::Object(ms) = row {
        let mut i: usize = 0;
        while i < ms.len()
            invariant
                0 <= i <= ms@.len(),
                out@ =~= ms@.subrange(0, i as int).map_values(
                    |m: (String, Json)| (m.0, source_of(m.1)),
                ),
            decreases ms@.len() - i,
        {
            let name = ms[i].0.clone();
            out.push((name, source_value(&ms[i].1)));
            i += 1;
            assert(out@ =~= ms@.subrange(0, i as int).map_values(
                |m: (String, Json)| (m.0, source_of(m.1)),
            ));
        }
        assert(ms@.subrange(0, ms@.len() as int) =~= ms@);
    }
    Record::Keyed(out)
}

/// Turns one source record into the library's form.
pub fn normalize_record(row: &Json) -> (r: Record)
    ensures
        is_record_of(r, *row),
{
    match member(row, "c") {
        Some(Json::Array(cells)) => {
            let mut out: Vec<Option<SourceValue>> = Vec::new();
            let mut i: usize = 0;
            while i < cells.len()
                invariant
                    0 <= i <= cells@.len(),
                    out@ =~= cells@.subrange(0, i as int).map_values(|c: Json| cell_slot(c)),
                decreases cells@.len() - i,
            {
                let v = match member(&cells[i], "v") {
                    Some(x) => Some(source_value(x)),
                    None => None,
                };
                out.push(v);
                i += 1;
                assert(out@ =~= cells@.subrange(0, i as int).map_values(|c: Json| cell_slot(c)));
            }
            assert(cells@.subrange(0, cells@.len() as int) =~= cells@);
            Record::Positional(out)
        },
        _ => keyed_record(row),
    }
}

} // verus!
