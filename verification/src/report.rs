//! What the command line reports for a YAML document that fails the schema.
use vstd::prelude::*;
use vstd::string::StringExecFns;
use crate::io::yaml::{schema_error_message, spec_schema_error_message, SchemaError};

verus! {

/// One entry of the error list reported for a document that fails the schema.
#[derive(Debug, Clone)]
pub struct SchemaReportEntry {
    pub code: String,
    pub message: String,
}

/// The error is a failure to read the YAML text at all.
pub open spec fn is_malformed(e: SchemaError) -> bool {
    e is MalformedYaml
}

/// The errors that a report lists: only the malformed-YAML errors when there
/// is one, since the schema checks mean nothing then; all of them otherwise.
pub open spec fn reported_errors(errors: Seq<SchemaError>) -> Seq<SchemaError> {
    if exists|i: int| 0 <= i < errors.len() && is_malformed(#[trigger] errors[i]) {
        errors.filter(|e: SchemaError| is_malformed(e))
    } else {
        errors
    }
}

/// The code reported for an error: `MalformedYaml`, or the schema error's name.
pub open spec fn report_code(e: SchemaError) -> Seq<char> {
    match e {
        SchemaError::MalformedYaml(_) => "MalformedYaml"@,
        _ => spec_schema_error_message(e),
    }
}

/// The message reported for an error.
pub open spec fn report_message(e: SchemaError) -> Seq<char> {
    match e {
        SchemaError::MalformedYaml(msg) => "YAML parsing error: "@ + msg@,
        _ => "Schema validation error: "@ + spec_schema_error_message(e),
    }
}

/// Whether any error is a malformed-YAML error.
fn any_malformed(errors: &[SchemaError]) -> (res: bool)
    ensures
        res == exists|i: int| 0 <= i < errors@.len() && is_malformed(#[trigger] errors@[i]),
{
    let mut i: usize = 0;
    while i < errors.len()
        invariant
            0 <= i <= errors@.len(),
            forall|j: int| 0 <= j < i ==> !is_malformed(#[trigger] errors@[j]),
        decreases errors@.len() - i,
    {
        if let SchemaError::MalformedYaml(_) = &errors[i] {
            assert(is_malformed(errors@[i as int]));
            return true;
        }
        i += 1;
    }
    false
}

/// The report entry for one error.
fn report_entry(e: &SchemaError) -> (res: SchemaReportEntry)
    ensures
        res.code@ == report_code(*e),
        res.message@ == report_message(*e),
{
    match e {
        SchemaError::MalformedYaml(msg) => {
            let mut message = "YAML parsing error: ".to_owned();
            message.append(msg.as_str());
            SchemaReportEntry { code: "MalformedYaml".to_owned(), message }
        },
        _ => {
            let text = schema_error_message(e);
            let mut message = "Schema validation error: ".to_owned();
            message.append(text.as_str());
            SchemaReportEntry { code: text, message }
        },
    }
}

/// The error list reported for a document that fails the schema: when the
/// YAML text could not be read, one entry per such failure and nothing of the
/// schema checks; otherwise one entry per schema error, in order.
pub fn schema_report(errors: &[SchemaError]) -> (res: Vec<SchemaReportEntry>)
    ensures
        res@.len() == reported_errors(errors@).len(),
        forall|i: int| 0 <= i < res@.len() ==> {
            &&& (#[trigger] res@[i]).code@ == report_code(reported_errors(errors@)[i])
            &&& res@[i].message@ == report_message(reported_errors(errors@)[i])
        },
{
    let only_malformed = any_malformed(errors);
    let ghost p = |e: SchemaError| is_malformed(e);
    let mut res: Vec<SchemaReportEntry> = Vec::new();
    let mut i: usize = 0;
    while i < errors.len()
        invariant
            0 <= i <= errors@.len(),
            p == (|e: SchemaError| is_malformed(e)),
            res@.len() == (if only_malformed { errors@.take(i as int).filter(p) } else { errors@.take(i as int) }).len(),
            forall|k: int| 0 <= k < res@.len() ==> {
                let listed = if only_malformed { errors@.take(i as int).filter(p) } else { errors@.take(i as int) };
                &&& (#[trigger] res@[k]).code@ == report_code(listed[k])
                &&& res@[k].message@ == report_message(listed[k])
            },
        decreases errors@.len() - i,
    {
        let ghost before = res@;
        assert(errors@.take(i + 1) == errors@.take(i as int).push(errors@[i as int]));
        proof {
            errors@.take(i as int).lemma_filter_push(errors@[i as int], p);
        }
        let keep = if only_malformed {
            match &errors[i] {
                SchemaError::MalformedYaml(_) => true,
                _ => false,
            }
        } else {
            true
        };
        if keep {
            res.push(report_entry(&errors[i]));
            assert forall|k: int| 0 <= k < res@.len() implies {
                let listed = if only_malformed { errors@.take(i + 1).filter(p) } else { errors@.take(i + 1) };
                &&& (#[trigger] res@[k]).code@ == report_code(listed[k])
                &&& res@[k].message@ == report_message(listed[k])
            } by {
                if k < before.len() {
                    assert(res@[k] == before[k]);
                }
            }
        }
        i += 1;
    }
    assert(errors@.take(errors@.len() as int) == errors@);
    res
}

/// The messages of the errors, each followed by `"; "` but the last.
pub open spec fn joined_messages(errors: Seq<SchemaError>) -> Seq<char>
    decreases errors.len(),
{
    if errors.len() == 0 {
        seq![]
    } else if errors.len() == 1 {
        spec_schema_error_message(errors[0])
    } else {
        joined_messages(errors.drop_last()) + "; "@ + spec_schema_error_message(errors.last())
    }
}

/// The one-line diagnostic for a document that fails the schema:
/// `schema validation failed: ` and the messages joined by `"; "`.
pub fn schema_failure_message(errors: &[SchemaError]) -> (res: String)
    ensures
        res@ == "schema validation failed: "@ + joined_messages(errors@),
{
    let mut res = "schema validation failed: ".to_owned();
    let ghost head = res@;
    let mut i: usize = 0;
    while i < errors.len()
        invariant
            0 <= i <= errors@.len(),
            head == "schema validation failed: "@,
            res@ == head + joined_messages(errors@.take(i as int)),
        decreases errors@.len() - i,
    {
        assert(errors@.take(i + 1).drop_last() == errors@.take(i as int));
        if i > 0 {
            res.append("; ");
        }
        let text = schema_error_message(&errors[i]);
        res.append(text.as_str());
        assert(res@ == head + joined_messages(errors@.take(i + 1)));
        i += 1;
    }
    assert(errors@.take(errors@.len() as int) == errors@);
    res
}

/// The exit status for a document that fails the schema: 2 when its YAML
/// text could not be read at all, 1 for schema errors.
pub fn schema_exit_code(errors: &[SchemaError]) -> (code: u8)
    ensures
        code == if exists|i: int| 0 <= i < errors@.len() && is_malformed(#[trigger] errors@[i]) { 2u8 } else { 1u8 },
{
    if any_malformed(errors) { 2 } else { 1 }
}

} // verus!
