use vstd::prelude::*;
use vstd::string::StringExecFns;

use crate::extract::{records_view, vars_view, ExtractionRecord, RecordModel};

verus! {

/// The first `n` parts joined with `sep` between consecutive parts.
pub open spec fn join_upto(parts: Seq<Seq<char>>, sep: Seq<char>, n: int) -> Seq<char>
    decreases n,
{
    if n <= 0 || n > parts.len() {
        Seq::empty()
    } else if n == 1 {
        parts[0]
    } else {
        join_upto(parts, sep, n - 1) + sep + parts[n - 1]
    }
}

/// All parts joined with `sep` between consecutive parts.
pub open spec fn join_with(parts: Seq<Seq<char>>, sep: Seq<char>) -> Seq<char> {
    join_upto(parts, sep, parts.len() as int)
}

/// The parameter-shape text for one variable set: empty when the message
/// takes no parameters, otherwise a record type over the quoted variable
/// names, each mapped to a string-or-number value.
pub open spec fn spec_vars_shape(vars: Seq<Seq<char>>) -> Seq<char> {
    if vars.len() == 0 {
        Seq::empty()
    } else {
        "Vars<'"@ + join_with(vars, "' | '"@) + "'>"@
    }
}

/// One schema entry: the quoted message name mapped to its parameter shape.
pub open spec fn spec_record_line(r: RecordModel) -> Seq<char> {
    "'"@ + r.name + "': ["@ + spec_vars_shape(r.vars) + "],"@
}

/// The full schema text over a sequence of extraction records, in order.
pub open spec fn spec_render(records: Seq<RecordModel>) -> Seq<char> {
    "\nexport type LocalizedMessage = {\n  "@ + join_with(
        records.map_values(|r: RecordModel| spec_record_line(r)),
        "\n  "@,
    ) + "\n}\n\ntype Vars<T extends string> = Record<T, string | number>\n        "@
}

/// Appends the parameter-shape text of one variable list.
fn append_vars_shape(out: &mut String, vars: &Vec<String>)
    ensures
        final(out)@ == old(out)@ + spec_vars_shape(vars_view(*vars)),
{
    let ghost base = out@;
    if vars.len() == 0 {
        proof {
            assert(out@ =~= base + spec_vars_shape(vars_view(*vars)));
        }
        return ;
    }
    out.append("Vars<'");
    let n = vars.len();
    let mut i: usize = 0;
    while i < n
        invariant
            n == vars@.len(),
            1 <= n,
            i <= n,
            out@ == base + "Vars<'"@ + join_upto(vars_view(*vars), "' | '"@, i as int),
        decreases n - i,
    {
        if i > 0 {
            out.append("' | '");
        }
        out.append(vars[i].as_str());
        proof {
            assert(vars_view(*vars)[i as int] == vars@[i as int]@);
            assert(out@ =~= base + "Vars<'"@ + join_upto(vars_view(*vars), "' | '"@, i + 1));
        }
        i += 1;
    }
    out.append("'>");
    proof {
        assert(out@ =~= base + spec_vars_shape(vars_view(*vars)));
    }
}

/// Appends one schema entry for one extraction record.
fn append_record_line(out: &mut String, rec: &ExtractionRecord)
    ensures
        final(out)@ == old(out)@ + spec_record_line(rec@),
{
    let ghost base = out@;
    out.append("'");
    out.append(rec.name.as_str());
    out.append("': [");
    append_vars_shape(out, &rec.variables);
    out.append("],");
    proof {
        assert(out@ =~= base + spec_record_line(rec@));
    }
}

/// Turns an ordered sequence of extraction records into the textual type
/// schema: one entry per record, in the same order, each mapping the quoted
/// message name to its required parameter shape.
pub fn render(records: &Vec<ExtractionRecord>) -> (r: String)
    ensures
        r@ == spec_render(records_view(*records)),
{
    let ghost lines = records_view(*records).map_values(|m: RecordModel| spec_record_line(m));
    let mut out = String::from_str("\nexport type LocalizedMessage = {\n  ");
    let ghost head = out@;
    let n = records.len();
    let mut i: usize = 0;
    while i < n
        invariant
            n == records@.len(),
            i <= n,
            lines == records_view(*records).map_values(|m: RecordModel| spec_record_line(m)),
            out@ == head + join_upto(lines, "\n  "@, i as int),
        decreases n - i,
    {
        if i > 0 {
            out.append("\n  ");
        }
        append_record_line(&mut out, &records[i]);
        proof {
            assert(lines[i as int] == spec_record_line(records_view(*records)[i as int]));
            assert(out@ =~= head + join_upto(lines, "\n  "@, i + 1));
        }
        i += 1;
    }
    out.append("\n}\n\ntype Vars<T extends string> = Record<T, string | number>\n        ");
    proof {
        assert(out@ =~= spec_render(records_view(*records)));
    }
    out
}

} // verus!
