//! Grouping the lines of an element set source into records.

use vstd::prelude::*;

verus! {

/// The two consecutive text lines that describe one body.
#[derive(Debug)]
pub struct TleRecord {
    pub line1: String,
    pub line2: String,
}

/// Groups the lines of an element set source into records, in the order of
/// the source: lines `2 * i` and `2 * i + 1` make record `i`. A last line
/// that has no partner is left out.
pub fn load_tles_to_sat_rec(lines: Vec<String>) -> (records: Vec<TleRecord>)
    ensures
        records.len() == lines.len() / 2,
        forall|i: int|
            0 <= i < records.len() ==> (#[trigger] records[i]).line1 == lines[2 * i]
                && records[i].line2 == lines[2 * i + 1],
{
    let mut records: Vec<TleRecord> = Vec::new();
    let mut line_vec: Vec<String> = Vec::new();
    for line in it: lines
        invariant
            it.seq() == lines@,
            records.len() == it.index() / 2,
            line_vec.len() == it.index() % 2,
            line_vec.len() == 1 ==> line_vec[0] == lines[it.index() - 1],
            forall|i: int|
                0 <= i < records.len() ==> (#[trigger] records[i]).line1 == lines[2 * i]
                    && records[i].line2 == lines[2 * i + 1],
    {
        line_vec.push(line);
        if line_vec.len() == 2 {
            let line1 = line_vec.remove(0);
            let line2 = line_vec.remove(0);
            records.push(TleRecord { line1, line2 });
        }
    }
    records
}

} // verus!
