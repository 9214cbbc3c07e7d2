//! Naming of the per-entity csv files.
use vstd::prelude::*;

use crate::prometheus_exporter::{decimal, decimal_string};

verus! {

/// The name of the file that holds the rows of one entity: its id, its
/// name, the meter's suffix and the sampling period, joined by `_`.
pub open spec fn file_name_of(id: u32, name: Seq<char>, suffix: Seq<char>, period: Seq<char>) -> Seq<char> {
    decimal(id as nat) + "_"@ + name + "_"@ + suffix + "_"@ + period + ".csv"@
}

/// The name of the file that holds the rows of entity `id` named `name`,
/// measured by the meter with filename suffix `suffix` every `period`
/// (written as in the period's debug form, such as `1s` or `500ms`).
pub fn csv_file_name(id: u32, name: &str, suffix: &str, period: &str) -> (r: String)
    ensures
        r@ == file_name_of(id, name@, suffix@, period@),
{
    let mut r = decimal_string(id);
    r.append("_");
    r.append(name);
    r.append("_");
    r.append(suffix);
    r.append("_");
    r.append(period);
    r.append(".csv");
    r
}

} // verus!
