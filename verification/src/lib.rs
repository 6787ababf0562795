//! Core of an analytical query front-end: structured analysis requests are
//! compiled into SQL text for an embedded columnar engine, the SQL is screened
//! by a lexical safety validator, and engine-native result cells are mapped
//! into a uniform value model and assembled into bounded result envelopes.
//!
//! The surrounding transport (HTTP, WebSocket, desktop shell) and the engine
//! itself are collaborators outside this crate; they exchange plain values
//! with the functions here.

pub mod cache;
mod clock;
pub mod compile;
pub mod envelope;
pub mod error;
pub mod migrate;
pub mod model;
pub mod safety;
pub mod text;
pub mod values;

use vstd::prelude::*;

verus! {

/// Spec-level rendering of a data-source identifier as its backing table
/// name: every `-` becomes `_`, with the fixed prefix in front.
pub open spec fn table_name_model(source_id: Seq<char>) -> Seq<char> {
    "data_source_"@ + source_id.map_values(|c: char| if c == '-' { '_' } else { c })
}

/// Derive the physical table name backing a data source.
pub fn table_name_for(source_id: &str) -> (r: String)
    ensures
        r@ == table_name_model(source_id@),
{
    let mut out: String = String::from_str("data_source_");
    let n: usize = source_id.unicode_len();
    let mut i: usize = 0;
    while i < n
        invariant
            n == source_id@.len(),
            i <= n,
            out@ == "data_source_"@ + source_id@.take(i as int).map_values(
                |c: char| if c == '-' { '_' } else { c },
            ),
        decreases n - i,
    {
        let c = source_id.get_char(i);
        if c == '-' {
            out.append("_");
        } else {
            out.append(source_id.substring_char(i, i + 1));
        }
        proof {
            reveal_strlit("_");
            assert(source_id@.take(i + 1 as int).map_values(
                |c: char| if c == '-' { '_' } else { c },
            ) =~= source_id@.take(i as int).map_values(
                |c: char| if c == '-' { '_' } else { c },
            ) + seq![if source_id@[i as int] == '-' { '_' } else { source_id@[i as int] }]);
            assert(source_id@.subrange(i as int, i + 1 as int) =~= seq![source_id@[i as int]]);
        }
        i += 1;
    }
    proof {
        assert(source_id@.take(n as int) =~= source_id@);
    }
    out
}

/// The table a request targets: the backing table of the named data
/// source, or the `main` table when the request names none.
pub open spec fn target_table_model(source_id: Option<String>) -> Seq<char> {
    match source_id {
        Some(id) => table_name_model(id@),
        None => "main"@,
    }
}

/// Resolve the target table of a request.
pub fn target_table(source_id: &Option<String>) -> (r: String)
    ensures
        r@ == target_table_model(*source_id),
{
    match source_id {
        Some(id) => table_name_for(id.as_str()),
        None => String::from_str("main"),
    }
}

} // verus!
