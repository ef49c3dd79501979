//! Naming of persisted report files.
//!
//! A report is stored in the platform scratch directory under
//! `report-<id>.toml`, where `<id>` is a freshly drawn random identifier:
//! distinct identifiers give distinct file names, so overlapping runs never
//! collide. Resolving the scratch directory and writing the file are the
//! caller's side of the boundary.

use vstd::prelude::*;

use crate::chars::{chars_to_string, push_str_chars};

verus! {

/// Relies on `uuid::Uuid::new_v4`, a freshly drawn random 128-bit
/// identifier, and on its hyphenated `Display` rendering, which is always
/// 36 characters. The identifier is random, so nothing more is stated.
#[verifier::external_body]
fn fresh_id() -> (r: String)
    ensures
        r@.len() == 36,
{
    format!("{}", uuid::Uuid::new_v4())
}

/// The file name a report with identifier `id` is stored under.
pub open spec fn file_name_text(id: Seq<char>) -> Seq<char> {
    "report-"@ + id + ".toml"@
}

/// Builds the file name for a given report identifier.
pub fn file_name_for(id: &str) -> (r: String)
    ensures
        r@ == file_name_text(id@),
{
    let mut out: Vec<char> = Vec::new();
    push_str_chars(&mut out, "report-");
    push_str_chars(&mut out, id);
    push_str_chars(&mut out, ".toml");
    proof {
        assert(out@ =~= file_name_text(id@));
    }
    chars_to_string(&out)
}

/// Draws a fresh identifier and builds the file name for it.
pub fn fresh_report_file_name() -> (r: String)
    ensures
        exists|id: Seq<char>| id.len() == 36 && r@ == file_name_text(id),
{
    let id = fresh_id();
    let r = file_name_for(id.as_str());
    proof {
        assert(id@.len() == 36 && r@ == file_name_text(id@));
    }
    r
}

/// Distinct identifiers give distinct report file names, so two persisted
/// reports never share a path in the same scratch directory.
pub proof fn lemma_distinct_ids_distinct_names(id1: Seq<char>, id2: Seq<char>)
    requires
        id1 != id2,
    ensures
        file_name_text(id1) != file_name_text(id2),
{
    reveal_strlit("report-");
    reveal_strlit(".toml");
    if file_name_text(id1) == file_name_text(id2) {
        assert(file_name_text(id1).len() == 12 + id1.len());
        assert(id1.len() == id2.len());
        assert forall|i: int| 0 <= i < id1.len() implies id1[i] == id2[i] by {
            assert(file_name_text(id1)[7 + i] == id1[i]);
            assert(file_name_text(id2)[7 + i] == id2[i]);
        }
        assert(id1 =~= id2);
    }
}

} // verus!
