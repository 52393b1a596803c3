//! What the repository hands over at startup.
//!
//! The repository is asked once for its branches. It answers with one entry
//! per branch: the name, or nothing where the name is not valid text. The
//! dashboard starts only if every branch has a name it can show.

use vstd::prelude::*;

verus! {

/// A branch whose name is not valid text.
#[derive(Clone, Copy, Debug, PartialEq, Eq, Structural)]
pub struct EncodingError {
    /// Position of the first such branch among the branches handed over.
    pub row: usize,
}

/// Whether every branch handed over has a name.
pub open spec fn all_named(enumerated: Seq<Option<String>>) -> bool {
    forall|row: int| 0 <= row < enumerated.len() ==> (#[trigger] enumerated[row]) is Some
}

/// The names of the branches handed over, in the order in which they came.
pub open spec fn names_of(enumerated: Seq<Option<String>>) -> Seq<Seq<char>> {
    Seq::new(enumerated.len(), |row: int| enumerated[row]->0@)
}

/// Collects the names of the branches handed over, in the same order.
///
/// Succeeds exactly when every branch has a name. Otherwise the error points
/// at the first branch without one.
pub fn branch_names(enumerated: &Vec<Option<String>>) -> (result: Result<
    Vec<String>,
    EncodingError,
>)
    ensures
        result is Ok <==> all_named(enumerated@),
        match result {
            Ok(names) => names.deep_view() == names_of(enumerated@),
            Err(error) => {
                &&& error.row < enumerated@.len()
                &&& enumerated@[error.row as int] is None
                &&& all_named(enumerated@.take(error.row as int))
            },
        },
{
    let mut names: Vec<String> = Vec::new();
    let mut row: usize = 0;
    while row < enumerated.len()
        invariant
            row <= enumerated.len(),
            all_named(enumerated@.take(row as int)),
            names@.len() == row,
            forall|k: int| 0 <= k < row ==> (#[trigger] names@[k])@ == enumerated@[k]->0@,
        decreases enumerated.len() - row,
    {
        match &enumerated[row] {
            Some(name) => {
                names.push(name.clone());
            },
            None => {
                return Err(EncodingError { row });
            },
        }
        proof {
            let before = enumerated@.take(row as int);
            let now = enumerated@.take(row + 1);
            assert forall|k: int| 0 <= k < now.len() implies (#[trigger] now[k]) is Some by {
                if k < row {
                    assert(before[k] is Some);
                }
            }
        }
        row += 1;
    }
    proof {
        assert(enumerated@.take(row as int) =~= enumerated@);
        assert(names.deep_view() =~= names_of(enumerated@));
    }
    Ok(names)
}

} // verus!
