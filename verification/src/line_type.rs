//! The closed set of rebase action kinds and their textual tokens.

use vstd::prelude::*;

verus! {

/// One kind of rebase instruction. `Cancel` is an internal sentinel used by
/// the Insert mode while no action has been chosen yet; it is never written
/// into a todo file and its token is only a diagnostic placeholder.
#[derive(Clone, Copy, Debug, PartialEq, Eq, Structural)]
pub enum LineType {
    Cancel,
    Pick,
    Exec,
    Label,
    Merge,
    Reset,
    UpdateRef,
}

/// The canonical token of each line type, as a sequence of characters.
pub open spec fn token_of(line_type: LineType) -> Seq<char> {
    match line_type {
        LineType::Cancel => "<cancel>"@,
        LineType::Pick => "pick"@,
        LineType::Exec => "exec"@,
        LineType::Label => "label"@,
        LineType::Merge => "merge"@,
        LineType::Reset => "reset"@,
        LineType::UpdateRef => "update-ref"@,
    }
}

impl LineType {
    /// The canonical textual token of this line type.
    pub fn to_string(&self) -> (r: String)
        ensures
            r@ == token_of(*self),
    {
        match *self {
            LineType::Cancel => String::from_str("<cancel>"),
            LineType::Pick => String::from_str("pick"),
            LineType::Exec => String::from_str("exec"),
            LineType::Label => String::from_str("label"),
            LineType::Merge => String::from_str("merge"),
            LineType::Reset => String::from_str("reset"),
            LineType::UpdateRef => String::from_str("update-ref"),
        }
    }
}

} // verus!
