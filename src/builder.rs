//! The rendering operation shared by statements and clauses.
use vstd::prelude::*;

verus! {

/// A statement or clause that renders, once, into SQL text.
///
/// The text is a function of the configured state (the view) alone.
pub trait SqlBuilder: View + Sized {
    /// The SQL text of a builder whose configured state is `state`.
    spec fn sql_of(state: Self::V) -> Seq<char>;

    /// Renders the builder, consuming it.
    fn build_sql(self) -> (r: String)
        ensures
            r@ == Self::sql_of(self@),
    ;
}

} // verus!
