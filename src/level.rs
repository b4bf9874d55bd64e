use vstd::prelude::*;

verus! {

/// Where the rendered text of an element is placed in the output:
/// - `Meta`: the preamble (document class, title, author, date)
/// - `Packages`: the package declarations
/// - `Document`: between `\begin{document}` and `\end{document}`
#[derive(Clone, Copy, Debug, PartialEq, Eq, Structural, PartialOrd, Ord, Hash)]
pub enum Level {
    Meta,
    Packages,
    Document,
}

/// Position of a level in the order `Meta < Packages < Document`.
pub open spec fn level_rank(l: Level) -> nat {
    match l {
        Level::Meta => 0,
        Level::Packages => 1,
        Level::Document => 2,
    }
}

} // verus!
