use vstd::prelude::*;
use vstd::string::StringExecFns;

verus! {

/// An extra argument appended to a rendered element: `{..}` (curly) or `[..]` (square).
#[derive(Debug)]
pub enum Options {
    Curly(String),
    Square(String),
}

/// The text that one option appends.
pub open spec fn option_suffix(o: Options) -> Seq<char> {
    match o {
        Options::Curly(s) => "{"@ + s@ + "}"@,
        Options::Square(s) => "["@ + s@ + "]"@,
    }
}

/// `base` followed by the suffix of each option, in order.
pub open spec fn apply_options(base: Seq<char>, options: Seq<Options>) -> Seq<char>
    decreases options.len(),
{
    if options.len() == 0 {
        base
    } else {
        apply_options(base, options.drop_last()) + option_suffix(options.last())
    }
}

impl Clone for Options {
    fn clone(&self) -> (r: Self)
        ensures
            r == *self,
    {
        match self {
            Options::Curly(s) => Options::Curly(s.clone()),
            Options::Square(s) => Options::Square(s.clone()),
        }
    }
}

impl Options {
    /// `latex` with this option appended.
    pub fn modify(&self, latex: &str) -> (r: String)
        ensures
            r@ == latex@ + option_suffix(*self),
    {
        let mut out = String::from_str(latex);
        match self {
            Options::Curly(option) => {
                out.append("{");
                out.append(option.as_str());
                out.append("}");
            },
            Options::Square(option) => {
                out.append("[");
                out.append(option.as_str());
                out.append("]");
            },
        }
        assert(out@ =~= latex@ + option_suffix(*self));
        out
    }
}

/// Applies each option of `options` in order to `base`.
pub fn apply_all(base: &str, options: &Vec<Options>) -> (r: String)
    ensures
        r@ == apply_options(base@, options@),
{
    let mut out = String::from_str(base);
    let mut i: usize = 0;
    while i < options.len()
        invariant
            0 <= i <= options.len(),
            out@ == apply_options(base@, options@.take(i as int)),
        decreases options.len() - i,
    {
        out = options[i].modify(out.as_str());
        proof {
            assert(options@.take(i + 1).drop_last() =~= options@.take(i as int));
        }
        i = i + 1;
    }
    proof {
        assert(options@.take(options.len() as int) =~= options@);
    }
    out
}

/// Rendering an element with extra options.
///
/// Each call starts again from the element's canonical rendering, so that
/// options of an earlier call are replaced, not accumulated. After the call
/// the element is marked as modified and its cached text is authoritative.
pub trait ExtraOptions {
    /// The text that the options give, starting from the canonical rendering.
    spec fn optioned_latex(&self, options: Seq<Options>) -> Seq<char>;

    /// The cached rendered text.
    spec fn cached_latex(&self) -> Seq<char>;

    /// Whether the cached text has been set by options.
    spec fn is_modified(&self) -> bool;

    /// Whether `self` and `other` agree on everything but the cached text and the flag.
    spec fn same_content(&self, other: &Self) -> bool;

    /// The options' text depends on the content alone, not on an earlier cached text.
    proof fn lemma_optioned_depends_on_content(&self, other: &Self, options: Seq<Options>)
        requires
            self.same_content(other),
        ensures
            self.optioned_latex(options) == other.optioned_latex(options),
    ;

    fn modify_element(&mut self, options: Vec<Options>)
        ensures
            final(self).cached_latex() == old(self).optioned_latex(options@),
            final(self).is_modified(),
            final(self).same_content(old(self)),
    ;
}

/// Applying the same options a second time gives the text of the first application:
/// each application starts again from the canonical rendering. Here `once` is `start`
/// after one application of `options` and `twice` is `once` after another.
pub proof fn lemma_modify_twice<T: ExtraOptions>(start: T, once: T, twice: T, options: Seq<Options>)
    requires
        once.cached_latex() == start.optioned_latex(options),
        once.same_content(&start),
        twice.cached_latex() == once.optioned_latex(options),
    ensures
        twice.cached_latex() == once.cached_latex(),
{
    once.lemma_optioned_depends_on_content(&start, options);
}

} // verus!
