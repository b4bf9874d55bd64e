use crate::element::{is_erased, has_no_details, Element, Tex};
use crate::level::Level;
use crate::ty::{Any, Environment, Type};
use vstd::prelude::*;
use vstd::string::StringExecFns;

verus! {

/// Upper or lower case.
#[derive(Clone, Copy, Debug, PartialEq, Eq, Structural)]
pub enum Case {
    Upper,
    Lower,
}

/// Greek letters.
#[derive(Clone, Copy, Debug, PartialEq, Eq, Structural)]
pub enum Greek {
    Alpha(Case),
    Beta(Case),
    Gamma(Case),
    Delta(Case),
    Epsilon(Case),
    VarEpsilon,
    Zeta(Case),
    Eta(Case),
    Theta(Case),
    VarTheta,
    Iota(Case),
    Kappa(Case),
    Lambda(Case),
    Mu(Case),
    Nu(Case),
    Xi(Case),
    O(Case),
    Pi(Case),
    Rho(Case),
    VarRho,
    Sigma(Case),
    Tau(Case),
    Upsilon(Case),
    Phi(Case),
    VarPhi,
    Chi(Case),
    Psi(Case),
    Omega(Case),
}

/// The command of each symbol.
pub open spec fn greek_latex(s: Greek) -> Seq<char> {
    match s {
        Greek::Alpha(Case::Lower) => "\\alpha"@,
        Greek::Alpha(Case::Upper) => "A"@,
        Greek::Beta(Case::Lower) => "\\beta"@,
        Greek::Beta(Case::Upper) => "B"@,
        Greek::Gamma(Case::Lower) => "\\gamma"@,
        Greek::Gamma(Case::Upper) => "\\Gamma"@,
        Greek::Delta(Case::Lower) => "\\delta"@,
        Greek::Delta(Case::Upper) => "\\Delta"@,
        Greek::Epsilon(Case::Lower) => "\\epsilon"@,
        Greek::Epsilon(Case::Upper) => "E"@,
        Greek::VarEpsilon => "\\varepsilon"@,
        Greek::Zeta(Case::Lower) => "\\zeta"@,
        Greek::Zeta(Case::Upper) => "Z"@,
        Greek::Eta(Case::Lower) => "\\eta"@,
        Greek::Eta(Case::Upper) => "H"@,
        Greek::Theta(Case::Lower) => "\\theta"@,
        Greek::Theta(Case::Upper) => "\\Theta"@,
        Greek::VarTheta => "\\vartheta"@,
        Greek::Iota(Case::Lower) => "\\iota"@,
        Greek::Iota(Case::Upper) => "I"@,
        Greek::Kappa(Case::Lower) => "\\kappa"@,
        Greek::Kappa(Case::Upper) => "K"@,
        Greek::Lambda(Case::Lower) => "\\lambda"@,
        Greek::Lambda(Case::Upper) => "\\Lambda"@,
        Greek::Mu(Case::Lower) => "\\mu"@,
        Greek::Mu(Case::Upper) => "M"@,
        Greek::Nu(Case::Lower) => "\\nu"@,
        Greek::Nu(Case::Upper) => "N"@,
        Greek::Xi(Case::Lower) => "\\xi"@,
        Greek::Xi(Case::Upper) => "\\Xi"@,
        Greek::O(Case::Lower) => "o"@,
        Greek::O(Case::Upper) => "O"@,
        Greek::Pi(Case::Lower) => "\\pi"@,
        Greek::Pi(Case::Upper) => "\\Pi"@,
        Greek::Rho(Case::Lower) => "\\rho"@,
        Greek::Rho(Case::Upper) => "P"@,
        Greek::VarRho => "\\varrho"@,
        Greek::Sigma(Case::Lower) => "\\sigma"@,
        Greek::Sigma(Case::Upper) => "\\Sigma"@,
        Greek::Tau(Case::Lower) => "\\tau"@,
        Greek::Tau(Case::Upper) => "T"@,
        Greek::Upsilon(Case::Lower) => "\\upsilon"@,
        Greek::Upsilon(Case::Upper) => "\\Upsilon"@,
        Greek::Phi(Case::Lower) => "\\phi"@,
        Greek::Phi(Case::Upper) => "\\Phi"@,
        Greek::VarPhi => "\\varphi"@,
        Greek::Chi(Case::Lower) => "\\chi"@,
        Greek::Chi(Case::Upper) => "X"@,
        Greek::Psi(Case::Lower) => "\\psi"@,
        Greek::Psi(Case::Upper) => "\\Psi"@,
        Greek::Omega(Case::Lower) => "\\omega"@,
        Greek::Omega(Case::Upper) => "\\Omega"@,
    }
}

impl Tex for Greek {
    open spec fn spec_latex(&self) -> Seq<char> {
        greek_latex(*self)
    }

    fn to_latex_string(&self) -> (r: String) {
        let s = match self {
            Greek::Alpha(Case::Lower) => "\\alpha",
            Greek::Alpha(Case::Upper) => "A",
            Greek::Beta(Case::Lower) => "\\beta",
            Greek::Beta(Case::Upper) => "B",
            Greek::Gamma(Case::Lower) => "\\gamma",
            Greek::Gamma(Case::Upper) => "\\Gamma",
            Greek::Delta(Case::Lower) => "\\delta",
            Greek::Delta(Case::Upper) => "\\Delta",
            Greek::Epsilon(Case::Lower) => "\\epsilon",
            Greek::Epsilon(Case::Upper) => "E",
            Greek::VarEpsilon => "\\varepsilon",
            Greek::Zeta(Case::Lower) => "\\zeta",
            Greek::Zeta(Case::Upper) => "Z",
            Greek::Eta(Case::Lower) => "\\eta",
            Greek::Eta(Case::Upper) => "H",
            Greek::Theta(Case::Lower) => "\\theta",
            Greek::Theta(Case::Upper) => "\\Theta",
            Greek::VarTheta => "\\vartheta",
            Greek::Iota(Case::Lower) => "\\iota",
            Greek::Iota(Case::Upper) => "I",
            Greek::Kappa(Case::Lower) => "\\kappa",
            Greek::Kappa(Case::Upper) => "K",
            Greek::Lambda(Case::Lower) => "\\lambda",
            Greek::Lambda(Case::Upper) => "\\Lambda",
            Greek::Mu(Case::Lower) => "\\mu",
            Greek::Mu(Case::Upper) => "M",
            Greek::Nu(Case::Lower) => "\\nu",
            Greek::Nu(Case::Upper) => "N",
            Greek::Xi(Case::Lower) => "\\xi",
            Greek::Xi(Case::Upper) => "\\Xi",
            Greek::O(Case::Lower) => "o",
            Greek::O(Case::Upper) => "O",
            Greek::Pi(Case::Lower) => "\\pi",
            Greek::Pi(Case::Upper) => "\\Pi",
            Greek::Rho(Case::Lower) => "\\rho",
            Greek::Rho(Case::Upper) => "P",
            Greek::VarRho => "\\varrho",
            Greek::Sigma(Case::Lower) => "\\sigma",
            Greek::Sigma(Case::Upper) => "\\Sigma",
            Greek::Tau(Case::Lower) => "\\tau",
            Greek::Tau(Case::Upper) => "T",
            Greek::Upsilon(Case::Lower) => "\\upsilon",
            Greek::Upsilon(Case::Upper) => "\\Upsilon",
            Greek::Phi(Case::Lower) => "\\phi",
            Greek::Phi(Case::Upper) => "\\Phi",
            Greek::VarPhi => "\\varphi",
            Greek::Chi(Case::Lower) => "\\chi",
            Greek::Chi(Case::Upper) => "X",
            Greek::Psi(Case::Lower) => "\\psi",
            Greek::Psi(Case::Upper) => "\\Psi",
            Greek::Omega(Case::Lower) => "\\omega",
            Greek::Omega(Case::Upper) => "\\Omega",
        };
        String::from_str(s)
    }
}

impl Greek {
    /// The symbol as an element of the document body.
    pub fn to_element(&self) -> (r: Element)
        ensures
            r.wf(),
            is_erased(r, Seq::<char>::empty(), Type::T_Bundle, Level::Document, greek_latex(*self), false),
            has_no_details(r.value),
    {
        let latex = self.to_latex_string();
        Element::new_any(Any {
            value: String::new(),
            latex,
            type_: Type::T_Bundle,
            level: Level::Document,
            header_level: None,
            text_type: None,
            list_type: None,
            items: None,
            elements: None,
            modified: false,
        })
    }
}

/// Arrow symbols.
#[derive(Clone, Copy, Debug, PartialEq, Eq, Structural)]
pub enum Arrows {
    LeftArrow(Case),
    RightArrow(Case),
    LeftRightArrow(Case),
    RightLeftHarpoons,
    UpArrow(Case),
    DownArrow(Case),
    UpdownArrow,
    Mapsto,
    LongMapsto,
    Nearrow,
    Searrow,
    Swarrow,
    Nwarrow,
    LeftHarpoonUp,
    LeftHarpoonDown,
    RightHarpoonUp,
    RightHarpoonDown,
}

/// The command of each symbol.
pub open spec fn arrow_latex(s: Arrows) -> Seq<char> {
    match s {
        Arrows::LeftArrow(Case::Lower) => "\\leftarrow"@,
        Arrows::LeftArrow(Case::Upper) => "\\Leftarrow"@,
        Arrows::RightArrow(Case::Lower) => "\\rightarrow"@,
        Arrows::RightArrow(Case::Upper) => "\\Rightarrow"@,
        Arrows::LeftRightArrow(Case::Lower) => "\\leftrightarrow"@,
        Arrows::LeftRightArrow(Case::Upper) => "\\Leftrightarrow"@,
        Arrows::RightLeftHarpoons => "\\rightleftharpoons"@,
        Arrows::UpArrow(Case::Lower) => "\\uparrow"@,
        Arrows::UpArrow(Case::Upper) => "\\Uparrow"@,
        Arrows::DownArrow(Case::Lower) => "\\downarrow"@,
        Arrows::DownArrow(Case::Upper) => "\\Downarrow"@,
        Arrows::UpdownArrow => "\\Updownarrow"@,
        Arrows::Mapsto => "\\mapsto"@,
        Arrows::LongMapsto => "\\longmapsto"@,
        Arrows::Nearrow => "\\nearrow"@,
        Arrows::Searrow => "\\searrow"@,
        Arrows::Swarrow => "\\swarrow"@,
        Arrows::Nwarrow => "\\nwarrow"@,
        Arrows::LeftHarpoonUp => "\\leftharpoonup"@,
        Arrows::LeftHarpoonDown => "\\leftharpoondown"@,
        Arrows::RightHarpoonUp => "\\rightharpoonup"@,
        Arrows::RightHarpoonDown => "\\rightharpoondown"@,
    }
}

impl Tex for Arrows {
    open spec fn spec_latex(&self) -> Seq<char> {
        arrow_latex(*self)
    }

    fn to_latex_string(&self) -> (r: String) {
        let s = match self {
            Arrows::LeftArrow(Case::Lower) => "\\leftarrow",
            Arrows::LeftArrow(Case::Upper) => "\\Leftarrow",
            Arrows::RightArrow(Case::Lower) => "\\rightarrow",
            Arrows::RightArrow(Case::Upper) => "\\Rightarrow",
            Arrows::LeftRightArrow(Case::Lower) => "\\leftrightarrow",
            Arrows::LeftRightArrow(Case::Upper) => "\\Leftrightarrow",
            Arrows::RightLeftHarpoons => "\\rightleftharpoons",
            Arrows::UpArrow(Case::Lower) => "\\uparrow",
            Arrows::UpArrow(Case::Upper) => "\\Uparrow",
            Arrows::DownArrow(Case::Lower) => "\\downarrow",
            Arrows::DownArrow(Case::Upper) => "\\Downarrow",
            Arrows::UpdownArrow => "\\Updownarrow",
            Arrows::Mapsto => "\\mapsto",
            Arrows::LongMapsto => "\\longmapsto",
            Arrows::Nearrow => "\\nearrow",
            Arrows::Searrow => "\\searrow",
            Arrows::Swarrow => "\\swarrow",
            Arrows::Nwarrow => "\\nwarrow",
            Arrows::LeftHarpoonUp => "\\leftharpoonup",
            Arrows::LeftHarpoonDown => "\\leftharpoondown",
            Arrows::RightHarpoonUp => "\\rightharpoonup",
            Arrows::RightHarpoonDown => "\\rightharpoondown",
        };
        String::from_str(s)
    }
}

impl Arrows {
    /// The symbol as an element of the document body.
    pub fn to_element(&self) -> (r: Element)
        ensures
            r.wf(),
            is_erased(r, Seq::<char>::empty(), Type::T_Bundle, Level::Document, arrow_latex(*self), false),
            has_no_details(r.value),
    {
        let latex = self.to_latex_string();
        Element::new_any(Any {
            value: String::new(),
            latex,
            type_: Type::T_Bundle,
            level: Level::Document,
            header_level: None,
            text_type: None,
            list_type: None,
            items: None,
            elements: None,
            modified: false,
        })
    }
}

/// Miscellaneous math symbols.
#[derive(Clone, Copy, Debug, PartialEq, Eq, Structural)]
pub enum Misc {
    Infty,
    ForAll,
    Re,
    Im,
    Nabla,
    Exists,
    NExists,
    Partial,
    EmptySet,
    VarNothing,
    Wp,
    Complement,
    Neg,
    CDots,
    Square,
    Surd,
    BlackSquare,
    Triangle,
}

/// The command of each symbol.
pub open spec fn misc_latex(s: Misc) -> Seq<char> {
    match s {
        Misc::Infty => "\\infty"@,
        Misc::ForAll => "\\forall"@,
        Misc::Re => "\\Re"@,
        Misc::Im => "\\Im"@,
        Misc::Nabla => "\\nabla"@,
        Misc::Exists => "\\exists"@,
        Misc::NExists => "\\nexists"@,
        Misc::Partial => "\\partial"@,
        Misc::EmptySet => "\\emptyset"@,
        Misc::VarNothing => "\\varnothing"@,
        Misc::Wp => "\\wp"@,
        Misc::Complement => "\\complement"@,
        Misc::Neg => "\\neg"@,
        Misc::CDots => "\\cdots"@,
        Misc::Square => "\\square"@,
        Misc::Surd => "\\surd"@,
        Misc::BlackSquare => "\\blacksquare"@,
        Misc::Triangle => "\\triangle"@,
    }
}

impl Tex for Misc {
    open spec fn spec_latex(&self) -> Seq<char> {
        misc_latex(*self)
    }

    fn to_latex_string(&self) -> (r: String) {
        let s = match self {
            Misc::Infty => "\\infty",
            Misc::ForAll => "\\forall",
            Misc::Re => "\\Re",
            Misc::Im => "\\Im",
            Misc::Nabla => "\\nabla",
            Misc::Exists => "\\exists",
            Misc::NExists => "\\nexists",
            Misc::Partial => "\\partial",
            Misc::EmptySet => "\\emptyset",
            Misc::VarNothing => "\\varnothing",
            Misc::Wp => "\\wp",
            Misc::Complement => "\\complement",
            Misc::Neg => "\\neg",
            Misc::CDots => "\\cdots",
            Misc::Square => "\\square",
            Misc::Surd => "\\surd",
            Misc::BlackSquare => "\\blacksquare",
            Misc::Triangle => "\\triangle",
        };
        String::from_str(s)
    }
}

impl Misc {
    /// The symbol as an element of the document body.
    pub fn to_element(&self) -> (r: Element)
        ensures
            r.wf(),
            is_erased(r, Seq::<char>::empty(), Type::T_Bundle, Level::Document, misc_latex(*self), false),
            has_no_details(r.value),
    {
        let latex = self.to_latex_string();
        Element::new_any(Any {
            value: String::new(),
            latex,
            type_: Type::T_Bundle,
            level: Level::Document,
            header_level: None,
            text_type: None,
            list_type: None,
            items: None,
            elements: None,
            modified: false,
        })
    }
}

/// Binary operation and relation symbols.
#[derive(Clone, Copy, Debug, PartialEq, Eq, Structural)]
pub enum Binary {
    Times,
    Div,
    CDot,
    Cap,
    Cup,
    Neq,
    Leq,
    Geq,
    In,
    Perp,
    Nothing,
    Subset,
    Simeq,
    Approx,
    Wegde,
    Vee,
    OPlus,
    OTimes,
    Box,
    BoxTimes,
    Equiv,
    Cong,
}

/// The command of each symbol.
pub open spec fn binary_latex(s: Binary) -> Seq<char> {
    match s {
        Binary::Times => "\\times"@,
        Binary::Div => "\\div"@,
        Binary::CDot => "\\cdot"@,
        Binary::Cap => "\\cap"@,
        Binary::Cup => "\\cup"@,
        Binary::Neq => "\\neq"@,
        Binary::Leq => "\\leq"@,
        Binary::Geq => "\\geq"@,
        Binary::In => "\\in"@,
        Binary::Perp => "\\perp"@,
        Binary::Nothing => "\\nothing"@,
        Binary::Subset => "\\subset"@,
        Binary::Simeq => "\\simeq"@,
        Binary::Approx => "\\approx"@,
        Binary::Wegde => "\\wedge"@,
        Binary::Vee => "\\vee"@,
        Binary::OPlus => "\\oplus"@,
        Binary::OTimes => "\\otimes"@,
        Binary::Box => "\\box"@,
        Binary::BoxTimes => "\\boxtimes"@,
        Binary::Equiv => "\\equiv"@,
        Binary::Cong => "\\cong"@,
    }
}

impl Tex for Binary {
    open spec fn spec_latex(&self) -> Seq<char> {
        binary_latex(*self)
    }

    fn to_latex_string(&self) -> (r: String) {
        let s = match self {
            Binary::Times => "\\times",
            Binary::Div => "\\div",
            Binary::CDot => "\\cdot",
            Binary::Cap => "\\cap",
            Binary::Cup => "\\cup",
            Binary::Neq => "\\neq",
            Binary::Leq => "\\leq",
            Binary::Geq => "\\geq",
            Binary::In => "\\in",
            Binary::Perp => "\\perp",
            Binary::Nothing => "\\nothing",
            Binary::Subset => "\\subset",
            Binary::Simeq => "\\simeq",
            Binary::Approx => "\\approx",
            Binary::Wegde => "\\wedge",
            Binary::Vee => "\\vee",
            Binary::OPlus => "\\oplus",
            Binary::OTimes => "\\otimes",
            Binary::Box => "\\box",
            Binary::BoxTimes => "\\boxtimes",
            Binary::Equiv => "\\equiv",
            Binary::Cong => "\\cong",
        };
        String::from_str(s)
    }
}

impl Binary {
    /// The symbol as an element of the document body.
    pub fn to_element(&self) -> (r: Element)
        ensures
            r.wf(),
            is_erased(r, Seq::<char>::empty(), Type::T_Bundle, Level::Document, binary_latex(*self), false),
            has_no_details(r.value),
    {
        let latex = self.to_latex_string();
        Element::new_any(Any {
            value: String::new(),
            latex,
            type_: Type::T_Bundle,
            level: Level::Document,
            header_level: None,
            text_type: None,
            list_type: None,
            items: None,
            elements: None,
            modified: false,
        })
    }
}

/// The `equation` environment, or `equation*` when `altered`.
pub fn equation_env(altered: bool) -> (r: Environment)
    ensures
        r.name@ == (if altered { "equation*"@ } else { "equation"@ }),
        r.elements@ == Seq::<Element>::empty(),
        r.latex@ == Seq::<char>::empty(),
        !r.modified,
{
    if altered {
        Environment::new("equation*")
    } else {
        Environment::new("equation")
    }
}

/// The `equation` (or `equation*`) environment holding one `split` environment with
/// `elements` as its children.
pub fn equation_split_env(altered: bool, elements: Vec<Element>) -> (r: Environment)
    ensures
        r.name@ == (if altered { "equation*"@ } else { "equation"@ }),
        !r.modified,
        r.elements@.len() == 1,
        r.elements@[0].type_ == Type::T_Environment,
        r.elements@[0].level == Level::Document,
        r.elements@[0].value.value@ == "split"@,
        r.elements@[0].value.elements matches Some(els) && els@ == elements@,
        r.elements@[0].latex@ == crate::ty::environment_block(
            crate::ty::begin_latex("split"@),
            elements@,
            "split"@,
        ),
{
    let mut eq = equation_env(altered);
    let mut split_env = Environment::new("split");
    split_env.set_elements(elements);
    eq.push(Element::from_environment(split_env));
    eq
}

} // verus!
