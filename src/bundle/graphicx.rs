use crate::element::{has_no_details, is_erased, Element, Tex};
use crate::extra_ops::{apply_options, option_suffix, ExtraOptions, Options};
use crate::level::Level;
use crate::ty::{braced, braced_string, package_latex, Any, Package, Type};
use vstd::prelude::*;
use vstd::string::StringExecFns;

verus! {

/// The declaration of the `graphicx` package.
pub fn graphicx_pkg() -> (r: Element)
    ensures
        r.wf(),
        is_erased(r, "graphicx"@, Type::T_Package, Level::Packages, package_latex("graphicx"@), false),
        has_no_details(r.value),
{
    let pkg = Package::new("graphicx");
    Element::from_package(pkg)
}

/// `\graphicspath{ {path} }`
pub open spec fn graphic_path_latex(path: Seq<char>) -> Seq<char> {
    "\\graphicspath{ {"@ + path + "} }"@
}

/// `\includegraphics{path}`
pub open spec fn graphic_include_latex(path: Seq<char>) -> Seq<char> {
    braced("\\includegraphics"@, path)
}

/// An erased bundle element.
fn bundle_element(value: String, latex: String, level: Level) -> (r: Element)
    ensures
        r.wf(),
        is_erased(r, value@, Type::T_Bundle, level, latex@, false),
        has_no_details(r.value),
{
    Element::new_any(Any {
        value,
        latex,
        type_: Type::T_Bundle,
        level,
        header_level: None,
        text_type: None,
        list_type: None,
        items: None,
        elements: None,
        modified: false,
    })
}

/// The directory that images are looked up in.
#[derive(Debug)]
pub struct GraphicPath {
    pub path: String,
}

impl GraphicPath {
    pub fn new(path: &str) -> (r: Self)
        ensures
            r.path@ == path@,
    {
        GraphicPath { path: String::from_str(path) }
    }

    /// The declaration as a preamble element.
    pub fn to_element(self) -> (r: Element)
        ensures
            r.wf(),
            is_erased(r, self.path@, Type::T_Bundle, Level::Meta, graphic_path_latex(self.path@), false),
            has_no_details(r.value),
    {
        let latex = self.to_latex_string();
        bundle_element(self.path, latex, Level::Meta)
    }
}

impl Tex for GraphicPath {
    open spec fn spec_latex(&self) -> Seq<char> {
        graphic_path_latex(self.path@)
    }

    fn to_latex_string(&self) -> (r: String) {
        let mut r = String::from_str("\\graphicspath{ {");
        r.append(self.path.as_str());
        r.append("} }");
        r
    }
}

/// An image to include.
#[derive(Debug)]
pub struct GraphicInclude {
    pub path: String,
}

impl GraphicInclude {
    pub fn new(path: &str) -> (r: Self)
        ensures
            r.path@ == path@,
    {
        GraphicInclude { path: String::from_str(path) }
    }

    /// The image as an element of the document body.
    pub fn to_element(self) -> (r: Element)
        ensures
            r.wf(),
            is_erased(r, self.path@, Type::T_Bundle, Level::Document, graphic_include_latex(self.path@), false),
            has_no_details(r.value),
    {
        let latex = self.to_latex_string();
        bundle_element(self.path, latex, Level::Document)
    }
}

impl Tex for GraphicInclude {
    open spec fn spec_latex(&self) -> Seq<char> {
        graphic_include_latex(self.path@)
    }

    fn to_latex_string(&self) -> (r: String) {
        braced_string("\\includegraphics", &self.path)
    }
}

/// `[scale = s]`
pub open spec fn scale_suffix(scale: Seq<char>) -> Seq<char> {
    "["@ + "scale = "@ + scale + "]"@
}

/// The `graphicx` package, the image directory, and for each scale the image of the
/// same position with `[scale = ..]` appended. Images without a scale are left out.
pub fn graphics_bundle(graphic_path: &str, image_paths: Vec<String>, scales: Vec<String>) -> (r: Vec<
    Element,
>)
    requires
        scales@.len() <= image_paths@.len(),
    ensures
        r@.len() == scales@.len() + 2,
        is_erased(r@[0], "graphicx"@, Type::T_Package, Level::Packages, package_latex("graphicx"@), false),
        is_erased(r@[1], graphic_path@, Type::T_Bundle, Level::Meta, graphic_path_latex(graphic_path@), false),
        forall|i: int|
            0 <= i < scales@.len() ==> {
                let e = #[trigger] r@[i + 2];
                &&& e.type_ == Type::T_Bundle
                &&& e.level == Level::Document
                &&& e.modified
                &&& e.value.value@ == image_paths@[i]@
                &&& e.value.latex@ == graphic_include_latex(image_paths@[i]@)
                &&& e.latex@ == graphic_include_latex(image_paths@[i]@) + scale_suffix(scales@[i]@)
            },
{
    let mut elements: Vec<Element> = Vec::new();
    elements.push(graphicx_pkg());
    let gp = GraphicPath::new(graphic_path);
    elements.push(gp.to_element());
    let mut i: usize = 0;
    while i < scales.len()
        invariant
            0 <= i <= scales@.len(),
            scales@.len() <= image_paths@.len(),
            elements@.len() == i + 2,
            is_erased(elements@[0], "graphicx"@, Type::T_Package, Level::Packages, package_latex("graphicx"@), false),
            is_erased(elements@[1], graphic_path@, Type::T_Bundle, Level::Meta, graphic_path_latex(graphic_path@), false),
            forall|j: int|
                0 <= j < i ==> {
                    let e = #[trigger] elements@[j + 2];
                    &&& e.type_ == Type::T_Bundle
                    &&& e.level == Level::Document
                    &&& e.modified
                    &&& e.value.value@ == image_paths@[j]@
                    &&& e.value.latex@ == graphic_include_latex(image_paths@[j]@)
                    &&& e.latex@ == graphic_include_latex(image_paths@[j]@) + scale_suffix(scales@[j]@)
                },
        decreases scales@.len() - i,
    {
        let gi = GraphicInclude::new(image_paths[i].as_str());
        let mut el = gi.to_element();
        let mut scale = String::from_str("scale = ");
        scale.append(scales[i].as_str());
        let ghost scale_text = scale@;
        let ghost base = el.value.latex@;
        let mut options: Vec<Options> = Vec::new();
        options.push(Options::Square(scale));
        proof {
            assert(options@.len() == 1);
            assert(options@.drop_last() =~= Seq::<Options>::empty());
            assert(apply_options(base, Seq::<Options>::empty()) == base);
            assert(apply_options(base, options@) == base + option_suffix(options@.last()));
        }
        el.modify_element(options);
        assert(el.latex@ =~= graphic_include_latex(image_paths@[i as int]@) + scale_suffix(
            scales@[i as int]@,
        ));
        elements.push(el);
        i = i + 1;
    }
    elements
}

} // verus!
