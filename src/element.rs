use crate::extra_ops::{apply_all, apply_options, ExtraOptions, Options};
use crate::level::Level;
use crate::text::{join, join_strings, lemma_views_push, nl, views};
use crate::ty::{
    begin_latex, chapter_latex, comment_latex, environment_block, header_latex, input_latex,
    item_latex, list_latex, metadata_latex, package_latex, paragraph_latex, part_latex,
    text_latex, Any, Chapter, Comment, Custom, Environment, Header, Input, List, Metadata,
    Package, Paragraph, Part, Text, TextType, TexError, Type,
};
use std::collections::VecDeque;
use vstd::prelude::*;
use vstd::std_specs::iter::IteratorSpec;
use vstd::string::StringExecFns;

verus! {

/// A value that renders to LaTeX text.
pub trait Tex {
    /// The rendered text.
    spec fn spec_latex(&self) -> Seq<char>;

    /// Renders the value.
    fn to_latex_string(&self) -> (r: String)
        ensures
            r@ == self.spec_latex(),
    ;
}

/// An element ready to be placed: its erased value, kind, level, cached text, and
/// whether the cached text was set by extra options after the conversion.
#[derive(Debug)]
pub struct Element {
    pub value: Any,
    pub type_: Type,
    pub level: Level,
    pub latex: String,
    pub modified: bool,
}

/// The text cached at conversion: the earlier modified text if there is one, else the
/// canonical rendering.
pub open spec fn cached_or(modified: bool, latex: Seq<char>, canonical: Seq<char>) -> Seq<char> {
    if modified {
        latex
    } else {
        canonical
    }
}

/// The canonical text of an erased value, derived from its fields by the rule of its
/// kind; `None` where the fields do not determine it (a bundle, or a missing field).
pub open spec fn canonical_latex(a: Any) -> Option<Seq<char>> {
    match a.type_ {
        Type::T_Input => Some(input_latex(a.value@)),
        Type::T_Package => Some(package_latex(a.value@)),
        Type::T_Part => Some(part_latex(a.value@)),
        Type::T_Chapter => Some(chapter_latex(a.value@)),
        Type::T_Paragraph => Some(paragraph_latex(a.value@)),
        Type::T_Header => match a.header_level {
            Some(n) => if n >= 1 {
                Some(header_latex(a.value@, n as nat))
            } else {
                None
            },
            None => None,
        },
        Type::T_Text => match a.text_type {
            Some(t) => Some(text_latex(a.value@, t)),
            None => None,
        },
        Type::T_Environment => match a.elements {
            Some(els) => Some(environment_block(begin_latex(a.value@), els@, a.value@)),
            None => None,
        },
        Type::T_List => match (a.list_type, a.items) {
            (Some(k), Some(items)) => Some(list_latex(k, items@)),
            _ => None,
        },
        Type::T_Item => Some(item_latex(a.value@)),
        Type::T_Custom => Some(a.value@),
        Type::T_Comment => Some(comment_latex(a.value@)),
        Type::T_Bundle => None,
    }
}

impl Element {
    /// The envelope agrees with its erased value on kind and level; unmodified text is
    /// the value's text; and the value's unmodified text is its canonical rendering.
    pub open spec fn wf(self) -> bool {
        &&& self.type_ == self.value.type_
        &&& self.level == self.value.level
        &&& !self.modified ==> self.latex@ == self.value.latex@
        &&& !self.value.modified ==> (canonical_latex(self.value) matches Some(t) ==> self.value.latex@ == t)
    }
}

/// `e` holds `value` as an erased element of kind `t` at level `l`, with text `latex`.
pub open spec fn is_erased(
    e: Element,
    value: Seq<char>,
    t: Type,
    l: Level,
    latex: Seq<char>,
    modified: bool,
) -> bool {
    &&& e.value.value@ == value
    &&& e.value.type_ == t
    &&& e.value.level == l
    &&& e.value.latex@ == latex
    &&& e.value.modified == modified
    &&& e.type_ == t
    &&& e.level == l
    &&& e.latex@ == latex
    &&& e.modified == modified
}

/// No field of `a` that only some kinds use is set.
pub open spec fn has_no_details(a: Any) -> bool {
    &&& a.header_level is None
    &&& a.text_type is None
    &&& a.list_type is None
    &&& a.items is None
    &&& a.elements is None
}

impl Tex for Any {
    open spec fn spec_latex(&self) -> Seq<char> {
        self.latex@
    }

    fn to_latex_string(&self) -> (r: String) {
        self.latex.clone()
    }
}

/// `a` and `b` agree on every field but the item and child vectors.
pub open spec fn same_scalars(a: Any, b: Any) -> bool {
    &&& a.value == b.value
    &&& a.latex == b.latex
    &&& a.type_ == b.type_
    &&& a.level == b.level
    &&& a.header_level == b.header_level
    &&& a.text_type == b.text_type
    &&& a.list_type == b.list_type
    &&& a.items is Some == b.items is Some
    &&& a.elements is Some == b.elements is Some
    &&& a.modified == b.modified
}

/// A deep copy of an erased value.
fn copy_any(a: &Any) -> (r: Any)
    ensures
        same_scalars(r, *a),
        a.items matches Some(v) ==> r.items matches Some(w) && w@ == v@,
    decreases a,
{
    let items = match &a.items {
        None => None,
        Some(v) => Some(v.clone()),
    };
    proof {
        if a.items is Some {
            assert(items.unwrap()@ =~= a.items.unwrap()@);
        }
    }
    let elements = match &a.elements {
        None => None,
        Some(v) => Some(copy_elements(v)),
    };
    Any {
        value: a.value.clone(),
        latex: a.latex.clone(),
        type_: a.type_,
        level: a.level,
        header_level: a.header_level,
        text_type: a.text_type,
        list_type: a.list_type,
        items,
        elements,
        modified: a.modified,
    }
}

/// A deep copy of each element, in order.
fn copy_elements(v: &Vec<Element>) -> (r: Vec<Element>)
    ensures
        r@.len() == v@.len(),
        forall|i: int|
            0 <= i < v@.len() ==> (#[trigger] r@[i]).latex == v@[i].latex && r@[i].level
                == v@[i].level && r@[i].type_ == v@[i].type_ && r@[i].modified == v@[i].modified,
    decreases v,
{
    let mut out: Vec<Element> = Vec::new();
    let mut i: usize = 0;
    while i < v.len()
        invariant
            0 <= i <= v.len(),
            out@.len() == i,
            forall|j: int|
                0 <= j < i ==> (#[trigger] out@[j]).latex == v@[j].latex && out@[j].level
                    == v@[j].level && out@[j].type_ == v@[j].type_ && out@[j].modified
                    == v@[j].modified,
        decreases v.len() - i,
    {
        proof {
            assert(decreases_to!(v => v[i as int]));
        }
        out.push(v[i].copy());
        i = i + 1;
    }
    out
}

/// An erased value with none of the kind-specific fields set.
fn plain_any(value: String, type_: Type, level: Level, latex: String, modified: bool) -> (r: Any)
    ensures
        r.value == value,
        r.type_ == type_,
        r.level == level,
        r.latex == latex,
        r.modified == modified,
        has_no_details(r),
{
    Any {
        value,
        latex,
        type_,
        level,
        header_level: None,
        text_type: None,
        list_type: None,
        items: None,
        elements: None,
        modified,
    }
}

impl Element {
    /// A deep copy.
    pub fn copy(&self) -> (r: Self)
        ensures
            r.type_ == self.type_,
            r.level == self.level,
            r.latex == self.latex,
            r.modified == self.modified,
            same_scalars(r.value, self.value),
        decreases self,
    {
        Element {
            value: copy_any(&self.value),
            type_: self.type_,
            level: self.level,
            latex: self.latex.clone(),
            modified: self.modified,
        }
    }

    /// An unmodified element with the given parts.
    pub fn new(value: Any, type_: Type, level: Level, latex: String) -> (r: Self)
        ensures
            r.value == value,
            r.type_ == type_,
            r.level == level,
            r.latex == latex,
            !r.modified,
    {
        Element { value, type_, level, latex, modified: false }
    }

    /// The envelope of an erased value: kind, level, text and flag are taken from it.
    pub fn new_any(value: Any) -> (r: Self)
        ensures
            r.value == value,
            r.type_ == value.type_,
            r.level == value.level,
            r.latex@ == value.latex@,
            r.modified == value.modified,
    {
        let type_ = value.type_;
        let level = value.level;
        let latex = value.latex.clone();
        let modified = value.modified;
        Element { value, type_, level, latex, modified }
    }

    /// `\part{}` goes to the document body.
    pub fn from_part(value: Part) -> (r: Self)
        ensures
            r.wf(),
            is_erased(r, value.name@, Type::T_Part, Level::Document,
                cached_or(value.modified, value.latex@, value.spec_latex()), value.modified),
            has_no_details(r.value),
    {
        let latex = if value.modified { value.latex } else { value.to_latex_string() };
        Element::new_any(plain_any(value.name, Type::T_Part, Level::Document, latex, value.modified))
    }

    /// `\chapter{}` goes to the document body.
    pub fn from_chapter(value: Chapter) -> (r: Self)
        ensures
            r.wf(),
            is_erased(r, value.name@, Type::T_Chapter, Level::Document,
                cached_or(value.modified, value.latex@, value.spec_latex()), value.modified),
            has_no_details(r.value),
    {
        let latex = if value.modified { value.latex } else { value.to_latex_string() };
        Element::new_any(plain_any(value.name, Type::T_Chapter, Level::Document, latex, value.modified))
    }

    /// `\paragraph{}` goes to the document body.
    pub fn from_paragraph(value: Paragraph) -> (r: Self)
        ensures
            r.wf(),
            is_erased(r, value.content@, Type::T_Paragraph, Level::Document,
                cached_or(value.modified, value.latex@, value.spec_latex()), value.modified),
            has_no_details(r.value),
    {
        let latex = if value.modified { value.latex } else { value.to_latex_string() };
        Element::new_any(plain_any(value.content, Type::T_Paragraph, Level::Document, latex, value.modified))
    }

    /// `\usepackage{}` goes to the packages.
    pub fn from_package(value: Package) -> (r: Self)
        ensures
            r.wf(),
            is_erased(r, value.pkg@, Type::T_Package, Level::Packages,
                cached_or(value.modified, value.latex@, value.spec_latex()), value.modified),
            has_no_details(r.value),
    {
        let latex = if value.modified { value.latex } else { value.to_latex_string() };
        Element::new_any(plain_any(value.pkg, Type::T_Package, Level::Packages, latex, value.modified))
    }

    /// `\input{}` goes to the level it was given.
    pub fn from_input(value: Input) -> (r: Self)
        ensures
            r.wf(),
            is_erased(r, value.file_name@, Type::T_Input, value.level,
                cached_or(value.modified, value.latex@, value.spec_latex()), value.modified),
            has_no_details(r.value),
    {
        let latex = if value.modified { value.latex } else { value.to_latex_string() };
        Element::new_any(plain_any(value.file_name, Type::T_Input, value.level, latex, value.modified))
    }

    /// Raw code goes to the level it was given.
    pub fn from_custom(value: Custom) -> (r: Self)
        ensures
            r.wf(),
            is_erased(r, value.value@, Type::T_Custom, value.level,
                cached_or(value.modified, value.latex@, value.spec_latex()), value.modified),
            has_no_details(r.value),
    {
        let latex = if value.modified { value.latex } else { value.to_latex_string() };
        Element::new_any(plain_any(value.value, Type::T_Custom, value.level, latex, value.modified))
    }

    /// A comment goes to the level it was given.
    pub fn from_comment(value: Comment) -> (r: Self)
        ensures
            r.wf(),
            is_erased(r, value.value@, Type::T_Comment, value.level, value.spec_latex(), false),
            has_no_details(r.value),
    {
        let latex = value.to_latex_string();
        Element::new_any(plain_any(value.value, Type::T_Comment, value.level, latex, false))
    }

    /// Inline text goes to the document body and keeps its style.
    pub fn from_text(value: Text) -> (r: Self)
        ensures
            r.wf(),
            is_erased(r, value.content@, Type::T_Text, Level::Document,
                cached_or(value.modified, value.latex@, value.spec_latex()), value.modified),
            r.value.text_type == Some(value.type_),
            r.value.header_level is None,
            r.value.list_type is None,
            r.value.items is None,
            r.value.elements is None,
    {
        let latex = if value.modified { value.latex } else { value.to_latex_string() };
        let mut any = plain_any(value.content, Type::T_Text, Level::Document, latex, value.modified);
        any.text_type = Some(value.type_);
        Element::new_any(any)
    }

    /// A header goes to the document body and keeps its depth; a depth of 0 is refused.
    pub fn from_header(value: Header) -> (r: Result<Self, TexError>)
        ensures
            value.header_level == 0 <==> r is Err,
            r matches Err(e) ==> e == TexError::InvalidHeaderLevel,
            r matches Ok(el) ==> el.wf(),
            r matches Ok(el) ==> is_erased(el, value.name@, Type::T_Header, Level::Document,
                cached_or(value.modified, value.latex@,
                    crate::ty::header_latex(value.name@, value.header_level as nat)),
                value.modified),
            r matches Ok(el) ==> el.value.header_level == Some(value.header_level),
            r matches Ok(el) ==> el.value.text_type is None && el.value.list_type is None
                && el.value.items is None && el.value.elements is None,
    {
        let canonical = match value.to_latex_string() {
            Ok(s) => s,
            Err(e) => return Err(e),
        };
        let latex = if value.modified { value.latex } else { canonical };
        let mut any = plain_any(value.name, Type::T_Header, Level::Document, latex, value.modified);
        any.header_level = Some(value.header_level);
        Ok(Element::new_any(any))
    }

    /// A list goes to the document body and keeps its kind and items.
    pub fn from_list(value: List) -> (r: Self)
        ensures
            r.wf(),
            is_erased(r, Seq::<char>::empty(), Type::T_List, Level::Document,
                cached_or(value.modified, value.latex@, value.spec_latex()), value.modified),
            r.value.list_type == Some(value.type_),
            r.value.items matches Some(items) && items@ == value.items@,
            r.value.header_level is None,
            r.value.text_type is None,
            r.value.elements is None,
    {
        let latex = if value.modified { value.latex } else { value.to_latex_string() };
        let mut any = plain_any(String::new(), Type::T_List, Level::Document, latex, value.modified);
        any.list_type = Some(value.type_);
        any.items = Some(value.items);
        Element::new_any(any)
    }

    /// An environment goes to the document body and keeps its children.
    pub fn from_environment(value: Environment) -> (r: Self)
        ensures
            r.wf(),
            is_erased(r, value.name@, Type::T_Environment, Level::Document,
                cached_or(value.modified, value.latex@, value.spec_latex()), value.modified),
            r.value.elements matches Some(els) && els@ == value.elements@,
            r.value.header_level is None,
            r.value.text_type is None,
            r.value.list_type is None,
            r.value.items is None,
    {
        let latex = if value.modified { value.latex } else { value.to_latex_string() };
        let mut any = plain_any(value.name, Type::T_Environment, Level::Document, latex, value.modified);
        any.elements = Some(value.elements);
        Element::new_any(any)
    }
}

impl ExtraOptions for Element {
    /// The options are appended to the text the element was converted with.
    open spec fn optioned_latex(&self, options: Seq<Options>) -> Seq<char> {
        apply_options(self.value.latex@, options)
    }

    open spec fn cached_latex(&self) -> Seq<char> {
        self.latex@
    }

    open spec fn is_modified(&self) -> bool {
        self.modified
    }

    open spec fn same_content(&self, other: &Self) -> bool {
        self.value == other.value && self.type_ == other.type_ && self.level == other.level
    }

    proof fn lemma_optioned_depends_on_content(&self, other: &Self, options: Seq<Options>) {
    }

    fn modify_element(&mut self, options: Vec<Options>) {
        self.latex = apply_all(self.value.latex.as_str(), &options);
        self.modified = true;
    }
}

/// The texts of the elements of `s` placed at level `l`, in order.
pub open spec fn level_lines(s: Seq<Element>, l: Level) -> Seq<Seq<char>>
    decreases s.len(),
{
    if s.len() == 0 {
        Seq::empty()
    } else {
        let rest = level_lines(s.drop_last(), l);
        if s.last().level == l {
            rest.push(s.last().latex@)
        } else {
            rest
        }
    }
}

/// `\begin{document}`
pub open spec fn begin_document() -> Seq<char> {
    "\\begin{document}"@
}

/// `\end{document}`
pub open spec fn end_document() -> Seq<char> {
    "\\end{document}"@
}

/// `\maketitle`
pub open spec fn make_title() -> Seq<char> {
    "\\maketitle"@
}

/// The opening lines of the document body: the opening marker, then the title if asked for.
pub open spec fn document_head(m: Metadata) -> Seq<Seq<char>> {
    if m.maketitle {
        seq![begin_document(), make_title()]
    } else {
        seq![begin_document()]
    }
}

/// The lines of the document body.
pub open spec fn document_lines(m: Metadata, s: Seq<Element>) -> Seq<Seq<char>> {
    document_head(m) + level_lines(s, Level::Document) + seq![end_document()]
}

/// The preamble: the metadata block, then the `Meta` elements.
pub open spec fn meta_segment(m: Metadata, s: Seq<Element>) -> Seq<char> {
    join(seq![metadata_latex(m)] + level_lines(s, Level::Meta), nl())
}

/// The package declarations: the `Packages` elements.
pub open spec fn packages_segment(s: Seq<Element>) -> Seq<char> {
    join(level_lines(s, Level::Packages), nl())
}

/// The document body.
pub open spec fn document_segment(m: Metadata, s: Seq<Element>) -> Seq<char> {
    join(document_lines(m, s), nl())
}

/// The whole document: preamble, packages and body, separated by newlines.
pub open spec fn render(m: Metadata, s: Seq<Element>) -> Seq<char> {
    join(seq![meta_segment(m, s), packages_segment(s), document_segment(m, s)], nl())
}

/// The main text of a split rendering: the metadata block, the line that inputs the
/// package file, the `Meta` elements, then the body.
pub open spec fn split_main(m: Metadata, s: Seq<Element>, input_line: Seq<char>) -> Seq<char> {
    join(
        seq![
            join(seq![metadata_latex(m), input_line] + level_lines(s, Level::Meta), nl()),
            document_segment(m, s),
        ],
        nl(),
    )
}

/// The lines of `s` at each level, after one more element.
pub proof fn lemma_level_lines_push(s: Seq<Element>, e: Element, l: Level)
    ensures
        level_lines(s.push(e), l) == if e.level == l {
            level_lines(s, l).push(e.latex@)
        } else {
            level_lines(s, l)
        },
{
    assert(s.push(e).drop_last() =~= s);
}

/// Pushes the text of `i` to the lines of its level.
fn iter_push(
    i: &Element,
    document: &mut Vec<String>,
    packages: &mut Vec<String>,
    meta: &mut Vec<String>,
)
    ensures
        views(final(document)@) == if i.level == Level::Document {
            views(old(document)@).push(i.latex@)
        } else {
            views(old(document)@)
        },
        views(final(packages)@) == if i.level == Level::Packages {
            views(old(packages)@).push(i.latex@)
        } else {
            views(old(packages)@)
        },
        views(final(meta)@) == if i.level == Level::Meta {
            views(old(meta)@).push(i.latex@)
        } else {
            views(old(meta)@)
        },
{
    let latex = i.latex.clone();
    match i.level {
        Level::Document => {
            proof {
                lemma_views_push(document@, latex);
            }
            document.push(latex)
        },
        Level::Packages => {
            proof {
                lemma_views_push(packages@, latex);
            }
            packages.push(latex)
        },
        Level::Meta => {
            proof {
                lemma_views_push(meta@, latex);
            }
            meta.push(latex)
        },
    }
}

/// An ordered sequence of elements and the metadata of the document.
#[derive(Debug)]
pub struct ElementList {
    metadata: Metadata,
    list: VecDeque<Element>,
}

impl ElementList {
    /// The metadata.
    pub closed spec fn spec_metadata(&self) -> Metadata {
        self.metadata
    }

    /// The elements, front first.
    pub closed spec fn spec_list(&self) -> Seq<Element> {
        self.list@
    }

    /// An empty list with a copy of `metadata`.
    pub fn new(metadata: &Metadata) -> (r: Self)
        ensures
            r.spec_metadata() == *metadata,
            r.spec_list() == Seq::<Element>::empty(),
    {
        ElementList { metadata: metadata.clone(), list: VecDeque::new() }
    }

    /// Replaces the metadata.
    pub fn change_metadata(&mut self, metadata: Metadata)
        ensures
            final(self).spec_metadata() == metadata,
            final(self).spec_list() == old(self).spec_list(),
    {
        self.metadata = metadata
    }

    /// Appends an element at the back.
    pub fn push(&mut self, element: Element)
        ensures
            final(self).spec_list() == old(self).spec_list().push(element),
            final(self).spec_metadata() == old(self).spec_metadata(),
    {
        self.list.push_back(element)
    }

    /// Removes the element at the back, if any.
    pub fn pop(&mut self) -> (r: Option<Element>)
        ensures
            old(self).spec_list().len() == 0 ==> r is None && final(self).spec_list() == old(
                self,
            ).spec_list(),
            old(self).spec_list().len() > 0 ==> r == Some(old(self).spec_list().last())
                && final(self).spec_list() == old(self).spec_list().drop_last(),
            final(self).spec_metadata() == old(self).spec_metadata(),
    {
        self.list.pop_back()
    }

    /// Inserts an element at the front.
    pub fn fpush(&mut self, element: Element)
        ensures
            final(self).spec_list() == seq![element] + old(self).spec_list(),
            final(self).spec_metadata() == old(self).spec_metadata(),
    {
        self.list.push_front(element)
    }

    /// Removes the element at the front, if any.
    pub fn fpop(&mut self) -> (r: Option<Element>)
        ensures
            old(self).spec_list().len() == 0 ==> r is None && final(self).spec_list() == old(
                self,
            ).spec_list(),
            old(self).spec_list().len() > 0 ==> r == Some(old(self).spec_list()[0])
                && final(self).spec_list() == old(self).spec_list().drop_first(),
            final(self).spec_metadata() == old(self).spec_metadata(),
    {
        self.list.pop_front()
    }

    /// Appends the text of every element to the lines of its level, in list order.
    fn collect_levels(
        &self,
        meta: &mut Vec<String>,
        packages: &mut Vec<String>,
        document: &mut Vec<String>,
    )
        ensures
            views(final(meta)@) == views(old(meta)@) + level_lines(self.list@, Level::Meta),
            views(final(packages)@) == views(old(packages)@) + level_lines(
                self.list@,
                Level::Packages,
            ),
            views(final(document)@) == views(old(document)@) + level_lines(
                self.list@,
                Level::Document,
            ),
    {
        let mut i: usize = 0;
        while i < self.list.len()
            invariant
                0 <= i <= self.list@.len(),
                views(meta@) == views(old(meta)@) + level_lines(
                    self.list@.take(i as int),
                    Level::Meta,
                ),
                views(packages@) == views(old(packages)@) + level_lines(
                    self.list@.take(i as int),
                    Level::Packages,
                ),
                views(document@) == views(old(document)@) + level_lines(
                    self.list@.take(i as int),
                    Level::Document,
                ),
            decreases self.list@.len() - i,
        {
            let e = &self.list[i];
            iter_push(e, document, packages, meta);
            proof {
                let t = self.list@.take(i as int);
                assert(self.list@.take(i + 1) =~= t.push(*e));
                lemma_level_lines_push(t, *e, Level::Meta);
                lemma_level_lines_push(t, *e, Level::Packages);
                lemma_level_lines_push(t, *e, Level::Document);
                assert(views(meta@) =~= views(old(meta)@) + level_lines(
                    self.list@.take(i + 1),
                    Level::Meta,
                ));
                assert(views(packages@) =~= views(old(packages)@) + level_lines(
                    self.list@.take(i + 1),
                    Level::Packages,
                ));
                assert(views(document@) =~= views(old(document)@) + level_lines(
                    self.list@.take(i + 1),
                    Level::Document,
                ));
            }
            i = i + 1;
        }
        proof {
            assert(self.list@.take(self.list@.len() as int) =~= self.list@);
        }
    }

    /// The opening lines of the document body.
    fn document_start(&self) -> (r: Vec<String>)
        ensures
            views(r@) == document_head(self.metadata),
    {
        let mut document: Vec<String> = Vec::new();
        document.push(String::from_str("\\begin{document}"));
        if self.metadata.maketitle {
            document.push(String::from_str("\\maketitle"));
        }
        assert(views(document@) =~= document_head(self.metadata));
        document
    }

    /// Renders the whole document: the preamble (metadata block and `Meta` elements),
    /// the packages, and the body between `\begin{document}` and `\end{document}`, with
    /// `\maketitle` first when the metadata asks for a title. Within each part the
    /// elements keep their order.
    pub fn to_latex_string(&self) -> (r: String)
        ensures
            r@ == render(self.spec_metadata(), self.spec_list()),
    {
        let mut meta: Vec<String> = Vec::new();
        meta.push(self.metadata.to_latex_string());
        let mut packages: Vec<String> = Vec::new();
        let mut document = self.document_start();
        self.collect_levels(&mut meta, &mut packages, &mut document);
        let end = String::from_str("\\end{document}");
        proof {
            lemma_views_push(document@, end);
        }
        document.push(end);
        let mut parts: Vec<String> = Vec::new();
        parts.push(join_strings(&meta, "\n"));
        parts.push(join_strings(&packages, "\n"));
        parts.push(join_strings(&document, "\n"));
        proof {
            assert(views(meta@) =~= seq![metadata_latex(self.metadata)] + level_lines(self.list@, Level::Meta));
            assert(views(packages@) =~= level_lines(self.list@, Level::Packages));
            assert(views(document@) =~= document_lines(self.metadata, self.list@));
            assert(views(parts@) =~= seq![
                meta_segment(self.metadata, self.list@),
                packages_segment(self.list@),
                document_segment(self.metadata, self.list@),
            ]);
        }
        join_strings(&parts, "\n")
    }

    /// Renders the document with the packages split off: the first string is the
    /// document with the line of `input` (which refers to the package file) right after
    /// the metadata block and no package lines; the second holds the package lines.
    pub fn to_latex_split_string(&self, input: Input) -> (r: (String, String))
        ensures
            r.0@ == split_main(self.spec_metadata(), self.spec_list(), input.spec_latex()),
            r.1@ == packages_segment(self.spec_list()),
    {
        let mut meta: Vec<String> = Vec::new();
        meta.push(self.metadata.to_latex_string());
        meta.push(input.to_latex_string());
        let mut packages: Vec<String> = Vec::new();
        let mut document = self.document_start();
        self.collect_levels(&mut meta, &mut packages, &mut document);
        let end = String::from_str("\\end{document}");
        proof {
            lemma_views_push(document@, end);
        }
        document.push(end);
        let mut parts: Vec<String> = Vec::new();
        parts.push(join_strings(&meta, "\n"));
        parts.push(join_strings(&document, "\n"));
        proof {
            assert(views(meta@) =~= seq![metadata_latex(self.metadata), input.spec_latex()]
                + level_lines(self.list@, Level::Meta));
            assert(views(packages@) =~= level_lines(self.list@, Level::Packages));
            assert(views(document@) =~= document_lines(self.metadata, self.list@));
            assert(views(parts@) =~= seq![
                join(seq![metadata_latex(self.metadata), input.spec_latex()] + level_lines(self.list@, Level::Meta), nl()),
                document_segment(self.metadata, self.list@),
            ]);
        }
        (join_strings(&parts, "\n"), join_strings(&packages, "\n"))
    }

    /// Appends a package declaration for each name, in order.
    pub fn push_packages(&mut self, packages: Vec<String>)
        ensures
            final(self).spec_metadata() == old(self).spec_metadata(),
            final(self).spec_list().len() == old(self).spec_list().len() + packages@.len(),
            final(self).spec_list().take(old(self).spec_list().len() as int) == old(
                self,
            ).spec_list(),
            forall|i: int|
                0 <= i < packages@.len() ==> is_erased(
                    #[trigger] final(self).spec_list()[old(self).spec_list().len() + i],
                    packages@[i]@,
                    Type::T_Package,
                    Level::Packages,
                    crate::ty::package_latex(packages@[i]@),
                    false,
                ),
    {
        let mut i: usize = 0;
        while i < packages.len()
            invariant
                0 <= i <= packages@.len(),
                self.metadata == old(self).metadata,
                self.list@.len() == old(self).list@.len() + i,
                self.list@.take(old(self).list@.len() as int) == old(self).list@,
                forall|j: int|
                    0 <= j < i ==> is_erased(
                        #[trigger] self.list@[old(self).list@.len() + j],
                        packages@[j]@,
                        Type::T_Package,
                        Level::Packages,
                        crate::ty::package_latex(packages@[j]@),
                        false,
                    ),
            decreases packages@.len() - i,
        {
            let package = Package::new(packages[i].as_str());
            let ghost before = self.list@;
            self.push(Element::from_package(package));
            proof {
                assert(self.list@.take(old(self).list@.len() as int) =~= before.take(
                    old(self).list@.len() as int,
                ));
            }
            i = i + 1;
        }
    }

    /// Appends `\newpage` as text in the document body.
    pub fn add_newpage(&mut self)
        ensures
            final(self).spec_metadata() == old(self).spec_metadata(),
            final(self).spec_list().drop_last() == old(self).spec_list(),
            final(self).spec_list().len() == old(self).spec_list().len() + 1,
            is_erased(
                final(self).spec_list().last(),
                "\\newpage"@,
                Type::T_Text,
                Level::Document,
                "\\newpage"@,
                false,
            ),
            final(self).spec_list().last().value.text_type == Some(TextType::Normal),
    {
        let text = Text::new("\\newpage", TextType::Normal);
        self.push(Element::from_text(text));
        assert(self.list@.drop_last() =~= old(self).list@);
    }

    /// A copy of the elements, front first.
    pub fn list_to_array(&self) -> (r: Vec<Element>)
        ensures
            r@.len() == self.spec_list().len(),
            forall|i: int|
                0 <= i < r@.len() ==> (#[trigger] r@[i]).latex == self.spec_list()[i].latex
                    && r@[i].level == self.spec_list()[i].level && r@[i].type_
                    == self.spec_list()[i].type_ && r@[i].modified == self.spec_list()[i].modified,
    {
        let mut out: Vec<Element> = Vec::new();
        let mut i: usize = 0;
        while i < self.list.len()
            invariant
                0 <= i <= self.list@.len(),
                out@.len() == i,
                forall|j: int|
                    0 <= j < i ==> (#[trigger] out@[j]).latex == self.list@[j].latex
                        && out@[j].level == self.list@[j].level && out@[j].type_
                        == self.list@[j].type_ && out@[j].modified == self.list@[j].modified,
            decreases self.list@.len() - i,
        {
            out.push(self.list[i].copy());
            i = i + 1;
        }
        out
    }

    /// A forward iterator over the elements.
    pub fn iter(&self) -> (r: std::collections::vec_deque::Iter<'_, Element>)
        ensures
            r.remaining() == self.spec_list().as_ref(),
    {
        self.list.iter()
    }

    /// A copy of the metadata.
    pub fn metadata(&self) -> (r: Metadata)
        ensures
            r == self.spec_metadata(),
    {
        self.metadata.clone()
    }

    /// The elements, front first.
    pub fn list(&self) -> (r: &VecDeque<Element>)
        ensures
            r@ == self.spec_list(),
    {
        &self.list
    }

    /// Appends the elements of `element_vec` at the back, in order.
    pub fn push_array(&mut self, element_vec: Vec<Element>)
        ensures
            final(self).spec_list() == old(self).spec_list() + element_vec@,
            final(self).spec_metadata() == old(self).spec_metadata(),
    {
        let mut rest = element_vec;
        while rest.len() > 0
            invariant
                self.list@ + rest@ == old(self).list@ + element_vec@,
                self.metadata == old(self).metadata,
            decreases rest.len(),
        {
            let ghost before = rest@;
            let e = rest.remove(0);
            proof {
                assert(before =~= seq![e] + rest@);
                assert(self.list@.push(e) + rest@ =~= self.list@ + before);
            }
            self.list.push_back(e);
        }
        assert(self.list@ + rest@ =~= self.list@);
    }
}

impl Default for ElementList {
    /// An empty list with the default metadata.
    fn default() -> (r: Self)
        ensures
            r.spec_metadata().author@ == "author"@,
            r.spec_metadata().date@ == "date"@,
            r.spec_metadata().title@ == "title"@,
            r.spec_metadata().fontsize == 11,
            r.spec_metadata().papersize@ == "letterpaper"@,
            r.spec_metadata().doc_class@ == "article"@,
            r.spec_metadata().maketitle,
            r.spec_list() == Seq::<Element>::empty(),
    {
        ElementList { metadata: Metadata::default(), list: VecDeque::new() }
    }
}

} // verus!
