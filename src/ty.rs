use crate::element::{Element, Tex};
use crate::extra_ops::{apply_all, apply_options, ExtraOptions, Options};
use crate::level::Level;
use crate::text::{decimal, join, join_strings, lemma_views_push, nl, repeat, u8_to_decimal, views};
use vstd::prelude::*;
use vstd::string::StringExecFns;

verus! {

/// The kind of a LaTeX element.
#[allow(non_camel_case_types)]
#[derive(Clone, Copy, Debug, PartialEq, Eq, Structural)]
pub enum Type {
    T_Input,
    T_Package,
    T_Part,
    T_Chapter,
    T_Header,
    T_Paragraph,
    T_Text,
    T_Environment,
    T_List,
    T_Item,
    T_Custom,
    T_Comment,
    T_Bundle,
}

/// The two kinds of LaTeX lists.
#[derive(Clone, Copy, Debug, PartialEq, Eq, Structural)]
pub enum ListType {
    Itemized,
    Enumerated,
}

/// The styles of inline text.
#[derive(Clone, Copy, Debug, PartialEq, Eq, Structural)]
pub enum TextType {
    Bold,
    Italics,
    Normal,
    Math,
    Par,
}

/// Invalid structural input to a formatting rule.
#[derive(Clone, Copy, Debug, PartialEq, Eq, Structural)]
pub enum TexError {
    /// A header of depth 0: depths start at 1 (`\section`).
    InvalidHeaderLevel,
}

/// The erased form of an element: its value (name, content, path or raw text), its
/// rendered text, its kind and level, the fields that only some kinds use, and whether
/// the text was set by extra options (then the text is authoritative and the other
/// fields are kept for inspection only).
#[derive(Debug)]
pub struct Any {
    pub value: String,
    pub latex: String,
    pub type_: Type,
    pub level: Level,
    pub header_level: Option<u8>,
    pub text_type: Option<TextType>,
    pub list_type: Option<ListType>,
    pub items: Option<Vec<Item>>,
    pub elements: Option<Vec<Element>>,
    pub modified: bool,
}

/// `cmd{arg}`
pub open spec fn braced(cmd: Seq<char>, arg: Seq<char>) -> Seq<char> {
    cmd + "{"@ + arg + "}"@
}

/// `\begin{name}`
pub open spec fn begin_latex(name: Seq<char>) -> Seq<char> {
    braced("\\begin"@, name)
}

/// `\end{name}`
pub open spec fn end_latex(name: Seq<char>) -> Seq<char> {
    braced("\\end"@, name)
}

/// The document metadata: it renders the preamble.
#[derive(Debug)]
pub struct Metadata {
    pub author: String,
    pub date: String,
    pub title: String,
    pub fontsize: u8,
    pub papersize: String,
    pub doc_class: String,
    pub maketitle: bool,
}

/// `\documentclass[<size>pt, <paper>]{<class>}`, title, author and date, one per line.
pub open spec fn metadata_latex(m: Metadata) -> Seq<char> {
    join(
        seq![
            "\\documentclass["@ + decimal(m.fontsize as nat) + "pt, "@ + m.papersize@ + "]{"@
                + m.doc_class@ + "}"@,
            braced("\\title"@, m.title@),
            braced("\\author"@, m.author@),
            braced("\\date"@, m.date@),
        ],
        nl(),
    )
}

impl Clone for Metadata {
    fn clone(&self) -> (r: Self)
        ensures
            r == *self,
    {
        Metadata {
            author: self.author.clone(),
            date: self.date.clone(),
            title: self.title.clone(),
            fontsize: self.fontsize,
            papersize: self.papersize.clone(),
            doc_class: self.doc_class.clone(),
            maketitle: self.maketitle,
        }
    }
}

impl Metadata {
    pub fn new(
        author: &str,
        date: &str,
        title: &str,
        fontsize: u8,
        papersize: &str,
        doc_class: &str,
        maketitle: bool,
    ) -> (r: Self)
        ensures
            r.author@ == author@,
            r.date@ == date@,
            r.title@ == title@,
            r.fontsize == fontsize,
            r.papersize@ == papersize@,
            r.doc_class@ == doc_class@,
            r.maketitle == maketitle,
    {
        Metadata {
            author: String::from_str(author),
            date: String::from_str(date),
            title: String::from_str(title),
            fontsize,
            papersize: String::from_str(papersize),
            doc_class: String::from_str(doc_class),
            maketitle,
        }
    }
}

impl Default for Metadata {
    /// An 11pt letter-paper article by "author", titled "title", dated "date", with a title page.
    fn default() -> (r: Self)
        ensures
            r.author@ == "author"@,
            r.date@ == "date"@,
            r.title@ == "title"@,
            r.fontsize == 11,
            r.papersize@ == "letterpaper"@,
            r.doc_class@ == "article"@,
            r.maketitle,
    {
        Metadata::new("author", "date", "title", 11, "letterpaper", "article", true)
    }
}

impl Tex for Metadata {
    open spec fn spec_latex(&self) -> Seq<char> {
        metadata_latex(*self)
    }

    fn to_latex_string(&self) -> (r: String) {
        let mut doc_class = String::from_str("\\documentclass[");
        let size = u8_to_decimal(self.fontsize);
        doc_class.append(size.as_str());
        doc_class.append("pt, ");
        doc_class.append(self.papersize.as_str());
        doc_class.append("]{");
        doc_class.append(self.doc_class.as_str());
        doc_class.append("}");
        let mut lines: Vec<String> = Vec::new();
        lines.push(doc_class);
        lines.push(braced_string("\\title", &self.title));
        lines.push(braced_string("\\author", &self.author));
        lines.push(braced_string("\\date", &self.date));
        let r = join_strings(&lines, "\n");
        proof {
            let expected = seq![
                "\\documentclass["@ + decimal(self.fontsize as nat) + "pt, "@ + self.papersize@
                    + "]{"@ + self.doc_class@ + "}"@,
                braced("\\title"@, self.title@),
                braced("\\author"@, self.author@),
                braced("\\date"@, self.date@),
            ];
            assert(views(lines@) =~= expected);
        }
        r
    }
}

/// `cmd{arg}` as a string.
pub(crate) fn braced_string(cmd: &str, arg: &String) -> (r: String)
    ensures
        r@ == braced(cmd@, arg@),
{
    let mut r = String::from_str(cmd);
    r.append("{");
    r.append(arg.as_str());
    r.append("}");
    r
}

/// `\item {name}`
pub open spec fn item_latex(name: Seq<char>) -> Seq<char> {
    "\\item {"@ + name + "}"@
}

/// An item of a list.
#[derive(Debug)]
pub struct Item {
    pub name: String,
}

impl Clone for Item {
    fn clone(&self) -> (r: Self)
        ensures
            r == *self,
    {
        Item { name: self.name.clone() }
    }
}

impl Item {
    pub fn new(name: &str) -> (r: Self)
        ensures
            r.name@ == name@,
    {
        Item { name: String::from_str(name) }
    }
}

impl Tex for Item {
    open spec fn spec_latex(&self) -> Seq<char> {
        item_latex(self.name@)
    }

    fn to_latex_string(&self) -> (r: String) {
        let mut r = String::from_str("\\item {");
        r.append(self.name.as_str());
        r.append("}");
        r
    }
}

/// `\part{name}`
pub open spec fn part_latex(name: Seq<char>) -> Seq<char> {
    braced("\\part"@, name)
}

/// `\chapter{name}`
pub open spec fn chapter_latex(name: Seq<char>) -> Seq<char> {
    braced("\\chapter"@, name)
}

/// `\paragraph{content}`
pub open spec fn paragraph_latex(content: Seq<char>) -> Seq<char> {
    braced("\\paragraph"@, content)
}

/// `\usepackage{pkg}`
pub open spec fn package_latex(pkg: Seq<char>) -> Seq<char> {
    braced("\\usepackage"@, pkg)
}

/// `\input{path}`
pub open spec fn input_latex(path: Seq<char>) -> Seq<char> {
    braced("\\input"@, path)
}

/// `% text`
pub open spec fn comment_latex(text: Seq<char>) -> Seq<char> {
    "% "@ + text
}

/// `\` then `sub` repeated `level - 1` times, then `section{name}`; for `level >= 1`.
pub open spec fn header_latex(name: Seq<char>, level: nat) -> Seq<char> {
    "\\"@ + repeat("sub"@, (level - 1) as nat) + braced("section"@, name)
}

/// The text of each style: bold, italics, as is, inline math, paragraph.
pub open spec fn text_latex(content: Seq<char>, style: TextType) -> Seq<char> {
    match style {
        TextType::Bold => braced("\\textbf"@, content),
        TextType::Italics => braced("\\textit"@, content),
        TextType::Normal => content,
        TextType::Math => "$"@ + content + "$"@,
        TextType::Par => braced("\\par "@, content),
    }
}

/// The environment name of a list kind.
pub open spec fn list_env_name(kind: ListType) -> Seq<char> {
    match kind {
        ListType::Itemized => "itemize"@,
        ListType::Enumerated => "enumerate"@,
    }
}

/// The item lines of a list.
pub open spec fn item_lines(items: Seq<Item>) -> Seq<Seq<char>> {
    items.map_values(|i: Item| item_latex(i.name@))
}

/// Opening line, one line per item, closing line.
pub open spec fn list_latex(kind: ListType, items: Seq<Item>) -> Seq<char> {
    join(
        seq![begin_latex(list_env_name(kind))] + item_lines(items) + seq![
            end_latex(list_env_name(kind)),
        ],
        nl(),
    )
}

/// The cached texts of elements, one per line.
pub open spec fn inner_latex(elements: Seq<Element>) -> Seq<char> {
    join(elements.map_values(|e: Element| e.latex@), nl())
}

/// The opening line (`begin`), the children's texts, the closing line of environment `name`.
pub open spec fn environment_block(begin: Seq<char>, elements: Seq<Element>, name: Seq<char>) -> Seq<
    char,
> {
    join(seq![begin, inner_latex(elements), end_latex(name)], nl())
}

/// `\part{}`
#[derive(Debug)]
pub struct Part {
    pub name: String,
    pub latex: String,
    pub modified: bool,
}

impl Part {
    pub fn new(name: &str) -> (r: Self)
        ensures
            r.name@ == name@,
            r.latex@ == Seq::<char>::empty(),
            !r.modified,
    {
        Part { name: String::from_str(name), latex: String::new(), modified: false }
    }
}

impl Tex for Part {
    open spec fn spec_latex(&self) -> Seq<char> {
        part_latex(self.name@)
    }

    fn to_latex_string(&self) -> (r: String) {
        braced_string("\\part", &self.name)
    }
}

impl ExtraOptions for Part {
    open spec fn optioned_latex(&self, options: Seq<Options>) -> Seq<char> {
        apply_options(self.spec_latex(), options)
    }

    open spec fn cached_latex(&self) -> Seq<char> {
        self.latex@
    }

    open spec fn is_modified(&self) -> bool {
        self.modified
    }

    open spec fn same_content(&self, other: &Self) -> bool {
        self.name == other.name
    }

    proof fn lemma_optioned_depends_on_content(&self, other: &Self, options: Seq<Options>) {
    }

    fn modify_element(&mut self, options: Vec<Options>) {
        let base = self.to_latex_string();
        self.latex = apply_all(base.as_str(), &options);
        self.modified = true;
    }
}

/// `\chapter{}`
#[derive(Debug)]
pub struct Chapter {
    pub name: String,
    pub latex: String,
    pub modified: bool,
}

impl Chapter {
    pub fn new(name: &str) -> (r: Self)
        ensures
            r.name@ == name@,
            r.latex@ == Seq::<char>::empty(),
            !r.modified,
    {
        Chapter { name: String::from_str(name), latex: String::new(), modified: false }
    }
}

impl Tex for Chapter {
    open spec fn spec_latex(&self) -> Seq<char> {
        chapter_latex(self.name@)
    }

    fn to_latex_string(&self) -> (r: String) {
        braced_string("\\chapter", &self.name)
    }
}

impl ExtraOptions for Chapter {
    open spec fn optioned_latex(&self, options: Seq<Options>) -> Seq<char> {
        apply_options(self.spec_latex(), options)
    }

    open spec fn cached_latex(&self) -> Seq<char> {
        self.latex@
    }

    open spec fn is_modified(&self) -> bool {
        self.modified
    }

    open spec fn same_content(&self, other: &Self) -> bool {
        self.name == other.name
    }

    proof fn lemma_optioned_depends_on_content(&self, other: &Self, options: Seq<Options>) {
    }

    fn modify_element(&mut self, options: Vec<Options>) {
        let base = self.to_latex_string();
        self.latex = apply_all(base.as_str(), &options);
        self.modified = true;
    }
}

/// `\paragraph{}`
#[derive(Debug)]
pub struct Paragraph {
    pub content: String,
    pub latex: String,
    pub modified: bool,
}

impl Paragraph {
    pub fn new(content: &str) -> (r: Self)
        ensures
            r.content@ == content@,
            r.latex@ == Seq::<char>::empty(),
            !r.modified,
    {
        Paragraph { content: String::from_str(content), latex: String::new(), modified: false }
    }
}

impl Tex for Paragraph {
    open spec fn spec_latex(&self) -> Seq<char> {
        paragraph_latex(self.content@)
    }

    fn to_latex_string(&self) -> (r: String) {
        braced_string("\\paragraph", &self.content)
    }
}

impl ExtraOptions for Paragraph {
    open spec fn optioned_latex(&self, options: Seq<Options>) -> Seq<char> {
        apply_options(self.spec_latex(), options)
    }

    open spec fn cached_latex(&self) -> Seq<char> {
        self.latex@
    }

    open spec fn is_modified(&self) -> bool {
        self.modified
    }

    open spec fn same_content(&self, other: &Self) -> bool {
        self.content == other.content
    }

    proof fn lemma_optioned_depends_on_content(&self, other: &Self, options: Seq<Options>) {
    }

    fn modify_element(&mut self, options: Vec<Options>) {
        let base = self.to_latex_string();
        self.latex = apply_all(base.as_str(), &options);
        self.modified = true;
    }
}

/// `\usepackage{}`
#[derive(Debug)]
pub struct Package {
    pub pkg: String,
    pub latex: String,
    pub modified: bool,
}

impl Package {
    pub fn new(pkg: &str) -> (r: Self)
        ensures
            r.pkg@ == pkg@,
            r.latex@ == Seq::<char>::empty(),
            !r.modified,
    {
        Package { pkg: String::from_str(pkg), latex: String::new(), modified: false }
    }
}

impl Tex for Package {
    open spec fn spec_latex(&self) -> Seq<char> {
        package_latex(self.pkg@)
    }

    fn to_latex_string(&self) -> (r: String) {
        braced_string("\\usepackage", &self.pkg)
    }
}

impl ExtraOptions for Package {
    open spec fn optioned_latex(&self, options: Seq<Options>) -> Seq<char> {
        apply_options(self.spec_latex(), options)
    }

    open spec fn cached_latex(&self) -> Seq<char> {
        self.latex@
    }

    open spec fn is_modified(&self) -> bool {
        self.modified
    }

    open spec fn same_content(&self, other: &Self) -> bool {
        self.pkg == other.pkg
    }

    proof fn lemma_optioned_depends_on_content(&self, other: &Self, options: Seq<Options>) {
    }

    fn modify_element(&mut self, options: Vec<Options>) {
        let base = self.to_latex_string();
        self.latex = apply_all(base.as_str(), &options);
        self.modified = true;
    }
}

/// `\input{}`: a reference to another file, placed at `level`.
#[derive(Debug)]
pub struct Input {
    pub file_name: String,
    pub level: Level,
    pub latex: String,
    pub modified: bool,
}

impl Input {
    pub fn new(file_name: &str, level: Level) -> (r: Self)
        ensures
            r.file_name@ == file_name@,
            r.level == level,
            r.latex@ == Seq::<char>::empty(),
            !r.modified,
    {
        Input { file_name: String::from_str(file_name), level, latex: String::new(), modified: false }
    }

    /// The path of the referenced file.
    pub fn file_name_str(&self) -> (r: String)
        ensures
            r@ == self.file_name@,
    {
        self.file_name.clone()
    }
}

impl Tex for Input {
    open spec fn spec_latex(&self) -> Seq<char> {
        input_latex(self.file_name@)
    }

    fn to_latex_string(&self) -> (r: String) {
        braced_string("\\input", &self.file_name)
    }
}

impl ExtraOptions for Input {
    open spec fn optioned_latex(&self, options: Seq<Options>) -> Seq<char> {
        apply_options(self.spec_latex(), options)
    }

    open spec fn cached_latex(&self) -> Seq<char> {
        self.latex@
    }

    open spec fn is_modified(&self) -> bool {
        self.modified
    }

    open spec fn same_content(&self, other: &Self) -> bool {
        self.file_name == other.file_name && self.level == other.level
    }

    proof fn lemma_optioned_depends_on_content(&self, other: &Self, options: Seq<Options>) {
    }

    fn modify_element(&mut self, options: Vec<Options>) {
        let base = self.to_latex_string();
        self.latex = apply_all(base.as_str(), &options);
        self.modified = true;
    }
}

/// Raw LaTeX code placed at `level`, emitted verbatim.
#[derive(Debug)]
pub struct Custom {
    pub value: String,
    pub level: Level,
    pub latex: String,
    pub modified: bool,
}

impl Custom {
    pub fn new(value: &str, level: Level) -> (r: Self)
        ensures
            r.value@ == value@,
            r.level == level,
            r.latex@ == Seq::<char>::empty(),
            !r.modified,
    {
        Custom { value: String::from_str(value), level, latex: String::new(), modified: false }
    }
}

impl Tex for Custom {
    open spec fn spec_latex(&self) -> Seq<char> {
        self.value@
    }

    fn to_latex_string(&self) -> (r: String) {
        self.value.clone()
    }
}

impl ExtraOptions for Custom {
    open spec fn optioned_latex(&self, options: Seq<Options>) -> Seq<char> {
        apply_options(self.spec_latex(), options)
    }

    open spec fn cached_latex(&self) -> Seq<char> {
        self.latex@
    }

    open spec fn is_modified(&self) -> bool {
        self.modified
    }

    open spec fn same_content(&self, other: &Self) -> bool {
        self.value == other.value && self.level == other.level
    }

    proof fn lemma_optioned_depends_on_content(&self, other: &Self, options: Seq<Options>) {
    }

    fn modify_element(&mut self, options: Vec<Options>) {
        let base = self.to_latex_string();
        self.latex = apply_all(base.as_str(), &options);
        self.modified = true;
    }
}

/// A line comment `% ..` placed at `level`.
#[derive(Debug)]
pub struct Comment {
    pub value: String,
    pub level: Level,
}

impl Comment {
    pub fn new(value: &str, level: Level) -> (r: Self)
        ensures
            r.value@ == value@,
            r.level == level,
    {
        Comment { value: String::from_str(value), level }
    }
}

impl Tex for Comment {
    open spec fn spec_latex(&self) -> Seq<char> {
        comment_latex(self.value@)
    }

    fn to_latex_string(&self) -> (r: String) {
        let mut r = String::from_str("% ");
        r.append(self.value.as_str());
        r
    }
}

/// Inline text in one of the styles of `TextType`.
#[derive(Debug)]
pub struct Text {
    pub content: String,
    pub type_: TextType,
    pub latex: String,
    pub modified: bool,
}

impl Text {
    pub fn new(content: &str, type_: TextType) -> (r: Self)
        ensures
            r.content@ == content@,
            r.type_ == type_,
            r.latex@ == Seq::<char>::empty(),
            !r.modified,
    {
        Text { content: String::from_str(content), type_, latex: String::new(), modified: false }
    }
}

impl Tex for Text {
    open spec fn spec_latex(&self) -> Seq<char> {
        text_latex(self.content@, self.type_)
    }

    fn to_latex_string(&self) -> (r: String) {
        match self.type_ {
            TextType::Bold => braced_string("\\textbf", &self.content),
            TextType::Italics => braced_string("\\textit", &self.content),
            TextType::Normal => self.content.clone(),
            TextType::Math => {
                let mut r = String::from_str("$");
                r.append(self.content.as_str());
                r.append("$");
                r
            },
            TextType::Par => braced_string("\\par ", &self.content),
        }
    }
}

impl ExtraOptions for Text {
    open spec fn optioned_latex(&self, options: Seq<Options>) -> Seq<char> {
        apply_options(self.spec_latex(), options)
    }

    open spec fn cached_latex(&self) -> Seq<char> {
        self.latex@
    }

    open spec fn is_modified(&self) -> bool {
        self.modified
    }

    open spec fn same_content(&self, other: &Self) -> bool {
        self.content == other.content && self.type_ == other.type_
    }

    proof fn lemma_optioned_depends_on_content(&self, other: &Self, options: Seq<Options>) {
    }

    fn modify_element(&mut self, options: Vec<Options>) {
        let base = self.to_latex_string();
        self.latex = apply_all(base.as_str(), &options);
        self.modified = true;
    }
}

/// `\begin{itemize}` or `\begin{enumerate}`, one `\item` line per item, and the closing line.
#[derive(Debug)]
pub struct List {
    pub type_: ListType,
    pub items: Vec<Item>,
    pub latex: String,
    pub modified: bool,
}

impl List {
    pub fn new(type_: ListType, items: Vec<Item>) -> (r: Self)
        ensures
            r.type_ == type_,
            r.items@ == items@,
            r.latex@ == Seq::<char>::empty(),
            !r.modified,
    {
        List { type_, items, latex: String::new(), modified: false }
    }
}

/// The environment name of a list kind, as a string.
fn list_env_string(kind: ListType) -> (r: String)
    ensures
        r@ == list_env_name(kind),
{
    match kind {
        ListType::Itemized => String::from_str("itemize"),
        ListType::Enumerated => String::from_str("enumerate"),
    }
}

impl Tex for List {
    open spec fn spec_latex(&self) -> Seq<char> {
        list_latex(self.type_, self.items@)
    }

    fn to_latex_string(&self) -> (r: String) {
        let name = list_env_string(self.type_);
        let mut lines: Vec<String> = Vec::new();
        lines.push(braced_string("\\begin", &name));
        let mut i: usize = 0;
        while i < self.items.len()
            invariant
                0 <= i <= self.items.len(),
                views(lines@) =~= seq![begin_latex(list_env_name(self.type_))] + item_lines(
                    self.items@.take(i as int),
                ),
            decreases self.items.len() - i,
        {
            let line = self.items[i].to_latex_string();
            proof {
                lemma_views_push(lines@, line);
            }
            lines.push(line);
            proof {
                assert(self.items@.take(i + 1) =~= self.items@.take(i as int).push(self.items@[i as int]));
                assert(views(lines@) =~= seq![begin_latex(list_env_name(self.type_))] + item_lines(
                    self.items@.take(i + 1),
                ));
            }
            i = i + 1;
        }
        lines.push(braced_string("\\end", &name));
        proof {
            assert(self.items@.take(self.items.len() as int) =~= self.items@);
            assert(views(lines@) =~= seq![begin_latex(list_env_name(self.type_))] + item_lines(
                self.items@,
            ) + seq![end_latex(list_env_name(self.type_))]);
        }
        join_strings(&lines, "\n")
    }
}

impl ExtraOptions for List {
    open spec fn optioned_latex(&self, options: Seq<Options>) -> Seq<char> {
        apply_options(self.spec_latex(), options)
    }

    open spec fn cached_latex(&self) -> Seq<char> {
        self.latex@
    }

    open spec fn is_modified(&self) -> bool {
        self.modified
    }

    open spec fn same_content(&self, other: &Self) -> bool {
        self.type_ == other.type_ && self.items@ == other.items@
    }

    proof fn lemma_optioned_depends_on_content(&self, other: &Self, options: Seq<Options>) {
    }

    fn modify_element(&mut self, options: Vec<Options>) {
        let base = self.to_latex_string();
        self.latex = apply_all(base.as_str(), &options);
        self.modified = true;
    }
}

/// A named environment that owns its child elements.
#[derive(Debug)]
pub struct Environment {
    pub name: String,
    pub elements: Vec<Element>,
    pub latex: String,
    pub modified: bool,
}

impl Environment {
    pub fn new(name: &str) -> (r: Self)
        ensures
            r.name@ == name@,
            r.elements@ == Seq::<Element>::empty(),
            r.latex@ == Seq::<char>::empty(),
            !r.modified,
    {
        Environment {
            name: String::from_str(name),
            elements: Vec::new(),
            latex: String::new(),
            modified: false,
        }
    }

    /// Appends a child element.
    pub fn push(&mut self, element: Element)
        ensures
            final(self).elements@ == old(self).elements@.push(element),
            final(self).name == old(self).name,
            final(self).latex == old(self).latex,
            final(self).modified == old(self).modified,
    {
        self.elements.push(element)
    }

    /// Replaces the child elements.
    pub fn set_elements(&mut self, elements: Vec<Element>)
        ensures
            final(self).elements@ == elements@,
            final(self).name == old(self).name,
            final(self).latex == old(self).latex,
            final(self).modified == old(self).modified,
    {
        self.elements = elements
    }

    /// The cached texts of the children, one per line.
    pub fn inner_latex_string(&self) -> (r: String)
        ensures
            r@ == inner_latex(self.elements@),
    {
        let mut lines: Vec<String> = Vec::new();
        let mut i: usize = 0;
        while i < self.elements.len()
            invariant
                0 <= i <= self.elements.len(),
                views(lines@) =~= self.elements@.take(i as int).map_values(|e: Element| e.latex@),
            decreases self.elements.len() - i,
        {
            let line = self.elements[i].latex.clone();
            proof {
                lemma_views_push(lines@, line);
            }
            lines.push(line);
            proof {
                assert(self.elements@.take(i + 1) =~= self.elements@.take(i as int).push(
                    self.elements@[i as int],
                ));
            }
            i = i + 1;
        }
        proof {
            assert(self.elements@.take(self.elements.len() as int) =~= self.elements@);
        }
        join_strings(&lines, "\n")
    }

    /// The block with `begin` as its opening line.
    fn block_with(&self, begin: String) -> (r: String)
        ensures
            r@ == environment_block(begin@, self.elements@, self.name@),
    {
        let mut lines: Vec<String> = Vec::new();
        lines.push(begin);
        lines.push(self.inner_latex_string());
        lines.push(braced_string("\\end", &self.name));
        proof {
            assert(views(lines@) =~= seq![
                begin@,
                inner_latex(self.elements@),
                end_latex(self.name@),
            ]);
        }
        join_strings(&lines, "\n")
    }
}

impl Tex for Environment {
    open spec fn spec_latex(&self) -> Seq<char> {
        environment_block(begin_latex(self.name@), self.elements@, self.name@)
    }

    fn to_latex_string(&self) -> (r: String) {
        self.block_with(braced_string("\\begin", &self.name))
    }
}

impl ExtraOptions for Environment {
    /// The options go after the opening line's `\begin{name}`.
    open spec fn optioned_latex(&self, options: Seq<Options>) -> Seq<char> {
        environment_block(
            apply_options(begin_latex(self.name@), options),
            self.elements@,
            self.name@,
        )
    }

    open spec fn cached_latex(&self) -> Seq<char> {
        self.latex@
    }

    open spec fn is_modified(&self) -> bool {
        self.modified
    }

    open spec fn same_content(&self, other: &Self) -> bool {
        self.name == other.name && self.elements@ == other.elements@
    }

    proof fn lemma_optioned_depends_on_content(&self, other: &Self, options: Seq<Options>) {
    }

    fn modify_element(&mut self, options: Vec<Options>) {
        let begin = braced_string("\\begin", &self.name);
        let begin = apply_all(begin.as_str(), &options);
        self.latex = self.block_with(begin);
        self.modified = true;
    }
}

/// A sectioning header: depth 1 is `\section`, depth 2 `\subsection`, and so on.
#[derive(Debug)]
pub struct Header {
    pub name: String,
    pub header_level: u8,
    pub latex: String,
    pub modified: bool,
}

impl Header {
    pub fn new(name: &str, header_level: u8) -> (r: Self)
        ensures
            r.name@ == name@,
            r.header_level == header_level,
            r.latex@ == Seq::<char>::empty(),
            !r.modified,
    {
        Header { name: String::from_str(name), header_level, latex: String::new(), modified: false }
    }

    /// Renders the header; a depth of 0 is refused.
    pub fn to_latex_string(&self) -> (r: Result<String, TexError>)
        ensures
            self.header_level == 0 <==> r is Err,
            r matches Ok(s) ==> s@ == header_latex(self.name@, self.header_level as nat),
            r matches Err(e) ==> e == TexError::InvalidHeaderLevel,
    {
        if self.header_level == 0 {
            return Err(TexError::InvalidHeaderLevel);
        }
        let mut r = String::from_str("\\");
        let mut count: u8 = 1;
        while count < self.header_level
            invariant
                1 <= count <= self.header_level,
                r@ == "\\"@ + repeat("sub"@, (count - 1) as nat),
            decreases self.header_level - count,
        {
            r.append("sub");
            count = count + 1;
        }
        let tail = braced_string("section", &self.name);
        r.append(tail.as_str());
        assert(r@ =~= header_latex(self.name@, self.header_level as nat));
        Ok(r)
    }

    /// Renders the header with `options` appended and caches the result; a depth of 0 is
    /// refused and leaves the header unchanged.
    pub fn modify_element(&mut self, options: Vec<Options>) -> (r: Result<(), TexError>)
        ensures
            old(self).header_level == 0 <==> r is Err,
            r is Err ==> *final(self) == *old(self),
            r is Ok ==> final(self).latex@ == apply_options(
                header_latex(old(self).name@, old(self).header_level as nat),
                options@,
            ),
            r is Ok ==> final(self).modified,
            final(self).name == old(self).name,
            final(self).header_level == old(self).header_level,
    {
        match self.to_latex_string() {
            Ok(base) => {
                self.latex = apply_all(base.as_str(), &options);
                self.modified = true;
                Ok(())
            },
            Err(e) => Err(e),
        }
    }
}

} // verus!
