use texcore::bundle::graphicx::{graphics_bundle, GraphicInclude, GraphicPath};
use texcore::element::{Element, ElementList, Tex};
use texcore::extra_ops::{ExtraOptions, Options};
use texcore::level::Level;
use texcore::ty::{
    Chapter, Comment, Custom, Environment, Header, Input, Item, List, ListType, Metadata, Package,
    Paragraph, Part, TexError, Text, TextType, Type,
};

fn plain_metadata() -> Metadata {
    Metadata::new("Author", "date", "title", 11, "letterpaper", "article", false)
}

#[test]
fn test_path() {
    let gp = GraphicPath::new("./images/");
    let s = r"\graphicspath{ {./images/} }";
    assert_eq!(s.to_string(), gp.to_latex_string())
}

#[test]
fn test_extra_ops() {
    let mut chapter = Chapter::new("A chapter");
    let mut env = Environment::new("something");
    let mut header = Header::new("A header", 1);
    let mut input = Input::new("foo", Level::Document);
    let mut pkg = Package::new("bar");
    let mut par = Paragraph::new("A paragraph");
    let mut part = Part::new("A part");

    let options = vec![Options::Curly("An option".to_string())];
    chapter.modify_element(options.clone());
    env.modify_element(options.clone());
    header.modify_element(options.clone()).unwrap();
    input.modify_element(options.clone());
    pkg.modify_element(options.clone());
    par.modify_element(options.clone());
    part.modify_element(options.clone());

    let expected_latex = vec![
        r"\chapter{A chapter}{An option}",
        "\\begin{something}{An option}\n\n\\end{something}",
        r"\section{A header}{An option}",
        r"\input{foo}{An option}",
        r"\usepackage{bar}{An option}",
        r"\paragraph{A paragraph}{An option}",
        r"\part{A part}{An option}",
    ];

    assert_eq!(&chapter.latex, expected_latex[0]);
    assert_eq!(&env.latex, expected_latex[1]);
    assert_eq!(&header.latex, expected_latex[2]);
    assert_eq!(&input.latex, expected_latex[3]);
    assert_eq!(&pkg.latex, expected_latex[4]);
    assert_eq!(&par.latex, expected_latex[5]);
    assert_eq!(&part.latex, expected_latex[6]);
    assert!(chapter.modified && env.modified && header.modified && part.modified);
}

#[test]
fn deque_order_follows_pushes_and_pops() {
    let mut list = ElementList::new(&plain_metadata());
    list.push(Element::from_part(Part::new("b")));
    list.fpush(Element::from_part(Part::new("a")));
    list.push(Element::from_part(Part::new("c")));
    list.fpush(Element::from_part(Part::new("z")));
    assert_eq!(list.pop().unwrap().latex, r"\part{c}");
    assert_eq!(list.fpop().unwrap().latex, r"\part{z}");
    let names: Vec<String> = list.iter().map(|e| e.latex.clone()).collect();
    assert_eq!(names, vec![r"\part{a}".to_string(), r"\part{b}".to_string()]);
    assert_eq!(list.list().len(), 2);
    list.pop();
    list.pop();
    assert!(list.pop().is_none());
    assert!(list.fpop().is_none());
}

#[test]
fn push_array_keeps_order() {
    let mut list = ElementList::new(&plain_metadata());
    list.push(Element::from_part(Part::new("first")));
    list.push_array(vec![
        Element::from_chapter(Chapter::new("second")),
        Element::from_chapter(Chapter::new("third")),
    ]);
    let copy = list.list_to_array();
    let texts: Vec<&str> = copy.iter().map(|e| e.latex.as_str()).collect();
    assert_eq!(texts, vec![r"\part{first}", r"\chapter{second}", r"\chapter{third}"]);
}

#[test]
fn header_levels_repeat_sub() {
    assert_eq!(Header::new("h", 1).to_latex_string().unwrap(), r"\section{h}");
    assert_eq!(Header::new("h", 2).to_latex_string().unwrap(), r"\subsection{h}");
    assert_eq!(Header::new("h", 3).to_latex_string().unwrap(), r"\subsubsection{h}");
    let deep = Header::new("h", 255).to_latex_string().unwrap();
    assert_eq!(deep, format!("\\{}section{{h}}", "sub".repeat(254)));
}

#[test]
fn header_level_zero_is_refused() {
    assert_eq!(Header::new("h", 0).to_latex_string(), Err(TexError::InvalidHeaderLevel));
    assert!(Element::from_header(Header::new("h", 0)).is_err());
    let mut h = Header::new("h", 0);
    assert_eq!(h.modify_element(vec![Options::Curly("x".to_string())]), Err(TexError::InvalidHeaderLevel));
    assert!(!h.modified);
    assert_eq!(h.latex, "");
    let el = Element::from_header(Header::new("h", 2)).unwrap();
    assert_eq!(el.latex, r"\subsection{h}");
    assert_eq!(el.value.header_level, Some(2));
}

#[test]
fn package_and_part_grouped_in_either_order() {
    let expected = "\\documentclass[11pt, letterpaper]{article}\n\\title{title}\n\\author{Author}\n\\date{date}\n\\usepackage{P}\n\\begin{document}\n\\part{X}\n\\end{document}";
    let mut a = ElementList::new(&plain_metadata());
    a.push(Element::from_package(Package::new("P")));
    a.push(Element::from_part(Part::new("X")));
    let mut b = ElementList::new(&plain_metadata());
    b.push(Element::from_part(Part::new("X")));
    b.push(Element::from_package(Package::new("P")));
    assert_eq!(a.to_latex_string(), expected);
    assert_eq!(b.to_latex_string(), expected);
}

#[test]
fn split_packages_match_combined_segment() {
    let mut list = ElementList::new(&plain_metadata());
    list.push(Element::from_part(Part::new("X")));
    list.push(Element::from_package(Package::new("P")));
    list.push(Element::from_custom(Custom::new(r"\newcommand{\a}{b}", Level::Meta)));
    list.push(Element::from_package(Package::new("Q")));
    let (main, packages) = list.to_latex_split_string(Input::new("structure", Level::Meta));
    assert_eq!(packages, "\\usepackage{P}\n\\usepackage{Q}");
    assert_eq!(
        main,
        "\\documentclass[11pt, letterpaper]{article}\n\\title{title}\n\\author{Author}\n\\date{date}\n\\input{structure}\n\\newcommand{\\a}{b}\n\\begin{document}\n\\part{X}\n\\end{document}"
    );
    let combined = list.to_latex_string();
    assert!(combined.contains(&format!("\n{}\n", packages)));
    assert_eq!(
        combined,
        "\\documentclass[11pt, letterpaper]{article}\n\\title{title}\n\\author{Author}\n\\date{date}\n\\newcommand{\\a}{b}\n\\usepackage{P}\n\\usepackage{Q}\n\\begin{document}\n\\part{X}\n\\end{document}"
    );
}

#[test]
fn empty_list_renders_frame_with_title() {
    let list = ElementList::default();
    assert_eq!(
        list.to_latex_string(),
        "\\documentclass[11pt, letterpaper]{article}\n\\title{title}\n\\author{author}\n\\date{date}\n\n\\begin{document}\n\\maketitle\n\\end{document}"
    );
    let (main, packages) = list.to_latex_split_string(Input::new("s", Level::Meta));
    assert_eq!(packages, "");
    assert_eq!(
        main,
        "\\documentclass[11pt, letterpaper]{article}\n\\title{title}\n\\author{author}\n\\date{date}\n\\input{s}\n\\begin{document}\n\\maketitle\n\\end{document}"
    );
}

#[test]
fn chapter_option_applied_fresh_each_time() {
    let mut chapter = Chapter::new("A chapter");
    chapter.modify_element(vec![Options::Curly("opt".to_string())]);
    assert_eq!(chapter.latex, r"\chapter{A chapter}{opt}");
    chapter.modify_element(vec![Options::Curly("opt".to_string())]);
    assert_eq!(chapter.latex, r"\chapter{A chapter}{opt}");
    let el = Element::from_chapter(chapter);
    assert_eq!(el.latex, r"\chapter{A chapter}{opt}");
    assert!(el.modified);
}

#[test]
fn options_apply_in_order() {
    assert_eq!(Options::Curly("a".to_string()).modify("x"), "x{a}");
    assert_eq!(Options::Square("b".to_string()).modify("x"), "x[b]");
    let mut text = Text::new("t", TextType::Bold);
    text.modify_element(vec![Options::Square("s".to_string()), Options::Curly("c".to_string())]);
    assert_eq!(text.latex, r"\textbf{t}[s]{c}");
}

#[test]
fn element_modification_rebases_on_converted_text() {
    let mut el = Element::from_part(Part::new("p"));
    el.modify_element(vec![Options::Curly("1".to_string())]);
    el.modify_element(vec![Options::Curly("2".to_string())]);
    assert_eq!(el.latex, r"\part{p}{2}");
    assert!(el.modified);
    assert_eq!(el.value.latex, r"\part{p}");
}

#[test]
fn empty_itemized_list_has_no_item_lines() {
    let list = List::new(ListType::Itemized, vec![]);
    assert_eq!(list.to_latex_string(), "\\begin{itemize}\n\\end{itemize}");
}

#[test]
fn enumerated_list_has_one_line_per_item() {
    let list = List::new(ListType::Enumerated, vec![Item::new("a"), Item::new("b")]);
    assert_eq!(list.to_latex_string(), "\\begin{enumerate}\n\\item {a}\n\\item {b}\n\\end{enumerate}");
    let el = Element::from_list(list);
    assert_eq!(el.type_, Type::T_List);
    assert_eq!(el.value.list_type, Some(ListType::Enumerated));
}

#[test]
fn text_styles() {
    assert_eq!(Text::new("x", TextType::Bold).to_latex_string(), r"\textbf{x}");
    assert_eq!(Text::new("x", TextType::Italics).to_latex_string(), r"\textit{x}");
    assert_eq!(Text::new("x", TextType::Normal).to_latex_string(), "x");
    assert_eq!(Text::new("x", TextType::Math).to_latex_string(), "$x$");
    assert_eq!(Text::new("x", TextType::Par).to_latex_string(), r"\par {x}");
}

#[test]
fn simple_formatting_rules() {
    assert_eq!(Paragraph::new("p").to_latex_string(), r"\paragraph{p}");
    assert_eq!(Comment::new("note", Level::Document).to_latex_string(), "% note");
    assert_eq!(Custom::new(r"\raw", Level::Meta).to_latex_string(), r"\raw");
    assert_eq!(Input::new("a/b", Level::Meta).to_latex_string(), r"\input{a/b}");
    assert_eq!(Input::new("a/b", Level::Meta).file_name_str(), "a/b");
    assert_eq!(Item::new("i").to_latex_string(), r"\item {i}");
}

#[test]
fn metadata_block() {
    let m = Metadata::new("A", "D", "T", 12, "a4paper", "book", true);
    assert_eq!(m.to_latex_string(), "\\documentclass[12pt, a4paper]{book}\n\\title{T}\n\\author{A}\n\\date{D}");
    let m = Metadata::new("A", "D", "T", 255, "p", "c", true);
    assert!(m.to_latex_string().starts_with("\\documentclass[255pt, p]{c}"));
    let m = Metadata::new("A", "D", "T", 7, "p", "c", true);
    assert!(m.to_latex_string().starts_with("\\documentclass[7pt, p]{c}"));
}

#[test]
fn metadata_change_and_title() {
    let mut list = ElementList::new(&plain_metadata());
    list.push(Element::from_paragraph(Paragraph::new("body")));
    let mut m = plain_metadata();
    m.maketitle = true;
    m.title = "New".to_string();
    list.change_metadata(m);
    assert_eq!(list.metadata().title, "New");
    assert!(list.to_latex_string().ends_with("\\begin{document}\n\\maketitle\n\\paragraph{body}\n\\end{document}"));
}

#[test]
fn environment_uses_children_cached_text() {
    let mut env = Environment::new("center");
    let mut child = Element::from_text(Text::new("x", TextType::Normal));
    child.modify_element(vec![Options::Square("o".to_string())]);
    env.push(child);
    env.push(Element::from_comment(Comment::new("c", Level::Document)));
    assert_eq!(env.inner_latex_string(), "x[o]\n% c");
    assert_eq!(env.to_latex_string(), "\\begin{center}\nx[o]\n% c\n\\end{center}");
    let el = Element::from_environment(env);
    assert_eq!(el.type_, Type::T_Environment);
    assert_eq!(el.value.elements.as_ref().map(|v| v.len()), Some(2));
}

#[test]
fn conversions_set_kind_and_level() {
    assert_eq!(Element::from_package(Package::new("p")).level, Level::Packages);
    assert_eq!(Element::from_part(Part::new("p")).level, Level::Document);
    assert_eq!(Element::from_input(Input::new("f", Level::Meta)).level, Level::Meta);
    assert_eq!(Element::from_custom(Custom::new("c", Level::Packages)).level, Level::Packages);
    let c = Element::from_comment(Comment::new("c", Level::Meta));
    assert_eq!(c.type_, Type::T_Comment);
    assert_eq!(c.latex, "% c");
    let t = Element::from_text(Text::new("t", TextType::Math));
    assert_eq!(t.value.text_type, Some(TextType::Math));
    assert_eq!(t.latex, "$t$");
}

#[test]
fn push_packages_and_newpage() {
    let mut list = ElementList::new(&plain_metadata());
    list.push_packages(vec!["amsmath".to_string(), "graphicx".to_string()]);
    list.add_newpage();
    let all = list.list_to_array();
    assert_eq!(all.len(), 3);
    assert_eq!(all[0].latex, r"\usepackage{amsmath}");
    assert_eq!(all[1].latex, r"\usepackage{graphicx}");
    assert_eq!(all[2].latex, r"\newpage");
    assert_eq!(all[2].level, Level::Document);
}

#[test]
fn graphics_elements() {
    let inc = GraphicInclude::new("foo.png");
    assert_eq!(inc.to_latex_string(), r"\includegraphics{foo.png}");
    let el = inc.to_element();
    assert_eq!(el.level, Level::Document);
    let bundle = graphics_bundle("./img/", vec!["a.png".to_string(), "b.png".to_string()], vec!["0.75".to_string()]);
    assert_eq!(bundle.len(), 3);
    assert_eq!(bundle[0].latex, r"\usepackage{graphicx}");
    assert_eq!(bundle[1].latex, r"\graphicspath{ {./img/} }");
    assert_eq!(bundle[1].level, Level::Meta);
    assert_eq!(bundle[2].latex, r"\includegraphics{a.png}[scale = 0.75]");
}
