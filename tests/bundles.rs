use texcore::bundle::math::{equation_env, equation_split_env, Arrows, Binary, Case, Greek, Misc};
use texcore::bundle::tables::{vec_to_rows, Column, Position, Row, Separator, Table};
use texcore::element::{Element, Tex};
use texcore::level::Level;
use texcore::template::{Template, Version, VersionError};
use texcore::ty::{Metadata, Part, Text, TextType, Type};

fn cell(s: &str) -> Element {
    Element::from_text(Text::new(s, TextType::Normal))
}

#[test]
fn test_version() {
    let vers_str = "1.0.0";
    let version = Version::from_str(vers_str).unwrap();
    let expected = Version::new(1, 0, 0);
    assert_eq!(version, expected)
}

#[test]
fn test_ge_le_version() {
    let ex = Version::new(3, 0, 0);
    let ex2 = Version::new(3, 1, 0);
    assert_eq!(ex2 > ex, true)
}

#[test]
fn version_parse_errors_and_text() {
    assert_eq!(Version::from_str("1.2"), Err(VersionError::MissingPart));
    assert_eq!(Version::from_str(""), Err(VersionError::MissingPart));
    assert_eq!(Version::from_str("1.x.0"), Err(VersionError::InvalidNumber));
    assert_eq!(Version::from_str("1.256.0"), Err(VersionError::InvalidNumber));
    assert_eq!(Version::from_str("1..0"), Err(VersionError::InvalidNumber));
    assert_eq!(Version::from_str("+2.10.255.7"), Ok(Version::new(2, 10, 255)));
    assert_eq!(Version::new(0, 12, 255).to_string(), "v0.12.255");
    assert_eq!(Version::default(), Version::new(1, 0, 0));
}

#[test]
fn version_bumps() {
    let mut v = Version::new(1, 2, 3);
    v.bump_major();
    v.bump_minor();
    v.bump_patch();
    assert_eq!(v, Version::new(2, 3, 4));
    v.set_version(0, 0, 9);
    assert_eq!(v, Version::new(0, 0, 9));
}

#[test]
fn template_renders_its_list() {
    let metadata = Metadata::new("Author", "date", "Name", 11, "letterpaper", "article", false);
    let mut template = Template::new("Name", "A Description", &metadata);
    template.push_element(Element::from_part(Part::new("name")));
    assert_eq!(template.version, Version::new(1, 0, 0));
    assert_eq!(
        template.to_latex_string(),
        "\\documentclass[11pt, letterpaper]{article}\n\\title{Name}\n\\author{Author}\n\\date{date}\n\n\\begin{document}\n\\part{name}\n\\end{document}"
    );
    assert_eq!(template.to_latex_string(), template.element_list.to_latex_string());
}

#[test]
fn symbols_render_their_commands() {
    assert_eq!(Greek::Alpha(Case::Lower).to_latex_string(), r"\alpha");
    assert_eq!(Greek::Alpha(Case::Upper).to_latex_string(), "A");
    assert_eq!(Greek::Omega(Case::Upper).to_latex_string(), r"\Omega");
    assert_eq!(Greek::VarPhi.to_latex_string(), r"\varphi");
    assert_eq!(Arrows::RightArrow(Case::Upper).to_latex_string(), r"\Rightarrow");
    assert_eq!(Arrows::LongMapsto.to_latex_string(), r"\longmapsto");
    assert_eq!(Misc::Infty.to_latex_string(), r"\infty");
    assert_eq!(Binary::Wegde.to_latex_string(), r"\wedge");
    let el = Binary::Times.to_element();
    assert_eq!(el.latex, r"\times");
    assert_eq!(el.type_, Type::T_Bundle);
    assert_eq!(el.level, Level::Document);
}

#[test]
fn equation_environments() {
    assert_eq!(equation_env(true).name, "equation*");
    assert_eq!(equation_env(false).to_latex_string(), "\\begin{equation}\n\n\\end{equation}");
    let eq = equation_split_env(false, vec![cell("a &= b \\\\"), cell("c &= d")]);
    assert_eq!(
        eq.to_latex_string(),
        "\\begin{equation}\n\\begin{split}\na &= b \\\\\nc &= d\n\\end{split}\n\\end{equation}"
    );
}

#[test]
fn columns_and_rows() {
    let cols = vec![
        Column::new(Position::Left, Separator::Single),
        Column::new(Position::Paragraph("0.3".to_string()), Separator::Double),
        Column::new(Position::Right, Separator::NoLine),
    ];
    assert_eq!(cols.to_latex_string(), "| l || p{0.3}  r |");
    let row = Row::new(vec![cell("foo"), cell("bar"), cell("baz")]);
    assert_eq!(row.to_latex_string(), "foo & bar & baz  \\\\");
    assert_eq!(row.to_element().latex, "foo & bar & baz  \\\\");
    let rows = vec_to_rows(vec![vec![cell("a")], vec![cell("b"), cell("c")]]);
    assert_eq!(rows.len(), 2);
    assert_eq!(rows[1].to_latex_string(), "b & c  \\\\");
}

#[test]
fn table_build() {
    let cols = vec![
        Column::new(Position::Left, Separator::Single),
        Column::new(Position::Centered, Separator::Single),
    ];
    let rows = vec_to_rows(vec![vec![cell("foo"), cell("bar")]]);
    let table = Table::new(None, cols, rows, false, false);
    let env = table.build_table();
    assert_eq!(
        env.latex,
        "\\begin{tabular}{| l | c |}\n\\hline\nfoo & bar  \\\\\n\\end{tabular}"
    );
    let els = table.build();
    assert_eq!(els.len(), 1);
    assert_eq!(els[0].latex, env.latex);

    let cols = vec![Column::new(Position::Centered, Separator::NoLine)];
    let rows = vec_to_rows(vec![vec![cell("x")]]);
    let wide = Table::new(Some("0.5".to_string()), cols, rows, true, true);
    let els = wide.build();
    assert_eq!(els.len(), 3);
    assert_eq!(els[0].latex, r"\usepackage{array}");
    assert_eq!(els[1].latex, r"\usepackage{tabularx}");
    assert_eq!(
        els[2].latex,
        "\\begin{tabular*}{0.5\\textwidth}{ c |}\n\\hline\nx  \\\\\n\\end{tabular*}"
    );
}
