use crate::element::{is_erased, Element, Tex};
use crate::extra_ops::{apply_options, option_suffix, ExtraOptions, Options};
use crate::level::Level;
use crate::text::{join, join_strings, lemma_views_push, views};
use crate::ty::{
    begin_latex, braced, environment_block, package_latex, Environment, Package, Text, TextType,
    Type,
};
use vstd::prelude::*;
use vstd::string::StringExecFns;

verus! {

/// The alignment of a column. Widths are LaTeX lengths written as text, such as `0.3`.
#[derive(Debug)]
pub enum Position {
    /// Left justified
    Left,
    /// Right justified
    Right,
    /// Centered
    Centered,
    /// Paragraph column with text vertically aligned at the top (requires width)
    Paragraph(String),
    /// Paragraph column with text vertically aligned in the middle (requires width);
    /// needs the `array` package
    Middle(String),
    /// Paragraph column with text vertically aligned at the bottom (requires width);
    /// needs the `array` package
    Bottom(String),
}

/// The column specifier of a position.
pub open spec fn position_latex(p: Position) -> Seq<char> {
    match p {
        Position::Left => "l"@,
        Position::Right => "r"@,
        Position::Centered => "c"@,
        Position::Paragraph(w) => braced("p"@, w@),
        Position::Middle(w) => braced("m"@, w@),
        Position::Bottom(w) => braced("b"@, w@),
    }
}

impl Tex for Position {
    open spec fn spec_latex(&self) -> Seq<char> {
        position_latex(*self)
    }

    fn to_latex_string(&self) -> (r: String) {
        match self {
            Position::Left => String::from_str("l"),
            Position::Right => String::from_str("r"),
            Position::Centered => String::from_str("c"),
            Position::Paragraph(w) => crate::ty::braced_string("p", w),
            Position::Middle(w) => crate::ty::braced_string("m", w),
            Position::Bottom(w) => crate::ty::braced_string("b", w),
        }
    }
}

/// The vertical line to the left of a column.
#[derive(Clone, Copy, Debug, PartialEq, Eq, Structural)]
pub enum Separator {
    /// A single vertical line
    Single,
    /// Double vertical lines
    Double,
    /// No vertical lines
    NoLine,
}

/// The separator's marks.
pub open spec fn separator_latex(s: Separator) -> Seq<char> {
    match s {
        Separator::Single => "|"@,
        Separator::Double => "||"@,
        Separator::NoLine => ""@,
    }
}

impl Tex for Separator {
    open spec fn spec_latex(&self) -> Seq<char> {
        separator_latex(*self)
    }

    fn to_latex_string(&self) -> (r: String) {
        match self {
            Separator::Single => String::from_str("|"),
            Separator::Double => String::from_str("||"),
            Separator::NoLine => String::from_str(""),
        }
    }
}

/// A column: its separator and its alignment.
#[derive(Debug)]
pub struct Column {
    /// Position of the column
    pub pos: Position,
    /// Places a separator line to the left
    pub sep: Separator,
}

impl Column {
    pub fn new(pos: Position, sep: Separator) -> (r: Self)
        ensures
            r.pos == pos,
            r.sep == sep,
    {
        Column { pos, sep }
    }
}

/// `<separator> <position>`
pub open spec fn column_latex(c: Column) -> Seq<char> {
    separator_latex(c.sep) + " "@ + position_latex(c.pos)
}

impl Tex for Column {
    open spec fn spec_latex(&self) -> Seq<char> {
        column_latex(*self)
    }

    fn to_latex_string(&self) -> (r: String) {
        let mut r = self.sep.to_latex_string();
        r.append(" ");
        let p = self.pos.to_latex_string();
        r.append(p.as_str());
        r
    }
}

/// The column specifiers, then a closing `|`, separated by spaces.
pub open spec fn columns_latex(cols: Seq<Column>) -> Seq<char> {
    join(cols.map_values(|c: Column| column_latex(c)) + seq!["|"@], " "@)
}

impl Tex for Vec<Column> {
    open spec fn spec_latex(&self) -> Seq<char> {
        columns_latex(self@)
    }

    fn to_latex_string(&self) -> (r: String) {
        let mut parts: Vec<String> = Vec::new();
        let mut i: usize = 0;
        while i < self.len()
            invariant
                0 <= i <= self@.len(),
                views(parts@) =~= self@.take(i as int).map_values(|c: Column| column_latex(c)),
            decreases self@.len() - i,
        {
            let t = self[i].to_latex_string();
            proof {
                lemma_views_push(parts@, t);
                assert(self@.take(i + 1) =~= self@.take(i as int).push(self@[i as int]));
            }
            parts.push(t);
            i = i + 1;
        }
        let bar = String::from_str("|");
        proof {
            lemma_views_push(parts@, bar);
            assert(self@.take(self@.len() as int) =~= self@);
        }
        parts.push(bar);
        proof {
            assert(views(parts@) =~= self@.map_values(|c: Column| column_latex(c)) + seq!["|"@]);
        }
        join_strings(&parts, " ")
    }
}

/// The cells' texts separated by ` & `, then two spaces and `\\`.
pub open spec fn row_latex(elements: Seq<Element>) -> Seq<char> {
    join(elements.map_values(|e: Element| e.latex@), " & "@) + "  \\\\"@
}

/// A row of cells.
#[derive(Debug)]
pub struct Row {
    /// Elements inside of the row
    pub elements: Vec<Element>,
}

impl Row {
    pub fn new(elements: Vec<Element>) -> (r: Self)
        ensures
            r.elements@ == elements@,
    {
        Row { elements }
    }

    /// The row's text; a row has at least one cell.
    pub fn to_latex_string(&self) -> (r: String)
        requires
            self.elements@.len() > 0,
        ensures
            r@ == row_latex(self.elements@),
    {
        let mut cells: Vec<String> = Vec::new();
        let mut i: usize = 0;
        while i < self.elements.len()
            invariant
                0 <= i <= self.elements@.len(),
                views(cells@) =~= self.elements@.take(i as int).map_values(|e: Element| e.latex@),
            decreases self.elements@.len() - i,
        {
            let t = self.elements[i].latex.clone();
            proof {
                lemma_views_push(cells@, t);
                assert(self.elements@.take(i + 1) =~= self.elements@.take(i as int).push(
                    self.elements@[i as int],
                ));
            }
            cells.push(t);
            i = i + 1;
        }
        proof {
            assert(self.elements@.take(self.elements@.len() as int) =~= self.elements@);
        }
        let mut r = join_strings(&cells, " & ");
        r.append("  \\\\");
        r
    }

    /// The row as plain text of the document body.
    pub fn to_element(&self) -> (r: Element)
        requires
            self.elements@.len() > 0,
        ensures
            r.wf(),
            is_erased(r, row_latex(self.elements@), Type::T_Text, Level::Document,
                row_latex(self.elements@), false),
            r.value.text_type == Some(TextType::Normal),
    {
        let s = self.to_latex_string();
        let text = Text::new(s.as_str(), TextType::Normal);
        Element::from_text(text)
    }
}

/// One row for each vector of elements, in order.
pub fn vec_to_rows(vec: Vec<Vec<Element>>) -> (r: Vec<Row>)
    ensures
        r@.len() == vec@.len(),
        forall|i: int| 0 <= i < vec@.len() ==> (#[trigger] r@[i]).elements@ == vec@[i]@,
{
    let mut rest = vec;
    let mut rows: Vec<Row> = Vec::new();
    while rest.len() > 0
        invariant
            rows@.len() + rest@.len() == vec@.len(),
            forall|i: int| 0 <= i < rows@.len() ==> (#[trigger] rows@[i]).elements@ == vec@[i]@,
            forall|i: int| 0 <= i < rest@.len() ==> #[trigger] rest@[i] == vec@[rows@.len() + i],
        decreases rest.len(),
    {
        let v = rest.remove(0);
        rows.push(Row::new(v));
    }
    rows
}

/// The name of the table environment: `tabular*` for the extension, else `tabular`.
pub open spec fn table_env_name(extension: bool) -> Seq<char> {
    if extension {
        "tabular*"@
    } else {
        "tabular"@
    }
}

/// What follows `\begin{..}`: the width when the extension has one, then the columns.
pub open spec fn table_suffix(t: Table) -> Seq<char> {
    let cols = "{"@ + columns_latex(t.col_pos@) + "}"@;
    if t.extension && t.width is Some {
        "{"@ + t.width.unwrap()@ + "\\textwidth"@ + "}"@ + cols
    } else {
        cols
    }
}

/// `elements` holds, for each row, an `\hline` then the row, as plain text.
pub open spec fn table_children(elements: Seq<Element>, rows: Seq<Row>) -> bool {
    &&& elements.len() == 2 * rows.len()
    &&& forall|i: int|
        0 <= i < rows.len() ==> is_erased(
            #[trigger] elements[2 * i],
            "\\hline"@,
            Type::T_Text,
            Level::Document,
            "\\hline"@,
            false,
        )
    &&& forall|i: int|
        0 <= i < rows.len() ==> is_erased(
            #[trigger] elements[2 * i + 1],
            row_latex(rows[i].elements@),
            Type::T_Text,
            Level::Document,
            row_latex(rows[i].elements@),
            false,
        )
}

/// A table: rows, column specifiers, whether it uses the `tabular*` extension (with an
/// optional width, a fraction of the text width written as text) and whether the
/// `array` and `tabularx` packages come with it.
#[derive(Debug)]
pub struct Table {
    pub rows: Vec<Row>,
    pub col_pos: Vec<Column>,
    pub extension: bool,
    pub op_pkgs: bool,
    pub width: Option<String>,
}

impl Table {
    pub fn new(
        width: Option<String>,
        col_pos: Vec<Column>,
        rows: Vec<Row>,
        extension: bool,
        op_pkgs: bool,
    ) -> (r: Self)
        ensures
            r.width == width,
            r.col_pos@ == col_pos@,
            r.rows@ == rows@,
            r.extension == extension,
            r.op_pkgs == op_pkgs,
    {
        Table { width, col_pos, rows, extension, op_pkgs }
    }

    /// The empty table environment.
    fn get_env(&self) -> (r: Environment)
        ensures
            r.name@ == table_env_name(self.extension),
            r.elements@.len() == 0,
    {
        if self.extension {
            Environment::new("tabular*")
        } else {
            Environment::new("tabular")
        }
    }

    /// The table environment: each row preceded by `\hline`, and the width and column
    /// specifiers after the opening `\begin{..}`. Every row has at least one cell.
    pub fn build_table(&self) -> (r: Environment)
        requires
            forall|i: int| 0 <= i < self.rows@.len() ==> (#[trigger] self.rows@[i]).elements@.len() > 0,
        ensures
            r.name@ == table_env_name(self.extension),
            table_children(r.elements@, self.rows@),
            r.latex@ == environment_block(
                begin_latex(table_env_name(self.extension)) + table_suffix(*self),
                r.elements@,
                table_env_name(self.extension),
            ),
            r.modified,
    {
        let mut env = self.get_env();
        let mut i: usize = 0;
        while i < self.rows.len()
            invariant
                0 <= i <= self.rows@.len(),
                forall|k: int| 0 <= k < self.rows@.len() ==> (#[trigger] self.rows@[k]).elements@.len() > 0,
                env.name@ == table_env_name(self.extension),
                table_children(env.elements@, self.rows@.take(i as int)),
            decreases self.rows@.len() - i,
        {
            let ghost before = env.elements@;
            let hline = Text::new("\\hline", TextType::Normal);
            env.push(Element::from_text(hline));
            env.push(self.rows[i].to_element());
            proof {
                let rows = self.rows@.take(i + 1);
                assert forall|k: int| 0 <= k < rows.len() implies is_erased(
                    #[trigger] env.elements@[2 * k],
                    "\\hline"@,
                    Type::T_Text,
                    Level::Document,
                    "\\hline"@,
                    false,
                ) by {
                    if k < i {
                        assert(env.elements@[2 * k] == before[2 * k]);
                    }
                }
                assert forall|k: int| 0 <= k < rows.len() implies is_erased(
                    #[trigger] env.elements@[2 * k + 1],
                    row_latex(rows[k].elements@),
                    Type::T_Text,
                    Level::Document,
                    row_latex(rows[k].elements@),
                    false,
                ) by {
                    if k < i {
                        assert(env.elements@[2 * k + 1] == before[2 * k + 1]);
                        assert(rows[k] == self.rows@.take(i as int)[k]);
                    }
                }
            }
            i = i + 1;
        }
        proof {
            assert(self.rows@.take(self.rows@.len() as int) =~= self.rows@);
        }
        let cols = self.col_pos.to_latex_string();
        let ghost cols_text = cols@;
        let ghost begin = begin_latex(table_env_name(self.extension));
        let mut options: Vec<Options> = Vec::new();
        if self.extension {
            match &self.width {
                Some(w) => {
                    let mut s = w.clone();
                    s.append("\\textwidth");
                    options.push(Options::Curly(s));
                },
                None => {},
            }
        }
        let ghost first = options@;
        options.push(Options::Curly(cols));
        proof {
            assert(options@.drop_last() =~= first);
            assert(apply_options(begin, Seq::<Options>::empty()) == begin);
            if first.len() == 1 {
                assert(first.drop_last() =~= Seq::<Options>::empty());
                assert(first.last() == first[0]);
                assert(apply_options(begin, first) == begin + option_suffix(first[0]));
            } else {
                assert(first =~= Seq::<Options>::empty());
            }
            assert(apply_options(begin, Seq::<Options>::empty()) == begin);
            assert(apply_options(begin, options@) =~= begin + table_suffix(*self));
        }
        env.modify_element(options);
        env
    }

    /// The table as elements: the `array` and `tabularx` packages first when asked for,
    /// then the table environment.
    pub fn build(&self) -> (r: Vec<Element>)
        requires
            forall|i: int| 0 <= i < self.rows@.len() ==> (#[trigger] self.rows@[i]).elements@.len() > 0,
        ensures
            r@.len() == if self.op_pkgs { 3int } else { 1int },
            self.op_pkgs ==> is_erased(r@[0], "array"@, Type::T_Package, Level::Packages,
                package_latex("array"@), false),
            self.op_pkgs ==> is_erased(r@[1], "tabularx"@, Type::T_Package, Level::Packages,
                package_latex("tabularx"@), false),
            r@.last().type_ == Type::T_Environment,
            r@.last().level == Level::Document,
            r@.last().modified,
            r@.last().value.value@ == table_env_name(self.extension),
            r@.last().value.elements matches Some(els) && table_children(els@, self.rows@)
                && r@.last().latex@ == environment_block(
                begin_latex(table_env_name(self.extension)) + table_suffix(*self),
                els@,
                table_env_name(self.extension),
            ),
    {
        let mut out: Vec<Element> = Vec::new();
        if self.op_pkgs {
            out.push(Element::from_package(Package::new("array")));
            out.push(Element::from_package(Package::new("tabularx")));
        }
        out.push(Element::from_environment(self.build_table()));
        out
    }
}

} // verus!
