use vstd::prelude::*;
use vstd::string::StrSliceExecFns;
use prettytable::format::Alignment;
use prettytable::Cell;
use crate::decimal::{decimal_text, to_decimal};
use crate::pattern::{regex_finds, Pattern};

verus! {

#[verifier::external_type_specification]
#[verifier::external_body]
pub struct ExCell(prettytable::Cell);

/// Horizontal alignment of a cell's text.
#[derive(Clone, Copy, Debug, PartialEq, Eq, Structural)]
pub enum Align {
    Left,
    Center,
    Right,
}

/// A display attribute of a cell, as the terminal applies it; colours are
/// terminal colour numbers.
#[derive(Clone, Copy, Debug, PartialEq, Eq, Structural)]
pub enum StyleAttr {
    Bold,
    Dim,
    Italic(bool),
    Underline(bool),
    Blink,
    Standout(bool),
    Reverse,
    Secure,
    ForegroundColor(u32),
    BackgroundColor(u32),
}

/// What a cell shows: the row's position, borrowed text, or owned text.
pub enum CellSpecTxt<'a> {
    Index,
    Str(&'a str),
    String(String),
}

/// The content of one table cell, with an optional style and alignment.
pub struct CellSpec<'a> {
    pub txt: CellSpecTxt<'a>,
    pub style: Option<&'a str>,
    pub align: Option<Align>,
}

/// A cell rendered for a given row position: its text, and the style and
/// alignment to apply to it.
pub struct RenderedCell<'a> {
    pub text: String,
    pub style: Option<&'a str>,
    pub align: Option<Align>,
}

/// Number of decimal digits at the start of `s`.
pub open spec fn leading_digits(s: Seq<char>) -> nat
    decreases s.len(),
{
    if s.len() > 0 && is_digit(s[0]) {
        1 + leading_digits(s.drop_first())
    } else {
        0
    }
}

/// Value of the decimal digits `s`.
pub open spec fn digits_value(s: Seq<char>) -> nat
    decreases s.len(),
{
    if s.len() == 0 {
        0
    } else {
        digits_value(s.drop_last()) * 10 + ((s.last() as nat) - ('0' as nat)) as nat
    }
}

/// Whether a style spec (letters such as `b`, `Fr`, `H2`) can be applied to a
/// cell: each `H` that is not a colour letter must be followed by a span
/// written in decimal digits that fits in `usize`.
pub open spec fn style_spec_ok(s: Seq<char>) -> bool
    decreases s.len(),
{
    if s.len() == 0 {
        true
    } else if s[0] == 'F' || s[0] == 'B' {
        s.len() == 1 || style_spec_ok(s.subrange(2, s.len() as int))
    } else if s[0] == 'H' {
        let k = leading_digits(s.drop_first()) as int;
        0 < k < s.len() && digits_value(s.subrange(1, 1 + k)) <= usize::MAX && style_spec_ok(
            s.subrange(1 + k, s.len() as int),
        )
    } else {
        style_spec_ok(s.drop_first())
    }
}

/// Whether `c` is a decimal digit.
pub open spec fn is_digit(c: char) -> bool {
    '0' <= c && c <= '9'
}

proof fn lemma_leading_digits(u: Seq<char>, k: int)
    requires
        0 <= k <= u.len(),
        forall|m: int| 0 <= m < k ==> is_digit(#[trigger] u[m]),
        k == u.len() || !is_digit(u[k]),
    ensures
        leading_digits(u) == k,
    decreases k,
{
    if k > 0 {
        lemma_leading_digits(u.drop_first(), k - 1);
    }
}

fn digit_value(c: char) -> (r: usize)
    requires
        is_digit(c),
    ensures
        r as nat == (c as nat) - ('0' as nat),
        r < 10,
{
    (c as u32 - '0' as u32) as usize
}

/// Whether the style spec can be applied to a cell: see `style_spec_ok`.
pub fn style_spec_is_valid(spec: &str) -> (r: bool)
    ensures
        r == style_spec_ok(spec@),
{
    let ghost s = spec@;
    let n = spec.unicode_len();
    let mut i: usize = 0;
    assert(s.subrange(0, n as int) =~= s);
    while i < n
        invariant
            s == spec@,
            n == s.len(),
            i <= n,
            style_spec_ok(s) == style_spec_ok(s.subrange(i as int, n as int)),
        decreases n - i,
    {
        let ghost t = s.subrange(i as int, n as int);
        let c = spec.get_char(i);
        assert(t[0] == c);
        if c == 'F' || c == 'B' {
            if i + 1 == n {
                return true;
            }
            assert(t.subrange(2, t.len() as int) =~= s.subrange(i + 2, n as int));
            i = i + 2;
        } else if c == 'H' {
            let mut j: usize = i + 1;
            let mut value: usize = 0;
            let mut overflow = false;
            let ghost u = t.drop_first();
            assert(u =~= s.subrange(i + 1, n as int));
            while j < n && is_digit_char(spec.get_char(j))
                invariant
                    s == spec@,
                    n == s.len(),
                    i < j <= n,
                    u == s.subrange(i + 1, n as int),
                    forall|m: int| 0 <= m < j - (i + 1) ==> is_digit(#[trigger] u[m]),
                    overflow ==> digits_value(u.subrange(0, j - (i + 1))) > usize::MAX,
                    !overflow ==> value as nat == digits_value(u.subrange(0, j - (i + 1))),
                decreases n - j,
            {
                let d = digit_value(spec.get_char(j));
                let ghost prev = u.subrange(0, j - (i + 1));
                let ghost next = u.subrange(0, j + 1 - (i + 1));
                assert(next.drop_last() =~= prev);
                assert(next.last() == s[j as int]);
                if !overflow {
                    if value > (usize::MAX - d) / 10 {
                        overflow = true;
                        assert(digits_value(next) > usize::MAX) by (nonlinear_arith)
                            requires
                                digits_value(next) == digits_value(prev) * 10 + d,
                                digits_value(prev) == value,
                                value > (usize::MAX - d) / 10,
                                d < 10,
                        ;
                    } else {
                        assert(value * 10 + d <= usize::MAX) by (nonlinear_arith)
                            requires
                                value <= (usize::MAX - d) / 10,
                                d < 10,
                        ;
                        value = value * 10 + d;
                    }
                } else {
                    assert(digits_value(next) >= digits_value(prev)) by (nonlinear_arith)
                        requires
                            digits_value(next) == digits_value(prev) * 10 + d,
                    ;
                }
                j = j + 1;
            }
            let k: usize = j - (i + 1);
            proof {
                if j < n {
                    assert(u[k as int] == s[j as int]);
                }
                lemma_leading_digits(u, k as int);
                assert(t.subrange(1, 1 + k) =~= u.subrange(0, k as int));
                assert(t.subrange(1 + k, t.len() as int) =~= s.subrange(j as int, n as int));
            }
            if k == 0 || overflow {
                return false;
            }
            i = j;
        } else {
            assert(t.drop_first() =~= s.subrange(i + 1, n as int));
            i = i + 1;
        }
    }
    assert(s.subrange(n as int, n as int) =~= Seq::<char>::empty());
    true
}

fn is_digit_char(c: char) -> (r: bool)
    ensures
        r == is_digit(c),
{
    '0' <= c && c <= '9'
}

/// What a cell holds: its lines of text, in order.
pub uninterp spec fn cell_lines(c: Cell) -> Seq<Seq<char>>;

/// The lines that `Cell::new` splits `text` into (as `str::lines` does).
pub uninterp spec fn lines_of(text: Seq<char>) -> Seq<Seq<char>>;

/// Whether `text` is one line: non-empty, with no line break in it.
pub open spec fn single_line(text: Seq<char>) -> bool {
    text.len() > 0 && forall|i: int| 0 <= i < text.len() ==> text[i] != '\n' && text[i] != '\r'
}

/// The alignment of a cell.
pub uninterp spec fn cell_alignment(c: Cell) -> Align;

/// The display attributes of a cell, in the order they were added.
pub uninterp spec fn cell_attrs(c: Cell) -> Seq<StyleAttr>;

/// The number of columns a cell spans.
pub uninterp spec fn cell_hspan(c: Cell) -> nat;

/// The attributes that `Cell::style_spec` gives a cell for `spec`: it first
/// clears the cell's attributes, so they depend on the spec alone.
pub uninterp spec fn style_attrs(spec: Seq<char>) -> Seq<StyleAttr>;

/// The alignment that `Cell::style_spec` leaves for `spec`: it first resets
/// the cell to left alignment, so it depends on the spec alone.
pub uninterp spec fn style_alignment(spec: Seq<char>) -> Align;

/// The span that `Cell::style_spec` leaves for `spec` on a cell that
/// spanned `before` columns.
pub uninterp spec fn style_hspan(spec: Seq<char>, before: nat) -> nat;

/// What a cell is made of: its lines, attributes, alignment and span.
pub type CellView = (Seq<Seq<char>>, Seq<StyleAttr>, Align, nat);

/// The view of a cell.
pub open spec fn cell_view(c: Cell) -> CellView {
    (cell_lines(c), cell_attrs(c), cell_alignment(c), cell_hspan(c))
}

/// The lines a cell built from `text` holds: `text` itself when it is a
/// single line.
pub open spec fn shown_lines(text: Seq<char>) -> Seq<Seq<char>> {
    if single_line(text) {
        seq![text]
    } else {
        lines_of(text)
    }
}

/// Relies on `prettytable::Cell::new`: a left-aligned cell with no
/// attributes, spanning one column, holding the lines of `text`; a text
/// without line breaks is a single line.
#[verifier::external_body]
fn cell_new(text: &str) -> (r: Cell)
    ensures
        cell_lines(r) == lines_of(text@),
        single_line(text@) ==> cell_lines(r) == seq![text@],
        cell_alignment(r) == Align::Left,
        cell_attrs(r) == Seq::<StyleAttr>::empty(),
        cell_hspan(r) == 1,
{
    Cell::new(text)
}

/// Relies on `prettytable::Cell::style_spec`, which sets the attributes,
/// alignment and span of the cell from the spec, keeps its lines, and
/// panics on an `H` that no valid span follows.
#[verifier::external_body]
fn cell_style_spec(cell: Cell, spec: &str) -> (r: Cell)
    requires
        style_spec_ok(spec@),
    ensures
        cell_lines(r) == cell_lines(cell),
        cell_attrs(r) == style_attrs(spec@),
        cell_alignment(r) == style_alignment(spec@),
        cell_hspan(r) == style_hspan(spec@, cell_hspan(cell)),
{
    cell.style_spec(spec)
}

/// Relies on `prettytable::Cell::align`, which sets the alignment and
/// nothing else.
#[verifier::external_body]
fn cell_set_align(cell: &mut Cell, align: Align)
    ensures
        cell_alignment(*final(cell)) == align,
        cell_lines(*final(cell)) == cell_lines(*old(cell)),
        cell_attrs(*final(cell)) == cell_attrs(*old(cell)),
        cell_hspan(*final(cell)) == cell_hspan(*old(cell)),
{
    cell.align(
        match align {
            Align::Left => Alignment::LEFT,
            Align::Center => Alignment::CENTER,
            Align::Right => Alignment::RIGHT,
        },
    )
}

impl<'a> CellSpec<'a> {
    /// The stored text, or `None` for a position cell.
    pub open spec fn content(&self) -> Option<Seq<char>> {
        match self.txt {
            CellSpecTxt::Index => None,
            CellSpecTxt::Str(s) => Some(s@),
            CellSpecTxt::String(s) => Some(s@),
        }
    }

    /// Whether the stored text is borrowed from the caller.
    pub open spec fn is_borrowed(&self) -> bool {
        self.txt is Str
    }

    /// The text shown for this cell in the row at `position`.
    pub open spec fn rendered_text(&self, position: nat) -> Seq<char> {
        match self.content() {
            None => decimal_text(position),
            Some(t) => t,
        }
    }

    /// Whether the cell matches the regex compiled from `pattern`; a position
    /// cell never does.
    pub open spec fn matches_spec(&self, pattern: Seq<char>) -> bool {
        match self.content() {
            None => false,
            Some(t) => regex_finds(pattern, t),
        }
    }

    /// The style spec that `to_cell` applies: the cell's style when it is
    /// valid, none otherwise.
    pub open spec fn applied_style(&self) -> Option<Seq<char>> {
        match self.style {
            Some(s) => if style_spec_ok(s@) { Some(s@) } else { None },
            None => None,
        }
    }

    /// The attributes of the cell that `to_cell` builds.
    pub open spec fn cell_attrs_spec(&self) -> Seq<StyleAttr> {
        match self.applied_style() {
            Some(s) => style_attrs(s),
            None => Seq::empty(),
        }
    }

    /// The alignment of the cell that `to_cell` builds: the cell's own
    /// alignment if it has one, else the one its style spec leaves.
    pub open spec fn cell_alignment_spec(&self) -> Align {
        match self.align {
            Some(a) => a,
            None => match self.applied_style() {
                Some(s) => style_alignment(s),
                None => Align::Left,
            },
        }
    }

    /// The span of the cell that `to_cell` builds.
    pub open spec fn cell_hspan_spec(&self) -> nat {
        match self.applied_style() {
            Some(s) => style_hspan(s, 1),
            None => 1,
        }
    }

    /// The view of the cell that `to_cell` builds for the row at `position`.
    pub open spec fn cell_view_spec(&self, position: nat) -> CellView {
        (
            shown_lines(self.rendered_text(position)),
            self.cell_attrs_spec(),
            self.cell_alignment_spec(),
            self.cell_hspan_spec(),
        )
    }

    /// A cell showing `txt`, borrowed from the caller.
    pub fn new(txt: &'a str) -> (r: CellSpec<'a>)
        ensures
            r.content() == Some(txt@),
            r.is_borrowed(),
            r.style is None,
            r.align is None,
    {
        CellSpec { txt: CellSpecTxt::Str(txt), style: None, align: None }
    }

    /// A cell showing `txt`, which it owns.
    pub fn new_owned(txt: String) -> (r: CellSpec<'a>)
        ensures
            r.content() == Some(txt@),
            !r.is_borrowed(),
            r.style is None,
            r.align is None,
    {
        CellSpec { txt: CellSpecTxt::String(txt), style: None, align: None }
    }

    /// A cell showing the position of its row.
    pub fn new_index() -> (r: CellSpec<'a>)
        ensures
            r.content() is None,
            r.style is None,
            r.align is None,
    {
        CellSpec { txt: CellSpecTxt::Index, style: None, align: None }
    }

    /// A cell showing borrowed `txt`, with a style spec.
    pub fn with_style(txt: &'a str, style: &'a str) -> (r: CellSpec<'a>)
        ensures
            r.content() == Some(txt@),
            r.is_borrowed(),
            r.style == Some(style),
            r.align is None,
    {
        CellSpec { txt: CellSpecTxt::Str(txt), style: Some(style), align: None }
    }

    /// A cell showing owned `txt`, with a style spec.
    pub fn with_style_owned(txt: String, style: &'a str) -> (r: CellSpec<'a>)
        ensures
            r.content() == Some(txt@),
            !r.is_borrowed(),
            r.style == Some(style),
            r.align is None,
    {
        CellSpec { txt: CellSpecTxt::String(txt), style: Some(style), align: None }
    }

    /// Renders the cell for the row at `position`: a position cell shows
    /// `position` in decimal, a text cell its text verbatim; style and
    /// alignment are carried over.
    pub fn render(&self, position: usize) -> (r: RenderedCell<'a>)
        ensures
            r.text@ == self.rendered_text(position as nat),
            r.style == self.style,
            r.align == self.align,
    {
        let text = match &self.txt {
            CellSpecTxt::Index => to_decimal(position),
            CellSpecTxt::Str(s) => String::from_str(s),
            CellSpecTxt::String(s) => s.clone(),
        };
        RenderedCell { text, style: self.style, align: self.align }
    }

    /// Builds the table cell for the row at `index`: the rendered text, with
    /// the style spec applied when present and valid (an invalid one is left
    /// out), then the alignment when present.
    pub fn to_cell(&self, index: usize) -> (r: Cell)
        ensures
            cell_lines(r) == lines_of(self.rendered_text(index as nat)),
            cell_lines(r) == shown_lines(self.rendered_text(index as nat)),
            cell_attrs(r) == self.cell_attrs_spec(),
            cell_alignment(r) == self.cell_alignment_spec(),
            cell_hspan(r) == self.cell_hspan_spec(),
    {
        let rendered = self.render(index);
        let mut cell = cell_new(rendered.text.as_str());
        if let Some(style) = rendered.style {
            if style_spec_is_valid(style) {
                cell = cell_style_spec(cell, style);
            }
        }
        if let Some(align) = rendered.align {
            cell_set_align(&mut cell, align);
        }
        cell
    }

    /// Whether the pattern matches somewhere in the cell's text; a position
    /// cell never matches.
    pub fn matches(&self, regex: &Pattern) -> (r: bool)
        ensures
            r == self.matches_spec(regex@),
    {
        match &self.txt {
            CellSpecTxt::Index => false,
            CellSpecTxt::Str(s) => regex.is_match(s),
            CellSpecTxt::String(s) => regex.is_match(s.as_str()),
        }
    }
}

} // verus!
