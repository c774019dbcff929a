//! Output modes, position labels and the table a query hands to its caller.

use vstd::prelude::*;
use vstd::string::*;

verus! {

/// How the result of a query is rendered.
#[derive(Clone, Copy, Debug, PartialEq, Eq, Structural)]
pub enum OutputFormat {
    /// For people: positions are padded to line up under "Now".
    Human,
    /// For programs: plain values.
    Machine,
    /// Nothing is shown; listings are not even computed.
    Silent,
}

/// What a query shows: the names of the columns, and one row of texts for
/// each item or value shown.
#[derive(Clone, Debug, PartialEq, Eq)]
pub struct Table {
    pub headers: Vec<String>,
    pub rows: Vec<Vec<String>>,
}

/// The texts that a sequence of strings holds.
pub open spec fn texts(strings: Seq<String>) -> Seq<Seq<char>> {
    Seq::new(strings.len(), |j: int| strings[j]@)
}

/// The mathematical value of a [`Table`].
pub ghost struct TableView {
    pub headers: Seq<Seq<char>>,
    pub rows: Seq<Seq<Seq<char>>>,
}

impl View for Table {
    type V = TableView;

    open spec fn view(&self) -> TableView {
        TableView {
            headers: texts(self.headers@),
            rows: Seq::new(self.rows@.len(), |i: int| texts(self.rows@[i]@)),
        }
    }
}

/// The character that stands for a single decimal digit.
pub open spec fn digit_char(d: nat) -> char
    recommends
        d < 10,
{
    if d == 0 {
        '0'
    } else if d == 1 {
        '1'
    } else if d == 2 {
        '2'
    } else if d == 3 {
        '3'
    } else if d == 4 {
        '4'
    } else if d == 5 {
        '5'
    } else if d == 6 {
        '6'
    } else if d == 7 {
        '7'
    } else if d == 8 {
        '8'
    } else {
        '9'
    }
}

/// The decimal numeral of `n`: most significant digit first, no leading zero
/// (except for zero itself).
pub open spec fn decimal(n: nat) -> Seq<char>
    decreases n,
{
    if n < 10 {
        seq![digit_char(n)]
    } else {
        decimal(n / 10).push(digit_char(n % 10))
    }
}

/// The label under which position `position` is shown.
///
/// People see "Now" for the top of the stack and numbers padded to three
/// columns below it; every other mode sees the plain numeral.
pub open spec fn position_label(output: OutputFormat, position: nat) -> Seq<char> {
    if output == OutputFormat::Human {
        if position == 0 {
            "Now"@
        } else if position <= 9 {
            "  "@ + decimal(position)
        } else if position <= 99 {
            " "@ + decimal(position)
        } else {
            decimal(position)
        }
    } else {
        decimal(position)
    }
}

fn digit_str(d: usize) -> (s: &'static str)
    requires
        d < 10,
    ensures
        s@ == seq![digit_char(d as nat)],
{
    proof {
        reveal_strlit("0");
        reveal_strlit("1");
        reveal_strlit("2");
        reveal_strlit("3");
        reveal_strlit("4");
        reveal_strlit("5");
        reveal_strlit("6");
        reveal_strlit("7");
        reveal_strlit("8");
        reveal_strlit("9");
    }
    let s: &'static str = match d {
        0 => "0",
        1 => "1",
        2 => "2",
        3 => "3",
        4 => "4",
        5 => "5",
        6 => "6",
        7 => "7",
        8 => "8",
        _ => "9",
    };
    assert(s@ =~= seq![digit_char(d as nat)]);
    s
}

/// Writes `n` as a decimal numeral.
pub fn decimal_string(n: usize) -> (s: String)
    ensures
        s@ == decimal(n as nat),
    decreases n,
{
    if n < 10 {
        String::from_str(digit_str(n))
    } else {
        let mut s: String = decimal_string(n / 10);
        s.append(digit_str(n % 10));
        assert(s@ =~= decimal(n as nat));
        s
    }
}

/// Renders the label of a display position for the given output mode.
pub fn position_string(output: OutputFormat, position: usize) -> (label: String)
    ensures
        label@ == position_label(output, position as nat),
{
    match output {
        OutputFormat::Human => {
            if position == 0 {
                let label: String = String::from_str("Now");
                assert(label@ =~= position_label(output, position as nat));
                label
            } else if position <= 9 {
                let mut label: String = String::from_str("  ");
                let digits: String = decimal_string(position);
                label.append(digits.as_str());
                assert(label@ =~= position_label(output, position as nat));
                label
            } else if position <= 99 {
                let mut label: String = String::from_str(" ");
                let digits: String = decimal_string(position);
                label.append(digits.as_str());
                assert(label@ =~= position_label(output, position as nat));
                label
            } else {
                decimal_string(position)
            }
        },
        _ => decimal_string(position),
    }
}

/// How many digits a numeral has: one below ten, two below a hundred, three
/// below a thousand, and more from there on.
pub proof fn decimal_len(n: nat)
    ensures
        n < 10 ==> decimal(n).len() == 1,
        10 <= n < 100 ==> decimal(n).len() == 2,
        100 <= n < 1000 ==> decimal(n).len() == 3,
        1000 <= n ==> decimal(n).len() >= 4,
    decreases n,
{
    if n >= 10 {
        decimal_len(n / 10);
    }
}

/// For people every label is at least as wide as "Now", and exactly as wide
/// up to position 999, so that the labels of a listing line up.
pub proof fn human_labels_line_up(position: nat)
    ensures
        position_label(OutputFormat::Human, position).len() >= 3,
        position < 1000 ==> position_label(OutputFormat::Human, position).len() == 3,
{
    reveal_strlit("Now");
    reveal_strlit("  ");
    reveal_strlit(" ");
    decimal_len(position);
}

/// Padding adds blanks in front and changes no digit: below the top, a label
/// is blanks followed by the numeral of the position.
pub proof fn labels_end_in_the_numeral(output: OutputFormat, position: nat)
    requires
        output != OutputFormat::Human || position > 0,
    ensures
        ({
            let label = position_label(output, position);
            let blanks = label.len() - decimal(position).len();
            &&& 0 <= blanks <= 2
            &&& label.subrange(blanks, label.len() as int) == decimal(position)
            &&& forall|i: int| 0 <= i < blanks ==> label[i] == ' '
        }),
{
    reveal_strlit("  ");
    reveal_strlit(" ");
    let label = position_label(output, position);
    let blanks = label.len() - decimal(position).len();
    assert(label.subrange(blanks, label.len() as int) =~= decimal(position));
}

} // verus!
