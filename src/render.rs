use vstd::prelude::*;

verus! {

/// One row of the menu as it is drawn.
#[derive(Clone, Debug)]
pub struct MenuLine {
    pub text: String,
    pub highlighted: bool,
}

/// The text of a row: a marker for the highlighted row, a blank prefix of
/// the same width otherwise, then the option and a line break.
pub open spec fn line_text(option: Seq<char>, highlighted: bool) -> Seq<char> {
    (if highlighted {
        "> "@
    } else {
        "  "@
    }) + option + "\n"@
}

/// The rows that show `options` with the row `cursor` highlighted. Drawing
/// them at rows `0..options.len()` and leaving the terminal cursor on the row
/// below gives the menu frame.
pub fn menu_lines(options: &Vec<String>, cursor: usize) -> (r: Vec<MenuLine>)
    ensures
        r@.len() == options@.len(),
        forall|i: int|
            0 <= i < r@.len() ==> {
                &&& (#[trigger] r@[i]).highlighted == (i == cursor)
                &&& r@[i].text@ == line_text(options@[i]@, i == cursor)
            },
{
    let mut r: Vec<MenuLine> = Vec::new();
    let mut i: usize = 0;
    while i < options.len()
        invariant
            i <= options@.len(),
            r@.len() == i,
            forall|j: int|
                0 <= j < i ==> {
                    &&& (#[trigger] r@[j]).highlighted == (j == cursor)
                    &&& r@[j].text@ == line_text(options@[j]@, j == cursor)
                },
        decreases options@.len() - i,
    {
        let highlighted = i == cursor;
        let prefix = if highlighted {
            "> "
        } else {
            "  "
        };
        let text = prefix.to_owned().concat(options[i].as_str()).concat("\n");
        r.push(MenuLine { text, highlighted });
        i = i + 1;
    }
    r
}

} // verus!
