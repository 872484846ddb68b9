//! The two forests shown side by side: text rows with nested children on the
//! left, picture rows on the right.
use vstd::prelude::*;

verus! {

/// How many top-level rows each pane holds.
pub const TOP_LEVEL_ROWS: usize = 10;

/// A row of the text forest: a label and the rows nested under it, in
/// insertion order.
#[derive(Debug)]
pub struct TextRow {
    pub label: String,
    pub children: Vec<TextRow>,
}

/// A row of the picture list: an image column, unset when no image could be
/// had, and a label column.
#[derive(Debug)]
pub struct PictureRow<I> {
    pub icon: Option<I>,
    pub label: String,
}

/// The character of a decimal digit.
pub open spec fn digit_char(d: nat) -> char {
    if d == 0 { '0' }
    else if d == 1 { '1' }
    else if d == 2 { '2' }
    else if d == 3 { '3' }
    else if d == 4 { '4' }
    else if d == 5 { '5' }
    else if d == 6 { '6' }
    else if d == 7 { '7' }
    else if d == 8 { '8' }
    else { '9' }
}

/// The decimal notation of `n`, without sign or leading zeros.
pub open spec fn decimal(n: nat) -> Seq<char>
    decreases n,
{
    if n < 10 {
        seq![digit_char(n)]
    } else {
        decimal(n / 10).push(digit_char(n % 10))
    }
}

/// The label of the top-level text row at `i`.
pub open spec fn hello_label_spec(i: nat) -> Seq<char> {
    seq!['H', 'e', 'l', 'l', 'o', ' '] + decimal(i)
}

/// The label of every nested text row.
pub open spec fn child_label_spec() -> Seq<char> {
    seq!['I', '\'', 'm', ' ', 'a', ' ', 'c', 'h', 'i', 'l', 'd', ' ', 'n', 'o', 'd', 'e']
}

/// The label of every picture row.
pub open spec fn picture_label_spec() -> Seq<char> {
    child_label_spec() + seq![' ', 'w', 'i', 't', 'h', ' ', 'a', 'n', ' ', 'i', 'm', 'a', 'g', 'e']
}

/// A text row with the given label and `n` children, each labelled with the
/// child label and without children of its own.
pub open spec fn is_text_row_with_children(row: TextRow, label: Seq<char>, n: nat) -> bool {
    &&& row.label@ == label
    &&& row.children@.len() == n
    &&& forall|j: int| 0 <= j < n ==> {
        &&& (#[trigger] row.children@[j]).label@ == child_label_spec()
        &&& row.children@[j].children@.len() == 0
    }
}

/// The text forest: top-level row `i` is labelled `Hello i` and holds `i`
/// children, for each `i` below the row count.
pub open spec fn is_left_forest(rows: Seq<TextRow>) -> bool {
    &&& rows.len() == TOP_LEVEL_ROWS
    &&& forall|i: int| 0 <= i < rows.len() ==>
        is_text_row_with_children(#[trigger] rows[i], hello_label_spec(i as nat), i as nat)
}

/// The picture list: the row count of rows, each labelled with the picture
/// label, each with an image exactly when `image` holds one, and then a
/// clone of it.
pub open spec fn is_right_list<I: Clone>(rows: Seq<PictureRow<I>>, image: Option<I>) -> bool {
    &&& rows.len() == TOP_LEVEL_ROWS
    &&& forall|i: int| 0 <= i < rows.len() ==> {
        &&& (#[trigger] rows[i]).label@ == picture_label_spec()
        &&& rows[i].icon.is_some() == image.is_some()
        &&& image.is_some() ==> cloned(image.unwrap(), rows[i].icon.unwrap())
    }
}

/// The string of a decimal digit.
fn digit_str(d: usize) -> (r: &'static str)
    requires
        d < 10,
    ensures
        r@ == seq![digit_char(d as nat)],
{
    proof {
        reveal_strlit("0");
        reveal_strlit("1");
        reveal_strlit("2");
        reveal_strlit("3");
        reveal_strlit("4");
        reveal_strlit("5");
        reveal_strlit("6");
        reveal_strlit("7");
        reveal_strlit("8");
        reveal_strlit("9");
    }
    let r = if d == 0 { "0" }
    else if d == 1 { "1" }
    else if d == 2 { "2" }
    else if d == 3 { "3" }
    else if d == 4 { "4" }
    else if d == 5 { "5" }
    else if d == 6 { "6" }
    else if d == 7 { "7" }
    else if d == 8 { "8" }
    else { "9" };
    assert(r@ =~= seq![digit_char(d as nat)]);
    r
}

/// Appends the decimal notation of `n` to `s`.
pub fn push_decimal(s: &mut String, n: usize)
    ensures
        final(s)@ == old(s)@ + decimal(n as nat),
    decreases n,
{
    if n >= 10 {
        push_decimal(s, n / 10);
    }
    s.append(digit_str(n % 10));
    proof {
        if n >= 10 {
            assert(old(s)@ + decimal(n as nat) =~= old(s)@ + decimal((n / 10) as nat) + seq![digit_char((n % 10) as nat)]);
        } else {
            assert(decimal(n as nat) =~= seq![digit_char((n % 10) as nat)]);
        }
    }
}

/// The label of the top-level text row at `i`: `Hello ` followed by `i` in
/// decimal.
pub fn hello_label(i: usize) -> (r: String)
    ensures
        r@ == hello_label_spec(i as nat),
{
    proof {
        reveal_strlit("Hello ");
    }
    let mut s = String::from_str("Hello ");
    push_decimal(&mut s, i);
    assert(s@ =~= hello_label_spec(i as nat));
    s
}

/// The label of every nested text row.
pub fn child_label() -> (r: String)
    ensures
        r@ == child_label_spec(),
{
    proof {
        reveal_strlit("I'm a child node");
    }
    let r = String::from_str("I'm a child node");
    assert(r@ =~= child_label_spec());
    r
}

/// The label of every picture row.
pub fn picture_label() -> (r: String)
    ensures
        r@ == picture_label_spec(),
{
    proof {
        reveal_strlit("I'm a child node with an image");
    }
    let r = String::from_str("I'm a child node with an image");
    assert(r@ =~= picture_label_spec());
    r
}

/// A text row labelled `label` with `n` children that carry the child label.
pub fn text_row_with_children(label: String, n: usize) -> (r: TextRow)
    ensures
        is_text_row_with_children(r, label@, n as nat),
{
    let mut children: Vec<TextRow> = Vec::new();
    let mut j: usize = 0;
    while j < n
        invariant
            j <= n,
            children@.len() == j,
            forall|k: int| 0 <= k < j ==> {
                &&& (#[trigger] children@[k]).label@ == child_label_spec()
                &&& children@[k].children@.len() == 0
            },
        decreases n - j,
    {
        children.push(TextRow { label: child_label(), children: Vec::new() });
        j = j + 1;
    }
    TextRow { label, children }
}

/// Builds the text forest shown in the left pane.
pub fn build_left_store() -> (r: Vec<TextRow>)
    ensures
        is_left_forest(r@),
{
    let mut rows: Vec<TextRow> = Vec::new();
    let mut i: usize = 0;
    while i < TOP_LEVEL_ROWS
        invariant
            i <= TOP_LEVEL_ROWS,
            rows@.len() == i,
            forall|k: int| 0 <= k < i ==>
                is_text_row_with_children(#[trigger] rows@[k], hello_label_spec(k as nat), k as nat),
        decreases TOP_LEVEL_ROWS - i,
    {
        let row = text_row_with_children(hello_label(i), i);
        rows.push(row);
        i = i + 1;
    }
    rows
}

/// Builds the picture list shown in the right pane, every row carrying a
/// clone of `image`, or no image when `image` is `None`.
pub fn build_right_store<I: Clone>(image: &Option<I>) -> (r: Vec<PictureRow<I>>)
    ensures
        is_right_list(r@, *image),
{
    let mut rows: Vec<PictureRow<I>> = Vec::new();
    let mut i: usize = 0;
    while i < TOP_LEVEL_ROWS
        invariant
            i <= TOP_LEVEL_ROWS,
            rows@.len() == i,
            forall|k: int| 0 <= k < i ==> {
                &&& (#[trigger] rows@[k]).label@ == picture_label_spec()
                &&& rows@[k].icon.is_some() == image.is_some()
                &&& image.is_some() ==> cloned(image.unwrap(), rows@[k].icon.unwrap())
            },
        decreases TOP_LEVEL_ROWS - i,
    {
        rows.push(PictureRow { icon: image.clone(), label: picture_label() });
        i = i + 1;
    }
    rows
}


/// The right pane after the image load: its rows, and the message of the
/// error dialog to show, if the load failed.
#[derive(Debug)]
pub struct PicturePane<I> {
    pub rows: Vec<PictureRow<I>>,
    pub error_dialog: Option<String>,
}

/// Populates the right pane from the outcome of loading its image. A loaded
/// image goes into every row; a failure leaves every row without an image
/// and yields one error dialog carrying the failure's message.
pub fn populate_picture_pane<I: Clone>(loaded: Result<I, String>) -> (r: PicturePane<I>)
    ensures
        (match loaded {
            Ok(image) => is_right_list(r.rows@, Some(image)) && r.error_dialog.is_none(),
            Err(msg) => is_right_list(r.rows@, None) && r.error_dialog == Some(msg),
        }),
{
    let (image, error_dialog) = match loaded {
        Ok(image) => (Some(image), None),
        Err(msg) => (None, Some(msg)),
    };
    let rows = build_right_store(&image);
    PicturePane { rows, error_dialog }
}

} // verus!
