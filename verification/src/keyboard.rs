//! Turning recognized lines into an interactive reply: filter out noise,
//! attach an image-search link to each surviving line, and chunk the
//! buttons into fixed-width rows.

use vstd::prelude::*;

verus! {

/// How many buttons stand side by side in one keyboard row.
pub const ROW_WIDTH: usize = 3;

/// One selectable action: a recognized line as the label, and an
/// image-search link for that line as the target.
pub struct ActionButton {
    /// The recognized line, unchanged.
    pub label: String,
    /// The search link the button points at.
    pub url: String,
}

/// The user-facing reply built from the recognized lines.
pub enum OutgoingResponse {
    /// A plain text message.
    TextReply(String),
    /// A prompt together with rows of selectable buttons.
    InteractiveReply { prompt: String, rows: Vec<Vec<ActionButton>> },
}

/// The fixed front part of every search link.
pub open spec fn url_prefix() -> Seq<char> {
    "https://www.google.com/search?q="@
}

/// The fixed back part of every search link.
pub open spec fn url_suffix() -> Seq<char> {
    "&tbm=isch"@
}

/// The reply sent when nothing usable was recognized.
pub open spec fn fallback_text() -> Seq<char> {
    "Sorry, can't parse your image."@
}

/// The prompt above the keyboard.
pub open spec fn prompt_text() -> Seq<char> {
    "Please pick the dish."@
}

/// A label with every space replaced by `+`, ready to stand in a query.
pub open spec fn plus_encoded(s: Seq<char>) -> Seq<char> {
    s.map_values(|ch: char| if ch == ' ' { '+' } else { ch })
}

/// The search link for a label.
pub open spec fn url_of(label: Seq<char>) -> Seq<char> {
    url_prefix() + plus_encoded(label) + url_suffix()
}

/// The lines that survive filtering: those longer than two characters,
/// in their original order.
pub open spec fn kept_lines(ls: Seq<Seq<char>>) -> Seq<Seq<char>>
    decreases ls.len(),
{
    if ls.len() == 0 {
        Seq::empty()
    } else {
        let rest = kept_lines(ls.drop_last());
        if ls.last().len() > 2 {
            rest.push(ls.last())
        } else {
            rest
        }
    }
}

/// Build the search link for one label.
pub fn button_url(label: &String) -> (r: String)
    ensures
        r@ == url_of(label@),
{
    let mut url = String::from_str("https://www.google.com/search?q=");
    let n = label.as_str().unicode_len();
    let mut i: usize = 0;
    proof {
        assert(label@.subrange(0, 0) =~= Seq::<char>::empty());
        assert(plus_encoded(Seq::<char>::empty()) =~= Seq::<char>::empty());
        assert(url@ =~= url_prefix() + plus_encoded(label@.subrange(0, 0)));
    }
    while i < n
        invariant
            n == label@.len(),
            i <= n,
            url@ == url_prefix() + plus_encoded(label@.subrange(0, i as int)),
        decreases n - i,
    {
        let ch = label.as_str().get_char(i);
        let ghost before = url@;
        if ch == ' ' {
            url.append("+");
            proof {
                reveal_strlit("+");
                assert(url@ =~= before + seq!['+']);
            }
        } else {
            let piece = label.as_str().substring_char(i, i + 1);
            proof {
                assert(piece@ =~= seq![label@[i as int]]);
            }
            url.append(piece);
        }
        proof {
            assert(plus_encoded(label@.subrange(0, i + 1)) =~= plus_encoded(
                label@.subrange(0, i as int),
            ).push(if label@[i as int] == ' ' { '+' } else { label@[i as int] }));
            assert(url@ =~= url_prefix() + plus_encoded(label@.subrange(0, i + 1)));
        }
        i = i + 1;
    }
    proof {
        assert(label@.subrange(0, n as int) =~= label@);
    }
    url.append("&tbm=isch");
    url
}

/// Drop the lines of at most two characters, keeping the order.
pub fn filter_lines(lines: Vec<String>) -> (r: Vec<String>)
    ensures
        r.deep_view() == kept_lines(lines.deep_view()),
{
    let ghost all = lines.deep_view();
    let mut rest = lines;
    let total = rest.len();
    let mut r: Vec<String> = Vec::new();
    let mut i: usize = 0;
    proof {
        assert(all.subrange(0, 0) =~= Seq::<Seq<char>>::empty());
        assert(r.deep_view() =~= kept_lines(all.subrange(0, 0)));
    }
    while rest.len() > 0
        invariant
            all.len() == total,
            i + rest@.len() == all.len(),
            forall|k: int| 0 <= k < rest@.len() ==> (#[trigger] rest@[k])@ == all[i + k],
            r.deep_view() == kept_lines(all.subrange(0, i as int)),
        decreases rest@.len(),
    {
        let line = rest.remove(0);
        let ghost prev = r.deep_view();
        if line.as_str().unicode_len() > 2 {
            r.push(line);
            proof {
                assert(r.deep_view() =~= prev.push(all[i as int]));
            }
        }
        proof {
            assert(all.subrange(0, i + 1).drop_last() =~= all.subrange(0, i as int));
            assert(all.subrange(0, i + 1).last() == all[i as int]);
            assert(r.deep_view() =~= kept_lines(all.subrange(0, i + 1)));
        }
        i = i + 1;
    }
    proof {
        assert(all.subrange(0, i as int) =~= all);
    }
    r
}

/// Turn each label into its button, keeping the order.
pub fn make_buttons(labels: Vec<String>) -> (r: Vec<ActionButton>)
    ensures
        r@.len() == labels@.len(),
        forall|k: int|
            0 <= k < r@.len() ==> (#[trigger] r@[k]).label@ == labels.deep_view()[k] && r@[k].url@
                == url_of(labels.deep_view()[k]),
{
    let ghost all = labels.deep_view();
    let mut rest = labels;
    let total = rest.len();
    let mut r: Vec<ActionButton> = Vec::new();
    let mut i: usize = 0;
    while rest.len() > 0
        invariant
            all.len() == total,
            i + rest@.len() == all.len(),
            i == r@.len(),
            forall|k: int| 0 <= k < rest@.len() ==> (#[trigger] rest@[k])@ == all[i + k],
            forall|k: int|
                0 <= k < i ==> (#[trigger] r@[k]).label@ == all[k] && r@[k].url@ == url_of(all[k]),
        decreases rest@.len(),
    {
        let label = rest.remove(0);
        let url = button_url(&label);
        r.push(ActionButton { label, url });
        i = i + 1;
    }
    r
}

/// The width of row `i` when `n` buttons are chunked into rows of three:
/// three for every full row, the remainder for the last.
pub open spec fn row_width_at(n: int, i: int) -> int {
    if n - 3 * i >= 3 {
        3
    } else {
        n - 3 * i
    }
}

/// Chunk the buttons into rows of three, preserving order; the last row
/// may be shorter.
pub fn chunk_rows(buttons: Vec<ActionButton>) -> (r: Vec<Vec<ActionButton>>)
    ensures
        r@.len() == (buttons@.len() + 2) / 3,
        forall|i: int| 0 <= i < r@.len() ==> (#[trigger] r@[i])@.len() == row_width_at(
            buttons@.len() as int,
            i,
        ),
        forall|i: int, j: int|
            0 <= i < r@.len() && 0 <= j < r@[i]@.len() ==> #[trigger] r@[i]@[j] == buttons@[3 * i
                + j],
{
    let ghost all = buttons@;
    let mut rest = buttons;
    let total = rest.len();
    let mut r: Vec<Vec<ActionButton>> = Vec::new();
    let mut row: Vec<ActionButton> = Vec::new();
    let mut i: usize = 0;
    while rest.len() > 0
        invariant
            all.len() == total,
            i + rest@.len() == all.len(),
            i == 3 * r@.len() + row@.len(),
            row@.len() < 3,
            forall|k: int| 0 <= k < rest@.len() ==> #[trigger] rest@[k] == all[i + k],
            forall|k: int| 0 <= k < r@.len() ==> (#[trigger] r@[k])@.len() == 3,
            forall|k: int, j: int|
                0 <= k < r@.len() && 0 <= j < 3 ==> #[trigger] r@[k]@[j] == all[3 * k + j],
            forall|j: int| 0 <= j < row@.len() ==> #[trigger] row@[j] == all[3 * r@.len() + j],
        decreases rest@.len(),
    {
        let b = rest.remove(0);
        row.push(b);
        if row.len() == ROW_WIDTH {
            r.push(row);
            row = Vec::new();
        }
        i = i + 1;
    }
    if row.len() > 0 {
        r.push(row);
    }
    r
}

/// What the reply built from `lines` must look like: the fixed fallback
/// text when no line survives filtering, and otherwise the fixed prompt
/// with the buttons of the surviving lines in their original order, three
/// to a row, the last row possibly shorter.
pub open spec fn response_for(lines: Seq<Seq<char>>, r: OutgoingResponse) -> bool {
    let kept = kept_lines(lines);
    &&& kept.len() == 0 ==> (r matches OutgoingResponse::TextReply(m) && m@ == fallback_text())
    &&& kept.len() > 0 ==> (r matches OutgoingResponse::InteractiveReply { prompt, rows }
        && prompt@ == prompt_text() && rows@.len() == (kept.len() + 2) / 3 && (forall|i: int|
        0 <= i < rows@.len() ==> (#[trigger] rows@[i])@.len() == row_width_at(kept.len() as int, i))
        && (forall|i: int, j: int|
        0 <= i < rows@.len() && 0 <= j < rows@[i]@.len() ==> (#[trigger] rows@[i]@[j]).label@
            == kept[3 * i + j] && rows@[i]@[j].url@ == url_of(kept[3 * i + j])))
}

/// Build the reply for the recognized lines: filter, link, chunk.
pub fn build(lines: Vec<String>) -> (r: OutgoingResponse)
    ensures
        response_for(lines.deep_view(), r),
{
    let kept = filter_lines(lines);
    let buttons = make_buttons(kept);
    let rows = chunk_rows(buttons);
    if rows.len() == 0 {
        OutgoingResponse::TextReply(String::from_str("Sorry, can't parse your image."))
    } else {
        OutgoingResponse::InteractiveReply {
            prompt: String::from_str("Please pick the dish."),
            rows,
        }
    }
}

} // verus!
