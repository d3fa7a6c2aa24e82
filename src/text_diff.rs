use vstd::prelude::*;

verus! {

/// How a line differs between the original and the modified text.
#[derive(Clone, Copy, Debug, PartialEq, Eq, Structural)]
pub enum ChangeKind {
    Delete,
    Insert,
    Equal,
}

/// One line of a line-based comparison, with its label.
pub struct TextDiffLine {
    pub content: String,
    pub change_type: String,
}

/// The line-by-line changes that turn `original` into `modified`: each line
/// (with its line ending) tagged as deleted, inserted or unchanged.
pub uninterp spec fn line_changes_of(original: Seq<char>, modified: Seq<char>) -> Seq<
    (ChangeKind, Seq<char>),
>;

/// The label shown for each kind of change.
pub open spec fn label_of(kind: ChangeKind) -> Seq<char> {
    match kind {
        ChangeKind::Delete => "delete"@,
        ChangeKind::Insert => "insert"@,
        ChangeKind::Equal => "unchanged"@,
    }
}

/// `lines` presents `changes` one for one, in order.
pub open spec fn presents(lines: Seq<TextDiffLine>, changes: Seq<(ChangeKind, Seq<char>)>) -> bool {
    &&& lines.len() == changes.len()
    &&& forall|i: int|
        0 <= i < lines.len() ==> {
            &&& (#[trigger] lines[i]).content@ == changes[i].1
            &&& lines[i].change_type@ == label_of(changes[i].0)
        }
}

/// Relies on similar's `TextDiff::from_lines` and `iter_all_changes`: the
/// changes of a line diff with the default configuration (no deadline), each
/// with its tag and its line.
#[verifier::external_body]
fn line_changes(original: &str, modified: &str) -> (r: Vec<(ChangeKind, String)>)
    ensures
        r@.len() == line_changes_of(original@, modified@).len(),
        forall|i: int|
            0 <= i < r@.len() ==> (#[trigger] r@[i]).0 == line_changes_of(original@, modified@)[i].0
                && r@[i].1@ == line_changes_of(original@, modified@)[i].1,
{
    similar::TextDiff::from_lines(original, modified).iter_all_changes().map(
        |c| {
            let kind = match c.tag() {
                similar::ChangeTag::Delete => ChangeKind::Delete,
                similar::ChangeTag::Insert => ChangeKind::Insert,
                similar::ChangeTag::Equal => ChangeKind::Equal,
            };
            (kind, c.value().to_string())
        },
    ).collect()
}

/// The label of a kind of change: "delete", "insert" or "unchanged".
pub fn change_label(kind: ChangeKind) -> (r: String)
    ensures
        r@ == label_of(kind),
{
    match kind {
        ChangeKind::Delete => String::from_str("delete"),
        ChangeKind::Insert => String::from_str("insert"),
        ChangeKind::Equal => String::from_str("unchanged"),
    }
}

/// Labels each change, keeping the order.
pub fn label_changes(changes: Vec<(ChangeKind, String)>) -> (r: Vec<TextDiffLine>)
    ensures
        r.len() == changes.len(),
        forall|i: int|
            0 <= i < r.len() ==> (#[trigger] r@[i]).content == changes@[i].1
                && r@[i].change_type@ == label_of(changes@[i].0),
{
    let ghost orig = changes@;
    let mut rest = changes;
    let mut out: Vec<TextDiffLine> = Vec::new();
    while rest.len() > 0
        invariant
            out.len() + rest.len() == orig.len(),
            rest@ == orig.subrange(out.len() as int, orig.len() as int),
            forall|i: int|
                0 <= i < out.len() ==> (#[trigger] out@[i]).content == orig[i].1
                    && out@[i].change_type@ == label_of(orig[i].0),
        decreases rest.len(),
    {
        let ghost done = out.len() as int;
        let (kind, content) = rest.remove(0);
        assert(kind == orig[done].0 && content == orig[done].1);
        out.push(TextDiffLine { content, change_type: change_label(kind) });
        assert(rest@ =~= orig.subrange(out.len() as int, orig.len() as int));
    }
    out
}

/// Compares two texts line by line. Identical texts give no lines at all;
/// otherwise every line of the diff comes out, labelled.
pub fn compare_text(original: String, modified: String) -> (r: Vec<TextDiffLine>)
    ensures
        original@ == modified@ ==> r.len() == 0,
        original@ != modified@ ==> presents(r@, line_changes_of(original@, modified@)),
{
    if original == modified {
        return Vec::new();
    }
    let changes = line_changes(original.as_str(), modified.as_str());
    let r = label_changes(changes);
    proof {
        assert forall|i: int| 0 <= i < r@.len() implies {
            &&& (#[trigger] r@[i]).content@ == line_changes_of(original@, modified@)[i].1
            &&& r@[i].change_type@ == label_of(line_changes_of(original@, modified@)[i].0)
        } by {
            assert(changes@[i].0 == line_changes_of(original@, modified@)[i].0);
        }
    }
    r
}

} // verus!
