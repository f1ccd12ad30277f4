//! Statement text: a template with a placeholder for the column list.

use vstd::prelude::*;

verus! {

/// `pat` stands in `text` at index `i`.
pub open spec fn occurs_at(text: Seq<char>, pat: Seq<char>, i: int) -> bool {
    &&& 0 <= i
    &&& i + pat.len() <= text.len()
    &&& text.subrange(i, i + pat.len()) == pat
}

/// `i` is the leftmost index at which `pat` stands in `text`.
pub open spec fn is_first_occurrence(text: Seq<char>, pat: Seq<char>, i: int) -> bool {
    &&& occurs_at(text, pat, i)
    &&& forall|j: int| 0 <= j < i ==> !occurs_at(text, pat, j)
}

/// The leftmost index at which `pat` stands in `text`, if it stands anywhere.
pub open spec fn first_occurrence(text: Seq<char>, pat: Seq<char>) -> Option<int> {
    if exists|i: int| is_first_occurrence(text, pat, i) {
        Some(choose|i: int| is_first_occurrence(text, pat, i))
    } else {
        None
    }
}

/// `text` with every occurrence of `pat` replaced by `rep`, the occurrences
/// taken from the left and never overlapping. An empty `pat` names nothing.
pub open spec fn substituted(text: Seq<char>, pat: Seq<char>, rep: Seq<char>) -> Seq<char>
    decreases text.len(),
{
    match first_occurrence(text, pat) {
        Some(i) if pat.len() > 0 && 0 <= i && i + pat.len() <= text.len() => text.take(i) + rep
            + substituted(text.skip(i + pat.len()), pat, rep),
        _ => text,
    }
}

/// The characters of `s`, one element each.
pub fn chars_of(s: &str) -> (v: Vec<char>)
    ensures
        v@ == s@,
{
    let mut v: Vec<char> = Vec::new();
    for c in it: s.chars()
        invariant
            it.seq() == s@,
            v@ == s@.take(it.index()),
    {
        v.push(c);
    }
    v
}

/// The leftmost occurrence is the only index that answers its description.
pub proof fn lemma_first_occurrence_is(text: Seq<char>, pat: Seq<char>, i: int)
    requires
        is_first_occurrence(text, pat, i),
    ensures
        first_occurrence(text, pat) == Some(i),
{
    let k = choose|k: int| is_first_occurrence(text, pat, k);
    assert(is_first_occurrence(text, pat, k));
    if k < i {
        assert(!occurs_at(text, pat, k));
    }
    if i < k {
        assert(!occurs_at(text, pat, i));
    }
}

/// Where `pat` stands nowhere in `text`, there is no leftmost occurrence.
pub proof fn lemma_first_occurrence_none(text: Seq<char>, pat: Seq<char>)
    requires
        forall|j: int| 0 <= j ==> !occurs_at(text, pat, j),
    ensures
        first_occurrence(text, pat) is None,
{
    if exists|i: int| is_first_occurrence(text, pat, i) {
        let i = choose|i: int| is_first_occurrence(text, pat, i);
        assert(occurs_at(text, pat, i));
    }
}

/// An occurrence in what follows index `from` is an occurrence in the whole,
/// `from` places further on.
pub proof fn lemma_occurs_after(text: Seq<char>, pat: Seq<char>, from: int, j: int)
    requires
        0 <= from <= text.len(),
        0 <= j,
    ensures
        occurs_at(text.skip(from), pat, j) == occurs_at(text, pat, from + j),
{
    if j + pat.len() <= text.len() - from {
        assert(text.skip(from).subrange(j, j + pat.len()) =~= text.subrange(
            from + j,
            from + j + pat.len(),
        ));
    }
}

/// Whether `pat` stands in `text` at index `i`.
fn stands_at(text: &Vec<char>, pat: &Vec<char>, i: usize) -> (b: bool)
    ensures
        b == occurs_at(text@, pat@, i as int),
{
    if pat.len() > text.len() || i > text.len() - pat.len() {
        return false;
    }
    let mut k: usize = 0;
    while k < pat.len()
        invariant
            k <= pat.len(),
            i + pat.len() <= text.len(),
            forall|j: int| 0 <= j < k ==> text@[i + j] == pat@[j],
        decreases pat.len() - k,
    {
        if text[i + k] != pat[k] {
            assert(text@.subrange(i as int, i + pat.len())[k as int] == text@[i + k]);
            return false;
        }
        k += 1;
    }
    assert(text@.subrange(i as int, i + pat.len()) =~= pat@);
    true
}

/// The leftmost index at or after `from` at which `pat` stands in `text`.
fn find_from(text: &Vec<char>, pat: &Vec<char>, from: usize) -> (r: Option<usize>)
    requires
        from <= text.len(),
        pat@.len() > 0,
    ensures
        match r {
            Some(i) => is_first_occurrence(text@.skip(from as int), pat@, i - from),
            None => first_occurrence(text@.skip(from as int), pat@) is None,
        },
{
    let mut i: usize = from;
    while i < text.len()
        invariant
            from <= i <= text.len(),
            forall|j: int| from <= j < i ==> !occurs_at(text@, pat@, j),
        decreases text.len() - i,
    {
        if stands_at(text, pat, i) {
            proof {
                lemma_occurs_after(text@, pat@, from as int, i - from);
                assert forall|j: int| 0 <= j < i - from implies !occurs_at(
                    text@.skip(from as int),
                    pat@,
                    j,
                ) by {
                    lemma_occurs_after(text@, pat@, from as int, j);
                }
            }
            return Some(i);
        }
        i += 1;
    }
    proof {
        assert forall|j: int| 0 <= j implies !occurs_at(text@.skip(from as int), pat@, j) by {
            lemma_occurs_after(text@, pat@, from as int, j);
        }
        lemma_first_occurrence_none(text@.skip(from as int), pat@);
    }
    None
}

/// `template` with each occurrence of `target` replaced by `replacement`.
pub fn substitute(template: &str, target: &str, replacement: &str) -> (out: String)
    ensures
        out@ == substituted(template@, target@, replacement@),
{
    let text = chars_of(template);
    let pat = chars_of(target);
    if pat.len() == 0 {
        return String::from_str(template);
    }
    let mut out = String::new();
    let mut pos: usize = 0;
    assert(text@.skip(0) =~= text@);
    loop
        invariant
            text@ == template@,
            pat@ == target@,
            pat@.len() > 0,
            pos <= text.len(),
            out@ + substituted(text@.skip(pos as int), pat@, replacement@) == substituted(
                text@,
                pat@,
                replacement@,
            ),
        decreases text.len() - pos,
    {
        let ghost rest = text@.skip(pos as int);
        match find_from(&text, &pat, pos) {
            Some(i) => {
                proof {
                    lemma_first_occurrence_is(rest, pat@, i - pos);
                    assert(rest.take(i - pos) =~= text@.subrange(pos as int, i as int));
                    assert(rest.skip(i - pos + pat@.len()) =~= text@.skip(i + pat@.len()));
                    assert(out@ + text@.subrange(pos as int, i as int) + replacement@
                        + substituted(text@.skip(i + pat@.len()), pat@, replacement@) =~= out@
                        + substituted(rest, pat@, replacement@));
                }
                out.append(template.substring_char(pos, i));
                out.append(replacement);
                pos = i + pat.len();
            },
            None => {
                proof {
                    assert(rest =~= text@.subrange(pos as int, text@.len() as int));
                }
                out.append(template.substring_char(pos, text.len()));
                return out;
            },
        }
    }
}

/// One column as a statement names it: the table, a dot and the column, with a
/// space on either side.
pub open spec fn qualified(table: Seq<char>, column: Seq<char>) -> Seq<char> {
    " "@ + table + "."@ + column + " "@
}

/// The column list of a table: its qualified columns, in order, with a comma
/// and a space between each two.
pub open spec fn table_fields(table: Seq<char>, columns: Seq<Seq<char>>) -> Seq<char>
    decreases columns.len(),
{
    if columns.len() == 0 {
        Seq::empty()
    } else if columns.len() == 1 {
        qualified(table, columns[0])
    } else {
        table_fields(table, columns.drop_last()) + ", "@ + qualified(table, columns.last())
    }
}

/// The names in `columns`, each as a sequence of characters.
pub open spec fn names(columns: Seq<&'static str>) -> Seq<Seq<char>> {
    columns.map_values(|c: &'static str| c@)
}

/// The column list of `table`, ready to stand in a statement.
pub fn qualified_fields(table: &str, columns: &Vec<&'static str>) -> (out: String)
    ensures
        out@ == table_fields(table@, names(columns@)),
{
    let mut out = String::new();
    let mut i: usize = 0;
    while i < columns.len()
        invariant
            i <= columns.len(),
            out@ == table_fields(table@, names(columns@).take(i as int)),
        decreases columns.len() - i,
    {
        let ghost before = names(columns@).take(i as int);
        let ghost now = names(columns@).take(i + 1);
        proof {
            assert(now.drop_last() =~= before);
            assert(now.last() == columns@[i as int]@);
        }
        if i > 0 {
            out.append(", ");
        }
        out.append(" ");
        out.append(table);
        out.append(".");
        out.append(columns[i]);
        out.append(" ");
        proof {
            if i == 0 {
                assert(out@ =~= qualified(table@, now[0]));
            } else {
                assert(out@ =~= table_fields(table@, before) + ", "@ + qualified(
                    table@,
                    now.last(),
                ));
            }
        }
        i += 1;
    }
    proof {
        assert(names(columns@).take(columns@.len() as int) =~= names(columns@));
    }
    out
}

} // verus!
