use vstd::prelude::*;
use vstd::string::StrSliceExecFns;
use vstd::string::StringExecFns;

verus! {

pub open spec fn digit_char(d: nat) -> char {
    if d == 0 {
        '0'
    } else if d == 1 {
        '1'
    } else if d == 2 {
        '2'
    } else if d == 3 {
        '3'
    } else if d == 4 {
        '4'
    } else if d == 5 {
        '5'
    } else if d == 6 {
        '6'
    } else if d == 7 {
        '7'
    } else if d == 8 {
        '8'
    } else {
        '9'
    }
}

/// The usual decimal rendering of a number, most significant digit first.
pub open spec fn dec_str(n: nat) -> Seq<char>
    decreases n,
{
    if n < 10 {
        seq![digit_char(n)]
    } else {
        dec_str(n / 10) + seq![digit_char(n % 10)]
    }
}

fn digit_str(d: usize) -> (r: &'static str)
    requires
        d < 10,
    ensures
        r@ == seq![digit_char(d as nat)],
{
    proof {
        reveal_strlit("0");
        reveal_strlit("1");
        reveal_strlit("2");
        reveal_strlit("3");
        reveal_strlit("4");
        reveal_strlit("5");
        reveal_strlit("6");
        reveal_strlit("7");
        reveal_strlit("8");
        reveal_strlit("9");
    }
    let r = match d {
        0 => "0",
        1 => "1",
        2 => "2",
        3 => "3",
        4 => "4",
        5 => "5",
        6 => "6",
        7 => "7",
        8 => "8",
        _ => "9",
    };
    proof {
        assert(r@ =~= seq![digit_char(d as nat)]);
    }
    r
}

/// Renders a count in decimal.
pub fn dec_string(n: usize) -> (r: String)
    ensures
        r@ == dec_str(n as nat),
    decreases n,
{
    if n < 10 {
        digit_str(n).to_owned()
    } else {
        let mut s = dec_string(n / 10);
        s.append(digit_str(n % 10));
        proof {
            assert(s@ =~= dec_str(n as nat));
        }
        s
    }
}

/// The names separated by a comma and a space.
pub open spec fn joined(names: Seq<Seq<char>>) -> Seq<char>
    decreases names.len(),
{
    if names.len() == 0 {
        Seq::empty()
    } else if names.len() == 1 {
        names[0]
    } else {
        joined(names.drop_last()) + ", "@ + names.last()
    }
}

/// Joins the names with a comma and a space.
pub fn join_names(names: &Vec<String>) -> (r: String)
    ensures
        r@ == joined(crate::report::strs_view(names@)),
{
    let mut out = String::new();
    let mut i: usize = 0;
    while i < names.len()
        invariant
            0 <= i <= names@.len(),
            out@ == joined(crate::report::strs_view(names@).take(i as int)),
        decreases names@.len() - i,
    {
        if i > 0 {
            out.append(", ");
        }
        out.append(names[i].as_str());
        proof {
            let s = crate::report::strs_view(names@);
            assert(s.take(i + 1).drop_last() =~= s.take(i as int));
            assert(s.take(i + 1).last() == names@[i as int]@);
            assert(out@ =~= joined(s.take(i + 1)));
        }
        i = i + 1;
    }
    proof {
        assert(crate::report::strs_view(names@).take(names@.len() as int) =~= crate::report::strs_view(names@));
    }
    out
}

/// The fixed-format block appended for failed repositories: a heading, one
/// checklist line with the failure count and the report path, and the
/// comma-joined failed names.
pub open spec fn todo_entry(names: Seq<Seq<char>>) -> Seq<char> {
    "\n## Repository Inventory Issues\n- [ ] **REPO INVENTORY**: Fix parsing errors in "@ + dec_str(
        names.len(),
    ) + " repositories - see /tmp/repo_inventory.json\n  Failed repos: "@ + joined(names) + "\n"@
}

/// Builds the to-do block for the given failed repository names.
pub fn build_todo_entry(names: &Vec<String>) -> (r: String)
    ensures
        r@ == todo_entry(crate::report::strs_view(names@)),
{
    let mut out =
        "\n## Repository Inventory Issues\n- [ ] **REPO INVENTORY**: Fix parsing errors in ".to_owned();
    let count = dec_string(names.len());
    out.append(count.as_str());
    out.append(" repositories - see /tmp/repo_inventory.json\n  Failed repos: ");
    let joined_names = join_names(names);
    out.append(joined_names.as_str());
    out.append("\n");
    out
}

/// Whether `pat` occurs in `s` starting at position `i`.
pub open spec fn found_at(s: Seq<char>, pat: Seq<char>, i: int) -> bool {
    0 <= i && i + pat.len() <= s.len() && s.subrange(i, i + pat.len()) == pat
}

/// The first position at or after `from` where `pat` occurs in `s`.
pub open spec fn first_match(s: Seq<char>, pat: Seq<char>, from: int) -> Option<int>
    decreases s.len() + 1 - from,
{
    if from < 0 || from + pat.len() > s.len() {
        None
    } else if s.subrange(from, from + pat.len()) == pat {
        Some(from)
    } else {
        first_match(s, pat, from + 1)
    }
}

proof fn lemma_first_match_is_found(s: Seq<char>, pat: Seq<char>, from: int)
    ensures
        first_match(s, pat, from) matches Some(i) ==> found_at(s, pat, i),
    decreases s.len() + 1 - from,
{
    if !(from < 0 || from + pat.len() > s.len()) {
        if s.subrange(from, from + pat.len()) == pat {
        } else {
            lemma_first_match_is_found(s, pat, from + 1);
        }
    }
}

proof fn lemma_first_match_hit(s: Seq<char>, pat: Seq<char>, from: int, i: int)
    requires
        0 <= from <= i,
        found_at(s, pat, i),
        forall|j: int| from <= j < i ==> !(#[trigger] found_at(s, pat, j)),
    ensures
        first_match(s, pat, from) == Some(i),
    decreases i - from,
{
    if from < i {
        assert(!found_at(s, pat, from));
        lemma_first_match_hit(s, pat, from + 1, i);
    }
}

proof fn lemma_first_match_miss(s: Seq<char>, pat: Seq<char>, from: int)
    requires
        0 <= from,
        forall|j: int| from <= j ==> !(#[trigger] found_at(s, pat, j)),
    ensures
        first_match(s, pat, from) is None,
    decreases s.len() + 1 - from,
{
    if from + pat.len() <= s.len() {
        assert(!found_at(s, pat, from));
        lemma_first_match_miss(s, pat, from + 1);
    }
}

/// Whether `pat` occurs in `s` at position `i`, checked character by
/// character.
fn matches_at(s: &str, pat: &str, i: usize) -> (b: bool)
    requires
        i + pat@.len() <= s@.len(),
    ensures
        b == found_at(s@, pat@, i as int),
{
    let s_len = s.unicode_len();
    let pat_len = pat.unicode_len();
    let mut j: usize = 0;
    while j < pat_len
        invariant
            0 <= j <= pat@.len(),
            s_len == s@.len(),
            pat_len == pat@.len(),
            i + pat@.len() <= s@.len(),
            forall|k: int| 0 <= k < j ==> s@[i + k] == pat@[k],
        decreases pat_len - j,
    {
        if s.get_char(i + j) != pat.get_char(j) {
            proof {
                assert(s@.subrange(i as int, i + pat@.len())[j as int] != pat@[j as int]);
            }
            return false;
        }
        j = j + 1;
    }
    proof {
        assert(s@.subrange(i as int, i + pat@.len()) =~= pat@);
    }
    true
}

/// The first occurrence of `pat` in `s`, scanning from the start.
pub fn find_sub(s: &str, pat: &str) -> (r: Option<usize>)
    ensures
        match r {
            Some(i) => first_match(s@, pat@, 0) == Some(i as int),
            None => first_match(s@, pat@, 0) is None,
        },
{
    let s_len = s.unicode_len();
    let pat_len = pat.unicode_len();
    if pat_len > s_len {
        proof {
            assert(forall|j: int| 0 <= j ==> !(#[trigger] found_at(s@, pat@, j)));
            lemma_first_match_miss(s@, pat@, 0);
        }
        return None;
    }
    if pat_len == 0 {
        proof {
            assert(s@.subrange(0, 0) =~= pat@);
        }
        return Some(0);
    }
    let end = s_len - pat_len;
    let mut i: usize = 0;
    while i <= end
        invariant
            s_len == s@.len(),
            pat_len == pat@.len(),
            1 <= pat_len <= s_len,
            end == s_len - pat_len,
            0 <= i <= end + 1,
            forall|j: int| 0 <= j < i ==> !(#[trigger] found_at(s@, pat@, j)),
        decreases end + 1 - i,
    {
        if matches_at(s, pat, i) {
            proof {
                lemma_first_match_hit(s@, pat@, 0, i as int);
            }
            return Some(i);
        }
        i = i + 1;
    }
    proof {
        assert(forall|j: int| 0 <= j ==> !(#[trigger] found_at(s@, pat@, j)));
        lemma_first_match_miss(s@, pat@, 0);
    }
    None
}

/// `content` with `block` inserted at position `i`.
pub open spec fn inserted_at(content: Seq<char>, i: int, block: Seq<char>) -> Seq<char> {
    content.subrange(0, i) + block + content.subrange(i, content.len() as int)
}

/// The task document after one run with failures: the to-do block for the
/// failed names stands immediately before the first `## New Tasks` heading,
/// else immediately before the first `## Undocumented Components` heading,
/// else at the end.
pub open spec fn updated_tasks(content: Seq<char>, names: Seq<Seq<char>>) -> Seq<char> {
    let block = todo_entry(names);
    match first_match(content, "## New Tasks"@, 0) {
        Some(i) => inserted_at(content, i, block),
        None => match first_match(content, "## Undocumented Components"@, 0) {
            Some(i) => inserted_at(content, i, block),
            None => content + block,
        },
    }
}

fn insert_block(content: &str, i: usize, block: &str) -> (r: String)
    requires
        i <= content@.len(),
    ensures
        r@ == inserted_at(content@, i as int, block@),
{
    let len = content.unicode_len();
    let mut out = content.substring_char(0, i).to_owned();
    out.append(block);
    out.append(content.substring_char(i, len));
    out
}

/// Rewrites the task document's text: one to-do block for the failed
/// repository names, inserted at the fixed spot.
pub fn update_tasks_md(content: &str, failed_names: &Vec<String>) -> (r: String)
    ensures
        r@ == updated_tasks(content@, crate::report::strs_view(failed_names@)),
{
    let block = build_todo_entry(failed_names);
    proof {
        lemma_first_match_is_found(content@, "## New Tasks"@, 0);
        lemma_first_match_is_found(content@, "## Undocumented Components"@, 0);
    }
    let position = match find_sub(content, "## New Tasks") {
        Some(i) => Some(i),
        None => find_sub(content, "## Undocumented Components"),
    };
    match position {
        Some(i) => insert_block(content, i, block.as_str()),
        None => {
            let mut out = content.to_owned();
            out.append(block.as_str());
            out
        },
    }
}

} // verus!
