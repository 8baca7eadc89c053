use vstd::prelude::*;

verus! {

/// A path separator. Both the Windows and the Unix separator are accepted
/// when a path is read; the staging layout itself is joined with `\`.
pub open spec fn is_separator(c: char) -> bool {
    c == '\\' || c == '/'
}

/// The final segment of a path: the longest suffix that holds no separator.
/// Empty when the path is empty or ends with a separator.
pub open spec fn last_segment(s: Seq<char>) -> Seq<char>
    decreases s.len(),
{
    if s.len() == 0 {
        Seq::<char>::empty()
    } else if is_separator(s[s.len() - 1]) {
        Seq::<char>::empty()
    } else {
        last_segment(s.drop_last()).push(s[s.len() - 1])
    }
}

/// `base` joined with `name` by a single backslash, as the staging layout
/// lays its one subdirectory out.
pub open spec fn joined(base: Seq<char>, name: Seq<char>) -> Seq<char> {
    base + "\\"@ + name
}

/// A path that holds no separator is its own final segment.
pub proof fn lemma_last_segment_no_separator(s: Seq<char>)
    requires
        forall|j: int| 0 <= j < s.len() ==> !is_separator(s[j]),
    ensures
        last_segment(s) == s,
    decreases s.len(),
{
    if s.len() == 0 {
        assert(last_segment(s) =~= s);
    } else {
        lemma_last_segment_no_separator(s.drop_last());
        assert(s.drop_last().push(s[s.len() - 1]) =~= s);
    }
}

/// After the last separator, the final segment is exactly the rest of the
/// path: if position `i` holds a separator and nothing after it does, the
/// final segment is the suffix that starts right after `i`.
pub proof fn lemma_last_segment_after_separator(s: Seq<char>, i: int)
    requires
        0 <= i < s.len(),
        is_separator(s[i]),
        forall|j: int| i < j < s.len() ==> !is_separator(s[j]),
    ensures
        last_segment(s) == s.subrange(i + 1, s.len() as int),
    decreases s.len(),
{
    if i == s.len() - 1 {
        assert(last_segment(s) =~= s.subrange(i + 1, s.len() as int));
    } else {
        lemma_last_segment_after_separator(s.drop_last(), i);
        assert(s.drop_last().subrange(i + 1, s.len() - 1) =~= s.subrange(i + 1, s.len() - 1));
        assert(last_segment(s) =~= s.subrange(i + 1, s.len() as int));
    }
}

/// Whether `c` is a path separator.
pub fn separator(c: char) -> (b: bool)
    ensures
        b == is_separator(c),
{
    c == '\\' || c == '/'
}

/// The name of the project's own directory: the final segment of its path.
/// `None` when the path has no final segment (empty, or ending with a
/// separator), in which case there is no name to mirror under.
pub fn project_name(path: &str) -> (r: Option<String>)
    ensures
        match r {
            Some(name) => name@ == last_segment(path@) && last_segment(path@).len() > 0,
            None => last_segment(path@).len() == 0,
        },
{
    let len: usize = path.unicode_len();
    let mut start: usize = 0;
    let mut i: usize = 0;
    while i < len
        invariant
            0 <= start <= i <= len,
            len == path@.len(),
            forall|j: int| start <= j < i ==> !is_separator(path@[j]),
            start > 0 ==> is_separator(path@[start - 1]),
        decreases len - i,
    {
        if separator(path.get_char(i)) {
            start = i + 1;
        }
        i = i + 1;
    }
    proof {
        if start == 0 {
            lemma_last_segment_no_separator(path@);
            assert(path@.subrange(0, len as int) =~= path@);
        } else {
            lemma_last_segment_after_separator(path@, start - 1);
        }
    }
    if start == len {
        None
    } else {
        let seg: &str = path.substring_char(start, len);
        Some(String::from_str(seg))
    }
}

/// `base` and `name` joined by a backslash.
pub fn join_path(base: &str, name: &str) -> (r: String)
    ensures
        r@ == joined(base@, name@),
{
    let mut s: String = String::from_str(base);
    s.append("\\");
    s.append(name);
    s
}

} // verus!
