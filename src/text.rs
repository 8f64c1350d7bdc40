use vstd::prelude::*;

verus! {

/// The contents of a sequence of lines, one character sequence per line.
pub open spec fn views(lines: Seq<String>) -> Seq<Seq<char>> {
    lines.map_values(|l: String| l@)
}

/// Lines joined by a single line feed between neighbours (none after the last).
pub open spec fn join_lines(lines: Seq<Seq<char>>) -> Seq<char>
    decreases lines.len(),
{
    if lines.len() == 0 {
        Seq::empty()
    } else if lines.len() == 1 {
        lines[0]
    } else {
        join_lines(lines.drop_last()) + seq!['\n'] + lines.last()
    }
}

/// `lines` are the lines of `text`: none holds a line feed, and joined they give the
/// text without its final line feed. Empty text has no lines; any other has at least
/// one.
pub open spec fn splits_into(text: Seq<char>, lines: Seq<Seq<char>>) -> bool {
    &&& text.len() == 0 ==> lines.len() == 0
    &&& text.len() > 0 ==> lines.len() > 0 && join_lines(lines) == without_final_newline(text)
    &&& forall|k: int| 0 <= k < lines.len() ==> is_line(#[trigger] lines[k])
}

/// A line holds no line feed.
pub open spec fn is_line(l: Seq<char>) -> bool {
    !l.contains('\n')
}

/// Text with one trailing line feed, if present, removed.
pub open spec fn without_final_newline(text: Seq<char>) -> Seq<char> {
    if text.len() > 0 && text.last() == '\n' {
        text.drop_last()
    } else {
        text
    }
}

/// Appending a line extends the joined text by a separator and that line.
pub proof fn lemma_join_push(lines: Seq<Seq<char>>, l: Seq<char>)
    ensures
        join_lines(lines.push(l)) == if lines.len() == 0 {
            l
        } else {
            join_lines(lines) + seq!['\n'] + l
        },
{
    assert(lines.push(l).drop_last() =~= lines);
}

proof fn lemma_views_push(lines: Seq<String>, l: String)
    ensures
        views(lines.push(l)) == views(lines).push(l@),
{
    assert(views(lines.push(l)) =~= views(lines).push(l@));
}

/// The lines joined by line feeds, as staged into the workspace.
pub fn join(lines: &Vec<String>) -> (r: String)
    ensures
        r@ == join_lines(views(lines@)),
{
    let mut out = String::new();
    let mut i: usize = 0;
    proof {
        reveal_strlit("\n");
        assert(views(lines@.take(0)) =~= Seq::<Seq<char>>::empty());
    }
    while i < lines.len()
        invariant
            0 <= i <= lines@.len(),
            out@ == join_lines(views(lines@.take(i as int))),
            "\n"@ == seq!['\n'],
        decreases lines@.len() - i,
    {
        proof {
            lemma_views_push(lines@.take(i as int), lines@[i as int]);
            assert(lines@.take(i as int).push(lines@[i as int]) =~= lines@.take(i + 1));
            lemma_join_push(views(lines@.take(i as int)), lines@[i as int]@);
        }
        if i > 0 {
            out.append("\n");
        }
        out.append(lines[i].as_str());
        i = i + 1;
    }
    assert(lines@.take(i as int) =~= lines@);
    out
}

/// Splits captured output into lines: text is cut at each line feed, one final
/// line feed ends the last line rather than starting an empty one, and empty
/// text has no lines.
pub fn split_lines(text: &str) -> (r: Vec<String>)
    ensures
        splits_into(text@, views(r@)),
{
    let mut out: Vec<String> = Vec::new();
    let n = text.unicode_len();
    if n == 0 {
        return out;
    }
    let end: usize = if text.get_char(n - 1) == '\n' { n - 1 } else { n };
    let ghost body = text@.subrange(0, end as int);
    assert(body =~= without_final_newline(text@));
    let mut start: usize = 0;
    let mut i: usize = 0;
    proof {
        assert(views(out@) =~= Seq::<Seq<char>>::empty());
        lemma_join_push(views(out@), text@.subrange(0, 0));
        assert(text@.subrange(0, 0) =~= Seq::<char>::empty());
    }
    while i < end
        invariant
            end <= n == text@.len(),
            0 <= start <= i <= end,
            join_lines(views(out@).push(text@.subrange(start as int, i as int)))
                == text@.subrange(0, i as int),
            forall|k: int| 0 <= k < out@.len() ==> is_line(#[trigger] out@[k]@),
            is_line(text@.subrange(start as int, i as int)),
        decreases end - i,
    {
        let c = text.get_char(i);
        let ghost cur = text@.subrange(start as int, i as int);
        proof {
            lemma_join_push(views(out@), cur);
        }
        if c == '\n' {
            let piece = text.substring_char(start, i).to_owned();
            proof {
                lemma_views_push(out@, piece);
            }
            out.push(piece);
            start = i + 1;
            i = i + 1;
            proof {
                let e = text@.subrange(start as int, i as int);
                assert(e =~= Seq::<char>::empty());
                lemma_join_push(views(out@), e);
                assert(text@.subrange(0, i as int) =~= text@.subrange(0, i - 1) + seq!['\n']);
                assert(views(out@).len() > 0);
                assert(join_lines(views(out@)) + seq!['\n'] + e =~= join_lines(views(out@))
                    + seq!['\n']);
                assert(!e.contains('\n'));
            }
        } else {
            i = i + 1;
            proof {
                let nxt = text@.subrange(start as int, i as int);
                assert(nxt =~= cur + seq![c]);
                lemma_join_push(views(out@), nxt);
                assert(text@.subrange(0, i as int) =~= text@.subrange(0, i - 1) + seq![c]);
                if views(out@).len() == 0 {
                } else {
                    assert(join_lines(views(out@)) + seq!['\n'] + nxt =~= (join_lines(views(out@))
                        + seq!['\n'] + cur) + seq![c]);
                }
                assert forall|j: int| 0 <= j < nxt.len() implies nxt[j] != '\n' by {
                    if j < cur.len() {
                        assert(nxt[j] == cur[j]);
                    }
                }
            }
        }
    }
    let last = text.substring_char(start, end).to_owned();
    proof {
        lemma_views_push(out@, last);
    }
    out.push(last);
    out
}

/// Whether two sequences of lines are equal, line by line.
pub fn lines_equal(a: &Vec<String>, b: &Vec<String>) -> (r: bool)
    ensures
        r == (views(a@) == views(b@)),
{
    if a.len() != b.len() {
        proof {
            assert(views(a@).len() != views(b@).len());
        }
        return false;
    }
    let mut i: usize = 0;
    while i < a.len()
        invariant
            a@.len() == b@.len(),
            0 <= i <= a@.len(),
            forall|k: int| 0 <= k < i ==> a@[k]@ == b@[k]@,
        decreases a@.len() - i,
    {
        if a[i] != b[i] {
            proof {
                assert(views(a@)[i as int] != views(b@)[i as int]);
            }
            return false;
        }
        i = i + 1;
    }
    assert(views(a@) =~= views(b@));
    true
}

} // verus!
