//! Splitting text into lines, as `str::lines` does.
use vstd::prelude::*;
use crate::text::push_char;

verus! {

/// The segments of `s` between newline characters: one more than the number
/// of newlines, each without its newline.
pub open spec fn newline_segments(s: Seq<char>) -> Seq<Seq<char>>
    decreases s.len(),
{
    if s.len() == 0 {
        seq![Seq::<char>::empty()]
    } else {
        let p = newline_segments(s.drop_last());
        if s.last() == '\n' {
            p.push(Seq::<char>::empty())
        } else {
            p.update(p.len() - 1, p.last().push(s.last()))
        }
    }
}

/// `seg` without one trailing carriage return.
pub open spec fn strip_cr(seg: Seq<char>) -> Seq<char> {
    if seg.len() > 0 && seg.last() == '\r' {
        seg.drop_last()
    } else {
        seg
    }
}

/// The lines of `s`: the text between line endings (`\n` or `\r\n`), with a
/// final line ending optional, as `str::lines` gives them.
pub open spec fn text_lines(s: Seq<char>) -> Seq<Seq<char>> {
    let segs = newline_segments(s);
    let closed = (segs.len() - 1) as int;
    let ended: Seq<Seq<char>> = Seq::new(closed as nat, |i: int| strip_cr(segs[i]));
    if segs.last().len() == 0 {
        ended
    } else {
        ended.push(segs.last())
    }
}

/// The segments always number at least one.
proof fn lemma_segments_nonempty(s: Seq<char>)
    ensures
        newline_segments(s).len() >= 1,
    decreases s.len(),
{
    if s.len() > 0 {
        lemma_segments_nonempty(s.drop_last());
    }
}

/// The last segment of a text that does not end with a newline holds the
/// text's last character.
proof fn lemma_last_segment(s: Seq<char>)
    requires
        s.len() > 0,
        s.last() != '\n',
    ensures
        newline_segments(s).len() == newline_segments(s.drop_last()).len(),
        newline_segments(s).last() == newline_segments(s.drop_last()).last().push(s.last()),
        forall|i: int|
            0 <= i < newline_segments(s).len() - 1 ==> #[trigger] newline_segments(s)[i]
                == newline_segments(s.drop_last())[i],
{
    lemma_segments_nonempty(s.drop_last());
}

/// A final line ending is optional: a text that ends with one has the same
/// lines as the text without it.
pub proof fn lemma_final_line_ending(s: Seq<char>)
    requires
        s.len() > 0,
        s.last() != '\n',
    ensures
        text_lines(s + seq!['\r', '\n']) == text_lines(s),
        s.last() != '\r' ==> text_lines(s.push('\n')) == text_lines(s),
{
    let segs = newline_segments(s);
    lemma_segments_nonempty(s);
    lemma_last_segment(s);
    let k = segs.len();
    assert(segs.last().len() > 0);
    let crlf = s + seq!['\r', '\n'];
    let cr = s.push('\r');
    assert(crlf.drop_last() =~= cr);
    assert(cr.drop_last() =~= s);
    assert(newline_segments(cr) == segs.update(k - 1, segs.last().push('\r')));
    assert(newline_segments(crlf) == newline_segments(cr).push(Seq::<char>::empty()));
    assert(text_lines(crlf) =~= text_lines(s)) by {
        let segs2 = newline_segments(crlf);
        assert(segs2.len() == k + 1);
        assert(strip_cr(segs.last().push('\r')) =~= segs.last());
        assert forall|i: int| 0 <= i < k implies strip_cr(#[trigger] segs2[i]) == text_lines(s)[i] by {
            if i < k - 1 {
                assert(segs2[i] == segs[i]);
            }
        }
    }
    if s.last() != '\r' {
        let lf = s.push('\n');
        assert(lf.drop_last() =~= s);
        assert(newline_segments(lf) == segs.push(Seq::<char>::empty()));
        assert(text_lines(lf) =~= text_lines(s)) by {
            let segs2 = newline_segments(lf);
            assert(segs.last().last() == s.last());
            assert(strip_cr(segs.last()) == segs.last());
            assert forall|i: int| 0 <= i < k implies strip_cr(#[trigger] segs2[i]) == text_lines(
                s,
            )[i] by {
                assert(segs2[i] == segs[i]);
            }
        }
    }
}

/// The view of each line.
pub open spec fn lines_view(v: Seq<String>) -> Seq<Seq<char>> {
    v.map_values(|s: String| s@)
}

/// Splits `text` into its lines, as `str::lines` does.
pub fn split_lines(text: &str) -> (r: Vec<String>)
    ensures
        lines_view(r@) == text_lines(text@),
{
    let n = text.unicode_len();
    let mut closed: Vec<String> = Vec::new();
    let mut cur = String::new();
    let mut cr_pending = false;
    let ghost s = text@;
    proof {
        assert(s.take(0) =~= Seq::<char>::empty());
    }
    let mut i: usize = 0;
    while i < n
        invariant
            n == s.len(),
            s == text@,
            0 <= i <= n,
            !cr_pending ==> (cur@.len() == 0 || cur@.last() != '\r'),
            ({
                let segs = newline_segments(s.take(i as int));
                &&& segs.len() == closed@.len() + 1
                &&& forall|j: int|
                    0 <= j < closed@.len() ==> (#[trigger] closed@[j])@ == strip_cr(segs[j])
                &&& segs.last() == (if cr_pending {
                    cur@.push('\r')
                } else {
                    cur@
                })
            }),
        decreases n - i,
    {
        let c = text.get_char(i);
        proof {
            assert(s.take(i + 1).drop_last() =~= s.take(i as int));
            assert(s.take(i + 1).last() == c);
            lemma_segments_nonempty(s.take(i as int));
        }
        let ghost old_closed = closed@;
        let ghost old_cur = cur@;
        let ghost old_pending = cr_pending;
        if c == '\n' {
            let line = cur;
            closed.push(line);
            cur = String::new();
            cr_pending = false;
            proof {
                let segs = newline_segments(s.take(i as int));
                assert(strip_cr(segs.last()) == old_cur) by {
                    if old_pending {
                        assert(segs.last().drop_last() =~= old_cur);
                    }
                }
                assert forall|j: int| 0 <= j < closed@.len() implies (#[trigger] closed@[j])@
                    == strip_cr(newline_segments(s.take(i + 1))[j]) by {
                    if j < old_closed.len() {
                        assert(closed@[j] == old_closed[j]);
                    }
                }
            }
        } else {
            if cr_pending {
                push_char(&mut cur, '\r');
            }
            if c == '\r' {
                cr_pending = true;
            } else {
                push_char(&mut cur, c);
                cr_pending = false;
            }
            proof {
                let segs = newline_segments(s.take(i as int));
                assert forall|j: int| 0 <= j < closed@.len() implies (#[trigger] closed@[j])@
                    == strip_cr(newline_segments(s.take(i + 1))[j]) by {
                    assert(closed@[j] == old_closed[j]);
                }
            }
        }
        i = i + 1;
    }
    if cr_pending {
        push_char(&mut cur, '\r');
    }
    let ghost segs = newline_segments(s.take(n as int));
    proof {
        assert(s.take(n as int) =~= s);
    }
    if cur.unicode_len() > 0 {
        closed.push(cur);
    }
    proof {
        let lines = text_lines(s);
        assert(lines_view(closed@) =~= lines);
    }
    closed
}

} // verus!
