//! Line splitting over a borrowed string: each call to `next` yields the
//! text up to the next line feed with a trailing carriage return stripped,
//! and `remainder` exposes what has not been consumed yet. The final line is
//! yielded as it stands, even without a terminating line feed.

use vstd::prelude::*;

verus! {

use vstd::string::StrSliceExecFns;

/// A line with its trailing carriage return stripped.
pub open spec fn strip_cr(line: Seq<char>) -> Seq<char> {
    if line.len() > 0 && line[line.len() - 1] == '\r' {
        line.drop_last()
    } else {
        line
    }
}

/// An iterator-like cursor over the lines of a borrowed string.
pub struct Lines<'a> {
    s: &'a str,
}

impl<'a> Lines<'a> {
    /// The text not consumed yet.
    pub closed spec fn spec_remainder(self) -> Seq<char> {
        self.s@
    }

    pub fn new(s: &'a str) -> (r: Self)
        ensures
            r.spec_remainder() == s@,
    {
        Lines { s }
    }

    /// The text not consumed yet.
    pub fn remainder(&self) -> (r: &'a str)
        ensures
            r@ == self.spec_remainder(),
    {
        self.s
    }

    /// The next line: the text up to the first line feed, with a trailing
    /// carriage return stripped, or all remaining text when no line feed is
    /// left. Yields nothing once the remainder is empty.
    pub fn next(&mut self) -> (r: Option<&'a str>)
        ensures
            ({
                let pre = old(self).spec_remainder();
                let post = final(self).spec_remainder();
                match r {
                    None => pre.len() == 0 && post == pre,
                    Some(line) => pre.len() > 0 && if (exists|i: int|
                        0 <= i < pre.len() && pre[i] == '\n') {
                        exists|i: int|
                            {
                                &&& 0 <= i < pre.len()
                                &&& pre[i] == '\n'
                                &&& forall|j: int| 0 <= j < i ==> pre[j] != '\n'
                                &&& line@ == strip_cr(pre.take(i))
                                &&& post == pre.skip(i + 1)
                            }
                    } else {
                        line@ == pre && post.len() == 0
                    },
                }
            }),
    {
        let ghost pre = self.s@;
        let n = self.s.unicode_len();
        if n == 0 {
            return None;
        }
        let mut i: usize = 0;
        let mut found = false;
        while i < n && !found
            invariant
                n == pre.len(),
                pre == self.s@,
                i <= n,
                found ==> i < n && pre[i as int] == '\n',
                forall|j: int| 0 <= j < i ==> pre[j] != '\n',
            decreases n - i, (if found { 0int } else { 1int }),
        {
            if self.s.get_char(i) == '\n' {
                found = true;
            } else {
                i = i + 1;
            }
        }
        if found {
            let line_end = if i > 0 && self.s.get_char(i - 1) == '\r' {
                i - 1
            } else {
                i
            };
            let line = self.s.substring_char(0, line_end);
            self.s = self.s.substring_char(i + 1, n);
            proof {
                if line_end < i {
                    assert(pre.take(i as int).len() > 0);
                    assert(pre.take(i as int)[i - 1] == pre[i - 1]);
                    assert(line@ =~= strip_cr(pre.take(i as int)));
                } else {
                    assert(line@ =~= strip_cr(pre.take(i as int)));
                }
                assert(self.s@ =~= pre.skip(i + 1));
            }
            Some(line)
        } else {
            let line = self.s;
            self.s = "";
            proof {
                reveal_strlit("");
                assert(forall|j: int| 0 <= j < pre.len() ==> pre[j] != '\n');
            }
            Some(line)
        }
    }
}

} // verus!
