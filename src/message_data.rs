use vstd::prelude::*;

use crate::text::{chars_of, string_of};

verus! {

/// Two misspelled copies of a message merged into one: equal characters are
/// taken once; where they differ, one character of lookahead tells a
/// character missing on one side from two different characters, which are
/// both kept.
pub open spec fn merge_texts(a: Seq<char>, b: Seq<char>) -> Seq<char>
    decreases a.len() + b.len(),
{
    if a.len() == 0 {
        b
    } else if b.len() == 0 {
        a
    } else {
        let x = a[0];
        let y = b[0];
        if x == y {
            seq![x] + merge_texts(a.drop_first(), b.drop_first())
        } else if a.len() >= 2 && b.len() >= 2 {
            if a[1] == y {
                seq![x, a[1]] + merge_texts(a.subrange(2, a.len() as int), b.drop_first())
            } else if x == b[1] {
                seq![y, x] + merge_texts(a.drop_first(), b.subrange(2, b.len() as int))
            } else {
                seq![x, y] + merge_texts(a.drop_first(), b.drop_first())
            }
        } else if a.len() >= 2 {
            if a[1] == y {
                seq![x, a[1]] + a.subrange(2, a.len() as int)
            } else {
                seq![x, y, a[1]] + a.subrange(2, a.len() as int)
            }
        } else if b.len() >= 2 {
            if x == b[1] {
                seq![y, x] + b.subrange(2, b.len() as int)
            } else {
                seq![x, y, b[1]] + b.subrange(2, b.len() as int)
            }
        } else {
            seq![x, y]
        }
    }
}

/// A message rebuilt from several garbled copies of it, with the number of
/// copies seen.
pub struct MessageData {
    pub content: String,
    pub count: u16,
}

impl MessageData {
    pub fn new(content: String) -> (r: Self)
        ensures
            r.content@ == content@,
            r.count == 1,
    {
        MessageData { content, count: 1 }
    }

    /// Merges one more copy into the content. The count of copies stops at
    /// the largest `u16`.
    pub fn reconstruct_message(&mut self, s2: &str)
        ensures
            final(self).content@ == merge_texts(old(self).content@, s2@),
            final(self).count == if old(self).count < u16::MAX {
                (old(self).count + 1) as u16
            } else {
                old(self).count
            },
    {
        let a = chars_of(self.content.as_str());
        let b = chars_of(s2);
        let mut buf: Vec<char> = Vec::new();
        let mut i: usize = 0;
        let mut j: usize = 0;
        let ghost whole = merge_texts(a@, b@);
        assert(a@.subrange(0, a.len() as int) == a@);
        assert(b@.subrange(0, b.len() as int) == b@);
        while i < a.len() || j < b.len()
            invariant
                i <= a.len(),
                j <= b.len(),
                buf@ + merge_texts(a@.subrange(i as int, a.len() as int), b@.subrange(j as int, b.len() as int))
                    == whole,
            decreases a.len() + b.len() - i - j,
        {
            let ghost ra = a@.subrange(i as int, a.len() as int);
            let ghost rb = b@.subrange(j as int, b.len() as int);
            let ghost before = buf@;
            if i < a.len() && j < b.len() {
                let x = a[i];
                let y = b[j];
                if x == y {
                    buf.push(x);
                    i = i + 1;
                    j = j + 1;
                    assert(ra.drop_first() == a@.subrange(i as int, a.len() as int));
                    assert(rb.drop_first() == b@.subrange(j as int, b.len() as int));
                    assert(buf@ == before + seq![x]);
                } else if i + 1 < a.len() && j + 1 < b.len() {
                    let x2 = a[i + 1];
                    let y2 = b[j + 1];
                    if x2 == y {
                        buf.push(x);
                        buf.push(x2);
                        i = i + 2;
                        j = j + 1;
                        assert(ra.subrange(2, ra.len() as int) == a@.subrange(i as int, a.len() as int));
                        assert(rb.drop_first() == b@.subrange(j as int, b.len() as int));
                        assert(buf@ == before + seq![x, x2]);
                    } else if x == y2 {
                        buf.push(y);
                        buf.push(x);
                        i = i + 1;
                        j = j + 2;
                        assert(ra.drop_first() == a@.subrange(i as int, a.len() as int));
                        assert(rb.subrange(2, rb.len() as int) == b@.subrange(j as int, b.len() as int));
                        assert(buf@ == before + seq![y, x]);
                    } else {
                        buf.push(x);
                        buf.push(y);
                        i = i + 1;
                        j = j + 1;
                        assert(ra.drop_first() == a@.subrange(i as int, a.len() as int));
                        assert(rb.drop_first() == b@.subrange(j as int, b.len() as int));
                        assert(buf@ == before + seq![x, y]);
                    }
                } else if i + 1 < a.len() {
                    let x2 = a[i + 1];
                    buf.push(x);
                    if x2 != y {
                        buf.push(y);
                    }
                    buf.push(x2);
                    i = i + 2;
                    j = j + 1;
                    let ghost rest = a@.subrange(i as int, a.len() as int);
                    assert(ra.subrange(2, ra.len() as int) == rest);
                    assert(b@.subrange(j as int, b.len() as int) == Seq::<char>::empty());
                    assert(merge_texts(rest, Seq::<char>::empty()) == rest);
                    if x2 == y {
                        assert(buf@ == before + seq![x, x2]);
                    } else {
                        assert(buf@ == before + seq![x, y, x2]);
                    }
                } else if j + 1 < b.len() {
                    let y2 = b[j + 1];
                    if x == y2 {
                        buf.push(y);
                        buf.push(x);
                    } else {
                        buf.push(x);
                        buf.push(y);
                        buf.push(y2);
                    }
                    i = i + 1;
                    j = j + 2;
                    let ghost rest = b@.subrange(j as int, b.len() as int);
                    assert(rb.subrange(2, rb.len() as int) == rest);
                    assert(a@.subrange(i as int, a.len() as int) == Seq::<char>::empty());
                    if x == y2 {
                        assert(buf@ == before + seq![y, x]);
                    } else {
                        assert(buf@ == before + seq![x, y, y2]);
                    }
                } else {
                    buf.push(x);
                    buf.push(y);
                    i = i + 1;
                    j = j + 1;
                    assert(a@.subrange(i as int, a.len() as int) == Seq::<char>::empty());
                    assert(b@.subrange(j as int, b.len() as int) == Seq::<char>::empty());
                    assert(buf@ == before + seq![x, y]);
                }
            } else if i < a.len() {
                buf.push(a[i]);
                i = i + 1;
                assert(rb == Seq::<char>::empty());
                assert(ra.drop_first() == a@.subrange(i as int, a.len() as int));
                assert(ra == seq![ra[0]] + ra.drop_first());
                assert(merge_texts(ra.drop_first(), rb) == ra.drop_first());
            } else {
                buf.push(b[j]);
                j = j + 1;
                assert(ra == Seq::<char>::empty());
                assert(rb.drop_first() == b@.subrange(j as int, b.len() as int));
                assert(rb == seq![rb[0]] + rb.drop_first());
            }
        }
        assert(a@.subrange(i as int, a.len() as int) == Seq::<char>::empty());
        assert(b@.subrange(j as int, b.len() as int) == Seq::<char>::empty());
        assert(buf@ == whole);
        self.count = self.count.saturating_add(1);
        self.content = string_of(&buf);
    }

    pub fn count(&self) -> (r: u16)
        ensures
            r == self.count,
    {
        self.count
    }

    pub fn content(&self) -> (r: &str)
        ensures
            r@ == self.content@,
    {
        self.content.as_str()
    }
}

} // verus!
