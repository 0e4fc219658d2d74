//! The bounded scrollback: a FIFO of at most `SCROLLBACK_CAPACITY`
//! display records, oldest evicted on overflow, rendered oldest-first as
//! prefixed display lines.

use vstd::prelude::*;

use crate::message::Category;
use crate::message::ThreadMessage;

verus! {

/// How many records the scrollback retains.
pub const SCROLLBACK_CAPACITY: usize = 10;

/// The mathematical shape of one scrollback record: its category and the
/// characters of its text.
pub type RecordView = (Category, Seq<char>);

/// The records a bounded scrollback retains out of `s`: all of them when
/// they fit, otherwise the most recent `SCROLLBACK_CAPACITY`, in order.
pub open spec fn retained(s: Seq<RecordView>) -> Seq<RecordView> {
    if s.len() <= SCROLLBACK_CAPACITY as int {
        s
    } else {
        s.skip(s.len() - SCROLLBACK_CAPACITY as int)
    }
}

/// The display lines one record contributes: sent text is prefixed
/// `"me: "`, received text `"partner: "`, and control records contribute
/// no visible line.
pub open spec fn line_for(r: RecordView) -> Seq<Seq<char>> {
    match r.0 {
        Category::Sent => seq!["me: "@ + r.1],
        Category::Received => seq!["partner: "@ + r.1],
        Category::SystemTerminate => Seq::empty(),
    }
}

/// The display lines for a whole record sequence, oldest first.
pub open spec fn rendered_lines(s: Seq<RecordView>) -> Seq<Seq<char>>
    decreases s.len(),
{
    if s.len() == 0 {
        Seq::empty()
    } else {
        rendered_lines(s.drop_last()) + line_for(s.last())
    }
}

/// The scrollback contents after a whole history of appends into an
/// initially empty buffer, each append retaining as `append` does.
pub open spec fn scroll_after(all: Seq<RecordView>) -> Seq<RecordView>
    decreases all.len(),
{
    if all.len() == 0 {
        Seq::empty()
    } else {
        retained(scroll_after(all.drop_last()).push(all.last()))
    }
}

/// Retaining commutes with appending: evicting as each record arrives
/// leaves the same records as evicting once at the end.
pub proof fn lemma_retained_after_append(s: Seq<RecordView>, r: RecordView)
    ensures
        retained(retained(s).push(r)) == retained(s.push(r)),
{
    assert(retained(retained(s).push(r)) =~= retained(s.push(r)));
}

/// After any sequence of appends into an initially empty scrollback, the
/// buffer holds exactly the most recent records — at most the capacity,
/// in insertion order — and renders to at most that many lines.
pub proof fn lemma_scrollback_shows_latest(all: Seq<RecordView>)
    ensures
        scroll_after(all) == retained(all),
        scroll_after(all).len() <= SCROLLBACK_CAPACITY as int,
        rendered_lines(scroll_after(all)).len() <= SCROLLBACK_CAPACITY as int,
    decreases all.len(),
{
    if all.len() == 0 {
        assert(scroll_after(all) =~= retained(all));
    } else {
        lemma_scrollback_shows_latest(all.drop_last());
        lemma_retained_after_append(all.drop_last(), all.last());
        assert(all.drop_last().push(all.last()) =~= all);
    }
    lemma_rendered_lines_bounded(scroll_after(all));
}

/// A rendering never has more lines than there are records: each record
/// contributes at most one display line.
pub proof fn lemma_rendered_lines_bounded(s: Seq<RecordView>)
    ensures
        rendered_lines(s).len() <= s.len(),
    decreases s.len(),
{
    if s.len() > 0 {
        lemma_rendered_lines_bounded(s.drop_last());
    }
}

/// For a history of text records alone — sent or received, the only
/// kinds the driver ever appends — the rendering is exact: one line per
/// record, in insertion order, no record skipped, duplicated or
/// reordered, and line `i` is record `i`'s text behind its direction
/// prefix.
pub proof fn lemma_rendered_lines_exact(s: Seq<RecordView>)
    requires
        forall|i: int| 0 <= i < s.len() ==> (#[trigger] s[i]).0 != Category::SystemTerminate,
    ensures
        rendered_lines(s).len() == s.len(),
        forall|i: int|
            0 <= i < s.len() ==> #[trigger] rendered_lines(s)[i] == (if s[i].0 == Category::Sent {
                "me: "@ + s[i].1
            } else {
                "partner: "@ + s[i].1
            }),
    decreases s.len(),
{
    if s.len() > 0 {
        let pre = s.drop_last();
        let last = s.last();
        assert(last == s[s.len() - 1]);
        lemma_rendered_lines_exact(pre);
        assert forall|i: int| 0 <= i < s.len() implies #[trigger] rendered_lines(s)[i] == (if s[i].0
            == Category::Sent {
            "me: "@ + s[i].1
        } else {
            "partner: "@ + s[i].1
        }) by {
            if i < s.len() - 1 {
                assert(pre[i] == s[i]);
                assert(rendered_lines(s)[i] == rendered_lines(pre)[i]);
            } else {
                assert(rendered_lines(s)[i] == line_for(last)[0]);
            }
        }
    }
}

/// Bounded FIFO of display records: at most `SCROLLBACK_CAPACITY` entries,
/// insertion order is display order, the oldest entry leaves on overflow.
pub struct ScrollbackBuffer {
    records: Vec<ThreadMessage>,
}

impl View for ScrollbackBuffer {
    type V = Seq<RecordView>;

    closed spec fn view(&self) -> Seq<RecordView> {
        Seq::new(self.records@.len(), |i: int| self.records@[i]@)
    }
}

impl ScrollbackBuffer {
    /// The scrollback never holds more records than its capacity.
    pub open spec fn wf(&self) -> bool {
        self@.len() <= SCROLLBACK_CAPACITY as int
    }

    /// An empty scrollback.
    pub fn new() -> (r: ScrollbackBuffer)
        ensures
            r@ == Seq::<RecordView>::empty(),
            r.wf(),
    {
        let r = ScrollbackBuffer { records: Vec::new() };
        proof {
            assert(r@ =~= Seq::<RecordView>::empty());
        }
        r
    }

    /// How many records are currently retained.
    pub fn len(&self) -> (n: usize)
        ensures
            n == self@.len(),
    {
        self.records.len()
    }

    /// Appends a record at the back; when the capacity is exceeded the
    /// oldest record is evicted, so the buffer ends up holding exactly
    /// the retained suffix of its old contents plus the new record.
    pub fn append(&mut self, m: ThreadMessage)
        requires
            old(self).wf(),
        ensures
            final(self)@ == retained(old(self)@.push(m@)),
            final(self).wf(),
    {
        let ghost pushed: Seq<RecordView> = old(self)@.push(m@);
        self.records.push(m);
        proof {
            assert(self@ =~= pushed);
        }
        if self.records.len() > SCROLLBACK_CAPACITY {
            self.records.remove(0);
        }
        proof {
            assert(self@ =~= retained(pushed));
        }
    }

    /// Produces the display lines for the retained records, oldest first.
    pub fn render(&self) -> (lines: Vec<String>)
        ensures
            lines.deep_view() == rendered_lines(self@),
    {
        let mut lines: Vec<String> = Vec::new();
        let mut i: usize = 0;
        proof {
            assert(lines.deep_view() =~= rendered_lines(self@.take(0)));
        }
        while i < self.records.len()
            invariant
                i <= self.records.len(),
                lines.deep_view() == rendered_lines(self@.take(i as int)),
            decreases self.records.len() - i,
        {
            let ghost before: Seq<Seq<char>> = lines.deep_view();
            let m = &self.records[i];
            match m.category {
                Category::Sent => {
                    lines.push(String::from_str("me: ").concat(m.content.as_str()));
                },
                Category::Received => {
                    lines.push(String::from_str("partner: ").concat(m.content.as_str()));
                },
                Category::SystemTerminate => {},
            }
            proof {
                let taken = self@.take(i + 1 as int);
                assert(taken.drop_last() =~= self@.take(i as int));
                assert(taken.last() == self@[i as int]);
                assert(lines.deep_view() =~= before + line_for(self@[i as int]));
                assert(lines.deep_view() =~= rendered_lines(taken));
            }
            i += 1;
        }
        proof {
            assert(self@.take(self.records@.len() as int) =~= self@);
        }
        lines
    }
}

} // verus!
