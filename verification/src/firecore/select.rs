//! The paged pick list: which line is hovered, which are ticked, and what a key does.
//! Drawing it and reading keys are the caller's.
use vstd::prelude::*;
use crate::text::{append_decimal, chars_of, decimal, string_from};

verus! {

/// The keys the pick list answers to.
#[derive(Debug, PartialEq, Eq, Structural, Clone, Copy)]
pub enum SelectKey {
    /// Up or `k`: the line above, wrapping to the last.
    Up,
    /// Down or `j`: the line below, wrapping to the first.
    Down,
    /// Left or `h`: the first line of the page before, wrapping to the last page.
    Left,
    /// Right or `l`: the first line of the page after, wrapping to the first page.
    Right,
    /// Space: tick or untick the hovered line (multi-pick lists only).
    Toggle,
    /// Enter: tick the hovered line and finish.
    Confirm,
    /// Esc, `q` or Ctrl-C: give up.
    Cancel,
    /// Any other key: nothing.
    Other,
}

/// How a key left the pick list.
#[derive(Debug)]
pub enum SelectOutcome {
    /// Still picking.
    Continue,
    /// Given up: nothing picked.
    Cancelled,
    /// Finished: the ticked lines, in ascending order.
    Confirmed(Vec<usize>),
}

/// The lines shown at once: all of them up to fifteen, else ten.
pub open spec fn page_size_of(n: nat) -> nat {
    if n <= 15 {
        n
    } else {
        10
    }
}

/// Where the hover goes on `key`, in a list of `n` lines shown `ps` at a time.
pub open spec fn hover_after(key: SelectKey, h: nat, n: nat, ps: nat) -> nat {
    match key {
        SelectKey::Up => if h > 0 {
            (h - 1) as nat
        } else {
            (n - 1) as nat
        },
        SelectKey::Down => if h + 1 < n {
            h + 1
        } else {
            0
        },
        SelectKey::Left => if n > ps {
            if h / ps > 0 {
                ((h / ps - 1) * ps) as nat
            } else {
                (((n - 1) as nat / ps) * ps) as nat
            }
        } else {
            h
        },
        SelectKey::Right => if n > ps {
            if h / ps < (n - 1) as nat / ps {
                ((h / ps + 1) * ps) as nat
            } else {
                0
            }
        } else {
            h
        },
        _ => h,
    }
}

/// The ticks after `key`: Space flips the hovered line in a multi-pick list, Enter
/// ticks it.
pub open spec fn ticks_after(key: SelectKey, ticks: Seq<bool>, h: nat, multi: bool) -> Seq<bool> {
    match key {
        SelectKey::Toggle => if multi {
            ticks.update(h as int, !ticks[h as int])
        } else {
            ticks
        },
        SelectKey::Confirm => ticks.update(h as int, true),
        _ => ticks,
    }
}

/// The ticked lines, in ascending order, among the first `k`.
pub open spec fn ticked(ticks: Seq<bool>, k: int) -> Seq<usize>
    decreases k,
{
    if k <= 0 {
        Seq::empty()
    } else if ticks[k - 1] {
        ticked(ticks, k - 1).push((k - 1) as usize)
    } else {
        ticked(ticks, k - 1)
    }
}

/// The state of a pick list over `n` lines.
#[derive(Debug)]
pub struct SelectState {
    /// The hovered line.
    pub hovered: usize,
    /// Whether each line is ticked.
    pub ticks: Vec<bool>,
    /// The lines shown at once.
    pub page_size: usize,
    /// Whether several lines may be ticked.
    pub is_multi: bool,
}

impl SelectState {
    /// The state is one of a list of at least one line: the hover is on a line and the
    /// page size is the list's.
    pub open spec fn wf(&self) -> bool {
        &&& self.ticks@.len() >= 1
        &&& self.hovered < self.ticks@.len()
        &&& self.page_size == page_size_of(self.ticks@.len() as nat)
    }

    /// A fresh pick list over `n` lines: first line hovered, nothing ticked.
    pub fn new(n: usize, is_multi: bool) -> (s: SelectState)
        requires
            n >= 1,
        ensures
            s.wf(),
            s.ticks@.len() == n,
            s.hovered == 0,
            s.is_multi == is_multi,
            forall|i: int| 0 <= i < n ==> !(#[trigger] s.ticks@[i]),
    {
        let mut ticks: Vec<bool> = Vec::new();
        let mut i: usize = 0;
        while i < n
            invariant
                i <= n,
                ticks@.len() == i,
                forall|j: int| 0 <= j < i ==> !(#[trigger] ticks@[j]),
            decreases n - i,
        {
            ticks.push(false);
            i += 1;
        }
        let page_size = if n <= 15 {
            n
        } else {
            10
        };
        SelectState { hovered: 0, ticks, page_size, is_multi }
    }

    /// The page the hover is on, counting from 0.
    pub fn page(&self) -> (p: usize)
        requires
            self.wf(),
        ensures
            p == self.hovered / self.page_size,
    {
        self.hovered / self.page_size
    }

    /// The lines of the hovered page: from its first line up to (not including) the
    /// end, which is the page's size further on or the end of the list.
    pub fn visible_range(&self) -> (r: (usize, usize))
        requires
            self.wf(),
        ensures
            r.0 == (self.hovered / self.page_size) * self.page_size,
            r.1 == if r.0 + self.page_size <= self.ticks@.len() {
                r.0 + self.page_size
            } else {
                self.ticks@.len() as int
            },
            r.0 <= self.hovered < r.1 <= self.ticks@.len(),
    {
        let ps = self.page_size;
        let h = self.hovered;
        let n = self.ticks.len();
        let page = h / ps;
        proof {
            lemma_page_start(h as nat, ps as nat);
        }
        let start = page * ps;
        let end = if ps <= n - start {
            start + ps
        } else {
            n
        };
        (start, end)
    }

    /// Answers one key.
    pub fn handle_key(&mut self, key: SelectKey) -> (out: SelectOutcome)
        requires
            old(self).wf(),
        ensures
            final(self).wf(),
            final(self).page_size == old(self).page_size,
            final(self).is_multi == old(self).is_multi,
            final(self).hovered == hover_after(
                key,
                old(self).hovered as nat,
                old(self).ticks@.len() as nat,
                old(self).page_size as nat,
            ),
            final(self).ticks@ == ticks_after(key, old(self).ticks@, old(self).hovered as nat, old(self).is_multi),
            key == SelectKey::Cancel ==> out is Cancelled,
            key == SelectKey::Confirm ==> (out matches SelectOutcome::Confirmed(v) && v@ == ticked(
                final(self).ticks@,
                final(self).ticks@.len() as int,
            ) && v@.contains(old(self).hovered)),
            key != SelectKey::Cancel && key != SelectKey::Confirm ==> out is Continue,
    {
        let n = self.ticks.len();
        let ps = self.page_size;
        let h = self.hovered;
        match key {
            SelectKey::Cancel => SelectOutcome::Cancelled,
            SelectKey::Up => {
                self.hovered = if h > 0 {
                    h - 1
                } else {
                    n - 1
                };
                SelectOutcome::Continue
            },
            SelectKey::Down => {
                self.hovered = if h + 1 < n {
                    h + 1
                } else {
                    0
                };
                SelectOutcome::Continue
            },
            SelectKey::Left => {
                if n > ps {
                    let cp = h / ps;
                    proof {
                        lemma_page_start(h as nat, ps as nat);
                        lemma_page_start((n - 1) as nat, ps as nat);
                    }
                    if cp > 0 {
                        proof {
                            lemma_mul_le((cp - 1) as nat, cp as nat, ps as nat);
                        }
                        self.hovered = (cp - 1) * ps;
                    } else {
                        self.hovered = ((n - 1) / ps) * ps;
                    }
                }
                SelectOutcome::Continue
            },
            SelectKey::Right => {
                if n > ps {
                    let cp = h / ps;
                    let last = (n - 1) / ps;
                    proof {
                        lemma_page_start((n - 1) as nat, ps as nat);
                    }
                    if cp < last {
                        proof {
                            lemma_mul_le((cp + 1) as nat, last as nat, ps as nat);
                        }
                        self.hovered = (cp + 1) * ps;
                    } else {
                        self.hovered = 0;
                    }
                }
                SelectOutcome::Continue
            },
            SelectKey::Toggle => {
                if self.is_multi {
                    let t = self.ticks[h];
                    self.ticks.set(h, !t);
                }
                SelectOutcome::Continue
            },
            SelectKey::Confirm => {
                self.ticks.set(h, true);
                proof {
                    lemma_confirm_picks(old(self).ticks@, h as nat, self.is_multi);
                }
                let picked = ticked_indices(&self.ticks);
                SelectOutcome::Confirmed(picked)
            },
            SelectKey::Other => SelectOutcome::Continue,
        }
    }
}

/// The first line of the page holding `h` is at or before `h`.
pub proof fn lemma_page_start(h: nat, ps: nat)
    requires
        ps > 0,
    ensures
        (h / ps) * ps <= h,
        h < (h / ps) * ps + ps,
{
    assert((h / ps) * ps <= h && h < (h / ps) * ps + ps) by (nonlinear_arith)
        requires
            ps > 0,
    ;
}

/// Multiplying keeps order.
pub proof fn lemma_mul_le(a: nat, b: nat, c: nat)
    requires
        a <= b,
    ensures
        a * c <= b * c,
{
    assert(a * c <= b * c) by (nonlinear_arith)
        requires
            a <= b,
    ;
}

/// The ticked lines, in ascending order.
pub fn ticked_indices(ticks: &Vec<bool>) -> (out: Vec<usize>)
    ensures
        out@ == ticked(ticks@, ticks@.len() as int),
{
    let mut out: Vec<usize> = Vec::new();
    let mut i: usize = 0;
    while i < ticks.len()
        invariant
            i <= ticks.len(),
            out@ == ticked(ticks@, i as int),
        decreases ticks.len() - i,
    {
        if ticks[i] {
            out.push(i);
        }
        i += 1;
    }
    out
}

/// `s` cut to `max_len` characters: a longer text keeps its first `max_len - 3` and
/// ends in `...`, or, when `max_len` leaves no room for the dots, keeps just its first
/// `max_len` characters.
pub open spec fn truncated(s: Seq<char>, max_len: nat) -> Seq<char> {
    if s.len() > max_len {
        if max_len >= 3 {
            s.take(max_len - 3) + "..."@
        } else {
            s.take(max_len as int)
        }
    } else {
        s
    }
}

/// `s` cut to fit `max_len` characters: the result is never wider than `max_len`.
pub fn truncate(s: &str, max_len: usize) -> (out: String)
    ensures
        out@ == truncated(s@, max_len as nat),
        out@.len() <= max_len,
{
    let v = chars_of(s);
    proof {
        reveal_strlit("...");
    }
    if v.len() > max_len {
        if max_len >= 3 {
            let keep = max_len - 3;
            let mut out = string_from(&v, 0, keep);
            out.append("...");
            assert(v@.subrange(0, keep as int) =~= v@.take(keep as int));
            out
        } else {
            assert(v@.subrange(0, max_len as int) =~= v@.take(max_len as int));
            string_from(&v, 0, max_len)
        }
    } else {
        String::from_str(s)
    }
}

/// The prompt shown above the lines: with `(Page p/total)` when the list has pages.
pub open spec fn prompt_line(prompt: Seq<char>, h: nat, n: nat) -> Seq<char> {
    let ps = page_size_of(n);
    if n > ps {
        prompt + " (Page "@ + decimal(h / ps + 1) + "/"@ + decimal(((n + ps - 1) as nat) / ps) + ")"@
    } else {
        prompt
    }
}

impl SelectState {
    /// The prompt shown above the lines.
    pub fn prompt_text(&self, prompt: &str) -> (out: String)
        requires
            self.wf(),
            self.ticks@.len() + 10 <= usize::MAX,
        ensures
            out@ == prompt_line(prompt@, self.hovered as nat, self.ticks@.len() as nat),
    {
        let n = self.ticks.len();
        let ps = self.page_size;
        if n > ps {
            let mut out = String::from_str(prompt);
            out.append(" (Page ");
            proof {
                lemma_page_start(self.hovered as nat, ps as nat);
            }
            append_decimal(&mut out, self.hovered / ps + 1);
            out.append("/");
            append_decimal(&mut out, (n + ps - 1) / ps);
            out.append(")");
            out
        } else {
            String::from_str(prompt)
        }
    }
}


/// Moving up then down, or down then up, comes back to the same line.
pub proof fn lemma_up_down_inverse(h: nat, n: nat, ps: nat)
    requires
        h < n,
    ensures
        hover_after(SelectKey::Down, hover_after(SelectKey::Up, h, n, ps), n, ps) == h,
        hover_after(SelectKey::Up, hover_after(SelectKey::Down, h, n, ps), n, ps) == h,
{
}

/// Every key keeps the hover on a line of the list.
pub proof fn lemma_hover_in_range(key: SelectKey, h: nat, n: nat)
    requires
        h < n,
    ensures
        hover_after(key, h, n, page_size_of(n)) < n,
{
    let ps = page_size_of(n);
    lemma_page_start(h, ps);
    lemma_page_start((n - 1) as nat, ps);
    if h / ps > 0 {
        lemma_mul_le((h / ps - 1) as nat, h / ps, ps);
    }
    if h / ps < (n - 1) as nat / ps {
        lemma_mul_le(h / ps + 1, (n - 1) as nat / ps, ps);
    }
}

/// Ticking a line twice with Space leaves the ticks as they were.
pub proof fn lemma_toggle_twice(ticks: Seq<bool>, h: nat, multi: bool)
    requires
        h < ticks.len(),
    ensures
        ticks_after(SelectKey::Toggle, ticks_after(SelectKey::Toggle, ticks, h, multi), h, multi) == ticks,
{
    if multi {
        assert(ticks.update(h as int, !ticks[h as int]).update(h as int, ticks[h as int]) =~= ticks);
    }
}

/// The ticked lines are exactly the lines ticked, each once, in ascending order.
pub proof fn lemma_ticked(ticks: Seq<bool>, k: int)
    requires
        0 <= k <= ticks.len(),
        ticks.len() <= usize::MAX,
    ensures
        forall|a: int, b: int| 0 <= a < b < ticked(ticks, k).len() ==> ticked(ticks, k)[a] < ticked(ticks, k)[b],
        forall|a: int| 0 <= a < ticked(ticks, k).len() ==> ticked(ticks, k)[a] < k && ticks[ticked(ticks, k)[a] as int],
        forall|i: int| 0 <= i < k && ticks[i] ==> ticked(ticks, k).contains(i as usize),
    decreases k,
{
    if k > 0 {
        lemma_ticked(ticks, k - 1);
        let prev = ticked(ticks, k - 1);
        if ticks[k - 1] {
            let cur = prev.push((k - 1) as usize);
            assert forall|i: int| 0 <= i < k && ticks[i] implies cur.contains(i as usize) by {
                if i < k - 1 {
                    let j = choose|j: int| 0 <= j < prev.len() && prev[j] == i as usize;
                    assert(cur[j] == i as usize);
                } else {
                    assert(cur[prev.len() as int] == i as usize);
                }
            }
        }
    }
}

/// Enter picks the hovered line, in a multi-pick list as in a single-pick one: the lines
/// picked are exactly those ticked before and the hovered line, each once, in
/// ascending order.
pub proof fn lemma_confirm_picks(ticks: Seq<bool>, h: nat, multi: bool)
    requires
        h < ticks.len(),
        ticks.len() <= usize::MAX,
    ensures
        ({
            let picks = ticked(ticks_after(SelectKey::Confirm, ticks, h, multi), ticks.len() as int);
            &&& picks.contains(h as usize)
            &&& forall|i: int| 0 <= i < ticks.len() ==> (picks.contains(i as usize) <==> (ticks[i] || i == h))
            &&& forall|a: int, b: int| 0 <= a < b < picks.len() ==> picks[a] < picks[b]
        }),
{
    let t = ticks_after(SelectKey::Confirm, ticks, h, multi);
    assert(t.len() == ticks.len());
    lemma_ticked(t, ticks.len() as int);
    let picks = ticked(t, ticks.len() as int);
    assert(t[h as int]);
    assert forall|i: int| 0 <= i < ticks.len() implies (picks.contains(i as usize) <==> (ticks[i] || i == h)) by {
        assert(t[i] == (ticks[i] || i == h));
        if picks.contains(i as usize) {
            let j = choose|j: int| 0 <= j < picks.len() && picks[j] == i as usize;
            assert(t[picks[j] as int]);
        }
    }
}

/// In a single-pick list nothing is ticked before Enter, and Enter then gives exactly
/// the hovered line.
pub proof fn lemma_single_pick(ticks: Seq<bool>, h: nat)
    requires
        h < ticks.len(),
        ticks.len() <= usize::MAX,
        forall|i: int| 0 <= i < ticks.len() ==> !ticks[i],
    ensures
        forall|key: SelectKey| key != SelectKey::Confirm ==> #[trigger] ticks_after(key, ticks, h, false) == ticks,
        ticked(ticks_after(SelectKey::Confirm, ticks, h, false), ticks.len() as int) == seq![h as usize],
{
    let t = ticks.update(h as int, true);
    lemma_ticked(t, ticks.len() as int);
    let r = ticked(t, ticks.len() as int);
    assert(t[h as int]);
    assert(r.contains(h as usize));
    assert forall|a: int| 0 <= a < r.len() implies r[a] == h as usize by {
        assert(t[r[a] as int]);
    }
    if r.len() > 1 {
        assert(r[0] < r[1]);
        assert(r[0] == h as usize && r[1] == h as usize);
    }
    assert(r =~= seq![h as usize]);
}

} // verus!
