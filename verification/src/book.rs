//! Bounded, ordered top-of-book price aggregator: at most `N` distinct
//! tick-aligned prices per side, kept fully sorted with the best price first.
//! Side `REVERSE = false` keeps the array ascending (lowest price best),
//! side `REVERSE = true` keeps it descending.

use vstd::prelude::*;
use vstd::arithmetic::div_mod::{lemma_fundamental_div_mod, lemma_mod_multiples_basic};

verus! {

/// `px` rounded to the nearest multiple of `tick`, halves rounding up.
pub open spec fn spec_round_to_tick(px: int, tick: int) -> int
    recommends
        tick >= 1,
{
    if (px % tick) * 2 >= tick {
        (px / tick + 1) * tick
    } else {
        (px / tick) * tick
    }
}

/// Normalizes a price to the book's tick grid.
pub fn round_to_tick(px: u64, tick: u64) -> (r: u64)
    requires
        tick >= 1,
        px + tick <= u64::MAX,
    ensures
        r == spec_round_to_tick(px as int, tick as int),
        r as int % tick as int == 0,
        r <= px + tick,
{
    let q = px / tick;
    let rem = px % tick;
    proof {
        lemma_fundamental_div_mod(px as int, tick as int);
        assert(q * tick == tick * q && (q + 1) * tick == tick * q + tick) by (nonlinear_arith);
        lemma_mod_multiples_basic(q as int, tick as int);
        lemma_mod_multiples_basic(q as int + 1, tick as int);
        assert(q * tick == px - rem);
        assert((q + 1) * tick == px - rem + tick);
    }
    if rem >= tick - rem {
        (q + 1) * tick
    } else {
        q * tick
    }
}

/// A fixed-capacity ordered array of at most `N` distinct price levels; the
/// best price for the side sits at index 0.
#[derive(Debug)]
pub struct L2Book<const N: usize, const REVERSE: bool> {
    levels: Vec<u64>,
    tick_size: u64,
}

impl<const N: usize, const REVERSE: bool> View for L2Book<N, REVERSE> {
    type V = Seq<u64>;

    closed spec fn view(&self) -> Seq<u64> {
        self.levels@
    }
}

impl<const N: usize, const REVERSE: bool> L2Book<N, REVERSE> {
    pub closed spec fn tick_spec(&self) -> u64 {
        self.tick_size
    }

    /// `a` is at least as good as `b` under this side's ordering.
    pub open spec fn at_or_better(a: u64, b: u64) -> bool {
        if REVERSE {
            a >= b
        } else {
            a <= b
        }
    }

    /// `a` is strictly better than `b` under this side's ordering.
    pub open spec fn strictly_better(a: u64, b: u64) -> bool {
        if REVERSE {
            a > b
        } else {
            a < b
        }
    }

    /// Strictly ordered best-first: no duplicates, each level better than
    /// the next.
    pub open spec fn ordered(s: Seq<u64>) -> bool {
        forall|i: int, j: int|
            0 <= i < j < s.len() ==> Self::strictly_better(#[trigger] s[i], #[trigger] s[j])
    }

    /// `px` rounded to this book's tick grid.
    pub open spec fn round_spec(&self, px: u64) -> u64 {
        spec_round_to_tick(px as int, self.tick_spec() as int) as u64
    }

    /// The index where `px` belongs: the first position whose price is not
    /// strictly better than `px`, or `s.len()` if every price is better.
    pub open spec fn position_for(s: Seq<u64>, px: u64) -> int
        decreases s.len(),
    {
        if s.len() == 0 {
            0
        } else if Self::at_or_better(px, s[0]) {
            0
        } else {
            1 + Self::position_for(s.drop_first(), px)
        }
    }

    proof fn lemma_position_for_props(s: Seq<u64>, px: u64)
        ensures
            0 <= Self::position_for(s, px) <= s.len(),
            forall|j: int|
                0 <= j < Self::position_for(s, px) ==> !Self::at_or_better(px, #[trigger] s[j]),
            Self::position_for(s, px) < s.len() ==> Self::at_or_better(
                px,
                s[Self::position_for(s, px)],
            ),
        decreases s.len(),
    {
        if s.len() > 0 && !Self::at_or_better(px, s[0]) {
            let rest = s.drop_first();
            Self::lemma_position_for_props(rest, px);
            let pos = Self::position_for(s, px);
            assert forall|j: int| 0 <= j < pos implies !Self::at_or_better(px, #[trigger] s[j]) by {
                if j > 0 {
                    assert(s[j] == rest[j - 1]);
                }
            }
            if pos < s.len() {
                assert(s[pos] == rest[pos - 1]);
            }
        }
    }

    proof fn lemma_remove_sorted(s: Seq<u64>, pos: int)
        requires
            Self::ordered(s),
            0 <= pos < s.len(),
        ensures
            Self::ordered(s.remove(pos)),
    {
        let t = s.remove(pos);
        assert forall|i: int, j: int|
            0 <= i < j < t.len() implies Self::strictly_better(#[trigger] t[i], #[trigger] t[j]) by {
            let si: int = if i < pos {
                i
            } else {
                i + 1
            };
            let sj: int = if j < pos {
                j
            } else {
                j + 1
            };
            assert(t[i] == s[si] && t[j] == s[sj]);
        }
    }

    proof fn lemma_insert_sorted(s: Seq<u64>, pos: int, v: u64)
        requires
            Self::ordered(s),
            0 <= pos <= s.len(),
            forall|j: int| 0 <= j < pos ==> Self::strictly_better(#[trigger] s[j], v),
            forall|j: int| pos <= j < s.len() ==> Self::strictly_better(v, #[trigger] s[j]),
        ensures
            Self::ordered(s.insert(pos, v)),
    {
        let t = s.insert(pos, v);
        assert forall|i: int, j: int|
            0 <= i < j < t.len() implies Self::strictly_better(#[trigger] t[i], #[trigger] t[j]) by {
            if i < pos {
                assert(t[i] == s[i]);
            } else if i == pos {
                assert(t[i] == v);
            } else {
                assert(t[i] == s[i - 1]);
            }
            if j < pos {
                assert(t[j] == s[j]);
            } else if j == pos {
                assert(t[j] == v);
            } else {
                assert(t[j] == s[j - 1]);
            }
        }
    }

    /// The book invariant: a valid tick, at most `N` levels, strictly
    /// ordered, every level on the tick grid.
    pub closed spec fn wf(&self) -> bool {
        &&& self.tick_size >= 1
        &&& self@.len() <= N
        &&& Self::ordered(self@)
        &&& forall|i: int|
            0 <= i < self@.len() ==> #[trigger] self@[i] as int % self.tick_size as int == 0
    }

    pub fn new(tick_size: u64) -> (r: Self)
        requires
            tick_size >= 1,
        ensures
            r.wf(),
            r@ == Seq::<u64>::empty(),
            r.tick_spec() == tick_size,
    {
        L2Book { levels: Vec::new(), tick_size }
    }

    fn comparator(a: u64, b: u64) -> (r: bool)
        ensures
            r == Self::at_or_better(a, b),
    {
        if REVERSE {
            a >= b
        } else {
            a <= b
        }
    }

    /// The retained levels, best first.
    pub fn levels(&self) -> (r: &[u64])
        ensures
            r@ == self@,
    {
        self.levels.as_slice()
    }

    /// Empties the book.
    pub fn clear(&mut self)
        ensures
            final(self)@ == Seq::<u64>::empty(),
            final(self).tick_spec() == old(self).tick_spec(),
            old(self).wf() ==> final(self).wf(),
    {
        self.levels.clear();
    }

    /// Applies one price/quantity event.
    ///
    /// The price is first rounded to the tick grid. A zero `amt` deletes the
    /// level if it is retained (a delete of an absent price is a no-op) and
    /// refills the array with the next-worst price obtained from
    /// `get_next_worst_px`, queried with the previously worst retained
    /// price; if the lookup yields nothing the array shrinks. A non-zero
    /// `amt` inserts the price at its sorted position, evicting the worst
    /// level when the book is full; a price matching a retained level, or
    /// one beyond the current worst, changes nothing.
    ///
    /// The lookup must produce a price that still rounds to strictly beyond
    /// (worse than) the price it was asked about.
    pub fn update<F: Fn(u64) -> Option<u64>>(&mut self, px: u64, amt: u64, get_next_worst_px: F)
        requires
            N >= 1,
            old(self).wf(),
            px + old(self).tick_spec() <= u64::MAX,
            old(self)@.len() > 0 ==> call_requires(get_next_worst_px, (old(self)@.last(),)),
            forall|p: u64, ret: Option<u64>|
                call_ensures(get_next_worst_px, (p,), ret) ==> (ret matches Some(v) ==> v + old(
                    self,
                ).tick_spec() <= u64::MAX && Self::strictly_better(p, old(self).round_spec(v))),
        ensures
            final(self).wf(),
            final(self).tick_spec() == old(self).tick_spec(),
            Self::ordered(final(self)@),
            final(self)@.len() <= N,
            ({
                let s = old(self)@;
                let pxr = old(self).round_spec(px);
                let pos = Self::position_for(s, pxr);
                if amt != 0 {
                    if s.len() == 0 {
                        final(self)@ == seq![pxr]
                    } else if pos == s.len() {
                        final(self)@ == s
                    } else if s[pos] == pxr {
                        final(self)@ == s
                    } else if s.len() == N {
                        final(self)@ == s.insert(pos, pxr).take(N as int)
                    } else {
                        final(self)@ == s.insert(pos, pxr)
                    }
                } else {
                    if s.len() == 0 || pos == s.len() || s[pos] != pxr {
                        final(self)@ == s
                    } else {
                        exists|ret: Option<u64>|
                            {
                                &&& #[trigger] call_ensures(get_next_worst_px, (s.last(),), ret)
                                &&& match ret {
                                    None => final(self)@ == s.remove(pos),
                                    Some(v) => final(self)@ == s.remove(pos).push(
                                        old(self).round_spec(v),
                                    ),
                                }
                            }
                    }
                }
            }),
    {
        let ghost s = self.levels@;
        let px_r = round_to_tick(px, self.tick_size);
        proof {
            Self::lemma_position_for_props(s, px_r);
        }
        let ghost pos_spec = Self::position_for(s, px_r);

        let mut px_pos_opt: Option<usize> = if self.levels.len() == 0 {
            Some(0)
        } else {
            None
        };
        let mut worst_top_pos_opt: Option<usize> = None;
        let n = self.levels.len();
        let mut idx: usize = 0;
        while idx < n
            invariant
                self == old(self),
                s == self.levels@,
                n == s.len(),
                idx <= n,
                worst_top_pos_opt == (if idx == 0 {
                    None::<usize>
                } else {
                    Some((idx - 1) as usize)
                }),
                s.len() == 0 ==> px_pos_opt == Some(0usize),
                s.len() > 0 ==> (match px_pos_opt {
                    Some(p) => {
                        &&& p < idx
                        &&& Self::at_or_better(px_r, s[p as int])
                        &&& forall|j: int| 0 <= j < p ==> !Self::at_or_better(px_r, #[trigger] s[j])
                    },
                    None => forall|j: int|
                        0 <= j < idx ==> !Self::at_or_better(px_r, #[trigger] s[j]),
                }),
            decreases n - idx,
        {
            worst_top_pos_opt = Some(idx);
            if px_pos_opt.is_none() && Self::comparator(px_r, self.levels[idx]) {
                px_pos_opt = Some(idx);
            }
            idx += 1;
        }

        proof {
            if s.len() > 0 {
                match px_pos_opt {
                    Some(p) => {
                        assert(p as int == pos_spec);
                    },
                    None => {
                        assert(pos_spec == s.len());
                    },
                }
            }
        }

        let px_pos = match px_pos_opt {
            None => {
                return ;
            },
            Some(pos) => pos,
        };

        if amt == 0 {
            let worst_px = match worst_top_pos_opt {
                None => {
                    return ;
                },
                Some(pos) => self.levels[pos],
            };
            if self.levels[px_pos] != px_r {
                return ;
            }
            proof {
                assert(worst_px == s.last());
                Self::lemma_remove_sorted(s, px_pos as int);
            }
            self.levels.remove(px_pos);
            let ghost removed = self.levels@;
            proof {
                assert forall|i: int|
                    0 <= i < removed.len() implies #[trigger] removed[i] as int
                    % self.tick_size as int == 0 by {
                    let si: int = if i < px_pos {
                        i
                    } else {
                        i + 1
                    };
                    assert(removed[i] == s[si]);
                }
            }
            let next = get_next_worst_px(worst_px);
            match next {
                None => {
                    return ;
                },
                Some(v) => {
                    let v_r = round_to_tick(v, self.tick_size);
                    proof {
                        assert forall|j: int| 0 <= j < removed.len() implies Self::strictly_better(
                            #[trigger] removed[j],
                            v_r,
                        ) by {
                            let sj: int = if j < px_pos {
                                j
                            } else {
                                j + 1
                            };
                            assert(removed[j] == s[sj]);
                            assert(Self::strictly_better(s.last(), v_r));
                        }
                    }
                    self.levels.push(v_r);
                    proof {
                        assert(call_ensures(get_next_worst_px, (s.last(),), next));
                        assert forall|i: int, j: int|
                            0 <= i < j < self.levels@.len() implies Self::strictly_better(
                            #[trigger] self.levels@[i],
                            #[trigger] self.levels@[j],
                        ) by {
                            if j < removed.len() {
                                assert(self.levels@[i] == removed[i] && self.levels@[j]
                                    == removed[j]);
                            } else {
                                assert(self.levels@[j] == v_r && self.levels@[i] == removed[i]);
                            }
                        }
                        assert forall|i: int|
                            0 <= i < self.levels@.len() implies #[trigger] self.levels@[i] as int
                            % self.tick_size as int == 0 by {
                            if i < removed.len() {
                                let si: int = if i < px_pos {
                                    i
                                } else {
                                    i + 1
                                };
                                assert(self.levels@[i] == removed[i] && removed[i] == s[si]);
                            } else {
                                assert(self.levels@[i] == v_r);
                            }
                        }
                    }
                    return ;
                },
            }
        }

        if self.levels.len() == 0 {
            self.levels.push(px_r);
            proof {
                assert(self.levels@ =~= seq![px_r]);
            }
            return ;
        }
        if self.levels[px_pos] == px_r {
            return ;
        }
        if self.levels.len() == N {
            self.levels.pop();
            proof {
                assert(self.levels@ == s.drop_last());
            }
        }
        let ghost base = self.levels@;
        proof {
            assert forall|j: int| 0 <= j < px_pos implies Self::strictly_better(
                #[trigger] base[j],
                px_r,
            ) by {
                assert(base[j] == s[j]);
            }
            assert forall|j: int| px_pos <= j < base.len() implies Self::strictly_better(
                px_r,
                #[trigger] base[j],
            ) by {
                assert(base[j] == s[j]);
                if j > px_pos {
                    assert(Self::strictly_better(s[px_pos as int], s[j]));
                }
            }
            Self::lemma_insert_sorted(base, px_pos as int, px_r);
        }
        self.levels.insert(px_pos, px_r);
        proof {
            assert forall|i: int|
                0 <= i < self.levels@.len() implies #[trigger] self.levels@[i] as int
                % self.tick_size as int == 0 by {
                if i < px_pos {
                    assert(self.levels@[i] == base[i] && base[i] == s[i]);
                } else if i == px_pos {
                    assert(self.levels@[i] == px_r);
                } else {
                    assert(self.levels@[i] == base[i - 1] && base[i - 1] == s[i - 1]);
                }
            }
            if s.len() == N {
                assert(self.levels@ =~= s.insert(pos_spec, px_r).take(N as int));
            }
        }
    }
}

} // verus!
