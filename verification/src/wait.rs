//! A cyclic progress indicator over a fixed sequence of display symbols.

use vstd::prelude::*;
use vstd::arithmetic::div_mod::lemma_add_mod_noop;
use vstd::arithmetic::div_mod::lemma_mod_self_0;
use vstd::arithmetic::div_mod::lemma_small_mod;

verus! {

/// What an indicator is, mathematically: its symbols in display order and the
/// position of the symbol that the next call yields.
pub struct WaitModel {
    pub symbols: Seq<&'static str>,
    pub cursor: nat,
}

impl WaitModel {
    /// The cursor points at one of the symbols; in particular there is at least one.
    pub open spec fn wf(self) -> bool {
        self.cursor < self.symbols.len()
    }

    /// The indicator as it is right after construction.
    pub open spec fn fresh(symbols: Seq<&'static str>) -> WaitModel {
        WaitModel { symbols, cursor: 0 }
    }

    /// The symbol that the next call yields.
    pub open spec fn current(self) -> &'static str {
        self.symbols[self.cursor as int]
    }

    /// The indicator after one call: the cursor moves on by one and goes back to
    /// the first symbol after the last, which is `(cursor + 1) mod length`
    /// (see [`lemma_tick`]).
    pub open spec fn tick(self) -> WaitModel {
        WaitModel {
            symbols: self.symbols,
            cursor: if self.cursor + 1 == self.symbols.len() {
                0
            } else {
                self.cursor + 1
            },
        }
    }

    /// The indicator after `n` calls.
    pub open spec fn after(self, n: nat) -> WaitModel
        decreases n,
    {
        if n == 0 {
            self
        } else {
            self.after((n - 1) as nat).tick()
        }
    }

    /// The indicator with its cursor back on the first symbol.
    pub open spec fn restarted(self) -> WaitModel {
        WaitModel { symbols: self.symbols, cursor: 0 }
    }
}

/// Cycles through a fixed, non-empty sequence of display symbols.
pub struct Wait {
    symbols: Vec<&'static str>,
    current: usize,
}

impl View for Wait {
    type V = WaitModel;

    closed spec fn view(&self) -> WaitModel {
        WaitModel { symbols: self.symbols@, cursor: self.current as nat }
    }
}

impl Wait {
    /// Every indicator has a symbol under its cursor.
    #[verifier::type_invariant]
    pub open spec fn inv(self) -> bool {
        self@.wf()
    }

    /// Builds an indicator that starts at the first of `symbols`.
    pub fn new(symbols: Vec<&'static str>) -> (wait: Wait)
        requires
            symbols.len() > 0,
        ensures
            wait@ == WaitModel::fresh(symbols@),
            wait@.wf(),
    {
        Wait { symbols, current: 0 }
    }

    /// Yields the current symbol and moves the cursor on, wrapping after the last.
    pub fn next(&mut self) -> (symbol: &'static str)
        ensures
            old(self)@.wf(),
            symbol == old(self)@.current(),
            final(self)@ == old(self)@.tick(),
            final(self)@.wf(),
    {
        proof {
            use_type_invariant(&*self);
        }
        let symbol = self.symbols[self.current];
        let len: usize = self.symbols.len();
        self.current = if self.current + 1 == len {
            0
        } else {
            self.current + 1
        };
        symbol
    }

    /// Puts the cursor back on the first symbol.
    pub fn restart(&mut self)
        ensures
            old(self)@.wf(),
            final(self)@ == old(self)@.restarted(),
            final(self)@.wf(),
    {
        proof {
            use_type_invariant(&*self);
        }
        self.current = 0;
    }
}

/// One call moves the cursor to `(cursor + 1) mod length` and keeps the symbols.
pub proof fn lemma_tick(m: WaitModel)
    requires
        m.wf(),
    ensures
        m.tick().wf(),
        m.tick().symbols == m.symbols,
        m.tick().cursor == (m.cursor + 1) % m.symbols.len(),
{
    let len = m.symbols.len();
    if m.cursor + 1 == len {
        lemma_mod_self_0(len as int);
    } else {
        lemma_small_mod(m.cursor + 1, len);
    }
}

/// After `n` calls the symbols are unchanged and the cursor has moved `n`
/// places round the cycle.
pub proof fn lemma_after(m: WaitModel, n: nat)
    requires
        m.wf(),
    ensures
        m.after(n).wf(),
        m.after(n).symbols == m.symbols,
        m.after(n).cursor == (m.cursor + n) % m.symbols.len(),
    decreases n,
{
    let len = m.symbols.len() as int;
    if n == 0 {
        lemma_small_mod(m.cursor, len as nat);
    } else {
        lemma_after(m, (n - 1) as nat);
        lemma_tick(m.after((n - 1) as nat));
        let before = m.cursor + n - 1;
        lemma_add_mod_noop(before, 1, len);
        if len == 1 {
            lemma_mod_self_0(len);
        } else {
            lemma_small_mod(1, len as nat);
        }
    }
}

/// A fresh indicator over `N` symbols yields each symbol once, in order, over
/// its first `N` calls: call number `k` (counting from zero) yields symbol `k`.
/// After `N` calls it is back where it started, so the call after those yields
/// the first symbol again, and this goes on forever with period `N`.
pub proof fn lemma_cycle(symbols: Seq<&'static str>, k: nat)
    requires
        symbols.len() > 0,
    ensures
        k < symbols.len() ==> WaitModel::fresh(symbols).after(k).current() == symbols[k as int],
        WaitModel::fresh(symbols).after(symbols.len()) == WaitModel::fresh(symbols),
        WaitModel::fresh(symbols).after(symbols.len()).current() == symbols[0],
        WaitModel::fresh(symbols).after(k + symbols.len()) == WaitModel::fresh(symbols).after(k),
{
    let m = WaitModel::fresh(symbols);
    let len = symbols.len();
    lemma_after(m, k);
    lemma_after(m, len);
    lemma_after(m, k + len);
    lemma_mod_self_0(len as int);
    if k < len {
        lemma_small_mod(k, len);
    }
    lemma_add_mod_noop(k as int, len as int, len as int);
    vstd::arithmetic::div_mod::lemma_mod_twice(k as int, len as int);
}

} // verus!
