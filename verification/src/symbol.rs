//! Interned names.
//!
//! A [`Symbol`] is a small handle for the text of a name. An [`Interner`] owns
//! the text and hands out one handle per distinct text, so that two names of
//! one table are equal exactly when their handles are. The names of the
//! built-in declarations are reserved: every table holds them from the start,
//! each at a fixed position, which makes their handles constants.

use vstd::prelude::*;

verus! {

/// Handle of an interned name: the position of its text in the table.
#[derive(Clone, Copy, PartialEq, Eq, Structural, Debug, Hash)]
pub struct Symbol {
    pub index: usize,
}

impl Symbol {
    /// The handle of the empty text. No declaration goes by it.
    #[verifier::allow_in_spec]
    pub fn empty() -> Symbol
        returns
            (Symbol { index: 0 }),
    {
        Symbol { index: 0 }
    }

    /// The handle of `Fuel`, the name of the fuel domain.
    #[verifier::allow_in_spec]
    pub fn fuel() -> Symbol
        returns
            (Symbol { index: 1 }),
    {
        Symbol { index: 1 }
    }

    /// The handle of `Z`, the constructor of zero fuel.
    #[verifier::allow_in_spec]
    pub fn zero() -> Symbol
        returns
            (Symbol { index: 2 }),
    {
        Symbol { index: 2 }
    }

    /// The handle of `S`, the constructor of one more unit of fuel.
    #[verifier::allow_in_spec]
    pub fn succ() -> Symbol
        returns
            (Symbol { index: 3 }),
    {
        Symbol { index: 3 }
    }

    /// The handle of `f`, the name of the fuel argument.
    #[verifier::allow_in_spec]
    pub fn fuel_input() -> Symbol
        returns
            (Symbol { index: 4 }),
    {
        Symbol { index: 4 }
    }

    /// The handle of `fuel`, the name of the quantified fuel variable.
    #[verifier::allow_in_spec]
    pub fn fuel_quant() -> Symbol
        returns
            (Symbol { index: 5 }),
    {
        Symbol { index: 5 }
    }

    /// Whether this is the handle of the empty text.
    pub fn is_empty(self) -> (r: bool)
        ensures
            r == (self == Symbol::empty()),
    {
        self.index == 0
    }
}

/// The reserved names, each at the position of its handle.
pub open spec fn reserved_names() -> Seq<Seq<char>> {
    seq![""@, "Fuel"@, "Z"@, "S"@, "f"@, "fuel"@]
}

/// A table is well formed when it starts with the reserved names, holds no
/// text twice and is small enough for every position to be a handle.
pub open spec fn table_wf(table: Seq<Seq<char>>) -> bool {
    &&& reserved_names().is_prefix_of(table)
    &&& table.no_duplicates()
    &&& table.len() <= usize::MAX
}

/// The handle that interning `text` into `table` gives: the position of the
/// text if the table holds it, the next free position if not.
pub open spec fn symbol_of(table: Seq<Seq<char>>, text: Seq<char>) -> Symbol {
    if table.contains(text) {
        Symbol { index: table.index_of(text) as usize }
    } else {
        Symbol { index: table.len() as usize }
    }
}

/// The table after interning `text`: unchanged if it holds the text, one
/// entry longer if not.
pub open spec fn interned(table: Seq<Seq<char>>, text: Seq<char>) -> Seq<Seq<char>> {
    if table.contains(text) {
        table
    } else {
        table.push(text)
    }
}

/// The text behind a handle, if the table has given the handle out.
pub open spec fn text_of(table: Seq<Seq<char>>, symbol: Symbol) -> Option<Seq<char>> {
    if symbol.index < table.len() {
        Some(table[symbol.index as int])
    } else {
        None
    }
}

/// The reserved names are six different texts, and only the first is empty.
pub proof fn lemma_reserved_names()
    ensures
        reserved_names().len() == 6,
        reserved_names().no_duplicates(),
        forall|i: int| 0 <= i < 6 ==> (#[trigger] reserved_names()[i].len() == 0 <==> i == 0),
{
    reveal_strlit("");
    reveal_strlit("Fuel");
    reveal_strlit("Z");
    reveal_strlit("S");
    reveal_strlit("f");
    reveal_strlit("fuel");
    let r = reserved_names();
    assert(r[0].len() == 0 && r[1].len() == 4 && r[5].len() == 4);
    assert(r[2].len() == 1 && r[3].len() == 1 && r[4].len() == 1);
    assert(r[1][0] == 'F' && r[5][0] == 'f');
    assert(r[2][0] == 'Z' && r[3][0] == 'S' && r[4][0] == 'f');
}

/// In a well-formed table each reserved name has its reserved handle, and the
/// empty handle is the only one with an empty text.
pub proof fn lemma_reserved_handles(table: Seq<Seq<char>>)
    requires
        table_wf(table),
    ensures
        symbol_of(table, ""@) == Symbol::empty(),
        symbol_of(table, "Fuel"@) == Symbol::fuel(),
        symbol_of(table, "Z"@) == Symbol::zero(),
        symbol_of(table, "S"@) == Symbol::succ(),
        symbol_of(table, "f"@) == Symbol::fuel_input(),
        symbol_of(table, "fuel"@) == Symbol::fuel_quant(),
        forall|s: Symbol|
            #![trigger text_of(table, s)]
            s.index < table.len() ==> (text_of(table, s) == Some(Seq::<char>::empty()) <==> s
                == Symbol::empty()),
{
    lemma_reserved_names();
    let r = reserved_names();
    assert forall|i: int| 0 <= i < 6 implies table[i] == #[trigger] r[i] by {
        assert(table.subrange(0, 6)[i] == table[i]);
    }
    assert forall|i: int| 0 <= i < 6 implies #[trigger] symbol_of(table, r[i]) == (Symbol {
        index: i as usize,
    }) by {
        assert(table[i] == r[i]);
    }
    assert(symbol_of(table, r[0]) == Symbol::empty());
    assert(symbol_of(table, r[1]) == Symbol::fuel());
    assert(symbol_of(table, r[2]) == Symbol::zero());
    assert(symbol_of(table, r[3]) == Symbol::succ());
    assert(symbol_of(table, r[4]) == Symbol::fuel_input());
    assert(symbol_of(table, r[5]) == Symbol::fuel_quant());
    assert forall|s: Symbol|
        #![trigger text_of(table, s)]
        s.index < table.len() implies (text_of(table, s) == Some(Seq::<char>::empty()) <==> s
        == Symbol::empty()) by {
        assert(table[0] == r[0]);
        assert(table[0] =~= Seq::<char>::empty());
        if table[s.index as int] == Seq::<char>::empty() {
            assert(table[s.index as int] == table[0]);
        }
    }
}

/// Interning a text a second time changes nothing and gives the same handle.
pub proof fn lemma_intern_again(table: Seq<Seq<char>>, text: Seq<char>)
    requires
        table_wf(table),
        table_wf(interned(table, text)),
    ensures
        interned(interned(table, text), text) == interned(table, text),
        symbol_of(interned(table, text), text) == symbol_of(table, text),
        text_of(interned(table, text), symbol_of(table, text)) == Some(text),
{
    let after = interned(table, text);
    if table.contains(text) {
        let i = table.index_of(text);
        assert(table[i] == text);
    } else {
        let n = table.len() as int;
        assert(after[n] == text);
        assert(after.contains(text));
        assert(after.index_of(text) == n);
    }
}

/// Interning one text leaves the handle of every text already in the table
/// as it was.
pub proof fn lemma_intern_keeps_handles(table: Seq<Seq<char>>, text: Seq<char>, other: Seq<char>)
    requires
        table_wf(table),
        table_wf(interned(table, text)),
        table.contains(other),
    ensures
        symbol_of(interned(table, text), other) == symbol_of(table, other),
{
    let after = interned(table, text);
    let i = table.index_of(other);
    assert(after[i] == other);
    assert(after.contains(other));
    assert(after.index_of(other) == i);
}

/// Two texts of one table have the same handle exactly when they are the same
/// text.
pub proof fn lemma_handles_tell_names_apart(table: Seq<Seq<char>>, a: Seq<char>, b: Seq<char>)
    requires
        table_wf(table),
        table.contains(a),
        table.contains(b),
    ensures
        symbol_of(table, a) == symbol_of(table, b) <==> a == b,
{
    let i = table.index_of(a);
    let j = table.index_of(b);
    assert(table[i] == a && table[j] == b);
}

/// The table of names: it owns the text behind every handle it has given out.
pub struct Interner {
    names: Vec<String>,
}

impl View for Interner {
    type V = Seq<Seq<char>>;

    /// The interned texts, by position.
    closed spec fn view(&self) -> Seq<Seq<char>> {
        Seq::new(self.names@.len(), |i: int| self.names@[i]@)
    }
}

impl Interner {
    /// The invariant of the table: see [`table_wf`].
    pub open spec fn wf(&self) -> bool {
        table_wf(self@)
    }

    /// A table that holds the reserved names and nothing else.
    pub fn new() -> (r: Interner)
        ensures
            r.wf(),
            r@ == reserved_names(),
    {
        let mut names: Vec<String> = Vec::new();
        names.push("".to_owned());
        names.push("Fuel".to_owned());
        names.push("Z".to_owned());
        names.push("S".to_owned());
        names.push("f".to_owned());
        names.push("fuel".to_owned());
        let r = Interner { names };
        proof {
            lemma_reserved_names();
            assert(r@ =~= reserved_names());
        }
        r
    }

    /// The number of names in the table.
    pub fn len(&self) -> (n: usize)
        ensures
            n == self@.len(),
    {
        self.names.len()
    }

    /// The handle of `text`, if the table holds it. The table is not changed.
    pub fn lookup(&self, text: &str) -> (r: Option<Symbol>)
        requires
            self.wf(),
        ensures
            r == (if self@.contains(text@) {
                Some(symbol_of(self@, text@))
            } else {
                None
            }),
    {
        let wanted = text.to_owned();
        let mut i: usize = 0;
        while i < self.names.len()
            invariant
                self.wf(),
                i <= self.names.len(),
                wanted@ == text@,
                forall|j: int| 0 <= j < i ==> self@[j] != text@,
            decreases self.names.len() - i,
        {
            if self.names[i] == wanted {
                assert(self@[i as int] == text@);
                assert(self@[self@.index_of(text@)] == text@);
                return Some(Symbol { index: i });
            }
            i = i + 1;
        }
        None
    }

    /// The handle of `text`. A text that the table holds keeps its handle and
    /// the table stays as it is; a new text is added at the end and gets the
    /// next handle.
    pub fn intern(&mut self, text: &str) -> (s: Symbol)
        requires
            old(self).wf(),
        ensures
            final(self).wf(),
            final(self)@ == interned(old(self)@, text@),
            s == symbol_of(old(self)@, text@),
            text_of(final(self)@, s) == Some(text@),
    {
        match self.lookup(text) {
            Some(s) => {
                assert(self@[self@.index_of(text@)] == text@);
                s
            },
            None => {
                let s = Symbol { index: self.names.len() };
                self.names.push(text.to_owned());
                proof {
                    let before = old(self)@;
                    lemma_reserved_names();
                    assert(self@ =~= before.push(text@));
                    assert(reserved_names() =~= before.subrange(0, 6));
                    assert(reserved_names() =~= self@.subrange(0, 6));
                    assert(self@.len() == self.names.len());
                    assert forall|i: int, j: int|
                        0 <= i < self@.len() && 0 <= j < self@.len() && i != j implies self@[i]
                        != self@[j] by {
                        if i < before.len() && j < before.len() {
                            assert(before[i] != before[j]);
                        }
                    }
                }
                s
            },
        }
    }

    /// The text behind a handle, if this table has given the handle out.
    pub fn resolve(&self, symbol: Symbol) -> (r: Option<&str>)
        ensures
            match r {
                Some(text) => text_of(self@, symbol) == Some(text@),
                None => text_of(self@, symbol) is None,
            },
    {
        if symbol.index < self.names.len() {
            Some(self.names[symbol.index].as_str())
        } else {
            None
        }
    }
}

} // verus!
