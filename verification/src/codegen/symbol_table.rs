//! A scaffold for scoped symbol records. It is not wired into the pipeline
//! (name resolution is currently untyped string matching); it is kept as the
//! extension point for a future resolution stage. A scope holds a duplicate-
//! free record list, viewed as a set, with an optional link to the enclosing
//! scope.

use vstd::prelude::*;

verus! {

/// One scope of symbols: its own records plus the enclosing scope, if any.
#[derive(Debug, PartialEq)]
pub struct SymbolTable {
    pub upper: Option<Box<SymbolTable>>,
    pub symbols: Vec<SymbolRecord>,
}

/// One named symbol of a given kind.
#[derive(Debug, PartialEq, Eq, Clone, Hash)]
pub struct SymbolRecord {
    pub name: String,
    pub symbol_type: SymbolType,
}

#[derive(Debug, PartialEq, Eq, Clone, Copy, Hash, Structural)]
pub enum SymbolType {
    Variable,
    Function,
    Event,
    UIObject,
}

/// Spec-level mirror of `SymbolRecord`.
#[verifier::ext_equal]
pub struct SpecSymbolRecord {
    pub name: Seq<char>,
    pub symbol_type: SymbolType,
}

impl DeepView for SymbolRecord {
    type V = SpecSymbolRecord;

    open spec fn deep_view(&self) -> SpecSymbolRecord {
        SpecSymbolRecord { name: self.name@, symbol_type: self.symbol_type }
    }
}

impl SymbolTable {
    /// The set of records this scope itself holds.
    pub open spec fn spec_symbols(&self) -> Set<SpecSymbolRecord> {
        Set::new(|r: SpecSymbolRecord| self.symbols.deep_view().contains(r))
    }

    /// The record list carries each record once.
    pub open spec fn wf(&self) -> bool {
        forall|i: int, j: int|
            0 <= i < j < self.symbols.deep_view().len() ==> self.symbols.deep_view()[i]
                != self.symbols.deep_view()[j]
    }

    pub fn new(upper: Option<Box<SymbolTable>>, symbols: Vec<SymbolRecord>) -> (r: Self)
        requires
            forall|i: int, j: int|
                0 <= i < j < symbols.deep_view().len() ==> symbols.deep_view()[i]
                    != symbols.deep_view()[j],
        ensures
            r.wf(),
            r.upper == upper,
            r.symbols == symbols,
    {
        Self { upper, symbols }
    }

    /// Whether this scope itself holds a record equal to `record`.
    fn find_index(&self, record: &SymbolRecord) -> (r: Option<usize>)
        ensures
            match r {
                Some(i) => i < self.symbols@.len() && self.symbols.deep_view()[i as int]
                    == record.deep_view(),
                None => !self.spec_symbols().contains(record.deep_view()),
            },
    {
        let n = self.symbols.len();
        for i in 0..n
            invariant
                n == self.symbols@.len(),
                forall|j: int|
                    0 <= j < i ==> self.symbols.deep_view()[j] != record.deep_view(),
        {
            let candidate = &self.symbols[i];
            proof {
                assert(self.symbols.deep_view()[i as int] == self.symbols@[i as int].deep_view());
            }
            if candidate.name.eq(&record.name) && candidate.symbol_type == record.symbol_type {
                return Some(i);
            }
        }
        proof {
            assert forall|r2: SpecSymbolRecord|
                self.symbols.deep_view().contains(r2) implies r2 != record.deep_view() by {}
        }
        None
    }

    /// Adds the record to this scope; adding one already present leaves the
    /// scope unchanged.
    pub fn add_symbol(&mut self, name: String, symbol_type: SymbolType)
        requires
            old(self).wf(),
        ensures
            final(self).wf(),
            final(self).upper == old(self).upper,
            final(self).spec_symbols() == old(self).spec_symbols().insert(
                SpecSymbolRecord { name: name@, symbol_type },
            ),
    {
        let ghost rec = SpecSymbolRecord { name: name@, symbol_type };
        let record = SymbolRecord { name, symbol_type };
        match self.find_index(&record) {
            Some(_) => {
                proof {
                    assert(self.spec_symbols().contains(rec));
                    assert(self.spec_symbols() =~= self.spec_symbols().insert(rec));
                }
            },
            None => {
                let ghost old_deep = self.symbols.deep_view();
                self.symbols.push(record);
                proof {
                    assert(self.symbols.deep_view() =~= old_deep.push(rec));
                    assert forall|r2: SpecSymbolRecord|
                        self.symbols.deep_view().contains(r2) implies old_deep.contains(r2) || r2
                        == rec by {
                        let i = choose|i: int|
                            0 <= i < self.symbols.deep_view().len()
                                && self.symbols.deep_view()[i] == r2;
                        if i < old_deep.len() {
                            assert(old_deep[i] == r2);
                        }
                    }
                    assert forall|r2: SpecSymbolRecord| old_deep.contains(r2) implies self
                        .symbols
                        .deep_view()
                        .contains(r2) by {
                        let i = choose|i: int| 0 <= i < old_deep.len() && old_deep[i] == r2;
                        assert(self.symbols.deep_view()[i] == r2);
                    }
                    assert(self.symbols.deep_view()[old_deep.len() as int] == rec);
                    assert(self.symbols.deep_view().contains(rec));
                    assert(self.spec_symbols() =~= Set::new(
                        |r2: SpecSymbolRecord| old_deep.contains(r2),
                    ).insert(rec));
                }
            },
        }
    }

    /// Removes the record from this scope; removing one not present leaves
    /// the scope unchanged.
    pub fn remove_symbol(&mut self, name: String, symbol_type: SymbolType)
        requires
            old(self).wf(),
        ensures
            final(self).wf(),
            final(self).upper == old(self).upper,
            final(self).spec_symbols() == old(self).spec_symbols().remove(
                SpecSymbolRecord { name: name@, symbol_type },
            ),
    {
        let ghost rec = SpecSymbolRecord { name: name@, symbol_type };
        let record = SymbolRecord { name, symbol_type };
        match self.find_index(&record) {
            Some(i) => {
                let ghost old_deep = self.symbols.deep_view();
                self.symbols.remove(i);
                proof {
                    assert(self.symbols.deep_view() =~= old_deep.remove(i as int));
                    assert forall|r2: SpecSymbolRecord|
                        self.symbols.deep_view().contains(r2) implies old_deep.contains(r2) && r2
                        != rec by {
                        let j = choose|j: int|
                            0 <= j < self.symbols.deep_view().len()
                                && self.symbols.deep_view()[j] == r2;
                        if j < i {
                            assert(old_deep[j] == r2);
                        } else {
                            assert(old_deep[j + 1] == r2);
                        }
                    }
                    assert forall|r2: SpecSymbolRecord|
                        old_deep.contains(r2) && r2 != rec implies self
                        .symbols
                        .deep_view()
                        .contains(r2) by {
                        let j = choose|j: int| 0 <= j < old_deep.len() && old_deep[j] == r2;
                        if j < i {
                            assert(self.symbols.deep_view()[j] == r2);
                        } else {
                            assert(old_deep[i as int] == rec);
                            assert(j != i);
                            assert(self.symbols.deep_view()[j - 1] == r2);
                        }
                    }
                    assert(self.spec_symbols() =~= old(self).spec_symbols().remove(rec));
                }
            },
            None => {
                proof {
                    assert(self.spec_symbols() =~= self.spec_symbols().remove(rec));
                }
            },
        }
    }

    /// Finds the record of the given name and kind in this scope itself; the
    /// enclosing scopes are not consulted.
    pub fn lookup(&self, name: String, symbol_type: SymbolType) -> (r: Option<&SymbolRecord>)
        ensures
            match r {
                Some(found) => self.spec_symbols().contains(
                    SpecSymbolRecord { name: name@, symbol_type },
                ) && found.deep_view() == (SpecSymbolRecord { name: name@, symbol_type }),
                None => !self.spec_symbols().contains(
                    SpecSymbolRecord { name: name@, symbol_type },
                ),
            },
    {
        let record = SymbolRecord { name, symbol_type };
        match self.find_index(&record) {
            Some(i) => {
                proof {
                    assert(self.symbols.deep_view()[i as int] == self.symbols@[i as int].deep_view());
                }
                Some(&self.symbols[i])
            },
            None => None,
        }
    }
}

} // verus!
