//! The weather-code table: an immutable mapping from upstream integer
//! weather codes to human-readable condition strings, loaded once at
//! startup and passed by reference into normalization.

use vstd::prelude::*;

verus! {

/// What a code resolves to: the label of its first entry, or `"Unknown"`
/// when no entry carries it, since providers add codes over time.
pub open spec fn table_lookup(entries: Seq<(i32, String)>, code: int) -> Seq<char>
    decreases entries.len(),
{
    if entries.len() == 0 {
        "Unknown"@
    } else if entries[0].0 == code {
        entries[0].1@
    } else {
        table_lookup(entries.drop_first(), code)
    }
}

/// An immutable mapping from weather code to condition string.
pub struct CodeTable {
    pub entries: Vec<(i32, String)>,
}

impl CodeTable {
    /// Builds the table from code/label pairs kept in the given order.
    pub fn new(entries: Vec<(i32, String)>) -> (r: CodeTable)
        ensures
            r.entries@ == entries@,
    {
        CodeTable { entries }
    }

    /// Resolves a weather code to its condition string, `"Unknown"` for a
    /// code the table does not carry.
    pub fn resolve(&self, code: i32) -> (r: String)
        ensures
            r@ == table_lookup(self.entries@, code as int),
    {
        let n = self.entries.len();
        let mut i: usize = 0;
        assert(self.entries@.skip(0) =~= self.entries@);
        while i < n
            invariant
                0 <= i <= n,
                n == self.entries@.len(),
                table_lookup(self.entries@, code as int) == table_lookup(
                    self.entries@.skip(i as int),
                    code as int,
                ),
            decreases n - i,
        {
            let entry_code = self.entries[i].0;
            if entry_code == code {
                assert(self.entries@.skip(i as int)[0] == self.entries@[i as int]);
                return self.entries[i].1.clone();
            }
            assert(self.entries@.skip(i as int).drop_first() =~= self.entries@.skip(i + 1));
            i = i + 1;
        }
        assert(self.entries@.skip(n as int) =~= Seq::<(i32, String)>::empty());
        String::from_str("Unknown")
    }
}

} // verus!
