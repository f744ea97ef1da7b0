//! Record identifiers of the form `table:key`, as they travel in URLs.
use vstd::prelude::*;
use vstd::string::*;

verus! {

/// A record identifier: the table (kind) it belongs to and its raw key.
pub struct RecordId {
    pub table: String,
    pub key: String,
}

/// The text does not hold the `:` that parts table from key.
#[derive(Debug, Clone, Copy, PartialEq, Eq, Structural)]
pub enum ParseError {
    MissingSeparator,
}

/// `table` and `key` are the parts of `s` before and after its first `:`.
pub open spec fn splits_at_first_colon(s: Seq<char>, table: Seq<char>, key: Seq<char>) -> bool {
    &&& s == table + seq![':'] + key
    &&& !table.contains(':')
}

impl RecordId {
    /// Parses `table:key`, splitting at the first `:`; the key may itself
    /// hold further colons.
    pub fn parse(s: &str) -> (r: Result<RecordId, ParseError>)
        ensures
            r is Err <==> !s@.contains(':'),
            r matches Ok(id) ==> splits_at_first_colon(s@, id.table@, id.key@),
    {
        let len = s.unicode_len();
        let mut i: usize = 0;
        while i < len
            invariant
                len == s@.len(),
                i <= len,
                forall|j: int| 0 <= j < i ==> s@[j] != ':',
            decreases len - i,
        {
            if s.get_char(i) == ':' {
                let table = String::from_str(s.substring_char(0, i));
                let key = String::from_str(s.substring_char(i + 1, len));
                proof {
                    assert(s@ =~= table@ + seq![':'] + key@);
                    assert(!table@.contains(':')) by {
                        if table@.contains(':') {
                            let k = choose|k: int| 0 <= k < table@.len() && table@[k] == ':';
                            assert(s@[k] == ':');
                        }
                    }
                }
                return Ok(RecordId { table, key });
            }
            i = i + 1;
        }
        Err(ParseError::MissingSeparator)
    }

    /// The text form `table:key`.
    pub fn to_text(&self) -> (r: String)
        ensures
            r@ == self.table@ + seq![':'] + self.key@,
    {
        let mut r = self.table.clone();
        r.append(":");
        proof {
            reveal_strlit(":");
        }
        r.append(self.key.as_str());
        r
    }
}

} // verus!
