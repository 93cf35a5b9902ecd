//! Pragmas applied to every physical connection on creation.

use vstd::prelude::*;

use crate::error::Error;
use crate::sqlite;
use crate::text::dec_chars;
use crate::text::usize_to_decimal;

verus! {

/// The default page size pragma value.
pub fn page_size() -> (r: usize)
    ensures
        r == 4096,
{
    4096
}

/// The default locking mode pragma value.
pub fn locking_mode() -> (r: String)
    ensures
        r@ == "NORMAL"@,
{
    String::from_str("NORMAL")
}

/// The default journal mode pragma value.
pub fn journal_mode() -> (r: String)
    ensures
        r@ == "WAL"@,
{
    String::from_str("WAL")
}

/// The default foreign keys pragma value.
pub fn foreign_keys() -> (r: String)
    ensures
        r@ == "ON"@,
{
    String::from_str("ON")
}

/// The default synchronous pragma value.
pub fn synchronous() -> (r: String)
    ensures
        r@ == "NORMAL"@,
{
    String::from_str("NORMAL")
}

/// The default auto vacuum pragma value.
pub fn auto_vacuum() -> (r: String)
    ensures
        r@ == "NONE"@,
{
    String::from_str("NONE")
}

/// One `PRAGMA name = value;` line, newline terminated.
pub open spec fn pragma_line(name: Seq<char>, value: Seq<char>) -> Seq<char> {
    "PRAGMA "@ + name + " = "@ + value + ";\n"@
}

/// The lines for the free-form pragma pairs, in order.
pub open spec fn extra_pragma_lines(pairs: Seq<(String, String)>) -> Seq<char>
    decreases pairs.len(),
{
    if pairs.len() == 0 {
        Seq::<char>::empty()
    } else {
        extra_pragma_lines(pairs.drop_last()) + pragma_line(
            pairs.last().0@,
            pairs.last().1@,
        )
    }
}

/// Pragmas to set on a database connection: six always-set values and a
/// free-form list of further name/value pairs.
#[derive(Debug, Clone, PartialEq, Eq)]
pub struct Pragmas {
    /// Further pragmas, applied after the six fixed ones, in order.
    pub pragmas: Vec<(String, String)>,
    pub page_size: usize,
    pub locking_mode: String,
    pub journal_mode: String,
    pub foreign_keys: String,
    pub synchronous: String,
    pub auto_vacuum: String,
}

/// The six always-set lines, with their leading newline.
pub open spec fn fixed_pragma_chars(p: &Pragmas) -> Seq<char> {
    "\n"@ + pragma_line("page_size"@, dec_chars(p.page_size as nat)) + pragma_line(
        "locking_mode"@,
        p.locking_mode@,
    ) + pragma_line("journal_mode"@, p.journal_mode@) + pragma_line(
        "foreign_keys"@,
        p.foreign_keys@,
    ) + pragma_line("synchronous"@, p.synchronous@) + pragma_line("auto_vacuum"@, p.auto_vacuum@)
}

/// The full batch of pragma statements for `p`: a leading newline, the six
/// fixed lines, then the free-form lines.
pub open spec fn pragma_sql_chars(p: &Pragmas) -> Seq<char> {
    fixed_pragma_chars(p) + extra_pragma_lines(p.pragmas@)
}

impl Default for Pragmas {
    /// The default pragma set: no free-form pairs and the six default values.
    fn default() -> (r: Self)
        ensures
            r.pragmas@.len() == 0,
            r.page_size == 4096,
            r.locking_mode@ == "NORMAL"@,
            r.journal_mode@ == "WAL"@,
            r.foreign_keys@ == "ON"@,
            r.synchronous@ == "NORMAL"@,
            r.auto_vacuum@ == "NONE"@,
    {
        Pragmas {
            pragmas: Vec::new(),
            page_size: page_size(),
            locking_mode: locking_mode(),
            journal_mode: journal_mode(),
            foreign_keys: foreign_keys(),
            synchronous: synchronous(),
            auto_vacuum: auto_vacuum(),
        }
    }
}

/// Appends `PRAGMA name = value;` and a newline to `out`.
fn append_pragma_line(out: &mut String, name: &str, value: &str)
    ensures
        final(out)@ == old(out)@ + pragma_line(name@, value@),
{
    proof {
        reveal_strlit("PRAGMA ");
        reveal_strlit(" = ");
        reveal_strlit(";\n");
    }
    out.append("PRAGMA ");
    out.append(name);
    out.append(" = ");
    out.append(value);
    out.append(";\n");
    assert(final(out)@ =~= old(out)@ + pragma_line(name@, value@));
}

impl Pragmas {
    /// Renders the full batch of pragma statements.
    pub fn sql(&self) -> (r: String)
        ensures
            r@ == pragma_sql_chars(self),
    {
        proof {
            reveal_strlit("\n");
        }
        let mut out = String::from_str("\n");
        let ps = usize_to_decimal(self.page_size);
        append_pragma_line(&mut out, "page_size", ps.as_str());
        append_pragma_line(&mut out, "locking_mode", self.locking_mode.as_str());
        append_pragma_line(&mut out, "journal_mode", self.journal_mode.as_str());
        append_pragma_line(&mut out, "foreign_keys", self.foreign_keys.as_str());
        append_pragma_line(&mut out, "synchronous", self.synchronous.as_str());
        append_pragma_line(&mut out, "auto_vacuum", self.auto_vacuum.as_str());
        assert(out@ =~= fixed_pragma_chars(self) + extra_pragma_lines(self.pragmas@.take(0)));
        let mut i: usize = 0;
        while i < self.pragmas.len()
            invariant
                i <= self.pragmas@.len(),
                out@ == fixed_pragma_chars(self) + extra_pragma_lines(self.pragmas@.take(i as int)),
            decreases self.pragmas@.len() - i,
        {
            let pair = &self.pragmas[i];
            append_pragma_line(&mut out, pair.0.as_str(), pair.1.as_str());
            i = i + 1;
            proof {
                assert(self.pragmas@.take(i as int).drop_last() =~= self.pragmas@.take(i - 1));
                assert(out@ =~= fixed_pragma_chars(self) + extra_pragma_lines(
                    self.pragmas@.take(i as int),
                ));
            }
        }
        proof {
            assert(self.pragmas@.take(self.pragmas@.len() as int) =~= self.pragmas@);
            assert(out@ =~= pragma_sql_chars(self));
        }
        out
    }

    /// Applies the full pragma batch to the given connection. The statement
    /// text handed to the engine is exactly the rendered pragma batch; the
    /// engine's reaction cannot be promised.
    pub fn set(&self, connection: &rusqlite::Connection) -> (r: Result<(), Error>)
        ensures
            r matches Err(e) ==> e is Rusqlite,
    {
        let sql = self.sql();
        match sqlite::execute_batch(connection, sql.as_str()) {
            Ok(()) => Ok(()),
            Err(e) => Err(Error::Rusqlite(e)),
        }
    }
}

} // verus!
