//! Mapping between the short identifiers shown to users and the
//! internal identifiers of a backend, one SQL table per account and
//! folder. The statements run against the database outside this crate;
//! this module names the table, writes the statements and decides what
//! the rows they return mean.

use vstd::prelude::*;

use crate::text::{decimal, decimal_string, from_chars, push_char, push_str, to_chars};

verus! {

broadcast use vstd::string::group_string_axioms;

/// Errors of the id mapper.
#[derive(Debug, PartialEq, Eq)]
pub enum IdMapperError {
    /// No internal identifier is stored for the given identifier.
    GetInternalIdFromId(String),
}

/// The 16 bytes of the MD5 digest of the UTF-8 encoding of a text.
pub uninterp spec fn md5_digest_of(text: Seq<char>) -> Seq<u8>;

/// Calls `md5::compute` on the bytes of `text`. The contract claims
/// that the digest is a function of the text alone and that it has the
/// 16 bytes of `md5::Digest`.
#[verifier::external_body]
fn md5_digest(text: &str) -> (r: Vec<u8>)
    ensures
        r@ == md5_digest_of(text@),
        r@.len() == 16,
{
    md5::compute(text.as_bytes()).0.to_vec()
}

/// The lowercase hexadecimal digit of a number below sixteen.
pub open spec fn hex_lower(d: nat) -> char {
    if d < 10 {
        (48 + d) as char
    } else {
        (87 + d) as char
    }
}

/// Each byte as two lowercase hexadecimal digits (`{:x}` of a digest).
pub open spec fn lower_hex(bytes: Seq<u8>) -> Seq<char>
    decreases bytes.len(),
{
    if bytes.len() == 0 {
        seq![]
    } else {
        lower_hex(bytes.drop_last()) + seq![
            hex_lower((bytes.last() / 16) as nat),
            hex_lower((bytes.last() % 16) as nat),
        ]
    }
}

fn hex_digit(d: u8) -> (c: char)
    requires
        d < 16,
    ensures
        c == hex_lower(d as nat),
{
    if d < 10 {
        (48u8 + d) as char
    } else {
        (87u8 + d) as char
    }
}

/// The bytes in lowercase hexadecimal.
pub fn lower_hex_string(bytes: &Vec<u8>) -> (s: String)
    ensures
        s@ == lower_hex(bytes@),
{
    let mut s = String::new();
    let mut i: usize = 0;
    while i < bytes.len()
        invariant
            i <= bytes.len(),
            s@ == lower_hex(bytes@.take(i as int)),
        decreases bytes.len() - i,
    {
        let b = bytes[i];
        assert(bytes@.take(i + 1).drop_last() =~= bytes@.take(i as int));
        push_char(&mut s, hex_digit(b / 16));
        push_char(&mut s, hex_digit(b % 16));
        i += 1;
    }
    assert(bytes@.take(i as int) =~= bytes@);
    s
}

/// The name of the table of an account and a folder: `id_mapper_`
/// followed by the MD5 digest of the account name followed by the
/// folder name, in lowercase hexadecimal.
pub open spec fn table_name_spec(account: Seq<char>, folder: Seq<char>) -> Seq<char> {
    "id_mapper_"@ + lower_hex(md5_digest_of(account + folder))
}

/// The name of the table of an account and a folder.
pub fn build_table_name(account: &str, folder: &str) -> (r: String)
    ensures
        r@ == table_name_spec(account@, folder@),
{
    let mut joined = to_chars(account);
    push_str(&mut joined, folder);
    let text = from_chars(&joined);
    let digest = md5_digest(text.as_str());
    let hex = lower_hex_string(&digest);
    let mut out: Vec<char> = Vec::new();
    push_str(&mut out, "id_mapper_");
    push_str(&mut out, hex.as_str());
    from_chars(&out)
}

/// The statement that creates the table when it does not exist.
pub open spec fn create_table_spec(table: Seq<char>) -> Seq<char> {
    "CREATE TABLE IF NOT EXISTS "@ + table
        + " (\n                id INTEGER PRIMARY KEY AUTOINCREMENT,\n                internal_id TEXT UNIQUE\n            )"@
}

/// The statement that stores an internal identifier once.
pub open spec fn insert_spec(table: Seq<char>) -> Seq<char> {
    "INSERT OR IGNORE INTO "@ + table + " (internal_id) VALUES (?)"@
}

/// The statement that finds the identifier of an internal identifier.
pub open spec fn select_id_spec(table: Seq<char>) -> Seq<char> {
    "SELECT id FROM "@ + table + " WHERE internal_id = ?"@
}

/// The statement that finds the internal identifier of an identifier.
pub open spec fn select_internal_id_spec(table: Seq<char>) -> Seq<char> {
    "SELECT internal_id FROM "@ + table + " WHERE id = ?"@
}

fn surround(before: &str, table: &str, after: &str) -> (r: String)
    ensures
        r@ == before@ + table@ + after@,
{
    let mut out: Vec<char> = Vec::new();
    push_str(&mut out, before);
    push_str(&mut out, table);
    push_str(&mut out, after);
    from_chars(&out)
}

/// The identifiers of one account and one folder.
pub struct IdMapper {
    account: String,
    folder: String,
}

impl IdMapper {
    /// The account name.
    pub closed spec fn account_spec(&self) -> Seq<char> {
        self.account@
    }

    /// The folder name.
    pub closed spec fn folder_spec(&self) -> Seq<char> {
        self.folder@
    }

    /// A mapper for the account and the folder.
    pub fn new(account: &str, folder: &str) -> (m: Self)
        ensures
            m.account_spec() == account@,
            m.folder_spec() == folder@,
    {
        IdMapper { account: account.to_owned(), folder: folder.to_owned() }
    }

    /// The name of the mapper's table.
    pub fn table_name(&self) -> (r: String)
        ensures
            r@ == table_name_spec(self.account_spec(), self.folder_spec()),
    {
        build_table_name(self.account.as_str(), self.folder.as_str())
    }

    /// The statement that creates the mapper's table.
    pub fn create_table_query(&self) -> (r: String)
        ensures
            r@ == create_table_spec(table_name_spec(self.account_spec(), self.folder_spec())),
    {
        let t = self.table_name();
        surround(
            "CREATE TABLE IF NOT EXISTS ",
            t.as_str(),
            " (\n                id INTEGER PRIMARY KEY AUTOINCREMENT,\n                internal_id TEXT UNIQUE\n            )",
        )
    }

    /// The statement that stores an internal identifier.
    pub fn insert_query(&self) -> (r: String)
        ensures
            r@ == insert_spec(table_name_spec(self.account_spec(), self.folder_spec())),
    {
        let t = self.table_name();
        surround("INSERT OR IGNORE INTO ", t.as_str(), " (internal_id) VALUES (?)")
    }

    /// The statement that finds the identifier of an internal identifier.
    pub fn select_id_query(&self) -> (r: String)
        ensures
            r@ == select_id_spec(table_name_spec(self.account_spec(), self.folder_spec())),
    {
        let t = self.table_name();
        surround("SELECT id FROM ", t.as_str(), " WHERE internal_id = ?")
    }

    /// The statement that finds the internal identifier of an identifier.
    pub fn select_internal_id_query(&self) -> (r: String)
        ensures
            r@ == select_internal_id_spec(
                table_name_spec(self.account_spec(), self.folder_spec()),
            ),
    {
        let t = self.table_name();
        surround("SELECT internal_id FROM ", t.as_str(), " WHERE id = ?")
    }

    /// The identifier found by the select statement: the first row in
    /// decimal, or `None` when there is none and the internal identifier
    /// has to be inserted.
    pub fn id_from_rows(ids: &Vec<usize>) -> (r: Option<String>)
        ensures
            ids.len() == 0 <==> r is None,
            ids.len() > 0 ==> r.unwrap()@ == decimal(ids[0] as nat),
    {
        if ids.len() == 0 {
            None
        } else {
            Some(decimal_string(ids[0] as u64))
        }
    }

    /// The internal identifier found for `id`: the first row, or the
    /// error that names `id` when there is none.
    pub fn internal_id_from_rows(id: &str, rows: &Vec<String>) -> (r: Result<String, IdMapperError>)
        ensures
            rows.len() == 0 ==> (r matches Err(IdMapperError::GetInternalIdFromId(s)) && s@ == id@),
            rows.len() > 0 ==> (r matches Ok(s) && s@ == rows[0]@),
    {
        if rows.len() == 0 {
            Err(IdMapperError::GetInternalIdFromId(id.to_owned()))
        } else {
            Ok(rows[0].clone())
        }
    }
}

/// The value of a sequence of decimal digits.
pub open spec fn digits_value(s: Seq<char>) -> nat
    decreases s.len(),
{
    if s.len() == 0 {
        0
    } else {
        10 * digits_value(s.drop_last()) + ((s.last() as nat) - 48) as nat
    }
}

/// Whether a character is an ASCII digit.
pub open spec fn is_digit(c: char) -> bool {
    '0' <= c && c <= '9'
}

/// The text without its leading `+`, if it has one.
pub open spec fn without_plus(s: Seq<char>) -> Seq<char> {
    if s.len() > 0 && s[0] == '+' {
        s.drop_first()
    } else {
        s
    }
}

/// Whether every character is an ASCII digit.
pub open spec fn all_digits(d: Seq<char>) -> bool {
    forall|i: int| 0 <= i < d.len() ==> is_digit(#[trigger] d[i])
}

/// The digits of an unsigned decimal number as `str::parse` reads it:
/// an optional `+` followed by at least one digit.
pub open spec fn unsigned_digits(s: Seq<char>) -> Option<Seq<char>> {
    if without_plus(s).len() > 0 && all_digits(without_plus(s)) {
        Some(without_plus(s))
    } else {
        None
    }
}

/// What `str::parse::<usize>` gives: the value when the text is a
/// decimal number that fits.
pub open spec fn parse_usize_spec(s: Seq<char>) -> Option<nat> {
    match unsigned_digits(s) {
        Some(d) => if digits_value(d) <= usize::MAX {
            Some(digits_value(d))
        } else {
            None
        },
        None => None,
    }
}

proof fn lemma_digits_value_grows(s: Seq<char>, i: int, j: int)
    requires
        0 <= i <= j <= s.len(),
        forall|k: int| 0 <= k < s.len() ==> is_digit(#[trigger] s[k]),
    ensures
        digits_value(s.take(i)) <= digits_value(s.take(j)),
    decreases j - i,
{
    if i < j {
        lemma_digits_value_grows(s, i, j - 1);
        assert(s.take(j).drop_last() =~= s.take(j - 1));
    }
}

/// Reads an identifier as `str::parse::<usize>` does.
pub fn parse_id(id: &str) -> (r: Option<usize>)
    ensures
        match parse_usize_spec(id@) {
            Some(n) => r == Some(n as usize),
            None => r is None,
        },
{
    let cs = to_chars(id);
    let mut start: usize = 0;
    if cs.len() > 0 && cs[0] == '+' {
        start = 1;
    }
    let ghost d = without_plus(cs@);
    assert(d =~= cs@.subrange(start as int, cs@.len() as int));
    if start >= cs.len() {
        return None;
    }
    let mut i: usize = start;
    while i < cs.len()
        invariant
            start <= i <= cs.len(),
            d =~= cs@.subrange(start as int, cs@.len() as int),
            cs@ == id@,
            d == without_plus(cs@),
            forall|k: int| start <= k < i ==> is_digit(#[trigger] cs@[k]),
        decreases cs.len() - i,
    {
        if !('0' <= cs[i] && cs[i] <= '9') {
            assert(d[i - start] == cs@[i as int]);
            assert(!is_digit(d[i - start]));
            assert(!all_digits(d));
            return None;
        }
        i += 1;
    }
    assert forall|k: int| 0 <= k < d.len() implies is_digit(#[trigger] d[k]) by {
        assert(d[k] == cs@[k + start]);
    }
    let mut v: usize = 0;
    let mut j: usize = start;
    while j < cs.len()
        invariant
            start <= j <= cs.len(),
            d =~= cs@.subrange(start as int, cs@.len() as int),
            cs@ == id@,
            d == without_plus(cs@),
            forall|k: int| 0 <= k < d.len() ==> is_digit(#[trigger] d[k]),
            v as nat == digits_value(d.take(j - start)),
        decreases cs.len() - j,
    {
        let ghost k: int = j - start;
        assert(is_digit(d[k]));
        let dig: u32 = (cs[j] as u32) - 48;
        assert(d.take(k + 1).drop_last() =~= d.take(k));
        assert(d.take(k + 1).last() == cs@[j as int]);
        if v > (usize::MAX - (dig as usize)) / 10 {
            proof {
                let m = usize::MAX - dig;
                assert(10 * v + dig > usize::MAX) by (nonlinear_arith)
                    requires
                        v > m / 10,
                        m == usize::MAX - dig,
                        0 <= dig < 10,
                ;
                assert(digits_value(d.take(k + 1)) == 10 * v + dig);
                lemma_digits_value_grows(d, k + 1, d.len() as int);
                assert(d.take(d.len() as int) =~= d);
                assert(unsigned_digits(id@) == Some(d));
            }
            return None;
        }
        assert(10 * v + dig <= usize::MAX) by (nonlinear_arith)
            requires
                v <= (usize::MAX - dig) / 10,
                0 <= dig < 10,
        ;
        v = 10 * v + (dig as usize);
        j += 1;
    }
    assert(d.take(d.len() as int) =~= d);
    Some(v)
}

proof fn lemma_decimal_digits(n: nat)
    ensures
        decimal(n).len() > 0,
        all_digits(decimal(n)),
        digits_value(decimal(n)) == n,
    decreases n,
{
    let c = crate::text::digit_char(n % 10);
    assert((c as nat) == 48 + n % 10);
    if n < 10 {
        assert(decimal(n).drop_last() =~= Seq::<char>::empty());
        assert(decimal(n).last() == c);
        assert(digits_value(decimal(n)) == 10 * digits_value(Seq::<char>::empty()) + (((c as nat) - 48) as nat));
    } else {
        lemma_decimal_digits(n / 10);
        let s = decimal(n / 10);
        let t = decimal(n);
        assert(t == s.push(crate::text::digit_char(n % 10)));
        assert(t.drop_last() =~= s);
        assert(t.last() == c);
        assert(digits_value(t) == 10 * digits_value(s) + (((c as nat) - 48) as nat));
        assert(n == 10 * (n / 10) + n % 10);
        assert forall|i: int| 0 <= i < t.len() implies is_digit(#[trigger] t[i]) by {
            if i < s.len() {
                assert(t[i] == s[i]);
            }
        }
    }
}

/// An identifier handed out for a row reads back as the row's id: the
/// decimal form of any id that fits in `usize` parses to that id.
pub proof fn law_id_round_trip(id: nat)
    requires
        id <= usize::MAX,
    ensures
        parse_usize_spec(decimal(id)) == Some(id),
{
    lemma_decimal_digits(id);
    assert(decimal(id)[0] != '+') by {
        assert(is_digit(decimal(id)[0]));
    }
    assert(without_plus(decimal(id)) == decimal(id));
}

} // verus!
