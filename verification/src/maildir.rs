//! Maildir helpers: folder names on disk, the locations tried for a
//! folder, pagination of envelopes, and the order of previewed
//! messages.

use vstd::prelude::*;
use vstd::utf8::{decode_utf8, encode_utf8, valid_utf8};

use crate::text::{chars_eq, from_chars, push_str, str_eq, string_of, to_chars};

verus! {

/// Errors related to the Maildir backend.
#[derive(Debug, Clone)]
pub enum MaildirError {
    /// The subfolder directory name cannot be parsed.
    ParseSubfolderError(String),
    /// The page (counted from one) lies beyond the envelopes.
    GetEnvelopesOutOfBoundsError(usize),
}

/// Whether a byte is left as it is by URL encoding: ASCII
/// alphanumerics and `-`, `_`, `.`, `~`.
pub open spec fn url_safe(b: u8) -> bool {
    (48 <= b <= 57) || (65 <= b <= 90) || (97 <= b <= 122) || b == 45 || b == 95 || b == 46 || b == 126
}

/// The upper-case hexadecimal digit of a value below sixteen.
pub open spec fn hex_upper(d: u8) -> char {
    if d < 10 {
        (48 + d) as char
    } else {
        (55 + d) as char
    }
}

/// The URL encoding of bytes: every byte but the safe ones becomes
/// `%` and its two upper-case hexadecimal digits.
pub open spec fn url_encode_spec(bytes: Seq<u8>) -> Seq<char>
    decreases bytes.len(),
{
    if bytes.len() == 0 {
        seq![]
    } else {
        let b = bytes[0];
        (if url_safe(b) {
            seq![b as char]
        } else {
            seq!['%', hex_upper(b / 16), hex_upper(b % 16)]
        }) + url_encode_spec(bytes.drop_first())
    }
}

/// `urlencoding::encode`: percent-encodes every byte of the UTF-8
/// encoding of the text except ASCII alphanumerics and `-`, `_`, `.`,
/// `~`, with upper-case hexadecimal digits.
#[verifier::external_body]
fn url_encode(text: &str) -> (r: String)
    ensures
        r@ == url_encode_spec(encode_utf8(text@)),
{
    urlencoding::encode(text).to_string()
}

/// The value of a hexadecimal digit, in either case.
pub open spec fn hex_value(b: u8) -> Option<u8> {
    if 48 <= b <= 57 {
        Some((b - 48) as u8)
    } else if 65 <= b <= 70 {
        Some((b - 55) as u8)
    } else if 97 <= b <= 102 {
        Some((b - 87) as u8)
    } else {
        None
    }
}

/// Percent-decoding of bytes: `%` followed by two hexadecimal digits
/// becomes the byte they write; every other byte, a `%` that no two
/// digits follow included, stays as it is.
pub open spec fn percent_decode(bytes: Seq<u8>) -> Seq<u8>
    decreases bytes.len(),
{
    if bytes.len() == 0 {
        seq![]
    } else if bytes[0] == 37 && bytes.len() >= 3 && hex_value(bytes[1]) is Some && hex_value(bytes[2]) is Some {
        seq![(hex_value(bytes[1]).unwrap() * 16 + hex_value(bytes[2]).unwrap()) as u8]
            + percent_decode(bytes.subrange(3, bytes.len() as int))
    } else {
        seq![bytes[0]] + percent_decode(bytes.drop_first())
    }
}

/// What URL decoding makes of a text: its UTF-8 bytes percent-decoded,
/// read as text when they are UTF-8.
pub open spec fn url_decode_spec(text: Seq<char>) -> Option<Seq<char>> {
    let d = percent_decode(encode_utf8(text));
    if valid_utf8(d) {
        Some(decode_utf8(d))
    } else {
        None
    }
}

/// `urlencoding::decode`: the text with its `%xx` sequences decoded,
/// when the decoded bytes are UTF-8.
#[verifier::external_body]
fn url_decode(text: &str) -> (r: Option<String>)
    ensures
        match r {
            Some(d) => url_decode_spec(text@) == Some(d@),
            None => url_decode_spec(text@) is None,
        },
{
    match urlencoding::decode(text) {
        Ok(d) => Some(d.to_string()),
        Err(_) => None,
    }
}

/// The URL encoding of bytes is made of ASCII characters.
proof fn lemma_url_encoding_ascii(bytes: Seq<u8>)
    ensures
        forall|i: int| 0 <= i < url_encode_spec(bytes).len() ==> 0 <= (#[trigger] url_encode_spec(bytes)[i] as int) < 128,
    decreases bytes.len(),
{
    if bytes.len() > 0 {
        lemma_url_encoding_ascii(bytes.drop_first());
        let b = bytes[0];
        let rest = url_encode_spec(bytes.drop_first());
        let head: Seq<char> = if url_safe(b) {
            seq![b as char]
        } else {
            seq!['%', hex_upper(b / 16), hex_upper(b % 16)]
        };
        assert(url_encode_spec(bytes) == head + rest);
        assert forall|i: int| 0 <= i < url_encode_spec(bytes).len() implies 0 <= (#[trigger] url_encode_spec(bytes)[i] as int) < 128 by {
            if i >= head.len() {
                assert(url_encode_spec(bytes)[i] == rest[i - head.len()]);
            }
        }
    }
}

/// The UTF-8 encoding of ASCII characters is their codes.
proof fn lemma_encode_ascii(cs: Seq<char>)
    requires
        forall|i: int| 0 <= i < cs.len() ==> 0 <= (#[trigger] cs[i] as int) < 128,
    ensures
        encode_utf8(cs) == cs.map_values(|c: char| c as u8),
    decreases cs.len(),
{
    if cs.len() > 0 {
        let c = cs[0];
        assert(0 <= (c as int) < 128);
        assert((c as u32) as int == c as int);
        assert((c as u32) as u8 == c as u8);
        let v = c as u32;
        assert(v < 128);
        assert((v & 0x7F) == v) by (bit_vector)
            requires
                v < 128,
        ;
        assert(vstd::utf8::encode_scalar(v) == seq![v as u8]);
        assert(encode_utf8(cs) == seq![cs[0] as u8] + encode_utf8(cs.drop_first()));
        assert(cs.drop_first().len() < cs.len());
        assert forall|i: int| 0 <= i < cs.drop_first().len() implies 0 <= (#[trigger] cs.drop_first()[i] as int) < 128 by {
            assert(cs.drop_first()[i] == cs[i + 1]);
        }
        lemma_encode_ascii(cs.drop_first());
        assert(cs.map_values(|c: char| c as u8) =~= seq![cs[0] as u8] + cs.drop_first().map_values(|c: char| c as u8));
    }
}

/// Percent-decoding the URL encoding of bytes gives the bytes back.
proof fn lemma_percent_decode_encoding(bytes: Seq<u8>)
    ensures
        percent_decode(url_encode_spec(bytes).map_values(|c: char| c as u8)) == bytes,
    decreases bytes.len(),
{
    if bytes.len() > 0 {
        let b = bytes[0];
        let rest = bytes.drop_first();
        lemma_percent_decode_encoding(rest);
        let tail = url_encode_spec(rest).map_values(|c: char| c as u8);
        if url_safe(b) {
            let enc = seq![b] + tail;
            assert(url_encode_spec(bytes).map_values(|c: char| c as u8) =~= enc);
            assert(enc.drop_first() =~= tail);
            assert(enc[0] != 37);
            assert(percent_decode(enc) == seq![b] + percent_decode(tail));
            assert(seq![b] + rest =~= bytes);
        } else {
            let hi = b / 16;
            let lo = b % 16;
            let h = hex_upper(hi) as u8;
            let l = hex_upper(lo) as u8;
            assert(hex_value(h) == Some(hi));
            assert(hex_value(l) == Some(lo));
            let enc = seq![37u8, h, l] + tail;
            assert(url_encode_spec(bytes).map_values(|c: char| c as u8) =~= enc);
            assert(enc.subrange(3, enc.len() as int) =~= tail);
            assert((hi * 16 + lo) as u8 == b);
            assert(percent_decode(enc) == seq![b] + percent_decode(tail));
            assert(seq![b] + rest =~= bytes);
        }
    }
}

/// URL-decoding the URL encoding of a text gives the text back.
pub proof fn law_url_round_trip(text: Seq<char>)
    ensures
        url_decode_spec(url_encode_spec(encode_utf8(text))) == Some(text),
{
    let bytes = encode_utf8(text);
    let enc = url_encode_spec(bytes);
    lemma_url_encoding_ascii(bytes);
    lemma_encode_ascii(enc);
    lemma_percent_decode_encoding(bytes);
    vstd::utf8::encode_utf8_valid_utf8(text);
    vstd::utf8::encode_utf8_decode_utf8(text);
}

/// The name on disk of a folder: the folder URL-encoded.
pub fn encode_folder(folder: &str) -> (r: String)
    ensures
        r@ == url_encode_spec(encode_utf8(folder@)),
{
    url_encode(folder)
}

/// The folder of a name on disk: the name URL-decoded, or the name
/// itself when it does not decode. Decoding the name of a folder gives
/// the folder back.
pub fn decode_folder(name: &str) -> (r: String)
    ensures
        r@ == (match url_decode_spec(name@) {
            Some(d) => d,
            None => name@,
        }),
        forall|f: Seq<char>| #[trigger] url_encode_spec(encode_utf8(f)) == name@ ==> r@ == f,
{
    proof {
        assert forall|f: Seq<char>| #[trigger] url_encode_spec(encode_utf8(f)) == name@ implies url_decode_spec(name@)
            == Some(f) by {
            law_url_round_trip(f);
        }
    }
    match url_decode(name) {
        Some(d) => d,
        None => string_of(name),
    }
}

/// The name of the inbox folder.
pub const DEFAULT_INBOX_FOLDER: &'static str = "INBOX";

/// The name of the trash folder.
pub const DEFAULT_TRASH_FOLDER: &'static str = "Trash";

/// A location where a Maildir folder may be, relative to what.
#[derive(Debug, Clone)]
pub enum MaildirLocation {
    /// The root directory of the Maildir.
    Root,
    /// The given path, as it is.
    AsIs(String),
    /// The given path, inside the root directory.
    InRoot(String),
    /// The given path, inside the current directory.
    InCurrentDir(String),
}

/// The locations tried, in order, for a folder of the given alias: the
/// root for the inbox; otherwise the alias as a path, inside the root,
/// inside the current directory, then the Maildir++ subdirectory
/// `.{encoded alias}` inside the root.
pub fn folder_locations(alias: &str) -> (r: Vec<MaildirLocation>)
    ensures
        alias@ == DEFAULT_INBOX_FOLDER@ ==> r@.len() == 1 && r@[0] is Root,
        alias@ != DEFAULT_INBOX_FOLDER@ ==> {
            &&& r@.len() == 4
            &&& r@[0] matches MaildirLocation::AsIs(p) && p@ == alias@
            &&& r@[1] matches MaildirLocation::InRoot(p) && p@ == alias@
            &&& r@[2] matches MaildirLocation::InCurrentDir(p) && p@ == alias@
            &&& r@[3] matches MaildirLocation::InRoot(p) && p@ == seq!['.'] + url_encode_spec(encode_utf8(alias@))
        },
{
    let mut r: Vec<MaildirLocation> = Vec::new();
    if str_eq(alias, DEFAULT_INBOX_FOLDER) {
        r.push(MaildirLocation::Root);
        return r;
    }
    r.push(MaildirLocation::AsIs(string_of(alias)));
    r.push(MaildirLocation::InRoot(string_of(alias)));
    r.push(MaildirLocation::InCurrentDir(string_of(alias)));
    r.push(MaildirLocation::InRoot(subfolder_dir_name(alias)));
    r
}

/// The Maildir++ subdirectory name of a folder: `.` then the encoded
/// folder.
pub fn subfolder_dir_name(folder: &str) -> (r: String)
    ensures
        r@ == seq!['.'] + url_encode_spec(encode_utf8(folder@)),
{
    let mut v: Vec<char> = Vec::new();
    v.push('.');
    let e = encode_folder(folder);
    push_str(&mut v, e.as_str());
    from_chars(&v)
}

/// The directory of a folder, inside the root, when it is created or
/// deleted: `cur` for the inbox, the Maildir++ subdirectory otherwise.
pub fn folder_dir_name(alias: &str) -> (r: String)
    ensures
        alias@ == DEFAULT_INBOX_FOLDER@ ==> r@ == "cur"@,
        alias@ != DEFAULT_INBOX_FOLDER@ ==> r@ == seq!['.'] + url_encode_spec(encode_utf8(alias@)),
{
    if str_eq(alias, DEFAULT_INBOX_FOLDER) {
        string_of("cur")
    } else {
        subfolder_dir_name(alias)
    }
}

/// The folder name of a subdirectory name: without its first character
/// (the Maildir++ dot), when there is more than one character.
pub open spec fn subfolder_name_spec(dir_name: Seq<char>) -> Option<Seq<char>> {
    if dir_name.len() < 2 {
        None
    } else {
        Some(dir_name.drop_first())
    }
}

/// A folder: its name and its description.
#[derive(Debug, Clone)]
pub struct Folder {
    pub name: String,
    pub desc: String,
}

/// The views of the subdirectory names.
pub open spec fn dir_views(dirs: Seq<String>) -> Seq<Seq<char>> {
    dirs.map_values(|d: String| d@)
}

/// The views of folders: their names and descriptions.
pub open spec fn folder_views(folders: Seq<Folder>) -> Seq<(Seq<char>, Seq<char>)> {
    folders.map_values(|f: Folder| (f.name@, f.desc@))
}

/// The name of a folder from its name on disk: decoded when it decodes.
pub open spec fn decoded_spec(name: Seq<char>) -> Seq<char> {
    match url_decode_spec(name) {
        Some(d) => d,
        None => name,
    }
}

/// The folders (name and description) of the subdirectories, in order,
/// `notmuch` left out; or the first subdirectory name too short to name
/// a folder.
pub open spec fn subfolders_spec(dirs: Seq<Seq<char>>) -> Result<Seq<(Seq<char>, Seq<char>)>, Seq<char>>
    decreases dirs.len(),
{
    if dirs.len() == 0 {
        Ok(seq![])
    } else {
        match subfolders_spec(dirs.drop_last()) {
            Err(e) => Err(e),
            Ok(fs) => match subfolder_name_spec(dirs.last()) {
                None => Err(dirs.last()),
                Some(n) => if n == "notmuch"@ {
                    Ok(fs)
                } else {
                    Ok(fs.push((decoded_spec(n), n)))
                },
            },
        }
    }
}

proof fn lemma_subfolders_error_stays(dirs: Seq<Seq<char>>, i: int)
    requires
        0 < i <= dirs.len(),
        subfolders_spec(dirs.take(i)) is Err,
    ensures
        subfolders_spec(dirs) == subfolders_spec(dirs.take(i)),
    decreases dirs.len() - i,
{
    if i < dirs.len() {
        assert(dirs.take(i + 1).drop_last() =~= dirs.take(i));
        lemma_subfolders_error_stays(dirs, i + 1);
    } else {
        assert(dirs.take(i) =~= dirs);
    }
}

/// The folders of a Maildir: the inbox first, under its alias, then one
/// per subdirectory but `notmuch`, named after the decoded subdirectory
/// name and described by the raw one.
pub fn list_folders(inbox_alias: &str, dir_names: &Vec<String>) -> (r: Result<Vec<Folder>, MaildirError>)
    requires
        forall|i: int| 0 <= i < dir_names@.len() ==> (#[trigger] dir_names@[i])@.len() > 0
            ==> (dir_names@[i]@[0] as u32) < 128,
    ensures
        match subfolders_spec(dir_views(dir_names@)) {
            Ok(fs) => r matches Ok(folders)
                && folder_views(folders@) == seq![(inbox_alias@, DEFAULT_INBOX_FOLDER@)] + fs,
            Err(d) => r matches Err(MaildirError::ParseSubfolderError(e)) && e@ == d,
        },
{
    let ghost dirs = dir_views(dir_names@);
    let mut folders: Vec<Folder> = Vec::new();
    folders.push(Folder { name: string_of(inbox_alias), desc: string_of(DEFAULT_INBOX_FOLDER) });
    let ghost head = seq![(inbox_alias@, DEFAULT_INBOX_FOLDER@)];
    assert(folder_views(folders@) =~= head);
    assert(dirs.take(0) =~= Seq::<Seq<char>>::empty());
    let mut i: usize = 0;
    while i < dir_names.len()
        invariant
            i <= dir_names.len(),
            dirs == dir_views(dir_names@),
            head == seq![(inbox_alias@, DEFAULT_INBOX_FOLDER@)],
            subfolders_spec(dirs.take(i as int)) is Ok,
            folder_views(folders@) == head + subfolders_spec(dirs.take(i as int))->Ok_0,
        decreases dir_names.len() - i,
    {
        assert(dirs.take(i + 1).drop_last() =~= dirs.take(i as int));
        assert(dirs.take(i + 1).last() == dir_names@[i as int]@);
        let cs = to_chars(dir_names[i].as_str());
        if cs.len() < 2 {
            proof {
                lemma_subfolders_error_stays(dirs, i as int + 1);
                assert(dirs.take(dirs.len() as int) =~= dirs);
            }
            return Err(MaildirError::ParseSubfolderError(dir_names[i].clone()));
        }
        let mut rest: Vec<char> = Vec::new();
        let mut j: usize = 1;
        while j < cs.len()
            invariant
                1 <= j <= cs@.len(),
                rest@ == cs@.subrange(1, j as int),
            decreases cs.len() - j,
        {
            rest.push(cs[j]);
            assert(rest@ =~= cs@.subrange(1, j + 1));
            j += 1;
        }
        assert(rest@ =~= cs@.drop_first());
        let name = from_chars(&rest);
        let notmuch = to_chars("notmuch");
        if !chars_eq(&rest, &notmuch) {
            let decoded = decode_folder(name.as_str());
            let ghost before = folder_views(folders@);
            folders.push(Folder { name: decoded, desc: name });
            assert(folder_views(folders@) =~= before.push((decoded@, name@)));
        }
        i += 1;
    }
    assert(dirs.take(i as int) =~= dirs);
    Ok(folders)
}

/// The bounds of a page of envelopes, when the page starts within
/// them: from `page * page_size` to the end of the page, or to the end
/// of the envelopes when the page size is zero.
pub open spec fn page_bounds_spec(len: nat, page: nat, page_size: nat) -> Option<(nat, nat)> {
    let begin = page * page_size;
    if begin > len {
        None
    } else {
        let end = if page_size == 0 { len } else { begin + page_size };
        Some((begin, if end < len { end } else { len }))
    }
}

/// Only a page that starts after the last envelope is out of bounds. A
/// page that starts at most at the number of envelopes (the first page
/// of an empty folder among them) is in bounds, starts at
/// `page * page_size`, and holds `page_size` envelopes, or those left
/// when fewer are left or the page size is zero.
pub proof fn law_page_in_bounds(len: nat, page: nat, page_size: nat)
    ensures
        page * page_size <= len ==> (page_bounds_spec(len, page, page_size) matches Some((b, e))
            && b == page * page_size
            && b <= e <= len
            && e - b == (if page_size == 0 || len - b < page_size { (len - b) as nat } else { page_size })),
        page * page_size > len ==> page_bounds_spec(len, page, page_size) is None,
{
}

/// The bounds of a page of envelopes.
pub fn page_bounds(len: usize, page: usize, page_size: usize) -> (r: Result<(usize, usize), MaildirError>)
    requires
        page * page_size + page_size <= usize::MAX,
        page * page_size + 1 <= usize::MAX,
    ensures
        match page_bounds_spec(len as nat, page as nat, page_size as nat) {
            Some((b, e)) => r == Ok::<(usize, usize), MaildirError>((b as usize, e as usize)),
            None => r matches Err(MaildirError::GetEnvelopesOutOfBoundsError(p)) && p == page * page_size + 1,
        },
{
    let begin = page * page_size;
    if begin > len {
        return Err(MaildirError::GetEnvelopesOutOfBoundsError(begin + 1));
    }
    let end = if page_size == 0 { len } else { begin + page_size };
    Ok((begin, if end < len { end } else { len }))
}

/// Whether the envelope at `a` is listed before the one at `b`: the
/// later date first, and the order of the folder among equal dates.
pub open spec fn listed_before(dates: Seq<i64>, a: usize, b: usize) -> bool {
    dates[a as int] > dates[b as int] || (dates[a as int] == dates[b as int] && a < b)
}

/// Whether `order` lists the positions below `n`, each once, latest
/// date first (a stable sort by date, descending).
pub open spec fn sorted_by_date(dates: Seq<i64>, order: Seq<usize>, n: nat) -> bool {
    &&& order.len() == n
    &&& forall|k: int| 0 <= k < order.len() ==> #[trigger] order[k] < n
    &&& forall|x: usize| x < n ==> #[trigger] order.contains(x)
    &&& forall|i: int, j: int| 0 <= i < j < order.len() ==> listed_before(dates, #[trigger] order[i], #[trigger] order[j])
}

/// There is one listing order only: two orders of the same envelopes,
/// latest date first and stable, are the same.
pub proof fn law_date_order_unique(dates: Seq<i64>, o1: Seq<usize>, o2: Seq<usize>, n: nat)
    requires
        sorted_by_date(dates, o1, n),
        sorted_by_date(dates, o2, n),
    ensures
        o1 == o2,
{
    assert forall|k: int| 0 <= k < n implies o1[k] == o2[k] by {
        lemma_same_position(dates, o1, o2, n, k);
    }
    assert(o1 =~= o2);
}

proof fn lemma_same_position(dates: Seq<i64>, o1: Seq<usize>, o2: Seq<usize>, n: nat, k: int)
    requires
        sorted_by_date(dates, o1, n),
        sorted_by_date(dates, o2, n),
        0 <= k < n,
    ensures
        o1[k] == o2[k],
    decreases k,
{
    if k > 0 {
        lemma_same_position(dates, o1, o2, n, k - 1);
    }
    assert forall|m: int| 0 <= m < k implies o1[m] == o2[m] by {
        lemma_same_position(dates, o1, o2, n, m);
    }
    let a = o1[k];
    let b = o2[k];
    if a != b {
        if listed_before(dates, a, b) {
            assert(o2.contains(a));
            let m = choose|m: int| 0 <= m < o2.len() && o2[m] == a;
            if m < k {
                assert(o1[m] == a);
                assert(listed_before(dates, o1[m], o1[k]));
            } else {
                assert(listed_before(dates, o2[k], o2[m]));
            }
        } else {
            assert(listed_before(dates, b, a));
            assert(o1.contains(b));
            let m = choose|m: int| 0 <= m < o1.len() && o1[m] == b;
            if m < k {
                assert(o2[m] == b);
                assert(listed_before(dates, o2[m], o2[k]));
            } else {
                assert(listed_before(dates, o1[k], o1[m]));
            }
        }
    }
}

/// The positions of the envelopes, latest date first; envelopes of the
/// same date keep their order.
pub fn sort_by_date(dates: &Vec<i64>) -> (order: Vec<usize>)
    ensures
        sorted_by_date(dates@, order@, dates@.len()),
{
    let mut order: Vec<usize> = Vec::new();
    let mut i: usize = 0;
    while i < dates.len()
        invariant
            i <= dates.len(),
            sorted_by_date(dates@, order@, i as nat),
        decreases dates.len() - i,
    {
        let mut p: usize = 0;
        while p < order.len() && !(dates[i] > dates[order[p]])
            invariant
                p <= order@.len(),
                i < dates@.len(),
                sorted_by_date(dates@, order@, i as nat),
                forall|q: int| 0 <= q < p ==> dates@[i as int] <= dates@[#[trigger] order@[q] as int],
            decreases order@.len() - p,
        {
            p += 1;
        }
        let ghost old_order = order@;
        proof {
            old_order.insert_ensures(p as int, i);
            if p < old_order.len() {
                assert(dates@[i as int] > dates@[old_order[p as int] as int]);
                assert forall|q: int| p <= q < old_order.len() implies dates@[i as int] > dates@[#[trigger] old_order[q] as int] by {
                    if q > p {
                        assert(listed_before(dates@, old_order[p as int], old_order[q]));
                    }
                }
            }
        }
        order.insert(p, i);
        assert forall|a: int, b: int| 0 <= a < b < order@.len() implies listed_before(dates@, #[trigger] order@[a], #[trigger] order@[b]) by {
            if b < p {
                assert(order@[a] == old_order[a] && order@[b] == old_order[b]);
            } else if b == p {
                assert(order@[a] == old_order[a]);
                assert(old_order[a] < i);
            } else if a < p {
                assert(order@[a] == old_order[a] && order@[b] == old_order[b - 1]);
                assert(dates@[i as int] > dates@[old_order[b - 1] as int]);
            } else if a == p {
                assert(order@[b] == old_order[b - 1]);
            } else {
                assert(order@[a] == old_order[a - 1] && order@[b] == old_order[b - 1]);
            }
        }
        assert forall|k: int| 0 <= k < order@.len() implies #[trigger] order@[k] < i + 1 by {
            if k < p {
                assert(order@[k] == old_order[k]);
            } else if k > p {
                assert(order@[k] == old_order[k - 1]);
            }
        }
        assert forall|x: usize| x < i + 1 implies #[trigger] order@.contains(x) by {
            if x == i {
                assert(order@[p as int] == i);
            } else {
                assert(old_order.contains(x));
                let m = choose|m: int| 0 <= m < old_order.len() && old_order[m] == x;
                if m < p {
                    assert(order@[m] == x);
                } else {
                    assert(order@[m + 1] == x);
                }
            }
        }
        i += 1;
    }
    order
}

/// The positions of the envelopes of a page, latest date first: the
/// page of the sorted envelopes, or the out-of-bounds error when the
/// page starts after the last envelope.
pub fn list_envelopes_page(dates: &Vec<i64>, page: usize, page_size: usize) -> (r: Result<Vec<usize>, MaildirError>)
    requires
        page * page_size + page_size <= usize::MAX,
        page * page_size + 1 <= usize::MAX,
    ensures
        match page_bounds_spec(dates@.len(), page as nat, page_size as nat) {
            Some((b, e)) => r matches Ok(v) && exists|order: Seq<usize>| sorted_by_date(dates@, order, dates@.len())
                && v@ == order.subrange(b as int, e as int),
            None => r matches Err(MaildirError::GetEnvelopesOutOfBoundsError(p)) && p == page * page_size + 1,
        },
{
    let (begin, end) = match page_bounds(dates.len(), page, page_size) {
        Ok(bounds) => bounds,
        Err(e) => return Err(e),
    };
    let order = sort_by_date(dates);
    let mut v: Vec<usize> = Vec::new();
    let mut k: usize = begin;
    while k < end
        invariant
            begin <= k <= end <= order@.len(),
            v@ == order@.subrange(begin as int, k as int),
        decreases end - k,
    {
        v.push(order[k]);
        assert(v@ =~= order@.subrange(begin as int, k + 1));
        k += 1;
    }
    Ok(v)
}

/// The position of the first occurrence of `id` among the requested
/// ids, `-1` when it is not requested.
pub open spec fn index_in(requested: Seq<Seq<char>>, id: Seq<char>) -> int
    decreases requested.len(),
{
    if requested.len() == 0 {
        -1
    } else if requested[0] == id {
        0
    } else {
        let r = index_in(requested.drop_first(), id);
        if r < 0 {
            -1
        } else {
            r + 1
        }
    }
}

proof fn lemma_index_in(requested: Seq<Seq<char>>, id: Seq<char>)
    ensures
        index_in(requested, id) < requested.len(),
        index_in(requested, id) < 0 ==> index_in(requested, id) == -1
            && forall|q: int| 0 <= q < requested.len() ==> requested[q] != id,
        index_in(requested, id) >= 0 ==> requested[index_in(requested, id)] == id
            && forall|q: int| 0 <= q < index_in(requested, id) ==> requested[q] != id,
    decreases requested.len(),
{
    if requested.len() > 0 && requested[0] != id {
        let rest = requested.drop_first();
        lemma_index_in(rest, id);
        assert forall|q: int| 1 <= q < requested.len() implies requested[q] == rest[q - 1] by {}
    }
}

/// Whether the entry at `a` is previewed before the one at `b`: the
/// one requested first comes first, entries requested under the same
/// id keep the order of the folder.
pub open spec fn previewed_before(requested: Seq<Seq<char>>, ids: Seq<Seq<char>>, a: usize, b: usize) -> bool {
    let pa = index_in(requested, ids[a as int]);
    let pb = index_in(requested, ids[b as int]);
    pa < pb || (pa == pb && a < b)
}

/// Whether `order` lists the entries whose id is requested, each once,
/// in the order of the request.
pub open spec fn preview_order_spec(requested: Seq<Seq<char>>, ids: Seq<Seq<char>>, order: Seq<usize>) -> bool {
    &&& forall|k: int| 0 <= k < order.len() ==> #[trigger] order[k] < ids.len()
        && index_in(requested, ids[order[k] as int]) >= 0
    &&& forall|x: usize| x < ids.len() && index_in(requested, ids[x as int]) >= 0 ==> #[trigger] order.contains(x)
    &&& forall|i: int, j: int| 0 <= i < j < order.len()
        ==> previewed_before(requested, ids, #[trigger] order[i], #[trigger] order[j])
}

/// There is one preview order only: two orders of the same entries for
/// the same request are the same.
pub proof fn law_preview_order_unique(requested: Seq<Seq<char>>, ids: Seq<Seq<char>>, o1: Seq<usize>, o2: Seq<usize>)
    requires
        preview_order_spec(requested, ids, o1),
        preview_order_spec(requested, ids, o2),
    ensures
        o1 == o2,
{
    lemma_preview_prefix(requested, ids, o1, o2, o1.len() as int);
    lemma_preview_prefix(requested, ids, o2, o1, o2.len() as int);
    assert(o1 =~= o2);
}

proof fn lemma_preview_prefix(requested: Seq<Seq<char>>, ids: Seq<Seq<char>>, o1: Seq<usize>, o2: Seq<usize>, n: int)
    requires
        preview_order_spec(requested, ids, o1),
        preview_order_spec(requested, ids, o2),
        0 <= n <= o1.len(),
    ensures
        n <= o2.len(),
        forall|k: int| 0 <= k < n ==> o1[k] == o2[k],
    decreases n,
{
    if n > 0 {
        lemma_preview_prefix(requested, ids, o1, o2, n - 1);
        let k = n - 1;
        let a = o1[k];
        assert(o2.contains(a));
        let m = choose|m: int| 0 <= m < o2.len() && o2[m] == a;
        if m < k {
            assert(o1[m] == a);
            assert(previewed_before(requested, ids, o1[m], o1[k]));
        }
        let b = o2[k];
        if a != b {
            assert(o1.contains(b));
            let m2 = choose|m2: int| 0 <= m2 < o1.len() && o1[m2] == b;
            if m2 < k {
                assert(o2[m2] == b);
                assert(previewed_before(requested, ids, o2[m2], o2[k]));
            } else {
                assert(previewed_before(requested, ids, o1[k], o1[m2]));
                assert(previewed_before(requested, ids, o2[k], o2[m]));
            }
        }
    }
}

fn position_in(requested: &Vec<String>, id: &str) -> (p: Option<usize>)
    ensures
        match p {
            Some(n) => n == index_in(requested@.map_values(|s: String| s@), id@),
            None => index_in(requested@.map_values(|s: String| s@), id@) < 0,
        },
{
    let ghost req = requested@.map_values(|s: String| s@);
    proof {
        lemma_index_in(req, id@);
    }
    let mut p: usize = 0;
    while p < requested.len()
        invariant
            p <= requested.len(),
            req == requested@.map_values(|s: String| s@),
            forall|q: int| 0 <= q < p ==> req[q] != id@,
        decreases requested.len() - p,
    {
        if str_eq(requested[p].as_str(), id) {
            assert(req[p as int] == id@);
            proof {
                lemma_index_in(req, id@);
                let r = index_in(req, id@);
                if r < p {
                    assert(req[r] != id@);
                } else if r > p {
                    assert(req[p as int] != id@);
                }
            }
            return Some(p);
        }
        p += 1;
    }
    proof {
        lemma_index_in(req, id@);
        if index_in(req, id@) >= 0 {
            assert(req[index_in(req, id@)] != id@);
        }
    }
    None
}

/// The entries to preview, in the order of the requested ids: the
/// positions of the entries whose id is requested, the entry of the id
/// requested first coming first.
pub fn preview_order(requested: &Vec<String>, ids: &Vec<String>) -> (order: Vec<usize>)
    ensures
        preview_order_spec(requested@.map_values(|s: String| s@), ids@.map_values(|s: String| s@), order@),
{
    let ghost req = requested@.map_values(|s: String| s@);
    let ghost idv = ids@.map_values(|s: String| s@);
    let mut order: Vec<usize> = Vec::new();
    let mut keys: Vec<usize> = Vec::new();
    let mut i: usize = 0;
    while i < ids.len()
        invariant
            i <= ids.len(),
            req == requested@.map_values(|s: String| s@),
            idv == ids@.map_values(|s: String| s@),
            keys@.len() == order@.len(),
            forall|k: int| 0 <= k < order@.len() ==> #[trigger] order@[k] < i
                && index_in(req, idv[order@[k] as int]) >= 0
                && keys@[k] == index_in(req, idv[order@[k] as int]),
            forall|x: usize| x < i && index_in(req, idv[x as int]) >= 0 ==> #[trigger] order@.contains(x),
            forall|a: int, b: int| 0 <= a < b < order@.len()
                ==> previewed_before(req, idv, #[trigger] order@[a], #[trigger] order@[b]),
        decreases ids.len() - i,
    {
        assert(idv[i as int] == ids@[i as int]@);
        match position_in(requested, ids[i].as_str()) {
            None => {
                assert forall|x: usize| x < i + 1 && index_in(req, idv[x as int]) >= 0 implies #[trigger] order@.contains(x) by {}
            },
            Some(pos) => {
                let mut p: usize = 0;
                while p < order.len() && !(pos < keys[p])
                    invariant
                        p <= order@.len(),
                        keys@.len() == order@.len(),
                        forall|q: int| 0 <= q < p ==> keys@[q] <= pos,
                    decreases order@.len() - p,
                {
                    p += 1;
                }
                let ghost old_order = order@;
                let ghost old_keys = keys@;
                proof {
                    old_order.insert_ensures(p as int, i);
                    old_keys.insert_ensures(p as int, pos);
                    if p < old_order.len() {
                        assert forall|q: int| p <= q < old_order.len() implies pos < #[trigger] old_keys[q] by {
                            if q > p {
                                assert(previewed_before(req, idv, old_order[p as int], old_order[q]));
                            }
                        }
                    }
                }
                order.insert(p, i);
                keys.insert(p, pos);
                assert forall|a: int, b: int| 0 <= a < b < order@.len()
                    implies previewed_before(req, idv, #[trigger] order@[a], #[trigger] order@[b]) by {
                    if b < p {
                        assert(order@[a] == old_order[a] && order@[b] == old_order[b]);
                    } else if b == p {
                        assert(order@[a] == old_order[a]);
                        assert(old_keys[a] <= pos);
                    } else if a < p {
                        assert(order@[a] == old_order[a] && order@[b] == old_order[b - 1]);
                        assert(old_keys[a] <= pos);
                        assert(pos < old_keys[b - 1]);
                    } else if a == p {
                        assert(order@[b] == old_order[b - 1]);
                        assert(pos < old_keys[b - 1]);
                    } else {
                        assert(order@[a] == old_order[a - 1] && order@[b] == old_order[b - 1]);
                    }
                }
                assert forall|k: int| 0 <= k < order@.len() implies #[trigger] order@[k] < i + 1
                    && index_in(req, idv[order@[k] as int]) >= 0
                    && keys@[k] == index_in(req, idv[order@[k] as int]) by {
                    if k < p {
                        assert(order@[k] == old_order[k] && keys@[k] == old_keys[k]);
                    } else if k > p {
                        assert(order@[k] == old_order[k - 1] && keys@[k] == old_keys[k - 1]);
                    }
                }
                assert forall|x: usize| x < i + 1 && index_in(req, idv[x as int]) >= 0
                    implies #[trigger] order@.contains(x) by {
                    if x == i {
                        assert(order@[p as int] == i);
                    } else {
                        assert(old_order.contains(x));
                        let m = choose|m: int| 0 <= m < old_order.len() && old_order[m] == x;
                        if m < p {
                            assert(order@[m] == x);
                        } else {
                            assert(order@[m + 1] == x);
                        }
                    }
                }
            },
        }
        i += 1;
    }
    order
}

/// How messages are deleted from a folder.
#[derive(Debug, Clone, Copy, PartialEq, Eq, Structural)]
pub enum DeletePlan {
    /// The folder is the trash: the messages are flagged as deleted.
    FlagAsDeleted,
    /// The messages are moved to the trash.
    MoveToTrash,
}

/// How messages are deleted from the folder of the given alias: they
/// are flagged as deleted in the trash, and moved to the trash from any
/// other folder.
pub fn delete_plan(folder_alias: &str, trash_alias: &str) -> (p: DeletePlan)
    ensures
        p == (if folder_alias@ == trash_alias@ { DeletePlan::FlagAsDeleted } else { DeletePlan::MoveToTrash }),
{
    if str_eq(folder_alias, trash_alias) {
        DeletePlan::FlagAsDeleted
    } else {
        DeletePlan::MoveToTrash
    }
}

/// The Maildir backend configuration.
#[derive(Debug, Clone, PartialEq, Eq)]
pub struct MaildirConfig {
    /// The root directory of the Maildir.
    pub root_dir: String,
}

} // verus!
